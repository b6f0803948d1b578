//! The call registry: the outstanding calls, file-descriptor calls and
//! subscriptions of one connection, each under the id its request went out
//! with, and what must be sent again to resubscribe after a reconnect.
use std::collections::HashMap;

use bson::Bson;
use futures::channel::{mpsc, oneshot};
use tokio::net::UnixStream;
use vstd::prelude::*;

use crate::channel::{queue_bound, subscription_queue, try_queue, Queued};
use crate::error::{Error, ErrorView, Result};
use crate::message::{DataView, MessageView, RpcData, RpcMessage};

verus! {

broadcast use vstd::std_specs::hash::group_hash_axioms;

/// Capacity of a subscription's queue.
pub const SUBSCRIPTION_QUEUE_SIZE: usize = 100;

/// The registry as sets of ids, and the subscriptions to replay in the order
/// they were made.
pub struct RegistryView {
    /// The last id handed out; zero before the first.
    pub last_id: int,
    /// Ids of one-shot calls waiting for their response.
    pub calls: Set<i64>,
    /// Ids of calls waiting for a response and a stream.
    pub fd_calls: Set<i64>,
    /// Ids of subscriptions whose subscriber is there to receive.
    pub subscriptions: Set<i64>,
    /// Subscriptions to replay on reconnect: id and endpoint.
    pub active: Seq<(i64, Seq<char>)>,
}

impl RegistryView {
    pub open spec fn active_ids(self) -> Set<i64> {
        Set::new(|id: i64| exists|i: int| 0 <= i < self.active.len() && self.active[i].0 == id)
    }

    /// Every id that some entry holds.
    pub open spec fn ids(self) -> Set<i64> {
        self.calls + self.fd_calls + self.subscriptions
    }

    pub open spec fn wf(self) -> bool {
        &&& 0 <= self.last_id <= i64::MAX
        &&& forall|id: i64| #[trigger] self.ids().contains(id) ==> 1 <= id <= self.last_id
        &&& self.calls.disjoint(self.fd_calls)
        &&& self.calls.disjoint(self.subscriptions)
        &&& self.fd_calls.disjoint(self.subscriptions)
        &&& forall|i: int, j: int|
            0 <= i < j < self.active.len() ==> self.active[i].0 != self.active[j].0
        &&& forall|i: int|
            0 <= i < self.active.len() ==> self.subscriptions.contains(#[trigger] self.active[i].0)
    }

    /// The position of the subscription `id` among those to replay.
    pub open spec fn active_index(self, id: i64) -> int {
        choose|i: int| 0 <= i < self.active.len() && self.active[i].0 == id
    }

    /// The registry after the subscription `id` is gone.
    pub open spec fn without_subscription(self, id: i64) -> RegistryView {
        RegistryView {
            subscriptions: self.subscriptions.remove(id),
            active: self.active.remove(self.active_index(id)),
            ..self
        }
    }
}

/// `after` handed out `id` as the next id after `before`.
pub open spec fn allocates(before: RegistryView, after: RegistryView, id: i64) -> bool {
    &&& id == before.last_id + 1
    &&& after.last_id == id
}

/// What became of a response handed to the registry.
#[derive(Debug)]
pub enum Delivery {
    /// The waiting caller or subscriber received it.
    Delivered,
    /// The waiting side had gone; its entries are removed.
    ReceiverGone,
    /// The subscription's queue was full; the response comes back, to be
    /// handed over again once the subscriber has taken some.
    QueueFull(Result<Bson>),
    /// The subscription is not active yet; the response was dropped.
    Inactive,
    /// No call or subscription holds the id; the response was dropped.
    Unknown,
}

/// What [`CallsRegistry::resolve`] does with a response for `id`, from `o` to
/// `n`, reporting `r`.
pub open spec fn resolves(o: RegistryView, n: RegistryView, id: i64, r: Delivery) -> bool {
    if o.calls.contains(id) {
        (r is Delivered || r is ReceiverGone) && n == (RegistryView {
            calls: o.calls.remove(id),
            ..o
        })
    } else if o.subscriptions.contains(id) {
        if o.active_ids().contains(id) {
            ((r is Delivered || r is QueueFull) && n == o) || (r is ReceiverGone && n
                == o.without_subscription(id))
        } else {
            r is Inactive && n == o
        }
    } else {
        resolves_fd(o, n, id, r)
    }
}

/// What [`CallsRegistry::resolve_with_fd`] does with a response for `id`.
pub open spec fn resolves_fd(o: RegistryView, n: RegistryView, id: i64, r: Delivery) -> bool {
    if o.fd_calls.contains(id) {
        (r is Delivered || r is ReceiverGone) && n == (RegistryView {
            fd_calls: o.fd_calls.remove(id),
            ..o
        })
    } else {
        r is Unknown && n == o
    }
}

/// The tracked calls and subscriptions of one connection.
pub struct CallsRegistry {
    id_counter: i64,
    calls: HashMap<i64, oneshot::Sender<Result<Bson>>>,
    fd_calls: HashMap<i64, oneshot::Sender<Result<(Bson, UnixStream)>>>,
    subscriptions: HashMap<i64, mpsc::Sender<Result<Bson>>>,
    active_subscriptions: Vec<(i64, String)>,
}

pub open spec fn entry_view(p: (i64, String)) -> (i64, Seq<char>) {
    (p.0, p.1@)
}

impl View for CallsRegistry {
    type V = RegistryView;

    closed spec fn view(&self) -> RegistryView {
        RegistryView {
            last_id: self.id_counter as int,
            calls: self.calls@.dom(),
            fd_calls: self.fd_calls@.dom(),
            subscriptions: self.subscriptions@.dom(),
            active: self.active_subscriptions@.map_values(|p: (i64, String)| entry_view(p)),
        }
    }
}

/// What an FD call receives for a response: the value and the stream, the
/// response's error, or an internal error when a successful response came
/// without its stream.
pub fn fd_outcome(response: Result<Bson>, stream: Option<UnixStream>) -> (r: Result<
    (Bson, UnixStream),
>)
    ensures
        match (response, stream) {
            (Ok(b), Some(s)) => r is Ok && r->Ok_0 == (b, s),
            (Ok(_), None) => r is Err && r->Err_0@ == ErrorView::InternalError(
                "Ok without stream"@,
            ),
            (Err(e), _) => r is Err && r->Err_0 == e,
        },
{
    match response {
        Ok(b) => match stream {
            Some(s) => Ok((b, s)),
            None => Err(Error::InternalError("Ok without stream".to_owned())),
        },
        Err(e) => Err(e),
    }
}

/// A registry that gains only the fresh id `id` stays well formed. `set` says
/// where the id goes: 0 for calls, 1 for FD calls, 2 for subscriptions, any
/// other value for nowhere.
proof fn lemma_fresh_id_keeps_wf(o: RegistryView, n: RegistryView, id: i64, set: int)
    requires
        o.wf(),
        allocates(o, n, id),
        n.active == o.active,
        n.calls == (if set == 0 { o.calls.insert(id) } else { o.calls }),
        n.fd_calls == (if set == 1 { o.fd_calls.insert(id) } else { o.fd_calls }),
        n.subscriptions == (if set == 2 { o.subscriptions.insert(id) } else { o.subscriptions }),
    ensures
        n.wf(),
        !o.ids().contains(id),
{
    if o.ids().contains(id) {
    }
    assert forall|x: i64| #[trigger] n.ids().contains(x) implies 1 <= x <= n.last_id by {
        if x != id {
            assert(o.ids().contains(x));
        }
    }
    assert forall|i: int| 0 <= i < n.active.len() implies n.subscriptions.contains(
        #[trigger] n.active[i].0,
    ) by {
        assert(o.subscriptions.contains(o.active[i].0));
    }
}

/// Ids handed out one after another increase strictly, whatever happened in
/// between, and each is new: no entry held it before.
pub proof fn lemma_ids_strictly_increase(
    a: RegistryView,
    b: RegistryView,
    c: RegistryView,
    d: RegistryView,
    first: i64,
    second: i64,
)
    requires
        a.wf(),
        allocates(a, b, first),
        b.last_id <= c.last_id,
        allocates(c, d, second),
    ensures
        first < second,
        !a.ids().contains(first),
{
    if a.ids().contains(first) {
    }
}

/// A call is answered at most once: handing over its response reaches the
/// caller or finds it gone, and afterwards no entry holds its id, so a second
/// response for it is dropped as unknown.
pub proof fn lemma_call_answered_once(o: RegistryView, n: RegistryView, id: i64, r: Delivery)
    requires
        o.wf(),
        o.calls.contains(id),
        resolves(o, n, id, r),
    ensures
        r is Delivered || r is ReceiverGone,
        !n.ids().contains(id),
{
}

/// Responses keep flowing to a subscription: a response for any id leaves an
/// active subscription in place unless it is that subscription's own and its
/// subscriber is gone, and a response for an active subscription is
/// delivered, reported dropped on a full queue, or finds the subscriber gone,
/// which removes the subscription from both the sinks and the replay list.
pub proof fn lemma_subscription_kept(o: RegistryView, n: RegistryView, id: i64, r: Delivery, sub: i64)
    requires
        o.wf(),
        resolves(o, n, id, r),
        o.active_ids().contains(sub),
    ensures
        !(id == sub && r is ReceiverGone) ==> n.active_ids().contains(sub),
        id == sub ==> r is Delivered || r is QueueFull || r is ReceiverGone,
        id == sub && r is ReceiverGone ==> !n.active_ids().contains(sub)
            && !n.subscriptions.contains(sub),
{
    let k = choose|k: int| 0 <= k < o.active.len() && o.active[k].0 == sub;
    assert(o.subscriptions.contains(o.active[k].0));
    if o.subscriptions.contains(id) && !o.calls.contains(id) && o.active_ids().contains(id)
        && r is ReceiverGone {
        let j = o.active_index(id);
        assert(0 <= j < o.active.len() && o.active[j].0 == id);
        if id != sub {
            if k < j {
                assert(n.active[k] == o.active[k]);
            } else {
                assert(n.active[k - 1] == o.active[k]);
            }
        } else {
            assert forall|m: int| 0 <= m < n.active.len() implies n.active[m].0 != sub by {
                if m < j {
                    assert(n.active[m] == o.active[m]);
                } else {
                    assert(n.active[m] == o.active[m + 1]);
                }
            }
        }
    }
}

impl CallsRegistry {
    pub open spec fn wf(&self) -> bool {
        self@.wf()
    }

    /// An empty registry; the first id it hands out is 1.
    pub fn new() -> (r: Self)
        ensures
            r.wf(),
            r@.last_id == 0,
            r@.calls == Set::<i64>::empty(),
            r@.fd_calls == Set::<i64>::empty(),
            r@.subscriptions == Set::<i64>::empty(),
            r@.active == Seq::<(i64, Seq<char>)>::empty(),
    {
        let r = Self {
            id_counter: 0,
            calls: HashMap::new(),
            fd_calls: HashMap::new(),
            subscriptions: HashMap::new(),
            active_subscriptions: Vec::new(),
        };
        proof {
            assert(r@.active =~= Seq::<(i64, Seq<char>)>::empty());
            assert(r@.ids() =~= Set::<i64>::empty());
        }
        r
    }

    /// Whether another id can be handed out.
    pub fn can_allocate(&self) -> (r: bool)
        ensures
            r == (self@.last_id < i64::MAX),
    {
        self.id_counter < i64::MAX
    }

    fn next_id(&mut self) -> (id: i64)
        requires
            old(self).wf(),
            old(self)@.last_id < i64::MAX,
        ensures
            allocates(old(self)@, final(self)@, id),
            final(self)@ == (RegistryView { last_id: id as int, ..old(self)@ }),
            final(self).wf(),
    {
        self.id_counter = self.id_counter + 1;
        proof {
            assert(self@.active =~= old(self)@.active);
            lemma_fresh_id_keeps_wf(old(self)@, self@, self.id_counter, 3);
        }
        self.id_counter
    }

    /// Registers a one-shot call under the next id. The receiver yields the
    /// response, or reports cancellation when the entry is dropped.
    pub fn add_call(&mut self) -> (r: (i64, oneshot::Receiver<Result<Bson>>))
        requires
            old(self).wf(),
            old(self)@.last_id < i64::MAX,
        ensures
            final(self).wf(),
            allocates(old(self)@, final(self)@, r.0),
            !old(self)@.ids().contains(r.0),
            final(self)@ == (RegistryView {
                last_id: r.0 as int,
                calls: old(self)@.calls.insert(r.0),
                ..old(self)@
            }),
    {
        let (sender, receiver) = oneshot::channel();
        let id = self.next_id();
        self.calls.insert(id, sender);
        proof {
            assert(self@.ids() =~= old(self)@.ids().insert(id));
            assert(self@.active =~= old(self)@.active);
            lemma_fresh_id_keeps_wf(old(self)@, self@, id, 0);
        }
        (id, receiver)
    }

    /// Registers a call whose response comes with a stream, under the next id.
    pub fn add_fd_call(&mut self) -> (r: (i64, oneshot::Receiver<Result<(Bson, UnixStream)>>))
        requires
            old(self).wf(),
            old(self)@.last_id < i64::MAX,
        ensures
            final(self).wf(),
            allocates(old(self)@, final(self)@, r.0),
            !old(self)@.ids().contains(r.0),
            final(self)@ == (RegistryView {
                last_id: r.0 as int,
                fd_calls: old(self)@.fd_calls.insert(r.0),
                ..old(self)@
            }),
    {
        let (sender, receiver) = oneshot::channel();
        let id = self.next_id();
        self.fd_calls.insert(id, sender);
        proof {
            assert(self@.ids() =~= old(self)@.ids().insert(id));
            assert(self@.active =~= old(self)@.active);
            lemma_fresh_id_keeps_wf(old(self)@, self@, id, 1);
        }
        (id, receiver)
    }

    /// Registers a subscription under the next id, with a queue of
    /// [`SUBSCRIPTION_QUEUE_SIZE`] responses.
    pub fn add_subscription(&mut self) -> (r: (i64, mpsc::Receiver<Result<Bson>>))
        requires
            old(self).wf(),
            old(self)@.last_id < i64::MAX,
        ensures
            final(self).wf(),
            queue_bound(r.1) == SUBSCRIPTION_QUEUE_SIZE,
            allocates(old(self)@, final(self)@, r.0),
            !old(self)@.ids().contains(r.0),
            final(self)@ == (RegistryView {
                last_id: r.0 as int,
                subscriptions: old(self)@.subscriptions.insert(r.0),
                ..old(self)@
            }),
    {
        let (sender, receiver) = subscription_queue(SUBSCRIPTION_QUEUE_SIZE);
        let id = self.next_id();
        self.subscriptions.insert(id, sender);
        proof {
            assert(self@.ids() =~= old(self)@.ids().insert(id));
            assert(self@.active =~= old(self)@.active);
            lemma_fresh_id_keeps_wf(old(self)@, self@, id, 2);
        }
        (id, receiver)
    }

    /// Records the endpoint of subscription `id`, to subscribe again after a
    /// reconnect.
    pub fn add_persistent_call(&mut self, id: i64, endpoint: String)
        requires
            old(self).wf(),
            old(self)@.subscriptions.contains(id),
            !old(self)@.active_ids().contains(id),
        ensures
            final(self).wf(),
            final(self)@ == (RegistryView {
                active: old(self)@.active.push((id, endpoint@)),
                ..old(self)@
            }),
    {
        let ghost e = endpoint@;
        self.active_subscriptions.push((id, endpoint));
        proof {
            assert(self@.active =~= old(self)@.active.push((id, e)));
            let o = old(self)@;
            assert forall|i: int| 0 <= i < o.active.len() implies o.active[i].0 != id by {
                if o.active[i].0 == id {
                    assert(o.active_ids().contains(id));
                }
            }
            assert forall|i: int, j: int|
                0 <= i < j < self@.active.len() implies self@.active[i].0 != self@.active[j].0 by {
                assert(self@.active[i] == o.active[i]);
                if j < o.active.len() {
                    assert(self@.active[j] == o.active[j]);
                }
            }
            assert forall|i: int| 0 <= i < self@.active.len() implies self@.subscriptions.contains(
                #[trigger] self@.active[i].0,
            ) by {
                if i < o.active.len() {
                    assert(self@.active[i] == o.active[i]);
                    assert(o.subscriptions.contains(o.active[i].0));
                }
            }
            assert forall|x: i64| #[trigger] self@.ids().contains(x) implies 1 <= x
                <= self@.last_id by {
                assert(o.ids().contains(x));
            }
        }
    }

    /// Where subscription `id` stands among those to replay.
    fn find_active(&self, id: i64) -> (r: Option<usize>)
        requires
            self.wf(),
        ensures
            match r {
                Some(i) => i < self@.active.len() && self@.active[i as int].0 == id && i
                    == self@.active_index(id),
                None => !self@.active_ids().contains(id),
            },
    {
        let mut i: usize = 0;
        while i < self.active_subscriptions.len()
            invariant
                self.wf(),
                0 <= i <= self.active_subscriptions@.len(),
                self@.active.len() == self.active_subscriptions@.len(),
                forall|k: int| 0 <= k < i ==> self@.active[k].0 != id,
            decreases self.active_subscriptions@.len() - i,
        {
            if self.active_subscriptions[i].0 == id {
                proof {
                    assert(self@.active[i as int].0 == id);
                    let j = self@.active_index(id);
                    assert(0 <= j < self@.active.len() && self@.active[j].0 == id);
                }
                return Some(i);
            }
            i = i + 1;
        }
        None
    }

    /// Hands a response to the call or subscription that waits for it. One-shot
    /// calls come first, then subscriptions, then FD calls, whose error
    /// responses arrive as plain responses. A call leaves the registry once it
    /// has its response; a subscription stays until its subscriber is gone.
    pub fn resolve(&mut self, id: i64, response: Result<Bson>) -> (r: Delivery)
        requires
            old(self).wf(),
        ensures
            final(self).wf(),
            resolves(old(self)@, final(self)@, id, r),
            r matches Delivery::QueueFull(v) ==> v == response,
    {
        if let Some(sink) = self.calls.remove(&id) {
            proof {
                assert(self@.active =~= old(self)@.active);
                assert(self@.ids().subset_of(old(self)@.ids()));
            }
            match sink.send(response) {
                Ok(()) => Delivery::Delivered,
                Err(_) => Delivery::ReceiverGone,
            }
        } else if self.subscriptions.contains_key(&id) {
            proof {
                assert(self@ == old(self)@) by {
                    assert(self@.calls =~= old(self)@.calls);
                    assert(self@.active =~= old(self)@.active);
                }
            }
            self.resolve_subscription(id, response)
        } else if self.fd_calls.contains_key(&id) {
            proof {
                assert(self@ == old(self)@) by {
                    assert(self@.calls =~= old(self)@.calls);
                    assert(self@.active =~= old(self)@.active);
                }
            }
            self.resolve_with_fd(id, response, None)
        } else {
            proof {
                assert(self@ == old(self)@) by {
                    assert(self@.calls =~= old(self)@.calls);
                    assert(self@.active =~= old(self)@.active);
                }
            }
            Delivery::Unknown
        }
    }

    fn resolve_subscription(&mut self, id: i64, response: Result<Bson>) -> (r: Delivery)
        requires
            old(self).wf(),
            old(self)@.subscriptions.contains(id),
        ensures
            final(self).wf(),
            old(self)@.active_ids().contains(id) ==> ((r is Delivered || r is QueueFull)
                && final(self)@ == old(self)@) || (r is ReceiverGone && final(self)@ == old(
                self,
            )@.without_subscription(id)),
            !old(self)@.active_ids().contains(id) ==> r is Inactive && final(self)@ == old(self)@,
            r matches Delivery::QueueFull(v) ==> v == response,
    {
        let index = match self.find_active(id) {
            Some(i) => i,
            None => return Delivery::Inactive,
        };
        let mut sink = match self.subscriptions.remove(&id) {
            Some(s) => s,
            None => return Delivery::Inactive,
        };
        match try_queue(&mut sink, response) {
            Queued::Accepted => {
                self.subscriptions.insert(id, sink);
                proof {
                    assert(self@.subscriptions =~= old(self)@.subscriptions);
                    assert(self@.active =~= old(self)@.active);
                }
                Delivery::Delivered
            },
            Queued::Closed => {
                self.active_subscriptions.remove(index);
                proof {
                    let o = old(self)@;
                    assert(self@.active =~= o.active.remove(index as int));
                    assert(self@ == o.without_subscription(id));
                    assert forall|k: int| 0 <= k < self@.active.len() implies self@.subscriptions.contains(
                        #[trigger] self@.active[k].0,
                    ) by {
                        if k < index {
                            assert(self@.active[k] == o.active[k]);
                        } else {
                            assert(self@.active[k] == o.active[k + 1]);
                        }
                    }
                    assert(self@.ids().subset_of(o.ids()));
                }
                Delivery::ReceiverGone
            },
            Queued::Full(back) => {
                self.subscriptions.insert(id, sink);
                proof {
                    assert(self@.subscriptions =~= old(self)@.subscriptions);
                    assert(self@.active =~= old(self)@.active);
                }
                Delivery::QueueFull(back)
            },
        }
    }

    /// Hands a response, and the stream that followed it if any, to the FD call
    /// `id`, which then leaves the registry. See [`fd_outcome`] for what the
    /// caller receives.
    pub fn resolve_with_fd(
        &mut self,
        id: i64,
        response: Result<Bson>,
        stream: Option<UnixStream>,
    ) -> (r: Delivery)
        requires
            old(self).wf(),
        ensures
            final(self).wf(),
            resolves_fd(old(self)@, final(self)@, id, r),
    {
        match self.fd_calls.remove(&id) {
            Some(sink) => {
                proof {
                    assert(self@.active =~= old(self)@.active);
                    assert(self@.ids().subset_of(old(self)@.ids()));
                }
                match sink.send(fd_outcome(response, stream)) {
                    Ok(()) => Delivery::Delivered,
                    Err(_) => Delivery::ReceiverGone,
                }
            },
            None => {
                proof {
                    assert(self@ == old(self)@) by {
                        assert(self@.fd_calls =~= old(self)@.fd_calls);
                        assert(self@.active =~= old(self)@.active);
                    }
                }
                Delivery::Unknown
            },
        }
    }

    /// Drops every call and FD call that waits for a response: their callers
    /// see the channel close. Subscriptions stay.
    pub fn clear_pending_calls(&mut self)
        requires
            old(self).wf(),
        ensures
            final(self).wf(),
            final(self)@ == (RegistryView {
                calls: Set::<i64>::empty(),
                fd_calls: Set::<i64>::empty(),
                ..old(self)@
            }),
    {
        self.calls.clear();
        self.fd_calls.clear();
        proof {
            assert(self@.calls =~= Set::<i64>::empty());
            assert(self@.fd_calls =~= Set::<i64>::empty());
            assert(self@.active =~= old(self)@.active);
            assert(self@.ids().subset_of(old(self)@.ids()));
        }
    }

    /// The subscription frames to send again on a new stream, one per active
    /// subscription, in the order they were made.
    pub fn active_subscriptions(&self) -> (r: Vec<RpcMessage>)
        requires
            self.wf(),
        ensures
            r@.len() == self@.active.len(),
            forall|i: int|
                0 <= i < r@.len() ==> (#[trigger] r@[i])@ == (MessageView {
                    id: self@.active[i].0,
                    data: DataView::Subscription { endpoint: self@.active[i].1 },
                }),
    {
        let mut r: Vec<RpcMessage> = Vec::new();
        let mut i: usize = 0;
        while i < self.active_subscriptions.len()
            invariant
                0 <= i <= self.active_subscriptions@.len(),
                self@.active.len() == self.active_subscriptions@.len(),
                r@.len() == i,
                forall|k: int|
                    0 <= k < i ==> (#[trigger] r@[k])@ == (MessageView {
                        id: self@.active[k].0,
                        data: DataView::Subscription { endpoint: self@.active[k].1 },
                    }),
            decreases self.active_subscriptions@.len() - i,
        {
            let (id, endpoint) = &self.active_subscriptions[i];
            r.push(RpcMessage { id: *id, data: RpcData::Subscription { endpoint: endpoint.clone() } });
            i = i + 1;
        }
        r
    }
}

} // verus!
