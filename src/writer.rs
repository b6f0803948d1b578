//! What the writer sends: the frame for each outgoing operation, the ids and
//! registry entries that go with them, and the handoff to a new stream.
//!
//! Values reach this module already encoded: the caller's serializer hands in
//! `Ok(bson)` or `Err(reason)`, and a reason becomes the operation's error
//! before anything is registered or written.
use bson::Bson;
use futures::channel::{mpsc, oneshot};
use tokio::net::UnixStream;
use vstd::prelude::*;

use crate::error::{Error, ErrorView, Result};
use crate::message::{
    result_view, DataView, MessageView, RpcData, RpcMessage, CONNECTION_REQUEST_ID, ONE_WAY_ID,
};
use crate::registry::{allocates, CallsRegistry, RegistryView};

verus! {

/// A value as the caller's serializer produced it.
pub type Encoded = core::result::Result<Bson, String>;

/// The one-way frame for `body` sent to `endpoint`; a body that did not
/// serialize is a parameters error and no frame.
pub fn message_frame(endpoint: &str, body: Encoded) -> (r: Result<RpcMessage>)
    ensures
        match body {
            Ok(b) => r is Ok && r->Ok_0@ == (MessageView {
                id: ONE_WAY_ID,
                data: DataView::Message { endpoint: endpoint@, body: b },
            }),
            Err(d) => r is Err && r->Err_0@ == ErrorView::ParamsTypeError(d@),
        },
{
    match body {
        Ok(b) => Ok(
            RpcMessage {
                id: ONE_WAY_ID,
                data: RpcData::Message { endpoint: endpoint.to_owned(), body: b },
            },
        ),
        Err(d) => Err(Error::ParamsTypeError(d)),
    }
}

/// Registers a call to `endpoint` and gives its frame and the receiver of its
/// response. Parameters that did not serialize are an error, and then nothing
/// is registered.
pub fn call_frame(registry: &mut CallsRegistry, endpoint: &str, params: Encoded) -> (r: Result<
    (RpcMessage, oneshot::Receiver<Result<Bson>>),
>)
    requires
        old(registry).wf(),
        params is Ok ==> old(registry)@.last_id < i64::MAX,
    ensures
        final(registry).wf(),
        match params {
            Ok(p) => r is Ok && allocates(old(registry)@, final(registry)@, r->Ok_0.0.id)
                && final(registry)@ == (RegistryView {
                last_id: r->Ok_0.0.id as int,
                calls: old(registry)@.calls.insert(r->Ok_0.0.id),
                ..old(registry)@
            }) && r->Ok_0.0.data@ == (DataView::Call { endpoint: endpoint@, params: p }),
            Err(d) => r is Err && r->Err_0@ == ErrorView::ParamsTypeError(d@) && final(registry)@
                == old(registry)@,
        },
{
    match params {
        Ok(p) => {
            let (id, receiver) = registry.add_call();
            Ok(
                (
                    RpcMessage {
                        id,
                        data: RpcData::Call { endpoint: endpoint.to_owned(), params: p },
                    },
                    receiver,
                ),
            )
        },
        Err(d) => Err(Error::ParamsTypeError(d)),
    }
}

/// Registers a call whose response comes with a stream, and gives its frame
/// and the receiver of its response.
pub fn call_fd_frame(registry: &mut CallsRegistry, endpoint: &str, params: Encoded) -> (r: Result<
    (RpcMessage, oneshot::Receiver<Result<(Bson, UnixStream)>>),
>)
    requires
        old(registry).wf(),
        params is Ok ==> old(registry)@.last_id < i64::MAX,
    ensures
        final(registry).wf(),
        match params {
            Ok(p) => r is Ok && allocates(old(registry)@, final(registry)@, r->Ok_0.0.id)
                && final(registry)@ == (RegistryView {
                last_id: r->Ok_0.0.id as int,
                fd_calls: old(registry)@.fd_calls.insert(r->Ok_0.0.id),
                ..old(registry)@
            }) && r->Ok_0.0.data@ == (DataView::Call { endpoint: endpoint@, params: p }),
            Err(d) => r is Err && r->Err_0@ == ErrorView::ParamsTypeError(d@) && final(registry)@
                == old(registry)@,
        },
{
    match params {
        Ok(p) => {
            let (id, receiver) = registry.add_fd_call();
            Ok(
                (
                    RpcMessage {
                        id,
                        data: RpcData::Call { endpoint: endpoint.to_owned(), params: p },
                    },
                    receiver,
                ),
            )
        },
        Err(d) => Err(Error::ParamsTypeError(d)),
    }
}

/// Registers a subscription to `endpoint`, remembers it for replay, and gives
/// its frame and the receiver of its responses.
pub fn subscribe_frame(registry: &mut CallsRegistry, endpoint: &str) -> (r: (
    RpcMessage,
    mpsc::Receiver<Result<Bson>>,
))
    requires
        old(registry).wf(),
        old(registry)@.last_id < i64::MAX,
    ensures
        final(registry).wf(),
        allocates(old(registry)@, final(registry)@, r.0.id),
        final(registry)@ == (RegistryView {
            last_id: r.0.id as int,
            subscriptions: old(registry)@.subscriptions.insert(r.0.id),
            active: old(registry)@.active.push((r.0.id, endpoint@)),
            ..old(registry)@
        }),
        r.0.data@ == (DataView::Subscription { endpoint: endpoint@ }),
{
    let (id, receiver) = registry.add_subscription();
    proof {
        let v = registry@;
        if v.active_ids().contains(id) {
            let i = choose|i: int| 0 <= i < v.active.len() && v.active[i].0 == id;
            assert(old(registry)@.subscriptions.contains(v.active[i].0));
            assert(old(registry)@.ids().contains(id));
        }
    }
    registry.add_persistent_call(id, endpoint.to_owned());
    (RpcMessage { id, data: RpcData::Subscription { endpoint: endpoint.to_owned() } }, receiver)
}

/// The frame asking the peer to accept a connection from `client_name` to
/// `target_name`; the stream follows it.
pub fn connection_request_frame(client_name: &str, target_name: &str) -> (r: RpcMessage)
    ensures
        r@ == (MessageView {
            id: CONNECTION_REQUEST_ID,
            data: DataView::ConnectionRequest {
                client_name: client_name@,
                target_name: target_name@,
            },
        }),
{
    RpcMessage {
        id: CONNECTION_REQUEST_ID,
        data: RpcData::ConnectionRequest {
            client_name: client_name.to_owned(),
            target_name: target_name.to_owned(),
        },
    }
}

/// The result a response carries: the value, the handler's error, or a
/// result error when the value did not serialize.
pub fn encoded_result(data: Result<Encoded>) -> (r: Result<Bson>)
    ensures
        match data {
            Ok(Ok(b)) => r is Ok && r->Ok_0 == b,
            Ok(Err(d)) => r is Err && r->Err_0@ == ErrorView::ResultTypeError(d@),
            Err(e) => r is Err && r->Err_0 == e,
        },
        result_view(r) == encoded_result_view(data),
{
    match data {
        Ok(Ok(b)) => Ok(b),
        Ok(Err(d)) => Err(Error::ResultTypeError(d)),
        Err(e) => Err(e),
    }
}

/// The response frame to request `id`.
pub fn response_frame(id: i64, data: Result<Encoded>) -> (r: RpcMessage)
    ensures
        r.id == id,
        r.data@ == DataView::Response(encoded_result_view(data)),
{
    RpcMessage { id, data: RpcData::Response(encoded_result(data)) }
}

/// The response frame to request `id` that a stream follows.
pub fn fd_response_frame(id: i64, data: Result<Encoded>) -> (r: RpcMessage)
    ensures
        r.id == id,
        r.data@ == DataView::FdResponse(encoded_result_view(data)),
{
    RpcMessage { id, data: RpcData::FdResponse(encoded_result(data)) }
}

/// What [`encoded_result`] gives, with its texts as character sequences.
pub open spec fn encoded_result_view(data: Result<Encoded>) -> core::result::Result<
    Bson,
    ErrorView,
> {
    match data {
        Ok(Ok(b)) => Ok(b),
        Ok(Err(d)) => Err(ErrorView::ResultTypeError(d@)),
        Err(e) => Err(e@),
    }
}

/// What a caller's call resolves to once its receiver yields: the delivered
/// result, or a disconnection when the entry was dropped unanswered.
pub fn settle<T>(received: core::result::Result<Result<T>, oneshot::Canceled>) -> (r: Result<T>)
    ensures
        match received {
            Ok(x) => r == x,
            Err(_) => r is Err && r->Err_0 is PeerDisconnected,
        },
{
    match received {
        Ok(x) => x,
        Err(_) => Err(Error::PeerDisconnected),
    }
}

/// A delivered value as the caller's type: what the deserializer produced,
/// or a result error with its reason.
pub fn typed<R>(decoded: core::result::Result<R, String>) -> (r: Result<R>)
    ensures
        match decoded {
            Ok(v) => r is Ok && r->Ok_0 == v,
            Err(d) => r is Err && r->Err_0@ == ErrorView::ResultTypeError(d@),
        },
{
    match decoded {
        Ok(v) => Ok(v),
        Err(d) => Err(Error::ResultTypeError(d)),
    }
}

/// The frames to replay for `v`: one per active subscription, in order.
pub open spec fn is_replay(v: RegistryView, msgs: Seq<MessageView>) -> bool {
    &&& msgs.len() == v.active.len()
    &&& forall|i: int|
        0 <= i < msgs.len() ==> #[trigger] msgs[i] == (MessageView {
            id: v.active[i].0,
            data: DataView::Subscription { endpoint: v.active[i].1 },
        })
}

pub open spec fn views(msgs: Seq<RpcMessage>) -> Seq<MessageView> {
    msgs.map_values(|m: RpcMessage| m@)
}

/// Hands the registry over to a new stream: calls waiting for a response are
/// dropped, since no response can come on the new stream, and the frames that
/// resubscribe every active subscription are returned, to be written before
/// anything else.
pub fn on_reconnected(registry: &mut CallsRegistry) -> (r: Vec<RpcMessage>)
    requires
        old(registry).wf(),
    ensures
        final(registry).wf(),
        final(registry)@ == (RegistryView {
            calls: Set::<i64>::empty(),
            fd_calls: Set::<i64>::empty(),
            ..old(registry)@
        }),
        r@.len() == old(registry)@.active.len(),
        forall|i: int|
            0 <= i < r@.len() ==> (#[trigger] r@[i])@ == (MessageView {
                id: old(registry)@.active[i].0,
                data: DataView::Subscription { endpoint: old(registry)@.active[i].1 },
            }),
        is_replay(old(registry)@, views(r@)),
{
    registry.clear_pending_calls();
    let r = registry.active_subscriptions();
    proof {
        assert forall|i: int| 0 <= i < views(r@).len() implies #[trigger] views(r@)[i] == (
        MessageView {
            id: old(registry)@.active[i].0,
            data: DataView::Subscription { endpoint: old(registry)@.active[i].1 },
        }) by {
            assert(views(r@)[i] == r@[i]@);
        }
    }
    r
}

/// Each subscription that is active at a handoff is replayed exactly once,
/// with the endpoint it was made with, and nothing else is replayed.
pub proof fn lemma_replay_exactly_once(v: RegistryView, msgs: Seq<MessageView>)
    requires
        v.wf(),
        is_replay(v, msgs),
    ensures
        forall|id: i64|
            #[trigger] v.active_ids().contains(id) ==> exists|i: int|
                0 <= i < msgs.len() && msgs[i].id == id && (msgs[i].data is Subscription) && (
                forall|j: int| 0 <= j < msgs.len() && #[trigger] msgs[j].id == id ==> j == i),
        forall|i: int|
            0 <= i < msgs.len() ==> v.active_ids().contains(#[trigger] msgs[i].id)
                && msgs[i].data == (DataView::Subscription { endpoint: v.active[i].1 }),
{
    assert forall|id: i64| #[trigger] v.active_ids().contains(id) implies exists|i: int|
        0 <= i < msgs.len() && msgs[i].id == id && (msgs[i].data is Subscription) && (forall|j: int|
            0 <= j < msgs.len() && #[trigger] msgs[j].id == id ==> j == i) by {
        let i = choose|i: int| 0 <= i < v.active.len() && v.active[i].0 == id;
        assert(msgs[i].id == id);
        assert forall|j: int| 0 <= j < msgs.len() && #[trigger] msgs[j].id == id implies j == i by {
            assert(msgs[j].id == v.active[j].0);
        }
    }
    assert forall|i: int| 0 <= i < msgs.len() implies v.active_ids().contains(
        #[trigger] msgs[i].id,
    ) && msgs[i].data == (DataView::Subscription { endpoint: v.active[i].1 }) by {
        assert(msgs[i].id == v.active[i].0);
    }
}

} // verus!
