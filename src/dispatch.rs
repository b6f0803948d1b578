//! What the reader does with each incoming frame: requests go to the
//! application, responses go to the registry, and frames that a stream
//! follows ask the reader to receive it first.
use bson::Bson;
use tokio::net::UnixStream;
use vstd::prelude::*;

use crate::error::{Error, Result};
use crate::message::{result_view, DataView, MessageView, RpcData, RpcMessage, ONE_WAY_ID};
use crate::registry::{resolves, resolves_fd, CallsRegistry, Delivery, RegistryView};

verus! {

/// The endpoint under which incoming connection requests are yielded.
pub const CONNECT_ENDPOINT: &'static str = "connect";

/// What an incoming request carries.
#[derive(Debug)]
pub enum Body {
    /// One-way message.
    Message(Bson),
    /// Call, with its parameters.
    Call(Bson),
    /// Subscription.
    Subscription,
    /// Connection request, with the stream that came with it.
    Fd { client_name: String, target_name: String, stream: UnixStream },
}

/// A [`Body`] with its texts as character sequences.
pub enum BodyView {
    Message(Bson),
    Call(Bson),
    Subscription,
    Fd { client_name: Seq<char>, target_name: Seq<char>, stream: UnixStream },
}

impl View for Body {
    type V = BodyView;

    open spec fn view(&self) -> BodyView {
        match self {
            Body::Message(b) => BodyView::Message(*b),
            Body::Call(b) => BodyView::Call(*b),
            Body::Subscription => BodyView::Subscription,
            Body::Fd { client_name, target_name, stream } => BodyView::Fd {
                client_name: client_name@,
                target_name: target_name@,
                stream: *stream,
            },
        }
    }
}

/// A request that needs the application's attention.
#[derive(Debug)]
pub struct Request {
    message_id: i64,
    endpoint: String,
    body: Option<Body>,
}

/// A [`Request`] with its texts as character sequences.
pub struct RequestView {
    pub message_id: i64,
    pub endpoint: Seq<char>,
    pub body: Option<BodyView>,
}

pub open spec fn body_opt_view(b: Option<Body>) -> Option<BodyView> {
    match b {
        Some(x) => Some(x@),
        None => None,
    }
}

impl View for Request {
    type V = RequestView;

    closed spec fn view(&self) -> RequestView {
        RequestView {
            message_id: self.message_id,
            endpoint: self.endpoint@,
            body: body_opt_view(self.body),
        }
    }
}

impl Request {
    pub fn new(message_id: i64, endpoint: String, body: Body) -> (r: Self)
        ensures
            r@ == (RequestView { message_id, endpoint: endpoint@, body: Some(body@) }),
    {
        Self { message_id, endpoint, body: Some(body) }
    }

    /// The id to respond with.
    pub fn message_id(&self) -> (r: i64)
        ensures
            r == self@.message_id,
    {
        self.message_id
    }

    /// The endpoint the request is for.
    pub fn endpoint(&self) -> (r: &String)
        ensures
            r@ == self@.endpoint,
    {
        &self.endpoint
    }

    /// The body, unless it was taken.
    pub fn body(&self) -> (r: &Option<Body>)
        ensures
            body_opt_view(*r) == self@.body,
    {
        &self.body
    }

    /// Takes the body out; later calls give `None`.
    pub fn take_body(&mut self) -> (r: Option<Body>)
        ensures
            body_opt_view(r) == old(self)@.body,
            final(self)@ == (RequestView { body: None, ..old(self)@ }),
    {
        self.body.take()
    }
}

/// What the reader does next with a frame.
pub enum Step {
    /// Hand this request to the application.
    Yield(Request),
    /// Receive the stream that follows a connection request, then call
    /// [`connection_received`].
    ReceiveConnection { id: i64, client_name: String, target_name: String },
    /// Receive the stream that follows a successful FD response, then call
    /// [`fd_response_received`].
    ReceiveFdResponse { id: i64, body: Bson },
    /// The frame was a response, handed to the registry; read on.
    Resolved(Delivery),
}

/// `r` yields the request `q`.
pub open spec fn yields(r: Step, q: RequestView) -> bool {
    r matches Step::Yield(x) && x@ == q
}

/// What [`dispatch`] does with frame `m`, from registry `o` to `n`.
pub open spec fn dispatched(o: RegistryView, n: RegistryView, m: MessageView, r: Step) -> bool {
    match m.data {
        DataView::Message { endpoint, body } => n == o && yields(
            r,
            RequestView {
                message_id: ONE_WAY_ID,
                endpoint,
                body: Some(BodyView::Message(body)),
            },
        ),
        DataView::Call { endpoint, params } => n == o && yields(
            r,
            RequestView { message_id: m.id, endpoint, body: Some(BodyView::Call(params)) },
        ),
        DataView::Subscription { endpoint } => n == o && yields(
            r,
            RequestView { message_id: m.id, endpoint, body: Some(BodyView::Subscription) },
        ),
        DataView::ConnectionRequest { client_name, target_name } => n == o && (r matches Step::ReceiveConnection {
            id,
            client_name: c,
            target_name: t,
        } && id == m.id && c@ == client_name && t@ == target_name),
        DataView::Response(res) => r matches Step::Resolved(d) && resolves(o, n, m.id, d) && (d matches Delivery::QueueFull(v) ==> result_view(v) == res),
        DataView::FdResponse(Ok(b)) => n == o && (r matches Step::ReceiveFdResponse { id, body } && id
            == m.id && body == b),
        DataView::FdResponse(Err(_)) => r matches Step::Resolved(d) && resolves_fd(o, n, m.id, d),
    }
}

/// Routes one incoming frame. Messages, calls and subscriptions become
/// requests (a message under the one-way id, whatever id it came with);
/// responses go to the registry; a connection request or a successful FD
/// response first needs the stream that follows it.
pub fn dispatch(registry: &mut CallsRegistry, message: RpcMessage) -> (r: Step)
    requires
        old(registry).wf(),
    ensures
        final(registry).wf(),
        dispatched(old(registry)@, final(registry)@, message@, r),
{
    let RpcMessage { id, data } = message;
    match data {
        RpcData::Message { endpoint, body } => Step::Yield(
            Request::new(ONE_WAY_ID, endpoint, Body::Message(body)),
        ),
        RpcData::Call { endpoint, params } => Step::Yield(
            Request::new(id, endpoint, Body::Call(params)),
        ),
        RpcData::Subscription { endpoint } => Step::Yield(
            Request::new(id, endpoint, Body::Subscription),
        ),
        RpcData::ConnectionRequest { client_name, target_name } => Step::ReceiveConnection {
            id,
            client_name,
            target_name,
        },
        RpcData::Response(res) => {
            let ghost given = res;
            let d = registry.resolve(id, res);
            proof {
                assert(d is QueueFull ==> d->QueueFull_0 == given);
            }
            Step::Resolved(d)
        },
        RpcData::FdResponse(Ok(body)) => Step::ReceiveFdResponse { id, body },
        RpcData::FdResponse(Err(e)) => Step::Resolved(registry.resolve_with_fd(id, Err(e), None)),
    }
}

/// The request for a connection request once its stream was received; none
/// when receiving it failed, and the reader reads on.
pub fn connection_received(
    id: i64,
    client_name: String,
    target_name: String,
    stream: Option<UnixStream>,
) -> (r: Option<Request>)
    ensures
        match stream {
            Some(s) => r is Some && r->0@ == (RequestView {
                message_id: id,
                endpoint: CONNECT_ENDPOINT@,
                body: Some(BodyView::Fd { client_name: client_name@, target_name: target_name@, stream: s }),
            }),
            None => r is None,
        },
{
    match stream {
        Some(stream) => Some(
            Request::new(
                id,
                CONNECT_ENDPOINT.to_owned(),
                Body::Fd { client_name, target_name, stream },
            ),
        ),
        None => None,
    }
}

/// What an FD call is given for a successful response: the value with its
/// stream, or a disconnection when the stream could not be received.
pub fn fd_response_result(body: Bson, stream: Option<UnixStream>) -> (r: (
    Result<Bson>,
    Option<UnixStream>,
))
    ensures
        match stream {
            Some(s) => r.0 is Ok && r.0->Ok_0 == body && r.1 == Some(s),
            None => r.0 is Err && r.0->Err_0 is PeerDisconnected && r.1 is None,
        },
{
    match stream {
        Some(s) => (Ok(body), Some(s)),
        None => (Err(Error::PeerDisconnected), None),
    }
}

/// Hands a successful FD response, and the stream received after it if any,
/// to the registry.
pub fn fd_response_received(
    registry: &mut CallsRegistry,
    id: i64,
    body: Bson,
    stream: Option<UnixStream>,
) -> (r: Delivery)
    requires
        old(registry).wf(),
    ensures
        final(registry).wf(),
        resolves_fd(old(registry)@, final(registry)@, id, r),
{
    let (response, stream) = fd_response_result(body, stream);
    registry.resolve_with_fd(id, response, stream)
}

} // verus!
