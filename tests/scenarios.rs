use async_send_fd::{AsyncRecvTokioStream, AsyncSendTokioStream};
use bson::Bson;
use futures::channel::oneshot;
use krossbar_rpc::dispatch::{connection_received, dispatch, fd_response_received, CONNECT_ENDPOINT};
use krossbar_rpc::frame::{body_len, decode_frame, encode_frame};
use krossbar_rpc::writer::{
    call_fd_frame, call_frame, connection_request_frame, fd_response_frame, on_reconnected,
    response_frame, settle, subscribe_frame, typed,
};
use krossbar_rpc::{Body, CallsRegistry, Delivery, Error, Request, RpcMessage, Step};
use tokio::io::{AsyncReadExt, AsyncWriteExt};
use tokio::net::UnixStream;

fn runtime() -> tokio::runtime::Runtime {
    tokio::runtime::Builder::new_current_thread().enable_all().build().unwrap()
}

fn encoded<T: serde::Serialize>(value: &T) -> Result<Bson, String> {
    bson::to_bson(value).map_err(|e| e.to_string())
}

fn decoded<T: serde::de::DeserializeOwned>(value: Bson) -> Result<T, String> {
    bson::from_bson(value).map_err(|e| e.to_string())
}

/// Carries one frame from one side's registry to the other's, in memory.
fn deliver(to: &mut CallsRegistry, m: RpcMessage) -> Step {
    let bytes = encode_frame(m).unwrap();
    dispatch(to, decode_frame(&bytes).unwrap())
}

fn request(step: Step) -> Request {
    match step {
        Step::Yield(r) => r,
        _ => panic!("Invalid message type"),
    }
}

fn received<T>(rx: &mut oneshot::Receiver<T>) -> Result<T, oneshot::Canceled> {
    rx.try_recv().map(|v| v.expect("a response was delivered"))
}

async fn write_frame(socket: &mut UnixStream, m: RpcMessage) {
    socket.write_all(&encode_frame(m).unwrap()).await.unwrap();
}

async fn read_frame(socket: &mut UnixStream) -> RpcMessage {
    let mut header = [0u8; 4];
    socket.read_exact(&mut header).await.unwrap();
    let mut bytes = header.to_vec();
    bytes.resize(4 + body_len(&header).unwrap(), 0);
    socket.read_exact(&mut bytes[4..]).await.unwrap();
    decode_frame(&bytes).unwrap()
}

#[test]
fn test_calls_test_simple_call() {
    let mut a = CallsRegistry::new();
    let mut b = CallsRegistry::new();
    let (call, mut rx) = call_frame(&mut a, "echo", encoded(&42u32)).unwrap();

    let mut req = request(deliver(&mut b, call));
    assert_eq!(req.endpoint(), "echo");
    let params = match req.take_body() {
        Some(Body::Call(p)) => p,
        _ => panic!("Invalid message type"),
    };
    assert_eq!(decoded::<u32>(params).unwrap(), 42);

    let response = response_frame(req.message_id(), Ok(encoded(&420u32)));
    assert!(matches!(deliver(&mut a, response), Step::Resolved(Delivery::Delivered)));
    let value = settle(received(&mut rx)).and_then(|b| typed(decoded::<u32>(b)));
    assert_eq!(value.unwrap(), 420);
}

#[test]
fn test_calls_test_result_type_error() {
    let mut a = CallsRegistry::new();
    let mut b = CallsRegistry::new();
    let (call, mut rx) = call_frame(&mut a, "echo", encoded(&42u32)).unwrap();
    let req = request(deliver(&mut b, call));
    deliver(&mut a, response_frame(req.message_id(), Ok(encoded(&420u32))));
    let value = settle(received(&mut rx)).and_then(|b| typed(decoded::<String>(b)));
    assert!(matches!(value, Err(Error::ResultTypeError(_))));
}

#[test]
fn test_calls_test_bson_param_error() {
    let mut a = CallsRegistry::new();
    let result = call_frame(&mut a, "echo", encoded(&u64::MAX));
    assert!(matches!(result, Err(Error::ParamsTypeError(_))));
    let (next, _rx) = a.add_call();
    assert_eq!(next, 1);
}

#[test]
fn test_subscriptions_test_simple_subscription() {
    let mut a = CallsRegistry::new();
    let mut b = CallsRegistry::new();
    let (sub, mut rx) = subscribe_frame(&mut a, "ticks");
    let req = request(deliver(&mut b, sub));
    assert_eq!(req.endpoint(), "ticks");
    assert!(matches!(req.body(), Some(Body::Subscription)));
    for v in [420u32, 421] {
        deliver(&mut a, response_frame(req.message_id(), Ok(encoded(&v))));
    }
    for v in [420u32, 421] {
        let got = rx.try_next().unwrap().unwrap().and_then(|b| typed(decoded::<u32>(b)));
        assert_eq!(got.unwrap(), v);
    }
}

#[test]
fn test_subscriptions_test_subscription_reconnect() {
    let mut a = CallsRegistry::new();
    let mut b = CallsRegistry::new();
    let (sub, mut rx) = subscribe_frame(&mut a, "ticks");
    let req = request(deliver(&mut b, sub));
    for v in [420u32, 421] {
        deliver(&mut a, response_frame(req.message_id(), Ok(encoded(&v))));
    }

    // A new peer takes over: the stored subscription goes out again.
    let mut c = CallsRegistry::new();
    let replay = on_reconnected(&mut a);
    assert_eq!(replay.len(), 1);
    let mut requests = Vec::new();
    for m in replay {
        requests.push(request(deliver(&mut c, m)));
    }
    assert_eq!(requests[0].endpoint(), "ticks");
    for v in [422u32, 423] {
        deliver(&mut a, response_frame(requests[0].message_id(), Ok(encoded(&v))));
    }
    for v in [420u32, 421, 422, 423] {
        let got = rx.try_next().unwrap().unwrap().and_then(|b| typed(decoded::<u32>(b)));
        assert_eq!(got.unwrap(), v);
    }
}

#[test]
fn test_calls_test_client_disconnected_error() {
    let mut a = CallsRegistry::new();
    let (_call, mut rx) = call_frame(&mut a, "echo", encoded(&42u32)).unwrap();
    // The stream failed: pending calls are dropped.
    a.clear_pending_calls();
    assert!(matches!(settle(received(&mut rx)), Err(Error::PeerDisconnected)));
}

#[test]
fn test_fd_response() {
    runtime().block_on(async {
        let (mut a_sock, mut b_sock) = UnixStream::pair().unwrap();
        let mut a = CallsRegistry::new();
        let mut b = CallsRegistry::new();

        let (call, mut rx) = call_fd_frame(&mut a, "handshake", encoded(&42u32)).unwrap();
        write_frame(&mut a_sock, call).await;

        let req = request(dispatch(&mut b, read_frame(&mut b_sock).await));
        let (mine, theirs) = UnixStream::pair().unwrap();
        write_frame(&mut b_sock, fd_response_frame(req.message_id(), Ok(encoded(&420u32)))).await;
        b_sock.send_stream(theirs).await.unwrap();

        let (id, body) = match dispatch(&mut a, read_frame(&mut a_sock).await) {
            Step::ReceiveFdResponse { id, body } => (id, body),
            _ => panic!("Invalid message type"),
        };
        let stream = a_sock.recv_stream().await.ok();
        assert!(matches!(fd_response_received(&mut a, id, body, stream), Delivery::Delivered));

        let (value, mut stream) = settle(received(&mut rx)).unwrap();
        assert_eq!(typed(decoded::<u32>(value)).unwrap(), 420);

        let mut mine = mine;
        mine.write_all(b"Hello world!").await.unwrap();
        let mut buf = [0u8; 12];
        stream.read_exact(&mut buf).await.unwrap();
        assert_eq!(&buf, b"Hello world!");
    });
}

#[test]
fn test_fd_send_test_fd_send() {
    runtime().block_on(async {
        let (mut a_sock, mut b_sock) = UnixStream::pair().unwrap();
        let mut b = CallsRegistry::new();
        let (mine, theirs) = UnixStream::pair().unwrap();

        write_frame(&mut a_sock, connection_request_frame("svcA", "svcB")).await;
        a_sock.send_stream(theirs).await.unwrap();

        let (id, client_name, target_name) = match dispatch(&mut b, read_frame(&mut b_sock).await) {
            Step::ReceiveConnection { id, client_name, target_name } => (id, client_name, target_name),
            _ => panic!("Invalid message type"),
        };
        let stream = b_sock.recv_stream().await.ok();
        let mut req = connection_received(id, client_name, target_name, stream).unwrap();
        assert_eq!(req.endpoint(), CONNECT_ENDPOINT);
        assert_eq!(req.message_id(), 0);
        let mut stream = match req.take_body() {
            Some(Body::Fd { client_name, target_name, stream }) => {
                assert_eq!(client_name, "svcA");
                assert_eq!(target_name, "svcB");
                stream
            }
            _ => panic!("Invalid message type"),
        };
        assert!(req.take_body().is_none());

        let mut mine = mine;
        mine.write_all(b"ping").await.unwrap();
        let mut buf = [0u8; 4];
        stream.read_exact(&mut buf).await.unwrap();
        assert_eq!(&buf, b"ping");
        stream.write_all(b"pong").await.unwrap();
        mine.read_exact(&mut buf).await.unwrap();
        assert_eq!(&buf, b"pong");
    });
}

#[test]
fn test_no_fd_response() {
    let mut a = CallsRegistry::new();
    let mut b = CallsRegistry::new();
    let (call, mut rx) = call_fd_frame(&mut a, "handshake", encoded(&42u32)).unwrap();
    let req = request(deliver(&mut b, call));
    let response = fd_response_frame(req.message_id(), Err(Error::ClientError("Test error".to_owned())));
    assert!(matches!(deliver(&mut a, response), Step::Resolved(Delivery::Delivered)));
    assert!(matches!(settle(received(&mut rx)), Err(Error::ClientError(d)) if d == "Test error"));
}

#[test]
fn fd_response_whose_stream_is_lost_disconnects() {
    let mut a = CallsRegistry::new();
    let (_call, mut rx) = call_fd_frame(&mut a, "handshake", encoded(&42u32)).unwrap();
    let response = fd_response_frame(1, Ok(encoded(&420u32)));
    let (id, body) = match deliver(&mut a, response) {
        Step::ReceiveFdResponse { id, body } => (id, body),
        _ => panic!("Invalid message type"),
    };
    assert!(matches!(fd_response_received(&mut a, id, body, None), Delivery::Delivered));
    assert!(matches!(settle(received(&mut rx)), Err(Error::PeerDisconnected)));
}

#[test]
fn test_message() {
    let mut b = CallsRegistry::new();
    let m = krossbar_rpc::writer::message_frame("rpc", encoded(&42u32)).unwrap();
    let mut req = request(deliver(&mut b, m));
    assert_eq!(req.message_id(), -1);
    assert_eq!(req.endpoint(), "rpc");
    match req.take_body() {
        Some(Body::Message(body)) => assert_eq!(decoded::<u32>(body).unwrap(), 42),
        _ => panic!("Invalid message type"),
    }
    assert!(matches!(
        krossbar_rpc::writer::message_frame("rpc", encoded(&u64::MAX)),
        Err(Error::ParamsTypeError(_))
    ));
}

#[test]
fn message_with_a_positive_id_is_still_one_way() {
    let mut b = CallsRegistry::new();
    let m = RpcMessage {
        id: 17,
        data: krossbar_rpc::RpcData::Message { endpoint: "rpc".to_owned(), body: Bson::Null },
    };
    assert_eq!(request(deliver(&mut b, m)).message_id(), -1);
}

#[test]
fn response_that_did_not_serialize_is_a_result_error() {
    let mut a = CallsRegistry::new();
    let mut b = CallsRegistry::new();
    let (call, mut rx) = call_frame(&mut a, "echo", encoded(&42u32)).unwrap();
    let req = request(deliver(&mut b, call));
    deliver(&mut a, response_frame(req.message_id(), Ok(encoded(&u64::MAX))));
    assert!(matches!(settle(received(&mut rx)), Err(Error::ResultTypeError(_))));
}

#[test]
fn peer_gone_reads_fail_and_calls_disconnect() {
    runtime().block_on(async {
        let (a_sock, b_sock) = UnixStream::pair().unwrap();
        drop(b_sock);
        let mut a_sock = a_sock;
        let mut a = CallsRegistry::new();
        let (call, mut rx) = call_frame(&mut a, "echo", encoded(&42u32)).unwrap();
        let bytes = encode_frame(call).unwrap();
        if a_sock.write_all(&bytes).await.is_err() {
            a.clear_pending_calls();
        }
        let mut header = [0u8; 4];
        assert!(a_sock.read_exact(&mut header).await.is_err());
        a.clear_pending_calls();
        assert!(matches!(settle(received(&mut rx)), Err(Error::PeerDisconnected)));
    });
}

#[test]
fn test_calls_test_call_reconnect() {
    let mut a = CallsRegistry::new();
    let mut b = CallsRegistry::new();
    let (call, mut rx) = call_frame(&mut a, "echo", encoded(&42u32)).unwrap();
    let mut req = request(deliver(&mut b, call));
    match req.take_body() {
        Some(Body::Call(p)) => assert_eq!(decoded::<u32>(p).unwrap(), 42),
        _ => panic!("Invalid message type"),
    }
    deliver(&mut a, response_frame(req.message_id(), Ok(encoded(&420u32))));
    assert_eq!(settle(received(&mut rx)).and_then(|b| typed(decoded::<u32>(b))).unwrap(), 420);

    let mut c = CallsRegistry::new();
    assert!(on_reconnected(&mut a).is_empty());
    let (call, mut rx) = call_frame(&mut a, "echo", encoded(&42u32)).unwrap();
    let mut req = request(deliver(&mut c, call));
    assert_eq!(req.endpoint(), "echo");
    match req.take_body() {
        Some(Body::Call(p)) => assert_eq!(decoded::<u32>(p).unwrap(), 42),
        _ => panic!("Invalid message type"),
    }
    deliver(&mut a, response_frame(req.message_id(), Ok(encoded(&421u32))));
    assert_eq!(settle(received(&mut rx)).and_then(|b| typed(decoded::<u32>(b))).unwrap(), 421);
}

#[test]
fn test_subscriptions_test_subscription_reconnect_new_request() {
    let mut a = CallsRegistry::new();
    let mut b = CallsRegistry::new();
    let (sub, mut rx) = subscribe_frame(&mut a, "ticks");
    let req = request(deliver(&mut b, sub));
    for v in [420u32, 421] {
        deliver(&mut a, response_frame(req.message_id(), Ok(encoded(&v))));
    }
    for v in [420u32, 421] {
        assert_eq!(rx.try_next().unwrap().unwrap().and_then(|b| typed(decoded::<u32>(b))).unwrap(), v);
    }

    let mut c = CallsRegistry::new();
    let replay = on_reconnected(&mut a);
    let (sub2, mut rx2) = subscribe_frame(&mut a, "ticks");
    // The resubscription comes first, then the new subscription.
    let mut frames = replay;
    frames.push(sub2);
    let resubscribed = request(deliver(&mut c, frames.remove(0)));
    assert_eq!(resubscribed.message_id(), req.message_id());
    let mut sub2_request = request(deliver(&mut c, frames.remove(0)));
    assert_eq!(sub2_request.endpoint(), "ticks");
    assert!(matches!(sub2_request.take_body(), Some(Body::Subscription)));
    for v in [420u32, 421] {
        deliver(&mut a, response_frame(sub2_request.message_id(), Ok(encoded(&v))));
    }
    for v in [420u32, 421] {
        assert_eq!(rx2.try_next().unwrap().unwrap().and_then(|b| typed(decoded::<u32>(b))).unwrap(), v);
    }
    assert!(rx.try_next().is_err());
}
