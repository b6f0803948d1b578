use bson::{Bson, Document};
use krossbar_rpc::frame::{body_len, decode_frame, encode_frame, frame_end, read_prefix};
use krossbar_rpc::message::{decode, encode};
use krossbar_rpc::{Error, RpcData, RpcMessage};

fn round_trip(m: RpcMessage) -> RpcMessage {
    let bytes = encode_frame(m).expect("frame encodes");
    assert_eq!(frame_end(&bytes).unwrap(), Some(bytes.len()));
    decode_frame(&bytes).expect("frame decodes")
}

#[test]
fn call_frame_round_trips_through_bytes() {
    let m = RpcMessage {
        id: 7,
        data: RpcData::Call { endpoint: "echo".to_owned(), params: Bson::Int32(42) },
    };
    let back = round_trip(m);
    assert_eq!(back.id, 7);
    match back.data {
        RpcData::Call { endpoint, params } => {
            assert_eq!(endpoint, "echo");
            assert_eq!(params, Bson::Int32(42));
        }
        other => panic!("unexpected variant {other:?}"),
    }
}

#[test]
fn every_variant_round_trips() {
    let cases = vec![
        RpcMessage {
            id: -1,
            data: RpcData::Message { endpoint: "m".to_owned(), body: Bson::String("hi".to_owned()) },
        },
        RpcMessage { id: 3, data: RpcData::Subscription { endpoint: "ticks".to_owned() } },
        RpcMessage {
            id: 0,
            data: RpcData::ConnectionRequest {
                client_name: "svcA".to_owned(),
                target_name: "svcB".to_owned(),
            },
        },
        RpcMessage { id: 4, data: RpcData::Response(Ok(Bson::Int64(420))) },
        RpcMessage { id: 5, data: RpcData::FdResponse(Ok(Bson::Boolean(true))) },
        RpcMessage { id: 6, data: RpcData::FdResponse(Err(Error::ServiceNotFound)) },
    ];
    for m in cases {
        let expected = format!("{m:?}");
        let back = round_trip(m);
        assert_eq!(format!("{back:?}"), expected);
    }
}

#[test]
fn every_error_kind_round_trips_in_a_response() {
    let errors = vec![
        Error::NotAllowed,
        Error::NoEndpoint,
        Error::AlreadyRegistered,
        Error::ServiceNotFound,
        Error::PeerDisconnected,
        Error::ParamsTypeError("p".to_owned()),
        Error::ResultTypeError("r".to_owned()),
        Error::InternalError("i".to_owned()),
        Error::ClientError("c".to_owned()),
    ];
    for e in errors {
        let expected = format!("{e:?}");
        let back = round_trip(RpcMessage { id: 9, data: RpcData::Response(Err(e)) });
        match back.data {
            RpcData::Response(Err(got)) => assert_eq!(format!("{got:?}"), expected),
            other => panic!("unexpected variant {other:?}"),
        }
    }
}

#[test]
fn document_layout_uses_the_wire_names() {
    let doc = encode(RpcMessage {
        id: 12,
        data: RpcData::Call { endpoint: "echo".to_owned(), params: Bson::Int32(1) },
    });
    assert_eq!(doc.get_i64("id").unwrap(), 12);
    let data = doc.get_document("data").unwrap();
    assert_eq!(data.len(), 1);
    let call = data.get_document("Call").unwrap();
    assert_eq!(call.get_str("endpoint").unwrap(), "echo");
    assert_eq!(call.get("params"), Some(&Bson::Int32(1)));
}

#[test]
fn error_layout_matches_externally_tagged_enums() {
    let doc = encode(RpcMessage { id: 1, data: RpcData::Response(Err(Error::PeerDisconnected)) });
    let result = doc.get_document("data").unwrap().get_document("Response").unwrap();
    assert_eq!(result.get_str("Err").unwrap(), "PeerDisconnected");

    let doc = encode(RpcMessage {
        id: 1,
        data: RpcData::Response(Err(Error::ClientError("bad".to_owned()))),
    });
    let result = doc.get_document("data").unwrap().get_document("Response").unwrap();
    assert_eq!(result.get_document("Err").unwrap().get_str("ClientError").unwrap(), "bad");

    let doc = encode(RpcMessage { id: 1, data: RpcData::Response(Ok(Bson::Int64(5))) });
    let result = doc.get_document("data").unwrap().get_document("Response").unwrap();
    assert_eq!(result.get("Ok"), Some(&Bson::Int64(5)));
}

#[test]
fn decodes_a_document_written_by_hand() {
    let mut fields = Document::new();
    fields.insert("endpoint", "ticks");
    fields.insert("extra", 1i32);
    let mut data = Document::new();
    data.insert("Subscription", fields);
    let mut doc = Document::new();
    doc.insert("id", 77i64);
    doc.insert("data", data);
    let m = decode(doc).unwrap();
    assert_eq!(m.id, 77);
    assert!(matches!(m.data, RpcData::Subscription { endpoint } if endpoint == "ticks"));
}

#[test]
fn documents_without_a_frame_are_internal_errors() {
    let mut doc = Document::new();
    doc.insert("data", Document::new());
    assert!(matches!(decode(doc), Err(Error::InternalError(_))));

    let mut data = Document::new();
    data.insert("Subscription", Document::new());
    let mut doc = Document::new();
    doc.insert("id", 1i64);
    doc.insert("data", data);
    assert!(matches!(decode(doc), Err(Error::InternalError(_))));

    let mut fields = Document::new();
    fields.insert("endpoint", "a");
    let mut data = Document::new();
    data.insert("Subscription", fields.clone());
    data.insert("Unknown", fields);
    let mut doc = Document::new();
    doc.insert("id", 1i64);
    doc.insert("data", data);
    assert!(matches!(decode(doc), Err(Error::InternalError(_))));

    let mut data = Document::new();
    data.insert("Response", Bson::String("NotAResult".to_owned()));
    let mut doc = Document::new();
    doc.insert("id", 1i64);
    doc.insert("data", data);
    assert!(matches!(decode(doc), Err(Error::InternalError(_))));
}

#[test]
fn undecodable_bytes_are_internal_errors() {
    assert!(matches!(decode_frame(&[5, 0, 0, 0, 1]), Err(Error::InternalError(_))));
    assert!(matches!(decode_frame(&[]), Err(Error::InternalError(_))));
}

#[test]
fn prefix_is_little_endian_signed() {
    assert_eq!(read_prefix(&[0x10, 0, 0, 0]), 16);
    assert_eq!(read_prefix(&[0x01, 0x02, 0x03, 0x04]), 0x04030201);
    assert_eq!(read_prefix(&[0xff, 0xff, 0xff, 0xff]), -1);
    assert_eq!(read_prefix(&[0, 0, 0, 0x80]), i32::MIN);
}

#[test]
fn body_length_excludes_the_prefix() {
    assert_eq!(body_len(&[0x10, 0, 0, 0]).unwrap(), 12);
    assert_eq!(body_len(&[5, 0, 0, 0]).unwrap(), 1);
    assert!(matches!(body_len(&[4, 0, 0, 0]), Err(Error::InternalError(_))));
    assert!(matches!(body_len(&[0xff, 0xff, 0xff, 0xff]), Err(Error::InternalError(_))));
}

#[test]
fn frame_end_waits_for_whole_frames() {
    assert_eq!(frame_end(&[]).unwrap(), None);
    assert_eq!(frame_end(&[8, 0, 0]).unwrap(), None);
    assert_eq!(frame_end(&[8, 0, 0, 0, 1, 2, 3]).unwrap(), None);
    assert_eq!(frame_end(&[8, 0, 0, 0, 1, 2, 3, 0]).unwrap(), Some(8));
    assert_eq!(frame_end(&[8, 0, 0, 0, 1, 2, 3, 0, 9, 9]).unwrap(), Some(8));
    assert!(matches!(frame_end(&[3, 0, 0, 0]), Err(Error::InternalError(_))));
}

#[test]
fn consecutive_frames_split_at_their_own_lengths() {
    let a = encode_frame(RpcMessage {
        id: 1,
        data: RpcData::Subscription { endpoint: "a".to_owned() },
    })
    .unwrap();
    let b = encode_frame(RpcMessage {
        id: 2,
        data: RpcData::Subscription { endpoint: "bbbb".to_owned() },
    })
    .unwrap();
    let mut stream = a.clone();
    stream.extend_from_slice(&b);
    let first = frame_end(&stream).unwrap().unwrap();
    assert_eq!(first, a.len());
    assert_eq!(read_prefix(&stream) as usize, a.len());
    let second = frame_end(&stream[first..]).unwrap().unwrap();
    assert_eq!(second, b.len());
    assert_eq!(decode_frame(&stream[first..first + second]).unwrap().id, 2);
}

#[test]
fn largest_frame_length_is_accepted() {
    assert_eq!(read_prefix(&[0xff, 0xff, 0xff, 0x7f]), i32::MAX);
    assert_eq!(body_len(&[0xff, 0xff, 0xff, 0x7f]).unwrap(), (i32::MAX - 4) as usize);
    assert_eq!(frame_end(&[0xff, 0xff, 0xff, 0x7f, 0]).unwrap(), None);
}

#[test]
fn cloned_frames_encode_alike() {
    let m = RpcMessage {
        id: 2,
        data: RpcData::Response(Ok(Bson::Array(vec![Bson::Int32(1), Bson::Null]))),
    };
    let copy = m.clone();
    assert_eq!(encode_frame(m).unwrap(), encode_frame(copy).unwrap());
}

#[test]
fn unwritable_payload_is_an_internal_error() {
    let mut payload = Document::new();
    payload.insert("nul\0key", 1i32);
    let m = RpcMessage {
        id: 1,
        data: RpcData::Call { endpoint: "echo".to_owned(), params: Bson::Document(payload) },
    };
    assert!(matches!(encode_frame(m), Err(Error::InternalError(_))));
}
