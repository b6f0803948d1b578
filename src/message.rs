//! The envelope: the one record that travels on the wire, and its BSON
//! document layout.
//!
//! A frame is the document `{id, data}`. `data` holds exactly one key, the
//! variant's name, whose value is the variant's fields (a document for the
//! struct variants, the result for the two response variants). A result is
//! `{Ok: value}` or `{Err: error}`; an error without details is its name as a
//! string, one with details is `{Name: details}`.
use bson::{Bson, Document};
use vstd::prelude::*;

use crate::document::{
    bson_as_int64, bson_document, bson_int64, bson_into_document, bson_into_string, bson_shape,
    bson_string, doc_contains, doc_entries, doc_insert, doc_len, doc_new, doc_remove, BsonShape,
};
use crate::error::{Error, ErrorView, Result};

verus! {

/// Id of one-way messages, which expect no response.
pub const ONE_WAY_ID: i64 = -1;

/// Id of connection requests, whose reply comes out of band.
pub const CONNECTION_REQUEST_ID: i64 = 0;

/// One frame of the protocol.
#[derive(Debug, Clone)]
pub struct RpcMessage {
    pub id: i64,
    pub data: RpcData,
}

/// What a frame carries.
#[derive(Debug, Clone)]
pub enum RpcData {
    /// One-way message.
    Message { endpoint: String, body: Bson },
    /// Call that expects exactly one response with the same id.
    Call { endpoint: String, params: Bson },
    /// Subscription that expects any number of responses with the same id.
    Subscription { endpoint: String },
    /// Connection request; one stream descriptor follows the frame.
    ConnectionRequest { client_name: String, target_name: String },
    /// Response to a call or a subscription.
    Response(Result<Bson>),
    /// Response that, when successful, is followed by one stream descriptor.
    FdResponse(Result<Bson>),
}

/// An [`RpcData`] with its texts as character sequences.
pub enum DataView {
    Message { endpoint: Seq<char>, body: Bson },
    Call { endpoint: Seq<char>, params: Bson },
    Subscription { endpoint: Seq<char> },
    ConnectionRequest { client_name: Seq<char>, target_name: Seq<char> },
    Response(core::result::Result<Bson, ErrorView>),
    FdResponse(core::result::Result<Bson, ErrorView>),
}

/// An [`RpcMessage`] with its texts as character sequences.
pub struct MessageView {
    pub id: i64,
    pub data: DataView,
}

pub open spec fn result_view(r: Result<Bson>) -> core::result::Result<Bson, ErrorView> {
    match r {
        Ok(b) => Ok(b),
        Err(e) => Err(e@),
    }
}

impl View for RpcData {
    type V = DataView;

    open spec fn view(&self) -> DataView {
        match self {
            RpcData::Message { endpoint, body } => DataView::Message {
                endpoint: endpoint@,
                body: *body,
            },
            RpcData::Call { endpoint, params } => DataView::Call {
                endpoint: endpoint@,
                params: *params,
            },
            RpcData::Subscription { endpoint } => DataView::Subscription { endpoint: endpoint@ },
            RpcData::ConnectionRequest { client_name, target_name } => DataView::ConnectionRequest {
                client_name: client_name@,
                target_name: target_name@,
            },
            RpcData::Response(r) => DataView::Response(result_view(*r)),
            RpcData::FdResponse(r) => DataView::FdResponse(result_view(*r)),
        }
    }
}

impl View for RpcMessage {
    type V = MessageView;

    open spec fn view(&self) -> MessageView {
        MessageView { id: self.id, data: self.data@ }
    }
}

// ---------------------------------------------------------------------------
// The layout that encoding writes.
/// `b` is a document holding exactly the key `key`, whose value has the text
/// `text`.
pub open spec fn is_text_entry(b: Bson, key: Seq<char>, text: Seq<char>) -> bool {
    match bson_shape(b) {
        BsonShape::Doc(f) => f.dom() == set![key] && bson_shape(f[key]) == BsonShape::Str(text),
        _ => false,
    }
}

/// `b` is how the error `e` is written.
pub open spec fn lays_out_error(e: ErrorView, b: Bson) -> bool {
    match e {
        ErrorView::NotAllowed => bson_shape(b) == BsonShape::Str("NotAllowed"@),
        ErrorView::NoEndpoint => bson_shape(b) == BsonShape::Str("NoEndpoint"@),
        ErrorView::AlreadyRegistered => bson_shape(b) == BsonShape::Str("AlreadyRegistered"@),
        ErrorView::ServiceNotFound => bson_shape(b) == BsonShape::Str("ServiceNotFound"@),
        ErrorView::PeerDisconnected => bson_shape(b) == BsonShape::Str("PeerDisconnected"@),
        ErrorView::ParamsTypeError(d) => is_text_entry(b, "ParamsTypeError"@, d),
        ErrorView::ResultTypeError(d) => is_text_entry(b, "ResultTypeError"@, d),
        ErrorView::InternalError(d) => is_text_entry(b, "InternalError"@, d),
        ErrorView::ClientError(d) => is_text_entry(b, "ClientError"@, d),
    }
}

/// `b` is how the result `r` is written.
pub open spec fn lays_out_result(r: core::result::Result<Bson, ErrorView>, b: Bson) -> bool {
    match bson_shape(b) {
        BsonShape::Doc(f) => match r {
            Ok(v) => f.dom() == set!["Ok"@] && f["Ok"@] == v,
            Err(e) => f.dom() == set!["Err"@] && lays_out_error(e, f["Err"@]),
        },
        _ => false,
    }
}

/// `d`, the entries of the `data` document, are how `v` is written.
pub open spec fn lays_out_data(v: DataView, d: Map<Seq<char>, Bson>) -> bool {
    let tag = data_tag(v);
    &&& d.dom() == set![tag]
    &&& match v {
        DataView::Response(r) => lays_out_result(r, d[tag]),
        DataView::FdResponse(r) => lays_out_result(r, d[tag]),
        _ => match bson_shape(d[tag]) {
            BsonShape::Doc(f) => lays_out_fields(v, f),
            _ => false,
        },
    }
}

/// The key under which a variant is written.
pub open spec fn data_tag(v: DataView) -> Seq<char> {
    match v {
        DataView::Message { .. } => "Message"@,
        DataView::Call { .. } => "Call"@,
        DataView::Subscription { .. } => "Subscription"@,
        DataView::ConnectionRequest { .. } => "ConnectionRequest"@,
        DataView::Response(_) => "Response"@,
        DataView::FdResponse(_) => "FdResponse"@,
    }
}

/// `f` holds the named fields of a struct variant.
pub open spec fn lays_out_fields(v: DataView, f: Map<Seq<char>, Bson>) -> bool {
    match v {
        DataView::Message { endpoint, body } => {
            &&& f.dom() == set!["endpoint"@, "body"@]
            &&& bson_shape(f["endpoint"@]) == BsonShape::Str(endpoint)
            &&& f["body"@] == body
        },
        DataView::Call { endpoint, params } => {
            &&& f.dom() == set!["endpoint"@, "params"@]
            &&& bson_shape(f["endpoint"@]) == BsonShape::Str(endpoint)
            &&& f["params"@] == params
        },
        DataView::Subscription { endpoint } => {
            &&& f.dom() == set!["endpoint"@]
            &&& bson_shape(f["endpoint"@]) == BsonShape::Str(endpoint)
        },
        DataView::ConnectionRequest { client_name, target_name } => {
            &&& f.dom() == set!["client_name"@, "target_name"@]
            &&& bson_shape(f["client_name"@]) == BsonShape::Str(client_name)
            &&& bson_shape(f["target_name"@]) == BsonShape::Str(target_name)
        },
        _ => false,
    }
}

/// `e`, the entries of a frame's document, are how `m` is written.
pub open spec fn lays_out_message(m: MessageView, e: Map<Seq<char>, Bson>) -> bool {
    &&& e.dom() == set!["id"@, "data"@]
    &&& bson_shape(e["id"@]) == BsonShape::Int64(m.id)
    &&& match bson_shape(e["data"@]) {
        BsonShape::Doc(d) => lays_out_data(m.data, d),
        _ => false,
    }
}

// ---------------------------------------------------------------------------
// Encoding.
/// The keys and names of the layout differ from one another.
proof fn lemma_layout_names_distinct()
    ensures
        "id"@ != "data"@,
        "endpoint"@ != "body"@,
        "endpoint"@ != "params"@,
        "client_name"@ != "target_name"@,
        "Ok"@ != "Err"@,
{
    reveal_strlit("id");
    reveal_strlit("data");
    reveal_strlit("endpoint");
    reveal_strlit("body");
    reveal_strlit("params");
    reveal_strlit("client_name");
    reveal_strlit("target_name");
    reveal_strlit("Ok");
    reveal_strlit("Err");
    assert("id"@.len() != "data"@.len());
    assert("endpoint"@.len() != "body"@.len());
    assert("endpoint"@.len() != "params"@.len());
    assert("client_name"@[0] != "target_name"@[0]);
    assert("Ok"@.len() != "Err"@.len());
}

fn tagged(tag: &str, value: Bson) -> (r: Document)
    ensures
        doc_entries(r) == Map::<Seq<char>, Bson>::empty().insert(tag@, value),
{
    let mut d = doc_new();
    doc_insert(&mut d, tag, value);
    proof {
        assert(doc_entries(d) =~= Map::<Seq<char>, Bson>::empty().insert(tag@, value));
    }
    d
}

fn text(s: &str) -> (r: Bson)
    ensures
        bson_shape(r) == BsonShape::Str(s@),
{
    bson_string(s.to_owned())
}

/// Writes an error as a BSON value.
pub fn encode_error(e: Error) -> (r: Bson)
    ensures
        lays_out_error(e@, r),
{
    match e {
        Error::NotAllowed => text("NotAllowed"),
        Error::NoEndpoint => text("NoEndpoint"),
        Error::AlreadyRegistered => text("AlreadyRegistered"),
        Error::ServiceNotFound => text("ServiceNotFound"),
        Error::PeerDisconnected => text("PeerDisconnected"),
        Error::ParamsTypeError(d) => bson_document(tagged("ParamsTypeError", bson_string(d))),
        Error::ResultTypeError(d) => bson_document(tagged("ResultTypeError", bson_string(d))),
        Error::InternalError(d) => bson_document(tagged("InternalError", bson_string(d))),
        Error::ClientError(d) => bson_document(tagged("ClientError", bson_string(d))),
    }
}

/// Writes a result as a BSON value.
pub fn encode_result(r: Result<Bson>) -> (b: Bson)
    ensures
        lays_out_result(result_view(r), b),
{
    match r {
        Ok(v) => bson_document(tagged("Ok", v)),
        Err(e) => bson_document(tagged("Err", encode_error(e))),
    }
}

fn two_fields(k1: &str, v1: Bson, k2: &str, v2: Bson) -> (r: Document)
    requires
        k1@ != k2@,
    ensures
        doc_entries(r).dom() == set![k1@, k2@],
        doc_entries(r)[k1@] == v1,
        doc_entries(r)[k2@] == v2,
{
    let mut d = doc_new();
    doc_insert(&mut d, k1, v1);
    doc_insert(&mut d, k2, v2);
    proof {
        assert(doc_entries(d).dom() =~= set![k1@, k2@]);
    }
    d
}

/// Writes the `data` part of a frame as a document.
pub fn encode_data(data: RpcData) -> (r: Document)
    ensures
        lays_out_data(data@, doc_entries(r)),
{
    proof {
        lemma_layout_names_distinct();
    }
    let r = match data {
        RpcData::Message { endpoint, body } => {
            let f = two_fields("endpoint", bson_string(endpoint), "body", body);
            tagged("Message", bson_document(f))
        },
        RpcData::Call { endpoint, params } => {
            let f = two_fields("endpoint", bson_string(endpoint), "params", params);
            tagged("Call", bson_document(f))
        },
        RpcData::Subscription { endpoint } => {
            let f = tagged("endpoint", bson_string(endpoint));
            tagged("Subscription", bson_document(f))
        },
        RpcData::ConnectionRequest { client_name, target_name } => {
            let f = two_fields(
                "client_name",
                bson_string(client_name),
                "target_name",
                bson_string(target_name),
            );
            tagged("ConnectionRequest", bson_document(f))
        },
        RpcData::Response(res) => tagged("Response", encode_result(res)),
        RpcData::FdResponse(res) => tagged("FdResponse", encode_result(res)),
    };
    proof {
        assert(doc_entries(r).dom() =~= set![data_tag(data@)]);
    }
    r
}

/// Writes a frame as a document.
pub fn encode(m: RpcMessage) -> (r: Document)
    ensures
        lays_out_message(m@, doc_entries(r)),
{
    proof {
        lemma_layout_names_distinct();
    }
    let RpcMessage { id, data } = m;
    two_fields("id", bson_int64(id), "data", bson_document(encode_data(data)))
}

// ---------------------------------------------------------------------------
// What a document means when read.
/// The text held by `b`, if it is a string.
pub open spec fn text_of(b: Bson) -> Option<Seq<char>> {
    match bson_shape(b) {
        BsonShape::Str(s) => Some(s),
        _ => None,
    }
}

/// The text under `key`, if there is one.
pub open spec fn text_field(f: Map<Seq<char>, Bson>, key: Seq<char>) -> Option<Seq<char>> {
    if f.contains_key(key) {
        text_of(f[key])
    } else {
        None
    }
}

/// The error without details named `s`.
pub open spec fn read_unit_error(s: Seq<char>) -> Option<ErrorView> {
    if s == "NotAllowed"@ {
        Some(ErrorView::NotAllowed)
    } else if s == "NoEndpoint"@ {
        Some(ErrorView::NoEndpoint)
    } else if s == "AlreadyRegistered"@ {
        Some(ErrorView::AlreadyRegistered)
    } else if s == "ServiceNotFound"@ {
        Some(ErrorView::ServiceNotFound)
    } else if s == "PeerDisconnected"@ {
        Some(ErrorView::PeerDisconnected)
    } else {
        None
    }
}

/// The error with details that the single entry of `f` names.
pub open spec fn read_detail_error(f: Map<Seq<char>, Bson>) -> Option<ErrorView> {
    if f.len() != 1 {
        None
    } else if f.contains_key("ParamsTypeError"@) {
        match text_of(f["ParamsTypeError"@]) {
            Some(d) => Some(ErrorView::ParamsTypeError(d)),
            None => None,
        }
    } else if f.contains_key("ResultTypeError"@) {
        match text_of(f["ResultTypeError"@]) {
            Some(d) => Some(ErrorView::ResultTypeError(d)),
            None => None,
        }
    } else if f.contains_key("InternalError"@) {
        match text_of(f["InternalError"@]) {
            Some(d) => Some(ErrorView::InternalError(d)),
            None => None,
        }
    } else if f.contains_key("ClientError"@) {
        match text_of(f["ClientError"@]) {
            Some(d) => Some(ErrorView::ClientError(d)),
            None => None,
        }
    } else {
        None
    }
}

/// The error that `b` holds.
pub open spec fn read_error(b: Bson) -> Option<ErrorView> {
    match bson_shape(b) {
        BsonShape::Str(s) => read_unit_error(s),
        BsonShape::Doc(f) => read_detail_error(f),
        _ => None,
    }
}

/// The result that `b` holds.
pub open spec fn read_result(b: Bson) -> Option<core::result::Result<Bson, ErrorView>> {
    match bson_shape(b) {
        BsonShape::Doc(f) => if f.len() != 1 {
            None
        } else if f.contains_key("Ok"@) {
            Some(Ok(f["Ok"@]))
        } else if f.contains_key("Err"@) {
            match read_error(f["Err"@]) {
                Some(e) => Some(Err(e)),
                None => None,
            }
        } else {
            None
        },
        _ => None,
    }
}

/// The fields of a struct variant tagged `tag`, held by `b`.
pub open spec fn read_fields(tag: Seq<char>, b: Bson) -> Option<DataView> {
    match bson_shape(b) {
        BsonShape::Doc(f) => if tag == "Message"@ {
            match text_field(f, "endpoint"@) {
                Some(endpoint) => if f.contains_key("body"@) {
                    Some(DataView::Message { endpoint, body: f["body"@] })
                } else {
                    None
                },
                None => None,
            }
        } else if tag == "Call"@ {
            match text_field(f, "endpoint"@) {
                Some(endpoint) => if f.contains_key("params"@) {
                    Some(DataView::Call { endpoint, params: f["params"@] })
                } else {
                    None
                },
                None => None,
            }
        } else if tag == "Subscription"@ {
            match text_field(f, "endpoint"@) {
                Some(endpoint) => Some(DataView::Subscription { endpoint }),
                None => None,
            }
        } else {
            match (text_field(f, "client_name"@), text_field(f, "target_name"@)) {
                (Some(client_name), Some(target_name)) => Some(
                    DataView::ConnectionRequest { client_name, target_name },
                ),
                _ => None,
            }
        },
        _ => None,
    }
}

/// The variant that `d`, the entries of a `data` document, holds.
pub open spec fn read_data(d: Map<Seq<char>, Bson>) -> Option<DataView> {
    if d.len() != 1 {
        None
    } else if d.contains_key("Message"@) {
        read_fields("Message"@, d["Message"@])
    } else if d.contains_key("Call"@) {
        read_fields("Call"@, d["Call"@])
    } else if d.contains_key("Subscription"@) {
        read_fields("Subscription"@, d["Subscription"@])
    } else if d.contains_key("ConnectionRequest"@) {
        read_fields("ConnectionRequest"@, d["ConnectionRequest"@])
    } else if d.contains_key("Response"@) {
        match read_result(d["Response"@]) {
            Some(r) => Some(DataView::Response(r)),
            None => None,
        }
    } else if d.contains_key("FdResponse"@) {
        match read_result(d["FdResponse"@]) {
            Some(r) => Some(DataView::FdResponse(r)),
            None => None,
        }
    } else {
        None
    }
}

/// The frame that `e`, the entries of a frame's document, holds. Keys other
/// than the ones read are ignored.
pub open spec fn read_message(e: Map<Seq<char>, Bson>) -> Option<MessageView> {
    if e.contains_key("id"@) && e.contains_key("data"@) {
        match (bson_shape(e["id"@]), bson_shape(e["data"@])) {
            (BsonShape::Int64(id), BsonShape::Doc(d)) => match read_data(d) {
                Some(data) => Some(MessageView { id, data }),
                None => None,
            },
            _ => None,
        }
    } else {
        None
    }
}

pub open spec fn error_opt_view(r: Option<Error>) -> Option<ErrorView> {
    match r {
        Some(e) => Some(e@),
        None => None,
    }
}

pub open spec fn result_opt_view(r: Option<Result<Bson>>) -> Option<
    core::result::Result<Bson, ErrorView>,
> {
    match r {
        Some(x) => Some(result_view(x)),
        None => None,
    }
}

pub open spec fn data_opt_view(r: Option<RpcData>) -> Option<DataView> {
    match r {
        Some(d) => Some(d@),
        None => None,
    }
}

// ---------------------------------------------------------------------------
// Decoding.
/// The names of variants and errors differ from one another.
proof fn lemma_tag_names_distinct()
    ensures
        "Message"@ != "Call"@,
        "Message"@ != "Subscription"@,
        "Message"@ != "ConnectionRequest"@,
        "Message"@ != "Response"@,
        "Message"@ != "FdResponse"@,
        "Call"@ != "Subscription"@,
        "Call"@ != "ConnectionRequest"@,
        "Call"@ != "Response"@,
        "Call"@ != "FdResponse"@,
        "Subscription"@ != "ConnectionRequest"@,
        "Subscription"@ != "Response"@,
        "Subscription"@ != "FdResponse"@,
        "ConnectionRequest"@ != "Response"@,
        "ConnectionRequest"@ != "FdResponse"@,
        "Response"@ != "FdResponse"@,
        "NotAllowed"@ != "NoEndpoint"@,
        "NotAllowed"@ != "AlreadyRegistered"@,
        "NotAllowed"@ != "ServiceNotFound"@,
        "NotAllowed"@ != "PeerDisconnected"@,
        "NoEndpoint"@ != "AlreadyRegistered"@,
        "NoEndpoint"@ != "ServiceNotFound"@,
        "NoEndpoint"@ != "PeerDisconnected"@,
        "AlreadyRegistered"@ != "ServiceNotFound"@,
        "AlreadyRegistered"@ != "PeerDisconnected"@,
        "ServiceNotFound"@ != "PeerDisconnected"@,
        "ParamsTypeError"@ != "ResultTypeError"@,
        "ParamsTypeError"@ != "InternalError"@,
        "ParamsTypeError"@ != "ClientError"@,
        "ResultTypeError"@ != "InternalError"@,
        "ResultTypeError"@ != "ClientError"@,
        "InternalError"@ != "ClientError"@,
{
    reveal_strlit("Message");
    reveal_strlit("Call");
    reveal_strlit("Subscription");
    reveal_strlit("ConnectionRequest");
    reveal_strlit("Response");
    reveal_strlit("FdResponse");
    reveal_strlit("NotAllowed");
    reveal_strlit("NoEndpoint");
    reveal_strlit("AlreadyRegistered");
    reveal_strlit("ServiceNotFound");
    reveal_strlit("PeerDisconnected");
    reveal_strlit("ParamsTypeError");
    reveal_strlit("ResultTypeError");
    reveal_strlit("InternalError");
    reveal_strlit("ClientError");
    assert("Message"@.len() != "Call"@.len());
    assert("Message"@.len() != "Subscription"@.len());
    assert("Message"@.len() != "ConnectionRequest"@.len());
    assert("Message"@.len() != "Response"@.len());
    assert("Message"@.len() != "FdResponse"@.len());
    assert("Call"@.len() != "Subscription"@.len());
    assert("Call"@.len() != "ConnectionRequest"@.len());
    assert("Call"@.len() != "Response"@.len());
    assert("Call"@.len() != "FdResponse"@.len());
    assert("Subscription"@.len() != "ConnectionRequest"@.len());
    assert("Subscription"@.len() != "Response"@.len());
    assert("Subscription"@.len() != "FdResponse"@.len());
    assert("ConnectionRequest"@.len() != "Response"@.len());
    assert("ConnectionRequest"@.len() != "FdResponse"@.len());
    assert("Response"@.len() != "FdResponse"@.len());
    assert("NotAllowed"@[2] != "NoEndpoint"@[2]);
    assert("NotAllowed"@.len() != "AlreadyRegistered"@.len());
    assert("NotAllowed"@.len() != "ServiceNotFound"@.len());
    assert("NotAllowed"@.len() != "PeerDisconnected"@.len());
    assert("NoEndpoint"@.len() != "AlreadyRegistered"@.len());
    assert("NoEndpoint"@.len() != "ServiceNotFound"@.len());
    assert("NoEndpoint"@.len() != "PeerDisconnected"@.len());
    assert("AlreadyRegistered"@.len() != "ServiceNotFound"@.len());
    assert("AlreadyRegistered"@.len() != "PeerDisconnected"@.len());
    assert("ServiceNotFound"@.len() != "PeerDisconnected"@.len());
    assert("ParamsTypeError"@[0] != "ResultTypeError"@[0]);
    assert("ParamsTypeError"@.len() != "InternalError"@.len());
    assert("ParamsTypeError"@.len() != "ClientError"@.len());
    assert("ResultTypeError"@.len() != "InternalError"@.len());
    assert("ResultTypeError"@.len() != "ClientError"@.len());
    assert("InternalError"@.len() != "ClientError"@.len());
}

fn text_is(s: &String, name: &str) -> (r: bool)
    ensures
        r == (s@ == name@),
{
    let t = name.to_owned();
    s.eq(&t)
}

/// Takes the text under `key` out of `f`.
fn take_text(f: &mut Document, key: &str) -> (r: Option<String>)
    ensures
        doc_entries(*final(f)) == doc_entries(*old(f)).remove(key@),
        match r {
            Some(s) => text_field(doc_entries(*old(f)), key@) == Some(s@),
            None => text_field(doc_entries(*old(f)), key@) is None,
        },
{
    match doc_remove(f, key) {
        Some(b) => match bson_into_string(b) {
            Ok(s) => Some(s),
            Err(_) => None,
        },
        None => None,
    }
}

fn decode_unit_error(s: &String) -> (r: Option<Error>)
    ensures
        error_opt_view(r) == read_unit_error(s@),
{
    if text_is(s, "NotAllowed") {
        Some(Error::NotAllowed)
    } else if text_is(s, "NoEndpoint") {
        Some(Error::NoEndpoint)
    } else if text_is(s, "AlreadyRegistered") {
        Some(Error::AlreadyRegistered)
    } else if text_is(s, "ServiceNotFound") {
        Some(Error::ServiceNotFound)
    } else if text_is(s, "PeerDisconnected") {
        Some(Error::PeerDisconnected)
    } else {
        None
    }
}

fn decode_detail_error(f: Document) -> (r: Option<Error>)
    ensures
        error_opt_view(r) == read_detail_error(doc_entries(f)),
{
    if doc_len(&f) != 1 {
        return None;
    }
    let mut f = f;
    if doc_contains(&f, "ParamsTypeError") {
        match take_text(&mut f, "ParamsTypeError") {
            Some(d) => Some(Error::ParamsTypeError(d)),
            None => None,
        }
    } else if doc_contains(&f, "ResultTypeError") {
        match take_text(&mut f, "ResultTypeError") {
            Some(d) => Some(Error::ResultTypeError(d)),
            None => None,
        }
    } else if doc_contains(&f, "InternalError") {
        match take_text(&mut f, "InternalError") {
            Some(d) => Some(Error::InternalError(d)),
            None => None,
        }
    } else {
        match take_text(&mut f, "ClientError") {
            Some(d) => Some(Error::ClientError(d)),
            None => None,
        }
    }
}

/// Reads an error from a BSON value.
pub fn decode_error(b: Bson) -> (r: Option<Error>)
    ensures
        error_opt_view(r) == read_error(b),
{
    match bson_into_string(b) {
        Ok(s) => decode_unit_error(&s),
        Err(b) => match bson_into_document(b) {
            Ok(f) => decode_detail_error(f),
            Err(_) => None,
        },
    }
}

/// Reads a result from a BSON value.
pub fn decode_result(b: Bson) -> (r: Option<Result<Bson>>)
    ensures
        result_opt_view(r) == read_result(b),
{
    proof {
        lemma_layout_names_distinct();
    }
    let mut f = match bson_into_document(b) {
        Ok(f) => f,
        Err(_) => return None,
    };
    if doc_len(&f) != 1 {
        return None;
    }
    if doc_contains(&f, "Ok") {
        return match doc_remove(&mut f, "Ok") {
            Some(v) => Some(Ok(v)),
            None => None,
        };
    }
    match doc_remove(&mut f, "Err") {
        Some(v) => match decode_error(v) {
            Some(err) => Some(Err(err)),
            None => None,
        },
        None => None,
    }
}

fn decode_fields(tag: &str, b: Bson) -> (r: Option<RpcData>)
    requires
        tag@ == "Message"@ || tag@ == "Call"@ || tag@ == "Subscription"@ || tag@
            == "ConnectionRequest"@,
    ensures
        data_opt_view(r) == read_fields(tag@, b),
{
    proof {
        lemma_layout_names_distinct();
        lemma_tag_names_distinct();
    }
    let mut f = match bson_into_document(b) {
        Ok(f) => f,
        Err(_) => return None,
    };
    if text_is_str(tag, "ConnectionRequest") {
        let client_name = take_text(&mut f, "client_name");
        let target_name = take_text(&mut f, "target_name");
        return match (client_name, target_name) {
            (Some(client_name), Some(target_name)) => Some(
                RpcData::ConnectionRequest { client_name, target_name },
            ),
            _ => None,
        };
    }
    let endpoint = match take_text(&mut f, "endpoint") {
        Some(s) => s,
        None => return None,
    };
    if text_is_str(tag, "Subscription") {
        Some(RpcData::Subscription { endpoint })
    } else if text_is_str(tag, "Call") {
        match doc_remove(&mut f, "params") {
            Some(params) => Some(RpcData::Call { endpoint, params }),
            None => None,
        }
    } else {
        match doc_remove(&mut f, "body") {
            Some(body) => Some(RpcData::Message { endpoint, body }),
            None => None,
        }
    }
}

fn text_is_str(s: &str, name: &str) -> (r: bool)
    ensures
        r == (s@ == name@),
{
    let t = s.to_owned();
    text_is(&t, name)
}

/// Reads the `data` part of a frame from its document.
pub fn decode_data(d: Document) -> (r: Option<RpcData>)
    ensures
        data_opt_view(r) == read_data(doc_entries(d)),
{
    if doc_len(&d) != 1 {
        return None;
    }
    let mut d = d;
    let tag = if doc_contains(&d, "Message") {
        "Message"
    } else if doc_contains(&d, "Call") {
        "Call"
    } else if doc_contains(&d, "Subscription") {
        "Subscription"
    } else if doc_contains(&d, "ConnectionRequest") {
        "ConnectionRequest"
    } else if doc_contains(&d, "Response") {
        return match doc_remove(&mut d, "Response") {
            Some(b) => match decode_result(b) {
                Some(r) => Some(RpcData::Response(r)),
                None => None,
            },
            None => None,
        };
    } else {
        return match doc_remove(&mut d, "FdResponse") {
            Some(b) => match decode_result(b) {
                Some(r) => Some(RpcData::FdResponse(r)),
                None => None,
            },
            None => None,
        };
    };
    match doc_remove(&mut d, tag) {
        Some(b) => decode_fields(tag, b),
        None => None,
    }
}

/// Reads a frame from its document. A document that holds no frame is an
/// internal error.
pub fn decode(doc: Document) -> (r: Result<RpcMessage>)
    ensures
        match read_message(doc_entries(doc)) {
            Some(v) => r is Ok && r->Ok_0@ == v,
            None => r is Err && r->Err_0 is InternalError,
        },
{
    proof {
        lemma_layout_names_distinct();
    }
    let mut doc = doc;
    let id = match doc_remove(&mut doc, "id") {
        Some(b) => bson_as_int64(&b),
        None => None,
    };
    let data = match doc_remove(&mut doc, "data") {
        Some(b) => match bson_into_document(b) {
            Ok(d) => decode_data(d),
            Err(_) => None,
        },
        None => None,
    };
    match (id, data) {
        (Some(id), Some(data)) => Ok(RpcMessage { id, data }),
        _ => Err(Error::InternalError("the document holds no frame".to_owned())),
    }
}

// ---------------------------------------------------------------------------
// The layout reads back as what was written.
proof fn lemma_singleton_len(k: Seq<char>)
    ensures
        set![k].len() == 1,
{
}

/// An error reads back as the error that was written.
pub proof fn lemma_error_round_trip(e: ErrorView, b: Bson)
    requires
        lays_out_error(e, b),
    ensures
        read_error(b) == Some(e),
{
    lemma_tag_names_distinct();
    match e {
        ErrorView::ParamsTypeError(_) => lemma_singleton_len("ParamsTypeError"@),
        ErrorView::ResultTypeError(_) => lemma_singleton_len("ResultTypeError"@),
        ErrorView::InternalError(_) => lemma_singleton_len("InternalError"@),
        ErrorView::ClientError(_) => lemma_singleton_len("ClientError"@),
        _ => {},
    }
}

/// A result reads back as the result that was written.
pub proof fn lemma_result_round_trip(r: core::result::Result<Bson, ErrorView>, b: Bson)
    requires
        lays_out_result(r, b),
    ensures
        read_result(b) == Some(r),
{
    lemma_layout_names_distinct();
    match r {
        Ok(_) => lemma_singleton_len("Ok"@),
        Err(e) => {
            lemma_singleton_len("Err"@);
            if let BsonShape::Doc(f) = bson_shape(b) {
                lemma_error_round_trip(e, f["Err"@]);
            }
        },
    }
}

/// Decoding the document that encoding writes for a frame gives that frame
/// back: every field, and the BSON payloads unchanged.
pub proof fn lemma_envelope_round_trip(m: MessageView, e: Map<Seq<char>, Bson>)
    requires
        lays_out_message(m, e),
    ensures
        read_message(e) == Some(m),
{
    lemma_layout_names_distinct();
    lemma_tag_names_distinct();
    if let BsonShape::Doc(d) = bson_shape(e["data"@]) {
        let tag = data_tag(m.data);
        lemma_singleton_len(tag);
        match m.data {
            DataView::Response(r) => lemma_result_round_trip(r, d[tag]),
            DataView::FdResponse(r) => lemma_result_round_trip(r, d[tag]),
            _ => {},
        }
    }
}

} // verus!
