//! The BSON values the envelope is written in, and the few operations of the
//! `bson` crate that the envelope layout needs.
use bson::{Bson, Document};
use vstd::prelude::*;

verus! {

#[verifier::external_type_specification]
#[verifier::external_body]
pub struct ExBson(Bson);

#[verifier::external_type_specification]
#[verifier::external_body]
pub struct ExDocument(Document);

/// What a BSON value holds, as far as the envelope layout reads it: the
/// integer of an `Int64`, the text of a `String`, the entries of a
/// `Document`, and nothing of any other variant.
pub enum BsonShape {
    Int64(i64),
    Str(Seq<char>),
    Doc(Map<Seq<char>, Bson>),
    Other,
}

/// The shape of a BSON value.
pub uninterp spec fn bson_shape(b: Bson) -> BsonShape;

/// The entries of a document, by key.
pub uninterp spec fn doc_entries(d: Document) -> Map<Seq<char>, Bson>;

/// The value of the little-endian signed 32-bit integer at the start of `b`.
pub open spec fn prefix_value(b: Seq<u8>) -> int {
    let u = b[0] as int + 256 * b[1] as int + 65536 * b[2] as int + 16777216 * b[3] as int;
    if u >= 0x8000_0000 {
        u - 0x1_0000_0000
    } else {
        u
    }
}

/// `b` is one whole length-prefixed document: its first four bytes give its
/// length, the prefix included.
pub open spec fn is_framed(b: Seq<u8>) -> bool {
    &&& b.len() >= 5
    &&& prefix_value(b) == b.len()
}

/// The entries of the document that `b` holds, if `b` holds one.
pub uninterp spec fn parsed_document(b: Seq<u8>) -> Option<Map<Seq<char>, Bson>>;

/// How many bytes writing a document with these entries gives, or none when
/// writing fails. Neither depends on the order of the entries.
pub uninterp spec fn written_len(e: Map<Seq<char>, Bson>) -> Option<nat>;

/// Relies on `Document::to_writer`: a document is written as its total
/// length, as a little-endian `i32`, then its elements and a terminating zero.
#[verifier::external_body]
pub fn doc_to_bytes(d: &Document) -> (r: Result<Vec<u8>, String>)
    ensures
        match written_len(doc_entries(*d)) {
            Some(n) => r is Ok && r->Ok_0@.len() == n,
            None => r is Err,
        },
        r is Ok ==> r->Ok_0@.len() >= 5,
        r is Ok ==> (r->Ok_0@.len() <= i32::MAX ==> prefix_value(r->Ok_0@) == r->Ok_0@.len()),
{
    let mut buf: Vec<u8> = Vec::new();
    match d.to_writer(&mut buf) {
        Ok(()) => Ok(buf),
        Err(e) => Err(e.to_string()),
    }
}

/// Relies on `Document::from_reader`: what it reads depends on the bytes
/// alone.
#[verifier::external_body]
pub fn doc_from_bytes(b: &[u8]) -> (r: Result<Document, String>)
    ensures
        match parsed_document(b@) {
            Some(e) => r is Ok && doc_entries(r->Ok_0) == e,
            None => r is Err,
        },
{
    match Document::from_reader(b) {
        Ok(d) => Ok(d),
        Err(e) => Err(e.to_string()),
    }
}

/// Relies on the derived `Clone` of `Bson`: a copy of the same value.
pub assume_specification[ <Bson as Clone>::clone ](b: &Bson) -> (r: Bson)
    ensures
        r == *b,
;

/// Relies on `Clone` of `Result`, which clones whichever side it holds.
pub assume_specification<T: Clone, E: Clone>[ <std::result::Result<T, E> as Clone>::clone ](
    r: &std::result::Result<T, E>,
) -> std::result::Result<T, E>;

/// Relies on `Document::new`: a document with no entries.
#[verifier::external_body]
pub fn doc_new() -> (r: Document)
    ensures
        doc_entries(r).dom() == Set::<Seq<char>>::empty(),
{
    Document::new()
}

/// Relies on `Document::insert`: the key maps to the value afterwards, other
/// entries stay.
#[verifier::external_body]
pub fn doc_insert(d: &mut Document, key: &str, value: Bson)
    ensures
        doc_entries(*final(d)) == doc_entries(*old(d)).insert(key@, value),
{
    d.insert(key, value);
}

/// Relies on `Document::remove`: hands out the entry under the key, if any,
/// and leaves the others.
#[verifier::external_body]
pub fn doc_remove(d: &mut Document, key: &str) -> (r: Option<Bson>)
    ensures
        doc_entries(*final(d)) == doc_entries(*old(d)).remove(key@),
        doc_entries(*old(d)).contains_key(key@) ==> r == Some(doc_entries(*old(d))[key@]),
        !doc_entries(*old(d)).contains_key(key@) ==> r is None,
{
    d.remove(key)
}

/// Relies on `Document::contains_key`: whether an entry has the key.
#[verifier::external_body]
pub fn doc_contains(d: &Document, key: &str) -> (r: bool)
    ensures
        r == doc_entries(*d).contains_key(key@),
{
    d.contains_key(key)
}

/// Relies on `Document::len`: the number of entries.
#[verifier::external_body]
pub fn doc_len(d: &Document) -> (r: usize)
    ensures
        r == doc_entries(*d).len(),
{
    d.len()
}

/// Relies on the `Bson::Int64` variant.
#[verifier::external_body]
pub fn bson_int64(value: i64) -> (r: Bson)
    ensures
        bson_shape(r) == BsonShape::Int64(value),
{
    Bson::Int64(value)
}

/// Relies on the `Bson::String` variant.
#[verifier::external_body]
pub fn bson_string(value: String) -> (r: Bson)
    ensures
        bson_shape(r) == BsonShape::Str(value@),
{
    Bson::String(value)
}

/// Relies on the `Bson::Document` variant.
#[verifier::external_body]
pub fn bson_document(value: Document) -> (r: Bson)
    ensures
        bson_shape(r) == BsonShape::Doc(doc_entries(value)),
{
    Bson::Document(value)
}

/// Relies on the `Bson::Int64` variant: its integer, for that variant alone.
#[verifier::external_body]
pub fn bson_as_int64(b: &Bson) -> (r: Option<i64>)
    ensures
        match bson_shape(*b) {
            BsonShape::Int64(i) => r == Some(i),
            _ => r is None,
        },
{
    match b {
        Bson::Int64(i) => Some(*i),
        _ => None,
    }
}

/// Relies on the `Bson::String` variant: its text for that variant, the value
/// itself back for any other.
#[verifier::external_body]
pub fn bson_into_string(b: Bson) -> (r: Result<String, Bson>)
    ensures
        match bson_shape(b) {
            BsonShape::Str(s) => r is Ok && r->Ok_0@ == s,
            _ => r is Err && r->Err_0 == b,
        },
{
    match b {
        Bson::String(s) => Ok(s),
        other => Err(other),
    }
}

/// Relies on the `Bson::Document` variant: its document for that variant, the
/// value itself back for any other.
#[verifier::external_body]
pub fn bson_into_document(b: Bson) -> (r: Result<Document, Bson>)
    ensures
        match bson_shape(b) {
            BsonShape::Doc(e) => r is Ok && doc_entries(r->Ok_0) == e,
            _ => r is Err && r->Err_0 == b,
        },
{
    match b {
        Bson::Document(d) => Ok(d),
        other => Err(other),
    }
}

} // verus!
