//! Framing: each frame is one BSON document, and the document's own first
//! four bytes, a little-endian signed length that counts themselves, delimit
//! it on the stream.
use vstd::prelude::*;

use crate::document::{
    doc_entries, doc_from_bytes, doc_to_bytes, is_framed, parsed_document, prefix_value, written_len,
};
use crate::error::{Error, Result};
use crate::message::{decode, encode, lays_out_message, read_message, RpcMessage};

verus! {

/// Bytes of the length prefix.
pub const PREFIX_LEN: usize = 4;

/// The smallest document: the prefix and the terminating zero.
pub const MIN_FRAME_LEN: i32 = 5;

/// Reads the length prefix at the start of `header`.
pub fn read_prefix(header: &[u8]) -> (r: i32)
    requires
        header@.len() >= 4,
    ensures
        r == prefix_value(header@),
{
    let u: u32 = header[0] as u32 + header[1] as u32 * 256 + header[2] as u32 * 65536
        + header[3] as u32 * 16777216;
    if u >= 0x8000_0000 {
        (u - 0x8000_0000) as i32 + i32::MIN
    } else {
        u as i32
    }
}

/// How many bytes of the frame follow its four-byte prefix `header`. A prefix
/// below the smallest document cannot start a frame: the stream is corrupt.
pub fn body_len(header: &[u8]) -> (r: Result<usize>)
    requires
        header@.len() == 4,
    ensures
        prefix_value(header@) >= 5 ==> r is Ok && r->Ok_0 == prefix_value(header@) - 4,
        prefix_value(header@) < 5 ==> r is Err && r->Err_0 is InternalError,
{
    let len = read_prefix(header);
    if len < MIN_FRAME_LEN {
        Err(Error::InternalError("frame length below the smallest document".to_owned()))
    } else {
        Ok((len - 4) as usize)
    }
}

/// Where the first frame in `buf` ends: `Ok(None)` while more bytes are
/// needed, `Ok(Some(n))` once the first `n` bytes hold the whole frame.
pub fn frame_end(buf: &[u8]) -> (r: Result<Option<usize>>)
    ensures
        buf@.len() < 4 ==> r is Ok && r->Ok_0 is None,
        buf@.len() >= 4 && prefix_value(buf@) < 5 ==> r is Err && r->Err_0 is InternalError,
        buf@.len() >= 4 && 5 <= prefix_value(buf@) && prefix_value(buf@) > buf@.len() ==> r is Ok
            && r->Ok_0 is None,
        buf@.len() >= 4 && 5 <= prefix_value(buf@) <= buf@.len() ==> r is Ok && r->Ok_0
            == Some(prefix_value(buf@) as usize),
{
    if buf.len() < PREFIX_LEN {
        return Ok(None);
    }
    let len = read_prefix(buf);
    if len < MIN_FRAME_LEN {
        Err(Error::InternalError("frame length below the smallest document".to_owned()))
    } else if len as usize > buf.len() {
        Ok(None)
    } else {
        Ok(Some(len as usize))
    }
}

/// Writes a frame as the bytes that go on the stream: the bytes of the
/// document that lays the frame out. Fails with an internal error exactly
/// when that document cannot be written or is longer than an `i32` can say.
pub fn encode_frame(m: RpcMessage) -> (r: Result<Vec<u8>>)
    ensures
        r is Ok ==> is_framed(r->Ok_0@),
        r is Ok ==> exists|e: Map<Seq<char>, bson::Bson>|
            lays_out_message(m@, e) && written_len(e) == Some(r->Ok_0@.len()),
        r is Err ==> r->Err_0 is InternalError,
        r is Err ==> exists|e: Map<Seq<char>, bson::Bson>|
            lays_out_message(m@, e) && (written_len(e) is None || written_len(e)->0 > i32::MAX),
{
    let doc = encode(m);
    let ghost e = doc_entries(doc);
    match doc_to_bytes(&doc) {
        Ok(bytes) => if bytes.len() > i32::MAX as usize {
            Err(Error::InternalError("frame too long".to_owned()))
        } else {
            Ok(bytes)
        },
        Err(e) => Err(Error::InternalError(e)),
    }
}

/// Reads a frame from the bytes of one whole frame. Bytes that hold no
/// document, or a document that holds no frame, are an internal error.
pub fn decode_frame(bytes: &[u8]) -> (r: Result<RpcMessage>)
    ensures
        match parsed_document(bytes@) {
            Some(e) => match read_message(e) {
                Some(v) => r is Ok && r->Ok_0@ == v,
                None => r is Err && r->Err_0 is InternalError,
            },
            None => r is Err && r->Err_0 is InternalError,
        },
{
    match doc_from_bytes(bytes) {
        Ok(doc) => decode(doc),
        Err(e) => Err(Error::InternalError(e)),
    }
}

/// A whole frame at the head of the stream is found whatever follows it: the
/// reader takes exactly the frame's own length and no more.
pub proof fn lemma_frame_boundary(frame: Seq<u8>, rest: Seq<u8>)
    requires
        is_framed(frame),
    ensures
        prefix_value(frame + rest) == frame.len(),
        5 <= prefix_value(frame + rest) <= (frame + rest).len(),
{
    assert((frame + rest)[0] == frame[0]);
    assert((frame + rest)[1] == frame[1]);
    assert((frame + rest)[2] == frame[2]);
    assert((frame + rest)[3] == frame[3]);
}

} // verus!
