//! The monitor tap: an optional mirror that receives a copy of every frame a
//! connection sends or receives, until mirroring fails once.
use bson::Bson;
use vstd::prelude::*;

use crate::document::{bson_document, bson_shape, bson_string, doc_entries, doc_insert, doc_new, BsonShape};
use crate::message::{encode, lays_out_message, DataView, RpcData, RpcMessage, ONE_WAY_ID};

verus! {

/// The endpoint that mirrored frames are sent to.
pub const MESSAGE_METHOD: &'static str = "message";

/// Which way a mirrored frame went.
#[derive(Debug, Clone, Copy, PartialEq, Eq, Structural)]
pub enum Direction {
    Incoming,
    Outgoing,
}

impl Direction {
    /// The direction's name as it is written in a mirrored frame.
    pub fn name(&self) -> (r: &'static str)
        ensures
            r@ == self.spec_name(),
    {
        match self {
            Direction::Incoming => "Incoming",
            Direction::Outgoing => "Outgoing",
        }
    }

    pub open spec fn spec_name(&self) -> Seq<char> {
        match self {
            Direction::Incoming => "Incoming"@,
            Direction::Outgoing => "Outgoing"@,
        }
    }
}

/// Whether the tap is on. It starts off, is turned on when a monitor stream
/// is installed, and latches off for good when mirroring fails.
pub struct MonitorTap {
    active: bool,
}

impl View for MonitorTap {
    type V = bool;

    closed spec fn view(&self) -> bool {
        self.active
    }
}

impl MonitorTap {
    /// A tap that is off.
    pub fn new() -> (r: Self)
        ensures
            !r@,
    {
        Self { active: false }
    }

    /// Turns the tap on, once a monitor stream is installed.
    pub fn set(&mut self)
        ensures
            final(self)@,
    {
        self.active = true;
    }

    pub fn is_active(&self) -> (r: bool)
        ensures
            r == self@,
    {
        self.active
    }

    /// Whether a frame is to be mirrored: only one that was sent or received
    /// successfully, not one sent for the monitor itself, and only while the
    /// tap is on.
    pub fn should_mirror(&self, succeeded: bool, for_monitor: bool) -> (r: bool)
        ensures
            r == (self@ && succeeded && !for_monitor),
    {
        self.active && succeeded && !for_monitor
    }

    /// Records how mirroring went: a failure turns the tap off for good.
    pub fn mirrored(&mut self, succeeded: bool)
        ensures
            final(self)@ == (old(self)@ && succeeded),
    {
        if !succeeded {
            self.active = false;
        }
    }
}

/// `b` is the document that mirrors `message`, which went `direction` on the
/// connection to `peer_name`.
pub open spec fn lays_out_mirror(
    peer_name: Seq<char>,
    direction: Direction,
    message: crate::message::MessageView,
    b: Bson,
) -> bool {
    match bson_shape(b) {
        BsonShape::Doc(f) => {
            &&& f.dom() == set!["peer_name"@, "direction"@, "message"@]
            &&& bson_shape(f["peer_name"@]) == BsonShape::Str(peer_name)
            &&& bson_shape(f["direction"@]) == BsonShape::Str(direction.spec_name())
            &&& match bson_shape(f["message"@]) {
                BsonShape::Doc(e) => lays_out_message(message, e),
                _ => false,
            }
        },
        _ => false,
    }
}

/// The one-way frame that mirrors `message` to the monitor: its body names
/// the peer and the direction, and holds the frame itself.
pub fn mirror_frame(peer_name: &str, direction: Direction, message: RpcMessage) -> (r: RpcMessage)
    ensures
        r.id == ONE_WAY_ID,
        r.data@ matches DataView::Message { endpoint, body } && endpoint == MESSAGE_METHOD@
            && lays_out_mirror(peer_name@, direction, message@, body),
{
    proof {
        reveal_strlit("peer_name");
        reveal_strlit("direction");
        reveal_strlit("message");
        assert("peer_name"@[0] != "direction"@[0]);
        assert("peer_name"@.len() != "message"@.len());
        assert("direction"@.len() != "message"@.len());
    }
    let mut f = doc_new();
    doc_insert(&mut f, "peer_name", bson_string(peer_name.to_owned()));
    doc_insert(&mut f, "direction", bson_string(direction.name().to_owned()));
    doc_insert(&mut f, "message", bson_document(encode(message)));
    proof {
        assert(doc_entries(f).dom() =~= set!["peer_name"@, "direction"@, "message"@]);
    }
    RpcMessage {
        id: ONE_WAY_ID,
        data: RpcData::Message { endpoint: MESSAGE_METHOD.to_owned(), body: bson_document(f) },
    }
}

} // verus!
