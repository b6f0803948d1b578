//! Point-to-point RPC over Unix-domain sockets: the verified protocol core.
//!
//! The crate holds the parts of the transport that decide things: the frame
//! length prefix, the envelope's document layout, the call registry that
//! matches responses to callers, the dispatch of incoming frames, and the
//! stream handoff on reconnect. Sockets, tasks and awaiting are left to the
//! caller, which feeds bytes and events in and performs the actions that come
//! back out.
pub mod channel;
pub mod dispatch;
pub mod document;
pub mod error;
pub mod frame;
pub mod id;
pub mod machine;
pub mod message;
pub mod monitor;
pub mod registry;
pub mod writer;

pub use dispatch::{Body, Request, Step};
pub use error::{Error, Result};
pub use id::SequentialIdProvider;
pub use machine::Machine;
pub use message::{RpcData, RpcMessage};
pub use monitor::{Direction, MonitorTap};
pub use registry::{CallsRegistry, Delivery};
