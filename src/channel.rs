//! The channels through which the registry hands responses to waiting callers,
//! and the stream type that travels beside a frame.
use bson::Bson;
use futures::channel::{mpsc, oneshot};
use tokio::net::UnixStream;
use vstd::prelude::*;

use crate::error::Result;

verus! {

#[verifier::external_type_specification]
#[verifier::external_body]
pub struct ExUnixStream(UnixStream);

#[verifier::external_type_specification]
#[verifier::external_body]
#[verifier::reject_recursive_types(T)]
pub struct ExOneshotSender<T>(oneshot::Sender<T>);

#[verifier::external_type_specification]
#[verifier::external_body]
#[verifier::reject_recursive_types(T)]
pub struct ExOneshotReceiver<T>(oneshot::Receiver<T>);

#[verifier::external_type_specification]
#[verifier::external_body]
pub struct ExCanceled(oneshot::Canceled);

#[verifier::external_type_specification]
#[verifier::external_body]
#[verifier::reject_recursive_types(T)]
pub struct ExMpscSender<T>(mpsc::Sender<T>);

#[verifier::external_type_specification]
#[verifier::external_body]
#[verifier::reject_recursive_types(T)]
pub struct ExMpscReceiver<T>(mpsc::Receiver<T>);

/// A single-delivery channel.
pub assume_specification<T>[ oneshot::channel::<T> ]() -> (oneshot::Sender<T>, oneshot::Receiver<T>);

/// Delivers the value, or hands it back when the receiver is gone.
pub assume_specification<T>[ oneshot::Sender::<T>::send ](
    sender: oneshot::Sender<T>,
    t: T,
) -> std::result::Result<(), T>;

/// The buffer size a subscription queue was made with.
pub uninterp spec fn queue_bound(r: mpsc::Receiver<Result<Bson>>) -> nat;

/// Relies on `mpsc::channel`: a bounded queue made with `buffer`, which must
/// stay below a quarter of the address space, as `channel` asserts.
#[verifier::external_body]
pub fn subscription_queue(buffer: usize) -> (r: (
    mpsc::Sender<Result<Bson>>,
    mpsc::Receiver<Result<Bson>>,
))
    requires
        buffer < usize::MAX / 4,
    ensures
        queue_bound(r.1) == buffer,
{
    mpsc::channel(buffer)
}

/// What became of a value offered to a queue without waiting.
pub enum Queued {
    /// The queue took it.
    Accepted,
    /// The queue was full; the value comes back.
    Full(Result<Bson>),
    /// The receiver is gone.
    Closed,
}

/// Relies on `mpsc::Sender::try_send`, `TrySendError::is_disconnected` and
/// `TrySendError::into_inner`: a refused value comes back in the error, which
/// is either a full queue or a receiver that is gone.
#[verifier::external_body]
pub fn try_queue(sink: &mut mpsc::Sender<Result<Bson>>, value: Result<Bson>) -> (r: Queued)
    ensures
        r matches Queued::Full(v) ==> v == value,
{
    match sink.try_send(value) {
        Ok(()) => Queued::Accepted,
        Err(e) => if e.is_disconnected() {
            Queued::Closed
        } else {
            Queued::Full(e.into_inner())
        },
    }
}

} // verus!
