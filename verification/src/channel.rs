//! The `flume` channels that carry jobs, results and commands between
//! threads, as far as the library uses them.
//!
//! What travels through a channel depends on the threads at its other end, so
//! the library reasons about what it does with each possible answer and claims
//! nothing of the answers themselves.

use vstd::prelude::*;

verus! {

/// The sending end of a `flume` channel. Opaque: a value is only carried
/// around and handed to the channel's own functions.
#[verifier::external_type_specification]
#[verifier::external_body]
#[verifier::reject_recursive_types(T)]
pub struct ExSender<T>(flume::Sender<T>);

/// The receiving end of a `flume` channel. Opaque in the same way.
#[verifier::external_type_specification]
#[verifier::external_body]
#[verifier::reject_recursive_types(T)]
pub struct ExReceiver<T>(flume::Receiver<T>);

/// `flume::SendError`, which hands back the message that could not be sent.
#[verifier::external_type_specification]
#[verifier::reject_recursive_types(T)]
pub struct ExSendError<T>(flume::SendError<T>);

/// `flume::TryRecvError`: the channel was empty, or empty and abandoned.
#[verifier::external_type_specification]
pub struct ExTryRecvError(flume::TryRecvError);

/// `flume::bounded` makes a channel of the given capacity and returns its two
/// ends. Nothing is claimed of them.
pub assume_specification<T>[ flume::bounded::<T> ](cap: usize) -> (ends: (
    flume::Sender<T>,
    flume::Receiver<T>,
));

/// `flume::Sender::send` waits for room and queues the message; it fails when
/// every receiver is gone, and the error then carries the message back.
/// Whether it succeeds depends on the other end, so only the returned message
/// is stated.
pub assume_specification<T>[ flume::Sender::<T>::send ](
    tx: &flume::Sender<T>,
    msg: T,
) -> (sent: Result<(), flume::SendError<T>>)
    ensures
        sent matches Err(failed) ==> failed.0 == msg,
;

/// `flume::Receiver::try_recv` takes a waiting message without blocking. What
/// comes back depends on the senders, so nothing is claimed of it.
pub assume_specification<T>[ flume::Receiver::<T>::try_recv ](rx: &flume::Receiver<T>) -> (got:
    Result<T, flume::TryRecvError>);

/// `Clone` for `flume::Sender` gives another handle to the same channel.
pub assume_specification<T>[ <flume::Sender<T> as Clone>::clone ](
    tx: &flume::Sender<T>,
) -> (handle: flume::Sender<T>);

} // verus!
