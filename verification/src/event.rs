//! Activation records and the channel that carries them from the native UI thread to the
//! thread that pumps the application.

use std::sync::mpsc::{Receiver, RecvError, RecvTimeoutError, Sender};
use std::time::Duration;
use vstd::prelude::*;

verus! {

/// One activation of a menu entry, as the platform window reports it.
pub struct SystrayEvent {
    /// The identifier of the entry that was activated.
    pub menu_index: u32,
}

/// `std::sync::mpsc::Sender`, the producer end of a channel. Nothing is known of a value
/// of it: the application only carries it to the platform window.
#[verifier::external_type_specification]
#[verifier::external_body]
#[verifier::reject_recursive_types(T)]
pub struct ExSender<T>(Sender<T>);

/// `std::sync::mpsc::Receiver`, the consumer end of a channel. Nothing is known of a value
/// of it: what it holds is decided by the threads that send.
#[verifier::external_type_specification]
#[verifier::external_body]
#[verifier::reject_recursive_types(T)]
pub struct ExReceiver<T>(Receiver<T>);

/// `std::sync::mpsc::RecvError`, the one failure of a blocking receive.
#[verifier::external_type_specification]
#[verifier::external_body]
pub struct ExRecvError(RecvError);

/// `std::sync::mpsc::RecvTimeoutError`, with its two variants `Timeout` and
/// `Disconnected`.
#[verifier::external_type_specification]
pub struct ExRecvTimeoutError(RecvTimeoutError);

/// `std::sync::mpsc::channel` makes a new channel and returns its two ends. Nothing is
/// claimed of them.
pub assume_specification<T>[ std::sync::mpsc::channel::<T> ]() -> (ends: (Sender<T>, Receiver<T>));

/// `Receiver::recv` blocks until a value arrives or every sender is gone. Which of the two
/// happens depends on the sending threads, so nothing is claimed of the result.
pub assume_specification<T>[ Receiver::<T>::recv ](rx: &Receiver<T>) -> (received: Result<
    T,
    RecvError,
>);

/// `Receiver::recv_timeout` waits for a value for at most `timeout`. What comes back
/// depends on the sending threads and on the clock, so nothing is claimed of the result.
pub assume_specification<T>[ Receiver::<T>::recv_timeout ](
    rx: &Receiver<T>,
    timeout: Duration,
) -> (received: Result<T, RecvTimeoutError>);

} // verus!
