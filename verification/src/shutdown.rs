//! The driver's request that every loop stop, sent over a channel.

use vstd::prelude::*;
use crossbeam_channel::Receiver;

verus! {

/// The receiving end of a `crossbeam_channel` channel. What it holds changes
/// under the hands of other threads, so nothing is known of it.
#[verifier::external_type_specification]
#[verifier::external_body]
#[verifier::reject_recursive_types(T)]
pub struct ExReceiver<T>(Receiver<T>);

/// What a look at the close channel found.
#[derive(Clone, Copy, Debug, PartialEq, Eq, Structural)]
pub enum CloseSignal {
    /// A message was waiting, and was taken.
    Received,
    /// Nothing was waiting.
    Empty,
    /// Nothing was waiting and every sender is gone.
    Disconnected,
}

/// Looks at the close channel without blocking, with
/// `crossbeam_channel::Receiver::try_recv`.
///
/// Trusted, and nothing is claimed: what is found depends on what other
/// threads have sent.
#[verifier::external_body]
fn look(close: &Receiver<()>) -> (signal: CloseSignal) {
    match close.try_recv() {
        Ok(()) => CloseSignal::Received,
        Err(crossbeam_channel::TryRecvError::Empty) => CloseSignal::Empty,
        Err(crossbeam_channel::TryRecvError::Disconnected) => CloseSignal::Disconnected,
    }
}

/// Whether a look at the close channel asks the loops to stop: a message
/// does, and so does the loss of every sender.
pub open spec fn asks_to_stop(signal: CloseSignal) -> bool {
    signal != CloseSignal::Empty
}

/// Whether what was found on the close channel asks the loops to stop.
pub fn stop_asked(signal: CloseSignal) -> (stop: bool)
    ensures
        stop == asks_to_stop(signal),
{
    match signal {
        CloseSignal::Received => true,
        CloseSignal::Empty => false,
        CloseSignal::Disconnected => true,
    }
}

/// Looks at the close channel and says whether the loops are to stop.
/// Whether they are is up to the other end of the channel.
pub fn shutdown_requested(close: &Receiver<()>) -> (stop: bool) {
    stop_asked(look(close))
}

} // verus!
