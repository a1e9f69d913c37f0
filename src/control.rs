//! The control-signal channel of a job: a bounded tokio mpsc channel whose
//! sending half the registry holds while the job runs, and whose receiving
//! half its supervisor polls between lines of output.
use vstd::prelude::*;
use crate::job::Signal;
use tokio::sync::mpsc::{Receiver, Sender};

verus! {

#[verifier::external_type_specification]
#[verifier::external_body]
#[verifier::reject_recursive_types(T)]
pub struct ExSender<T>(Sender<T>);

#[verifier::external_type_specification]
#[verifier::external_body]
#[verifier::reject_recursive_types(T)]
pub struct ExReceiver<T>(Receiver<T>);

/// How many signals a control channel buffers. One in flight is the most a
/// run ever sees: the registry drops its sender after the first delivery.
pub const CONTROL_CAPACITY: usize = 4;

/// Relies on `tokio::sync::mpsc::channel`, which panics on a capacity of 0 or
/// above `usize::MAX >> 3` (no less than 0x1fff_ffff), and otherwise returns
/// the two connected halves of a new channel.
#[verifier::external_body]
pub(crate) fn open_channel(capacity: usize) -> (Sender<Signal>, Receiver<Signal>)
    requires
        0 < capacity <= 0x1fff_ffff,
{
    tokio::sync::mpsc::channel(capacity)
}

/// Relies on `tokio::sync::mpsc::Sender::try_send`, which never waits: it
/// reports whether the signal was queued, and it is not when the receiving
/// half is gone or the buffer is full.
#[verifier::external_body]
pub(crate) fn try_deliver(tx: &Sender<Signal>, signal: Signal) -> (delivered: bool) {
    tx.try_send(signal).is_ok()
}

/// Relies on `tokio::sync::mpsc::Receiver::try_recv`, which never waits: it
/// hands out the oldest queued signal, if any.
#[verifier::external_body]
pub(crate) fn try_take(rx: &mut Receiver<Signal>) -> (signal: Option<Signal>) {
    rx.try_recv().ok()
}

} // verus!
