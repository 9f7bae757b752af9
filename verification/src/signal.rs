//! The one-shot channel that carries the request to shut down from a handle to the serving
//! task. Its two halves are values of `tokio`, opaque here: they are made, kept and used up,
//! never looked into.

use tokio::sync::oneshot::{Receiver, Sender};
use vstd::prelude::*;

verus! {

/// `tokio::sync::oneshot::Sender`, the sending half of a one-shot channel.
#[verifier::external_type_specification]
#[verifier::external_body]
#[verifier::reject_recursive_types(T)]
pub struct ExSender<T>(Sender<T>);

/// `tokio::sync::oneshot::Receiver`, the receiving half of a one-shot channel.
#[verifier::external_type_specification]
#[verifier::external_body]
#[verifier::reject_recursive_types(T)]
pub struct ExReceiver<T>(Receiver<T>);

/// `tokio::sync::oneshot::error::RecvError`, which awaiting the receiving half yields when the
/// sending half was dropped unused. No signature here names it, and still it has to be declared
/// with the receiving half: the verifier reads that half's impl of `Future`, whose output holds
/// this type, and stops at a type it was not told of.
#[verifier::external_type_specification]
#[verifier::external_body]
pub struct ExRecvError(tokio::sync::oneshot::error::RecvError);

/// Calls `tokio::sync::oneshot::channel`. Nothing is claimed of the two halves it returns.
#[verifier::external_body]
pub(crate) fn shutdown_channel() -> (halves: (Sender<()>, Receiver<()>)) {
    tokio::sync::oneshot::channel()
}

/// Calls `tokio::sync::oneshot::Sender::send` with the unit value and lets go of what it
/// returns: whether the value arrives depends on whether the receiving half is still there,
/// and no caller here acts on it. The one claim is that the call comes back without unwinding:
/// sending on such a channel never waits, it fails only by handing the value back, and the one
/// thing it runs that is not the channel's own is the waker of the task that waits on the
/// receiving half, which the channel runs when a sender is dropped as well.
#[verifier::external_body]
pub(crate) fn send_shutdown(sender: Sender<()>)
    opens_invariants none
    no_unwind
{
    let _ = sender.send(());
}

} // verus!
