use vstd::prelude::*;

verus! {

/// The shutdown signal is one endpoint pair of tokio's one-shot channel.
/// Both halves are opaque here: the library only creates, stores, moves and
/// fires them; it never looks inside a value.
#[verifier::external_type_specification]
#[verifier::external_body]
#[verifier::reject_recursive_types(T)]
pub struct ExOneshotSender<T>(tokio::sync::oneshot::Sender<T>);

#[verifier::external_type_specification]
#[verifier::external_body]
#[verifier::reject_recursive_types(T)]
pub struct ExOneshotReceiver<T>(tokio::sync::oneshot::Receiver<T>);

/// Declared only because awaiting a receiver can report the sender gone;
/// the library itself never produces or reads such a value.
#[verifier::external_type_specification]
#[verifier::external_body]
pub struct ExOneshotRecvError(tokio::sync::oneshot::error::RecvError);

/// Relies on tokio::sync::oneshot::channel: creates a fresh connected
/// sender/receiver pair. Nothing is claimed of the pair itself; the
/// registry's accounting is over whether a sender is stored, not over what
/// it is.
#[verifier::external_body]
pub(crate) fn make_shutdown_channel() -> (tokio::sync::oneshot::Sender<()>, tokio::sync::oneshot::Receiver<()>) {
    tokio::sync::oneshot::channel()
}

/// Relies on tokio::sync::oneshot::Sender::send: fires the one-shot signal,
/// consuming the sender so it can never be fired twice. If the receiving
/// task has already gone away the send merely reports failure; firing is
/// best-effort, so that outcome is dropped.
#[verifier::external_body]
pub(crate) fn fire_shutdown(tx: tokio::sync::oneshot::Sender<()>) {
    let _ = tx.send(());
}

} // verus!
