//! Proof that a shutdown signal was handed to its channel.
use futures::channel::oneshot::Sender;
use vstd::prelude::*;

verus! {

/// Receipt of a signal handed to a one-shot channel. Only [`fire`] makes
/// one.
pub struct Fired {
    sent: bool,
}

impl Fired {
    /// Whether the receipt comes from a send.
    pub closed spec fn was_sent(&self) -> bool {
        self.sent
    }
}

/// Relies on `futures::channel::oneshot::Sender::send`: the sender is
/// consumed and `()` handed to the channel; a receiver that is gone drops it.
#[verifier::external_body]
pub(crate) fn fire(tx: Sender<()>) -> (r: Fired)
    ensures
        r.was_sent(),
{
    let _ = tx.send(());
    Fired { sent: true }
}

} // verus!
