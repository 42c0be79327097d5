//! One-shot shutdown trigger that plugin code uses to stop the server loop.
use crate::signal::{fire, Fired};
use futures::channel::oneshot::Sender;
use vstd::prelude::*;

verus! {

/// The sending half of a `futures` one-shot channel, carried as it is.
#[verifier::external_type_specification]
#[verifier::external_body]
#[verifier::reject_recursive_types(T)]
pub struct ExOneshotSender<T>(Sender<T>);

/// Requests termination of the server loop, at most once.
///
/// While armed it holds the sender whose signal wakes the loop; the first
/// `shutdown` takes that sender and fires it, and every later one finds
/// nothing to fire.
pub struct RuntimeControl {
    shutdown_tx: Option<Sender<()>>,
    fired: Vec<Fired>,
}

impl RuntimeControl {
    /// Whether a shutdown signal can still be sent.
    pub closed spec fn is_armed(&self) -> bool {
        self.shutdown_tx is Some
    }

    /// How many shutdown signals this control has sent: one receipt of
    /// [`fire`] is kept per signal, and only a send yields a receipt.
    pub closed spec fn signals_sent(&self) -> nat {
        self.fired@.len()
    }

    /// A control with nothing to signal yet.
    pub fn new() -> (r: Self)
        ensures
            !r.is_armed(),
            r.signals_sent() == 0,
    {
        RuntimeControl { shutdown_tx: None, fired: Vec::new() }
    }

    /// Arms the control with the sender whose signal ends the server loop,
    /// in place of any earlier one.
    pub fn arm(&mut self, tx: Sender<()>)
        ensures
            final(self).is_armed(),
            final(self).signals_sent() == old(self).signals_sent(),
    {
        self.shutdown_tx = Some(tx);
    }

    /// Requests shutdown: fires the signal if the control is still armed,
    /// and disarms it. A control that is not armed stays as it is.
    pub fn shutdown(&mut self)
        ensures
            !final(self).is_armed(),
            final(self).signals_sent() == old(self).signals_sent() + if old(self).is_armed() {
                1nat
            } else {
                0nat
            },
    {
        if let Some(tx) = self.shutdown_tx.take() {
            let receipt = fire(tx);
            self.fired.push(receipt);
        }
    }
}

impl Default for RuntimeControl {
    fn default() -> (r: Self)
        ensures
            !r.is_armed(),
            r.signals_sent() == 0,
    {
        RuntimeControl::new()
    }
}

/// Two shutdown requests in a row send at most one signal.
pub proof fn lemma_shutdown_twice(c0: &RuntimeControl, c1: &RuntimeControl, c2: &RuntimeControl)
    requires
        !c1.is_armed(),
        c1.signals_sent() == c0.signals_sent() + if c0.is_armed() {
            1nat
        } else {
            0nat
        },
        !c2.is_armed(),
        c2.signals_sent() == c1.signals_sent() + if c1.is_armed() {
            1nat
        } else {
            0nat
        },
    ensures
        c2.signals_sent() <= c0.signals_sent() + 1,
{
}

} // verus!
