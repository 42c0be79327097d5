//! Service flavour of the framework: the same lifecycle verbs for plugins
//! that run as services.
use vstd::prelude::*;

pub mod cli;
pub mod error;

verus! {

/// Defines the mode of execution for commands within the service.
#[derive(Clone, Copy, Debug, PartialEq, Eq, Structural)]
pub enum ServiceMode {
    /// Long-lived server mode, driven by the host over its protocol.
    /// Deployment remains a one-shot command.
    Server,
    /// One-shot mode: each command is a separate invocation of the binary.
    Command,
}

} // verus!
