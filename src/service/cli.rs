//! Command-line surface of a service.
use std::path::PathBuf;
use vstd::prelude::*;

verus! {

/// Parsed command line of a service.
pub trait CommandCli {
    /// Working directory given on the command line.
    fn workdir(&self) -> Option<PathBuf>;

    /// The lifecycle verb to perform.
    fn command(&self) -> &Command;
}

/// Lifecycle verb of a one-shot service invocation, with its trailing
/// arguments.
#[derive(Clone, Debug)]
pub enum Command {
    /// Deploy the service
    Deploy { args: Vec<String> },
    /// Start the service
    Start { args: Vec<String> },
    /// Run a service command
    Run { args: Vec<String> },
    /// Output a market offer template JSON
    OfferTemplate { args: Vec<String> },
    /// Perform a self-test
    Test { args: Vec<String> },
}

/// Command-line arguments of a service that takes no options of its own.
pub struct EmptyArgs {}

} // verus!
