//! Command-line surface of a runtime: the lifecycle verb to perform.
use std::path::PathBuf;
use vstd::prelude::*;

verus! {

/// A filesystem path, carried as it is.
#[verifier::external_type_specification]
#[verifier::external_body]
pub struct ExPathBuf(PathBuf);

/// Parsed command line of a runtime.
pub trait CommandCli {
    /// Working directory given on the command line.
    fn workdir(&self) -> Option<PathBuf>;

    /// The lifecycle verb to perform.
    fn command(&self) -> &Command;
}

/// Lifecycle verb of a one-shot invocation, with its trailing arguments.
#[derive(Clone, Debug, PartialEq, Eq)]
pub enum Command {
    /// Deploy the runtime
    Deploy { args: Vec<String> },
    /// Start the runtime
    Start { args: Vec<String> },
    /// Run a runtime command
    Run { args: Vec<String> },
    /// Output a market offer template JSON
    OfferTemplate { args: Vec<String> },
    /// Perform a self-test
    Test { args: Vec<String> },
}

impl Command {
    pub open spec fn spec_args(&self) -> Vec<String> {
        match self {
            Command::Deploy { args } => *args,
            Command::Start { args } => *args,
            Command::Run { args } => *args,
            Command::OfferTemplate { args } => *args,
            Command::Test { args } => *args,
        }
    }

    /// The arguments that follow the verb.
    pub fn args(&self) -> (r: &Vec<String>)
        ensures
            *r == self.spec_args(),
    {
        match self {
            Command::Deploy { args } => args,
            Command::Start { args } => args,
            Command::Run { args } => args,
            Command::OfferTemplate { args } => args,
            Command::Test { args } => args,
        }
    }
}

/// Command-line arguments of a runtime that takes no options of its own.
pub struct EmptyArgs {}

} // verus!
