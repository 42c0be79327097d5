//! Execution modes and process identities.
use crate::error::Error;
use vstd::prelude::*;

verus! {

/// Identity of a command within the lifetime of a runtime process.
pub type ProcessId = u64;

/// Defines the mode of execution for commands within the runtime.
#[derive(Clone, Copy, Debug, PartialEq, Eq, Structural)]
pub enum RuntimeMode {
    /// Long-lived server mode, driven by the host over its protocol.
    /// Deployment remains a one-shot command.
    Server,
    /// One-shot mode: each command is a separate invocation of the binary.
    Command,
}

/// The start mode announced in a default deployment descriptor.
pub open spec fn spec_start_mode(mode: RuntimeMode) -> Seq<char> {
    match mode {
        RuntimeMode::Server => "blocking"@,
        RuntimeMode::Command => "empty"@,
    }
}

/// The start mode announced in a default deployment descriptor: `blocking`
/// for a server, `empty` for one-shot commands.
pub fn start_mode(mode: RuntimeMode) -> (r: &'static str)
    ensures
        r@ == spec_start_mode(mode),
{
    proof {
        reveal_strlit("blocking");
        reveal_strlit("empty");
    }
    match mode {
        RuntimeMode::Server => "blocking",
        RuntimeMode::Command => "empty",
    }
}

/// The name a runtime goes by: the environment's override if it gives one,
/// else the name the runtime was built with.
pub fn runtime_name(name_override: Option<String>, built_name: &str) -> (r: String)
    ensures
        r@ == match name_override {
            Some(n) => n@,
            None => built_name@,
        },
{
    match name_override {
        Some(n) => n,
        None => String::from_str(built_name),
    }
}

/// A command line to run, split into the binary and its arguments.
pub fn split_run_args(args: &Vec<String>) -> (r: Result<(String, Vec<String>), Error>)
    ensures
        args@.len() == 0 ==> (r matches Err(e) && e.spec_code() == 1
            && e.spec_message() == "not enough arguments"@),
        args@.len() > 0 ==> (r matches Ok((bin, rest)) && bin@ == args@[0]@ && rest@.len()
            == args@.len() - 1 && forall|i: int|
            0 <= i < rest@.len() ==> #[trigger] rest@[i]@ == args@[i + 1]@),
{
    if args.len() == 0 {
        return Err(Error::from_string("not enough arguments"));
    }
    let bin = args[0].clone();
    let mut rest: Vec<String> = Vec::new();
    let mut i: usize = 1;
    while i < args.len()
        invariant
            1 <= i <= args@.len(),
            rest@.len() == i - 1,
            forall|j: int| 0 <= j < rest@.len() ==> #[trigger] rest@[j]@ == args@[j + 1]@,
        decreases args@.len() - i,
    {
        rest.push(args[i].clone());
        i = i + 1;
    }
    Ok((bin, rest))
}

} // verus!
