//! Where the output of a command goes.
use crate::event::{process_view, ProcessEvent, StateEvent};
use crate::runtime::{ProcessId, RuntimeMode};
use vstd::prelude::*;
use vstd::string::StringSliceAdditionalSpecFns;

verus! {

/// The standard stream a piece of command output belongs to.
#[derive(Clone, Copy, Debug, PartialEq, Eq, Structural)]
pub enum OutputStream {
    Stdout,
    Stderr,
}

/// What to do with a piece of command output.
#[derive(Clone, Debug)]
pub enum OutputAction {
    /// Report it to the host as this event.
    Emit(ProcessEvent),
    /// Write these bytes directly to the process's own standard stream.
    Print(OutputStream, Vec<u8>),
}

/// Routes output of the command `pid`: with an event emitter (server mode)
/// it becomes an output event on its stream; without one (command mode) it
/// is written as it is to the process's standard stream of the same kind.
pub fn route_output(pid: ProcessId, stream: OutputStream, has_emitter: bool, output: Vec<u8>) -> (r:
    OutputAction)
    ensures
        has_emitter && stream == OutputStream::Stdout ==> (r matches OutputAction::Emit(ev)
            && ev@ == process_view(pid, true, 0, output@, seq![])),
        has_emitter && stream == OutputStream::Stderr ==> (r matches OutputAction::Emit(ev)
            && ev@ == process_view(pid, true, 0, seq![], output@)),
        !has_emitter ==> (r matches OutputAction::Print(s, b) && s == stream && b@ == output@),
{
    if !has_emitter {
        OutputAction::Print(stream, output)
    } else {
        match stream {
            OutputStream::Stdout => OutputAction::Emit(ProcessEvent::stdout(pid, output)),
            OutputStream::Stderr => OutputAction::Emit(ProcessEvent::stderr(pid, output)),
        }
    }
}

/// Where the serialized value returned by a command handler goes.
#[derive(Clone, Copy, Debug, PartialEq, Eq, Structural)]
pub enum ResultTarget {
    /// Nothing is reported.
    Discard,
    /// Written to standard output.
    Print,
    /// Reported to the host as standard output of the command.
    Emit,
}

/// The target of a command's returned value: a null value is dropped; in
/// command mode it is printed; in server mode it is reported when an
/// emitter is present and dropped otherwise.
pub fn result_target(mode: RuntimeMode, has_emitter: bool, is_null: bool) -> (r: ResultTarget)
    ensures
        is_null ==> r == ResultTarget::Discard,
        !is_null && mode == RuntimeMode::Command ==> r == ResultTarget::Print,
        !is_null && mode == RuntimeMode::Server && has_emitter ==> r == ResultTarget::Emit,
        !is_null && mode == RuntimeMode::Server && !has_emitter ==> r == ResultTarget::Discard,
{
    if is_null {
        return ResultTarget::Discard;
    }
    match mode {
        RuntimeMode::Command => ResultTarget::Print,
        RuntimeMode::Server => if has_emitter {
            ResultTarget::Emit
        } else {
            ResultTarget::Discard
        },
    }
}

/// The event reporting a named state value: present only when an emitter
/// is, since one-shot command mode has no state channel.
pub fn state_event(has_emitter: bool, name: String, json: &str) -> (r: Option<StateEvent>)
    ensures
        !has_emitter ==> r is None,
        has_emitter ==> (r matches Some(ev) && ev.name@ == name@ && ev.value@ == json.spec_bytes()),
{
    if has_emitter {
        Some(StateEvent::from_json_text(name, json))
    } else {
        None
    }
}

} // verus!
