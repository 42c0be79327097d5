//! Events a runtime reports to its host about its commands.
use crate::runtime::ProcessId;
use vstd::prelude::*;
use vstd::string::StringSliceAdditionalSpecFns;

verus! {

/// Status of a command, as the host receives it on the process stream.
#[derive(Clone, Debug)]
pub struct ProcessEvent {
    pub pid: ProcessId,
    pub running: bool,
    pub return_code: i32,
    pub stdout: Vec<u8>,
    pub stderr: Vec<u8>,
}

/// The content of a [`ProcessEvent`].
pub struct ProcessEventView {
    pub pid: ProcessId,
    pub running: bool,
    pub return_code: i32,
    pub stdout: Seq<u8>,
    pub stderr: Seq<u8>,
}

impl View for ProcessEvent {
    type V = ProcessEventView;

    open spec fn view(&self) -> ProcessEventView {
        ProcessEventView {
            pid: self.pid,
            running: self.running,
            return_code: self.return_code,
            stdout: self.stdout@,
            stderr: self.stderr@,
        }
    }
}

/// A process event with the given fields.
pub open spec fn process_view(
    pid: ProcessId,
    running: bool,
    return_code: i32,
    stdout: Seq<u8>,
    stderr: Seq<u8>,
) -> ProcessEventView {
    ProcessEventView { pid, running, return_code, stdout, stderr }
}

impl ProcessEvent {
    /// The command `pid` has started: running, return code 0, no output.
    pub fn started(pid: ProcessId) -> (r: Self)
        ensures
            r@ == process_view(pid, true, 0, seq![], seq![]),
    {
        ProcessEvent { pid, running: true, return_code: 0, stdout: Vec::new(), stderr: Vec::new() }
    }

    /// The command `pid` has stopped with `return_code`, no output.
    pub fn stopped(pid: ProcessId, return_code: i32) -> (r: Self)
        ensures
            r@ == process_view(pid, false, return_code, seq![], seq![]),
    {
        ProcessEvent { pid, running: false, return_code, stdout: Vec::new(), stderr: Vec::new() }
    }

    /// Standard output of the running command `pid`.
    pub fn stdout(pid: ProcessId, output: Vec<u8>) -> (r: Self)
        ensures
            r@ == process_view(pid, true, 0, output@, seq![]),
    {
        ProcessEvent { pid, running: true, return_code: 0, stdout: output, stderr: Vec::new() }
    }

    /// Standard error of the running command `pid`.
    pub fn stderr(pid: ProcessId, output: Vec<u8>) -> (r: Self)
        ensures
            r@ == process_view(pid, true, 0, seq![], output@),
    {
        ProcessEvent { pid, running: true, return_code: 0, stdout: Vec::new(), stderr: output }
    }
}

/// A named state value of the runtime, as the host receives it on the
/// runtime stream.
#[derive(Clone, Debug)]
pub struct StateEvent {
    pub name: String,
    pub value: Vec<u8>,
}

impl StateEvent {
    /// A state event whose value is the UTF-8 encoding of a JSON text.
    pub fn from_json_text(name: String, json: &str) -> (r: Self)
        ensures
            r.name@ == name@,
            r.value@ == json.spec_bytes(),
    {
        StateEvent { name, value: json.as_bytes_vec() }
    }
}

} // verus!
