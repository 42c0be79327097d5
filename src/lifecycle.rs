//! Accounting of commands: identities, and the started / stopped pair that
//! each command owes its host.
//!
//! A [`CommandLedger`] hands out process identities in increasing order,
//! keeps the set of commands that have started and not yet stopped, and
//! produces the lifecycle events to report. Its history records every
//! started and stopped notice it has produced, in order.
use crate::error::Error;
use crate::event::{process_view, ProcessEvent};
use crate::output::{route_output, OutputAction, OutputStream};
use crate::runtime::ProcessId;
use vstd::prelude::*;

verus! {

/// A lifecycle notice produced by the ledger.
#[derive(Clone, Copy, Debug, PartialEq, Eq, Structural)]
pub enum Notice {
    Started(ProcessId),
    Output(ProcessId),
    Stopped(ProcessId, i32),
}

/// How many times `pid` was reported started in `h`.
pub open spec fn started_count(h: Seq<Notice>, pid: ProcessId) -> nat
    decreases h.len(),
{
    if h.len() == 0 {
        0
    } else {
        started_count(h.drop_last(), pid) + if h.last() == Notice::Started(pid) {
            1nat
        } else {
            0nat
        }
    }
}

/// How many times `pid` was reported stopped in `h`.
pub open spec fn stopped_count(h: Seq<Notice>, pid: ProcessId) -> nat
    decreases h.len(),
{
    if h.len() == 0 {
        0
    } else {
        stopped_count(h.drop_last(), pid) + if h.last() is Stopped && h.last()->Stopped_0
            == pid {
            1nat
        } else {
            0nat
        }
    }
}

/// The return code reported for a command whose handler succeeded or failed.
pub open spec fn spec_return_code(succeeded: bool) -> i32 {
    if succeeded {
        0
    } else {
        1
    }
}

/// The return code reported for a finished command: 0 on success, 1 on failure.
pub fn return_code(outcome: &Result<(), Error>) -> (r: i32)
    ensures
        r == spec_return_code(outcome is Ok),
{
    match outcome {
        Ok(()) => 0,
        Err(_) => 1,
    }
}

proof fn lemma_counts_push(h: Seq<Notice>, n: Notice, pid: ProcessId)
    ensures
        started_count(h.push(n), pid) == started_count(h, pid) + if n == Notice::Started(pid) {
            1nat
        } else {
            0nat
        },
        stopped_count(h.push(n), pid) == stopped_count(h, pid) + if n is Stopped && n->Stopped_0
            == pid {
            1nat
        } else {
            0nat
        },
{
    assert(h.push(n).drop_last() == h);
}

proof fn lemma_push_contains(s: Seq<ProcessId>, x: ProcessId, q: ProcessId)
    ensures
        s.push(x).contains(q) <==> (s.contains(q) || q == x),
        s.push(x).to_set() == s.to_set().insert(x),
{
    let t = s.push(x);
    assert forall|y: ProcessId| t.to_set().contains(y) <==> s.to_set().insert(x).contains(y) by {
        if s.contains(y) {
            let k = choose|k: int| 0 <= k < s.len() && s[k] == y;
            assert(t[k] == y);
        }
        if y == x {
            assert(t[s.len() as int] == y);
        }
        if t.contains(y) {
            let k = choose|k: int| 0 <= k < t.len() && t[k] == y;
            if k < s.len() {
                assert(s[k] == y);
            }
        }
    }
    assert(t.to_set() =~= s.to_set().insert(x));
    assert(t.to_set().contains(q) == t.contains(q));
}

/// `l1` is `l0` after a command started under the identity `pid`: the next
/// identity, never handed out before and larger than every earlier one.
pub open spec fn began(l0: CommandLedger, l1: CommandLedger, pid: ProcessId) -> bool {
    &&& pid as nat == l0.spec_next()
    &&& !l0.was_started(pid)
    &&& forall|q: ProcessId| l0.was_started(q) ==> q < pid
    &&& l1.spec_next() == pid + 1
    &&& l1.spec_running() == l0.spec_running().insert(pid)
    &&& l1.spec_history() == l0.spec_history().push(Notice::Started(pid))
}

/// Identities and lifecycle of the commands of one runtime process.
pub struct CommandLedger {
    next_pid: u64,
    running: Vec<ProcessId>,
    history: Ghost<Seq<Notice>>,
}

impl CommandLedger {
    /// The identity the next command will receive.
    pub closed spec fn spec_next(&self) -> nat {
        self.next_pid as nat
    }

    /// The commands that have started and not yet stopped.
    pub closed spec fn spec_running(&self) -> Set<ProcessId> {
        self.running@.to_set()
    }

    /// Every notice produced so far, in order.
    pub closed spec fn spec_history(&self) -> Seq<Notice> {
        self.history@
    }

    /// Whether `pid` was ever reported started.
    pub open spec fn was_started(&self, pid: ProcessId) -> bool {
        started_count(self.spec_history(), pid) > 0
    }

    /// The ledger's invariant.
    pub closed spec fn wf(&self) -> bool {
        &&& self.running@.no_duplicates()
        &&& forall|i: int|
            0 <= i < self.history@.len() && #[trigger] self.history@[i] is Started
                ==> self.history@[i]->Started_0 < self.next_pid
        &&& forall|i: int, j: int|
            0 <= i < j < self.history@.len() && #[trigger] self.history@[i] is Started
                && #[trigger] self.history@[j] is Started ==> self.history@[i]->Started_0
                < self.history@[j]->Started_0
        &&& forall|j: int|
            0 <= j < self.history@.len() && #[trigger] self.history@[j] is Stopped
                ==> started_count(self.history@.take(j), self.history@[j]->Stopped_0) == 1
        &&& forall|j: int|
            0 <= j < self.history@.len() && #[trigger] self.history@[j] is Output ==> {
                &&& started_count(self.history@.take(j), self.history@[j]->Output_0) == 1
                &&& stopped_count(self.history@.take(j), self.history@[j]->Output_0) == 0
            }
        &&& forall|pid: ProcessId|
            #![trigger started_count(self.history@, pid)]
            {
                &&& started_count(self.history@, pid) <= 1
                &&& stopped_count(self.history@, pid) <= started_count(self.history@, pid)
                &&& (pid >= self.next_pid ==> started_count(self.history@, pid) == 0)
                &&& (self.running@.contains(pid) <==> (started_count(self.history@, pid) == 1
                    && stopped_count(self.history@, pid) == 0))
            }
    }

    /// What the invariant gives a reader of the ledger from outside: every
    /// command is started at most once and stopped at most once, stopped
    /// only after it started, is running exactly when started and not
    /// stopped, and only identities below the next one were handed out.
    pub proof fn lemma_wf(&self)
        requires
            self.wf(),
        ensures
            forall|pid: ProcessId|
                #![trigger started_count(self.spec_history(), pid)]
                {
                    &&& started_count(self.spec_history(), pid) <= 1
                    &&& stopped_count(self.spec_history(), pid) <= started_count(
                        self.spec_history(),
                        pid,
                    )
                    &&& (pid >= self.spec_next() ==> started_count(self.spec_history(), pid)
                        == 0)
                    &&& (self.spec_running().contains(pid) <==> (started_count(
                        self.spec_history(),
                        pid,
                    ) == 1 && stopped_count(self.spec_history(), pid) == 0))
                },
    {
        assert forall|pid: ProcessId| #[trigger]
            started_count(self.spec_history(), pid) <= 1 && (self.spec_running().contains(pid)
                <==> self.running@.contains(pid)) by {
            assert(started_count(self.history@, pid) <= 1);
        }
    }

    /// A ledger for a process that has run no command yet.
    pub fn new() -> (r: Self)
        ensures
            r.wf(),
            r.spec_next() == 0,
            r.spec_running() == Set::<ProcessId>::empty(),
            r.spec_history() == Seq::<Notice>::empty(),
    {
        let r = CommandLedger { next_pid: 0, running: Vec::new(), history: Ghost(Seq::empty()) };
        assert(r.running@.to_set() =~= Set::<ProcessId>::empty());
        r
    }

    /// Position of `pid` among the running commands, or their number when
    /// it is not running.
    fn position(&self, pid: ProcessId) -> (r: usize)
        ensures
            r <= self.running@.len(),
            r < self.running@.len() ==> self.running@[r as int] == pid,
            r == self.running@.len() ==> !self.running@.contains(pid),
    {
        let mut i: usize = 0;
        while i < self.running.len()
            invariant
                i <= self.running@.len(),
                forall|j: int| 0 <= j < i ==> self.running@[j] != pid,
            decreases self.running@.len() - i,
        {
            if self.running[i] == pid {
                return i;
            }
            i = i + 1;
        }
        i
    }

    /// Whether the command `pid` has started and not yet stopped.
    pub fn is_running(&self, pid: ProcessId) -> (r: bool)
        ensures
            r == self.spec_running().contains(pid),
    {
        let i = self.position(pid);
        i < self.running.len()
    }

    /// Starts a command: hands out the next identity and records the command
    /// as running. The event announcing its start is returned when there is
    /// an emitter to report it. Fails when the identity space is exhausted,
    /// leaving the ledger unchanged.
    pub fn begin(&mut self, has_emitter: bool) -> (r: Result<(ProcessId, Option<ProcessEvent>), Error>)
        requires
            old(self).wf(),
        ensures
            final(self).wf(),
            old(self).spec_next() == u64::MAX as nat ==> (r is Err && *final(self) == *old(
                self,
            )),
            old(self).spec_next() < u64::MAX as nat ==> (r matches Ok((pid, ev)) && began(
                *old(self),
                *final(self),
                pid,
            ) && (has_emitter ==> (ev matches Some(e) && e@ == process_view(
                pid,
                true,
                0,
                seq![],
                seq![],
            ))) && (!has_emitter ==> ev is None)),
    {
        if self.next_pid == u64::MAX {
            return Err(Error::from_string("process identities exhausted"));
        }
        let pid = self.next_pid;
        let ghost h0 = self.history@;
        let ghost r0 = self.running@;
        assert(started_count(h0, pid) == 0);
        assert(!r0.contains(pid));
        self.next_pid = pid + 1;
        self.running.push(pid);
        self.history = Ghost(h0.push(Notice::Started(pid)));
        proof {
            assert forall|q: ProcessId| #[trigger] started_count(h0, q) > 0 implies q < pid by {}
            let h1 = self.history@;
            assert forall|j: int| 0 <= j < h0.len() implies #[trigger] h1.take(j) == h0.take(j) by {
                assert(h1.take(j) =~= h0.take(j));
            }
            assert(h1.take(h0.len() as int) =~= h0);
            assert forall|q: ProcessId|
                #![trigger started_count(self.history@, q)]
                {
                    &&& started_count(self.history@, q) <= 1
                    &&& stopped_count(self.history@, q) <= started_count(self.history@, q)
                    &&& (q >= self.next_pid ==> started_count(self.history@, q) == 0)
                    &&& (self.running@.contains(q) <==> (started_count(self.history@, q) == 1
                        && stopped_count(self.history@, q) == 0))
                } by {
                lemma_counts_push(h0, Notice::Started(pid), q);
                assert(started_count(h0, q) <= 1);
                assert(self.running@ == r0.push(pid));
                lemma_push_contains(r0, pid, q);
            }
            assert(self.running@.no_duplicates()) by {
                assert forall|i: int, j: int|
                    0 <= i < self.running@.len() && 0 <= j < self.running@.len() && i != j
                    implies self.running@[i] != self.running@[j] by {
                    if i < r0.len() && j < r0.len() {
                    } else if i == r0.len() {
                        assert(r0.contains(self.running@[j]) || j == r0.len());
                    } else {
                        assert(r0.contains(self.running@[i]) || i == r0.len());
                    }
                }
            }
            lemma_push_contains(r0, pid, pid);
        }
        let ev = if has_emitter {
            Some(ProcessEvent::started(pid))
        } else {
            None
        };
        Ok((pid, ev))
    }

    /// Starts a command whose setup step was carried out first. When the
    /// setup failed, the command never starts: the ledger is unchanged and
    /// the setup's own error is returned. Otherwise as [`Self::begin`],
    /// with the setup's value handed on.
    pub fn begin_after<T>(&mut self, setup: Result<T, Error>, has_emitter: bool) -> (r: Result<
        (T, ProcessId, Option<ProcessEvent>),
        Error,
    >)
        requires
            old(self).wf(),
        ensures
            final(self).wf(),
            setup is Err ==> (r == Err::<(T, ProcessId, Option<ProcessEvent>), Error>(
                setup->Err_0,
            ) && *final(self) == *old(self)),
            setup is Ok && old(self).spec_next() == u64::MAX as nat ==> (r is Err && *final(self)
                == *old(self)),
            setup is Ok && old(self).spec_next() < u64::MAX as nat ==> (r matches Ok(
                (v, pid, ev),
            ) && v == setup->Ok_0 && began(*old(self), *final(self), pid) && (has_emitter ==> (
            ev matches Some(e) && e@ == process_view(pid, true, 0, seq![], seq![])))
                && (!has_emitter ==> ev is None)),
    {
        match setup {
            Err(e) => Err(e),
            Ok(v) => match self.begin(has_emitter) {
                Err(e) => Err(e),
                Ok((pid, ev)) => Ok((v, pid, ev)),
            },
        }
    }

    /// Routes output of the command `pid` as [`route_output`] does, and
    /// records it in the history while the command is running.
    pub fn record_output(
        &mut self,
        pid: ProcessId,
        stream: OutputStream,
        has_emitter: bool,
        output: Vec<u8>,
    ) -> (r: OutputAction)
        requires
            old(self).wf(),
        ensures
            final(self).wf(),
            final(self).spec_next() == old(self).spec_next(),
            final(self).spec_running() == old(self).spec_running(),
            old(self).spec_running().contains(pid) ==> final(self).spec_history() == old(
                self,
            ).spec_history().push(Notice::Output(pid)),
            !old(self).spec_running().contains(pid) ==> final(self).spec_history() == old(
                self,
            ).spec_history(),
            has_emitter && stream == OutputStream::Stdout ==> (r matches OutputAction::Emit(ev)
                && ev@ == process_view(pid, true, 0, output@, seq![])),
            has_emitter && stream == OutputStream::Stderr ==> (r matches OutputAction::Emit(ev)
                && ev@ == process_view(pid, true, 0, seq![], output@)),
            !has_emitter ==> (r matches OutputAction::Print(s, b) && s == stream && b@
                == output@),
    {
        let i = self.position(pid);
        if i < self.running.len() {
            let ghost h0 = self.history@;
            assert(self.running@.contains(pid));
            assert(started_count(self.history@, pid) <= 1);
            let n = Notice::Output(pid);
            self.history = Ghost(h0.push(n));
            proof {
                let h1 = self.history@;
                assert forall|j: int| 0 <= j < h0.len() implies #[trigger] h1.take(j) == h0.take(
                    j,
                ) by {
                    assert(h1.take(j) =~= h0.take(j));
                }
                assert(h1.take(h0.len() as int) =~= h0);
                assert forall|q: ProcessId|
                    #![trigger started_count(self.history@, q)]
                    {
                        &&& started_count(self.history@, q) <= 1
                        &&& stopped_count(self.history@, q) <= started_count(self.history@, q)
                        &&& (q >= self.next_pid ==> started_count(self.history@, q) == 0)
                        &&& (self.running@.contains(q) <==> (started_count(self.history@, q) == 1
                            && stopped_count(self.history@, q) == 0))
                    } by {
                    lemma_counts_push(h0, n, q);
                    assert(started_count(h0, q) <= 1);
                }
            }
        } else {
            assert(!self.running@.to_set().contains(pid));
        }
        route_output(pid, stream, has_emitter, output)
    }

    /// Finishes the command `pid` with the outcome of its handler. A running
    /// command is recorded as stopped, with return code 0 on success and 1
    /// on failure, and the event announcing its stop is returned when there
    /// is an emitter to report it. A command that is not running gets no
    /// event and leaves the ledger unchanged.
    pub fn finish(&mut self, pid: ProcessId, outcome: &Result<(), Error>, has_emitter: bool) -> (r:
        Option<ProcessEvent>)
        requires
            old(self).wf(),
        ensures
            final(self).wf(),
            !old(self).spec_running().contains(pid) ==> (r is None && *final(self) == *old(
                self,
            )),
            old(self).spec_running().contains(pid) ==> {
                &&& final(self).spec_next() == old(self).spec_next()
                &&& final(self).spec_running() == old(self).spec_running().remove(pid)
                &&& final(self).spec_history() == old(self).spec_history().push(
                    Notice::Stopped(pid, spec_return_code(outcome is Ok)),
                )
                &&& stopped_count(final(self).spec_history(), pid) == 1
                &&& has_emitter ==> (r matches Some(ev) && ev@ == process_view(
                    pid,
                    false,
                    spec_return_code(outcome is Ok),
                    seq![],
                    seq![],
                ))
                &&& !has_emitter ==> r is None
            },
    {
        let i = self.position(pid);
        if i == self.running.len() {
            assert(!self.running@.to_set().contains(pid));
            return None;
        }
        let code = return_code(outcome);
        let ghost h0 = self.history@;
        let ghost r0 = self.running@;
        assert(r0[i as int] == pid);
        assert(started_count(self.history@, pid) <= 1);
        self.running.remove(i);
        let n = Notice::Stopped(pid, code);
        self.history = Ghost(h0.push(n));
        proof {
            let h1 = self.history@;
            assert forall|j: int| 0 <= j < h0.len() implies #[trigger] h1.take(j) == h0.take(j) by {
                assert(h1.take(j) =~= h0.take(j));
            }
            assert(h1.take(h0.len() as int) =~= h0);
            let r1 = self.running@;
            assert(r1 == r0.subrange(0, i as int) + r0.subrange(i + 1, r0.len() as int));
            assert forall|q: ProcessId| r1.contains(q) <==> (r0.contains(q) && q != pid) by {
                if r1.contains(q) {
                    let k = choose|k: int| 0 <= k < r1.len() && r1[k] == q;
                    if k < i {
                        assert(r0[k] == q);
                    } else {
                        assert(r0[k + 1] == q);
                    }
                }
                if r0.contains(q) && q != pid {
                    let k = choose|k: int| 0 <= k < r0.len() && r0[k] == q;
                    assert(k != i);
                    if k < i {
                        assert(r1[k] == q);
                    } else {
                        assert(r1[k - 1] == q);
                    }
                }
            }
            assert(r1.no_duplicates()) by {
                assert forall|a: int, b: int|
                    0 <= a < r1.len() && 0 <= b < r1.len() && a != b implies r1[a] != r1[b] by {
                    let a0 = if a < i { a } else { a + 1 };
                    let b0 = if b < i { b } else { b + 1 };
                    assert(r1[a] == r0[a0]);
                    assert(r1[b] == r0[b0]);
                }
            }
            assert forall|q: ProcessId|
                #![trigger started_count(self.history@, q)]
                {
                    &&& started_count(self.history@, q) <= 1
                    &&& stopped_count(self.history@, q) <= started_count(self.history@, q)
                    &&& (q >= self.next_pid ==> started_count(self.history@, q) == 0)
                    &&& (self.running@.contains(q) <==> (started_count(self.history@, q) == 1
                        && stopped_count(self.history@, q) == 0))
                } by {
                lemma_counts_push(h0, n, q);
                assert(started_count(h0, q) <= 1);
            }
            assert forall|y: ProcessId|
                r1.to_set().contains(y) <==> r0.to_set().remove(pid).contains(y) by {}
            assert(r1.to_set() =~= r0.to_set().remove(pid));
            lemma_counts_push(h0, n, pid);
        }
        if has_emitter {
            Some(ProcessEvent::stopped(pid, code))
        } else {
            None
        }
    }
}

/// Identities strictly increase in the order commands start: of two start
/// notices, the later one carries the larger identity, so no identity is
/// handed out twice.
pub proof fn lemma_identities_increase(l: &CommandLedger, i: int, j: int)
    requires
        l.wf(),
        0 <= i < j < l.spec_history().len(),
        l.spec_history()[i] is Started,
        l.spec_history()[j] is Started,
    ensures
        l.spec_history()[i]->Started_0 < l.spec_history()[j]->Started_0,
{
}

proof fn lemma_next_after(ls: Seq<CommandLedger>, pids: Seq<ProcessId>, k: int)
    requires
        ls.len() == pids.len() + 1,
        forall|i: int| 0 <= i < pids.len() ==> #[trigger] began(ls[i], ls[i + 1], pids[i]),
        0 <= k <= pids.len(),
    ensures
        ls[k].spec_next() == ls[0].spec_next() + k,
    decreases k,
{
    if k > 0 {
        let j = k - 1;
        lemma_next_after(ls, pids, j);
        assert(began(ls[j], ls[j + 1], pids[j]));
    }
}

/// Commands started one after another, from any ledger, receive the
/// consecutive identities that follow it: each call the next one, so they
/// strictly increase and none was handed out before.
pub proof fn lemma_successive_begins(ls: Seq<CommandLedger>, pids: Seq<ProcessId>)
    requires
        ls.len() == pids.len() + 1,
        forall|i: int| 0 <= i < pids.len() ==> #[trigger] began(ls[i], ls[i + 1], pids[i]),
    ensures
        forall|i: int| 0 <= i < pids.len() ==> #[trigger] pids[i] == ls[0].spec_next() + i,
        forall|i: int, j: int| 0 <= i < j < pids.len() ==> pids[i] < pids[j],
        forall|i: int| 0 <= i < pids.len() ==> !ls[0].was_started(#[trigger] pids[i]),
{
    assert forall|i: int| 0 <= i < pids.len() implies #[trigger] pids[i] == ls[0].spec_next()
        + i by {
        lemma_next_after(ls, pids, i);
        assert(began(ls[i], ls[i + 1], pids[i]));
    }
    assert forall|i: int| 0 <= i < pids.len() implies !ls[0].was_started(#[trigger] pids[i]) by {
        let z: int = 0;
        assert(began(ls[z], ls[z + 1], pids[z]));
        assert(pids[0] == ls[0].spec_next() + 0);
        assert(pids[i] == ls[0].spec_next() + i);
        if ls[0].was_started(pids[i]) {
            assert(pids[i] < pids[0]);
        }
    }
    assert forall|i: int, j: int| 0 <= i < j < pids.len() implies pids[i] < pids[j] by {
        assert(pids[i] == ls[0].spec_next() + i);
        assert(pids[j] == ls[0].spec_next() + j);
    }
}

/// Each command stops at most once, and one that started and is no longer
/// running has stopped exactly once.
pub proof fn lemma_stopped_once(l: &CommandLedger, pid: ProcessId)
    requires
        l.wf(),
    ensures
        stopped_count(l.spec_history(), pid) <= 1,
        l.was_started(pid) && !l.spec_running().contains(pid) ==> stopped_count(
            l.spec_history(),
            pid,
        ) == 1,
{
    l.lemma_wf();
    assert(started_count(l.spec_history(), pid) <= 1);
}

/// Output of a command is recorded only between its start and its stop:
/// its start notice comes before, its stop notice after.
pub proof fn lemma_output_while_running(l: &CommandLedger, j: int)
    requires
        l.wf(),
        0 <= j < l.spec_history().len(),
        l.spec_history()[j] is Output,
    ensures
        started_count(l.spec_history().take(j), l.spec_history()[j]->Output_0) == 1,
        stopped_count(l.spec_history().take(j), l.spec_history()[j]->Output_0) == 0,
{
}

/// A command's stop notice comes after its start notice.
pub proof fn lemma_started_before_stopped(l: &CommandLedger, j: int)
    requires
        l.wf(),
        0 <= j < l.spec_history().len(),
        l.spec_history()[j] is Stopped,
    ensures
        started_count(l.spec_history().take(j), l.spec_history()[j]->Stopped_0) == 1,
{
}

} // verus!
