use ya_runtime_sdk::error::Error;
use ya_runtime_sdk::{OutputAction, OutputStream};
use ya_runtime_sdk::lifecycle::{return_code, CommandLedger};

#[test]
fn identities_strictly_increase() {
    let mut ledger = CommandLedger::new();
    let mut last: Option<u64> = None;
    for expected in 0..16u64 {
        let (pid, ev) = ledger.begin(true).expect("identity available");
        assert_eq!(pid, expected);
        assert_eq!(ev.unwrap().pid, pid);
        if let Some(prev) = last {
            assert!(pid > prev);
        }
        last = Some(pid);
    }
    for pid in 0..16u64 {
        assert!(ledger.is_running(pid));
    }
    assert!(!ledger.is_running(16));
}

#[test]
fn started_event_fields() {
    let mut ledger = CommandLedger::new();
    let (pid, ev) = ledger.begin(true).unwrap();
    let ev = ev.unwrap();
    assert_eq!(pid, 0);
    assert!(ev.running);
    assert_eq!(ev.return_code, 0);
    assert!(ev.stdout.is_empty());
    assert!(ev.stderr.is_empty());
}

#[test]
fn stopped_once_with_success_code() {
    let mut ledger = CommandLedger::new();
    let (pid, _) = ledger.begin(true).unwrap();
    let ev = ledger.finish(pid, &Ok(()), true).expect("first stop is reported");
    assert_eq!(ev.pid, pid);
    assert!(!ev.running);
    assert_eq!(ev.return_code, 0);
    assert!(!ledger.is_running(pid));
    assert!(ledger.finish(pid, &Ok(()), true).is_none());
    assert!(ledger.finish(pid, &Err(Error::from_string("late")), true).is_none());
}

#[test]
fn stopped_with_failure_code() {
    let mut ledger = CommandLedger::new();
    let (pid, _) = ledger.begin(true).unwrap();
    let ev = ledger.finish(pid, &Err(Error::from_string("handler failed")), true).unwrap();
    assert_eq!(ev.return_code, 1);
    assert!(!ev.running);
}

#[test]
fn finish_of_unknown_command_is_ignored() {
    let mut ledger = CommandLedger::new();
    assert!(ledger.finish(7, &Ok(()), true).is_none());
    let (pid, _) = ledger.begin(true).unwrap();
    assert_eq!(pid, 0);
}

#[test]
fn failed_setup_starts_nothing() {
    let mut ledger = CommandLedger::new();
    let setup: Result<u32, Error> = Err(Error::from_string("spawn failed"));
    let r = ledger.begin_after(setup, true);
    match r {
        Err(e) => {
            assert_eq!(e.message(), "spawn failed");
            assert_eq!(e.code(), 1);
        }
        Ok(_) => panic!("a failed setup must not start a command"),
    }
    assert!(!ledger.is_running(0));
    let (pid, _) = ledger.begin(true).unwrap();
    assert_eq!(pid, 0);
}

#[test]
fn successful_setup_hands_value_on() {
    let mut ledger = CommandLedger::new();
    let (v, pid, ev) = ledger.begin_after(Ok::<&str, Error>("handle"), true).unwrap();
    assert_eq!(v, "handle");
    assert_eq!(pid, 0);
    assert!(ev.unwrap().running);
    assert!(ledger.is_running(0));
}

#[test]
fn two_concurrent_commands_pair_their_events() {
    let mut ledger = CommandLedger::new();
    let mut log: Vec<(u64, bool, i32)> = Vec::new();
    let (a, ev) = ledger.begin(true).unwrap();
    let ev = ev.unwrap();
    log.push((ev.pid, ev.running, ev.return_code));
    let (b, ev) = ledger.begin(true).unwrap();
    let ev = ev.unwrap();
    log.push((ev.pid, ev.running, ev.return_code));
    assert_ne!(a, b);
    let ev = ledger.finish(b, &Ok(()), true).unwrap();
    log.push((ev.pid, ev.running, ev.return_code));
    let ev = ledger.finish(a, &Ok(()), true).unwrap();
    log.push((ev.pid, ev.running, ev.return_code));
    for pid in [a, b] {
        let started = log.iter().position(|e| e.0 == pid && e.1).unwrap();
        let stopped = log.iter().position(|e| e.0 == pid && !e.1).unwrap();
        assert!(started < stopped);
        assert_eq!(log.iter().filter(|e| e.0 == pid && !e.1).count(), 1);
        assert_eq!(log[stopped].2, 0);
    }
}

#[test]
fn return_codes() {
    assert_eq!(return_code(&Ok(())), 0);
    assert_eq!(return_code(&Err(Error::from_string("x"))), 1);
}

#[test]
fn without_emitter_no_lifecycle_events() {
    let mut ledger = CommandLedger::new();
    let (pid, ev) = ledger.begin(false).unwrap();
    assert_eq!(pid, 0);
    assert!(ev.is_none());
    assert!(ledger.is_running(pid));
    assert!(ledger.finish(pid, &Ok(()), false).is_none());
    assert!(!ledger.is_running(pid));
    let (next, _) = ledger.begin(false).unwrap();
    assert_eq!(next, 1);
}

#[test]
fn output_recorded_between_start_and_stop() {
    let mut ledger = CommandLedger::new();
    let (a, _) = ledger.begin(true).unwrap();
    let (b, _) = ledger.begin(true).unwrap();
    match ledger.record_output(a, OutputStream::Stdout, true, b"line a".to_vec()) {
        OutputAction::Emit(ev) => {
            assert_eq!(ev.pid, a);
            assert_eq!(ev.stdout, b"line a".to_vec());
        }
        OutputAction::Print(..) => panic!("an emitter is present"),
    }
    match ledger.record_output(b, OutputStream::Stderr, false, b"line b".to_vec()) {
        OutputAction::Print(stream, bytes) => {
            assert_eq!(stream, OutputStream::Stderr);
            assert_eq!(bytes, b"line b".to_vec());
        }
        OutputAction::Emit(_) => panic!("no emitter"),
    }
    assert!(ledger.finish(a, &Ok(()), true).is_some());
    assert!(ledger.finish(b, &Ok(()), true).is_some());
    assert!(ledger.is_running(a) == false && ledger.is_running(b) == false);
}
