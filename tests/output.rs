use ya_runtime_sdk::output::{
    result_target, route_output, state_event, OutputAction, OutputStream, ResultTarget,
};
use ya_runtime_sdk::RuntimeMode;

#[test]
fn command_mode_output_is_printed() {
    match route_output(3, OutputStream::Stdout, false, b"hello".to_vec()) {
        OutputAction::Print(stream, bytes) => {
            assert_eq!(stream, OutputStream::Stdout);
            assert_eq!(bytes, b"hello".to_vec());
        }
        OutputAction::Emit(_) => panic!("no event without an emitter"),
    }
    match route_output(3, OutputStream::Stderr, false, b"oops".to_vec()) {
        OutputAction::Print(stream, bytes) => {
            assert_eq!(stream, OutputStream::Stderr);
            assert_eq!(bytes, b"oops".to_vec());
        }
        OutputAction::Emit(_) => panic!("no event without an emitter"),
    }
}

#[test]
fn server_mode_output_is_emitted() {
    match route_output(5, OutputStream::Stdout, true, b"out".to_vec()) {
        OutputAction::Emit(ev) => {
            assert_eq!(ev.pid, 5);
            assert!(ev.running);
            assert_eq!(ev.return_code, 0);
            assert_eq!(ev.stdout, b"out".to_vec());
            assert!(ev.stderr.is_empty());
        }
        OutputAction::Print(..) => panic!("an emitter is present"),
    }
    match route_output(6, OutputStream::Stderr, true, b"err".to_vec()) {
        OutputAction::Emit(ev) => {
            assert_eq!(ev.pid, 6);
            assert!(ev.stdout.is_empty());
            assert_eq!(ev.stderr, b"err".to_vec());
        }
        OutputAction::Print(..) => panic!("an emitter is present"),
    }
}

#[test]
fn handler_result_targets() {
    assert_eq!(result_target(RuntimeMode::Command, false, true), ResultTarget::Discard);
    assert_eq!(result_target(RuntimeMode::Server, true, true), ResultTarget::Discard);
    assert_eq!(result_target(RuntimeMode::Command, false, false), ResultTarget::Print);
    assert_eq!(result_target(RuntimeMode::Command, true, false), ResultTarget::Print);
    assert_eq!(result_target(RuntimeMode::Server, true, false), ResultTarget::Emit);
    assert_eq!(result_target(RuntimeMode::Server, false, false), ResultTarget::Discard);
}

#[test]
fn state_needs_an_emitter() {
    assert!(state_event(false, "load".to_string(), "{\"v\":1}").is_none());
    let ev = state_event(true, "load".to_string(), "{\"v\":1}").unwrap();
    assert_eq!(ev.name, "load");
    assert_eq!(ev.value, b"{\"v\":1}".to_vec());
}
