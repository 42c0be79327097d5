use futures::channel::oneshot;
use ya_runtime_sdk::RuntimeControl;

#[test]
fn shutdown_twice_signals_once() {
    let (tx, mut rx) = oneshot::channel::<()>();
    let mut control = RuntimeControl::new();
    control.arm(tx);
    control.shutdown();
    control.shutdown();
    assert_eq!(rx.try_recv(), Ok(Some(())));
}

#[test]
fn shutdown_without_sender_is_noop() {
    let mut control = RuntimeControl::default();
    control.shutdown();
    control.shutdown();
}

#[test]
fn shutdown_after_receiver_dropped() {
    let (tx, rx) = oneshot::channel::<()>();
    drop(rx);
    let mut control = RuntimeControl::new();
    control.arm(tx);
    control.shutdown();
}
