use futures_channel::oneshot;
use pyo3_async_runtimes::cancellation::{CancelPoll, CancelWatch, DoneCallback, DoneStep, WatchStep};
use pyo3_async_runtimes::handoff::Completer;

#[test]
fn watch_aborts_on_signal() {
    let mut w = CancelWatch::new();
    assert!(w.listening());
    assert!(w.observe(CancelPoll::Quiet) == WatchStep::Wait);
    assert!(w.listening());
    assert!(w.observe(CancelPoll::Fired) == WatchStep::Abort);
    assert!(!w.listening());
}

#[test]
fn watch_stops_listening_when_signal_dropped() {
    let mut w = CancelWatch::new();
    assert!(w.observe(CancelPoll::Dropped) == WatchStep::Wait);
    assert!(!w.listening());
}

#[test]
fn done_callback_forwards_cancellation() {
    let (tx, mut rx) = oneshot::channel::<()>();
    let mut cb = DoneCallback::new(Completer::new(tx));
    let step: DoneStep<String> = cb.on_done(Ok(true));
    assert!(matches!(step, DoneStep::SignalledCancel));
    assert_eq!(rx.try_recv(), Ok(Some(())));
}

#[test]
fn done_callback_ignores_normal_completion() {
    let (tx, mut rx) = oneshot::channel::<()>();
    let mut cb = DoneCallback::new(Completer::new(tx));
    let step: DoneStep<String> = cb.on_done(Ok(false));
    assert!(matches!(step, DoneStep::Nothing));
    assert_eq!(rx.try_recv(), Ok(None));
}

#[test]
fn done_callback_reports_failed_check() {
    let (tx, mut rx) = oneshot::channel::<()>();
    let mut cb = DoneCallback::new(Completer::new(tx));
    match cb.on_done(Err("no cancelled attribute".to_string())) {
        DoneStep::CheckFailed(e) => assert_eq!(e, "no cancelled attribute"),
        _ => panic!("expected the error"),
    }
    assert_eq!(rx.try_recv(), Ok(None));
}

// Cancelling the Python future reaches the Rust side end to end: the signal
// sent by the callback is what the watch then observes.
#[test]
fn cancellation_reaches_the_rust_future() {
    let (tx, mut rx) = oneshot::channel::<()>();
    let mut cb = DoneCallback::new(Completer::new(tx));
    let mut w = CancelWatch::new();
    assert!(w.observe(CancelPoll::Quiet) == WatchStep::Wait);
    let _: DoneStep<()> = cb.on_done(Ok(true));
    let poll = match rx.try_recv() {
        Ok(Some(())) => CancelPoll::Fired,
        Ok(None) => CancelPoll::Quiet,
        Err(_) => CancelPoll::Dropped,
    };
    assert!(w.observe(poll) == WatchStep::Abort);
}
