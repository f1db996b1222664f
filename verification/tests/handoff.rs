use futures_channel::oneshot;
use pyo3_async_runtimes::handoff::{settle, Completer, Delivery, Settled};

#[test]
fn completer_delivers_to_live_receiver() {
    let (tx, mut rx) = oneshot::channel::<i64>();
    let mut c = Completer::new(tx);
    assert!(matches!(c.complete(42), Delivery::Delivered));
    assert_eq!(rx.try_recv(), Ok(Some(42)));
}

#[test]
fn completer_hands_value_back_when_receiver_gone() {
    let (tx, rx) = oneshot::channel::<i64>();
    drop(rx);
    let mut c = Completer::new(tx);
    match c.complete(7) {
        Delivery::ReceiverGone(v) => assert_eq!(v, 7),
        _ => panic!("expected the value back"),
    }
}

#[test]
fn completer_is_used_once() {
    let (tx, mut rx) = oneshot::channel::<&'static str>();
    let mut c = Completer::new(tx);
    assert!(matches!(c.complete("first"), Delivery::Delivered));
    match c.complete("second") {
        Delivery::AlreadyUsed(v) => assert_eq!(v, "second"),
        _ => panic!("a spent completer must not send"),
    }
    assert_eq!(rx.try_recv(), Ok(Some("first")));
}

#[test]
fn hand_over_moves_the_sender() {
    let (tx, mut rx) = oneshot::channel::<u32>();
    let mut first = Completer::new(tx);
    let mut second = first.hand_over();
    assert!(matches!(first.complete(1), Delivery::AlreadyUsed(1)));
    assert!(matches!(second.complete(2), Delivery::Delivered));
    assert_eq!(rx.try_recv(), Ok(Some(2)));
}

#[test]
fn settle_covers_each_ending() {
    let v: Settled<i32, String> = settle(Ok(Ok(3)));
    assert!(matches!(v, Settled::Value(3)));
    let e: Settled<i32, String> = settle(Ok(Err("boom".to_string())));
    match e {
        Settled::Raised(msg) => assert_eq!(msg, "boom"),
        _ => panic!("expected the error"),
    }
    let a: Settled<i32, String> = settle(Err(oneshot::Canceled));
    assert!(matches!(a, Settled::Abandoned));
}

#[test]
fn settle_after_sender_dropped() {
    let (tx, mut rx) = oneshot::channel::<Result<i32, String>>();
    drop(tx);
    let got = rx.try_recv().map(|o| o.expect("sender is gone, so the channel is closed"));
    assert!(matches!(settle(got), Settled::Abandoned));
}
