use pyo3_async_runtimes::coroutine::{
    awaited_under_trio, coroutine_report, CoroutineLife, CoroutineReport, CoroutineTaskEnd, Exit,
    Resume,
};

#[test]
fn trio_or_unknown_library_accepted() {
    assert!(awaited_under_trio(&None));
    assert!(awaited_under_trio(&Some("trio".to_string())));
    assert!(!awaited_under_trio(&Some("asyncio".to_string())));
    assert!(!awaited_under_trio(&Some("curio".to_string())));
    assert!(!awaited_under_trio(&Some("Trio".to_string())));
}

#[test]
fn ready_value_returns_and_finishes() {
    let mut c = CoroutineLife::new();
    assert!(c.may_poll());
    assert!(matches!(c.on_ready::<i64, String>(Ok(42), false), Exit::Return(42)));
    assert!(!c.may_poll());
}

#[test]
fn stop_iteration_is_wrapped() {
    let mut c = CoroutineLife::new();
    assert!(matches!(c.on_ready::<i64, &str>(Err("StopIteration"), true), Exit::WrapStopIteration("StopIteration")));
    let mut d = CoroutineLife::new();
    assert!(matches!(d.on_ready::<i64, &str>(Err("ValueError"), false), Exit::Raise("ValueError")));
    assert!(!d.may_poll());
}

#[test]
fn park_outcomes() {
    let mut c = CoroutineLife::new();
    assert!(matches!(c.on_park::<u8, ()>(Ok(Some(9))), Resume::Suspend(9)));
    assert!(c.may_poll());
    assert!(matches!(c.on_park::<u8, ()>(Ok(None)), Resume::PollAgain));
    assert!(c.may_poll());
    assert!(matches!(c.on_park::<u8, &str>(Err("no trio")), Resume::Raise("no trio")));
    assert!(!c.may_poll());
}

#[test]
fn sent_error_outcome_finishes() {
    let mut c = CoroutineLife::new();
    assert!(c.on_send::<&str>(None).is_none());
    assert!(c.on_send::<&str>(Some(Ok(()))).is_none());
    assert!(c.may_poll());
    assert_eq!(c.on_send(Some(Err("Cancelled"))), Some("Cancelled"));
    assert!(!c.may_poll());
}

#[test]
fn finished_coroutine_refuses_reuse() {
    let mut c = CoroutineLife::new();
    c.finish();
    assert!(!c.may_poll());
    assert!(matches!(c.on_park::<u8, ()>(Ok(Some(1))), Resume::Suspend(1)));
    assert!(!c.may_poll());
    c.finish();
    assert!(!c.may_poll());
}

#[test]
fn task_reports() {
    assert!(matches!(coroutine_report::<i32, ()>(CoroutineTaskEnd::Cancelled), CoroutineReport::Nothing));
    assert!(matches!(coroutine_report::<i32, ()>(CoroutineTaskEnd::Finished(Ok(1))), CoroutineReport::Outcome(Ok(1))));
    assert!(matches!(coroutine_report::<i32, ()>(CoroutineTaskEnd::Panicked), CoroutineReport::Panic));
}
