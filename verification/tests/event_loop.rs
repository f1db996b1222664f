use pyo3_async_runtimes::event_loop::{
    close_step_after, first_close_step, probes_executor_after, run_result, run_then_close, CloseStep,
};

fn walk(has_executor_shutdown: bool) -> Vec<CloseStep> {
    let mut steps = Vec::new();
    let mut step = Some(first_close_step());
    while let Some(done) = step {
        steps.push(done);
        let has = probes_executor_after(done) && has_executor_shutdown;
        step = close_step_after(done, has);
    }
    steps
}

#[test]
fn close_with_executor_shutdown() {
    assert!(walk(true) == vec![CloseStep::ShutdownAsyncgens, CloseStep::ShutdownDefaultExecutor, CloseStep::Close]);
}

#[test]
fn close_without_executor_shutdown() {
    assert!(walk(false) == vec![CloseStep::ShutdownAsyncgens, CloseStep::Close]);
}

#[test]
fn executor_probed_only_after_asyncgens() {
    assert!(probes_executor_after(CloseStep::ShutdownAsyncgens));
    assert!(!probes_executor_after(CloseStep::ShutdownDefaultExecutor));
    assert!(!probes_executor_after(CloseStep::Close));
    assert!(close_step_after(CloseStep::Close, true).is_none());
}

#[test]
fn run_result_takes_value() {
    assert_eq!(run_result::<i32, String>(Ok(()), Some(4)), Ok(4));
    assert_eq!(run_result::<i32, &str>(Err("stopped"), None), Err("stopped"));
    assert_eq!(run_result::<i32, &str>(Err("stopped"), Some(1)), Err("stopped"));
}

#[test]
fn close_failure_wins() {
    assert_eq!(run_then_close::<i32, &str>(Ok(1), Ok(())), Ok(1));
    assert_eq!(run_then_close::<i32, &str>(Err("run"), Ok(())), Err("run"));
    assert_eq!(run_then_close::<i32, &str>(Ok(1), Err("close")), Err("close"));
    assert_eq!(run_then_close::<i32, &str>(Err("run"), Err("close")), Err("close"));
}
