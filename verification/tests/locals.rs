use pyo3_async_runtimes::locals::{
    conversion_route, locals_source, runtime_kind, scheduling, LocalsSource, Route, RuntimeKind,
    Scheduling, TaskLocals,
};

#[test]
fn new_locals_have_no_context() {
    let l = TaskLocals::from_handles(RuntimeKind::Asyncio, "loop", "None");
    assert_eq!(*l.event_loop_handle(), "loop");
    assert_eq!(*l.context_handle(), "None");
}

#[test]
fn with_context_keeps_loop() {
    let l = TaskLocals::from_handles(RuntimeKind::Asyncio, String::from("loop"), String::from("None"));
    let c = l.with_context_handle(String::from("ctx"));
    assert_eq!(c.event_loop_handle(), "loop");
    assert_eq!(c.context_handle(), "ctx");
}

#[test]
fn shared_locals_see_same_data() {
    let l = TaskLocals::from_handles(RuntimeKind::Asyncio, 1u8, 0u8).with_context_handle(5u8);
    let s = l.share();
    assert_eq!(*s.event_loop_handle(), 1);
    assert_eq!(*s.context_handle(), 5);
    assert!(std::ptr::eq(s.event_loop_handle(), l.event_loop_handle()));
}

#[test]
fn stored_locals_win() {
    let l = TaskLocals::from_handles(RuntimeKind::Asyncio, 3u8, 0u8);
    match locals_source(Some(l)) {
        LocalsSource::Task(t) => assert_eq!(*t.event_loop_handle(), 3),
        LocalsSource::RunningLoop => panic!("stored locals must be used"),
    }
    assert!(matches!(locals_source::<u8>(None), LocalsSource::RunningLoop));
}

#[test]
fn kind_is_kept() {
    let l = TaskLocals::from_handles(RuntimeKind::Trio, "token", "None");
    assert_eq!(l.kind(), RuntimeKind::Trio);
    let c = l.with_context_handle("ctx");
    assert_eq!(c.kind(), RuntimeKind::Trio);
    assert_eq!(*c.event_loop_handle(), "token");
    assert_eq!(c.clone().kind(), RuntimeKind::Trio);
}

#[test]
fn sniffed_library_kinds() {
    assert_eq!(runtime_kind(None), Ok(RuntimeKind::Asyncio));
    assert_eq!(runtime_kind(Some("asyncio")), Ok(RuntimeKind::Asyncio));
    assert_eq!(runtime_kind(Some("trio")), Ok(RuntimeKind::Trio));
}

#[test]
fn unsupported_library_refused() {
    assert_eq!(
        runtime_kind(Some("curio")),
        Err("unsupported Python async library: curio".to_string())
    );
    assert_eq!(
        runtime_kind(Some("")),
        Err("unsupported Python async library: ".to_string())
    );
}

#[test]
fn routes_by_kind() {
    assert!(conversion_route(RuntimeKind::Asyncio, false) == Route::AsyncioFuture);
    assert!(conversion_route(RuntimeKind::Asyncio, true) == Route::AsyncioFuture);
    assert!(conversion_route(RuntimeKind::Trio, false) == Route::TrioCoroutine);
    assert!(conversion_route(RuntimeKind::Trio, true) == Route::NotImplemented);
    assert!(scheduling(RuntimeKind::Asyncio) == Scheduling::LoopCallSoon);
    assert!(scheduling(RuntimeKind::Trio) == Scheduling::TrioSystemTask);
}
