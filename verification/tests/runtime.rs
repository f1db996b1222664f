use std::cell::Cell;
use std::sync::Arc;

use pyo3_async_runtimes::runtime::{
    runtime_choice, shutdown_timeout_ms, PendingJoin, RuntimeChoice, RuntimeSlot, ShutdownControl,
    DEFAULT_SHUTDOWN_TIMEOUT_MS,
};

#[test]
fn timeout_defaults_to_five_seconds() {
    assert_eq!(DEFAULT_SHUTDOWN_TIMEOUT_MS, 5000);
    assert_eq!(shutdown_timeout_ms::<()>(Ok(250)), 250);
    assert_eq!(shutdown_timeout_ms::<()>(Err(())), 5000);
}

// Mirrors the shutdown scenario: use, shut down (true), use again (a fresh
// runtime), shut down (true), shut down with nothing active (false).
#[test]
fn shutdown_and_restart() {
    let started = Cell::new(0u32);
    let mut slot: RuntimeSlot<u32> = RuntimeSlot::empty();
    assert!(slot.active_runtime().is_none());
    let start = || {
        started.set(started.get() + 1);
        started.get()
    };
    let first = slot.get_or_start(start);
    assert_eq!(*first, 1);
    let again = slot.get_or_start(|| panic!("an active runtime is reused"));
    assert!(Arc::ptr_eq(&first, &again));
    assert_eq!(slot.active_runtime().map(|w| *w), Some(1));
    assert_eq!(slot.take_for_shutdown().map(|w| *w), Some(1));
    assert!(slot.active_runtime().is_none());
    let second = slot.get_or_start(|| {
        started.set(started.get() + 1);
        started.get()
    });
    assert_eq!(*second, 2);
    assert!(slot.take_for_shutdown().is_some());
    assert!(slot.take_for_shutdown().is_none());
    assert_eq!(started.get(), 2);
}

#[test]
fn explicit_shutdown_joins_outside_runtime() {
    let mut c = ShutdownControl::new("sender", "thread");
    let t = c.shutdown(false);
    assert_eq!(t.timeout_sender, Some("sender"));
    assert_eq!(t.join, Some("thread"));
    assert_eq!(t.release, None);
    let d = c.on_drop();
    assert_eq!(d.timeout_sender, None);
    assert_eq!(d.join, None);
}

#[test]
fn explicit_shutdown_inside_runtime_does_not_join() {
    let mut c = ShutdownControl::new(1u8, 2u8);
    let t = c.shutdown(true);
    assert_eq!(t.timeout_sender, Some(1));
    assert_eq!(t.join, None);
    assert_eq!(t.release, Some(2));
}

#[test]
fn background_shutdown_defers_join() {
    let mut c = ShutdownControl::new(1u8, 2u8);
    let t = c.detach();
    assert_eq!(t.timeout_sender, Some(1));
    assert_eq!(t.join, None);
    assert_eq!(t.release, Some(2));
    let mut pending = PendingJoin::none();
    pending.hold(t.release.unwrap());
    assert_eq!(pending.take(), Some(2));
    assert_eq!(pending.take(), None);
    let d = c.on_drop();
    assert!(d.timeout_sender.is_none() && d.join.is_none() && d.release.is_none());
}

#[test]
fn drop_without_shutdown_joins() {
    let mut c = ShutdownControl::new('s', 'j');
    let d = c.on_drop();
    assert_eq!(d.timeout_sender, Some('s'));
    assert_eq!(d.join, Some('j'));
    assert_eq!(d.release, None);
}

#[test]
fn nothing_pending_without_background_shutdown() {
    let mut p: PendingJoin<u8> = PendingJoin::none();
    assert_eq!(p.take(), None);
}

#[test]
fn external_runtime_wins() {
    assert!(runtime_choice(true) == RuntimeChoice::External);
    assert!(runtime_choice(false) == RuntimeChoice::Managed);
}
