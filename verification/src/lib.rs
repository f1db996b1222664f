//! Verified decision logic of the bridge between Python's asyncio/trio event
//! loops and Rust async runtimes.
pub mod handoff;
pub mod locals;
pub mod park;
pub mod runtime;
pub mod stream;
pub mod cancellation;
pub mod completion;
pub mod event_loop;
pub mod coroutine;
