//! Task-local data for conversions: the Python event loop a conversion talks to
//! and the Python context it runs in.
use std::sync::Arc;
use vstd::prelude::*;
use vstd::string::StringExecFns;

verus! {

/// Calls `<Arc<W> as Clone>::clone`, which makes another pointer to the same
/// allocation: the result is the same value.
#[verifier::external_body]
pub(crate) fn share<W>(a: &Arc<W>) -> (res: Arc<W>)
    ensures
        res == *a,
{
    a.clone()
}

/// The Python async library a task runs under.
#[derive(PartialEq, Eq, Structural, Clone, Copy, Debug)]
pub enum RuntimeKind {
    /// `asyncio`: the handle is the running event loop.
    Asyncio,
    /// `trio`: the handle is the run's `TrioToken`.
    Trio,
}

/// The message of the error raised under an async library other than
/// asyncio and trio.
pub open spec fn unsupported_message(library: Seq<char>) -> Seq<char> {
    "unsupported Python async library: "@ + library
}

/// The library named by `sniffio` (`None` when it gives no answer, which is
/// taken as asyncio, whose own lookup then reports a missing loop).
pub open spec fn kind_of(sniffed: Option<Seq<char>>) -> Result<RuntimeKind, Seq<char>> {
    match sniffed {
        None => Ok(RuntimeKind::Asyncio),
        Some(name) => if name == "asyncio"@ {
            Ok(RuntimeKind::Asyncio)
        } else if name == "trio"@ {
            Ok(RuntimeKind::Trio)
        } else {
            Err(unsupported_message(name))
        },
    }
}

/// Decides the async library of the current Python task from what `sniffio`
/// answered; any library other than asyncio and trio is refused.
pub fn runtime_kind(sniffed: Option<&str>) -> (k: Result<RuntimeKind, String>)
    ensures
        match kind_of(
            match sniffed {
                Some(n) => Some(n@),
                None => None,
            },
        ) {
            Ok(kind) => k == Ok::<RuntimeKind, String>(kind),
            Err(m) => k matches Err(e) && e@ == m,
        },
{
    match sniffed {
        None => Ok(RuntimeKind::Asyncio),
        Some(name) => {
            let owned = name.to_owned();
            if owned == "asyncio".to_owned() {
                Ok(RuntimeKind::Asyncio)
            } else if owned == "trio".to_owned() {
                Ok(RuntimeKind::Trio)
            } else {
                let mut msg = String::from_str("unsupported Python async library: ");
                msg.append(name);
                Err(msg)
            }
        },
    }
}

/// What a Rust future becomes on the Python side.
#[derive(PartialEq, Eq, Structural)]
pub enum Route {
    /// An `asyncio.Future` on the task's event loop.
    AsyncioFuture,
    /// An awaitable coroutine object that trio can drive.
    TrioCoroutine,
    /// Not offered: `!Send` futures under trio.
    NotImplemented,
}

/// The route of a conversion of a Rust future (`local` for a `!Send` one).
pub fn conversion_route(kind: RuntimeKind, local: bool) -> (r: Route)
    ensures
        r == match kind {
            RuntimeKind::Asyncio => Route::AsyncioFuture,
            RuntimeKind::Trio => if local {
                Route::NotImplemented
            } else {
                Route::TrioCoroutine
            },
        },
{
    match kind {
        RuntimeKind::Asyncio => Route::AsyncioFuture,
        RuntimeKind::Trio => if local {
            Route::NotImplemented
        } else {
            Route::TrioCoroutine
        },
    }
}

/// How Python work is started from a Rust thread.
#[derive(PartialEq, Eq, Structural)]
pub enum Scheduling {
    /// `loop.call_soon_threadsafe(...)` on the asyncio event loop.
    LoopCallSoon,
    /// `token.run_sync_soon(...)` starting a trio system task.
    TrioSystemTask,
}

/// How Python work is started for a task under `kind`.
pub fn scheduling(kind: RuntimeKind) -> (s: Scheduling)
    ensures
        s == match kind {
            RuntimeKind::Asyncio => Scheduling::LoopCallSoon,
            RuntimeKind::Trio => Scheduling::TrioSystemTask,
        },
{
    match kind {
        RuntimeKind::Asyncio => Scheduling::LoopCallSoon,
        RuntimeKind::Trio => Scheduling::TrioSystemTask,
    }
}

struct LocalsInner<H> {
    kind: RuntimeKind,
    event_loop: Arc<H>,
    context: Arc<H>,
}

/// The event loop and context of a Python task, by handles of type `H`.
/// Clones share the same data.
#[verifier::reject_recursive_types(H)]
pub struct TaskLocals<H> {
    inner: Arc<LocalsInner<H>>,
}

impl<H> TaskLocals<H> {
    /// The async library of the task.
    pub closed spec fn kind_of(&self) -> RuntimeKind {
        self.inner.kind
    }

    /// The event loop handle.
    pub closed spec fn event_loop_of(&self) -> H {
        *self.inner.event_loop
    }

    /// The context handle.
    pub closed spec fn context_of(&self) -> H {
        *self.inner.context
    }

    /// Task-local data of a task under `kind` with the given event loop (or
    /// trio token), and `no_context` (Python's `None`) in place of a context.
    pub fn from_handles(kind: RuntimeKind, event_loop: H, no_context: H) -> (l: Self)
        ensures
            l.kind_of() == kind,
            l.event_loop_of() == event_loop,
            l.context_of() == no_context,
    {
        TaskLocals {
            inner: Arc::new(
                LocalsInner { kind, event_loop: Arc::new(event_loop), context: Arc::new(no_context) },
            ),
        }
    }

    /// The async library of the task.
    pub fn kind(&self) -> (k: RuntimeKind)
        ensures
            k == self.kind_of(),
    {
        self.inner.kind
    }

    /// The same event loop with the given context.
    pub fn with_context_handle(self, context: H) -> (l: Self)
        ensures
            l.kind_of() == self.kind_of(),
            l.event_loop_of() == self.event_loop_of(),
            l.context_of() == context,
    {
        TaskLocals {
            inner: Arc::new(
                LocalsInner {
                    kind: self.inner.kind,
                    event_loop: share(&self.inner.event_loop),
                    context: Arc::new(context),
                },
            ),
        }
    }

    /// The event loop handle.
    pub fn event_loop_handle(&self) -> (h: &H)
        ensures
            *h == self.event_loop_of(),
    {
        &self.inner.event_loop
    }

    /// The context handle.
    pub fn context_handle(&self) -> (h: &H)
        ensures
            *h == self.context_of(),
    {
        &self.inner.context
    }

    /// Another reference to the same task-local data.
    pub fn share(&self) -> (l: Self)
        ensures
            l.kind_of() == self.kind_of(),
            l.event_loop_of() == self.event_loop_of(),
            l.context_of() == self.context_of(),
    {
        TaskLocals { inner: share(&self.inner) }
    }
}

impl<H> Clone for TaskLocals<H> {
    /// Another reference to the same task-local data (the handles themselves
    /// are not copied).
    fn clone(&self) -> (l: Self)
        ensures
            l.kind_of() == self.kind_of(),
            l.event_loop_of() == self.event_loop_of(),
            l.context_of() == self.context_of(),
    {
        self.share()
    }
}

/// Where the task-local data of a conversion comes from.
#[verifier::reject_recursive_types(H)]
pub enum LocalsSource<H> {
    /// The data stored for the current Rust task.
    Task(TaskLocals<H>),
    /// None is stored: ask Python for the running loop and current context.
    RunningLoop,
}

/// The task-local data stored for the current task wins; without it, the
/// running Python loop is used.
pub fn locals_source<H>(stored: Option<TaskLocals<H>>) -> (s: LocalsSource<H>)
    ensures
        match stored {
            Some(l) => s == LocalsSource::Task(l),
            None => s is RunningLoop,
        },
{
    match stored {
        Some(l) => LocalsSource::Task(l),
        None => LocalsSource::RunningLoop,
    }
}

} // verus!
