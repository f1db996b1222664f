//! Life cycle of the Rust runtime that backs the conversions: lazily started,
//! shut down on request, and started afresh when used again afterwards.
use crate::locals::share;
use std::sync::Arc;
use vstd::prelude::*;

verus! {

/// Milliseconds the runtime is given to finish its tasks when it is shut down
/// without an explicit timeout (when it is dropped, or when no timeout reaches
/// the runtime's thread).
pub const DEFAULT_SHUTDOWN_TIMEOUT_MS: u64 = 5000;

/// The timeout that the runtime's thread applies, from what it received on its
/// timeout channel.
pub fn shutdown_timeout_ms<E>(received: Result<u64, E>) -> (ms: u64)
    ensures
        ms == match received {
            Ok(t) => t,
            Err(_) => DEFAULT_SHUTDOWN_TIMEOUT_MS,
        },
{
    match received {
        Ok(t) => t,
        Err(_) => DEFAULT_SHUTDOWN_TIMEOUT_MS,
    }
}

/// The slot that holds the runtime in use, if any.
#[verifier::reject_recursive_types(W)]
pub struct RuntimeSlot<W> {
    current: Option<Arc<W>>,
}

impl<W> RuntimeSlot<W> {
    /// The runtime in the slot.
    pub closed spec fn active(&self) -> Option<Arc<W>> {
        self.current
    }

    /// A slot with no runtime.
    pub fn empty() -> (s: Self)
        ensures
            s.active() is None,
    {
        RuntimeSlot { current: None }
    }

    /// The runtime in the slot, shared, without starting one.
    pub fn active_runtime(&self) -> (r: Option<Arc<W>>)
        ensures
            r == self.active(),
    {
        match &self.current {
            Some(w) => Some(share(w)),
            None => None,
        }
    }

    /// The runtime in the slot; when there is none, one is started with
    /// `start`, kept in the slot and returned.
    pub fn get_or_start<F: FnOnce() -> W>(&mut self, start: F) -> (r: Arc<W>)
        requires
            old(self).active() is None ==> start.requires(()),
        ensures
            final(self).active() == Some(r),
            reuses_active(*old(self)) ==> Some(r) == old(self).active(),
            !reuses_active(*old(self)) ==> start.ensures((), *r),
    {
        match &self.current {
            Some(w) => share(w),
            None => {
                let w = Arc::new(start());
                self.current = Some(share(&w));
                w
            },
        }
    }

    /// Empties the slot, handing out the runtime that was in it; `None` when no
    /// runtime was active. Operations that come later start a fresh runtime.
    pub fn take_for_shutdown(&mut self) -> (taken: Option<Arc<W>>)
        ensures
            shutdown_post(*old(self), taken, *final(self)),
    {
        self.current.take()
    }
}

/// What a shutdown request does to a slot that was `before`, handing out
/// `taken` and leaving it `after`: it hands out the runtime that was active
/// (none when none was) and leaves the slot empty.
pub open spec fn shutdown_post<W>(
    before: RuntimeSlot<W>,
    taken: Option<Arc<W>>,
    after: RuntimeSlot<W>,
) -> bool {
    &&& taken == before.active()
    &&& after.active() is None
}

/// Whether the next use of a slot in this state is served by the runtime
/// already in it (rather than by a fresh one).
pub open spec fn reuses_active<W>(slot: RuntimeSlot<W>) -> bool {
    slot.active() is Some
}

/// Shutdown and restart: a shutdown request reports a runtime exactly when one
/// was active; a second request right after finds nothing; and the next use
/// after a shutdown starts a fresh runtime instead of reviving the old one.
pub proof fn lemma_shutdown_then_restart<W>(
    s0: RuntimeSlot<W>,
    t1: Option<Arc<W>>,
    s1: RuntimeSlot<W>,
    t2: Option<Arc<W>>,
    s2: RuntimeSlot<W>,
)
    requires
        shutdown_post(s0, t1, s1),
        shutdown_post(s1, t2, s2),
    ensures
        t1 is Some <==> reuses_active(s0),
        t2 is None,
        !reuses_active(s1),
        !reuses_active(s2),
{
}

/// Which runtime serves spawning and handles.
#[derive(PartialEq, Eq, Structural)]
pub enum RuntimeChoice {
    /// The runtime the application handed over at initialisation; it is not
    /// this library's to shut down.
    External,
    /// The runtime this library starts, shuts down and restarts.
    Managed,
}

/// A runtime handed over at initialisation wins over the managed one.
pub fn runtime_choice(external_given: bool) -> (c: RuntimeChoice)
    ensures
        c == (if external_given { RuntimeChoice::External } else { RuntimeChoice::Managed }),
{
    if external_given {
        RuntimeChoice::External
    } else {
        RuntimeChoice::Managed
    }
}

/// The handles that let the runtime's thread be told its timeout and be joined.
#[verifier::reject_recursive_types(S)]
#[verifier::reject_recursive_types(J)]
pub struct ShutdownControl<S, J> {
    timeout_sender: Option<S>,
    runtime_thread: Option<J>,
}

/// The work a teardown hands to the caller.
pub struct Teardown<S, J> {
    /// Send the timeout through this sender, when present.
    pub timeout_sender: Option<S>,
    /// Join this thread, when present.
    pub join: Option<J>,
    /// Let go of this thread without joining it, when present.
    pub release: Option<J>,
}

impl<S, J> ShutdownControl<S, J> {
    /// The timeout sender still held.
    pub closed spec fn sender(&self) -> Option<S> {
        self.timeout_sender
    }

    /// The runtime thread still held.
    pub closed spec fn thread(&self) -> Option<J> {
        self.runtime_thread
    }

    /// Control with nothing left: the timeout was sent and the thread joined or
    /// let go.
    pub closed spec fn spent() -> Self {
        ShutdownControl { timeout_sender: None, runtime_thread: None }
    }

    /// Control over a freshly started runtime thread.
    pub fn new(timeout_sender: S, runtime_thread: J) -> (c: Self)
        ensures
            c.sender() == Some(timeout_sender),
            c.thread() == Some(runtime_thread),
    {
        ShutdownControl { timeout_sender: Some(timeout_sender), runtime_thread: Some(runtime_thread) }
    }

    /// An explicit shutdown: the timeout goes to the thread if it was not sent
    /// yet; the thread is joined, except from inside the runtime (joining there
    /// would deadlock), where it is let go.
    pub fn shutdown(&mut self, inside_runtime: bool) -> (t: Teardown<S, J>)
        ensures
            t.timeout_sender == old(self).sender(),
            t.join == (if inside_runtime { None } else { old(self).thread() }),
            t.release == (if inside_runtime { old(self).thread() } else { None }),
            *final(self) == Self::spent(),
    {
        let timeout_sender = self.timeout_sender.take();
        let thread = self.runtime_thread.take();
        if inside_runtime {
            Teardown { timeout_sender, join: None, release: thread }
        } else {
            Teardown { timeout_sender, join: thread, release: None }
        }
    }

    /// A shutdown in the background: the timeout goes to the thread, and the
    /// thread is handed out to be joined later.
    pub fn detach(&mut self) -> (t: Teardown<S, J>)
        ensures
            t.timeout_sender == old(self).sender(),
            t.join is None,
            t.release == old(self).thread(),
            *final(self) == Self::spent(),
    {
        Teardown {
            timeout_sender: self.timeout_sender.take(),
            join: None,
            release: self.runtime_thread.take(),
        }
    }

    /// The teardown when the runtime is dropped: whatever is still held is
    /// used, the default timeout being sent and the thread joined.
    pub fn on_drop(&mut self) -> (t: Teardown<S, J>)
        ensures
            drop_post(*old(self), t, *final(self)),
    {
        Teardown {
            timeout_sender: self.timeout_sender.take(),
            join: self.runtime_thread.take(),
            release: None,
        }
    }
}

/// What dropping the control does, from `before` to `after`: whatever is
/// still held is handed out, the thread to be joined.
pub open spec fn drop_post<S, J>(
    before: ShutdownControl<S, J>,
    t: Teardown<S, J>,
    after: ShutdownControl<S, J>,
) -> bool {
    &&& t.timeout_sender == before.sender()
    &&& t.join == before.thread()
    &&& t.release is None
    &&& after == ShutdownControl::<S, J>::spent()
}

/// Teardown happens once: after a shutdown (explicit or in the background),
/// the teardown when the runtime is dropped has neither a timeout to send
/// nor a thread to join or let go.
pub proof fn lemma_teardown_once<S, J>(
    after_shutdown: ShutdownControl<S, J>,
    t: Teardown<S, J>,
    after_drop: ShutdownControl<S, J>,
)
    requires
        after_shutdown == ShutdownControl::<S, J>::spent(),
        drop_post(after_shutdown, t, after_drop),
    ensures
        t.timeout_sender is None,
        t.join is None,
        t.release is None,
{
}

/// A thread whose join was deferred by a background shutdown.
#[verifier::reject_recursive_types(J)]
pub struct PendingJoin<J> {
    thread: Option<J>,
}

impl<J> PendingJoin<J> {
    /// The thread waiting to be joined.
    pub closed spec fn waiting(&self) -> Option<J> {
        self.thread
    }

    /// Nothing to join.
    pub fn none() -> (p: Self)
        ensures
            p.waiting() is None,
    {
        PendingJoin { thread: None }
    }

    /// Keeps `thread` for a later join (a thread kept before is let go).
    pub fn hold(&mut self, thread: J)
        ensures
            final(self).waiting() == Some(thread),
    {
        self.thread = Some(thread);
    }

    /// Hands out the thread to join, if any; `None` tells that no background
    /// shutdown is pending.
    pub fn take(&mut self) -> (t: Option<J>)
        ensures
            t == old(self).waiting(),
            final(self).waiting() is None,
    {
        self.thread.take()
    }
}

} // verus!
