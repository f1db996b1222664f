//! Cancellation of a Rust future whose Python counterpart was cancelled.
use crate::handoff::Completer;
use vstd::prelude::*;

verus! {

/// What polling the cancellation receiver gave.
#[derive(PartialEq, Eq, Structural)]
pub enum CancelPoll {
    /// The Python side sent the cancellation signal.
    Fired,
    /// The Python side dropped the signal without sending it.
    Dropped,
    /// Nothing yet.
    Quiet,
}

/// What the wrapped future reports for this poll, given that the inner future
/// itself is still pending.
#[derive(PartialEq, Eq, Structural)]
pub enum WatchStep {
    /// Stop: the Python future was cancelled, so the Rust future is dropped.
    Abort,
    /// Keep waiting for the inner future.
    Wait,
}

/// Whether the wrapped future still listens for the cancellation signal.
pub struct CancelWatch {
    listening: bool,
}

/// The step that a watch that listens takes on a poll of the signal, and
/// whether it listens afterwards.
pub open spec fn watch_step(listening: bool, poll: CancelPoll) -> (WatchStep, bool) {
    if !listening {
        (WatchStep::Wait, false)
    } else {
        match poll {
            CancelPoll::Fired => (WatchStep::Abort, false),
            CancelPoll::Dropped => (WatchStep::Wait, false),
            CancelPoll::Quiet => (WatchStep::Wait, true),
        }
    }
}

impl CancelWatch {
    /// True while the signal is still worth polling.
    pub closed spec fn is_listening(&self) -> bool {
        self.listening
    }

    /// A watch that listens for the signal.
    pub fn new() -> (w: Self)
        ensures
            w.is_listening(),
    {
        CancelWatch { listening: true }
    }

    /// Whether the signal must be polled on this turn.
    pub fn listening(&self) -> (b: bool)
        ensures
            b == self.is_listening(),
    {
        self.listening
    }

    /// Takes the result of polling the signal; called only while listening.
    /// Once the signal has fired or been dropped it is never polled again.
    pub fn observe(&mut self, poll: CancelPoll) -> (step: WatchStep)
        requires
            old(self).is_listening(),
        ensures
            (step, final(self).is_listening()) == watch_step(true, poll),
    {
        match poll {
            CancelPoll::Fired => {
                self.listening = false;
                WatchStep::Abort
            },
            CancelPoll::Dropped => {
                self.listening = false;
                WatchStep::Wait
            },
            CancelPoll::Quiet => WatchStep::Wait,
        }
    }
}

/// A watch that stopped listening never listens again, and it aborts at most
/// once: after an abort it no longer listens.
pub proof fn lemma_watch_stops_for_good(listening: bool, poll: CancelPoll)
    ensures
        !listening ==> watch_step(listening, poll) == (WatchStep::Wait, false),
        watch_step(listening, poll).0 == WatchStep::Abort ==> !watch_step(listening, poll).1,
{
}

/// What the done-callback of a Python future did.
pub enum DoneStep<E> {
    /// The future was cancelled: the signal was offered to the Rust side.
    SignalledCancel,
    /// The future completed normally: nothing to do.
    Nothing,
    /// Asking whether the future was cancelled failed; the error is to be
    /// reported and the future treated as not cancelled.
    CheckFailed(E),
}

/// Whether the done-callback offers the cancellation signal for the answer of
/// `future.cancelled()`; a failed check counts as not cancelled.
pub open spec fn sends_cancel<E>(cancelled: Result<bool, E>) -> bool {
    cancelled == Ok::<bool, E>(true)
}

/// The callback attached to the Python future: it forwards a cancellation of
/// that future to the Rust side.
pub struct DoneCallback {
    cancel: Completer<()>,
}

impl DoneCallback {
    /// True while the cancellation signal can still be sent.
    pub closed spec fn can_signal(&self) -> bool {
        self.cancel.is_armed()
    }

    /// True once the cancellation signal has been offered to the Rust side.
    pub closed spec fn signal_offered(&self) -> bool {
        self.cancel.was_offered()
    }

    /// A callback holding the sending half of the cancellation channel.
    pub fn new(cancel: Completer<()>) -> (cb: Self)
        ensures
            cb.can_signal() == cancel.is_armed(),
            cb.signal_offered() == cancel.was_offered(),
    {
        DoneCallback { cancel }
    }

    /// Whether the cancellation signal can still be sent.
    pub fn can_still_signal(&self) -> (b: bool)
        ensures
            b == self.can_signal(),
    {
        self.cancel.armed()
    }

    /// Runs when the Python future is done, with the answer of
    /// `future.cancelled()`. A cancelled future must still find the signal
    /// unsent (asyncio calls a done-callback once).
    pub fn on_done<E>(&mut self, cancelled: Result<bool, E>) -> (step: DoneStep<E>)
        requires
            sends_cancel(cancelled) ==> old(self).can_signal(),
        ensures
            on_done_post(*old(self), cancelled, step, *final(self)),
    {
        match cancelled {
            Ok(true) => {
                let _ = self.cancel.complete(());
                DoneStep::SignalledCancel
            },
            Ok(false) => DoneStep::Nothing,
            Err(e) => DoneStep::CheckFailed(e),
        }
    }
}

/// What the done-callback does, from `before` to `after`, given the answer of
/// `future.cancelled()`: for a cancelled future it offers the signal to the
/// Rust side and reports `SignalledCancel`; otherwise it leaves the signal
/// alone and reports `Nothing`, or hands back the error of a failed check.
pub open spec fn on_done_post<E>(
    before: DoneCallback,
    cancelled: Result<bool, E>,
    step: DoneStep<E>,
    after: DoneCallback,
) -> bool {
    &&& sends_cancel(cancelled) <==> step is SignalledCancel
    &&& sends_cancel(cancelled) ==> (after.signal_offered() && !after.can_signal())
    &&& !sends_cancel(cancelled) ==> (after.can_signal() == before.can_signal()
        && after.signal_offered() == before.signal_offered())
    &&& (cancelled == Ok::<bool, E>(false) ==> step is Nothing)
    &&& (match cancelled {
        Err(e) => step == DoneStep::CheckFailed(e),
        _ => true,
    })
}

/// Cancelling the Python future cancels the Rust future: the done-callback of
/// a cancelled future offers the signal to the Rust side, and a watch that
/// listens aborts the Rust future as soon as it sees the signal. A future
/// that completes normally sends nothing.
pub proof fn lemma_cancel_propagates<E>(
    before: DoneCallback,
    cancelled: Result<bool, E>,
    step: DoneStep<E>,
    after: DoneCallback,
)
    requires
        on_done_post(before, cancelled, step, after),
    ensures
        cancelled == Ok::<bool, E>(true) ==> after.signal_offered(),
        cancelled == Ok::<bool, E>(true) ==> watch_step(true, CancelPoll::Fired).0 == WatchStep::Abort,
        cancelled == Ok::<bool, E>(false) ==> after.signal_offered() == before.signal_offered(),
{
}

} // verus!
