//! The awaitable handed to trio for a Rust future: its life cycle and how each
//! of its protocol calls ends.
use vstd::prelude::*;

verus! {

/// Whether the async library found running lets a trio coroutine be awaited:
/// trio itself, or no answer at all (the library could not be sniffed, and
/// trio was already recognised when the task-local data was made).
pub fn awaited_under_trio(library: &Option<String>) -> (ok: bool)
    ensures
        ok == match library {
            None => true,
            Some(name) => name@ == "trio"@,
        },
{
    match library {
        None => true,
        Some(name) => {
            let trio = "trio".to_owned();
            *name == trio
        },
    }
}

/// How a protocol call on the coroutine ends once the Rust future is ready.
pub enum Exit<T, E> {
    /// Raise `StopIteration(value)`: the await returns `value`.
    Return(T),
    /// The future raised `StopIteration` itself: raise a `RuntimeError`
    /// caused by it, as PEP 479 asks.
    WrapStopIteration(E),
    /// Raise the future's error.
    Raise(E),
}

/// What a park of the coroutine gave.
pub enum Resume<Y, E> {
    /// Hand `Y` (the trap object) to trio and suspend.
    Suspend(Y),
    /// A wake was already pending: poll the future again right away.
    PollAgain,
    /// Parking failed: raise.
    Raise(E),
}

/// What happens to the coroutine, as far as its life is concerned.
pub enum LifeEvent {
    /// The future became ready (the coroutine returns or raises).
    Ready,
    /// The coroutine parked and suspended.
    Suspended,
    /// A pending wake made it poll again at once.
    Repolled,
    /// Parking failed.
    ParkFailed,
    /// A value was sent that is not an error outcome.
    SentValue,
    /// An error outcome was sent (trio's cancellation).
    SentError,
    /// An exception was thrown in, or the coroutine was closed or cleared.
    Finished,
}

/// Whether the coroutine is live after `event`, given whether it was before.
pub open spec fn live_after(live: bool, event: LifeEvent) -> bool {
    match event {
        LifeEvent::Suspended | LifeEvent::Repolled | LifeEvent::SentValue => live,
        _ => false,
    }
}

/// Whether the coroutine is live after a run of events.
pub open spec fn live_after_all(live: bool, events: Seq<LifeEvent>) -> bool
    decreases events.len(),
{
    if events.len() == 0 {
        live
    } else {
        live_after_all(live_after(live, events[0]), events.drop_first())
    }
}

/// A coroutine that has finished never becomes live again, whatever is done
/// to it afterwards, so every later poll is refused.
pub proof fn lemma_finished_stays_finished(events: Seq<LifeEvent>)
    ensures
        !live_after_all(false, events),
    decreases events.len(),
{
    if events.len() > 0 {
        lemma_finished_stays_finished(events.drop_first());
    }
}

/// The life of the coroutine: live until it returns, raises, is thrown into,
/// closed or cleared; never live again afterwards.
pub struct CoroutineLife {
    live: bool,
}

impl CoroutineLife {
    /// True while the Rust future is still held.
    pub closed spec fn is_live(&self) -> bool {
        self.live
    }

    /// A coroutine that holds its future.
    pub fn new() -> (c: Self)
        ensures
            c.is_live(),
    {
        CoroutineLife { live: true }
    }

    /// Whether a poll may go ahead (a finished coroutine cannot be reused).
    pub fn may_poll(&self) -> (b: bool)
        ensures
            b == self.is_live(),
    {
        self.live
    }

    /// Drops the future, the waker and the cancellation sender.
    pub fn finish(&mut self)
        ensures
            final(self).is_live() == live_after(old(self).is_live(), LifeEvent::Finished),
    {
        self.live = false;
    }

    /// The future is ready with `outcome`; `is_stop_iteration` tells whether an
    /// error is a `StopIteration`. The coroutine is finished either way.
    pub fn on_ready<T, E>(&mut self, outcome: Result<T, E>, is_stop_iteration: bool) -> (x: Exit<
        T,
        E,
    >)
        ensures
            final(self).is_live() == live_after(old(self).is_live(), LifeEvent::Ready),
            match outcome {
                Ok(v) => x == Exit::<T, E>::Return(v),
                Err(e) => if is_stop_iteration {
                    x == Exit::<T, E>::WrapStopIteration(e)
                } else {
                    x == Exit::<T, E>::Raise(e)
                },
            },
    {
        self.finish();
        match outcome {
            Ok(v) => Exit::Return(v),
            Err(e) => if is_stop_iteration {
                Exit::WrapStopIteration(e)
            } else {
                Exit::Raise(e)
            },
        }
    }

    /// The future is pending and the coroutine tried to park: `Ok(Some(trap))`
    /// parked, `Ok(None)` found a wake pending, `Err` failed (which finishes it).
    pub fn on_park<Y, E>(&mut self, parked: Result<Option<Y>, E>) -> (r: Resume<Y, E>)
        ensures
            match parked {
                Ok(Some(y)) => r == Resume::<Y, E>::Suspend(y) && final(self).is_live()
                    == live_after(old(self).is_live(), LifeEvent::Suspended),
                Ok(None) => r is PollAgain && final(self).is_live() == live_after(
                    old(self).is_live(),
                    LifeEvent::Repolled,
                ),
                Err(e) => r == Resume::<Y, E>::Raise(e) && final(self).is_live() == live_after(
                    old(self).is_live(),
                    LifeEvent::ParkFailed,
                ),
            },
    {
        match parked {
            Ok(Some(y)) => Resume::Suspend(y),
            Ok(None) => Resume::PollAgain,
            Err(e) => {
                self.finish();
                Resume::Raise(e)
            },
        }
    }

    /// A value was sent in. `unwrapped` is the result of unwrapping it when it
    /// is an `outcome.Outcome` (`None` otherwise). An `Error` outcome (trio's
    /// cancellation) finishes the coroutine and is raised; anything else leads
    /// to a poll.
    pub fn on_send<E>(&mut self, unwrapped: Option<Result<(), E>>) -> (raise: Option<E>)
        ensures
            match unwrapped {
                Some(Err(e)) => raise == Some(e) && final(self).is_live() == live_after(
                    old(self).is_live(),
                    LifeEvent::SentError,
                ),
                _ => raise is None && final(self).is_live() == live_after(
                    old(self).is_live(),
                    LifeEvent::SentValue,
                ),
            },
    {
        match unwrapped {
            Some(Err(e)) => {
                self.finish();
                Some(e)
            },
            _ => None,
        }
    }
}

/// How the task running the Rust future for a trio coroutine ended.
pub enum CoroutineTaskEnd<T, E> {
    /// The coroutine was dropped or closed first: the future was cancelled.
    Cancelled,
    /// The future completed.
    Finished(Result<T, E>),
    /// The future panicked.
    Panicked,
}

/// What the task sends back to the coroutine.
pub enum CoroutineReport<T, E> {
    /// Nothing: nobody waits any more.
    Nothing,
    /// The future's outcome.
    Outcome(Result<T, E>),
    /// An error telling that the future panicked.
    Panic,
}

/// The report of the task for each way it can end.
pub fn coroutine_report<T, E>(end: CoroutineTaskEnd<T, E>) -> (r: CoroutineReport<T, E>)
    ensures
        match end {
            CoroutineTaskEnd::Cancelled => r is Nothing,
            CoroutineTaskEnd::Finished(o) => r == CoroutineReport::<T, E>::Outcome(o),
            CoroutineTaskEnd::Panicked => r is Panic,
        },
{
    match end {
        CoroutineTaskEnd::Cancelled => CoroutineReport::Nothing,
        CoroutineTaskEnd::Finished(o) => CoroutineReport::Outcome(o),
        CoroutineTaskEnd::Panicked => CoroutineReport::Panic,
    }
}

} // verus!
