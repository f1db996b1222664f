//! How the outcome of a Rust future reaches the Python future that stands for it.
use vstd::prelude::*;
use vstd::string::StringExecFns;

verus! {

/// Whether a finished Rust future's outcome is handed to the Python future,
/// given the answer of `future.cancelled()`.
pub enum Handover<E> {
    /// The Python future was cancelled: its outcome is dropped.
    Skip,
    /// The Python future is live: the outcome is delivered.
    Deliver,
    /// Asking failed: the error is reported and the outcome delivered anyway.
    DeliverAfterReport(E),
}

/// Decides the hand-over of an outcome from the answer of `future.cancelled()`.
/// A failed check counts as "not cancelled".
pub fn handover<E>(cancelled: Result<bool, E>) -> (h: Handover<E>)
    ensures
        match cancelled {
            Ok(true) => h is Skip,
            Ok(false) => h is Deliver,
            Err(e) => h == Handover::DeliverAfterReport(e),
        },
{
    match cancelled {
        Ok(true) => Handover::Skip,
        Ok(false) => Handover::Deliver,
        Err(e) => Handover::DeliverAfterReport(e),
    }
}

/// Which method of the Python future completes it, and with what.
pub enum Completion<T, E> {
    /// `future.set_result(value)`.
    SetResult(T),
    /// `future.set_exception(error)`.
    SetException(E),
}

/// The completion of a Python future by the outcome of a Rust future.
pub fn completion_for<T, E>(outcome: Result<T, E>) -> (c: Completion<T, E>)
    ensures
        match outcome {
            Ok(v) => c == Completion::<T, E>::SetResult(v),
            Err(e) => c == Completion::<T, E>::SetException(e),
        },
{
    match outcome {
        Ok(v) => Completion::SetResult(v),
        Err(e) => Completion::SetException(e),
    }
}

/// What the completor scheduled on the event loop does when it runs.
pub enum CompletorStep<E> {
    /// The future was cancelled meanwhile: leave it alone.
    Skip,
    /// Complete the future.
    Complete,
    /// Asking whether the future was cancelled failed: raise.
    Raise(E),
}

/// The completor runs on the event loop, after the future may have been
/// cancelled; it completes the future only if it was not.
pub fn completor_step<E>(cancelled: Result<bool, E>) -> (s: CompletorStep<E>)
    ensures
        cancelled matches Ok(c) ==> ((s is Complete) == completor_completes(c)),
        match cancelled {
            Ok(true) => s is Skip,
            Ok(false) => s is Complete,
            Err(e) => s == CompletorStep::Raise(e),
        },
{
    match cancelled {
        Ok(true) => CompletorStep::Skip,
        Ok(false) => CompletorStep::Complete,
        Err(e) => CompletorStep::Raise(e),
    }
}

/// How the task that ran a Rust future ended, as its join handle tells.
#[derive(PartialEq, Eq, Structural)]
pub enum TaskJoin {
    /// The task ran to its end (it delivered the outcome itself).
    Finished,
    /// The task panicked.
    Panicked,
    /// The task was cancelled by the runtime.
    Aborted,
}

/// Whether the completor completes a future, given whether it is cancelled.
pub open spec fn completor_completes(cancelled: bool) -> bool {
    !cancelled
}

/// Whether the Python future must be told that the Rust future panicked.
pub open spec fn reports_panic(join: TaskJoin) -> bool {
    join == TaskJoin::Panicked
}

/// Whether the Python future must be told that the Rust future panicked.
pub fn must_report_panic(join: TaskJoin) -> (b: bool)
    ensures
        b == reports_panic(join),
{
    match join {
        TaskJoin::Panicked => true,
        _ => false,
    }
}

/// How many completors are handed to the event loop for a Rust task that
/// ended as `join`: the task delivers its own outcome when it runs to its end,
/// and the panic is reported only when it panicked (then it delivered nothing).
pub open spec fn completors_scheduled(join: TaskJoin) -> nat {
    (if join == TaskJoin::Finished { 1nat } else { 0nat }) + (if reports_panic(join) {
        1nat
    } else {
        0nat
    })
}

/// What happens on the event loop to the Python future.
pub enum LoopEvent {
    /// Python code calls `future.cancel()`.
    Cancel,
    /// A completor scheduled by the Rust side runs.
    Completor,
}

/// The Python future as the event loop sees it.
pub struct PyFutureModel {
    pub cancelled: bool,
    pub completed: bool,
    /// `set_result`/`set_exception` calls applied so far.
    pub sets: nat,
    /// Whether a completion hit a future that was already done
    /// (`asyncio.InvalidStateError`).
    pub invalid: bool,
}

pub open spec fn future_start() -> PyFutureModel {
    PyFutureModel { cancelled: false, completed: false, sets: 0, invalid: false }
}

/// One event on the loop: a cancel only affects a future that is still
/// pending; a completor completes the future only as `completor_step` allows.
pub open spec fn loop_step(f: PyFutureModel, e: LoopEvent) -> PyFutureModel {
    match e {
        LoopEvent::Cancel => if f.cancelled || f.completed {
            f
        } else {
            PyFutureModel { cancelled: true, ..f }
        },
        LoopEvent::Completor => if completor_completes(f.cancelled) {
            PyFutureModel { completed: true, sets: f.sets + 1, invalid: f.invalid || f.completed, ..f }
        } else {
            f
        },
    }
}

pub open spec fn loop_run(f: PyFutureModel, events: Seq<LoopEvent>) -> PyFutureModel
    decreases events.len(),
{
    if events.len() == 0 {
        f
    } else {
        loop_run(loop_step(f, events[0]), events.drop_first())
    }
}

pub open spec fn completors_in(events: Seq<LoopEvent>) -> nat
    decreases events.len(),
{
    if events.len() == 0 {
        0
    } else {
        (if events[0] is Completor { 1nat } else { 0nat }) + completors_in(events.drop_first())
    }
}

proof fn lemma_loop_run(f: PyFutureModel, events: Seq<LoopEvent>)
    requires
        f.sets + completors_in(events) <= 1,
        !f.invalid,
        f.cancelled ==> f.sets == 0,
        f.completed <==> f.sets == 1,
    ensures
        loop_run(f, events).sets <= 1,
        !loop_run(f, events).invalid,
        loop_run(f, events).cancelled ==> loop_run(f, events).sets == 0,
    decreases events.len(),
{
    if events.len() > 0 {
        lemma_loop_run(loop_step(f, events[0]), events.drop_first());
    }
}

/// A Python future standing for a Rust future is completed at most once and
/// never after it was cancelled, whatever the interleaving of user cancels
/// and completors on the loop: the Rust task hands at most one completor to
/// the loop (its outcome when it ran to its end, the panic report when it
/// panicked, nothing when aborted), and each completor first checks for
/// cancellation. So no `InvalidStateError` arises.
pub proof fn lemma_answered_at_most_once(join: TaskJoin, events: Seq<LoopEvent>)
    requires
        completors_in(events) <= completors_scheduled(join),
    ensures
        completors_scheduled(join) <= 1,
        completors_scheduled(join) == 0 <==> join == TaskJoin::Aborted,
        loop_run(future_start(), events).sets <= 1,
        !loop_run(future_start(), events).invalid,
        loop_run(future_start(), events).cancelled ==> loop_run(future_start(), events).sets == 0,
{
    lemma_loop_run(future_start(), events);
}

/// The text of a panic payload: the payload's own text where it is a string,
/// else a fixed placeholder.
pub open spec fn payload_text(payload: Option<Seq<char>>) -> Seq<char> {
    match payload {
        Some(t) => t,
        None => "unknown error"@,
    }
}

/// The message of the error that replaces the outcome of a panicked Rust
/// future; `payload` is the panic payload when it is a string.
pub fn panic_report(payload: Option<&str>) -> (msg: String)
    ensures
        msg@ == "rust future panicked: "@ + payload_text(
            match payload {
                Some(t) => Some(t@),
                None => None,
            },
        ),
{
    let mut msg = String::new();
    msg.append("rust future panicked: ");
    match payload {
        Some(t) => msg.append(t),
        None => msg.append("unknown error"),
    }
    msg
}

} // verus!
