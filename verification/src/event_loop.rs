//! Driving a Python event loop from Rust until a future completes, and
//! closing a loop made for that purpose.
use vstd::prelude::*;

verus! {

/// One call made on an event loop while closing it.
#[derive(PartialEq, Eq, Structural, Clone, Copy)]
pub enum CloseStep {
    /// Run `loop.shutdown_asyncgens()` to completion.
    ShutdownAsyncgens,
    /// Run `loop.shutdown_default_executor()` to completion.
    ShutdownDefaultExecutor,
    /// Call `loop.close()`.
    Close,
}

/// The calls that close an event loop, in order: asynchronous generators are
/// finalised first, then the default executor where the loop offers that
/// (Python 3.9 and later), and the loop is closed last.
pub open spec fn close_plan(has_default_executor_shutdown: bool) -> Seq<CloseStep> {
    if has_default_executor_shutdown {
        seq![CloseStep::ShutdownAsyncgens, CloseStep::ShutdownDefaultExecutor, CloseStep::Close]
    } else {
        seq![CloseStep::ShutdownAsyncgens, CloseStep::Close]
    }
}

/// The call that follows `done` when closing a loop: whether the loop offers
/// `shutdown_default_executor` is only looked at once async generators are
/// finalised.
pub open spec fn close_next(done: CloseStep, has_default_executor_shutdown: bool) -> Option<
    CloseStep,
> {
    match done {
        CloseStep::ShutdownAsyncgens => if has_default_executor_shutdown {
            Some(CloseStep::ShutdownDefaultExecutor)
        } else {
            Some(CloseStep::Close)
        },
        CloseStep::ShutdownDefaultExecutor => Some(CloseStep::Close),
        CloseStep::Close => None,
    }
}

/// The first call made when closing a loop.
pub fn first_close_step() -> (s: CloseStep)
    ensures
        s == close_plan(false)[0],
        s == close_plan(true)[0],
{
    CloseStep::ShutdownAsyncgens
}

/// Whether the loop must be asked for `shutdown_default_executor` before the
/// call that follows `done` is known.
pub fn probes_executor_after(done: CloseStep) -> (b: bool)
    ensures
        b == (done == CloseStep::ShutdownAsyncgens),
{
    match done {
        CloseStep::ShutdownAsyncgens => true,
        _ => false,
    }
}

/// The call that follows `done` (see [`close_next`]).
pub fn close_step_after(done: CloseStep, has_default_executor_shutdown: bool) -> (next: Option<
    CloseStep,
>)
    ensures
        next == close_next(done, has_default_executor_shutdown),
{
    match done {
        CloseStep::ShutdownAsyncgens => if has_default_executor_shutdown {
            Some(CloseStep::ShutdownDefaultExecutor)
        } else {
            Some(CloseStep::Close)
        },
        CloseStep::ShutdownDefaultExecutor => Some(CloseStep::Close),
        CloseStep::Close => None,
    }
}

/// Following `close_step_after` from the first step walks exactly the close
/// plan: each call is followed by the next one in the plan, and nothing
/// follows the last.
pub proof fn lemma_steps_follow_plan(has_default_executor_shutdown: bool, i: int)
    requires
        0 <= i < close_plan(has_default_executor_shutdown).len(),
    ensures
        i + 1 < close_plan(has_default_executor_shutdown).len() ==> close_next(
            close_plan(has_default_executor_shutdown)[i],
            has_default_executor_shutdown,
        ) == Some(close_plan(has_default_executor_shutdown)[i + 1]),
        i + 1 == close_plan(has_default_executor_shutdown).len() ==> close_next(
            close_plan(has_default_executor_shutdown)[i],
            has_default_executor_shutdown,
        ) is None,
{
}

/// Closing always begins by finalising asynchronous generators and ends by
/// closing the loop; the executor is shut down exactly when the loop has a
/// default executor to shut down.
pub proof fn lemma_close_order(has_default_executor_shutdown: bool)
    ensures
        close_plan(has_default_executor_shutdown)[0] == CloseStep::ShutdownAsyncgens,
        close_plan(has_default_executor_shutdown).last() == CloseStep::Close,
        close_plan(has_default_executor_shutdown).contains(CloseStep::ShutdownDefaultExecutor)
            <==> has_default_executor_shutdown,
{
    if !has_default_executor_shutdown {
        let p = close_plan(false);
        assert(p[0] != CloseStep::ShutdownDefaultExecutor);
        assert(p[1] != CloseStep::ShutdownDefaultExecutor);
    } else {
        assert(close_plan(true)[1] == CloseStep::ShutdownDefaultExecutor);
    }
}

/// The value of `run_until_complete`: the error that stopped the loop, or
/// else the value the future left behind (which it always does when the loop
/// ran it to completion).
pub fn run_result<T, E>(ran: Result<(), E>, left: Option<T>) -> (r: Result<T, E>)
    requires
        ran is Ok ==> left is Some,
    ensures
        match ran {
            Err(e) => r == Err::<T, E>(e),
            Ok(()) => r == Ok::<T, E>(left.unwrap()),
        },
{
    match ran {
        Err(e) => Err(e),
        Ok(()) => Ok(left.unwrap()),
    }
}

/// The value of `run`: failing to close the loop that was made for the run
/// overrides the run's own result.
pub fn run_then_close<T, E>(result: Result<T, E>, closed: Result<(), E>) -> (r: Result<T, E>)
    ensures
        match closed {
            Err(e) => r == Err::<T, E>(e),
            Ok(()) => r == result,
        },
{
    match closed {
        Err(e) => Err(e),
        Ok(()) => result,
    }
}

} // verus!
