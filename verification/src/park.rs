//! Parking protocol of a Rust future awaited under trio: the flag that decides
//! whether a parked task is woken by a reschedule or by a successful abort, and
//! the pending-wake signal that keeps a wake arriving mid-park from being lost.
use vstd::prelude::*;

verus! {

/// Answer given to trio's abort callback.
#[derive(PartialEq, Eq, Structural)]
pub enum AbortVerdict {
    /// The park was still armed: the abort takes it over.
    Succeeded,
    /// A wake already claimed the park: the abort is refused.
    Failed,
}

/// Whether the park of a task is armed (waiting for exactly one resolution).
///
/// A fresh flag is not armed, so a wake that fires before the first park
/// cannot queue a reschedule for a park that does not exist yet.
pub struct ParkFlag {
    woken: bool,
}

impl ParkFlag {
    /// True while a park waits to be resolved.
    pub closed spec fn is_armed(&self) -> bool {
        !self.woken
    }

    /// The flag with a park armed.
    pub closed spec fn armed_flag() -> ParkFlag {
        ParkFlag { woken: false }
    }

    /// The flag with no park armed.
    pub closed spec fn idle_flag() -> ParkFlag {
        ParkFlag { woken: true }
    }

    /// A flag with no park armed.
    pub fn new() -> (f: Self)
        ensures
            f == ParkFlag::idle_flag(),
            !f.is_armed(),
    {
        ParkFlag { woken: true }
    }

    /// Arms the flag just before the task parks.
    pub fn arm(&mut self)
        ensures
            *final(self) == ParkFlag::armed_flag(),
            final(self).is_armed(),
    {
        self.woken = false;
    }

    /// Disarms the flag because parking itself failed.
    pub fn release(&mut self)
        ensures
            *final(self) == ParkFlag::idle_flag(),
            !final(self).is_armed(),
    {
        self.woken = true;
    }

    /// Claims the armed park for whoever calls first (a wake or an abort).
    /// Returns whether this call won the claim.
    pub fn claim(&mut self) -> (won: bool)
        ensures
            won == old(self).is_armed(),
            *final(self) == ParkFlag::idle_flag(),
            !final(self).is_armed(),
    {
        let won = !self.woken;
        self.woken = true;
        won
    }

    /// What trio's abort callback answers: it succeeds only by winning the claim.
    pub fn abort_verdict(&mut self) -> (v: AbortVerdict)
        ensures
            v == (if old(self).is_armed() { AbortVerdict::Succeeded } else { AbortVerdict::Failed }),
            *final(self) == ParkFlag::idle_flag(),
            !final(self).is_armed(),
    {
        if self.claim() {
            AbortVerdict::Succeeded
        } else {
            AbortVerdict::Failed
        }
    }
}

/// The number of claims that win among `n` consecutive claims (wakes or
/// aborts) on `flag`, each claim leaving the flag idle as `claim` does.
pub open spec fn claims_won(flag: ParkFlag, n: nat) -> nat
    decreases n,
{
    if n == 0 {
        0
    } else {
        (if flag.is_armed() { 1nat } else { 0nat }) + claims_won(ParkFlag::idle_flag(), (n - 1) as nat)
    }
}

/// An armed park is resolved exactly once: of any number of wakes and aborts
/// racing for it, exactly the first one wins, and a park that is not armed is
/// never resolved.
pub proof fn lemma_park_resolved_once(flag: ParkFlag, n: nat)
    ensures
        claims_won(flag, n) == (if flag.is_armed() && n > 0 { 1nat } else { 0nat }),
    decreases n,
{
    if n > 0 {
        lemma_park_resolved_once(ParkFlag::idle_flag(), (n - 1) as nat);
    }
}

/// A wake that arrived while no park could take it yet.
pub struct WakeSignal {
    pending: bool,
}

impl WakeSignal {
    /// True when a wake waits to be taken.
    pub closed spec fn is_pending(&self) -> bool {
        self.pending
    }

    /// The signal with a wake pending.
    pub closed spec fn raised_signal() -> WakeSignal {
        WakeSignal { pending: true }
    }

    /// The signal with no wake pending.
    pub closed spec fn quiet_signal() -> WakeSignal {
        WakeSignal { pending: false }
    }

    /// No wake pending.
    pub fn new() -> (s: Self)
        ensures
            s == WakeSignal::quiet_signal(),
            !s.is_pending(),
    {
        WakeSignal { pending: false }
    }

    /// Records that a wake arrived.
    pub fn raise(&mut self)
        ensures
            *final(self) == WakeSignal::raised_signal(),
            final(self).is_pending(),
    {
        self.pending = true;
    }

    /// Takes the pending wake, if any.
    pub fn take(&mut self) -> (was_pending: bool)
        ensures
            was_pending == old(self).is_pending(),
            *final(self) == WakeSignal::quiet_signal(),
            !final(self).is_pending(),
    {
        let was = self.pending;
        self.pending = false;
        was
    }
}

/// The named states mean what they say: the armed flag is armed, the idle
/// one is not; the raised signal is pending, the quiet one is not.
pub proof fn lemma_named_states()
    ensures
        ParkFlag::armed_flag().is_armed(),
        !ParkFlag::idle_flag().is_armed(),
        WakeSignal::raised_signal().is_pending(),
        !WakeSignal::quiet_signal().is_pending(),
{
}

/// Program counter of the parking side: checks for a pending wake, arms the
/// flag, checks again, then is done.
pub enum ParkerPc {
    CheckBefore,
    Arm,
    CheckAfter,
    Done,
}

/// Program counter of the waking side: raises the signal, then claims the flag.
pub enum WakerPc {
    Raise,
    Claim,
    Done,
}

/// One park racing with one wake, each atomic step of either side as the
/// executable code performs it.
pub struct ParkRace {
    pub parker: ParkerPc,
    pub waker: WakerPc,
    pub signal: WakeSignal,
    pub flag: ParkFlag,
    pub repolled: bool,
    pub reschedules: nat,
}

pub open spec fn race_start() -> ParkRace {
    ParkRace {
        parker: ParkerPc::CheckBefore,
        waker: WakerPc::Raise,
        signal: WakeSignal::quiet_signal(),
        flag: ParkFlag::idle_flag(),
        repolled: false,
        reschedules: 0,
    }
}

pub open spec fn parker_step(s: ParkRace) -> ParkRace {
    match s.parker {
        ParkerPc::CheckBefore => if s.signal.is_pending() {
            ParkRace { signal: WakeSignal::quiet_signal(), repolled: true, parker: ParkerPc::Done, ..s }
        } else {
            ParkRace { parker: ParkerPc::Arm, ..s }
        },
        ParkerPc::Arm => ParkRace { flag: ParkFlag::armed_flag(), parker: ParkerPc::CheckAfter, ..s },
        ParkerPc::CheckAfter => if s.signal.is_pending() {
            if s.flag.is_armed() {
                ParkRace {
                    signal: WakeSignal::quiet_signal(),
                    flag: ParkFlag::idle_flag(),
                    reschedules: s.reschedules + 1,
                    parker: ParkerPc::Done,
                    ..s
                }
            } else {
                ParkRace { signal: WakeSignal::quiet_signal(), parker: ParkerPc::Done, ..s }
            }
        } else {
            ParkRace { parker: ParkerPc::Done, ..s }
        },
        ParkerPc::Done => s,
    }
}

pub open spec fn waker_step(s: ParkRace) -> ParkRace {
    match s.waker {
        WakerPc::Raise => ParkRace { signal: WakeSignal::raised_signal(), waker: WakerPc::Claim, ..s },
        WakerPc::Claim => if s.flag.is_armed() {
            ParkRace { flag: ParkFlag::idle_flag(), reschedules: s.reschedules + 1, waker: WakerPc::Done, ..s }
        } else {
            ParkRace { waker: WakerPc::Done, ..s }
        },
        WakerPc::Done => s,
    }
}

/// One scheduler turn: `parker_turn` picks the side that moves; a side that is
/// done yields its turn to the other.
pub open spec fn race_step(s: ParkRace, parker_turn: bool) -> ParkRace {
    if (parker_turn && !(s.parker is Done)) || s.waker is Done {
        parker_step(s)
    } else {
        waker_step(s)
    }
}

pub open spec fn race_run(s: ParkRace, schedule: Seq<bool>) -> ParkRace
    decreases schedule.len(),
{
    if schedule.len() == 0 {
        s
    } else {
        race_run(race_step(s, schedule[0]), schedule.drop_first())
    }
}

pub open spec fn parker_left(s: ParkRace) -> nat {
    match s.parker {
        ParkerPc::CheckBefore => 3,
        ParkerPc::Arm => 2,
        ParkerPc::CheckAfter => 1,
        ParkerPc::Done => 0,
    }
}

pub open spec fn waker_left(s: ParkRace) -> nat {
    match s.waker {
        WakerPc::Raise => 2,
        WakerPc::Claim => 1,
        WakerPc::Done => 0,
    }
}

spec fn race_inv(s: ParkRace) -> bool {
    &&& s.reschedules <= 1
    &&& s.repolled ==> (s.reschedules == 0 && s.parker is Done && !s.flag.is_armed())
    &&& s.flag.is_armed() ==> (s.reschedules == 0 && !s.repolled && (s.parker is CheckAfter || s.parker is Done))
    &&& (s.parker is CheckBefore || s.parker is Arm) ==> (!s.flag.is_armed() && s.reschedules == 0)
    &&& (s.waker is Raise && s.parker is Done && !s.repolled) ==> s.flag.is_armed()
    &&& s.waker is Raise ==> (!s.signal.is_pending() && !s.repolled && s.reschedules == 0)
    &&& (!(s.waker is Raise) && !(s.parker is Done)) ==> s.signal.is_pending()
    &&& s.parker is CheckAfter ==> (s.flag.is_armed() || s.reschedules == 1)
    &&& (s.waker is Claim && s.parker is Done && !s.repolled) ==> (s.flag.is_armed() || s.reschedules == 1)
    &&& (s.waker is Done && s.parker is Done) ==> (s.repolled || s.reschedules == 1)
}

proof fn lemma_race_step_keeps(s: ParkRace, parker_turn: bool)
    requires
        race_inv(s),
    ensures
        race_inv(race_step(s, parker_turn)),
        parker_left(s) + waker_left(s) > 0 ==> parker_left(race_step(s, parker_turn)) + waker_left(
            race_step(s, parker_turn),
        ) < parker_left(s) + waker_left(s),
{
}

proof fn lemma_race_run(s: ParkRace, schedule: Seq<bool>)
    requires
        race_inv(s),
        schedule.len() >= parker_left(s) + waker_left(s),
    ensures
        race_inv(race_run(s, schedule)),
        race_run(s, schedule).parker is Done,
        race_run(s, schedule).waker is Done,
    decreases schedule.len(),
{
    if schedule.len() > 0 {
        lemma_race_step_keeps(s, schedule[0]);
        lemma_race_run(race_step(s, schedule[0]), schedule.drop_first());
    }
}

/// A wake that races with a park is never lost: whatever the interleaving of
/// the two sides, once both are done the parked task was either told to poll
/// again right away or rescheduled, and never both nor twice.
pub proof fn lemma_wake_never_lost(schedule: Seq<bool>)
    requires
        schedule.len() >= 5,
    ensures
        race_run(race_start(), schedule).parker is Done,
        race_run(race_start(), schedule).waker is Done,
        race_run(race_start(), schedule).repolled || race_run(race_start(), schedule).reschedules == 1,
        !(race_run(race_start(), schedule).repolled && race_run(race_start(), schedule).reschedules
            == 1),
        race_run(race_start(), schedule).reschedules <= 1,
{
    lemma_race_run(race_start(), schedule);
}

} // verus!
