//! Turning elapsed time into whole clock periods.
//!
//! The host runs instructions and timers at rates of its own choosing. A
//! [`Pacer`] is told how much time has passed and answers how many periods
//! of its clock have become due, carrying the unused remainder over, so
//! that no time is lost or counted twice however the host slices it.

use vstd::prelude::*;

verus! {

/// Rate at which the two timers count down, in ticks per second.
pub const TIMER_HZ: u32 = 60;

/// A customary rate for running instructions, in cycles per second.
pub const CPU_HZ: u32 = 600;

/// Microseconds in a second.
pub const MICROS_PER_SECOND: u32 = 1_000_000;

/// A clock of `hz` periods per second. `carry` is the time already
/// reported but not yet used up, in millionths of a period.
pub struct Pacer {
    hz: u32,
    carry: u32,
}

/// The abstract state of a [`Pacer`].
pub struct PacerState {
    /// Periods per second.
    pub hz: nat,
    /// Time not yet used up, in millionths of a period; below one million.
    pub carry: nat,
}

impl PacerState {
    /// Periods that become due when `elapsed` microseconds pass.
    pub open spec fn due(self, elapsed: nat) -> nat {
        (self.carry + elapsed * self.hz) / 1_000_000
    }

    /// The state after `elapsed` microseconds have passed and the periods
    /// due have been handed out.
    pub open spec fn after(self, elapsed: nat) -> PacerState {
        PacerState { hz: self.hz, carry: (self.carry + elapsed * self.hz) % 1_000_000 }
    }
}

/// The periods handed out in total over a run of reports.
pub open spec fn total_due(s: PacerState, reports: Seq<nat>) -> nat
    decreases reports.len(),
{
    if reports.len() == 0 {
        0
    } else {
        s.due(reports[0]) + total_due(s.after(reports[0]), reports.subrange(1, reports.len() as int))
    }
}

/// The state after a run of reports.
pub open spec fn after_all(s: PacerState, reports: Seq<nat>) -> PacerState
    decreases reports.len(),
{
    if reports.len() == 0 {
        s
    } else {
        after_all(s.after(reports[0]), reports.subrange(1, reports.len() as int))
    }
}

/// The sum of a run of reports.
pub open spec fn total_elapsed(reports: Seq<nat>) -> nat
    decreases reports.len(),
{
    if reports.len() == 0 {
        0
    } else {
        reports[0] + total_elapsed(reports.subrange(1, reports.len() as int))
    }
}

/// No time is lost or counted twice: the periods handed out over any run
/// of reports, together with what is carried at its end, account exactly
/// for the time reported and what was carried at its start.
pub proof fn lemma_pacer_conserves_time(s: PacerState, reports: Seq<nat>)
    ensures
        1_000_000 * total_due(s, reports) + after_all(s, reports).carry == s.carry + s.hz
            * total_elapsed(reports),
        after_all(s, reports).hz == s.hz,
    decreases reports.len(),
{
    if reports.len() > 0 {
        let first = reports[0];
        let rest = reports.subrange(1, reports.len() as int);
        let then = s.after(first);
        lemma_pacer_conserves_time(then, rest);
        assert(s.hz * (first + total_elapsed(rest)) == first * s.hz + s.hz * total_elapsed(rest))
            by (nonlinear_arith);
    } else {
        assert(s.hz * total_elapsed(reports) == 0) by (nonlinear_arith)
            requires
                total_elapsed(reports) == 0,
        ;
    }
}

/// However the time is sliced, a pacer that starts with nothing carried
/// hands out exactly the whole periods contained in the time reported.
pub proof fn lemma_pacer_does_not_drift(hz: nat, reports: Seq<nat>)
    ensures
        total_due(PacerState { hz, carry: 0 }, reports) == (hz * total_elapsed(reports))
            / 1_000_000,
{
    let s = PacerState { hz, carry: 0 };
    lemma_pacer_conserves_time(s, reports);
    lemma_carry_below_period(s, reports);
}

/// What is carried stays below one period.
pub proof fn lemma_carry_below_period(s: PacerState, reports: Seq<nat>)
    requires
        s.carry < 1_000_000,
    ensures
        after_all(s, reports).carry < 1_000_000,
    decreases reports.len(),
{
    if reports.len() > 0 {
        lemma_carry_below_period(s.after(reports[0]), reports.subrange(1, reports.len() as int));
    }
}

impl View for Pacer {
    type V = PacerState;

    closed spec fn view(&self) -> PacerState {
        PacerState { hz: self.hz as nat, carry: self.carry as nat }
    }
}

impl Pacer {
    #[verifier::type_invariant]
    closed spec fn inv(self) -> bool {
        self.carry < 1_000_000
    }

    /// A clock of `hz` periods per second with nothing carried.
    pub fn new(hz: u32) -> (pacer: Self)
        ensures
            pacer@ == (PacerState { hz: hz as nat, carry: 0 }),
    {
        Pacer { hz, carry: 0 }
    }

    /// Reports that `elapsed_micros` microseconds have passed. Returns the
    /// number of periods that have become due.
    pub fn advance(&mut self, elapsed_micros: u32) -> (due: u64)
        ensures
            due == old(self)@.due(elapsed_micros as nat),
            final(self)@ == old(self)@.after(elapsed_micros as nat),
            final(self)@.carry < 1_000_000,
    {
        proof {
            use_type_invariant(&*self);
        }
        assert(elapsed_micros * self.hz <= 0xFFFF_FFFF * 0xFFFF_FFFF) by (nonlinear_arith)
            requires
                elapsed_micros <= 0xFFFF_FFFF,
                self.hz <= 0xFFFF_FFFF,
        ;
        let total: u128 = self.carry as u128 + elapsed_micros as u128 * self.hz as u128;
        let due: u128 = total / MICROS_PER_SECOND as u128;
        let carry: u128 = total % MICROS_PER_SECOND as u128;
        self.carry = carry as u32;
        due as u64
    }
}

} // verus!
