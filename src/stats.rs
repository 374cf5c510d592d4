//! Session statistics: time buckets in milliseconds and the count of
//! completed cycles.
use vstd::prelude::*;

use crate::phase::PhaseKind;

verus! {

/// The session's tallies. All of them start at zero and only grow.
#[derive(Clone, Copy, Debug, PartialEq, Eq, Structural)]
pub struct Statistics {
    pub focus_time: u128,
    pub break_time: u128,
    pub skipped_focus_time: u128,
    pub skipped_break_time: u128,
    pub paused_time: u128,
    pub extra_focus_time: u128,
    pub extra_break_time: u128,
    pub completed_cycles: u128,
}

/// The statistics as mathematical integers.
pub struct StatsModel {
    pub focus: int,
    pub brk: int,
    pub skipped_focus: int,
    pub skipped_break: int,
    pub paused: int,
    pub extra_focus: int,
    pub extra_break: int,
    pub cycles: int,
}

/// Largest value any single increment may bring: one tick or one skipped
/// remainder is at most a `u64`.
pub open spec fn max_step() -> int {
    u64::MAX as int
}

pub open spec fn zero_stats() -> StatsModel {
    StatsModel {
        focus: 0,
        brk: 0,
        skipped_focus: 0,
        skipped_break: 0,
        paused: 0,
        extra_focus: 0,
        extra_break: 0,
        cycles: 0,
    }
}

/// Every tally is representable in a `u128`.
pub open spec fn fits(m: StatsModel) -> bool {
    &&& 0 <= m.focus <= u128::MAX
    &&& 0 <= m.brk <= u128::MAX
    &&& 0 <= m.skipped_focus <= u128::MAX
    &&& 0 <= m.skipped_break <= u128::MAX
    &&& 0 <= m.paused <= u128::MAX
    &&& 0 <= m.extra_focus <= u128::MAX
    &&& 0 <= m.extra_break <= u128::MAX
    &&& 0 <= m.cycles <= u128::MAX
}

/// Every tally can take one more increment of up to `max_step()`.
pub open spec fn room_for_step(m: StatsModel) -> bool {
    &&& m.focus + max_step() <= u128::MAX
    &&& m.brk + max_step() <= u128::MAX
    &&& m.skipped_focus + max_step() <= u128::MAX
    &&& m.skipped_break + max_step() <= u128::MAX
    &&& m.paused + max_step() <= u128::MAX
    &&& m.extra_focus + max_step() <= u128::MAX
    &&& m.extra_break + max_step() <= u128::MAX
    &&& m.cycles < u128::MAX
}

/// Time spent in phases, nominal or overrun, plus time paused.
pub open spec fn ticked_total(m: StatsModel) -> int {
    m.focus + m.extra_focus + m.brk + m.extra_break + m.paused
}

/// `ms` more of nominal (not overrun) time for a phase of kind `kind`.
pub open spec fn add_nominal(m: StatsModel, kind: PhaseKind, ms: int) -> StatsModel {
    match kind {
        PhaseKind::Focus => StatsModel { focus: m.focus + ms, ..m },
        PhaseKind::Break => StatsModel { brk: m.brk + ms, ..m },
    }
}

/// `ms` more of overrun time for a phase of kind `kind`.
pub open spec fn add_extra(m: StatsModel, kind: PhaseKind, ms: int) -> StatsModel {
    match kind {
        PhaseKind::Focus => StatsModel { extra_focus: m.extra_focus + ms, ..m },
        PhaseKind::Break => StatsModel { extra_break: m.extra_break + ms, ..m },
    }
}

/// `ms` more of skipped time for a phase of kind `kind`.
pub open spec fn add_skipped(m: StatsModel, kind: PhaseKind, ms: int) -> StatsModel {
    match kind {
        PhaseKind::Focus => StatsModel { skipped_focus: m.skipped_focus + ms, ..m },
        PhaseKind::Break => StatsModel { skipped_break: m.skipped_break + ms, ..m },
    }
}

pub open spec fn add_paused(m: StatsModel, ms: int) -> StatsModel {
    StatsModel { paused: m.paused + ms, ..m }
}

pub open spec fn add_cycle(m: StatsModel) -> StatsModel {
    StatsModel { cycles: m.cycles + 1, ..m }
}

impl Statistics {
    pub open spec fn view(&self) -> StatsModel {
        StatsModel {
            focus: self.focus_time as int,
            brk: self.break_time as int,
            skipped_focus: self.skipped_focus_time as int,
            skipped_break: self.skipped_break_time as int,
            paused: self.paused_time as int,
            extra_focus: self.extra_focus_time as int,
            extra_break: self.extra_break_time as int,
            cycles: self.completed_cycles as int,
        }
    }

    pub open spec fn has_room(&self) -> bool {
        room_for_step(self@)
    }

    pub fn new() -> (r: Statistics)
        ensures
            r@ == zero_stats(),
    {
        Statistics {
            focus_time: 0,
            break_time: 0,
            skipped_focus_time: 0,
            skipped_break_time: 0,
            paused_time: 0,
            extra_focus_time: 0,
            extra_break_time: 0,
            completed_cycles: 0,
        }
    }

    /// Whether another increment of up to `max_step()` fits every tally.
    pub fn room_left(&self) -> (r: bool)
        ensures
            r == self.has_room(),
    {
        let step = u64::MAX as u128;
        self.focus_time <= u128::MAX - step && self.break_time <= u128::MAX - step
            && self.skipped_focus_time <= u128::MAX - step && self.skipped_break_time
            <= u128::MAX - step && self.paused_time <= u128::MAX - step && self.extra_focus_time
            <= u128::MAX - step && self.extra_break_time <= u128::MAX - step
            && self.completed_cycles < u128::MAX
    }

    pub fn record_nominal(&mut self, kind: PhaseKind, ms: u64)
        requires
            fits(add_nominal(old(self)@, kind, ms as int)),
        ensures
            final(self)@ == add_nominal(old(self)@, kind, ms as int),
    {
        match kind {
            PhaseKind::Focus => self.focus_time = self.focus_time + ms as u128,
            PhaseKind::Break => self.break_time = self.break_time + ms as u128,
        }
    }

    pub fn record_extra(&mut self, kind: PhaseKind, ms: u64)
        requires
            fits(add_extra(old(self)@, kind, ms as int)),
        ensures
            final(self)@ == add_extra(old(self)@, kind, ms as int),
    {
        match kind {
            PhaseKind::Focus => self.extra_focus_time = self.extra_focus_time + ms as u128,
            PhaseKind::Break => self.extra_break_time = self.extra_break_time + ms as u128,
        }
    }

    pub fn record_skipped(&mut self, kind: PhaseKind, ms: u64)
        requires
            fits(add_skipped(old(self)@, kind, ms as int)),
        ensures
            final(self)@ == add_skipped(old(self)@, kind, ms as int),
    {
        match kind {
            PhaseKind::Focus => self.skipped_focus_time = self.skipped_focus_time + ms as u128,
            PhaseKind::Break => self.skipped_break_time = self.skipped_break_time + ms as u128,
        }
    }

    pub fn record_paused(&mut self, ms: u64)
        requires
            fits(add_paused(old(self)@, ms as int)),
        ensures
            final(self)@ == add_paused(old(self)@, ms as int),
    {
        self.paused_time = self.paused_time + ms as u128;
    }

    pub fn record_cycle(&mut self)
        requires
            fits(add_cycle(old(self)@)),
        ensures
            final(self)@ == add_cycle(old(self)@),
    {
        self.completed_cycles = self.completed_cycles + 1;
    }
}

} // verus!
