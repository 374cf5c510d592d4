//! The timer state machine: commands, clock ticks, overrun accounting and
//! the audio-cue policy.
use vstd::prelude::*;

use crate::phase::{next_index, wraps, Phase, PhaseCycle, PhaseKind};
use crate::stats::{
    add_cycle, add_extra, add_nominal, add_paused, add_skipped, fits, max_step, room_for_step,
    StatsModel,
    Statistics,
};

verus! {

#[derive(Clone, Copy, Debug, PartialEq, Eq, Structural)]
pub enum TimerState {
    Idle,
    Running,
    Paused,
    /// The countdown reached or passed zero and waits for `Continue`.
    PendingContinue,
}

/// What the user asked for.
#[derive(Clone, Copy, Debug, PartialEq, Eq, Structural)]
pub enum Command {
    Start,
    Pause,
    Resume,
    Skip,
    End,
    Continue,
    Quit,
}

/// What the driver must do after handing the engine a command or a tick.
#[derive(Clone, Copy, Debug, PartialEq, Eq, Structural)]
pub enum Action {
    Nothing,
    /// Stop any cue that is playing or queued; a no-op if there is none.
    CancelCue,
    /// Start the looping cue of the phase that just expired.
    EnqueueCue(PhaseKind),
    /// Stop the session and report the statistics.
    Quit,
}

/// Which help line fits the current state.
#[derive(Clone, Copy, Debug, PartialEq, Eq, Structural)]
pub enum Instruction {
    Start,
    Running,
    Continue,
    Resume,
}

/// Everything a renderer needs to draw one frame.
#[derive(Clone, Debug)]
pub struct Snapshot {
    pub state: TimerState,
    pub phase_label: String,
    pub phase_kind: PhaseKind,
    pub remaining_ms: i128,
    pub instruction: Instruction,
}

/// The engine as mathematical values.
pub struct EngineModel {
    pub state: TimerState,
    pub phase_index: int,
    pub remaining: int,
    pub stats: StatsModel,
}

/// Moves to the next phase and restarts the countdown there; passing the
/// last phase completes a cycle.
pub open spec fn advance_model(m: EngineModel, cycle: PhaseCycle) -> EngineModel {
    let next = next_index(m.phase_index, cycle.spec_len());
    EngineModel {
        state: TimerState::Running,
        phase_index: next,
        remaining: cycle.duration_at(next),
        stats: if wraps(m.phase_index, cycle.spec_len()) {
            add_cycle(m.stats)
        } else {
            m.stats
        },
    }
}

/// Positive time left in a phase that is abandoned.
pub open spec fn unspent(remaining: int) -> int {
    if remaining > 0 {
        remaining
    } else {
        0
    }
}

/// The effect of a command on the engine; commands that do not apply in the
/// current state change nothing.
pub open spec fn step_command(m: EngineModel, cycle: PhaseCycle, cmd: Command) -> EngineModel {
    match (m.state, cmd) {
        (TimerState::Idle, Command::Start) => EngineModel {
            state: TimerState::Running,
            remaining: cycle.duration_at(m.phase_index),
            ..m
        },
        (TimerState::Running, Command::Skip) => advance_model(
            EngineModel {
                stats: add_skipped(m.stats, cycle.kind_at(m.phase_index), unspent(m.remaining)),
                ..m
            },
            cycle,
        ),
        (TimerState::Running, Command::Pause) => EngineModel { state: TimerState::Paused, ..m },
        (TimerState::PendingContinue, Command::Pause) => EngineModel {
            state: TimerState::Paused,
            ..m
        },
        (TimerState::Running, Command::End) => EngineModel {
            state: TimerState::Idle,
            phase_index: 0,
            ..m
        },
        (TimerState::Paused, Command::End) => EngineModel {
            state: TimerState::Idle,
            phase_index: 0,
            ..m
        },
        (TimerState::Paused, Command::Resume) => EngineModel {
            state: if m.remaining > 0 {
                TimerState::Running
            } else {
                TimerState::PendingContinue
            },
            ..m
        },
        (TimerState::PendingContinue, Command::Continue) => advance_model(m, cycle),
        _ => m,
    }
}

/// What the driver must do after a command in state `state`.
pub open spec fn command_action(state: TimerState, cmd: Command) -> Action {
    match (state, cmd) {
        (_, Command::Quit) => Action::Quit,
        (TimerState::Idle, Command::Start) => Action::CancelCue,
        (TimerState::Running, Command::Skip) => Action::CancelCue,
        (TimerState::Running, Command::Pause) => Action::CancelCue,
        (TimerState::PendingContinue, Command::Pause) => Action::CancelCue,
        (TimerState::Running, Command::End) => Action::CancelCue,
        (TimerState::Paused, Command::End) => Action::CancelCue,
        (TimerState::PendingContinue, Command::Continue) => Action::CancelCue,
        _ => Action::Nothing,
    }
}

/// Whether a tick of `elapsed` ms makes the countdown expire: it crosses from
/// non-negative to negative while the phase is still running.
pub open spec fn expires(m: EngineModel, elapsed: int) -> bool {
    m.state == TimerState::Running && m.remaining >= 0 && m.remaining - elapsed < 0
}

/// The effect of `elapsed` ms of wall-clock time.
pub open spec fn step_tick(m: EngineModel, cycle: PhaseCycle, elapsed: int) -> EngineModel {
    match m.state {
        TimerState::Running | TimerState::PendingContinue => {
            let kind = cycle.kind_at(m.phase_index);
            EngineModel {
                state: if expires(m, elapsed) {
                    TimerState::PendingContinue
                } else {
                    m.state
                },
                phase_index: m.phase_index,
                remaining: m.remaining - elapsed,
                stats: if m.remaining > 0 {
                    add_nominal(m.stats, kind, elapsed)
                } else {
                    add_extra(m.stats, kind, elapsed)
                },
            }
        },
        TimerState::Paused => EngineModel { stats: add_paused(m.stats, elapsed), ..m },
        TimerState::Idle => m,
    }
}

/// What the driver must do after a tick: enqueue the expiring phase's cue
/// exactly when the countdown expires.
pub open spec fn tick_action(m: EngineModel, cycle: PhaseCycle, elapsed: int) -> Action {
    if expires(m, elapsed) {
        Action::EnqueueCue(cycle.kind_at(m.phase_index))
    } else {
        Action::Nothing
    }
}

pub open spec fn instruction_of(state: TimerState) -> Instruction {
    match state {
        TimerState::Idle => Instruction::Start,
        TimerState::Running => Instruction::Running,
        TimerState::Paused => Instruction::Resume,
        TimerState::PendingContinue => Instruction::Continue,
    }
}

/// The help line for `state`.
pub fn instruction_for(state: TimerState) -> (r: Instruction)
    ensures
        r == instruction_of(state),
{
    match state {
        TimerState::Idle => Instruction::Start,
        TimerState::Running => Instruction::Running,
        TimerState::Paused => Instruction::Resume,
        TimerState::PendingContinue => Instruction::Continue,
    }
}

pub open spec fn key_command(state: TimerState, key: char) -> Option<Command> {
    if key == 'q' {
        Some(Command::Quit)
    } else if key == 's' {
        if state == TimerState::Idle {
            Some(Command::Start)
        } else {
            Some(Command::Skip)
        }
    } else if key == 'p' {
        Some(Command::Pause)
    } else if key == 'r' {
        Some(Command::Resume)
    } else if key == 'c' {
        Some(Command::Continue)
    } else if key == 'e' {
        Some(Command::End)
    } else {
        None
    }
}

/// The command a key press stands for: `s` starts when idle and skips
/// otherwise; other keys are ignored.
pub fn command_for_key(state: TimerState, key: char) -> (r: Option<Command>)
    ensures
        r == key_command(state, key),
{
    if key == 'q' {
        Some(Command::Quit)
    } else if key == 's' {
        if state == TimerState::Idle {
            Some(Command::Start)
        } else {
            Some(Command::Skip)
        }
    } else if key == 'p' {
        Some(Command::Pause)
    } else if key == 'r' {
        Some(Command::Resume)
    } else if key == 'c' {
        Some(Command::Continue)
    } else if key == 'e' {
        Some(Command::End)
    } else {
        None
    }
}

/// The session: the phase cycle, where the countdown stands, and the
/// statistics.
pub struct TimerEngine {
    cycle: PhaseCycle,
    state: TimerState,
    phase_index: usize,
    remaining_time: i128,
    stats: Statistics,
}

impl TimerEngine {
    pub closed spec fn view(&self) -> EngineModel {
        EngineModel {
            state: self.state,
            phase_index: self.phase_index as int,
            remaining: self.remaining_time as int,
            stats: self.stats@,
        }
    }

    pub closed spec fn spec_cycle(&self) -> PhaseCycle {
        self.cycle
    }

    /// The phase index stays inside the cycle, a running countdown has not
    /// expired, and the countdown never exceeds a phase's allotted time.
    pub open spec fn wf(&self) -> bool {
        &&& self.spec_cycle().wf()
        &&& 0 <= self@.phase_index < self.spec_cycle()@.len()
        &&& (self@.state == TimerState::Running ==> self@.remaining >= 0)
        &&& self@.remaining <= u64::MAX
    }

    /// Room for one more step: every tally can take another `u64` and the
    /// countdown can fall by another `u64`.
    pub open spec fn has_room(&self) -> bool {
        &&& room_for_step(self@.stats)
        &&& self@.remaining >= i128::MIN + max_step()
    }

    pub fn new(cycle: PhaseCycle) -> (r: TimerEngine)
        requires
            cycle.wf(),
        ensures
            r.wf(),
            r.spec_cycle() == cycle,
            r@.state == TimerState::Idle,
            r@.phase_index == 0,
            r@.remaining == 0,
            r@.stats == crate::stats::zero_stats(),
    {
        TimerEngine {
            cycle,
            state: TimerState::Idle,
            phase_index: 0,
            remaining_time: 0,
            stats: Statistics::new(),
        }
    }

    /// Whether the engine can take one more command or tick without any
    /// counter leaving its machine range.
    pub fn room_left(&self) -> (r: bool)
        ensures
            r == self.has_room(),
    {
        self.stats.room_left() && self.remaining_time >= i128::MIN + u64::MAX as i128
    }

    pub fn state(&self) -> (r: TimerState)
        ensures
            r == self@.state,
    {
        self.state
    }

    pub fn phase_index(&self) -> (r: usize)
        requires
            self.wf(),
        ensures
            r == self@.phase_index,
            r < self.spec_cycle()@.len(),
    {
        self.phase_index
    }

    /// Signed milliseconds left; negative is overrun.
    pub fn remaining_time(&self) -> (r: i128)
        ensures
            r == self@.remaining,
    {
        self.remaining_time
    }

    pub fn statistics(&self) -> (r: &Statistics)
        ensures
            r@ == self@.stats,
    {
        &self.stats
    }

    pub fn cycle(&self) -> (r: &PhaseCycle)
        ensures
            *r == self.spec_cycle(),
    {
        &self.cycle
    }

    /// The phase the countdown belongs to.
    pub fn current_phase(&self) -> (r: &Phase)
        requires
            self.wf(),
        ensures
            *r == self.spec_cycle()@[self@.phase_index],
    {
        let r = self.cycle.current(self.phase_index);
        proof {
            vstd::arithmetic::div_mod::lemma_small_mod(
                self.phase_index as nat,
                self.cycle@.len(),
            );
        }
        r
    }

    /// Moves to the next phase and restarts the countdown there.
    fn advance_phase(&mut self)
        requires
            old(self).wf(),
            fits(add_cycle(old(self).stats@)),
        ensures
            final(self).wf(),
            final(self).spec_cycle() == old(self).spec_cycle(),
            final(self)@ == advance_model(old(self)@, old(self).spec_cycle()),
    {
        let (next, wrapped) = self.cycle.advance(self.phase_index);
        if wrapped {
            self.stats.record_cycle();
        }
        self.phase_index = next;
        self.state = TimerState::Running;
        self.remaining_time = self.cycle.current(next).nominal_duration as i128;
    }

    /// Applies one command; one that does not fit the current state is
    /// ignored.
    pub fn handle_command(&mut self, cmd: Command) -> (a: Action)
        requires
            old(self).wf(),
            old(self).has_room(),
        ensures
            final(self).wf(),
            final(self).spec_cycle() == old(self).spec_cycle(),
            final(self)@ == step_command(old(self)@, old(self).spec_cycle(), cmd),
            a == command_action(old(self)@.state, cmd),
    {
        match (self.state, cmd) {
            (_, Command::Quit) => Action::Quit,
            (TimerState::Idle, Command::Start) => {
                self.state = TimerState::Running;
                self.remaining_time = self.cycle.current(self.phase_index).nominal_duration as i128;
                Action::CancelCue
            },
            (TimerState::Running, Command::Skip) => {
                let kind = self.cycle.current(self.phase_index).kind;
                let left: u64 = if self.remaining_time > 0 {
                    self.remaining_time as u64
                } else {
                    0
                };
                self.stats.record_skipped(kind, left);
                self.advance_phase();
                Action::CancelCue
            },
            (TimerState::Running, Command::Pause) | (TimerState::PendingContinue, Command::Pause) => {
                self.state = TimerState::Paused;
                Action::CancelCue
            },
            (TimerState::Running, Command::End) | (TimerState::Paused, Command::End) => {
                self.state = TimerState::Idle;
                self.phase_index = 0;
                Action::CancelCue
            },
            (TimerState::Paused, Command::Resume) => {
                if self.remaining_time > 0 {
                    self.state = TimerState::Running;
                } else {
                    self.state = TimerState::PendingContinue;
                }
                Action::Nothing
            },
            (TimerState::PendingContinue, Command::Continue) => {
                self.advance_phase();
                Action::CancelCue
            },
            _ => Action::Nothing,
        }
    }

    /// Lets `elapsed` ms of wall-clock time pass.
    pub fn tick(&mut self, elapsed: u64) -> (a: Action)
        requires
            old(self).wf(),
            old(self).has_room(),
        ensures
            final(self).wf(),
            final(self).spec_cycle() == old(self).spec_cycle(),
            final(self)@ == step_tick(old(self)@, old(self).spec_cycle(), elapsed as int),
            a == tick_action(old(self)@, old(self).spec_cycle(), elapsed as int),
    {
        match self.state {
            TimerState::Running | TimerState::PendingContinue => {
                let kind = self.cycle.current(self.phase_index).kind;
                let before = self.remaining_time;
                self.remaining_time = before - elapsed as i128;
                if before > 0 {
                    self.stats.record_nominal(kind, elapsed);
                } else {
                    self.stats.record_extra(kind, elapsed);
                }
                if self.state == TimerState::Running && before >= 0 && self.remaining_time < 0 {
                    self.state = TimerState::PendingContinue;
                    Action::EnqueueCue(kind)
                } else {
                    Action::Nothing
                }
            },
            TimerState::Paused => {
                self.stats.record_paused(elapsed);
                Action::Nothing
            },
            TimerState::Idle => Action::Nothing,
        }
    }

    /// What a renderer shows for the current moment.
    pub fn snapshot(&self) -> (r: Snapshot)
        requires
            self.wf(),
        ensures
            r.state == self@.state,
            r.phase_label@ == self.spec_cycle()@[self@.phase_index].label@,
            r.phase_kind == self.spec_cycle()@[self@.phase_index].kind,
            r.remaining_ms == self@.remaining,
            r.instruction == instruction_of(self@.state),
    {
        let phase = self.current_phase();
        Snapshot {
            state: self.state,
            phase_label: phase.label.clone(),
            phase_kind: phase.kind,
            remaining_ms: self.remaining_time,
            instruction: instruction_for(self.state),
        }
    }
}

} // verus!
