//! Properties of the engine over sequences of ticks and commands, stated on
//! the model that `TimerEngine::tick` and `TimerEngine::handle_command`
//! follow step by step.
use vstd::prelude::*;

use crate::engine::{
    command_action, step_command, step_tick, tick_action, Action, Command, EngineModel,
    TimerState,
};
use crate::phase::PhaseCycle;
use crate::stats::ticked_total;

verus! {

/// Sum of a sequence of elapsed times.
pub open spec fn total(es: Seq<int>) -> int
    decreases es.len(),
{
    if es.len() == 0 {
        0
    } else {
        total(es.drop_last()) + es.last()
    }
}

/// Elapsed times are never negative.
pub open spec fn all_nonneg(es: Seq<int>) -> bool {
    forall|i: int| 0 <= i < es.len() ==> es[i] >= 0
}

/// The engine after the ticks `es`, in order.
pub open spec fn run_ticks(m: EngineModel, cycle: PhaseCycle, es: Seq<int>) -> EngineModel
    decreases es.len(),
{
    if es.len() == 0 {
        m
    } else {
        step_tick(run_ticks(m, cycle, es.drop_last()), cycle, es.last())
    }
}

/// How many of the ticks `es` asked for a cue.
pub open spec fn cue_count(m: EngineModel, cycle: PhaseCycle, es: Seq<int>) -> nat
    decreases es.len(),
{
    if es.len() == 0 {
        0
    } else {
        cue_count(m, cycle, es.drop_last()) + if tick_action(
            run_ticks(m, cycle, es.drop_last()),
            cycle,
            es.last(),
        ) is EnqueueCue {
            1nat
        } else {
            0nat
        }
    }
}

/// One input to the engine.
pub enum Event {
    Cmd(Command),
    Tick(int),
}

/// The engine after the events `evs`, in order.
pub open spec fn run_events(m: EngineModel, cycle: PhaseCycle, evs: Seq<Event>) -> EngineModel
    decreases evs.len(),
{
    if evs.len() == 0 {
        m
    } else {
        let before = run_events(m, cycle, evs.drop_last());
        match evs.last() {
            Event::Cmd(c) => step_command(before, cycle, c),
            Event::Tick(e) => step_tick(before, cycle, e),
        }
    }
}

/// Sum of the ticks among `evs`.
pub open spec fn ticked(evs: Seq<Event>) -> int
    decreases evs.len(),
{
    if evs.len() == 0 {
        0
    } else {
        ticked(evs.drop_last()) + match evs.last() {
            Event::Tick(e) => e,
            Event::Cmd(_) => 0,
        }
    }
}

/// Ticks alone are a pure subtraction: while the countdown runs or waits for
/// `Continue`, the time left after any ticks is the time left before minus
/// their sum, with no clamping; while idle or paused it does not move. No
/// tick changes the phase.
pub proof fn lemma_ticks_subtract(m: EngineModel, cycle: PhaseCycle, es: Seq<int>)
    ensures
        m.state == TimerState::Running || m.state == TimerState::PendingContinue ==> run_ticks(
            m,
            cycle,
            es,
        ).remaining == m.remaining - total(es) && (run_ticks(m, cycle, es).state
            == TimerState::Running || run_ticks(m, cycle, es).state
            == TimerState::PendingContinue),
        m.state == TimerState::Idle || m.state == TimerState::Paused ==> run_ticks(
            m,
            cycle,
            es,
        ).remaining == m.remaining && run_ticks(m, cycle, es).state == m.state,
        run_ticks(m, cycle, es).phase_index == m.phase_index,
    decreases es.len(),
{
    if es.len() > 0 {
        lemma_ticks_subtract(m, cycle, es.drop_last());
    }
}

/// After `Start`, the time left is the phase's allotted time minus the sum
/// of the ticks since.
pub proof fn lemma_countdown_from_start(m: EngineModel, cycle: PhaseCycle, es: Seq<int>)
    requires
        m.state == TimerState::Idle,
    ensures
        run_ticks(step_command(m, cycle, Command::Start), cycle, es).remaining == cycle.duration_at(
            m.phase_index,
        ) - total(es),
{
    lemma_ticks_subtract(step_command(m, cycle, Command::Start), cycle, es);
}

/// Over any ticks, a running countdown asks for its cue exactly once if it
/// passes zero and never otherwise; from any other state no tick asks for
/// one, so waiting in `PendingContinue` never asks again.
pub proof fn lemma_one_cue_per_expiry(m: EngineModel, cycle: PhaseCycle, es: Seq<int>)
    requires
        all_nonneg(es),
        m.state == TimerState::Running ==> m.remaining >= 0,
    ensures
        cue_count(m, cycle, es) <= 1,
        m.state != TimerState::Running ==> cue_count(m, cycle, es) == 0,
        m.state == TimerState::Running ==> (cue_count(m, cycle, es) == 1 <==> m.remaining - total(
            es,
        ) < 0),
    decreases es.len(),
{
    if es.len() > 0 {
        let pre = es.drop_last();
        assert(all_nonneg(pre)) by {
            assert forall|i: int| 0 <= i < pre.len() implies pre[i] >= 0 by {
                assert(pre[i] == es[i]);
            }
        }
        assert(es.last() == es[es.len() - 1]);
        lemma_one_cue_per_expiry(m, cycle, pre);
        lemma_run_states(m, cycle, pre);
    }
}

/// Where the state can be after ticks alone.
proof fn lemma_run_states(m: EngineModel, cycle: PhaseCycle, es: Seq<int>)
    requires
        all_nonneg(es),
        m.state == TimerState::Running ==> m.remaining >= 0,
    ensures
        m.state == TimerState::Running ==> run_ticks(m, cycle, es).remaining == m.remaining
            - total(es) && (run_ticks(m, cycle, es).state == TimerState::Running <==> m.remaining
            - total(es) >= 0) && (run_ticks(m, cycle, es).state == TimerState::PendingContinue
            <==> m.remaining - total(es) < 0),
        m.state != TimerState::Running ==> run_ticks(m, cycle, es).state == m.state,
    decreases es.len(),
{
    if es.len() > 0 {
        let pre = es.drop_last();
        assert(all_nonneg(pre)) by {
            assert forall|i: int| 0 <= i < pre.len() implies pre[i] >= 0 by {
                assert(pre[i] == es[i]);
            }
        }
        assert(es.last() == es[es.len() - 1]);
        lemma_run_states(m, cycle, pre);
    }
}

/// `Skip` from `Running` and `Continue` from `PendingContinue` both move to
/// the next phase modulo the cycle's length, restart the countdown there,
/// and count one completed cycle exactly when they wrap to the first phase.
pub proof fn lemma_advance_by_one(m: EngineModel, cycle: PhaseCycle, cmd: Command)
    requires
        cycle.wf(),
        0 <= m.phase_index < cycle.spec_len(),
        (m.state == TimerState::Running && cmd == Command::Skip) || (m.state
            == TimerState::PendingContinue && cmd == Command::Continue),
    ensures
        step_command(m, cycle, cmd).state == TimerState::Running,
        step_command(m, cycle, cmd).phase_index == (m.phase_index + 1) % cycle.spec_len(),
        step_command(m, cycle, cmd).remaining == cycle.duration_at(
            step_command(m, cycle, cmd).phase_index,
        ),
        step_command(m, cycle, cmd).stats.cycles == m.stats.cycles + if m.phase_index + 1
            == cycle.spec_len() {
            1int
        } else {
            0int
        },
        command_action(m.state, cmd) == Action::CancelCue,
{
}

/// No command moves time between the ticked buckets.
pub proof fn lemma_commands_keep_ticked_total(m: EngineModel, cycle: PhaseCycle, cmd: Command)
    ensures
        ticked_total(step_command(m, cycle, cmd).stats) == ticked_total(m.stats),
{
}

/// Conservation: once a session has started, and as long as it is not ended,
/// focus, break, their overruns and paused time grow together by exactly the
/// time that was ticked, whatever commands come between the ticks.
pub proof fn lemma_conservation(m: EngineModel, cycle: PhaseCycle, evs: Seq<Event>)
    requires
        m.state != TimerState::Idle,
        forall|i: int| 0 <= i < evs.len() ==> evs[i] != Event::Cmd(Command::End),
    ensures
        run_events(m, cycle, evs).state != TimerState::Idle,
        ticked_total(run_events(m, cycle, evs).stats) == ticked_total(m.stats) + ticked(evs),
    decreases evs.len(),
{
    if evs.len() > 0 {
        let pre = evs.drop_last();
        assert forall|i: int| 0 <= i < pre.len() implies pre[i] != Event::Cmd(Command::End) by {
            assert(pre[i] == evs[i]);
        }
        assert(evs.last() == evs[evs.len() - 1]);
        lemma_conservation(m, cycle, pre);
    }
}

/// `End` from `Running` or `Paused` returns to `Idle` at the first phase and
/// cancels any cue.
pub proof fn lemma_end_resets(m: EngineModel, cycle: PhaseCycle)
    requires
        m.state == TimerState::Running || m.state == TimerState::Paused,
    ensures
        step_command(m, cycle, Command::End).state == TimerState::Idle,
        step_command(m, cycle, Command::End).phase_index == 0,
        command_action(m.state, Command::End) == Action::CancelCue,
{
}

} // verus!
