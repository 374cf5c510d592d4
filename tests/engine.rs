use pomodoro::engine::{command_for_key, Action, Command, Instruction, TimerEngine, TimerState};
use pomodoro::phase::{Phase, PhaseCycle, PhaseKind};
use pomodoro::stats::Statistics;

fn two_phase_engine() -> TimerEngine {
    let phases = vec![
        Phase::new("Focus", PhaseKind::Focus, 30000),
        Phase::new("Short Break", PhaseKind::Break, 10000),
    ];
    TimerEngine::new(PhaseCycle::new(phases).unwrap())
}

fn ticked_sum(s: &Statistics) -> u128 {
    s.focus_time + s.extra_focus_time + s.break_time + s.extra_break_time + s.paused_time
}

#[test]
fn new_statistics_are_zero() {
    let s = Statistics::new();
    assert_eq!(s.focus_time, 0);
    assert_eq!(s.break_time, 0);
    assert_eq!(s.skipped_focus_time, 0);
    assert_eq!(s.skipped_break_time, 0);
    assert_eq!(s.paused_time, 0);
    assert_eq!(s.extra_focus_time, 0);
    assert_eq!(s.extra_break_time, 0);
    assert_eq!(s.completed_cycles, 0);
}

#[test]
fn empty_cycle_is_rejected() {
    assert!(PhaseCycle::new(Vec::new()).is_none());
}

#[test]
fn standard_cycle_layout() {
    let c = PhaseCycle::standard();
    assert_eq!(c.len(), 6);
    assert_eq!(c.current(0).label, "Focus");
    assert_eq!(c.current(1).label, "Short Break");
    assert_eq!(c.current(5).label, "Long Break");
    assert_eq!(c.current(5).kind, PhaseKind::Break);
    assert_eq!(c.current(4).nominal_duration, 1800000);
    assert_eq!(c.current(3).nominal_duration, 600000);
    assert_eq!(c.current(7).label, "Short Break");
    assert_eq!(c.advance(5), (0, true));
    assert_eq!(c.advance(2), (3, false));
}

#[test]
fn new_engine_is_idle() {
    let e = two_phase_engine();
    assert_eq!(e.state(), TimerState::Idle);
    assert_eq!(e.phase_index(), 0);
    assert_eq!(*e.statistics(), Statistics::new());
}

#[test]
fn start_sets_countdown() {
    let mut e = two_phase_engine();
    assert_eq!(e.handle_command(Command::Start), Action::CancelCue);
    assert_eq!(e.state(), TimerState::Running);
    assert_eq!(e.remaining_time(), 30000);
}

#[test]
fn expiry_scenario() {
    let mut e = two_phase_engine();
    e.handle_command(Command::Start);
    let a = e.tick(35000);
    assert_eq!(a, Action::EnqueueCue(PhaseKind::Focus));
    assert_eq!(e.state(), TimerState::PendingContinue);
    assert_eq!(e.remaining_time(), -5000);
    // The tick is attributed by the sign of the time left when it began.
    assert_eq!(e.statistics().focus_time, 35000);
    assert_eq!(e.statistics().extra_focus_time, 0);
}

#[test]
fn continue_after_expiry_scenario() {
    let mut e = two_phase_engine();
    e.handle_command(Command::Start);
    e.tick(35000);
    assert_eq!(e.handle_command(Command::Continue), Action::CancelCue);
    assert_eq!(e.state(), TimerState::Running);
    assert_eq!(e.phase_index(), 1);
    assert_eq!(e.remaining_time(), 10000);
}

#[test]
fn pause_resume_scenario() {
    let mut e = two_phase_engine();
    e.handle_command(Command::Start);
    e.handle_command(Command::Pause);
    assert_eq!(e.tick(1000), Action::Nothing);
    assert_eq!(e.handle_command(Command::Resume), Action::Nothing);
    assert_eq!(e.statistics().paused_time, 1000);
    assert_eq!(e.remaining_time(), 30000);
    assert_eq!(e.state(), TimerState::Running);
}

#[test]
fn skip_scenario() {
    let mut e = two_phase_engine();
    e.handle_command(Command::Start);
    e.tick(10000);
    assert_eq!(e.remaining_time(), 20000);
    assert_eq!(e.handle_command(Command::Skip), Action::CancelCue);
    assert_eq!(e.statistics().skipped_focus_time, 20000);
    assert_eq!(e.statistics().skipped_break_time, 0);
    assert_eq!(e.phase_index(), 1);
    assert_eq!(e.remaining_time(), 10000);
    assert_eq!(e.state(), TimerState::Running);
}

#[test]
fn skip_break_counts_as_skipped_break() {
    let mut e = two_phase_engine();
    e.handle_command(Command::Start);
    e.handle_command(Command::Skip);
    e.tick(4000);
    e.handle_command(Command::Skip);
    assert_eq!(e.statistics().skipped_focus_time, 30000);
    assert_eq!(e.statistics().skipped_break_time, 6000);
}

#[test]
fn ticks_subtract_without_clamping() {
    let mut e = two_phase_engine();
    e.handle_command(Command::Start);
    let ticks = [16u64, 10, 12000, 17974, 5000, 3];
    let mut sum: i128 = 0;
    for t in ticks {
        e.tick(t);
        sum += t as i128;
        assert_eq!(e.remaining_time(), 30000 - sum);
        assert_eq!(e.phase_index(), 0);
    }
    assert_eq!(e.remaining_time(), -5003);
}

#[test]
fn only_one_cue_per_expiry() {
    let mut e = two_phase_engine();
    e.handle_command(Command::Start);
    assert_eq!(e.tick(29999), Action::Nothing);
    assert_eq!(e.tick(1), Action::Nothing);
    assert_eq!(e.remaining_time(), 0);
    assert_eq!(e.state(), TimerState::Running);
    assert_eq!(e.tick(1), Action::EnqueueCue(PhaseKind::Focus));
    for _ in 0..10 {
        assert_eq!(e.tick(500), Action::Nothing);
        assert_eq!(e.state(), TimerState::PendingContinue);
    }
    assert_eq!(e.statistics().extra_focus_time, 5001);
}

#[test]
fn break_expiry_enqueues_break_cue() {
    let mut e = two_phase_engine();
    e.handle_command(Command::Start);
    e.handle_command(Command::Skip);
    assert_eq!(e.tick(10001), Action::EnqueueCue(PhaseKind::Break));
    assert_eq!(e.statistics().break_time, 10001);
}

#[test]
fn resume_with_overrun_waits_without_cue() {
    let mut e = two_phase_engine();
    e.handle_command(Command::Start);
    e.tick(31000);
    assert_eq!(e.handle_command(Command::Pause), Action::CancelCue);
    assert_eq!(e.state(), TimerState::Paused);
    assert_eq!(e.handle_command(Command::Resume), Action::Nothing);
    assert_eq!(e.state(), TimerState::PendingContinue);
    assert_eq!(e.tick(100), Action::Nothing);
    assert_eq!(e.remaining_time(), -1100);
}

#[test]
fn wrapping_counts_one_cycle() {
    let mut e = two_phase_engine();
    e.handle_command(Command::Start);
    e.handle_command(Command::Skip);
    assert_eq!(e.phase_index(), 1);
    assert_eq!(e.statistics().completed_cycles, 0);
    e.handle_command(Command::Skip);
    assert_eq!(e.phase_index(), 0);
    assert_eq!(e.statistics().completed_cycles, 1);
    assert_eq!(e.remaining_time(), 30000);
    e.tick(30001);
    e.handle_command(Command::Continue);
    e.tick(10001);
    e.handle_command(Command::Continue);
    assert_eq!(e.phase_index(), 0);
    assert_eq!(e.statistics().completed_cycles, 2);
}

#[test]
fn ticked_time_is_conserved() {
    let mut e = two_phase_engine();
    e.handle_command(Command::Start);
    e.tick(20000);
    e.handle_command(Command::Pause);
    e.tick(700);
    e.handle_command(Command::Resume);
    e.tick(15000);
    e.tick(300);
    e.handle_command(Command::Continue);
    e.tick(12000);
    e.tick(16);
    assert_eq!(ticked_sum(e.statistics()), 20000 + 700 + 15000 + 300 + 12000 + 16);
    assert_eq!(e.statistics().focus_time, 35000);
    assert_eq!(e.statistics().extra_focus_time, 300);
    assert_eq!(e.statistics().break_time, 12000);
    assert_eq!(e.statistics().extra_break_time, 16);
    assert_eq!(e.statistics().paused_time, 700);
}

#[test]
fn end_from_running_resets() {
    let mut e = two_phase_engine();
    e.handle_command(Command::Start);
    e.handle_command(Command::Skip);
    assert_eq!(e.handle_command(Command::End), Action::CancelCue);
    assert_eq!(e.state(), TimerState::Idle);
    assert_eq!(e.phase_index(), 0);
}

#[test]
fn end_from_paused_resets() {
    let mut e = two_phase_engine();
    e.handle_command(Command::Start);
    e.handle_command(Command::Skip);
    e.handle_command(Command::Pause);
    assert_eq!(e.handle_command(Command::End), Action::CancelCue);
    assert_eq!(e.state(), TimerState::Idle);
    assert_eq!(e.phase_index(), 0);
}

#[test]
fn commands_out_of_place_are_ignored() {
    let mut e = two_phase_engine();
    for c in [Command::Pause, Command::Resume, Command::Skip, Command::End, Command::Continue] {
        assert_eq!(e.handle_command(c), Action::Nothing);
        assert_eq!(e.state(), TimerState::Idle);
    }
    assert_eq!(e.tick(5000), Action::Nothing);
    assert_eq!(*e.statistics(), Statistics::new());
    e.handle_command(Command::Start);
    e.tick(31000);
    assert_eq!(e.handle_command(Command::Skip), Action::Nothing);
    assert_eq!(e.handle_command(Command::End), Action::Nothing);
    assert_eq!(e.state(), TimerState::PendingContinue);
}

#[test]
fn quit_is_reported_in_every_state() {
    let mut e = two_phase_engine();
    assert_eq!(e.handle_command(Command::Quit), Action::Quit);
    e.handle_command(Command::Start);
    assert_eq!(e.handle_command(Command::Quit), Action::Quit);
    assert_eq!(e.state(), TimerState::Running);
}

#[test]
fn keys_map_to_commands() {
    assert_eq!(command_for_key(TimerState::Idle, 's'), Some(Command::Start));
    assert_eq!(command_for_key(TimerState::Running, 's'), Some(Command::Skip));
    assert_eq!(command_for_key(TimerState::Paused, 'q'), Some(Command::Quit));
    assert_eq!(command_for_key(TimerState::Running, 'p'), Some(Command::Pause));
    assert_eq!(command_for_key(TimerState::Paused, 'r'), Some(Command::Resume));
    assert_eq!(command_for_key(TimerState::PendingContinue, 'c'), Some(Command::Continue));
    assert_eq!(command_for_key(TimerState::Running, 'e'), Some(Command::End));
    assert_eq!(command_for_key(TimerState::Running, 'x'), None);
}

#[test]
fn snapshot_reflects_state() {
    let mut e = two_phase_engine();
    let s = e.snapshot();
    assert_eq!(s.state, TimerState::Idle);
    assert_eq!(s.instruction, Instruction::Start);
    assert_eq!(s.phase_label, "Focus");
    e.handle_command(Command::Start);
    e.handle_command(Command::Skip);
    e.tick(10500);
    let s = e.snapshot();
    assert_eq!(s.state, TimerState::PendingContinue);
    assert_eq!(s.instruction, Instruction::Continue);
    assert_eq!(s.phase_label, "Short Break");
    assert_eq!(s.phase_kind, PhaseKind::Break);
    assert_eq!(s.remaining_ms, -500);
    e.handle_command(Command::Pause);
    assert_eq!(e.snapshot().instruction, Instruction::Resume);
}

#[test]
fn room_left_on_fresh_engine() {
    let e = two_phase_engine();
    assert!(e.room_left());
    assert!(Statistics::new().room_left());
    let mut s = Statistics::new();
    s.paused_time = u128::MAX - 5;
    assert!(!s.room_left());
}
