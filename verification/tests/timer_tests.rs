use pocket_flow::models::WorkSession;
use pocket_flow::timer::{
    HostCommands, PomodoroMode, PomodoroTimer, TimerState, BREAK_DURATION, WORK_DURATION,
};

fn running_work_timer(remaining: u64, started_at: i64, last_tick: i64, count: usize) -> PomodoroTimer {
    PomodoroTimer {
        mode: PomodoroMode::Work,
        state: TimerState::Running,
        remaining_seconds: remaining,
        last_tick: Some(last_tick),
        work_session_start: Some(started_at),
        today_session_count: count,
        break_window_minimized: false,
    }
}

#[test]
fn initial_state_is_stopped_work_interval() {
    let t = PomodoroTimer::new(3);
    assert_eq!(t.mode, PomodoroMode::Work);
    assert_eq!(t.state, TimerState::Stopped);
    assert_eq!(t.remaining_seconds, WORK_DURATION);
    assert_eq!(t.last_tick, None);
    assert_eq!(t.work_session_start, None);
    assert_eq!(t.today_session_count, 3);
    assert!(!t.break_window_minimized);
}

#[test]
fn first_start_records_interval_start_and_minimizes() {
    let mut t = PomodoroTimer::new(0);
    let cmds = t.start(500, 1_000_000);
    assert_eq!(t.state, TimerState::Running);
    assert_eq!(t.last_tick, Some(500));
    assert_eq!(t.work_session_start, Some(1_000_000));
    assert_eq!(t.remaining_seconds, WORK_DURATION);
    assert!(cmds.minimize);
    assert_eq!(cmds.set_fullscreen, None);
}

#[test]
fn ticks_one_second_apart_each_take_one_second() {
    let mut t = running_work_timer(10, 1_000_000, 0, 0);
    for i in 1..=5i64 {
        let r = t.tick(1000 * i, 1_000_000 + i);
        assert!(r.completed.is_none());
        assert_eq!(t.remaining_seconds, 10 - i as u64);
        assert_eq!(t.last_tick, Some(1000 * i));
    }
    assert_eq!(t.remaining_seconds, 5);
}

#[test]
fn extra_redraws_within_a_second_change_nothing() {
    let mut t = running_work_timer(10, 1_000_000, 0, 0);
    let r = t.tick(400, 1_000_000);
    assert!(r.completed.is_none());
    assert_eq!(t.remaining_seconds, 10);
    assert_eq!(t.last_tick, Some(0));
    let r = t.tick(999, 1_000_000);
    assert!(r.completed.is_none());
    assert_eq!(t.remaining_seconds, 10);
    let r = t.tick(1000, 1_000_001);
    assert!(r.completed.is_none());
    assert_eq!(t.remaining_seconds, 9);
}

#[test]
fn a_long_gap_still_counts_as_one_second() {
    let mut t = running_work_timer(10, 1_000_000, 0, 0);
    let r = t.tick(10_000, 1_000_010);
    assert!(r.completed.is_none());
    assert_eq!(t.remaining_seconds, 9);
    assert_eq!(t.last_tick, Some(10_000));
}

#[test]
fn pause_then_resume_preserves_remaining_and_start() {
    let mut t = PomodoroTimer::new(0);
    t.start(0, 1_000_000);
    t.tick(1000, 1_000_001);
    t.tick(2000, 1_000_002);
    assert_eq!(t.remaining_seconds, WORK_DURATION - 2);
    t.pause();
    assert_eq!(t.state, TimerState::Paused);
    assert_eq!(t.last_tick, None);
    assert_eq!(t.remaining_seconds, WORK_DURATION - 2);
    assert_eq!(t.work_session_start, Some(1_000_000));
    let cmds = t.start(60_000, 1_000_060);
    assert_eq!(t.state, TimerState::Running);
    assert_eq!(t.remaining_seconds, WORK_DURATION - 2);
    assert_eq!(t.work_session_start, Some(1_000_000));
    assert!(!cmds.minimize);
    assert_eq!(cmds.set_fullscreen, None);
}

#[test]
fn restart_resets_and_abandons_the_interval() {
    let mut t = PomodoroTimer::new(0);
    t.start(0, 1_000_000);
    t.tick(1000, 1_000_001);
    t.tick(2000, 1_000_002);
    t.pause();
    t.restart();
    assert_eq!(t.mode, PomodoroMode::Work);
    assert_eq!(t.state, TimerState::Stopped);
    assert_eq!(t.remaining_seconds, WORK_DURATION);
    assert_eq!(t.last_tick, None);
    assert_eq!(t.work_session_start, None);
    assert_eq!(t.today_session_count, 0);
}

#[test]
fn work_completion_emits_exact_record_and_starts_break() {
    let started_at: i64 = 1_000_000;
    let mut t = running_work_timer(5, started_at, 0, 7);
    let mut record = None;
    for i in 1..=6i64 {
        let r = t.tick(1000 * i, started_at + i);
        if r.completed.is_some() {
            assert!(record.is_none());
            record = r.completed;
            assert_eq!(r.commands.set_fullscreen, Some(true));
            assert!(!r.commands.minimize);
        }
    }
    let record = record.expect("the fifth tick completes the interval");
    assert_eq!(
        record,
        WorkSession { started_at, completed_at: started_at + 5, duration_seconds: 5 }
    );
    assert_eq!(t.mode, PomodoroMode::Break);
    assert_eq!(t.state, TimerState::Running);
    // the sixth tick already counted the running break down by one
    assert_eq!(t.remaining_seconds, BREAK_DURATION - 1);
    assert_eq!(t.work_session_start, None);
    // the timer itself never touches the day's count; saving does
    assert_eq!(t.today_session_count, 7);
}

#[test]
fn failed_save_leaves_count_but_break_begins() {
    // A storage failure means record_saved is never called: the count stays,
    // the emitted record is dropped, and the break runs regardless.
    let mut t = running_work_timer(1, 1_000_000, 0, 4);
    let r = t.tick(1000, 1_000_001);
    assert!(r.completed.is_some());
    assert_eq!(t.mode, PomodoroMode::Break);
    assert_eq!(t.state, TimerState::Running);
    assert_eq!(t.remaining_seconds, BREAK_DURATION);
    assert_eq!(t.today_session_count, 4);
}

#[test]
fn break_completion_stops_and_leaves_fullscreen() {
    let mut t = running_work_timer(1, 1_000_000, 0, 0);
    t.tick(1000, 1_000_001);
    assert_eq!(t.mode, PomodoroMode::Break);
    // run the whole break down
    for i in 0..BREAK_DURATION as i64 {
        let r = t.tick(2000 + 1000 * i, 1_000_002 + i);
        assert!(r.completed.is_none());
        if i == BREAK_DURATION as i64 - 1 {
            assert_eq!(r.commands.set_fullscreen, Some(false));
        }
    }
    assert_eq!(t.mode, PomodoroMode::Break);
    assert_eq!(t.state, TimerState::Stopped);
    assert_eq!(t.remaining_seconds, 0);
    assert_eq!(t.last_tick, None);
    // further ticks change nothing
    let r = t.tick(10_000_000, 2_000_000);
    assert!(r.completed.is_none());
    assert_eq!(t.remaining_seconds, 0);
    assert_eq!(t.state, TimerState::Stopped);
}

#[test]
fn start_work_returns_to_stopped_work_interval() {
    let mut t = running_work_timer(1, 1_000_000, 0, 0);
    t.tick(1000, 1_000_001);
    for i in 0..BREAK_DURATION as i64 {
        t.tick(2000 + 1000 * i, 1_000_002 + i);
    }
    let cmds = t.start_work();
    assert_eq!(t.mode, PomodoroMode::Work);
    assert_eq!(t.state, TimerState::Stopped);
    assert_eq!(t.remaining_seconds, WORK_DURATION);
    assert_eq!(cmds.set_fullscreen, Some(false));
    assert!(!cmds.minimize);
}

#[test]
fn skip_break_begins_a_fresh_running_work_interval() {
    let mut t = running_work_timer(1, 1_000_000, 0, 0);
    t.tick(1000, 1_000_001);
    assert_eq!(t.mode, PomodoroMode::Break);
    let cmds = t.skip_break(5000, 1_000_005);
    assert_eq!(t.mode, PomodoroMode::Work);
    assert_eq!(t.state, TimerState::Running);
    assert_eq!(t.remaining_seconds, WORK_DURATION);
    assert_eq!(t.work_session_start, Some(1_000_005));
    assert_eq!(t.last_tick, Some(5000));
    assert!(cmds.minimize);
    assert_eq!(cmds.set_fullscreen, Some(false));
}

#[test]
fn minimize_break_window_sets_flag_and_keeps_counting() {
    let mut t = running_work_timer(1, 1_000_000, 0, 0);
    t.tick(1000, 1_000_001);
    let cmds = t.minimize_break_window();
    assert!(t.break_window_minimized);
    assert_eq!(t.state, TimerState::Running);
    assert_eq!(cmds.set_fullscreen, Some(false));
    // a break that ends while minimized asks nothing of the host
    for i in 0..BREAK_DURATION as i64 {
        let r = t.tick(2000 + 1000 * i, 1_000_002 + i);
        assert_eq!(r.commands, HostCommands { minimize: false, set_fullscreen: None });
    }
    assert_eq!(t.state, TimerState::Stopped);
    // the next break clears the flag
    let mut t2 = running_work_timer(1, 2_000_000, 0, 0);
    t2.break_window_minimized = true;
    t2.tick(1000, 2_000_001);
    assert!(!t2.break_window_minimized);
}

#[test]
fn format_time_pads_both_parts() {
    let mut t = PomodoroTimer::new(0);
    assert_eq!(t.format_time(), "25:00");
    t.remaining_seconds = 65;
    assert_eq!(t.format_time(), "01:05");
    t.remaining_seconds = 0;
    assert_eq!(t.format_time(), "00:00");
    t.remaining_seconds = 599;
    assert_eq!(t.format_time(), "09:59");
}

#[test]
fn menu_bar_title_follows_the_state() {
    let mut t = PomodoroTimer::new(0);
    assert_eq!(t.menu_bar_title(), "Ready");
    let mut running = running_work_timer(1498, 1_000_000, 0, 0);
    assert_eq!(running.menu_bar_title(), "24:58");
    running.pause();
    assert_eq!(running.menu_bar_title(), "24:58 (Paused)");
    t.mode = PomodoroMode::Break;
    t.remaining_seconds = 0;
    assert_eq!(t.menu_bar_title(), "Break Done");
}
