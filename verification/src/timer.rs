//! The Pomodoro timer state machine.
//!
//! The timer owns the current mode, run state and remaining time, advances on
//! wall-clock ticks handed in by the host redraw loop, and emits a
//! [`WorkSession`] record each time a work interval completes. Window
//! commands (minimize, enter or leave fullscreen) are returned to the host
//! rather than performed, so every transition is a plain function of the
//! state and the clock values it is given.

use vstd::prelude::*;
use vstd::string::StringExecFns;

use crate::models::{valid_timestamp, WorkSession};

verus! {

/// Length of a work interval, in seconds.
pub const WORK_DURATION: u64 = 25 * 60;

/// Length of a break interval, in seconds.
pub const BREAK_DURATION: u64 = 5 * 60;

/// Whether the countdown is idle, counting, or held.
#[derive(Debug, Clone, Copy, PartialEq, Eq, Structural)]
pub enum TimerState {
    Stopped,
    Running,
    Paused,
}

/// Whether the timer is in a work interval or a break interval.
#[derive(Debug, Clone, Copy, PartialEq, Eq, Structural)]
pub enum PomodoroMode {
    Work,
    Break,
}

/// Window commands a transition asks the host to perform. They are
/// fire-and-forget: the timer never learns whether the host obeyed.
#[derive(Debug, Clone, Copy, PartialEq, Eq)]
pub struct HostCommands {
    /// Ask the host to minimize its window.
    pub minimize: bool,
    /// Ask the host to enter (`Some(true)`) or leave (`Some(false)`)
    /// fullscreen presentation; `None` asks nothing.
    pub set_fullscreen: Option<bool>,
}

impl HostCommands {
    pub open spec fn none_spec() -> HostCommands {
        HostCommands { minimize: false, set_fullscreen: None }
    }

    pub fn none() -> (c: HostCommands)
        ensures
            c == HostCommands::none_spec(),
    {
        HostCommands { minimize: false, set_fullscreen: None }
    }
}

/// What one tick produced: commands for the host, and the record of a work
/// interval if this tick completed one.
pub struct TickOutcome {
    pub commands: HostCommands,
    pub completed: Option<WorkSession>,
}

/// The timer state machine.
///
/// `last_tick` is a monotonic clock reading in milliseconds, present exactly
/// while the timer runs; `work_session_start` is the UTC second at which the
/// current work interval began, present exactly while a work interval is
/// underway (running or paused).
pub struct PomodoroTimer {
    pub mode: PomodoroMode,
    pub state: TimerState,
    pub remaining_seconds: u64,
    pub last_tick: Option<i64>,
    pub work_session_start: Option<i64>,
    pub today_session_count: usize,
    pub break_window_minimized: bool,
}

/// The configured full length of an interval in the given mode.
pub open spec fn duration_for(mode: PomodoroMode) -> u64 {
    match mode {
        PomodoroMode::Work => WORK_DURATION,
        PomodoroMode::Break => BREAK_DURATION,
    }
}

impl PomodoroTimer {
    /// The state invariant every operation preserves: the countdown never
    /// exceeds the configured interval length, the tick anchor is present
    /// exactly while running, and a work-interval start instant is present
    /// exactly while a work interval is underway.
    pub open spec fn well_formed(self) -> bool {
        &&& self.remaining_seconds <= duration_for(self.mode)
        &&& (self.state == TimerState::Running <==> self.last_tick is Some)
        &&& (self.last_tick is Some ==> self.last_tick->0 >= 0)
        &&& (self.mode == PomodoroMode::Work ==> (self.work_session_start is Some <==> self.state
            != TimerState::Stopped))
        &&& (self.mode == PomodoroMode::Break ==> self.work_session_start is None)
        &&& (self.work_session_start is Some ==> valid_timestamp(self.work_session_start->0 as int))
    }

    /// A fresh timer: a stopped work interval of full length, with the given
    /// count of sessions already completed today.
    pub fn new(today_session_count: usize) -> (t: Self)
        ensures
            t == initial_timer(today_session_count),
            t.well_formed(),
    {
        PomodoroTimer {
            mode: PomodoroMode::Work,
            state: TimerState::Stopped,
            remaining_seconds: WORK_DURATION,
            last_tick: None,
            work_session_start: None,
            today_session_count,
            break_window_minimized: false,
        }
    }

    /// Start, or resume, the countdown. On the first start of a fresh work
    /// interval the current UTC instant is recorded as the interval's start
    /// and the host is asked to minimize its window; a resume changes
    /// neither the remaining time nor the recorded start.
    pub fn start(&mut self, mono_now_ms: i64, utc_now_s: i64) -> (cmds: HostCommands)
        requires
            old(self).well_formed(),
            old(self).state != TimerState::Running,
            mono_now_ms >= 0,
            valid_timestamp(utc_now_s as int),
        ensures
            *final(self) == start_step(*old(self), mono_now_ms, utc_now_s),
            cmds == start_commands(*old(self)),
            final(self).well_formed(),
    {
        self.state = TimerState::Running;
        self.last_tick = Some(mono_now_ms);
        if self.mode == PomodoroMode::Work && self.work_session_start.is_none() {
            self.work_session_start = Some(utc_now_s);
            HostCommands { minimize: true, set_fullscreen: None }
        } else {
            HostCommands::none()
        }
    }

    /// Hold the countdown. The remaining time and the recorded work-interval
    /// start survive the pause.
    pub fn pause(&mut self)
        requires
            old(self).well_formed(),
            old(self).state == TimerState::Running,
        ensures
            *final(self) == pause_step(*old(self)),
            final(self).well_formed(),
    {
        self.state = TimerState::Paused;
        self.last_tick = None;
    }

    /// Stop the countdown and reset it to the full length of the current
    /// mode. A work interval restarted before completion is abandoned: its
    /// recorded start is cleared and no session record is ever made of it.
    pub fn restart(&mut self)
        requires
            old(self).well_formed(),
            old(self).state != TimerState::Stopped,
        ensures
            *final(self) == restart_step(*old(self)),
            final(self).well_formed(),
    {
        self.state = TimerState::Stopped;
        self.remaining_seconds = match self.mode {
            PomodoroMode::Work => WORK_DURATION,
            PomodoroMode::Break => BREAK_DURATION,
        };
        self.last_tick = None;
        self.work_session_start = None;
    }

    /// Begin the break that follows a completed work interval: a running
    /// break countdown of full length, with the host asked to present it
    /// fullscreen.
    fn start_break(&mut self, mono_now_ms: i64) -> (cmds: HostCommands)
        requires
            mono_now_ms >= 0,
        ensures
            *final(self) == break_start_step(*old(self), mono_now_ms),
            cmds == (HostCommands { minimize: false, set_fullscreen: Some(true) }),
    {
        self.mode = PomodoroMode::Break;
        self.remaining_seconds = BREAK_DURATION;
        self.state = TimerState::Running;
        self.last_tick = Some(mono_now_ms);
        self.work_session_start = None;
        self.break_window_minimized = false;
        HostCommands { minimize: false, set_fullscreen: Some(true) }
    }

    /// After a break has fully elapsed, return to a stopped work interval of
    /// full length; the countdown does not start by itself. The host is
    /// asked to leave fullscreen.
    pub fn start_work(&mut self) -> (cmds: HostCommands)
        requires
            old(self).well_formed(),
            old(self).mode == PomodoroMode::Break,
            old(self).state == TimerState::Stopped,
            old(self).remaining_seconds == 0,
        ensures
            *final(self) == work_start_step(*old(self)),
            cmds == (HostCommands { minimize: false, set_fullscreen: Some(false) }),
            final(self).well_formed(),
    {
        self.mode = PomodoroMode::Work;
        self.remaining_seconds = WORK_DURATION;
        self.state = TimerState::Stopped;
        self.last_tick = None;
        HostCommands { minimize: false, set_fullscreen: Some(false) }
    }

    /// Cut an unfinished break short and immediately begin a new work
    /// interval, running, with a fresh recorded start — the same semantics a
    /// first start has. The host is asked to leave fullscreen and minimize.
    pub fn skip_break(&mut self, mono_now_ms: i64, utc_now_s: i64) -> (cmds: HostCommands)
        requires
            old(self).well_formed(),
            old(self).mode == PomodoroMode::Break,
            old(self).remaining_seconds > 0,
            mono_now_ms >= 0,
            valid_timestamp(utc_now_s as int),
        ensures
            *final(self) == skip_break_step(*old(self), mono_now_ms, utc_now_s),
            cmds == (HostCommands { minimize: true, set_fullscreen: Some(false) }),
            final(self).well_formed(),
    {
        self.mode = PomodoroMode::Work;
        self.remaining_seconds = WORK_DURATION;
        self.state = TimerState::Running;
        self.last_tick = Some(mono_now_ms);
        self.work_session_start = Some(utc_now_s);
        HostCommands { minimize: true, set_fullscreen: Some(false) }
    }

    /// During an unfinished break, let the user push the break window out of
    /// the way: the host is asked to leave fullscreen, the countdown keeps
    /// running, and the flag stays set until the next break begins.
    pub fn minimize_break_window(&mut self) -> (cmds: HostCommands)
        requires
            old(self).well_formed(),
            old(self).mode == PomodoroMode::Break,
            old(self).remaining_seconds > 0,
            !old(self).break_window_minimized,
        ensures
            *final(self) == minimize_step(*old(self)),
            cmds == (HostCommands { minimize: false, set_fullscreen: Some(false) }),
            final(self).well_formed(),
    {
        self.break_window_minimized = true;
        HostCommands { minimize: false, set_fullscreen: Some(false) }
    }

    /// Note that the record this timer just emitted was durably saved, so
    /// the day's session count grows by one. A failed save leaves the count
    /// as it was, simply by never making this call.
    pub fn record_saved(&mut self)
        requires
            old(self).today_session_count < usize::MAX,
        ensures
            *final(self) == (PomodoroTimer {
                today_session_count: (old(self).today_session_count + 1) as usize,
                ..*old(self)
            }),
            old(self).well_formed() ==> final(self).well_formed(),
    {
        self.today_session_count = self.today_session_count + 1;
    }

    /// Consume at most one elapsed second of wall-clock time. While running,
    /// once a full second has passed since the tick anchor, the countdown
    /// loses one second and the anchor moves to the present reading — extra
    /// calls within the same second change nothing, and several elapsed
    /// seconds still count as one. A countdown that reaches zero completes
    /// the interval: a work interval yields its session record and the break
    /// begins running at once; a finished break stops and waits for the
    /// user, asking the host to leave fullscreen unless the break window was
    /// already minimized.
    pub fn tick(&mut self, mono_now_ms: i64, utc_now_s: i64) -> (r: TickOutcome)
        requires
            old(self).well_formed(),
            mono_now_ms >= 0,
            valid_timestamp(utc_now_s as int),
            old(self).last_tick is Some ==> old(self).last_tick->0 <= mono_now_ms,
        ensures
            *final(self) == tick_step(*old(self), mono_now_ms, utc_now_s),
            r.completed == tick_event(*old(self), mono_now_ms, utc_now_s),
            r.commands == tick_commands(*old(self), mono_now_ms),
            final(self).well_formed(),
            r.completed is Some ==> r.completed->0.wf(),
    {
        let mut completed: Option<WorkSession> = None;
        let mut commands = HostCommands::none();
        if self.state == TimerState::Running {
            if let Some(last) = self.last_tick {
                if mono_now_ms - last >= 1000 {
                    self.last_tick = Some(mono_now_ms);
                    if self.remaining_seconds > 0 {
                        self.remaining_seconds = self.remaining_seconds - 1;
                    }
                    if self.remaining_seconds == 0 {
                        match self.mode {
                            PomodoroMode::Work => {
                                if let Some(start_time) = self.work_session_start {
                                    completed = Some(WorkSession::new(start_time, utc_now_s));
                                }
                                commands = self.start_break(mono_now_ms);
                            },
                            PomodoroMode::Break => {
                                self.state = TimerState::Stopped;
                                self.last_tick = None;
                                if !self.break_window_minimized {
                                    commands = HostCommands {
                                        minimize: false,
                                        set_fullscreen: Some(false),
                                    };
                                }
                            },
                        }
                    }
                }
            }
        }
        TickOutcome { commands, completed }
    }
}

impl PomodoroTimer {
    /// The remaining time rendered as zero-padded `MM:SS`.
    pub fn format_time(&self) -> (s: String)
        requires
            self.well_formed(),
        ensures
            s@ == mmss_text(self.remaining_seconds as int),
    {
        let minutes = self.remaining_seconds / 60;
        let seconds = self.remaining_seconds % 60;
        let mut s = String::new();
        s.append(digit_str(minutes / 10));
        s.append(digit_str(minutes % 10));
        s.append(":");
        s.append(digit_str(seconds / 10));
        s.append(digit_str(seconds % 10));
        proof {
            reveal_strlit(":");
            assert(s@ =~= mmss_text(self.remaining_seconds as int));
        }
        s
    }

    /// The text shown beside the timer in the host's menu bar: the
    /// countdown while running, its paused form while paused, and the idle
    /// word for the current mode while stopped.
    pub open spec fn menu_bar_title_text(self) -> Seq<char> {
        match self.state {
            TimerState::Stopped => match self.mode {
                PomodoroMode::Work => "Ready"@,
                PomodoroMode::Break => "Break Done"@,
            },
            TimerState::Paused => mmss_text(self.remaining_seconds as int) + " (Paused)"@,
            TimerState::Running => mmss_text(self.remaining_seconds as int),
        }
    }

    /// The menu-bar title for the current state.
    pub fn menu_bar_title(&self) -> (s: String)
        requires
            self.well_formed(),
        ensures
            s@ == self.menu_bar_title_text(),
    {
        match self.state {
            TimerState::Stopped => match self.mode {
                PomodoroMode::Work => String::from_str("Ready"),
                PomodoroMode::Break => String::from_str("Break Done"),
            },
            TimerState::Paused => self.format_time().concat(" (Paused)"),
            TimerState::Running => self.format_time(),
        }
    }
}

/// The decimal digit character for a value below ten.
pub open spec fn digit_char(d: int) -> char {
    if d == 0 {
        '0'
    } else if d == 1 {
        '1'
    } else if d == 2 {
        '2'
    } else if d == 3 {
        '3'
    } else if d == 4 {
        '4'
    } else if d == 5 {
        '5'
    } else if d == 6 {
        '6'
    } else if d == 7 {
        '7'
    } else if d == 8 {
        '8'
    } else {
        '9'
    }
}

/// A remaining time rendered as `MM:SS`, both parts zero-padded; faithful
/// for countdowns below one hundred minutes.
pub open spec fn mmss_text(rem: int) -> Seq<char> {
    seq![
        digit_char((rem / 60) / 10),
        digit_char((rem / 60) % 10),
        ':',
        digit_char((rem % 60) / 10),
        digit_char((rem % 60) % 10),
    ]
}

/// The one-character text of a decimal digit.
fn digit_str(d: u64) -> (s: &'static str)
    requires
        d < 10,
    ensures
        s@.len() == 1,
        s@[0] == digit_char(d as int),
{
    proof {
        reveal_strlit("0");
        reveal_strlit("1");
        reveal_strlit("2");
        reveal_strlit("3");
        reveal_strlit("4");
        reveal_strlit("5");
        reveal_strlit("6");
        reveal_strlit("7");
        reveal_strlit("8");
        reveal_strlit("9");
    }
    if d == 0 {
        "0"
    } else if d == 1 {
        "1"
    } else if d == 2 {
        "2"
    } else if d == 3 {
        "3"
    } else if d == 4 {
        "4"
    } else if d == 5 {
        "5"
    } else if d == 6 {
        "6"
    } else if d == 7 {
        "7"
    } else if d == 8 {
        "8"
    } else {
        "9"
    }
}

/// The state [`PomodoroTimer::new`] returns.
pub open spec fn initial_timer(count: usize) -> PomodoroTimer {
    PomodoroTimer {
        mode: PomodoroMode::Work,
        state: TimerState::Stopped,
        remaining_seconds: WORK_DURATION,
        last_tick: None,
        work_session_start: None,
        today_session_count: count,
        break_window_minimized: false,
    }
}

/// The state after a start (or resume) at the given clock readings.
pub open spec fn start_step(t: PomodoroTimer, mono: i64, utc: i64) -> PomodoroTimer {
    if t.mode == PomodoroMode::Work && t.work_session_start is None {
        PomodoroTimer {
            state: TimerState::Running,
            last_tick: Some(mono),
            work_session_start: Some(utc),
            ..t
        }
    } else {
        PomodoroTimer { state: TimerState::Running, last_tick: Some(mono), ..t }
    }
}

/// The commands a start returns: the host minimizes only when a fresh work
/// interval begins.
pub open spec fn start_commands(t: PomodoroTimer) -> HostCommands {
    if t.mode == PomodoroMode::Work && t.work_session_start is None {
        HostCommands { minimize: true, set_fullscreen: None }
    } else {
        HostCommands::none_spec()
    }
}

/// The state after a pause.
pub open spec fn pause_step(t: PomodoroTimer) -> PomodoroTimer {
    PomodoroTimer { state: TimerState::Paused, last_tick: None, ..t }
}

/// The state after a restart: stopped at the full length of the current
/// mode, the work-interval start abandoned.
pub open spec fn restart_step(t: PomodoroTimer) -> PomodoroTimer {
    PomodoroTimer {
        state: TimerState::Stopped,
        remaining_seconds: duration_for(t.mode),
        last_tick: None,
        work_session_start: None,
        ..t
    }
}

/// The state after the break that follows a completed work interval begins.
pub open spec fn break_start_step(t: PomodoroTimer, mono: i64) -> PomodoroTimer {
    PomodoroTimer {
        mode: PomodoroMode::Break,
        remaining_seconds: BREAK_DURATION,
        state: TimerState::Running,
        last_tick: Some(mono),
        work_session_start: None,
        break_window_minimized: false,
        ..t
    }
}

/// The state after a fully elapsed break returns to a stopped work interval.
pub open spec fn work_start_step(t: PomodoroTimer) -> PomodoroTimer {
    PomodoroTimer {
        mode: PomodoroMode::Work,
        remaining_seconds: WORK_DURATION,
        state: TimerState::Stopped,
        last_tick: None,
        ..t
    }
}

/// The state after an unfinished break is skipped for a fresh running work
/// interval.
pub open spec fn skip_break_step(t: PomodoroTimer, mono: i64, utc: i64) -> PomodoroTimer {
    PomodoroTimer {
        mode: PomodoroMode::Work,
        remaining_seconds: WORK_DURATION,
        state: TimerState::Running,
        last_tick: Some(mono),
        work_session_start: Some(utc),
        ..t
    }
}

/// The state after the break window is minimized.
pub open spec fn minimize_step(t: PomodoroTimer) -> PomodoroTimer {
    PomodoroTimer { break_window_minimized: true, ..t }
}

/// Whether a tick at the given monotonic reading consumes a second: the
/// timer runs and at least a full second has passed since the anchor.
pub open spec fn tick_fires(t: PomodoroTimer, mono: i64) -> bool {
    &&& t.state == TimerState::Running
    &&& t.last_tick is Some
    &&& mono - t.last_tick->0 >= 1000
}

/// The remaining seconds after a firing tick: one less, floored at zero.
pub open spec fn ticked_remaining(t: PomodoroTimer) -> u64 {
    if t.remaining_seconds > 0 {
        (t.remaining_seconds - 1) as u64
    } else {
        0u64
    }
}

/// The state after one tick at the given clock readings.
pub open spec fn tick_step(t: PomodoroTimer, mono: i64, utc: i64) -> PomodoroTimer {
    if !tick_fires(t, mono) {
        t
    } else if ticked_remaining(t) == 0 {
        match t.mode {
            PomodoroMode::Work => break_start_step(t, mono),
            PomodoroMode::Break => PomodoroTimer {
                remaining_seconds: 0,
                state: TimerState::Stopped,
                last_tick: None,
                ..t
            },
        }
    } else {
        PomodoroTimer { remaining_seconds: ticked_remaining(t), last_tick: Some(mono), ..t }
    }
}

/// The session record a tick emits: present exactly when the tick completes
/// a work interval whose start was recorded.
pub open spec fn tick_event(t: PomodoroTimer, mono: i64, utc: i64) -> Option<WorkSession> {
    if tick_fires(t, mono) && ticked_remaining(t) == 0 && t.mode == PomodoroMode::Work
        && t.work_session_start is Some {
        Some(
            WorkSession {
                started_at: t.work_session_start->0,
                completed_at: utc,
                duration_seconds: (utc - t.work_session_start->0) as i64,
            },
        )
    } else {
        None
    }
}

/// The commands a tick returns: fullscreen on when a break begins, off when
/// a break ends with its window still up, nothing otherwise.
pub open spec fn tick_commands(t: PomodoroTimer, mono: i64) -> HostCommands {
    if tick_fires(t, mono) && ticked_remaining(t) == 0 {
        match t.mode {
            PomodoroMode::Work => HostCommands { minimize: false, set_fullscreen: Some(true) },
            PomodoroMode::Break => if !t.break_window_minimized {
                HostCommands { minimize: false, set_fullscreen: Some(false) }
            } else {
                HostCommands::none_spec()
            },
        }
    } else {
        HostCommands::none_spec()
    }
}

/// The timer after a whole sequence of ticks, applied in order; each entry
/// is one pair of clock readings (monotonic milliseconds, UTC seconds).
pub open spec fn run_ticks(t: PomodoroTimer, ticks: Seq<(i64, i64)>) -> PomodoroTimer
    decreases ticks.len(),
{
    if ticks.len() == 0 {
        t
    } else {
        let prev = run_ticks(t, ticks.drop_last());
        tick_step(prev, ticks.last().0, ticks.last().1)
    }
}

/// Monotonic readings that sit at least one second after the given anchor
/// and at least one second apart from each other.
pub open spec fn spaced_ticks(anchor: i64, ticks: Seq<(i64, i64)>) -> bool {
    &&& (ticks.len() > 0 ==> ticks[0].0 - anchor >= 1000)
    &&& (forall|i: int| 1 <= i < ticks.len() ==> (#[trigger] ticks[i]).0 - ticks[i - 1].0 >= 1000)
}

/// While the timer runs, ticks spaced at least one second apart each take
/// exactly one second off the countdown, for as long as it stays above
/// zero; nothing else about the timer changes but the tick anchor.
pub proof fn lemma_ticks_count_down(t: PomodoroTimer, ticks: Seq<(i64, i64)>)
    requires
        t.state == TimerState::Running,
        t.last_tick is Some,
        spaced_ticks(t.last_tick->0, ticks),
        ticks.len() < t.remaining_seconds,
    ensures
        run_ticks(t, ticks) == (PomodoroTimer {
            remaining_seconds: (t.remaining_seconds - ticks.len()) as u64,
            last_tick: if ticks.len() == 0 {
                t.last_tick
            } else {
                Some(ticks.last().0)
            },
            ..t
        }),
    decreases ticks.len(),
{
    if ticks.len() == 0 {
    } else {
        let prefix = ticks.drop_last();
        assert(spaced_ticks(t.last_tick->0, prefix)) by {
            assert(forall|i: int|
                1 <= i < prefix.len() ==> (#[trigger] prefix[i]).0 - prefix[i - 1].0 >= 1000);
        }
        lemma_ticks_count_down(t, prefix);
        let prev = run_ticks(t, prefix);
        if prefix.len() == 0 {
            assert(ticks.last() == ticks[0]);
        } else {
            assert(prev.last_tick->0 == ticks[ticks.len() - 2].0);
            assert(ticks.last().0 - ticks[ticks.len() - 2].0 >= 1000);
        }
        assert(tick_fires(prev, ticks.last().0));
        assert(ticked_remaining(prev) == t.remaining_seconds - ticks.len());
    }
}

/// A timer that is not running ignores ticks entirely: however many arrive,
/// the state is unchanged and no session record is ever emitted.
pub proof fn lemma_idle_ticks_change_nothing(t: PomodoroTimer, ticks: Seq<(i64, i64)>)
    requires
        t.state != TimerState::Running,
    ensures
        run_ticks(t, ticks) == t,
        forall|i: int|
            0 <= i < ticks.len() ==> tick_event(
                run_ticks(t, ticks.take(i)),
                ticks[i].0,
                ticks[i].1,
            ) is None,
    decreases ticks.len(),
{
    if ticks.len() == 0 {
    } else {
        let prefix = ticks.drop_last();
        lemma_idle_ticks_change_nothing(t, prefix);
        assert forall|i: int| 0 <= i < ticks.len() implies tick_event(
            run_ticks(t, ticks.take(i)),
            ticks[i].0,
            ticks[i].1,
        ) is None by {
            assert(ticks.take(i) =~= prefix.take(i));
            if i < ticks.len() - 1 {
                assert(ticks[i] == prefix[i]);
            } else {
                assert(run_ticks(t, prefix.take(i)) == t) by {
                    lemma_idle_ticks_change_nothing(t, prefix.take(i));
                }
            }
        }
    }
}

/// Pausing and then resuming loses nothing across the pause boundary: the
/// remaining time, the recorded work-interval start and the mode come back
/// exactly as they were, with the countdown running again.
pub proof fn lemma_pause_resume_preserves(t: PomodoroTimer, mono: i64, utc: i64)
    requires
        t.well_formed(),
        t.state == TimerState::Running,
    ensures
        start_step(pause_step(t), mono, utc).remaining_seconds == t.remaining_seconds,
        start_step(pause_step(t), mono, utc).work_session_start == t.work_session_start,
        start_step(pause_step(t), mono, utc).mode == t.mode,
        start_step(pause_step(t), mono, utc).state == TimerState::Running,
{
}

/// A restart abandons the interval for good: the restarted timer ignores
/// every later tick and emits no session record, however many ticks arrive,
/// until it is started again.
pub proof fn lemma_restart_never_records(t: PomodoroTimer, ticks: Seq<(i64, i64)>)
    ensures
        run_ticks(restart_step(t), ticks) == restart_step(t),
        forall|i: int|
            0 <= i < ticks.len() ==> tick_event(
                run_ticks(restart_step(t), ticks.take(i)),
                ticks[i].0,
                ticks[i].1,
            ) is None,
{
    lemma_idle_ticks_change_nothing(restart_step(t), ticks);
}

/// A running work interval whose start was recorded at UTC second `T`,
/// ticked once per elapsed second with the `i`-th tick observing UTC second
/// `T + i`, emits no record before its last second; the final tick emits
/// exactly the record `(T, T + D, D)` for the interval's remaining length
/// `D`, and leaves the timer in a running break of full length.
pub proof fn lemma_work_interval_completes_exactly(t: PomodoroTimer, ticks: Seq<(i64, i64)>)
    requires
        t.well_formed(),
        t.mode == PomodoroMode::Work,
        t.state == TimerState::Running,
        t.remaining_seconds > 0,
        spaced_ticks(t.last_tick->0, ticks),
        ticks.len() == t.remaining_seconds,
        forall|i: int|
            0 <= i < ticks.len() ==> ticks[i].1 == t.work_session_start->0 + i + 1,
    ensures
        forall|i: int|
            0 <= i < ticks.len() - 1 ==> tick_event(
                run_ticks(t, ticks.take(i)),
                ticks[i].0,
                ticks[i].1,
            ) is None,
        tick_event(
            run_ticks(t, ticks.take(ticks.len() - 1)),
            ticks.last().0,
            ticks.last().1,
        ) == Some(
            WorkSession {
                started_at: t.work_session_start->0,
                completed_at: ticks.last().1,
                duration_seconds: t.remaining_seconds as i64,
            },
        ),
        ticks.last().1 == t.work_session_start->0 + t.remaining_seconds,
        run_ticks(t, ticks) == break_start_step(
            run_ticks(t, ticks.take(ticks.len() - 1)),
            ticks.last().0,
        ),
        run_ticks(t, ticks).mode == PomodoroMode::Break,
        run_ticks(t, ticks).state == TimerState::Running,
        run_ticks(t, ticks).remaining_seconds == BREAK_DURATION,
        run_ticks(t, ticks).today_session_count == t.today_session_count,
{
    let len = ticks.len() as int;
    assert forall|i: int| 0 <= i < len - 1 implies tick_event(
        run_ticks(t, ticks.take(i)),
        ticks[i].0,
        ticks[i].1,
    ) is None by {
        assert(spaced_ticks(t.last_tick->0, ticks.take(i)));
        lemma_ticks_count_down(t, ticks.take(i));
        assert(ticked_remaining(run_ticks(t, ticks.take(i))) == t.remaining_seconds - i - 1);
    }
    let prefix = ticks.take(len - 1);
    assert(spaced_ticks(t.last_tick->0, prefix));
    lemma_ticks_count_down(t, prefix);
    let prev = run_ticks(t, prefix);
    assert(prev.remaining_seconds == 1);
    if prefix.len() == 0 {
        assert(ticks.last() == ticks[0]);
    } else {
        assert(prev.last_tick->0 == ticks[len - 2].0);
        assert(ticks.last().0 - ticks[len - 2].0 >= 1000);
    }
    assert(tick_fires(prev, ticks.last().0));
    assert(ticked_remaining(prev) == 0);
    assert(ticks.last().1 == t.work_session_start->0 + len);
    assert((ticks.last().1 - t.work_session_start->0) as i64 == t.remaining_seconds as i64);
    assert(prefix =~= ticks.drop_last());
}

} // verus!
