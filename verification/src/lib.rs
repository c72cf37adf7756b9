//! Core of a Pomodoro-style desktop timer: a work/break countdown state
//! machine and an append-only store of completed work sessions.
//!
//! The timer advances on wall-clock ticks handed in by a host redraw loop,
//! emits a session record each time a work interval completes, and keeps a
//! cached count of the sessions completed since local midnight.

use vstd::prelude::*;

pub mod clock;
pub mod db;
pub mod models;
pub mod timer;

verus! {

use crate::db::{count_started_at_or_after, Database};
use crate::models::{valid_timestamp, WorkSession, TS_MAX};
use crate::timer::{
    initial_timer, tick_commands, tick_event, tick_step, HostCommands, PomodoroMode,
    PomodoroTimer, TimerState, BREAK_DURATION,
};

/// The application core: the timer state machine together with the session
/// store it persists completed work intervals to.
pub struct PomodoroApp {
    pub timer: PomodoroTimer,
    pub db: Database,
}

impl PomodoroApp {
    /// Wrap a store, seeding the day's session count from it once; a
    /// failing count query is silently read as zero.
    pub fn new(db: Database) -> (a: PomodoroApp)
        ensures
            a.timer == initial_timer(a.timer.today_session_count),
            a.timer.well_formed(),
            a.db == db,
            (exists|m: int|
                valid_timestamp(m) && a.timer.today_session_count == count_started_at_or_after(
                    db.rows(),
                    m,
                )) || a.timer.today_session_count == 0,
    {
        let today_session_count = match db.get_sessions_count_for_today() {
            Ok(n) => n,
            Err(_) => 0,
        };
        PomodoroApp { timer: PomodoroTimer::new(today_session_count), db }
    }

    /// Advance the timer by one tick at the given clock readings. When the
    /// tick completes a work interval, hand its record to the store: on a
    /// successful save exactly that row is appended and the day's count
    /// grows by one; on a failed save the store and the count stay as they
    /// were, the record is dropped without retry, and the break begins
    /// regardless.
    pub fn update_timer_at(&mut self, mono_now_ms: i64, utc_now_s: i64) -> (cmds: HostCommands)
        requires
            old(self).timer.well_formed(),
            old(self).timer.today_session_count < usize::MAX,
            mono_now_ms >= 0,
            valid_timestamp(utc_now_s as int),
            old(self).timer.last_tick is Some ==> old(self).timer.last_tick->0 <= mono_now_ms,
        ensures
            cmds == tick_commands(old(self).timer, mono_now_ms),
            final(self).timer.well_formed(),
            tick_event(old(self).timer, mono_now_ms, utc_now_s) is Some
                ==> final(self).timer.mode == PomodoroMode::Break
                && final(self).timer.state == TimerState::Running
                && final(self).timer.remaining_seconds == BREAK_DURATION,
            ({
                let stepped = tick_step(old(self).timer, mono_now_ms, utc_now_s);
                let ev = tick_event(old(self).timer, mono_now_ms, utc_now_s);
                match ev {
                    Option::None => final(self).timer == stepped && final(self).db.rows() == old(
                        self,
                    ).db.rows(),
                    Option::Some(s) => (final(self).db.rows() == old(self).db.rows().push(
                        (s.started_at as int, s.completed_at as int, s.duration_seconds as int),
                    ) && final(self).timer == (PomodoroTimer {
                        today_session_count: (stepped.today_session_count + 1) as usize,
                        ..stepped
                    })) || (final(self).db.rows() == old(self).db.rows() && final(self).timer
                        == stepped),
                }
            }),
    {
        let outcome = self.timer.tick(mono_now_ms, utc_now_s);
        if let Some(session) = outcome.completed {
            match self.db.save_work_session(&session) {
                Ok(_) => self.timer.record_saved(),
                Err(_) => {},
            }
        }
        outcome.commands
    }

    /// Advance the timer on the host's current clock readings. Readings the
    /// timer cannot use — an instant before the Unix epoch or beyond the
    /// storable range, or a monotonic reading behind the anchor — are
    /// ignored, together with any tick they would have fired. Whatever the
    /// clocks said, the store either keeps its rows or gains exactly one
    /// well-formed session row, counted.
    pub fn update_timer(&mut self) -> (cmds: HostCommands)
        requires
            old(self).timer.well_formed(),
            old(self).timer.today_session_count < usize::MAX,
        ensures
            final(self).timer.well_formed(),
            final(self).timer.today_session_count >= old(self).timer.today_session_count,
            final(self).db.rows() == old(self).db.rows() || (exists|s: WorkSession|
                s.wf() && final(self).db.rows() == old(self).db.rows().push(
                    (s.started_at as int, s.completed_at as int, s.duration_seconds as int),
                ) && final(self).timer.today_session_count == old(
                    self,
                ).timer.today_session_count + 1),
    {
        let mono_now_ms = crate::clock::now_millis();
        let utc_now_s = crate::clock::now_utc_seconds();
        let anchor_ok = match self.timer.last_tick {
            Some(l) => l <= mono_now_ms,
            None => true,
        };
        if mono_now_ms >= 0 && 0 <= utc_now_s && utc_now_s < TS_MAX && anchor_ok {
            let cmds = self.update_timer_at(mono_now_ms, utc_now_s);
            proof {
                let t0 = old(self).timer;
                match tick_event(t0, mono_now_ms, utc_now_s) {
                    Option::Some(s) => {
                        assert(s.wf());
                        if self.db.rows() != old(self).db.rows() {
                            assert(self.db.rows() == old(self).db.rows().push(
                                (
                                    s.started_at as int,
                                    s.completed_at as int,
                                    s.duration_seconds as int,
                                ),
                            ));
                            assert(self.timer.today_session_count == t0.today_session_count + 1);
                        }
                    },
                    Option::None => {},
                }
            }
            cmds
        } else {
            HostCommands::none()
        }
    }
}

} // verus!
