//! The countdown timer and the work/break cycle engine.
//!
//! Time is a number of whole seconds supplied by the caller; the timer
//! compares instants instead of counting ticks, so a delayed update simply
//! observes a larger elapsed value.

use crate::tasks::Task;
use crate::text::{dec_digits, u64_to_string};
use vstd::prelude::*;

verus! {

/// A wall-clock countdown: a target duration, a reference start instant, the
/// accumulated elapsed time, and a paused flag.  All values are in seconds.
///
/// `elapsed >= dur` is the finished condition; it is checked on demand and
/// never asserted, so `elapsed` may grow past `dur`.
pub struct Timer {
    /// The reference instant subtracted from the current time on update.
    pub start: u64,
    /// The target duration.
    pub dur: u64,
    /// The elapsed time observed by the last update while running.
    pub elapsed: u64,
    /// While set, updates leave `elapsed` frozen.
    pub paused: bool,
}

impl Timer {
    /// The timer produced by `new`: nothing elapsed, running, started now.
    pub open spec fn spec_new(dur: u64, now: u64) -> Timer {
        Timer { start: now, dur, elapsed: 0, paused: false }
    }

    /// The timer after an update at `now`: while running and with `now` not
    /// before the reference start, `elapsed` becomes `now - start`.
    pub open spec fn spec_update(self, now: u64) -> Timer {
        if !self.paused && now >= self.start {
            Timer { elapsed: (now - self.start) as u64, ..self }
        } else {
            self
        }
    }

    /// Whether the timer has run for its full duration.
    pub open spec fn spec_is_finished(self) -> bool {
        self.elapsed >= self.dur
    }

    /// The timer after pausing: `elapsed` is frozen at its current value.
    /// Pausing an already paused timer changes nothing.
    pub open spec fn spec_pause(self) -> Timer {
        Timer { paused: true, ..self }
    }

    /// The timer after a pause toggle at `now`.  A running timer pauses.  A
    /// paused timer resumes with the reference start shifted to
    /// `now - elapsed`, so `elapsed` continues from exactly where it stopped
    /// and the target duration is untouched.
    pub open spec fn spec_toggle_pause(self, now: u64) -> Timer {
        if !self.paused {
            self.spec_pause()
        } else {
            Timer { paused: false, start: (now - self.elapsed) as u64, ..self }
        }
    }

    /// Create a timer for `dur` seconds, starting at instant `now`.
    pub fn new(dur: u64, now: u64) -> (t: Timer)
        ensures
            t == Timer::spec_new(dur, now),
    {
        Timer { start: now, dur, elapsed: 0, paused: false }
    }

    /// Observe the current instant.  While running, `elapsed` becomes the
    /// time since the reference start; while paused, nothing changes.
    pub fn update(&mut self, now: u64)
        ensures
            *final(self) == old(self).spec_update(now),
    {
        if !self.paused && now >= self.start {
            self.elapsed = now - self.start;
        }
    }

    /// Whether the timer has run for its full duration.
    pub fn is_finished(&self) -> (r: bool)
        ensures
            r == self.spec_is_finished(),
    {
        self.elapsed >= self.dur
    }

    /// Pause a running timer, or resume a paused one from exactly where it
    /// stopped.
    pub fn toggle_pause(&mut self, now: u64)
        requires
            old(self).paused ==> now >= old(self).elapsed,
        ensures
            *final(self) == old(self).spec_toggle_pause(now),
    {
        if !self.paused {
            self.paused = true;
            return ;
        }
        self.paused = false;
        self.start = now - self.elapsed;
    }

    /// The text shown for the remaining time: a fixed token once finished,
    /// otherwise the remaining whole-second count `dur - elapsed` as hours,
    /// minutes and seconds, the hour part omitted when zero.
    pub open spec fn spec_display(self) -> Seq<char> {
        if self.spec_is_finished() {
            "Finished!"@
        } else {
            let to_go = self.dur - self.elapsed;
            let mins = to_go / 60;
            let hours = mins / 60;
            if hours > 0 {
                dec_digits(hours as nat) + "h"@ + dec_digits((mins - 60 * hours) as nat) + "m"@
                    + dec_digits((to_go % 60) as nat) + "s"@
            } else {
                dec_digits(mins as nat) + "m"@ + dec_digits((to_go % 60) as nat) + "s"@
            }
        }
    }

    /// Render the remaining time as text.
    pub fn remaining_display(&self) -> (s: String)
        ensures
            s@ == self.spec_display(),
    {
        if self.is_finished() {
            let s = "Finished!".to_owned();
            return s;
        }
        let to_go: u64 = self.dur - self.elapsed;
        let mins: u64 = to_go / 60;
        let hours: u64 = mins / 60;
        let secs: u64 = to_go % 60;
        if hours > 0 {
            let mut s = u64_to_string(hours);
            s.append("h");
            s.append(u64_to_string(mins - 60 * hours).as_str());
            s.append("m");
            s.append(u64_to_string(secs).as_str());
            s.append("s");
            assert(s@ =~= self.spec_display());
            s
        } else {
            let mut s = u64_to_string(mins);
            s.append("m");
            s.append(u64_to_string(secs).as_str());
            s.append("s");
            assert(s@ =~= self.spec_display());
            s
        }
    }
}

/// A timer of positive duration starts unfinished, and an update that
/// observes at least the full duration finishes it.
pub proof fn lemma_timer_finishes(dur: u64, t0: u64, t1: u64)
    requires
        dur > 0,
        t1 >= t0,
        t1 - t0 >= dur,
    ensures
        !Timer::spec_new(dur, t0).spec_is_finished(),
        Timer::spec_new(dur, t0).spec_update(t1).spec_is_finished(),
{
}

/// Pausing is idempotent: pausing an already paused timer changes nothing.
pub proof fn lemma_pause_idempotent(t: Timer)
    ensures
        t.spec_pause().spec_pause() == t.spec_pause(),
{
}

/// Toggling pause and then toggling again before any further update leaves
/// both the elapsed time and the duration exactly as they were, with the
/// timer running again.
pub proof fn lemma_toggle_resume(t: Timer, n1: u64, n2: u64)
    requires
        !t.paused,
        n2 >= t.elapsed,
    ensures
        t.spec_toggle_pause(n1).spec_toggle_pause(n2).elapsed == t.elapsed,
        t.spec_toggle_pause(n1).spec_toggle_pause(n2).dur == t.dur,
        !t.spec_toggle_pause(n1).spec_toggle_pause(n2).paused,
{
}

/// The phase of the work/break cycle.
#[derive(Clone, Copy, PartialEq, Eq, Structural, Debug)]
pub enum PomodoroState {
    Work,
    ShortBreak,
    LongBreak,
}

impl PomodoroState {
    /// The notification text announcing this phase.
    pub open spec fn spec_message(self) -> Seq<char> {
        match self {
            PomodoroState::Work => "Time to work!"@,
            PomodoroState::ShortBreak => "Short break time!"@,
            PomodoroState::LongBreak => "Long break time!"@,
        }
    }

    /// The notification text announcing this phase.
    pub fn message(&self) -> (m: &'static str)
        ensures
            m@ == self.spec_message(),
    {
        match self {
            PomodoroState::Work => "Time to work!",
            PomodoroState::ShortBreak => "Short break time!",
            PomodoroState::LongBreak => "Long break time!",
        }
    }

    /// The label naming this phase.
    pub open spec fn spec_label(self) -> Seq<char> {
        match self {
            PomodoroState::Work => "Work"@,
            PomodoroState::ShortBreak => "Short break"@,
            PomodoroState::LongBreak => "Long break"@,
        }
    }

    /// The label naming this phase.
    pub fn label(&self) -> (m: &'static str)
        ensures
            m@ == self.spec_label(),
    {
        match self {
            PomodoroState::Work => "Work",
            PomodoroState::ShortBreak => "Short break",
            PomodoroState::LongBreak => "Long break",
        }
    }
}

/// What a cycle transition asks of the caller: whether a work phase just
/// completed (record one cycle; the bound task may still be unsaved), the
/// completed-cycle count to persist for a saved task, and the phase entered,
/// whose message goes to the notification collaborator.
pub struct CycleEffects {
    pub work_completed: bool,
    pub set_count: Option<(u32, u32)>,
    pub state_after: PomodoroState,
}

/// The cycle engine: the phase, the running timer for it, the task being
/// worked, and the help-overlay state.
pub struct Pomodoro {
    /// The timer for the current phase.
    pub current: Timer,
    /// The task being worked; its counter grows as work phases complete.
    pub task: Task,
    /// The current phase.
    pub state: PomodoroState,
    /// Whether the help overlay is open.
    pub show_help: bool,
    /// Whether opening the help overlay paused the timer, as opposed to the
    /// user having paused it already.
    pub help_paused: bool,
}

impl Pomodoro {
    /// The counter can take one more completed work phase.
    pub open spec fn can_advance(self) -> bool {
        self.state is Work ==> self.task.pomos_finished < u32::MAX
    }

    /// The same engine with its timer replaced.
    pub open spec fn with_timer(self, t: Timer) -> Pomodoro {
        Pomodoro { current: t, ..self }
    }

    /// The engine and effects after a cycle transition at `now`.  Leaving
    /// Work increments the task's counter exactly once and enters LongBreak
    /// when the new count is a multiple of four, ShortBreak otherwise;
    /// leaving either break enters Work without touching the counter.  The
    /// new phase gets a fresh timer of its configured duration.
    pub open spec fn spec_change(self, now: u64) -> (Pomodoro, CycleEffects) {
        match self.state {
            PomodoroState::Work => {
                let n = (self.task.pomos_finished + 1) as u32;
                let st = if n % 4 == 0 {
                    PomodoroState::LongBreak
                } else {
                    PomodoroState::ShortBreak
                };
                let dur = if n % 4 == 0 {
                    self.task.long_break_secs
                } else {
                    self.task.short_break_secs
                };
                (
                    Pomodoro {
                        current: Timer::spec_new(dur, now),
                        task: Task { pomos_finished: n, ..self.task },
                        state: st,
                        ..self
                    },
                    CycleEffects {
                        work_completed: true,
                        set_count: match self.task.id {
                            Some(id) => Some((id, n)),
                            None => None,
                        },
                        state_after: st,
                    },
                )
            },
            _ => (
                Pomodoro {
                    current: Timer::spec_new(self.task.work_secs, now),
                    state: PomodoroState::Work,
                    ..self
                },
                CycleEffects { work_completed: false, set_count: None, state_after: PomodoroState::Work },
            ),
        }
    }

    /// A fresh engine at `now`: the Work phase over a default task, with a
    /// timer of its work duration.
    pub fn new(now: u64) -> (p: Pomodoro)
        ensures
            p.state is Work,
            p.task.id is None,
            p.task.desc is None,
            p.task.work_secs == crate::tasks::DEFAULT_WORK_SECS,
            p.task.short_break_secs == crate::tasks::DEFAULT_SHORT_BREAK_SECS,
            p.task.long_break_secs == crate::tasks::DEFAULT_LONG_BREAK_SECS,
            p.task.pomos_finished == 0,
            p.task.completed is None,
            p.current == Timer::spec_new(p.task.work_secs, now),
            !p.show_help,
            !p.help_paused,
    {
        let task = Task::default();
        let current = Timer::new(task.work_secs, now);
        Pomodoro { current, task, state: PomodoroState::Work, show_help: false, help_paused: false }
    }

    /// Bind the engine to a task, restarting in the Work phase with a fresh
    /// timer of the task's work duration.
    pub fn assign(self, task: Task, now: u64) -> (p: Pomodoro)
        ensures
            p.current == Timer::spec_new(task.work_secs, now),
            p.task == task,
            p.state == PomodoroState::Work,
            p.show_help == self.show_help,
            p.help_paused == self.help_paused,
    {
        let current = Timer::new(task.work_secs, now);
        Pomodoro { task, current, state: PomodoroState::Work, ..self }
    }

    /// Force a cycle transition at `now`, regardless of the timer.
    pub fn change_timers(&mut self, now: u64) -> (eff: CycleEffects)
        requires
            old(self).can_advance(),
        ensures
            *final(self) == old(self).spec_change(now).0,
            eff == old(self).spec_change(now).1,
    {
        match self.state {
            PomodoroState::Work => {
                let n = self.task.pomos_finished + 1;
                self.task.pomos_finished = n;
                let set_count = match self.task.id {
                    Some(id) => Some((id, n)),
                    None => None,
                };
                if n % 4 == 0 {
                    self.state = PomodoroState::LongBreak;
                    self.current = Timer::new(self.task.long_break_secs, now);
                } else {
                    self.state = PomodoroState::ShortBreak;
                    self.current = Timer::new(self.task.short_break_secs, now);
                }
                CycleEffects { work_completed: true, set_count, state_after: self.state }
            },
            _ => {
                self.state = PomodoroState::Work;
                self.current = Timer::new(self.task.work_secs, now);
                CycleEffects {
                    work_completed: false,
                    set_count: None,
                    state_after: PomodoroState::Work,
                }
            },
        }
    }

    /// Force the transition the skip action asks for.
    pub fn skip(&mut self, now: u64) -> (eff: CycleEffects)
        requires
            old(self).can_advance(),
        ensures
            *final(self) == old(self).spec_change(now).0,
            eff == old(self).spec_change(now).1,
    {
        self.change_timers(now)
    }

    /// Advance the timer to `now`; when it has run its full duration, make
    /// the cycle transition and return its effects.
    pub fn tick(&mut self, now: u64) -> (eff: Option<CycleEffects>)
        requires
            old(self).current.spec_update(now).spec_is_finished() ==> old(self).can_advance(),
        ensures
            !old(self).current.spec_update(now).spec_is_finished() ==> (eff is None && *final(self)
                == old(self).with_timer(old(self).current.spec_update(now))),
            old(self).current.spec_update(now).spec_is_finished() ==> ({
                let mid = old(self).with_timer(old(self).current.spec_update(now));
                &&& *final(self) == mid.spec_change(now).0
                &&& eff == Some(mid.spec_change(now).1)
            }),
    {
        self.current.update(now);
        if self.current.is_finished() {
            Some(self.change_timers(now))
        } else {
            None
        }
    }

    /// Toggle the timer's pause.
    pub fn toggle_pause(&mut self, now: u64)
        requires
            old(self).current.paused ==> now >= old(self).current.elapsed,
        ensures
            *final(self) == old(self).with_timer(old(self).current.spec_toggle_pause(now)),
    {
        self.current.toggle_pause(now);
    }

    /// The engine after toggling the help overlay.  Opening pauses a running
    /// timer and remembers having done so; closing resumes the timer only if
    /// the overlay paused it, so a pause the user chose survives the
    /// overlay.
    pub open spec fn spec_toggle_help(self, now: u64) -> Pomodoro {
        if !self.show_help {
            Pomodoro {
                show_help: true,
                help_paused: !self.current.paused,
                current: self.current.spec_pause(),
                ..self
            }
        } else {
            Pomodoro {
                show_help: false,
                help_paused: false,
                current: if self.help_paused && self.current.paused {
                    self.current.spec_toggle_pause(now)
                } else {
                    self.current
                },
                ..self
            }
        }
    }

    /// Toggle the help overlay, auto-pausing on open and auto-resuming on
    /// close unless the user had paused the timer themselves.
    pub fn toggle_help(&mut self, now: u64)
        requires
            old(self).show_help && old(self).help_paused && old(self).current.paused ==> now >= old(
                self,
            ).current.elapsed,
        ensures
            *final(self) == old(self).spec_toggle_help(now),
    {
        if !self.show_help {
            self.help_paused = !self.current.paused;
            if !self.current.paused {
                self.current.toggle_pause(now);
            }
            self.show_help = true;
        } else {
            if self.help_paused && self.current.paused {
                self.current.toggle_pause(now);
            }
            self.help_paused = false;
            self.show_help = false;
        }
    }

    /// The identity of the bound task, for completing it on leaving the
    /// session.
    pub fn complete_and_exit(&self) -> (r: Option<u32>)
        ensures
            r == self.task.id,
    {
        self.task.id
    }
}

/// The cycle rule: an engine starting on a task with no completed cycles
/// visits ShortBreak after each of the first three completed work phases and
/// LongBreak after the fourth, by which point the task's counter reads four.
pub proof fn lemma_cycle_rule(p: Pomodoro, n1: u64, n2: u64, n3: u64, n4: u64, n5: u64, n6: u64, n7: u64)
    requires
        p.state is Work,
        p.task.pomos_finished == 0,
    ensures
        ({
            let p1 = p.spec_change(n1).0;
            let p2 = p1.spec_change(n2).0;
            let p3 = p2.spec_change(n3).0;
            let p4 = p3.spec_change(n4).0;
            let p5 = p4.spec_change(n5).0;
            let p6 = p5.spec_change(n6).0;
            let p7 = p6.spec_change(n7).0;
            &&& p1.state is ShortBreak && p1.task.pomos_finished == 1
            &&& p2.state is Work
            &&& p3.state is ShortBreak && p3.task.pomos_finished == 2
            &&& p4.state is Work
            &&& p5.state is ShortBreak && p5.task.pomos_finished == 3
            &&& p6.state is Work
            &&& p7.state is LongBreak && p7.task.pomos_finished == 4
        }),
{
}

/// Leaving a break never touches the task's counter.
pub proof fn lemma_break_keeps_count(p: Pomodoro, now: u64)
    requires
        !(p.state is Work),
    ensures
        p.spec_change(now).0.task == p.task,
        p.spec_change(now).0.state is Work,
{
}

/// A rectangle of the render target, in cells.  The renderer owns the
/// geometry; the core only computes with these plain values.
#[derive(Clone, Copy, Debug)]
pub struct Rect {
    pub x: u16,
    pub y: u16,
    pub width: u16,
    pub height: u16,
}

/// Centre a box of the wanted size inside `r`, clamping the size to what
/// fits, splitting the slack evenly (the extra cell, if any, goes below and
/// to the right).
pub fn centered_rect(width: u16, height: u16, r: Rect) -> (c: Rect)
    requires
        r.x + r.width <= u16::MAX,
        r.y + r.height <= u16::MAX,
    ensures
        c.width == if width <= r.width {
            width
        } else {
            r.width
        },
        c.height == if height <= r.height {
            height
        } else {
            r.height
        },
        c.x == r.x + (r.width - c.width) / 2,
        c.y == r.y + (r.height - c.height) / 2,
        c.x + c.width <= r.x + r.width,
        c.y + c.height <= r.y + r.height,
{
    let w = if width <= r.width {
        width
    } else {
        r.width
    };
    let h = if height <= r.height {
        height
    } else {
        r.height
    };
    let x = r.x + (r.width - w) / 2;
    let y = r.y + (r.height - h) / 2;
    Rect { x, y, width: w, height: h }
}

} // verus!
