//! The top-level session machine and the event vocabulary.
//!
//! [`SessionState`] is exactly one of the task browser, an active pomodoro
//! session, or the absorbing terminal state.  It consumes plain key events
//! and periodic ticks, updates itself by value, and hands every storage or
//! notification demand back to the caller as an [`Action`].

use crate::args::Command;
use crate::pomodoro::{CycleEffects, Pomodoro, Timer};
use crate::tasks::{Task, TaskTableGroup, TasksState};
use vstd::prelude::*;

verus! {

/// A key, reduced to what the session machine distinguishes.
#[derive(Clone, Copy, Debug)]
pub enum KeyCode {
    Char(char),
    Enter,
    Esc,
    Tab,
    BackTab,
    Up,
    Down,
    Backspace,
    Other,
}

/// One user input: a key and whether the control modifier was held.
#[derive(Clone, Copy, Debug)]
pub struct KeyEvent {
    pub code: KeyCode,
    pub ctrl: bool,
}

impl KeyEvent {
    /// The global force-quit combination, honoured before any per-state
    /// handling.
    pub open spec fn is_global_quit(self) -> bool {
        self.ctrl && (self.code matches KeyCode::Char(c) && c == 'c')
    }
}

/// What the browser reports upward after a key: nothing, a request to end
/// the session loop, or a task to begin working on.
pub enum AppMessage {
    DoNothing,
    Finish,
    Begin(Task),
}

/// The outside work a step asks for.  The caller performs it and, for the
/// refresh-shaped actions, feeds the freshly read tasks back through
/// [`SessionState::refresh`] or [`SessionState::task_saved`].
pub enum Action {
    /// No outside work.
    Nothing,
    /// A cycle boundary: record the completed work phase and the new counter
    /// as the effects say, and notify with the entered phase's message.
    Transitioned(CycleEffects),
    /// Mark the task complete in the store (when it was ever saved), then
    /// re-read the tasks and refresh the browser.
    CompleteAndRefresh { id: Option<u32> },
    /// Re-read the tasks and refresh the browser.
    Refresh,
    /// Persist this draft, then hand the stored task to `task_saved`.
    SaveDraft(Task),
}

/// The top-level state: browsing tasks, running a session, or terminated.
/// Terminated is absorbing; no step leaves it.
pub enum SessionState {
    TaskBrowser(TasksState),
    ActiveSession(Pomodoro),
    Terminated,
}

impl SessionState {
    /// The browser, when current, is well formed.
    pub open spec fn wf(self) -> bool {
        self matches SessionState::TaskBrowser(ts) ==> ts.wf()
    }

    /// What a key step needs of the clock: the session timer operations that
    /// subtract from `now` must not underflow, and a forced transition must
    /// have room in the counter.
    pub open spec fn key_requires(self, ev: KeyEvent, now: u64) -> bool {
        match self {
            SessionState::ActiveSession(p) => !ev.is_global_quit() ==> match ev.code {
                KeyCode::Char(c) => {
                    &&& c == 'p' ==> (p.current.paused ==> now >= p.current.elapsed)
                    &&& c == 'n' ==> p.can_advance()
                    &&& c == '?' ==> (p.show_help && p.help_paused && p.current.paused ==> now
                        >= p.current.elapsed)
                },
                _ => true,
            },
            _ => true,
        }
    }

    /// How a key at `now` relates the state before to the state after and
    /// the action handed out.
    pub open spec fn key_step(
        pre: SessionState,
        ev: KeyEvent,
        now: u64,
        post: SessionState,
        act: Action,
    ) -> bool {
        if pre is Terminated {
            post is Terminated && act is Nothing
        } else if ev.is_global_quit() {
            post is Terminated && act is Nothing
        } else {
            match pre {
                SessionState::TaskBrowser(ts) => exists|ts2: TasksState, msg: AppMessage, a0: Action|
                    {
                        &&& #[trigger] TasksState::browser_key_step(ts, ev, ts2, msg, a0)
                        &&& match msg {
                            AppMessage::DoNothing => post == SessionState::TaskBrowser(ts2) && act
                                == a0,
                            AppMessage::Finish => post is Terminated && act is Nothing,
                            AppMessage::Begin(t) => (post matches SessionState::ActiveSession(p) && {
                                &&& p.task == t
                                &&& p.state is Work
                                &&& p.current == Timer::spec_new(t.work_secs, now)
                                &&& !p.show_help
                                &&& !p.help_paused
                            }) && act is Nothing,
                        }
                    },
                SessionState::ActiveSession(p) => match ev.code {
                    KeyCode::Char(c) => if c == 'p' {
                        post == SessionState::ActiveSession(
                            p.with_timer(p.current.spec_toggle_pause(now)),
                        ) && act is Nothing
                    } else if c == 'n' {
                        post == SessionState::ActiveSession(p.spec_change(now).0) && act
                            == Action::Transitioned(p.spec_change(now).1)
                    } else if c == 'q' {
                        post is Terminated && act is Nothing
                    } else if c == '?' {
                        post == SessionState::ActiveSession(p.spec_toggle_help(now)) && act
                            is Nothing
                    } else {
                        post == pre && act is Nothing
                    },
                    KeyCode::Enter => (post matches SessionState::TaskBrowser(b)
                        && TasksState::fresh_browser(b, Seq::empty(), Seq::empty(), 0)) && act
                        == (Action::CompleteAndRefresh { id: p.task.id }),
                    KeyCode::Esc => (post matches SessionState::TaskBrowser(b)
                        && TasksState::fresh_browser(b, Seq::empty(), Seq::empty(), 0)) && act
                        is Refresh,
                    _ => post == pre && act is Nothing,
                },
                SessionState::Terminated => false,
            }
        }
    }

    /// Handle one key at `now`, consuming the state and producing the next
    /// state and the outside work it asks for.
    pub fn handle_key_event(self, ev: KeyEvent, now: u64) -> (r: (SessionState, Action))
        requires
            self.wf(),
            self.key_requires(ev, now),
        ensures
            r.0.wf(),
            SessionState::key_step(self, ev, now, r.0, r.1),
    {
        match self {
            SessionState::Terminated => (SessionState::Terminated, Action::Nothing),
            SessionState::TaskBrowser(mut ts) => {
                if ev.ctrl {
                    if let KeyCode::Char(c) = ev.code {
                        if c == 'c' {
                            return (SessionState::Terminated, Action::Nothing);
                        }
                    }
                }
                let (msg, act) = ts.handle_key_event(ev);
                match msg {
                    AppMessage::DoNothing => (SessionState::TaskBrowser(ts), act),
                    AppMessage::Finish => (SessionState::Terminated, Action::Nothing),
                    AppMessage::Begin(t) => (
                        SessionState::ActiveSession(Pomodoro::new(now).assign(t, now)),
                        Action::Nothing,
                    ),
                }
            },
            SessionState::ActiveSession(mut p) => {
                if ev.ctrl {
                    if let KeyCode::Char(c) = ev.code {
                        if c == 'c' {
                            return (SessionState::Terminated, Action::Nothing);
                        }
                    }
                }
                match ev.code {
                    KeyCode::Char(c) => if c == 'p' {
                        p.toggle_pause(now);
                        (SessionState::ActiveSession(p), Action::Nothing)
                    } else if c == 'n' {
                        let eff = p.skip(now);
                        (SessionState::ActiveSession(p), Action::Transitioned(eff))
                    } else if c == 'q' {
                        (SessionState::Terminated, Action::Nothing)
                    } else if c == '?' {
                        p.toggle_help(now);
                        (SessionState::ActiveSession(p), Action::Nothing)
                    } else {
                        (SessionState::ActiveSession(p), Action::Nothing)
                    },
                    KeyCode::Enter => {
                        let id = p.complete_and_exit();
                        let browser = TasksState::new(Vec::new(), Vec::new(), 0);
                        (
                            SessionState::TaskBrowser(browser),
                            Action::CompleteAndRefresh { id },
                        )
                    },
                    KeyCode::Esc => {
                        let browser = TasksState::new(Vec::new(), Vec::new(), 0);
                        (SessionState::TaskBrowser(browser), Action::Refresh)
                    },
                    _ => (SessionState::ActiveSession(p), Action::Nothing),
                }
            },
        }
    }

    /// An active session's counter has room for one more completed work
    /// phase; every other state asks nothing.
    pub open spec fn spec_counter_has_room(self) -> bool {
        match self {
            SessionState::ActiveSession(p) => p.task.pomos_finished < u32::MAX,
            _ => true,
        }
    }

    /// The counter has room and the clock at `now` has not fallen behind an
    /// active session's recorded elapsed time; every other state asks
    /// nothing.
    pub open spec fn spec_key_ready(self, now: u64) -> bool {
        match self {
            SessionState::ActiveSession(p) => p.task.pomos_finished < u32::MAX && now
                >= p.current.elapsed,
            _ => true,
        }
    }

    /// Whether `handle_key_event` accepts every key at `now`: exactly the
    /// counter-room and clock condition, which implies `key_requires` for
    /// every key.
    pub fn key_ready(&self, now: u64) -> (b: bool)
        ensures
            b == self.spec_key_ready(now),
            b ==> forall|ev: KeyEvent| #[trigger] self.key_requires(ev, now),
    {
        match self {
            SessionState::ActiveSession(p) => p.task.pomos_finished < u32::MAX && now
                >= p.current.elapsed,
            _ => true,
        }
    }

    /// What a tick needs: when the updated timer has finished, the counter
    /// must have room for the transition.
    pub open spec fn tick_requires(self, now: u64) -> bool {
        self matches SessionState::ActiveSession(p) ==> (
        p.current.spec_update(now).spec_is_finished() ==> p.can_advance())
    }

    /// How a tick at `now` relates the state before to the state after and
    /// the action handed out: only an active session moves, and only its
    /// engine.
    pub open spec fn tick_step(
        pre: SessionState,
        now: u64,
        post: SessionState,
        act: Action,
    ) -> bool {
        match pre {
            SessionState::ActiveSession(p) => {
                let mid = p.with_timer(p.current.spec_update(now));
                if mid.current.spec_is_finished() {
                    post == SessionState::ActiveSession(mid.spec_change(now).0) && act
                        == Action::Transitioned(mid.spec_change(now).1)
                } else {
                    post == SessionState::ActiveSession(mid) && act is Nothing
                }
            },
            _ => post == pre && act is Nothing,
        }
    }

    /// Forward a tick to the active session's engine, if any.
    pub fn tick(&mut self, now: u64) -> (act: Action)
        requires
            old(self).tick_requires(now),
        ensures
            SessionState::tick_step(*old(self), now, *final(self), act),
    {
        match self {
            SessionState::ActiveSession(p) => {
                let eff = p.tick(now);
                match eff {
                    Some(e) => Action::Transitioned(e),
                    None => Action::Nothing,
                }
            },
            _ => Action::Nothing,
        }
    }

    /// Whether `tick` accepts the tick at `now`: exactly the counter-room
    /// condition, which implies `tick_requires`.
    pub fn tick_ready(&self, now: u64) -> (b: bool)
        ensures
            b == self.spec_counter_has_room(),
            b ==> self.tick_requires(now),
    {
        match self {
            SessionState::ActiveSession(p) => p.task.pomos_finished < u32::MAX,
            _ => true,
        }
    }

    /// Replace the browser's contents with a fresh partition of the given
    /// stored tasks; outside the browser, do nothing.
    pub fn refresh(&mut self, tasks: Vec<Task>, cycles: Vec<(String, usize)>, now: i64)
        ensures
            old(self) matches SessionState::TaskBrowser(_) ==> ((*final(self)) matches
                SessionState::TaskBrowser(b) && TasksState::fresh_browser(
                b,
                tasks@,
                cycles@,
                now as int,
            )),
            !(old(self) matches SessionState::TaskBrowser(_)) ==> *final(self) == *old(self),
    {
        match self {
            SessionState::TaskBrowser(ts) => {
                *ts = TasksState::new(tasks, cycles, now);
            },
            _ => {},
        }
    }

    /// Hand a freshly stored task back to the browser, which appends it to
    /// its first table; outside the browser, the task is dropped.
    pub fn task_saved(&mut self, task: Task)
        requires
            old(self).wf(),
        ensures
            final(self).wf(),
            (*old(self)) matches SessionState::TaskBrowser(ts) ==> ((*final(self)) matches
                SessionState::TaskBrowser(b) && TasksState::same_but_tables(ts, b)
                && TaskTableGroup::add_rel(ts.task_tables, task, b.task_tables)),
            !(old(self) matches SessionState::TaskBrowser(_)) ==> *final(self) == *old(self),
    {
        match self {
            SessionState::TaskBrowser(ts) => {
                ts.task_tables.add_task(task);
            },
            _ => {},
        }
    }
}

/// The global quit combination terminates the session from any state: from
/// the browser in every sub-mode, help overlay included, and from an active
/// session whatever its timer is doing.
pub proof fn lemma_global_quit(
    pre: SessionState,
    ev: KeyEvent,
    now: u64,
    post: SessionState,
    act: Action,
)
    requires
        SessionState::key_step(pre, ev, now, post, act),
        ev.is_global_quit(),
    ensures
        post is Terminated,
{
}

/// Terminated is absorbing: no key and no tick leaves it.
pub proof fn lemma_terminated_absorbing(
    pre: SessionState,
    ev: KeyEvent,
    now: u64,
    post: SessionState,
    act: Action,
)
    requires
        pre is Terminated,
    ensures
        SessionState::key_step(pre, ev, now, post, act) ==> post is Terminated,
        SessionState::tick_step(pre, now, post, act) ==> post == pre,
{
}

/// What to run for the parsed command line: the interactive browser, a
/// direct session, or one of the one-shot store operations.
pub enum LaunchPlan {
    /// Open the browser over the stored tasks.
    Interactive,
    /// Run a session on the carried task, whose durations came in explicitly.
    BeginTask(Task),
    /// Print the stored tasks and exit.
    ListTasks,
    /// Persist this draft and exit.
    AddTask(Task),
    /// Fetch the stored task with this identity and run a session on it.
    WorkOnSaved { id: i64 },
    /// Mark the stored task with this identity complete and exit.
    CompleteSaved { id: i64 },
}

/// What the command line may demand: durations that survive the conversion
/// from minutes to seconds.
pub open spec fn args_requires(args: Option<Command>) -> bool {
    match args {
        Some(Command::Start(s)) => s.work_mins * 60 <= u64::MAX && s.short_break_mins * 60
            <= u64::MAX && s.long_break_mins * 60 <= u64::MAX,
        Some(Command::Add(a)) => a.work_mins * 60 <= u64::MAX && a.short_break_mins * 60
            <= u64::MAX && a.long_break_mins * 60 <= u64::MAX,
        _ => true,
    }
}

/// How the plan relates to the parsed command line: durations converted from
/// minutes to seconds, identities passed through, no subcommand meaning the
/// interactive browser.
pub open spec fn plan_rel(args: Option<Command>, plan: LaunchPlan) -> bool {
    match args {
        None => plan is Interactive,
        Some(Command::List) => plan is ListTasks,
        Some(Command::WorkOn(w)) => plan == (LaunchPlan::WorkOnSaved { id: w.id }),
        Some(Command::Complete(c)) => plan == (LaunchPlan::CompleteSaved { id: c.id }),
        Some(Command::Start(s)) => plan matches LaunchPlan::BeginTask(t) && {
            &&& t.id is None
            &&& t.desc is None
            &&& t.work_secs == s.work_mins * 60
            &&& t.short_break_secs == s.short_break_mins * 60
            &&& t.long_break_secs == s.long_break_mins * 60
            &&& t.pomos_finished == 0
            &&& t.completed is None
        },
        Some(Command::Add(a)) => plan matches LaunchPlan::AddTask(t) && {
            &&& t.id is None
            &&& t.desc == Some(a.desc)
            &&& t.work_secs == a.work_mins * 60
            &&& t.short_break_secs == a.short_break_mins * 60
            &&& t.long_break_secs == a.long_break_mins * 60
            &&& t.pomos_finished == 0
            &&& t.completed is None
        },
    }
}

/// Turn the parsed command line into a launch plan, converting minutes to
/// seconds.
pub fn parse_args(args: Option<Command>) -> (plan: LaunchPlan)
    requires
        args_requires(args),
    ensures
        plan_rel(args, plan),
{
    match args {
        None => LaunchPlan::Interactive,
        Some(Command::List) => LaunchPlan::ListTasks,
        Some(Command::WorkOn(w)) => LaunchPlan::WorkOnSaved { id: w.id },
        Some(Command::Complete(c)) => LaunchPlan::CompleteSaved { id: c.id },
        Some(Command::Start(s)) => {
            let mut t = Task::default();
            t.work_secs = s.work_mins * 60;
            t.short_break_secs = s.short_break_mins * 60;
            t.long_break_secs = s.long_break_mins * 60;
            LaunchPlan::BeginTask(t)
        },
        Some(Command::Add(a)) => {
            let mut t = Task::default();
            t.desc = Some(a.desc);
            t.work_secs = a.work_mins * 60;
            t.short_break_secs = a.short_break_mins * 60;
            t.long_break_secs = a.long_break_mins * 60;
            LaunchPlan::AddTask(t)
        },
    }
}

} // verus!
