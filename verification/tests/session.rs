use pogodoro::args::{Add, Command, Start, WorkOn};
use pogodoro::pomodoro::PomodoroState;
use pogodoro::states::{
    parse_args, Action, KeyCode, KeyEvent, LaunchPlan, SessionState,
};
use pogodoro::tasks::{Task, TasksState};

fn key(code: KeyCode) -> KeyEvent {
    KeyEvent { code, ctrl: false }
}

fn ctrl_c() -> KeyEvent {
    KeyEvent { code: KeyCode::Char('c'), ctrl: true }
}

fn stored_task(id: u32, name: &str, mins: u64) -> Task {
    Task {
        id: Some(id),
        desc: Some(String::from(name)),
        work_secs: mins * 60,
        short_break_secs: mins * 60,
        long_break_secs: mins * 60,
        pomos_finished: 0,
        completed: None,
    }
}

fn browser_over(tasks: Vec<Task>) -> SessionState {
    SessionState::TaskBrowser(TasksState::new(tasks, Vec::new(), 0))
}

#[test]
fn selecting_a_task_and_four_elapsed_work_cycles_reach_one_long_break() {
    // create the stored task "write spec" with one-minute durations,
    // select it, and let four work cycles elapse without manual pause
    let mut session = browser_over(vec![stored_task(1, "write spec", 1)]);
    let mut now = 1000u64;
    let (s, a) = session.handle_key_event(key(KeyCode::Char('j')), now);
    session = s;
    assert!(matches!(a, Action::Nothing));
    let (s, a) = session.handle_key_event(key(KeyCode::Enter), now);
    session = s;
    assert!(matches!(a, Action::Nothing));
    assert!(matches!(session, SessionState::ActiveSession(_)));

    let mut long_breaks = 0;
    let mut last_count = None;
    for _ in 0..8 {
        now += 60;
        assert!(session.tick_ready(now));
        let act = session.tick(now);
        match act {
            Action::Transitioned(eff) => {
                if eff.state_after == PomodoroState::LongBreak {
                    long_breaks += 1;
                }
                if eff.set_count.is_some() {
                    last_count = eff.set_count;
                }
            },
            Action::Nothing => panic!("each minute should finish a phase"),
            _ => panic!("a tick asks for no other work"),
        }
    }
    assert_eq!(long_breaks, 1);
    assert_eq!(last_count, Some((1, 4)));
}

#[test]
fn global_quit_terminates_from_the_browser() {
    let session = browser_over(vec![stored_task(1, "t", 1)]);
    let (s, a) = session.handle_key_event(ctrl_c(), 0);
    assert!(matches!(s, SessionState::Terminated));
    assert!(matches!(a, Action::Nothing));
}

#[test]
fn global_quit_terminates_mid_timer() {
    let mut session = browser_over(vec![stored_task(1, "t", 1)]);
    let (s, _) = session.handle_key_event(key(KeyCode::Char('j')), 0);
    let (s, _) = s.handle_key_event(key(KeyCode::Enter), 0);
    session = s;
    let _ = session.tick(30);
    let (s, _) = session.handle_key_event(ctrl_c(), 30);
    assert!(matches!(s, SessionState::Terminated));
}

#[test]
fn global_quit_terminates_with_the_help_overlay_open() {
    // browser help overlay
    let session = browser_over(vec![]);
    let (s, _) = session.handle_key_event(key(KeyCode::Char('?')), 0);
    let (s, _) = s.handle_key_event(ctrl_c(), 0);
    assert!(matches!(s, SessionState::Terminated));

    // session help overlay
    let session = browser_over(vec![stored_task(1, "t", 1)]);
    let (s, _) = session.handle_key_event(key(KeyCode::Char('j')), 0);
    let (s, _) = s.handle_key_event(key(KeyCode::Enter), 0);
    let (s, _) = s.handle_key_event(key(KeyCode::Char('?')), 5);
    let (s, _) = s.handle_key_event(ctrl_c(), 9);
    assert!(matches!(s, SessionState::Terminated));
}

#[test]
fn terminated_is_absorbing() {
    let mut session = SessionState::Terminated;
    let act = session.tick(99);
    assert!(matches!(act, Action::Nothing));
    assert!(matches!(session, SessionState::Terminated));
    let (s, a) = session.handle_key_event(key(KeyCode::Enter), 100);
    assert!(matches!(s, SessionState::Terminated));
    assert!(matches!(a, Action::Nothing));
}

#[test]
fn quit_key_leaves_the_browser_only_in_plain_browsing() {
    let session = browser_over(vec![]);
    let (s, _) = session.handle_key_event(key(KeyCode::Char('?')), 0);
    // 'q' while the help overlay is open does not quit
    let (s, _) = s.handle_key_event(key(KeyCode::Char('q')), 0);
    assert!(matches!(s, SessionState::TaskBrowser(_)));
    // '?' closes the overlay, then 'q' quits
    let (s, _) = s.handle_key_event(key(KeyCode::Char('?')), 0);
    let (s, _) = s.handle_key_event(key(KeyCode::Char('q')), 0);
    assert!(matches!(s, SessionState::Terminated));
}

#[test]
fn quitting_an_active_session_terminates() {
    let session = browser_over(vec![stored_task(4, "t", 1)]);
    let (s, _) = session.handle_key_event(key(KeyCode::Char('j')), 0);
    let (s, _) = s.handle_key_event(key(KeyCode::Enter), 0);
    let (s, _) = s.handle_key_event(key(KeyCode::Char('q')), 10);
    assert!(matches!(s, SessionState::Terminated));
}

#[test]
fn completing_the_bound_task_returns_to_the_browser() {
    let session = browser_over(vec![stored_task(8, "t", 1)]);
    let (s, _) = session.handle_key_event(key(KeyCode::Char('j')), 0);
    let (s, _) = s.handle_key_event(key(KeyCode::Enter), 0);
    let (s, a) = s.handle_key_event(key(KeyCode::Enter), 20);
    assert!(matches!(s, SessionState::TaskBrowser(_)));
    match a {
        Action::CompleteAndRefresh { id } => assert_eq!(id, Some(8)),
        _ => panic!("completing the task must ask the store to mark it"),
    }
    // the caller then re-reads the tasks and refreshes
    let mut s = s;
    s.refresh(vec![stored_task(9, "next", 2)], Vec::new(), 50);
    match &s {
        SessionState::TaskBrowser(ts) => {
            assert_eq!(ts.task_tables.tables[0].tasks.len(), 1);
            assert_eq!(ts.task_tables.tables[0].tasks[0].id, Some(9));
        },
        _ => panic!("refresh keeps the browser"),
    }
}

#[test]
fn leaving_a_session_without_completing_asks_only_for_a_refresh() {
    let session = browser_over(vec![stored_task(8, "t", 1)]);
    let (s, _) = session.handle_key_event(key(KeyCode::Char('j')), 0);
    let (s, _) = s.handle_key_event(key(KeyCode::Enter), 0);
    let (s, a) = s.handle_key_event(key(KeyCode::Esc), 20);
    assert!(matches!(s, SessionState::TaskBrowser(_)));
    assert!(matches!(a, Action::Refresh));
}

#[test]
fn submitting_the_form_saves_a_draft_and_the_stored_task_joins_the_list() {
    let mut session = browser_over(vec![]);
    let (s, _) = session.handle_key_event(key(KeyCode::Char('i')), 0);
    session = s;
    for c in "read".chars() {
        let (s, _) = session.handle_key_event(key(KeyCode::Char(c)), 0);
        session = s;
    }
    let (s, _) = session.handle_key_event(key(KeyCode::Tab), 0);
    let (s, _) = s.handle_key_event(key(KeyCode::Char('2')), 0);
    let (s, a) = s.handle_key_event(key(KeyCode::Enter), 0);
    session = s;
    let draft = match a {
        Action::SaveDraft(t) => t,
        _ => panic!("submitting must hand out the draft"),
    };
    assert_eq!(draft.desc.as_deref(), Some("read"));
    assert_eq!(draft.work_secs, 120);
    assert!(draft.id.is_none());
    // the store assigns an identity and hands the task back
    let mut stored = draft;
    stored.id = Some(11);
    session.task_saved(stored);
    match &session {
        SessionState::TaskBrowser(ts) => {
            assert_eq!(ts.task_tables.tables[0].tasks.len(), 1);
            assert_eq!(ts.task_tables.tables[0].tasks[0].id, Some(11));
            assert_eq!(ts.task_tables.tables[0].tasks[0].desc.as_deref(), Some("read"));
        },
        _ => panic!("the browser stays current"),
    }
}

#[test]
fn start_arguments_become_a_session_task_in_seconds() {
    let plan = parse_args(Some(Command::Start(Start {
        work_mins: 25,
        short_break_mins: 5,
        long_break_mins: 15,
    })));
    match plan {
        LaunchPlan::BeginTask(t) => {
            assert_eq!(t.work_secs, 1500);
            assert_eq!(t.short_break_secs, 300);
            assert_eq!(t.long_break_secs, 900);
            assert!(t.id.is_none());
            assert!(t.desc.is_none());
        },
        _ => panic!("start must begin a session"),
    }
}

#[test]
fn one_shot_subcommands_map_to_their_plans() {
    assert!(matches!(parse_args(None), LaunchPlan::Interactive));
    assert!(matches!(parse_args(Some(Command::List)), LaunchPlan::ListTasks));
    assert!(matches!(
        parse_args(Some(Command::WorkOn(WorkOn { id: 3 }))),
        LaunchPlan::WorkOnSaved { id: 3 }
    ));
    assert!(matches!(
        parse_args(Some(Command::Complete(pogodoro::args::Complete { id: 4 }))),
        LaunchPlan::CompleteSaved { id: 4 }
    ));
    let plan = parse_args(Some(Command::Add(Add {
        desc: String::from("laundry"),
        work_mins: 1,
        short_break_mins: 1,
        long_break_mins: 1,
    })));
    match plan {
        LaunchPlan::AddTask(t) => {
            assert_eq!(t.desc.as_deref(), Some("laundry"));
            assert_eq!(t.work_secs, 60);
        },
        _ => panic!("add must persist a draft"),
    }
}
