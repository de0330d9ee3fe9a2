use pogodoro::pomodoro::{centered_rect, Rect};
use pogodoro::states::{Action, AppMessage, KeyCode, KeyEvent};
use pogodoro::tasks::{Task, TasksState};

fn key(code: KeyCode) -> KeyEvent {
    KeyEvent { code, ctrl: false }
}

fn task(id: u32, pomos: u32, completed: Option<i64>) -> Task {
    Task {
        id: Some(id),
        desc: Some(format!("task {}", id)),
        work_secs: 1500,
        short_break_secs: 300,
        long_break_secs: 900,
        pomos_finished: pomos,
        completed,
    }
}

#[test]
fn tasks_partition_into_new_in_progress_and_recently_completed() {
    let now = 1_000_000i64;
    let tasks = vec![
        task(1, 0, None),                 // new
        task(2, 3, None),                 // in progress
        task(3, 5, Some(now - 100)),      // completed recently
        task(4, 5, Some(now - 86_400)),   // completed exactly a day ago: still shown
        task(5, 5, Some(now - 86_401)),   // completed too long ago
        task(6, 0, None),                 // new
    ];
    let ts = TasksState::new(tasks, Vec::new(), now);
    let ids = |i: usize| {
        ts.task_tables.tables[i]
            .tasks
            .iter()
            .map(|t| t.id.unwrap())
            .collect::<Vec<u32>>()
    };
    assert_eq!(ts.task_tables.tables.len(), 3);
    assert_eq!(ts.task_tables.tables[0].title, "New");
    assert_eq!(ts.task_tables.tables[1].title, "In Progress");
    assert_eq!(ts.task_tables.tables[2].title, "Completed in the last day");
    assert_eq!(ids(0), vec![1, 6]);
    assert_eq!(ids(1), vec![2]);
    assert_eq!(ids(2), vec![3, 4]);
}

#[test]
fn row_navigation_wraps_within_the_focused_table() {
    let tasks = vec![task(1, 0, None), task(2, 0, None)];
    let mut ts = TasksState::new(tasks, Vec::new(), 0);
    let _ = ts.handle_key_event(key(KeyCode::Down));
    assert_eq!(ts.task_tables.focused, Some(0));
    assert_eq!(ts.task_tables.tables[0].cursor, Some(0));
    let _ = ts.handle_key_event(key(KeyCode::Char('j')));
    assert_eq!(ts.task_tables.tables[0].cursor, Some(1));
    let _ = ts.handle_key_event(key(KeyCode::Char('j')));
    assert_eq!(ts.task_tables.tables[0].cursor, Some(0));
    let _ = ts.handle_key_event(key(KeyCode::Char('k')));
    assert_eq!(ts.task_tables.tables[0].cursor, Some(1));
}

#[test]
fn switching_tables_clears_the_leaving_row_selection() {
    let tasks = vec![task(1, 0, None)];
    let mut ts = TasksState::new(tasks, Vec::new(), 0);
    let _ = ts.handle_key_event(key(KeyCode::Down));
    assert_eq!(ts.task_tables.tables[0].cursor, Some(0));
    let _ = ts.handle_key_event(key(KeyCode::Tab));
    assert_eq!(ts.task_tables.focused, Some(1));
    assert_eq!(ts.task_tables.tables[0].cursor, None);
    let _ = ts.handle_key_event(key(KeyCode::BackTab));
    assert_eq!(ts.task_tables.focused, Some(0));
}

#[test]
fn selecting_a_highlighted_task_reports_it_upward() {
    let tasks = vec![task(7, 0, None)];
    let mut ts = TasksState::new(tasks, Vec::new(), 0);
    // nothing highlighted: Enter does nothing
    let (msg, _) = ts.handle_key_event(key(KeyCode::Enter));
    assert!(matches!(msg, AppMessage::DoNothing));
    let _ = ts.handle_key_event(key(KeyCode::Down));
    let (msg, _) = ts.handle_key_event(key(KeyCode::Enter));
    match msg {
        AppMessage::Begin(t) => assert_eq!(t.id, Some(7)),
        _ => panic!("a highlighted task must be reported"),
    }
}

#[test]
fn completing_a_highlighted_task_asks_the_store() {
    let tasks = vec![task(7, 0, None)];
    let mut ts = TasksState::new(tasks, Vec::new(), 0);
    let (_, act) = ts.handle_key_event(key(KeyCode::Char('c')));
    assert!(matches!(act, Action::Nothing));
    let _ = ts.handle_key_event(key(KeyCode::Down));
    let (_, act) = ts.handle_key_event(key(KeyCode::Char('c')));
    match act {
        Action::CompleteAndRefresh { id } => assert_eq!(id, Some(7)),
        _ => panic!("completing must ask the store"),
    }
}

#[test]
fn control_u_clears_the_focused_field() {
    let mut ts = TasksState::new(Vec::new(), Vec::new(), 0);
    let _ = ts.handle_key_event(key(KeyCode::Char('i')));
    let _ = ts.handle_key_event(key(KeyCode::Char('a')));
    let _ = ts.handle_key_event(key(KeyCode::Char('b')));
    assert_eq!(ts.input.0.inputs[0].text, vec!['a', 'b']);
    let _ = ts.handle_key_event(KeyEvent { code: KeyCode::Char('u'), ctrl: true });
    assert!(ts.input.0.inputs[0].text.is_empty());
}

#[test]
fn escape_leaves_the_form_for_plain_browsing() {
    let mut ts = TasksState::new(Vec::new(), Vec::new(), 0);
    let _ = ts.handle_key_event(key(KeyCode::Char('i')));
    assert_eq!(ts.input.0.focused, Some(0));
    let _ = ts.handle_key_event(key(KeyCode::Esc));
    assert_eq!(ts.input.0.focused, None);
    // 'i' now re-enters the form at the first field
    let _ = ts.handle_key_event(key(KeyCode::Char('i')));
    assert_eq!(ts.input.0.focused, Some(0));
}

#[test]
fn task_summary_lines_up_identity_and_durations() {
    let t = Task {
        id: Some(5),
        desc: Some(String::from("write spec")),
        work_secs: 1500,
        short_break_secs: 300,
        long_break_secs: 900,
        pomos_finished: 0,
        completed: None,
    };
    assert_eq!(t.summary(), "  5: write spec || 25m/5m/15m");
    let mut wide = t.duplicate();
    wide.id = Some(12345);
    wide.work_secs = 90;
    assert_eq!(wide.summary(), "12345: write spec || 1m30s/5m/15m");
}

#[test]
fn duplicate_copies_every_field() {
    let t = task(3, 2, Some(44));
    let d = t.duplicate();
    assert_eq!(d.id, t.id);
    assert_eq!(d.desc, t.desc);
    assert_eq!(d.work_secs, t.work_secs);
    assert_eq!(d.short_break_secs, t.short_break_secs);
    assert_eq!(d.long_break_secs, t.long_break_secs);
    assert_eq!(d.pomos_finished, t.pomos_finished);
    assert_eq!(d.completed, t.completed);
}

#[test]
fn centered_rect_splits_the_slack_evenly() {
    let outer = Rect { x: 0, y: 0, width: 100, height: 50 };
    let c = centered_rect(10, 4, outer);
    assert_eq!((c.x, c.y, c.width, c.height), (45, 23, 10, 4));
    // a box larger than the target is clamped to it
    let c = centered_rect(200, 200, outer);
    assert_eq!((c.x, c.y, c.width, c.height), (0, 0, 100, 50));
    let offset = Rect { x: 10, y: 20, width: 5, height: 5 };
    let c = centered_rect(3, 1, offset);
    assert_eq!((c.x, c.y, c.width, c.height), (11, 22, 3, 1));
}
