use pogodoro::tasks::{
    parse_minutes, TaskInput, DEFAULT_LONG_BREAK_SECS, DEFAULT_SHORT_BREAK_SECS, DEFAULT_WORK_SECS,
};

fn type_into(form: &mut TaskInput, text: &str) {
    for c in text.chars() {
        form.push(c);
    }
}

#[test]
fn malformed_work_minutes_fall_back_to_the_default() {
    let mut form = TaskInput::default();
    form.next(); // focus the name field
    form.next(); // focus the work-minutes field
    type_into(&mut form, "abc");
    let task = form.get_task();
    assert_eq!(task.work_secs, DEFAULT_WORK_SECS);
    assert_eq!(task.work_secs, 25 * 60);
    assert!(task.id.is_none());
    assert!(task.completed.is_none());
    assert_eq!(task.pomos_finished, 0);
}

#[test]
fn parsed_minutes_become_seconds() {
    let mut form = TaskInput::default();
    form.next();
    type_into(&mut form, "deep work");
    form.next();
    type_into(&mut form, "30");
    form.next();
    type_into(&mut form, "7");
    form.next();
    type_into(&mut form, "20");
    let task = form.get_task();
    assert_eq!(task.desc.as_deref(), Some("deep work"));
    assert_eq!(task.work_secs, 30 * 60);
    assert_eq!(task.short_break_secs, 7 * 60);
    assert_eq!(task.long_break_secs, 20 * 60);
}

#[test]
fn fractional_minutes_submit_as_truncated_seconds() {
    let mut form = TaskInput::default();
    form.next();
    form.next();
    type_into(&mut form, "2.5");
    let task = form.get_task();
    assert_eq!(task.work_secs, 150);
}

#[test]
fn empty_fields_give_defaults_and_no_description() {
    let mut form = TaskInput::default();
    let task = form.get_task();
    assert!(task.desc.is_none());
    assert_eq!(task.work_secs, DEFAULT_WORK_SECS);
    assert_eq!(task.short_break_secs, DEFAULT_SHORT_BREAK_SECS);
    assert_eq!(task.long_break_secs, DEFAULT_LONG_BREAK_SECS);
}

#[test]
fn submission_clears_every_field() {
    let mut form = TaskInput::default();
    form.next();
    type_into(&mut form, "name");
    form.next();
    type_into(&mut form, "1");
    let _ = form.get_task();
    for i in 0..4 {
        assert!(form.0.inputs[i].text.is_empty());
    }
    // and the next submission starts from scratch
    let again = form.get_task();
    assert!(again.desc.is_none());
    assert_eq!(again.work_secs, DEFAULT_WORK_SECS);
}

#[test]
fn backspace_and_clear_edit_the_focused_field() {
    let mut form = TaskInput::default();
    form.next();
    type_into(&mut form, "abx");
    assert_eq!(form.pop(), Some('x'));
    assert_eq!(form.0.inputs[0].text, vec!['a', 'b']);
    form.clear();
    assert!(form.0.inputs[0].text.is_empty());
    // with no focused field, editing does nothing
    let mut idle = TaskInput::default();
    idle.push('z');
    assert_eq!(idle.pop(), None);
    assert!(idle.0.inputs[0].text.is_empty());
}

#[test]
fn field_focus_wraps_in_both_directions() {
    let mut form = TaskInput::default();
    assert_eq!(form.0.focused, None);
    form.next();
    assert_eq!(form.0.focused, Some(0));
    form.previous();
    assert_eq!(form.0.focused, Some(3));
    form.next();
    assert_eq!(form.0.focused, Some(0));
}

#[test]
fn parse_minutes_accepts_decimal_minutes() {
    assert_eq!(parse_minutes(&"25".chars().collect::<Vec<char>>()), Some(1500));
    assert_eq!(parse_minutes(&"0".chars().collect::<Vec<char>>()), Some(0));
    assert_eq!(parse_minutes(&"007".chars().collect::<Vec<char>>()), Some(420));
    assert_eq!(parse_minutes(&"".chars().collect::<Vec<char>>()), None);
    assert_eq!(parse_minutes(&"abc".chars().collect::<Vec<char>>()), None);
    assert_eq!(parse_minutes(&"-5".chars().collect::<Vec<char>>()), None);
    assert_eq!(parse_minutes(&"99999999999999999999999".chars().collect::<Vec<char>>()), None);
    // the largest number of whole minutes whose seconds still fit
    assert_eq!(
        parse_minutes(&"307445734561825860".chars().collect::<Vec<char>>()),
        Some(307445734561825860u64 * 60)
    );
    assert_eq!(parse_minutes(&"307445734561825861".chars().collect::<Vec<char>>()), None);
}

#[test]
fn parse_minutes_rounds_fractions_down_to_whole_seconds() {
    assert_eq!(parse_minutes(&"2.5".chars().collect::<Vec<char>>()), Some(150));
    assert_eq!(parse_minutes(&"25.".chars().collect::<Vec<char>>()), Some(1500));
    assert_eq!(parse_minutes(&".5".chars().collect::<Vec<char>>()), Some(30));
    // 0.033 minutes is 1.98 seconds: one whole second
    assert_eq!(parse_minutes(&"0.033".chars().collect::<Vec<char>>()), Some(1));
    // 1.999 minutes is 119.94 seconds
    assert_eq!(parse_minutes(&"1.999".chars().collect::<Vec<char>>()), Some(119));
    // long fractions stay exact: 0.0166 minutes is 0.996 seconds
    assert_eq!(parse_minutes(&"0.0166".chars().collect::<Vec<char>>()), Some(0));
    assert_eq!(parse_minutes(&"0.01667".chars().collect::<Vec<char>>()), Some(1));
    assert_eq!(parse_minutes(&".".chars().collect::<Vec<char>>()), None);
    assert_eq!(parse_minutes(&"1.2.3".chars().collect::<Vec<char>>()), None);
    // right at the top of the machine word
    assert_eq!(
        parse_minutes(&"307445734561825860.25".chars().collect::<Vec<char>>()),
        Some(u64::MAX)
    );
    assert_eq!(parse_minutes(&"307445734561825860.27".chars().collect::<Vec<char>>()), None);
}
