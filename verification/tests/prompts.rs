use inquirer::{
    checkbox_from_events, confirm_from_events, input_from_line, list_from_events, pick,
    run_checkbox, run_list, Error, KeyEvent,
};

#[test]
fn list_down_then_enter_picks_the_second_choice() {
    let choices = ["A", "B", "C"];
    let events = vec![KeyEvent::Down, KeyEvent::Enter];
    let result = list_from_events(&choices, &events);
    assert_eq!(result, Ok(&"B"));
}

#[test]
fn list_enter_alone_picks_the_first_choice() {
    let choices = ["Red", "Blue", "Green"];
    let events = vec![KeyEvent::Enter];
    assert_eq!(list_from_events(&choices, &events), Ok(&"Red"));
}

#[test]
fn list_clamps_at_both_walls() {
    let choices = ["A", "B", "C"];
    let up_past_top = vec![KeyEvent::Up, KeyEvent::Up, KeyEvent::Enter];
    assert_eq!(list_from_events(&choices, &up_past_top), Ok(&"A"));
    let down_past_bottom = vec![
        KeyEvent::Down,
        KeyEvent::Down,
        KeyEvent::Down,
        KeyEvent::Down,
        KeyEvent::Enter,
    ];
    assert_eq!(list_from_events(&choices, &down_past_bottom), Ok(&"C"));
}

#[test]
fn list_ignores_unknown_keys() {
    let choices = ["A", "B"];
    let events = vec![KeyEvent::Other, KeyEvent::Char('q'), KeyEvent::Down, KeyEvent::Enter];
    assert_eq!(list_from_events(&choices, &events), Ok(&"B"));
}

#[test]
fn list_works_over_label_value_pairs() {
    let choices = [("Red", 10), ("Blue", 20), ("Green", 30)];
    let events = vec![KeyEvent::Down, KeyEvent::Down, KeyEvent::Enter];
    assert_eq!(list_from_events(&choices, &events), Ok(&30));
}

#[test]
fn checkbox_returns_values_in_original_order() {
    let choices = ["A", "B", "C"];
    let events = vec![
        KeyEvent::Char(' '),
        KeyEvent::Down,
        KeyEvent::Down,
        KeyEvent::Char(' '),
        KeyEvent::Enter,
    ];
    let result = checkbox_from_events(&choices, &events);
    assert_eq!(result, Ok(vec![&"A", &"C"]));
}

#[test]
fn checkbox_with_no_toggle_returns_nothing() {
    let choices = ["A", "B"];
    let events = vec![KeyEvent::Down, KeyEvent::Enter];
    assert_eq!(checkbox_from_events(&choices, &events), Ok(vec![]));
}

#[test]
fn checkbox_toggle_twice_deselects() {
    let choices = ["A", "B"];
    let events = vec![KeyEvent::Char(' '), KeyEvent::Char(' '), KeyEvent::Enter];
    assert_eq!(checkbox_from_events(&choices, &events), Ok(vec![]));
}

#[test]
fn interrupt_aborts_whatever_came_before() {
    let choices = ["A", "B", "C"];
    let histories: Vec<Vec<KeyEvent>> = vec![
        vec![KeyEvent::Interrupt],
        vec![KeyEvent::Down, KeyEvent::Interrupt],
        vec![KeyEvent::Char(' '), KeyEvent::Up, KeyEvent::Other, KeyEvent::Interrupt],
        vec![KeyEvent::Interrupt, KeyEvent::Enter],
    ];
    for events in &histories {
        assert_eq!(list_from_events(&choices, events), Err(Error::UserAborted));
        assert_eq!(checkbox_from_events(&choices, events), Err(Error::UserAborted));
    }
    assert_eq!(confirm_from_events(true, &vec![KeyEvent::Interrupt]), Err(Error::UserAborted));
}

#[test]
fn exhausted_input_never_yields_a_default() {
    let choices = ["A", "B"];
    let no_events: Vec<KeyEvent> = vec![];
    let no_decision = vec![KeyEvent::Down, KeyEvent::Up, KeyEvent::Char(' ')];
    assert_eq!(list_from_events(&choices, &no_events), Err(Error::NoMoreInput));
    assert_eq!(list_from_events(&choices, &no_decision), Err(Error::NoMoreInput));
    assert_eq!(checkbox_from_events(&choices, &no_events), Err(Error::NoMoreInput));
    assert_eq!(checkbox_from_events(&choices, &no_decision), Err(Error::NoMoreInput));
    assert_eq!(confirm_from_events(true, &no_events), Err(Error::NoMoreInput));
    assert_eq!(confirm_from_events(false, &vec![KeyEvent::Up]), Err(Error::NoMoreInput));
}

#[test]
fn confirm_enter_takes_the_default() {
    let enter = vec![KeyEvent::Enter];
    assert_eq!(confirm_from_events(true, &enter), Ok(true));
    assert_eq!(confirm_from_events(false, &enter), Ok(false));
}

#[test]
fn confirm_n_always_declines() {
    let n = vec![KeyEvent::Char('n')];
    assert_eq!(confirm_from_events(true, &n), Ok(false));
    assert_eq!(confirm_from_events(false, &n), Ok(false));
    let capital = vec![KeyEvent::Other, KeyEvent::Char('N')];
    assert_eq!(confirm_from_events(true, &capital), Ok(false));
}

#[test]
fn confirm_y_always_accepts() {
    let y = vec![KeyEvent::Char('y')];
    assert_eq!(confirm_from_events(false, &y), Ok(true));
    assert_eq!(confirm_from_events(true, &vec![KeyEvent::Char('Y')]), Ok(true));
}

#[test]
fn confirm_ignores_other_characters() {
    let events = vec![KeyEvent::Char('x'), KeyEvent::Down, KeyEvent::Char('y')];
    assert_eq!(confirm_from_events(false, &events), Ok(true));
}

#[test]
fn pick_rejects_an_out_of_range_index() {
    let choices = ["A"];
    assert_eq!(pick(&choices, 0), Ok(&"A"));
    assert_eq!(pick(&choices, 5), Err(Error::InvalidChoice(5)));
}

#[test]
fn input_returns_the_line_or_reports_the_closed_stream() {
    assert_eq!(input_from_line(Some(String::from("hello"))), Ok(String::from("hello")));
    assert_eq!(input_from_line(None), Err(Error::NoMoreInput));
}

#[test]
fn run_list_reports_the_confirmed_index() {
    let events = vec![KeyEvent::Down, KeyEvent::Down, KeyEvent::Enter];
    assert_eq!(run_list(5, &events), Ok(2));
}

#[test]
fn run_checkbox_reports_the_selected_indices() {
    let events = vec![
        KeyEvent::Down,
        KeyEvent::Char(' '),
        KeyEvent::Down,
        KeyEvent::Char(' '),
        KeyEvent::Enter,
    ];
    assert_eq!(run_checkbox(4, &events), Ok(vec![1, 2]));
}
