use inquirer::{
    paint_checkbox_header, paint_close, paint_confirm_header, paint_input_header,
    paint_list_header, repaint_checkbox, repaint_list, KeyEvent, Mode, SelectionState,
};

fn labels(items: &[&str]) -> Vec<String> {
    items.iter().map(|s| String::from(*s)).collect()
}

#[test]
fn list_header_paints_prompt_and_blank_block() {
    let out = paint_list_header("Choose:", 3);
    let expected = format!("\x1b[?25l\x1b[38;5;2m[?] \x1b[mChoose:\n\n\n");
    assert_eq!(out, expected.into_bytes());
}

#[test]
fn checkbox_header_adds_the_space_hint() {
    let out = paint_checkbox_header("Toppings?", 2);
    let expected = format!("\x1b[?25l\x1b[38;5;2m[?] \x1b[mToppings? (Press <space> to select)\n\n");
    assert_eq!(out, expected.into_bytes());
}

#[test]
fn list_repaint_marks_the_focused_row_bold() {
    let ls = labels(&["A", "B", "C"]);
    let out = repaint_list(&ls, 0);
    let expected = format!(
        "\x1b[3A\n\r\x1b[2K\x1b[1m  > A\x1b[m\n\r\x1b[2K    B\n\r\x1b[2K    C"
    );
    assert_eq!(out, expected.into_bytes());
}

#[test]
fn list_repaint_moves_the_marker_with_the_cursor() {
    let ls = labels(&["A", "B"]);
    let out = repaint_list(&ls, 1);
    let expected = format!("\x1b[2A\n\r\x1b[2K    A\n\r\x1b[2K\x1b[1m  > B\x1b[m");
    assert_eq!(out, expected.into_bytes());
}

#[test]
fn repaint_distance_is_the_block_height_in_decimal() {
    let many: Vec<String> = (0..12).map(|i| format!("item {}", i)).collect();
    let out = repaint_list(&many, 0);
    let head = b"\x1b[12A";
    assert_eq!(&out[..head.len()], head);
}

#[test]
fn repainting_the_same_state_twice_is_byte_identical() {
    let ls = labels(&["one", "two", "three"]);
    let mut state = SelectionState::new(3);
    state.apply(KeyEvent::Down, Mode::Checkbox);
    state.apply(KeyEvent::Char(' '), Mode::Checkbox);
    let first = repaint_checkbox(&ls, &state);
    let second = repaint_checkbox(&ls, &state);
    assert_eq!(first, second);
    let third = repaint_list(&ls, 1);
    let fourth = repaint_list(&ls, 1);
    assert_eq!(third, fourth);
}

#[test]
fn checkbox_repaint_shows_filled_and_empty_marks() {
    let ls = labels(&["A", "B"]);
    let mut state = SelectionState::new(2);
    state.apply(KeyEvent::Char(' '), Mode::Checkbox);
    let out = repaint_checkbox(&ls, &state);
    let expected = format!(
        "\x1b[2A\n\r\x1b[2K\x1b[1m > \x1b[1m\u{25cf} A\x1b[m\x1b[m\n\r\x1b[2K   \u{25cb} B\x1b[m"
    );
    assert_eq!(out, expected.into_bytes());
}

#[test]
fn confirm_header_capitalises_the_default() {
    let yes = paint_confirm_header("Proceed?", true);
    assert_eq!(yes, format!("\x1b[38;5;2m[?] \x1b[mProceed? (Y/n) ").into_bytes());
    let no = paint_confirm_header("Proceed?", false);
    assert_eq!(no, format!("\x1b[38;5;2m[?] \x1b[mProceed? (y/N) ").into_bytes());
}

#[test]
fn input_header_leaves_room_for_the_answer() {
    let out = paint_input_header("Name?");
    assert_eq!(out, format!("\x1b[38;5;2m[?] \x1b[mName? ").into_bytes());
}

#[test]
fn closing_restores_the_cursor() {
    assert_eq!(paint_close(), b"\n\r\x1b[?25h".to_vec());
}
