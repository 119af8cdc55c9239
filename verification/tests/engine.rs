use inquirer::{decode, KeyEvent, Mode, RawKey, SelectionState, Step};

#[test]
fn new_state_starts_at_top_with_nothing_selected() {
    let s = SelectionState::new(3);
    assert_eq!(s.cursor, 0);
    assert_eq!(s.selected, vec![false, false, false]);
}

#[test]
fn up_clamps_at_first_item() {
    let mut s = SelectionState::new(3);
    let step = s.apply(KeyEvent::Up, Mode::List);
    assert_eq!(step, Step::Continue);
    assert_eq!(s.cursor, 0);
}

#[test]
fn down_moves_and_clamps_at_last_item() {
    let mut s = SelectionState::new(3);
    s.apply(KeyEvent::Down, Mode::List);
    assert_eq!(s.cursor, 1);
    s.apply(KeyEvent::Down, Mode::List);
    assert_eq!(s.cursor, 2);
    s.apply(KeyEvent::Down, Mode::List);
    assert_eq!(s.cursor, 2);
    s.apply(KeyEvent::Up, Mode::List);
    assert_eq!(s.cursor, 1);
}

#[test]
fn space_toggles_only_in_checkbox_mode() {
    let mut s = SelectionState::new(2);
    s.apply(KeyEvent::Char(' '), Mode::List);
    assert_eq!(s.selected, vec![false, false]);
    s.apply(KeyEvent::Char(' '), Mode::Checkbox);
    assert_eq!(s.selected, vec![true, false]);
}

#[test]
fn space_twice_restores_the_flag() {
    let mut s = SelectionState::new(3);
    s.apply(KeyEvent::Down, Mode::Checkbox);
    s.apply(KeyEvent::Char(' '), Mode::Checkbox);
    assert_eq!(s.selected, vec![false, true, false]);
    s.apply(KeyEvent::Char(' '), Mode::Checkbox);
    assert_eq!(s.selected, vec![false, false, false]);
}

#[test]
fn enter_confirms_and_interrupt_aborts() {
    let mut s = SelectionState::new(2);
    assert_eq!(s.apply(KeyEvent::Enter, Mode::List), Step::Confirmed);
    assert_eq!(s.apply(KeyEvent::Interrupt, Mode::List), Step::Aborted);
    assert_eq!(s.apply(KeyEvent::Other, Mode::List), Step::Continue);
    assert_eq!(s.apply(KeyEvent::Char('x'), Mode::Checkbox), Step::Continue);
    assert_eq!(s.cursor, 0);
    assert_eq!(s.selected, vec![false, false]);
}

#[test]
fn decode_maps_raw_keys_to_logical_events() {
    assert_eq!(decode(RawKey::Char('\n')), KeyEvent::Enter);
    assert_eq!(decode(RawKey::Char(' ')), KeyEvent::Char(' '));
    assert_eq!(decode(RawKey::Char('y')), KeyEvent::Char('y'));
    assert_eq!(decode(RawKey::Ctrl('c')), KeyEvent::Interrupt);
    assert_eq!(decode(RawKey::Ctrl('d')), KeyEvent::Other);
    assert_eq!(decode(RawKey::Up), KeyEvent::Up);
    assert_eq!(decode(RawKey::Down), KeyEvent::Down);
    assert_eq!(decode(RawKey::Other), KeyEvent::Other);
}

#[test]
fn selected_indices_keep_original_order() {
    let flags = vec![true, false, true, true, false];
    assert_eq!(inquirer::selected_indices(&flags), vec![0, 2, 3]);
    assert_eq!(inquirer::selected_indices(&vec![false, false]), Vec::<usize>::new());
}
