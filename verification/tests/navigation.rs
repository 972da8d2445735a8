use modal_editor::action::Outcome;
use modal_editor::key::{Key, KeyCode, NONE};
use modal_editor::state::{Mode, State};

fn plain(c: char) -> Key {
    Key::new(KeyCode::Char(c), NONE)
}

fn browsing(text: &[&str], normal: (u16, u16), insert: (u16, u16)) -> State {
    let mut state = State::new(80, 24);
    state.buffer = text.iter().map(|line| line.to_string()).collect();
    state.cursor_pos.normal = normal;
    state.cursor_pos.insert = insert;
    state
}

#[test]
fn l_at_the_last_column_leaves_the_cursor() {
    let mut state = browsing(&["abc"], (2, 0), (3, 0));
    assert_eq!(state.press(&plain('l')), Outcome::Redraw);
    assert_eq!(state.cursor_pos.normal, (2, 0));
    assert_eq!(state.cursor_pos.insert, (3, 0));
}

#[test]
fn l_moves_both_cursors_right() {
    let mut state = browsing(&["abc"], (0, 0), (1, 0));
    state.press(&plain('l'));
    assert_eq!(state.cursor_pos.normal, (1, 0));
    assert_eq!(state.cursor_pos.insert, (2, 0));
    state.press(&plain('l'));
    assert_eq!(state.cursor_pos.normal, (2, 0));
    assert_eq!(state.cursor_pos.insert, (3, 0));
}

#[test]
fn l_on_an_empty_line_leaves_the_cursor() {
    let mut state = State::new(80, 24);
    state.press(&plain('l'));
    assert_eq!(state.cursor_pos.normal, (0, 0));
    assert_eq!(state.cursor_pos.insert, (0, 0));
}

#[test]
fn h_moves_both_cursors_left_and_stops_at_zero() {
    let mut state = browsing(&["abc"], (1, 0), (2, 0));
    state.press(&plain('h'));
    assert_eq!(state.cursor_pos.normal, (0, 0));
    assert_eq!(state.cursor_pos.insert, (1, 0));
    state.press(&plain('h'));
    assert_eq!(state.cursor_pos.normal, (0, 0));
    assert_eq!(state.cursor_pos.insert, (0, 0));
    state.press(&plain('h'));
    assert_eq!(state.cursor_pos.normal, (0, 0));
    assert_eq!(state.cursor_pos.insert, (0, 0));
}

#[test]
fn j_and_k_stay_inside_the_buffer() {
    let mut state = browsing(&["one", "two", "three"], (0, 0), (0, 0));
    state.press(&plain('k'));
    assert_eq!(state.cursor_pos.normal, (0, 0));
    state.press(&plain('j'));
    assert_eq!(state.cursor_pos.normal, (0, 1));
    state.press(&plain('j'));
    assert_eq!(state.cursor_pos.normal, (0, 2));
    state.press(&plain('j'));
    assert_eq!(state.cursor_pos.normal, (0, 2));
    state.press(&plain('k'));
    assert_eq!(state.cursor_pos.normal, (0, 1));
    assert_eq!(state.cursor_pos.insert, (0, 0));
}

#[test]
fn j_and_k_keep_the_column_on_a_shorter_line() {
    let mut state = browsing(&["a long line", "ab"], (8, 0), (9, 0));
    state.press(&plain('j'));
    assert_eq!(state.cursor_pos.normal, (8, 1));
    state.press(&plain('k'));
    assert_eq!(state.cursor_pos.normal, (8, 0));
}

#[test]
fn i_moves_the_insert_cursor_one_left() {
    let mut state = browsing(&["abc"], (1, 0), (2, 0));
    state.press(&plain('i'));
    assert_eq!(state.mode, Mode::Insert);
    assert_eq!(state.status_bar[0], "INSERT");
    assert_eq!(state.cursor_pos.insert, (1, 0));
    assert_eq!(state.cursor_pos.normal, (1, 0));
}

#[test]
fn i_at_column_zero_keeps_the_insert_cursor() {
    let mut state = State::new(80, 24);
    state.press(&plain('i'));
    assert_eq!(state.cursor_pos.insert, (0, 0));
}

#[test]
fn a_moves_the_insert_cursor_one_right() {
    let mut state = browsing(&["abc"], (0, 0), (1, 0));
    state.press(&plain('a'));
    assert_eq!(state.mode, Mode::Insert);
    assert_eq!(state.status_bar[0], "INSERT");
    assert_eq!(state.cursor_pos.insert, (2, 0));
    assert_eq!(state.cursor_pos.normal, (0, 0));
}

#[test]
fn a_on_the_last_character_keeps_the_insert_cursor() {
    let mut state = browsing(&["abc"], (2, 0), (3, 0));
    state.press(&plain('a'));
    assert_eq!(state.mode, Mode::Insert);
    assert_eq!(state.cursor_pos.insert, (3, 0));
}

#[test]
fn a_on_an_empty_line_keeps_the_insert_cursor() {
    let mut state = State::new(80, 24);
    state.press(&plain('a'));
    assert_eq!(state.mode, Mode::Insert);
    assert_eq!(state.status_bar[0], "INSERT");
    assert_eq!(state.cursor_pos.insert, (0, 0));
    assert_eq!(state.cursor_pos.normal, (0, 0));
    assert_eq!(state.buffer, vec![String::new()]);
}

#[test]
fn a_beyond_an_empty_line_moves_the_insert_cursor() {
    let mut state = browsing(&[""], (1, 0), (0, 0));
    state.press(&plain('a'));
    assert_eq!(state.cursor_pos.insert, (1, 0));
}

#[test]
fn a_on_a_line_of_one_character_keeps_the_insert_cursor() {
    let mut state = browsing(&["x"], (0, 0), (1, 0));
    state.press(&plain('a'));
    assert_eq!(state.mode, Mode::Insert);
    assert_eq!(state.cursor_pos.insert, (1, 0));
}

#[test]
fn escape_from_insert_puts_the_normal_cursor_one_left() {
    let mut state = browsing(&["abc"], (0, 0), (3, 0));
    state.set_mode(Mode::Insert);
    state.press(&Key::new(KeyCode::Esc, NONE));
    assert_eq!(state.mode, Mode::Normal);
    assert_eq!(state.cursor_pos.normal, (2, 0));
    assert_eq!(state.cursor_pos.insert, (3, 0));
    assert_eq!(state.command, "");
    assert_eq!(state.cursor_pos.command, (1, 23));
}

#[test]
fn escape_from_insert_at_column_zero_stays_at_zero() {
    let mut state = browsing(&["abc"], (2, 0), (0, 0));
    state.set_mode(Mode::Insert);
    state.press(&Key::new(KeyCode::Esc, NONE));
    assert_eq!(state.cursor_pos.normal, (0, 0));
}

#[test]
fn escape_in_normal_mode_changes_nothing() {
    let mut state = browsing(&["abc", "de"], (1, 1), (2, 0));
    let before = state.clone();
    for _ in 0..5 {
        assert_eq!(state.press(&Key::new(KeyCode::Esc, NONE)), Outcome::Skip);
        assert_eq!(state, before);
    }
}

#[test]
fn unbound_keys_in_normal_mode_change_nothing() {
    let mut state = browsing(&["abc"], (1, 0), (2, 0));
    let before = state.clone();
    for key in [
        plain('x'),
        plain('I'),
        Key::new(KeyCode::Enter, NONE),
        Key::new(KeyCode::Backspace, NONE),
        Key::new(KeyCode::Other, NONE),
    ] {
        assert_eq!(state.press(&key), Outcome::Skip);
        assert_eq!(state, before);
    }
}
