use modal_editor::action::Outcome;
use modal_editor::dispatch::Event;
use modal_editor::key::{Key, KeyCode, CONTROL, NONE};
use modal_editor::state::{Mode, State};

fn plain(c: char) -> Key {
    Key::new(KeyCode::Char(c), NONE)
}

fn special(code: KeyCode) -> Key {
    Key::new(code, NONE)
}

fn lines(state: &State) -> Vec<&str> {
    state.buffer.iter().map(|line| line.as_str()).collect()
}

fn editing(text: &[&str], column: u16, row: u16) -> State {
    let mut state = State::new(80, 24);
    state.buffer = text.iter().map(|line| line.to_string()).collect();
    state.set_mode(Mode::Insert);
    state.cursor_pos.insert = (column, row);
    state.cursor_pos.normal = (column, row);
    state
}

#[test]
fn starts_with_one_empty_line_in_normal_mode() {
    let state = State::new(80, 24);
    assert!(state.running);
    assert_eq!((state.width, state.height), (80, 24));
    assert_eq!(state.mode, Mode::Normal);
    assert_eq!(state.cursor_pos.normal, (0, 0));
    assert_eq!(state.cursor_pos.insert, (0, 0));
    assert_eq!(state.cursor_pos.command, (1, 23));
    assert_eq!(state.status_bar, vec!["NORMAL".to_string()]);
    assert_eq!(state.command, "");
    assert_eq!(lines(&state), vec![""]);
}

#[test]
fn insert_two_characters_then_escape() {
    let mut state = State::new(80, 24);
    assert_eq!(state.press(&plain('i')), Outcome::Redraw);
    assert_eq!(state.mode, Mode::Insert);
    assert_eq!(state.status_bar[0], "INSERT");
    state.press(&plain('h'));
    state.press(&plain('i'));
    assert_eq!(state.cursor_pos.insert, (2, 0));
    state.press(&special(KeyCode::Esc));
    assert_eq!(lines(&state), vec!["hi"]);
    assert_eq!(state.mode, Mode::Normal);
    assert_eq!(state.status_bar[0], "NORMAL");
    assert_eq!(state.cursor_pos.normal.0, 1);
    assert_eq!(state.cursor_pos.insert, (2, 0));
}

#[test]
fn enter_at_end_of_line_opens_an_empty_line() {
    let mut state = editing(&["hello"], 5, 0);
    state.press(&special(KeyCode::Enter));
    assert_eq!(lines(&state), vec!["hello", ""]);
    assert_eq!(state.cursor_pos.insert, (0, 1));
    assert_eq!(state.cursor_pos.normal, (0, 1));
    assert_eq!(state.mode, Mode::Insert);
}

#[test]
fn enter_inside_a_line_splits_it() {
    let mut state = editing(&["first", "hello", "last"], 2, 1);
    state.press(&special(KeyCode::Enter));
    assert_eq!(lines(&state), vec!["first", "he", "llo", "last"]);
    assert_eq!(state.cursor_pos.insert, (0, 2));
    assert_eq!(state.cursor_pos.normal, (0, 2));
}

#[test]
fn enter_beyond_the_line_end_splits_at_the_end() {
    let mut state = editing(&["ab"], 7, 0);
    state.press(&special(KeyCode::Enter));
    assert_eq!(lines(&state), vec!["ab", ""]);
    assert_eq!(state.cursor_pos.insert, (0, 1));
}

#[test]
fn backspace_at_line_start_joins_with_the_line_above() {
    let mut state = editing(&["x", "ab"], 0, 1);
    state.press(&special(KeyCode::Backspace));
    assert_eq!(lines(&state), vec!["xab"]);
    assert_eq!(state.cursor_pos.insert, (1, 0));
    assert_eq!(state.cursor_pos.normal, (1, 0));
}

#[test]
fn backspace_at_the_very_start_does_nothing() {
    let mut state = editing(&["ab", "cd"], 0, 0);
    let before = state.clone();
    assert_eq!(state.press(&special(KeyCode::Backspace)), Outcome::Redraw);
    assert_eq!(state, before);
}

#[test]
fn backspace_inside_a_line_deletes_the_character_before() {
    let mut state = editing(&["abc"], 2, 0);
    state.press(&special(KeyCode::Backspace));
    assert_eq!(lines(&state), vec!["ac"]);
    assert_eq!(state.cursor_pos.insert, (1, 0));
    assert_eq!(state.cursor_pos.normal, (1, 0));
}

#[test]
fn backspace_beyond_the_line_end_only_moves_the_cursor() {
    let mut state = editing(&["abc"], 5, 0);
    state.press(&special(KeyCode::Backspace));
    assert_eq!(lines(&state), vec!["abc"]);
    assert_eq!(state.cursor_pos.insert, (4, 0));
}

#[test]
fn backspace_keeps_the_normal_column_at_zero() {
    let mut state = editing(&["abc"], 2, 0);
    state.cursor_pos.normal = (0, 0);
    state.press(&special(KeyCode::Backspace));
    assert_eq!(lines(&state), vec!["ac"]);
    assert_eq!(state.cursor_pos.normal, (0, 0));
    assert_eq!(state.cursor_pos.insert, (1, 0));
}

#[test]
fn typed_character_goes_in_at_the_cursor() {
    let mut state = editing(&["ac"], 1, 0);
    state.press(&plain('b'));
    assert_eq!(lines(&state), vec!["abc"]);
    assert_eq!(state.cursor_pos.insert, (2, 0));
    assert_eq!(state.cursor_pos.normal, (2, 0));
}

#[test]
fn typed_character_beyond_the_line_end_is_appended() {
    let mut state = editing(&["ab"], 9, 0);
    state.press(&plain('c'));
    assert_eq!(lines(&state), vec!["abc"]);
    assert_eq!(state.cursor_pos.insert, (10, 0));
}

#[test]
fn characters_outside_ascii_count_as_one_column() {
    let mut state = editing(&[""], 0, 0);
    state.press(&plain('é'));
    state.press(&plain('ß'));
    state.press(&plain('x'));
    assert_eq!(lines(&state), vec!["éßx"]);
    assert_eq!(state.cursor_pos.insert, (3, 0));
    state.press(&special(KeyCode::Backspace));
    state.press(&special(KeyCode::Backspace));
    assert_eq!(lines(&state), vec!["é"]);
    assert_eq!(state.cursor_pos.insert, (1, 0));
}

#[test]
fn a_held_modifier_does_not_stop_text_in_insert_mode() {
    let mut state = editing(&[""], 0, 0);
    state.press(&Key::new(KeyCode::Char('a'), CONTROL));
    assert_eq!(lines(&state), vec!["a"]);
}

#[test]
fn quit_command_stops_the_editor() {
    let mut state = State::new(80, 24);
    state.press(&plain(':'));
    assert_eq!(state.mode, Mode::Command);
    assert_eq!(state.status_bar[0], "COMMAND");
    assert_eq!(state.command, ":");
    state.press(&plain('q'));
    assert_eq!(state.command, ":q");
    assert_eq!(state.cursor_pos.command, (2, 23));
    assert_eq!(state.press(&special(KeyCode::Enter)), Outcome::Redraw);
    assert!(!state.running);
    assert_eq!(state.mode, Mode::Normal);
    assert_eq!(state.status_bar[0], "NORMAL");
    assert_eq!(state.command, ":q");
    assert_eq!(state.cursor_pos.command, (2, 23));
}

#[test]
fn unknown_command_is_reported() {
    let mut state = State::new(80, 24);
    state.press(&plain(':'));
    state.press(&plain('z'));
    state.press(&special(KeyCode::Enter));
    assert_eq!(state.command, "Unknown command.");
    assert_eq!(state.mode, Mode::Normal);
    assert_eq!(state.status_bar[0], "NORMAL");
    assert_eq!(state.cursor_pos.command, (1, 23));
    assert!(state.running);
}

#[test]
fn quit_with_trailing_text_is_unknown() {
    let mut state = State::new(80, 24);
    state.press(&plain(':'));
    state.press(&plain('q'));
    state.press(&plain('!'));
    state.press(&special(KeyCode::Enter));
    assert_eq!(state.command, "Unknown command.");
    assert!(state.running);
}

#[test]
fn command_backspace_until_empty_returns_to_normal() {
    let mut state = State::new(80, 24);
    state.press(&plain(':'));
    state.press(&plain('w'));
    assert_eq!(state.cursor_pos.command, (2, 23));
    state.press(&special(KeyCode::Backspace));
    assert_eq!(state.command, ":");
    assert_eq!(state.mode, Mode::Command);
    assert_eq!(state.cursor_pos.command, (1, 23));
    state.press(&special(KeyCode::Backspace));
    assert_eq!(state.command, "");
    assert_eq!(state.mode, Mode::Normal);
    assert_eq!(state.status_bar[0], "NORMAL");
    assert_eq!(state.cursor_pos.command, (1, 23));
}

#[test]
fn escape_and_control_c_leave_the_command_line() {
    for key in [special(KeyCode::Esc), Key::new(KeyCode::Char('c'), CONTROL)] {
        let mut state = State::new(80, 24);
        state.press(&plain(':'));
        state.press(&plain('q'));
        assert_eq!(state.press(&key), Outcome::Redraw);
        assert_eq!(state.mode, Mode::Normal);
        assert_eq!(state.command, "");
        assert_eq!(state.cursor_pos.command, (1, 23));
        assert!(state.running);
    }
}

#[test]
fn control_z_stops_the_editor_in_every_mode() {
    let kill = Key::new(KeyCode::Char('z'), CONTROL);
    let mut normal = State::new(80, 24);
    assert_eq!(normal.press(&kill), Outcome::Skip);
    assert!(!normal.running);
    let mut command = State::new(80, 24);
    command.press(&plain(':'));
    assert_eq!(command.press(&kill), Outcome::Skip);
    assert!(!command.running);
    assert_eq!(command.command, ":");
    let mut insert = State::new(80, 24);
    insert.press(&plain('i'));
    assert_eq!(insert.press(&kill), Outcome::Skip);
    assert!(!insert.running);
    assert_eq!(lines(&insert), vec![""]);
}

#[test]
fn resize_is_noted_in_every_mode() {
    let mut state = State::new(80, 24);
    state.press(&plain('i'));
    assert_eq!(state.handle(&Event::Resize(100, 40)), Outcome::Redraw);
    assert_eq!((state.width, state.height), (100, 40));
    assert_eq!(state.mode, Mode::Insert);
    assert_eq!(state.cursor_pos.command, (1, 23));
}

#[test]
fn other_events_are_ignored() {
    let mut state = State::new(80, 24);
    let before = state.clone();
    assert_eq!(state.handle(&Event::Other), Outcome::Skip);
    assert_eq!(state, before);
}

#[test]
fn key_events_go_through_the_key_maps() {
    let mut state = State::new(80, 24);
    assert_eq!(state.handle(&Event::Key(plain('i'))), Outcome::Redraw);
    assert_eq!(state.mode, Mode::Insert);
    assert_eq!(state.handle(&Event::Key(plain('x'))), Outcome::Redraw);
    assert_eq!(lines(&state), vec!["x"]);
}
