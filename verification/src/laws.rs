//! What holds of the editor whatever is typed.

use vstd::prelude::*;
use crate::action::Action;
use crate::dispatch::{resolve, Event};
use crate::insert::insert_binding;
use crate::key::{Key, KeyCode, NONE};
use crate::normal::{last_column, normal_binding, pred};
use crate::state::{Mode, Pos, StateView};

verus! {

impl StateView {
    /// The state after `events`, one after the other.
    pub open spec fn run(self, events: Seq<Event>) -> StateView
        decreases events.len(),
    {
        if events.len() == 0 {
            self
        } else {
            self.run(events.drop_last()).handle(events.last())
        }
    }

    /// The state after `key` was pressed `times` times.
    pub open spec fn press_times(self, key: Key, times: nat) -> StateView
        decreases times,
    {
        if times == 0 {
            self
        } else {
            self.press(key).press_times(key, (times - 1) as nat)
        }
    }

    /// The state after each character of `text` was typed as a plain key
    /// press.
    pub open spec fn type_text(self, text: Seq<char>) -> StateView
        decreases text.len(),
    {
        if text.len() == 0 {
            self
        } else {
            self.type_text(text.drop_last()).press(Key::pressed(KeyCode::Char(text.last()), NONE))
        }
    }

    /// The normal and the insert cursor both stand on a line of the
    /// buffer, on one of its characters or just behind the last.
    pub open spec fn cursors_within(self) -> bool {
        self.normal.within(self.buffer) && self.insert.within(self.buffer)
    }

    /// `action` carries the normal or the insert cursor beyond the end
    /// of its line, from a state in which both stand within theirs.
    pub open spec fn strays(self, action: Action) -> bool {
        match action {
            Action::InsertAfter => {
                &&& self.insert.col == self.insert_line().len()
                &&& self.normal.col != last_column(self.normal_line().len() as int)
            },
            Action::MoveRight => {
                &&& self.insert.col == self.insert_line().len()
                &&& self.normal.col < last_column(self.normal_line().len() as int)
            },
            Action::MoveDown => {
                &&& self.normal.row < self.buffer.len() - 1
                &&& self.normal.col > self.buffer[self.normal.row + 1].len()
            },
            Action::MoveUp => {
                &&& self.normal.row > 0
                &&& self.normal.col > self.buffer[self.normal.row - 1].len()
            },
            Action::InsertEscape => pred(self.insert.col) > self.normal_line().len(),
            Action::InsertType(_) => {
                &&& self.normal.row != self.insert.row
                &&& self.normal.col == self.normal_line().len()
            },
            _ => false,
        }
    }
}

/// Every action leaves a well-formed state well-formed: the buffer keeps
/// at least one line, the normal and the insert cursor stay on rows that
/// exist, no column becomes negative, and the status bar names the mode.
pub proof fn lemma_apply_keeps_wf(s: StateView, action: Action)
    requires
        s.wf(),
    ensures
        s.apply(action).wf(),
{
}

/// Every event leaves a well-formed state well-formed.
pub proof fn lemma_handle_keeps_wf(s: StateView, event: Event)
    requires
        s.wf(),
    ensures
        s.handle(event).wf(),
{
    if let Event::Key(key) = event {
        if let Some(action) = resolve(s.mode, key) {
            lemma_apply_keeps_wf(s, action);
        }
    }
}

/// Whatever events arrive after the start, the state is well-formed.
pub proof fn lemma_reachable_states_are_wf(width: int, height: int, events: Seq<Event>)
    ensures
        StateView::initial(width, height).run(events).wf(),
    decreases events.len(),
{
    if events.len() > 0 {
        lemma_reachable_states_are_wf(width, height, events.drop_last());
        lemma_handle_keeps_wf(
            StateView::initial(width, height).run(events.drop_last()),
            events.last(),
        );
    }
}

/// From a state in which the normal and the insert cursor stand within
/// their lines, an action leaves them so exactly when it does not stray.
pub proof fn lemma_cursors_stay_within_unless_astray(s: StateView, action: Action)
    requires
        s.wf(),
        s.cursors_within(),
    ensures
        s.apply(action).cursors_within() <==> !s.strays(action),
{
}

/// In Insert mode, Escape, Enter and Backspace leave the insert cursor
/// within its line if it stood within it. After Enter, and after a
/// Backspace that joins two lines, the normal cursor stands within its
/// line too.
pub proof fn lemma_insert_keys_keep_the_insert_cursor_within(s: StateView, key: Key)
    requires
        s.wf(),
        s.mode == Mode::Insert,
        s.insert.within(s.buffer),
        insert_binding(key) is Some,
    ensures
        s.press(key).insert.within(s.press(key).buffer),
        key.code == KeyCode::Enter ==> s.press(key).normal.within(s.press(key).buffer),
        key.code == KeyCode::Backspace && s.insert.col == 0 && s.insert.row > 0 ==> s.press(
            key,
        ).normal.within(s.press(key).buffer),
{
}

/// In Insert mode, Enter adds one line, a Backspace at the start of a
/// line other than the first takes one away, and Escape and every other
/// Backspace leave the number of lines as it is. A Backspace at the
/// start of the first line changes nothing at all.
pub proof fn lemma_insert_keys_count_lines(s: StateView, key: Key)
    requires
        s.wf(),
        s.mode == Mode::Insert,
        insert_binding(key) is Some,
    ensures
        s.press(key).buffer.len() >= 1,
        s.press(key).buffer.len() as int == if key.code == KeyCode::Enter {
            s.buffer.len() as int + 1
        } else if key.code == KeyCode::Backspace && s.insert.col == 0 && s.insert.row > 0 {
            s.buffer.len() - 1
        } else {
            s.buffer.len() as int
        },
        key.code == KeyCode::Backspace && s.insert.col == 0 && s.insert.row == 0 ==> s.press(key)
            == s,
{
}

/// In Normal mode `l` moves the normal and the insert cursor one column
/// right while the normal cursor stands before the last character of
/// its line, and changes nothing once it stands on it or beyond.
pub proof fn lemma_l_stops_on_the_last_character(s: StateView)
    requires
        s.wf(),
        s.mode == Mode::Normal,
    ensures
        s.normal.col < s.normal_line().len() - 1 ==> s.press(
            Key::pressed(KeyCode::Char('l'), NONE),
        ) == (StateView {
            normal: Pos { col: s.normal.col + 1, row: s.normal.row },
            insert: Pos { col: s.insert.col + 1, row: s.insert.row },
            ..s
        }),
        s.normal.col >= s.normal_line().len() - 1 ==> s.press(
            Key::pressed(KeyCode::Char('l'), NONE),
        ) == s,
{
}

/// In Normal mode `j` moves the normal cursor one row down, but not
/// below the last line, and `k` one row up, but not above the first. The
/// row stays one of the buffer's, and nothing else changes.
pub proof fn lemma_j_and_k_stay_inside_the_buffer(s: StateView)
    requires
        s.wf(),
        s.mode == Mode::Normal,
    ensures
        s.press(Key::pressed(KeyCode::Char('j'), NONE)) == (StateView {
            normal: Pos {
                col: s.normal.col,
                row: if s.normal.row + 1 < s.buffer.len() {
                    s.normal.row + 1
                } else {
                    s.buffer.len() - 1
                },
            },
            ..s
        }),
        s.press(Key::pressed(KeyCode::Char('k'), NONE)) == (StateView {
            normal: Pos { col: s.normal.col, row: pred(s.normal.row) },
            ..s
        }),
        0 <= s.press(Key::pressed(KeyCode::Char('j'), NONE)).normal.row < s.buffer.len(),
        0 <= s.press(Key::pressed(KeyCode::Char('k'), NONE)).normal.row < s.buffer.len(),
{
}

/// No key bound in Normal mode changes the buffer, stops the editor, or
/// touches the terminal's size or the command cursor.
pub proof fn lemma_normal_keys_leave_the_buffer(s: StateView, key: Key)
    requires
        s.mode == Mode::Normal,
        normal_binding(key) is Some,
    ensures
        s.press(key).buffer == s.buffer,
        s.press(key).running == s.running,
        s.press(key).width == s.width,
        s.press(key).height == s.height,
        s.press(key).command_pos == s.command_pos,
{
}

/// Running the command line always leaves Command mode for Normal mode,
/// and stops the editor exactly when the command is `:q`.
pub proof fn lemma_command_execute_returns_to_normal(s: StateView)
    requires
        s.wf(),
    ensures
        s.command_execute().mode == Mode::Normal,
        s.command_execute().wf(),
        s.command_execute().running == (s.running && s.command != ":q"@),
{
}

/// Once the editor has stopped, no action starts it again.
pub proof fn lemma_stopped_stays_stopped(s: StateView, action: Action)
    requires
        !s.running,
    ensures
        !s.apply(action).running,
{
}

/// In Normal mode the Escape key changes nothing, whatever is held with
/// it.
pub proof fn lemma_escape_in_normal_mode_is_idle(s: StateView, key: Key)
    requires
        s.mode == Mode::Normal,
        key.code == KeyCode::Esc,
    ensures
        s.press(key) == s,
{
}

/// In Normal mode the Escape key changes nothing, however often it is
/// pressed.
pub proof fn lemma_repeated_escape_in_normal_mode_is_idle(s: StateView, key: Key, times: nat)
    requires
        s.mode == Mode::Normal,
        key.code == KeyCode::Esc,
    ensures
        s.press_times(key, times) == s,
    decreases times,
{
    if times > 0 {
        lemma_escape_in_normal_mode_is_idle(s, key);
        lemma_repeated_escape_in_normal_mode_is_idle(s, key, (times - 1) as nat);
    }
}

/// In Insert mode, with the insert cursor within its line, a typed
/// character followed by Backspace leaves the state as it was.
pub proof fn lemma_backspace_undoes_typed_char(s: StateView, c: char)
    requires
        s.wf(),
        s.mode == Mode::Insert,
        s.insert.within(s.buffer),
    ensures
        s.press(Key::pressed(KeyCode::Char(c), NONE)).press(
            Key::pressed(KeyCode::Backspace, NONE),
        ) == s,
{
    let typed = s.press(Key::pressed(KeyCode::Char(c), NONE));
    assert(typed == s.insert_type(c));
    let back = typed.press(Key::pressed(KeyCode::Backspace, NONE));
    assert(back == typed.insert_backspace());
    let line = s.insert_line();
    assert(line.insert(s.insert.col, c).remove(s.insert.col) =~= line);
    assert(back.buffer =~= s.buffer);
    assert(back =~= s);
}

/// Typing in Insert mode, with the insert cursor within its line, keeps
/// the state well-formed, the mode, and the insert cursor within its
/// line.
pub proof fn lemma_typing_stays_in_insert_mode(s: StateView, text: Seq<char>)
    requires
        s.wf(),
        s.mode == Mode::Insert,
        s.insert.within(s.buffer),
    ensures
        s.type_text(text).wf(),
        s.type_text(text).mode == Mode::Insert,
        s.type_text(text).insert.within(s.type_text(text).buffer),
    decreases text.len(),
{
    if text.len() > 0 {
        lemma_typing_stays_in_insert_mode(s, text.drop_last());
        let before = s.type_text(text.drop_last());
        assert(before.press(Key::pressed(KeyCode::Char(text.last()), NONE)) == before.insert_type(
            text.last(),
        ));
    }
}

/// In Insert mode, with the insert cursor within its line, typing any
/// text and then pressing Backspace once for each of its characters
/// leaves the state as it was: the line has its old content, and every
/// cursor its old place.
pub proof fn lemma_backspaces_undo_typed_text(s: StateView, text: Seq<char>)
    requires
        s.wf(),
        s.mode == Mode::Insert,
        s.insert.within(s.buffer),
    ensures
        s.type_text(text).press_times(Key::pressed(KeyCode::Backspace, NONE), text.len()) == s,
    decreases text.len(),
{
    if text.len() > 0 {
        let before = s.type_text(text.drop_last());
        lemma_typing_stays_in_insert_mode(s, text.drop_last());
        lemma_backspace_undoes_typed_char(before, text.last());
        lemma_backspaces_undo_typed_text(s, text.drop_last());
    }
}

} // verus!
