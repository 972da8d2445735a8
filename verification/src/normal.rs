//! Normal mode: moving the cursor and leaving for the other two modes.

use vstd::prelude::*;
use vstd::string::*;
use crate::action::Action;
use crate::key::{lemma_unshifted_binding_is_exact, Key, KeyCode, KeyKind, NONE, SHIFT};
use crate::state::{Mode, Pos, State, StateView};
use crate::text::char_count;

verus! {

/// `n - 1`, but not below zero.
pub open spec fn pred(n: int) -> int {
    if n > 0 {
        n - 1
    } else {
        0
    }
}

/// The column of the last character of a line of `len` characters; of
/// an empty line, its only column.
pub open spec fn last_column(len: int) -> int {
    pred(len)
}

impl StateView {
    /// Opens the command line: Command mode, with the prompt as the
    /// command text.
    pub open spec fn enter_command(self) -> StateView {
        StateView { command: ":"@, ..self.in_mode(Mode::Command) }
    }

    /// Insert mode, with the insert cursor one column further left where
    /// there is one.
    pub open spec fn insert_before(self) -> StateView {
        StateView {
            insert: Pos { col: pred(self.insert.col), ..self.insert },
            ..self.in_mode(Mode::Insert)
        }
    }

    /// Insert mode, with the insert cursor one column further right
    /// unless the normal cursor stands on the last column of its line.
    pub open spec fn insert_after(self) -> StateView {
        let col = if self.normal.col != last_column(self.normal_line().len() as int) {
            self.insert.col + 1
        } else {
            self.insert.col
        };
        StateView { insert: Pos { col, ..self.insert }, ..self.in_mode(Mode::Insert) }
    }

    /// The normal and the insert cursor each one column further left
    /// where there is one.
    pub open spec fn move_left(self) -> StateView {
        StateView {
            normal: Pos { col: pred(self.normal.col), ..self.normal },
            insert: Pos { col: pred(self.insert.col), ..self.insert },
            ..self
        }
    }

    /// The normal and the insert cursor each one column further right,
    /// as long as the normal cursor stays on a character of its line.
    pub open spec fn move_right(self) -> StateView {
        if self.normal.col < last_column(self.normal_line().len() as int) {
            StateView {
                normal: Pos { col: self.normal.col + 1, ..self.normal },
                insert: Pos { col: self.insert.col + 1, ..self.insert },
                ..self
            }
        } else {
            self
        }
    }

    /// The normal cursor one row further down, unless it stands on the
    /// last line. Its column stays as it is.
    pub open spec fn move_down(self) -> StateView {
        if self.normal.row < self.buffer.len() - 1 {
            StateView { normal: Pos { row: self.normal.row + 1, ..self.normal }, ..self }
        } else {
            self
        }
    }

    /// The normal cursor one row further up, unless it stands on the
    /// first line. Its column stays as it is.
    pub open spec fn move_up(self) -> StateView {
        if self.normal.row > 0 {
            StateView { normal: Pos { row: self.normal.row - 1, ..self.normal }, ..self }
        } else {
            self
        }
    }
}

impl State {
    /// Does to this state what [`StateView::enter_command`] says.
    pub fn enter_command(&mut self)
        requires
            old(self).wf(),
        ensures
            final(self)@ == old(self)@.enter_command(),
            final(self).wf(),
    {
        self.set_mode(Mode::Command);
        self.command = String::from_str(":");
    }

    /// Does to this state what [`StateView::insert_before`] says.
    pub fn insert_before(&mut self)
        requires
            old(self).wf(),
        ensures
            final(self)@ == old(self)@.insert_before(),
            final(self).wf(),
    {
        self.set_mode(Mode::Insert);
        self.cursor_pos.insert.0 = self.cursor_pos.insert.0.saturating_sub(1);
    }

    /// Does to this state what [`StateView::insert_after`] says.
    pub fn insert_after(&mut self)
        requires
            old(self).wf(),
            old(self)@.insert_after().fits(),
        ensures
            final(self)@ == old(self)@.insert_after(),
            final(self).wf(),
    {
        self.set_mode(Mode::Insert);
        let length = char_count(&self.buffer[self.cursor_pos.normal.1 as usize]);
        let last = if length > 0 {
            length - 1
        } else {
            0
        };
        if self.cursor_pos.normal.0 as usize != last {
            self.cursor_pos.insert.0 = self.cursor_pos.insert.0 + 1;
        }
    }

    /// Does to this state what [`StateView::move_left`] says.
    pub fn move_left(&mut self)
        ensures
            final(self)@ == old(self)@.move_left(),
            old(self).wf() ==> final(self).wf(),
    {
        self.cursor_pos.normal.0 = self.cursor_pos.normal.0.saturating_sub(1);
        self.cursor_pos.insert.0 = self.cursor_pos.insert.0.saturating_sub(1);
    }

    /// Does to this state what [`StateView::move_right`] says.
    pub fn move_right(&mut self)
        requires
            old(self).wf(),
            old(self)@.move_right().fits(),
        ensures
            final(self)@ == old(self)@.move_right(),
            old(self)@.normal.col >= last_column(old(self)@.normal_line().len() as int)
                ==> final(self)@ == old(self)@,
            final(self).wf(),
    {
        let length = char_count(&self.buffer[self.cursor_pos.normal.1 as usize]);
        if (self.cursor_pos.normal.0 as usize) + 1 < length {
            self.cursor_pos.normal.0 = self.cursor_pos.normal.0 + 1;
            self.cursor_pos.insert.0 = self.cursor_pos.insert.0 + 1;
        }
    }

    /// Does to this state what [`StateView::move_down`] says.
    pub fn move_down(&mut self)
        requires
            old(self).wf(),
            old(self)@.move_down().fits(),
        ensures
            final(self)@ == old(self)@.move_down(),
            final(self).wf(),
    {
        if (self.cursor_pos.normal.1 as usize) + 1 < self.buffer.len() {
            self.cursor_pos.normal.1 = self.cursor_pos.normal.1 + 1;
        }
    }

    /// Does to this state what [`StateView::move_up`] says.
    pub fn move_up(&mut self)
        ensures
            final(self)@ == old(self)@.move_up(),
            old(self).wf() ==> final(self).wf(),
    {
        if self.cursor_pos.normal.1 > 0 {
            self.cursor_pos.normal.1 = self.cursor_pos.normal.1 - 1;
        }
    }
}

/// The action that Normal mode binds `key` to: a plain press of one of
/// seven characters, and nothing else.
pub open spec fn normal_binding(key: Key) -> Option<Action> {
    if key.kind == KeyKind::Press && key.state == 0 && key.modifiers == NONE {
        match key.code {
            KeyCode::Char(c) => if c == ':' {
                Some(Action::EnterCommand)
            } else if c == 'i' {
                Some(Action::InsertBefore)
            } else if c == 'a' {
                Some(Action::InsertAfter)
            } else if c == 'h' {
                Some(Action::MoveLeft)
            } else if c == 'l' {
                Some(Action::MoveRight)
            } else if c == 'j' {
                Some(Action::MoveDown)
            } else if c == 'k' {
                Some(Action::MoveUp)
            } else {
                None
            },
            _ => None,
        }
    } else {
        None
    }
}

/// Looks `key` up among the keys of Normal mode.
pub fn normal_map(key: &Key) -> (action: Option<Action>)
    ensures
        action == normal_binding(*key),
{
    proof {
        assert(NONE & SHIFT == 0) by (bit_vector);
        lemma_unshifted_binding_is_exact(*key, KeyCode::Char(':'), NONE);
        lemma_unshifted_binding_is_exact(*key, KeyCode::Char('i'), NONE);
        lemma_unshifted_binding_is_exact(*key, KeyCode::Char('a'), NONE);
        lemma_unshifted_binding_is_exact(*key, KeyCode::Char('h'), NONE);
        lemma_unshifted_binding_is_exact(*key, KeyCode::Char('l'), NONE);
        lemma_unshifted_binding_is_exact(*key, KeyCode::Char('j'), NONE);
        lemma_unshifted_binding_is_exact(*key, KeyCode::Char('k'), NONE);
    }
    if key.matches(&Key::new(KeyCode::Char(':'), NONE)) {
        Some(Action::EnterCommand)
    } else if key.matches(&Key::new(KeyCode::Char('i'), NONE)) {
        Some(Action::InsertBefore)
    } else if key.matches(&Key::new(KeyCode::Char('a'), NONE)) {
        Some(Action::InsertAfter)
    } else if key.matches(&Key::new(KeyCode::Char('h'), NONE)) {
        Some(Action::MoveLeft)
    } else if key.matches(&Key::new(KeyCode::Char('l'), NONE)) {
        Some(Action::MoveRight)
    } else if key.matches(&Key::new(KeyCode::Char('j'), NONE)) {
        Some(Action::MoveDown)
    } else if key.matches(&Key::new(KeyCode::Char('k'), NONE)) {
        Some(Action::MoveUp)
    } else {
        None
    }
}

} // verus!
