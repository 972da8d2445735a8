//! Insert mode: typing into the buffer, breaking and joining lines.

use vstd::prelude::*;
use vstd::string::*;
use crate::action::Action;
use crate::command::command_to_normal;
use crate::key::{lemma_unshifted_binding_is_exact, Key, KeyCode, KeyKind, NONE, SHIFT};
use crate::normal::pred;
use crate::state::{Mode, Pos, State, StateView};
use crate::text::{char_count, joined, split_at_char, with_char_inserted, with_char_removed};

verus! {

/// `col`, but not beyond a line of `len` characters.
pub open spec fn clamped(col: int, len: int) -> int {
    if col < len {
        col
    } else {
        len
    }
}

impl StateView {
    /// Back to Normal mode as from the command line, with the normal
    /// cursor on the character before the insert cursor.
    pub open spec fn insert_escape(self) -> StateView {
        StateView {
            normal: Pos { col: pred(self.insert.col), ..self.normal },
            ..self
        }.command_to_normal()
    }

    /// Breaks the insert cursor's line at the cursor: what stands before
    /// it stays, what stands from it onward becomes the next line. Both
    /// buffer cursors go to the start of that new line.
    pub open spec fn insert_newline(self) -> StateView {
        let line = self.insert_line();
        let at = clamped(self.insert.col, line.len() as int);
        let start = Pos { col: 0, row: self.insert.row + 1 };
        StateView {
            buffer: self.buffer.update(self.insert.row, line.subrange(0, at)).insert(
                self.insert.row + 1,
                line.subrange(at, line.len() as int),
            ),
            normal: start,
            insert: start,
            ..self
        }
    }

    /// Deletes before the insert cursor. Within a line, the character
    /// before the cursor goes, if there is one, and both buffer cursors
    /// move one column left. At the start of a line other than the
    /// first, the line is joined to the one above, and both buffer
    /// cursors go to where the two meet. At the start of the first line
    /// nothing happens.
    pub open spec fn insert_backspace(self) -> StateView {
        let line = self.insert_line();
        if self.insert.col > 0 {
            StateView {
                buffer: if self.insert.col - 1 < line.len() {
                    self.buffer.update(self.insert.row, line.remove(self.insert.col - 1))
                } else {
                    self.buffer
                },
                normal: Pos { col: pred(self.normal.col), ..self.normal },
                insert: Pos { col: self.insert.col - 1, ..self.insert },
                ..self
            }
        } else if self.insert.row > 0 {
            let above = self.buffer[self.insert.row - 1];
            let seam = Pos { col: above.len() as int, row: self.insert.row - 1 };
            StateView {
                buffer: self.buffer.remove(self.insert.row).update(
                    self.insert.row - 1,
                    above + line,
                ),
                normal: seam,
                insert: seam,
                ..self
            }
        } else {
            self
        }
    }

    /// Puts `c` into the insert cursor's line at the cursor, or at the
    /// line's end where the cursor stands beyond it. Both buffer cursors
    /// move one column right.
    pub open spec fn insert_type(self, c: char) -> StateView {
        let line = self.insert_line();
        let at = clamped(self.insert.col, line.len() as int);
        StateView {
            buffer: self.buffer.update(self.insert.row, line.insert(at, c)),
            normal: Pos { col: self.normal.col + 1, ..self.normal },
            insert: Pos { col: self.insert.col + 1, ..self.insert },
            ..self
        }
    }
}

impl State {
    /// Does to this state what [`StateView::insert_escape`] says.
    pub fn insert_escape(&mut self)
        requires
            old(self).wf(),
        ensures
            final(self)@ == old(self)@.insert_escape(),
            final(self).wf(),
    {
        self.cursor_pos.normal.0 = self.cursor_pos.insert.0.saturating_sub(1);
        command_to_normal(self);
    }

    /// Does to this state what [`StateView::insert_newline`] says.
    pub fn insert_newline(&mut self)
        requires
            old(self).wf(),
            old(self)@.insert_newline().fits(),
        ensures
            final(self)@ == old(self)@.insert_newline(),
            final(self).wf(),
    {
        let (col, row) = self.cursor_pos.insert;
        let line = &self.buffer[row as usize];
        let length = char_count(line);
        let at = if (col as usize) < length {
            col as usize
        } else {
            length
        };
        let (head, tail) = split_at_char(line, at);
        self.buffer.set(row as usize, head);
        self.buffer.insert(row as usize + 1, tail);
        self.cursor_pos.normal = (0, row + 1);
        self.cursor_pos.insert = (0, row + 1);
        assert(final(self)@ =~~= old(self)@.insert_newline());
    }

    /// Does to this state what [`StateView::insert_backspace`] says.
    pub fn insert_backspace(&mut self)
        requires
            old(self).wf(),
            old(self)@.insert_backspace().fits(),
        ensures
            final(self)@ == old(self)@.insert_backspace(),
            final(self).wf(),
    {
        let (col, row) = self.cursor_pos.insert;
        if col > 0 {
            let at = (col - 1) as usize;
            let line = &self.buffer[row as usize];
            if at < char_count(line) {
                let edited = with_char_removed(line, at);
                self.buffer.set(row as usize, edited);
            }
            self.cursor_pos.normal.0 = self.cursor_pos.normal.0.saturating_sub(1);
            self.cursor_pos.insert.0 = col - 1;
        } else if row > 0 {
            let line = self.buffer.remove(row as usize);
            let above = &self.buffer[row as usize - 1];
            let seam = char_count(above);
            let merged = joined(above, &line);
            self.buffer.set(row as usize - 1, merged);
            self.cursor_pos.insert = (seam as u16, row - 1);
            self.cursor_pos.normal = (seam as u16, row - 1);
        }
        assert(final(self)@ =~~= old(self)@.insert_backspace());
    }

    /// Does to this state what [`StateView::insert_type`] says.
    pub fn insert_type(&mut self, c: char)
        requires
            old(self).wf(),
            old(self)@.insert_type(c).fits(),
        ensures
            final(self)@ == old(self)@.insert_type(c),
            final(self).wf(),
    {
        let (col, row) = self.cursor_pos.insert;
        let line = &self.buffer[row as usize];
        let length = char_count(line);
        let at = if (col as usize) < length {
            col as usize
        } else {
            length
        };
        let edited = with_char_inserted(line, at, c);
        self.buffer.set(row as usize, edited);
        self.cursor_pos.insert.0 = col + 1;
        self.cursor_pos.normal.0 = self.cursor_pos.normal.0 + 1;
        assert(final(self)@ =~~= old(self)@.insert_type(c));
    }
}

/// The action that Insert mode binds `key` to: a plain press of Escape,
/// Enter or Backspace, and nothing else.
pub open spec fn insert_binding(key: Key) -> Option<Action> {
    if key.kind == KeyKind::Press && key.state == 0 && key.modifiers == NONE {
        match key.code {
            KeyCode::Esc => Some(Action::InsertEscape),
            KeyCode::Enter => Some(Action::InsertNewline),
            KeyCode::Backspace => Some(Action::InsertBackspace),
            _ => None,
        }
    } else {
        None
    }
}

/// Looks `key` up among the keys of Insert mode.
pub fn insert_map(key: &Key) -> (action: Option<Action>)
    ensures
        action == insert_binding(*key),
{
    proof {
        assert(NONE & SHIFT == 0) by (bit_vector);
        lemma_unshifted_binding_is_exact(*key, KeyCode::Esc, NONE);
        lemma_unshifted_binding_is_exact(*key, KeyCode::Enter, NONE);
        lemma_unshifted_binding_is_exact(*key, KeyCode::Backspace, NONE);
    }
    if key.matches(&Key::new(KeyCode::Esc, NONE)) {
        Some(Action::InsertEscape)
    } else if key.matches(&Key::new(KeyCode::Enter, NONE)) {
        Some(Action::InsertNewline)
    } else if key.matches(&Key::new(KeyCode::Backspace, NONE)) {
        Some(Action::InsertBackspace)
    } else {
        None
    }
}

} // verus!
