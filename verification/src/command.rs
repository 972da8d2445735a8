//! Command mode: editing the command line and running what it says.

use vstd::prelude::*;
use vstd::string::*;
use crate::action::Action;
use crate::key::{lemma_unshifted_binding_is_exact, Key, KeyCode, KeyKind, CONTROL, NONE, SHIFT};
use crate::normal::pred;
use crate::state::{Mode, Pos, State, StateView};
use crate::text::{char_count, with_char_appended, without_last_char};

verus! {

impl StateView {
    /// Normal mode, with the command line cleared and the command cursor
    /// back behind the prompt.
    pub open spec fn command_to_normal(self) -> StateView {
        StateView {
            command: Seq::empty(),
            command_pos: Pos { col: 1, ..self.command_pos },
            ..self.in_mode(Mode::Normal)
        }
    }

    /// The command without its last character and the command cursor one
    /// column further left. Once nothing is left of the command, not
    /// even the prompt, the editor is back in Normal mode with the
    /// command cursor behind the prompt.
    pub open spec fn command_backspace(self) -> StateView {
        let command = if self.command.len() > 0 {
            self.command.drop_last()
        } else {
            self.command
        };
        if command.len() == 0 {
            StateView {
                command,
                command_pos: Pos { col: 1, ..self.command_pos },
                ..self.in_mode(Mode::Normal)
            }
        } else {
            StateView {
                command,
                command_pos: Pos { col: pred(self.command_pos.col), ..self.command_pos },
                ..self
            }
        }
    }

    /// Runs the command line, and goes back to Normal mode. `:q` stops
    /// the editor. Anything else is answered on the command line, with
    /// the command cursor back behind the prompt.
    pub open spec fn command_execute(self) -> StateView {
        if self.command == ":q"@ {
            StateView { running: false, ..self.in_mode(Mode::Normal) }
        } else {
            StateView {
                command: "Unknown command."@,
                command_pos: Pos { col: 1, ..self.command_pos },
                ..self.in_mode(Mode::Normal)
            }
        }
    }

    /// The command with `c` added, and the command cursor one column
    /// further right.
    pub open spec fn command_type(self, c: char) -> StateView {
        StateView {
            command: self.command.push(c),
            command_pos: Pos { col: self.command_pos.col + 1, ..self.command_pos },
            ..self
        }
    }
}

/// Leaves the command line for Normal mode.
pub fn command_to_normal(state: &mut State)
    requires
        old(state).wf(),
    ensures
        final(state)@ == old(state)@.command_to_normal(),
        final(state).wf(),
{
    state.set_mode(Mode::Normal);
    state.command = String::new();
    state.cursor_pos.command.0 = 1;
}

impl State {
    /// Does to this state what [`StateView::command_backspace`] says.
    pub fn command_backspace(&mut self)
        requires
            old(self).wf(),
        ensures
            final(self)@ == old(self)@.command_backspace(),
            final(self).wf(),
    {
        self.command = without_last_char(&self.command);
        self.cursor_pos.command.0 = self.cursor_pos.command.0.saturating_sub(1);
        if char_count(&self.command) == 0 {
            self.set_mode(Mode::Normal);
            self.cursor_pos.command.0 = 1;
        }
    }

    /// Does to this state what [`StateView::command_execute`] says.
    pub fn command_execute(&mut self)
        requires
            old(self).wf(),
        ensures
            final(self)@ == old(self)@.command_execute(),
            final(self).wf(),
    {
        if self.command == String::from_str(":q") {
            self.running = false;
            self.set_mode(Mode::Normal);
        } else {
            self.command = String::from_str("Unknown command.");
            self.set_mode(Mode::Normal);
            self.cursor_pos.command.0 = 1;
        }
    }

    /// Does to this state what [`StateView::command_type`] says.
    pub fn command_type(&mut self, c: char)
        requires
            old(self)@.command_type(c).fits(),
        ensures
            final(self)@ == old(self)@.command_type(c),
            old(self).wf() ==> final(self).wf(),
    {
        self.command = with_char_appended(&self.command, c);
        self.cursor_pos.command.0 = self.cursor_pos.command.0 + 1;
    }
}

/// The action that Command mode binds `key` to: a plain press of
/// Backspace, Escape or Enter, or `c` pressed with control alone.
pub open spec fn command_binding(key: Key) -> Option<Action> {
    if key.kind == KeyKind::Press && key.state == 0 {
        match key.code {
            KeyCode::Backspace => if key.modifiers == NONE {
                Some(Action::CommandBackspace)
            } else {
                None
            },
            KeyCode::Char(c) => if c == 'c' && key.modifiers == CONTROL {
                Some(Action::CommandToNormal)
            } else {
                None
            },
            KeyCode::Esc => if key.modifiers == NONE {
                Some(Action::CommandToNormal)
            } else {
                None
            },
            KeyCode::Enter => if key.modifiers == NONE {
                Some(Action::CommandExecute)
            } else {
                None
            },
            KeyCode::Other => None,
        }
    } else {
        None
    }
}

/// Looks `key` up among the keys of Command mode.
pub fn command_map(key: &Key) -> (action: Option<Action>)
    ensures
        action == command_binding(*key),
{
    proof {
        assert(NONE & SHIFT == 0) by (bit_vector);
        assert(CONTROL & SHIFT == 0) by (bit_vector);
        lemma_unshifted_binding_is_exact(*key, KeyCode::Backspace, NONE);
        lemma_unshifted_binding_is_exact(*key, KeyCode::Char('c'), CONTROL);
        lemma_unshifted_binding_is_exact(*key, KeyCode::Esc, NONE);
        lemma_unshifted_binding_is_exact(*key, KeyCode::Enter, NONE);
    }
    if key.matches(&Key::new(KeyCode::Backspace, NONE)) {
        Some(Action::CommandBackspace)
    } else if key.matches(&Key::new(KeyCode::Char('c'), CONTROL)) {
        Some(Action::CommandToNormal)
    } else if key.matches(&Key::new(KeyCode::Esc, NONE)) {
        Some(Action::CommandToNormal)
    } else if key.matches(&Key::new(KeyCode::Enter, NONE)) {
        Some(Action::CommandExecute)
    } else {
        None
    }
}

} // verus!
