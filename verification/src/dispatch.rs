//! From a terminal event to the editor's next state: which action a key
//! stands for in which mode, and what each action does.

use vstd::prelude::*;
use crate::action::{Action, Outcome};
use crate::command::{command_binding, command_map, command_to_normal};
use crate::insert::{insert_binding, insert_map};
use crate::key::{lemma_unshifted_binding_is_exact, Key, KeyCode, KeyKind, CONTROL, SHIFT};
use crate::normal::{normal_binding, normal_map};
use crate::state::{Mode, State, StateView};
use crate::text::char_count;

verus! {

/// What the terminal reports: a key, a new size, or something the editor
/// does not react to.
#[derive(Clone, Copy, Debug, PartialEq, Eq, Structural)]
pub enum Event {
    Key(Key),
    Resize(u16, u16),
    Other,
}

/// The action bound to `key` in every mode: `z` pressed with control
/// alone stops the editor.
pub open spec fn global_binding(key: Key) -> Option<Action> {
    if key == Key::pressed(KeyCode::Char('z'), CONTROL) {
        Some(Action::Kill)
    } else {
        None
    }
}

/// The action bound to `key` in `mode` alone.
pub open spec fn mode_binding(mode: Mode, key: Key) -> Option<Action> {
    match mode {
        Mode::Normal => normal_binding(key),
        Mode::Command => command_binding(key),
        Mode::Insert => insert_binding(key),
    }
}

/// The action that `key` stands for in `mode`. A key bound in every mode
/// comes first, then a key bound in `mode`. A character key bound to
/// nothing is typed text in Command and in Insert mode. Every other key
/// stands for no action.
pub open spec fn resolve(mode: Mode, key: Key) -> Option<Action> {
    if global_binding(key) is Some {
        global_binding(key)
    } else if mode_binding(mode, key) is Some {
        mode_binding(mode, key)
    } else {
        match (mode, key.code) {
            (Mode::Command, KeyCode::Char(c)) => Some(Action::CommandType(c)),
            (Mode::Insert, KeyCode::Char(c)) => Some(Action::InsertType(c)),
            _ => None,
        }
    }
}

/// Whether the screen is painted again after `action`: always, except
/// when the editor is stopped at once.
pub open spec fn outcome_of(action: Action) -> Outcome {
    match action {
        Action::Kill => Outcome::Skip,
        _ => Outcome::Redraw,
    }
}

impl StateView {
    /// The editor stopped.
    pub open spec fn kill(self) -> StateView {
        StateView { running: false, ..self }
    }

    /// The editor on a terminal of a new size.
    pub open spec fn resize(self, width: int, height: int) -> StateView {
        StateView { width, height, ..self }
    }

    /// The state after `action`.
    pub open spec fn apply(self, action: Action) -> StateView {
        match action {
            Action::Kill => self.kill(),
            Action::EnterCommand => self.enter_command(),
            Action::InsertBefore => self.insert_before(),
            Action::InsertAfter => self.insert_after(),
            Action::MoveLeft => self.move_left(),
            Action::MoveRight => self.move_right(),
            Action::MoveDown => self.move_down(),
            Action::MoveUp => self.move_up(),
            Action::CommandBackspace => self.command_backspace(),
            Action::CommandToNormal => self.command_to_normal(),
            Action::CommandExecute => self.command_execute(),
            Action::CommandType(c) => self.command_type(c),
            Action::InsertEscape => self.insert_escape(),
            Action::InsertNewline => self.insert_newline(),
            Action::InsertBackspace => self.insert_backspace(),
            Action::InsertType(c) => self.insert_type(c),
        }
    }

    /// `action` leaves every cursor on a cell that the terminal can
    /// number.
    pub open spec fn admits(self, action: Action) -> bool {
        self.apply(action).fits()
    }

    /// The state after `key` was pressed.
    pub open spec fn press(self, key: Key) -> StateView {
        match resolve(self.mode, key) {
            Some(action) => self.apply(action),
            None => self,
        }
    }

    /// The state after `event`.
    pub open spec fn handle(self, event: Event) -> StateView {
        match event {
            Event::Key(key) => self.press(key),
            Event::Resize(width, height) => self.resize(width as int, height as int),
            Event::Other => self,
        }
    }
}

/// What follows `event` in a state of mode `mode`: the screen is painted
/// again after a new size and after every action but the one that stops
/// the editor at once.
pub open spec fn outcome_in(mode: Mode, event: Event) -> Outcome {
    match event {
        Event::Key(key) => match resolve(mode, key) {
            Some(action) => outcome_of(action),
            None => Outcome::Skip,
        },
        Event::Resize(_, _) => Outcome::Redraw,
        Event::Other => Outcome::Skip,
    }
}

/// Looks `key` up among the keys bound in every mode.
pub fn global_map(key: &Key) -> (action: Option<Action>)
    ensures
        action == global_binding(*key),
{
    proof {
        assert(CONTROL & SHIFT == 0) by (bit_vector);
        lemma_unshifted_binding_is_exact(*key, KeyCode::Char('z'), CONTROL);
    }
    if key.matches(&Key::new(KeyCode::Char('z'), CONTROL)) {
        Some(Action::Kill)
    } else {
        None
    }
}

/// Turns a key pressed in `mode` into the action it stands for, if any.
pub fn into_action(mode: &Mode, key: &Key) -> (action: Option<Action>)
    ensures
        action == resolve(*mode, *key),
{
    if let Some(action) = global_map(key) {
        return Some(action);
    }
    let bound = match mode {
        Mode::Normal => normal_map(key),
        Mode::Command => command_map(key),
        Mode::Insert => insert_map(key),
    };
    if let Some(action) = bound {
        return Some(action);
    }
    match (mode, key.code) {
        (Mode::Command, KeyCode::Char(c)) => Some(Action::CommandType(c)),
        (Mode::Insert, KeyCode::Char(c)) => Some(Action::InsertType(c)),
        _ => None,
    }
}

impl State {
    /// Stops the editor.
    pub fn kill(&mut self)
        ensures
            final(self)@ == old(self)@.kill(),
            old(self).wf() ==> final(self).wf(),
    {
        self.running = false;
    }

    /// Takes note of the terminal's new size.
    pub fn resize(&mut self, width: u16, height: u16)
        ensures
            final(self)@ == old(self)@.resize(width as int, height as int),
            old(self).wf() ==> final(self).wf(),
    {
        self.width = width;
        self.height = height;
    }

    /// Whether `action` can be applied: whether it leaves every cursor
    /// on a cell that the terminal can number.
    pub fn admits(&self, action: &Action) -> (ok: bool)
        requires
            self.wf(),
        ensures
            ok == self@.admits(*action),
    {
        let normal = self.cursor_pos.normal;
        let insert = self.cursor_pos.insert;
        match action {
            Action::InsertAfter => {
                let length = char_count(&self.buffer[normal.1 as usize]);
                let last = if length > 0 {
                    length - 1
                } else {
                    0
                };
                normal.0 as usize == last || insert.0 < u16::MAX
            },
            Action::MoveRight => {
                let length = char_count(&self.buffer[normal.1 as usize]);
                normal.0 as usize + 1 >= length || (normal.0 < u16::MAX && insert.0 < u16::MAX)
            },
            Action::MoveDown => {
                normal.1 as usize + 1 >= self.buffer.len() || normal.1 < u16::MAX
            },
            Action::CommandType(_) => self.cursor_pos.command.0 < u16::MAX,
            Action::InsertNewline => insert.1 < u16::MAX,
            Action::InsertBackspace => {
                if insert.0 == 0 && insert.1 > 0 {
                    char_count(&self.buffer[insert.1 as usize - 1]) <= u16::MAX as usize
                } else {
                    true
                }
            },
            Action::InsertType(_) => insert.0 < u16::MAX && normal.0 < u16::MAX,
            _ => true,
        }
    }

    /// Carries out `action`.
    pub fn apply(&mut self, action: Action) -> (outcome: Outcome)
        requires
            old(self).wf(),
            old(self)@.admits(action),
        ensures
            final(self)@ == old(self)@.apply(action),
            final(self).wf(),
            outcome == outcome_of(action),
    {
        match action {
            Action::Kill => {
                self.kill();
                return Outcome::Skip;
            },
            Action::EnterCommand => self.enter_command(),
            Action::InsertBefore => self.insert_before(),
            Action::InsertAfter => self.insert_after(),
            Action::MoveLeft => self.move_left(),
            Action::MoveRight => self.move_right(),
            Action::MoveDown => self.move_down(),
            Action::MoveUp => self.move_up(),
            Action::CommandBackspace => self.command_backspace(),
            Action::CommandToNormal => command_to_normal(self),
            Action::CommandExecute => self.command_execute(),
            Action::CommandType(c) => self.command_type(c),
            Action::InsertEscape => self.insert_escape(),
            Action::InsertNewline => self.insert_newline(),
            Action::InsertBackspace => self.insert_backspace(),
            Action::InsertType(c) => self.insert_type(c),
        }
        Outcome::Redraw
    }

    /// Whether `event` can be handled: whether the action it stands for,
    /// if any, can be applied.
    pub fn accepts(&self, event: &Event) -> (ok: bool)
        requires
            self.wf(),
        ensures
            ok == self@.handle(*event).fits(),
    {
        match event {
            Event::Key(key) => match into_action(&self.mode, key) {
                Some(action) => self.admits(&action),
                None => true,
            },
            _ => true,
        }
    }

    /// Reacts to a pressed key.
    pub fn press(&mut self, key: &Key) -> (outcome: Outcome)
        requires
            old(self).wf(),
            old(self)@.press(*key).fits(),
        ensures
            final(self)@ == old(self)@.press(*key),
            final(self).wf(),
            outcome == outcome_in(old(self).mode, Event::Key(*key)),
    {
        match into_action(&self.mode, key) {
            Some(action) => self.apply(action),
            None => Outcome::Skip,
        }
    }

    /// Reacts to one event from the terminal.
    pub fn handle(&mut self, event: &Event) -> (outcome: Outcome)
        requires
            old(self).wf(),
            old(self)@.handle(*event).fits(),
        ensures
            final(self)@ == old(self)@.handle(*event),
            final(self).wf(),
            outcome == outcome_in(old(self).mode, *event),
    {
        match event {
            Event::Key(key) => self.press(key),
            Event::Resize(width, height) => {
                self.resize(*width, *height);
                Outcome::Redraw
            },
            Event::Other => Outcome::Skip,
        }
    }
}

} // verus!
