//! What a key press can ask of the editor.

use vstd::prelude::*;

verus! {

/// The actions that keys are bound to, and the two that stand for typed
/// text.
#[derive(Clone, Copy, Debug, PartialEq, Eq, Structural)]
pub enum Action {
    /// Stop the editor at once, from any mode.
    Kill,
    /// Normal mode: open the command line.
    EnterCommand,
    /// Normal mode: start inserting before the cursor.
    InsertBefore,
    /// Normal mode: start inserting after the cursor.
    InsertAfter,
    /// Normal mode: one column to the left.
    MoveLeft,
    /// Normal mode: one column to the right.
    MoveRight,
    /// Normal mode: one row down.
    MoveDown,
    /// Normal mode: one row up.
    MoveUp,
    /// Command mode: delete the last character of the command.
    CommandBackspace,
    /// Command mode: leave the command line.
    CommandToNormal,
    /// Command mode: run the command.
    CommandExecute,
    /// Command mode: add a character to the command.
    CommandType(char),
    /// Insert mode: back to Normal mode.
    InsertEscape,
    /// Insert mode: break the line at the cursor.
    InsertNewline,
    /// Insert mode: delete before the cursor.
    InsertBackspace,
    /// Insert mode: put a character at the cursor.
    InsertType(char),
}

/// Whether the screen is to be painted again after a step.
#[derive(Clone, Copy, Debug, PartialEq, Eq, Structural)]
pub enum Outcome {
    Redraw,
    Skip,
}

} // verus!
