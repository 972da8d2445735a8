//! The editor's state, and the mathematical model in which its behaviour
//! is stated.

use vstd::prelude::*;
use vstd::string::*;

verus! {

/// The three ways in which the editor reads a key.
#[derive(Clone, Copy, Debug, PartialEq, Eq, Structural)]
pub enum Mode {
    Normal,
    Command,
    Insert,
}

/// One cursor per mode, each a (column, row) pair of terminal cells.
#[derive(Clone, Copy, Debug, PartialEq, Eq)]
pub struct Cursor {
    pub normal: (u16, u16),
    pub command: (u16, u16),
    pub insert: (u16, u16),
}

/// Everything the editor knows: whether it still runs, the terminal's
/// size, the mode with its label in the status bar, the cursors, the
/// command line and the lines of text.
#[derive(Clone, Debug, PartialEq, Eq)]
pub struct State {
    pub running: bool,
    pub width: u16,
    pub height: u16,
    pub mode: Mode,
    pub cursor_pos: Cursor,
    pub status_bar: Vec<String>,
    pub command: String,
    pub buffer: Vec<String>,
}

/// A cursor position in the model.
pub struct Pos {
    pub col: int,
    pub row: int,
}

/// The model of a `State`: numbers are mathematical integers and text is
/// a sequence of characters.
#[verifier::ext_equal]
pub struct StateView {
    pub running: bool,
    pub width: int,
    pub height: int,
    pub mode: Mode,
    pub normal: Pos,
    pub command_pos: Pos,
    pub insert: Pos,
    pub status_bar: Seq<Seq<char>>,
    pub command: Seq<char>,
    pub buffer: Seq<Seq<char>>,
}

/// The word that the status bar shows for `mode`.
pub open spec fn label(mode: Mode) -> Seq<char> {
    match mode {
        Mode::Normal => "NORMAL"@,
        Mode::Command => "COMMAND"@,
        Mode::Insert => "INSERT"@,
    }
}

/// The character sequences of a list of strings.
pub open spec fn texts(lines: Seq<String>) -> Seq<Seq<char>> {
    lines.map_values(|line: String| line@)
}

/// The model position of a (column, row) pair.
pub open spec fn pos(cell: (u16, u16)) -> Pos {
    Pos { col: cell.0 as int, row: cell.1 as int }
}

impl Pos {
    /// Both coordinates are terminal cell numbers.
    pub open spec fn fits(self) -> bool {
        0 <= self.col <= u16::MAX && 0 <= self.row <= u16::MAX
    }

    /// This position lies on a line of `buffer`, on one of its characters
    /// or just behind the last.
    pub open spec fn within(self, buffer: Seq<Seq<char>>) -> bool {
        &&& 0 <= self.row < buffer.len()
        &&& 0 <= self.col <= buffer[self.row].len()
    }
}

impl StateView {
    /// The state in which the editor starts on a terminal of the given
    /// size: one empty line, Normal mode, the buffer cursors at the
    /// origin and the command cursor behind the prompt on the last row.
    pub open spec fn initial(width: int, height: int) -> StateView {
        StateView {
            running: true,
            width,
            height,
            mode: Mode::Normal,
            normal: Pos { col: 0, row: 0 },
            command_pos: Pos { col: 1, row: height - 1 },
            insert: Pos { col: 0, row: 0 },
            status_bar: seq![label(Mode::Normal)],
            command: Seq::empty(),
            buffer: seq![Seq::empty()],
        }
    }

    /// What holds of every state the editor can be in: there is at least
    /// one line, the normal and the insert cursor each stand on a line
    /// that exists, no column is negative, and the status bar names the
    /// mode.
    pub open spec fn wf(self) -> bool {
        &&& self.buffer.len() >= 1
        &&& 0 <= self.normal.row < self.buffer.len()
        &&& 0 <= self.insert.row < self.buffer.len()
        &&& 0 <= self.normal.col
        &&& 0 <= self.insert.col
        &&& 0 <= self.command_pos.col
        &&& self.status_bar.len() >= 1
        &&& self.status_bar[0] == label(self.mode)
    }

    /// Every coordinate is a terminal cell number.
    pub open spec fn fits(self) -> bool {
        &&& self.normal.fits()
        &&& self.command_pos.fits()
        &&& self.insert.fits()
        &&& 0 <= self.width <= u16::MAX
        &&& 0 <= self.height <= u16::MAX
    }

    /// The line on which the normal cursor stands.
    pub open spec fn normal_line(self) -> Seq<char> {
        self.buffer[self.normal.row]
    }

    /// The line on which the insert cursor stands.
    pub open spec fn insert_line(self) -> Seq<char> {
        self.buffer[self.insert.row]
    }

    /// This state in `mode`, with the status bar saying so.
    pub open spec fn in_mode(self, mode: Mode) -> StateView {
        StateView { mode, status_bar: self.status_bar.update(0, label(mode)), ..self }
    }
}

impl View for State {
    type V = StateView;

    open spec fn view(&self) -> StateView {
        StateView {
            running: self.running,
            width: self.width as int,
            height: self.height as int,
            mode: self.mode,
            normal: pos(self.cursor_pos.normal),
            command_pos: pos(self.cursor_pos.command),
            insert: pos(self.cursor_pos.insert),
            status_bar: texts(self.status_bar@),
            command: self.command@,
            buffer: texts(self.buffer@),
        }
    }
}

impl State {
    /// See [`StateView::wf`].
    pub open spec fn wf(&self) -> bool {
        self@.wf()
    }

    /// The editor's first state on a terminal of `width` by `height`
    /// cells.
    pub fn new(width: u16, height: u16) -> (state: State)
        requires
            height >= 1,
        ensures
            state@ == StateView::initial(width as int, height as int),
            state.wf(),
    {
        let mut status_bar: Vec<String> = Vec::new();
        status_bar.push(String::from_str("NORMAL"));
        let mut buffer: Vec<String> = Vec::new();
        buffer.push(String::new());
        let state = State {
            running: true,
            width,
            height,
            mode: Mode::Normal,
            cursor_pos: Cursor { normal: (0, 0), command: (1, height - 1), insert: (0, 0) },
            status_bar,
            command: String::new(),
            buffer,
        };
        assert(state@ =~~= StateView::initial(width as int, height as int));
        state
    }

    /// Whether this state is well-formed.
    pub fn is_wf(&self) -> (ok: bool)
        ensures
            ok == self.wf(),
    {
        if self.buffer.len() == 0 || self.status_bar.len() == 0 {
            return false;
        }
        let word = match self.mode {
            Mode::Normal => String::from_str("NORMAL"),
            Mode::Command => String::from_str("COMMAND"),
            Mode::Insert => String::from_str("INSERT"),
        };
        (self.cursor_pos.normal.1 as usize) < self.buffer.len()
            && (self.cursor_pos.insert.1 as usize) < self.buffer.len()
            && self.status_bar[0] == word
    }

    /// Sets the mode and writes its label into the status bar.
    pub fn set_mode(&mut self, mode: Mode)
        requires
            old(self).status_bar@.len() >= 1,
        ensures
            final(self)@ == old(self)@.in_mode(mode),
    {
        self.mode = mode;
        let word = match mode {
            Mode::Normal => String::from_str("NORMAL"),
            Mode::Command => String::from_str("COMMAND"),
            Mode::Insert => String::from_str("INSERT"),
        };
        self.status_bar.set(0, word);
        assert(final(self)@ =~~= old(self)@.in_mode(mode));
    }
}

} // verus!
