//! What to paint: the screen as a list of terminal commands, in the
//! order in which they are to be sent.

use vstd::prelude::*;
use vstd::string::*;
use crate::state::{Mode, Pos, State, StateView};
use crate::text::repeated;

verus! {

/// The two cursor shapes that the editor uses.
#[derive(Clone, Copy, Debug, PartialEq, Eq, Structural)]
pub enum CursorShape {
    Block,
    Bar,
}

/// One command to the terminal.
#[derive(Clone, Debug, PartialEq, Eq)]
pub enum Paint {
    /// Clear the whole screen.
    Clear,
    /// Put the cursor on the cell at this column and row.
    MoveTo(u16, u16),
    /// Set the background colour, by its red, green and blue parts.
    Background(u8, u8, u8),
    /// Set the foreground colour to white.
    ForegroundWhite,
    /// Write this text at the cursor.
    Text(String),
    /// Go back to the terminal's own colours.
    ResetColor,
    /// Give the cursor this shape.
    Shape(CursorShape),
    /// Send everything written so far.
    Flush,
}

/// The model of a `Paint`.
pub enum PaintView {
    Clear,
    MoveTo(int, int),
    Background(int, int, int),
    ForegroundWhite,
    Text(Seq<char>),
    ResetColor,
    Shape(CursorShape),
    Flush,
}

impl View for Paint {
    type V = PaintView;

    open spec fn view(&self) -> PaintView {
        match *self {
            Paint::Clear => PaintView::Clear,
            Paint::MoveTo(col, row) => PaintView::MoveTo(col as int, row as int),
            Paint::Background(r, g, b) => PaintView::Background(r as int, g as int, b as int),
            Paint::ForegroundWhite => PaintView::ForegroundWhite,
            Paint::Text(text) => PaintView::Text(text@),
            Paint::ResetColor => PaintView::ResetColor,
            Paint::Shape(shape) => PaintView::Shape(shape),
            Paint::Flush => PaintView::Flush,
        }
    }
}

/// The models of a list of paints.
pub open spec fn frame_of(paints: Seq<Paint>) -> Seq<PaintView> {
    paints.map_values(|paint: Paint| paint@)
}

/// The row below line `index`, as a terminal with 65536 rows counts it.
pub open spec fn row_below(index: int) -> int {
    ((index + 1) as u16) as int
}

/// The paints for the first `count` lines of `buffer`: each line's text,
/// then the cursor to the start of the row below.
pub open spec fn buffer_paints(buffer: Seq<Seq<char>>, count: int) -> Seq<PaintView>
    decreases count,
{
    if count <= 0 {
        Seq::empty()
    } else {
        buffer_paints(buffer, count - 1) + seq![
            PaintView::Text(buffer[count - 1]),
            PaintView::MoveTo(0, row_below(count - 1)),
        ]
    }
}

impl StateView {
    /// The status bar: a band of the terminal's width in the bar's
    /// colours on the last row but one, and on it the mode's label
    /// behind one blank.
    pub open spec fn status_bar_frame(self) -> Seq<PaintView> {
        seq![
            PaintView::MoveTo(0, self.height - 2),
            PaintView::Background(29, 41, 61),
            PaintView::ForegroundWhite,
            PaintView::Text(Seq::new(self.width as nat, |i: int| ' ')),
            PaintView::MoveTo(0, self.height - 2),
            PaintView::Text(" "@ + self.status_bar[0]),
            PaintView::ResetColor,
        ]
    }

    /// Where the cursor is left, and in which shape: the cursor of the
    /// mode, as a block in Normal mode and as a bar in Insert mode; in
    /// Command mode the shape stays as it was.
    pub open spec fn cursor_frame(self) -> Seq<PaintView> {
        match self.mode {
            Mode::Normal => seq![
                PaintView::Shape(CursorShape::Block),
                PaintView::MoveTo(self.normal.col, self.normal.row),
            ],
            Mode::Command => seq![PaintView::MoveTo(self.command_pos.col, self.command_pos.row)],
            Mode::Insert => seq![
                PaintView::Shape(CursorShape::Bar),
                PaintView::MoveTo(self.insert.col, self.insert.row),
            ],
        }
    }

    /// The whole screen: cleared, then the status bar, the command line
    /// on the last row, the lines of the buffer from the top, and the
    /// cursor of the mode.
    pub open spec fn frame(self) -> Seq<PaintView> {
        seq![PaintView::Clear] + self.status_bar_frame() + seq![
            PaintView::MoveTo(0, self.height - 1),
            PaintView::Text(self.command),
            PaintView::MoveTo(0, 0),
        ] + buffer_paints(self.buffer, self.buffer.len() as int) + self.cursor_frame() + seq![
            PaintView::Flush,
        ]
    }
}

/// The paints for the status bar.
pub fn draw_status_bar(state: &State) -> (paints: Vec<Paint>)
    requires
        state.status_bar@.len() >= 1,
        state.height >= 2,
    ensures
        frame_of(paints@) == state@.status_bar_frame(),
{
    let row = state.height - 2;
    let mut label = String::from_str(" ");
    label.append(state.status_bar[0].as_str());
    let mut paints: Vec<Paint> = Vec::new();
    paints.push(Paint::MoveTo(0, row));
    paints.push(Paint::Background(29, 41, 61));
    paints.push(Paint::ForegroundWhite);
    paints.push(Paint::Text(repeated(' ', state.width as usize)));
    paints.push(Paint::MoveTo(0, row));
    paints.push(Paint::Text(label));
    paints.push(Paint::ResetColor);
    assert(frame_of(paints@) =~= state@.status_bar_frame());
    paints
}

/// The paints for the whole screen.
pub fn draw(state: &State) -> (paints: Vec<Paint>)
    requires
        state.status_bar@.len() >= 1,
        state.height >= 2,
    ensures
        frame_of(paints@) == state@.frame(),
{
    let mut paints: Vec<Paint> = Vec::new();
    paints.push(Paint::Clear);
    let mut bar = draw_status_bar(state);
    paints.append(&mut bar);
    paints.push(Paint::MoveTo(0, state.height - 1));
    paints.push(Paint::Text(state.command.clone()));
    paints.push(Paint::MoveTo(0, 0));
    let ghost head = frame_of(paints@);
    assert(head =~= seq![PaintView::Clear] + state@.status_bar_frame() + seq![
        PaintView::MoveTo(0, state@.height - 1),
        PaintView::Text(state@.command),
        PaintView::MoveTo(0, 0),
    ]);
    let mut index: usize = 0;
    while index < state.buffer.len()
        invariant
            index <= state.buffer.len(),
            frame_of(paints@) == head + buffer_paints(state@.buffer, index as int),
        decreases state.buffer.len() - index,
    {
        let ghost before = frame_of(paints@);
        paints.push(Paint::Text(state.buffer[index].clone()));
        paints.push(Paint::MoveTo(0, (index + 1) as u16));
        assert(frame_of(paints@) =~= before + seq![
            PaintView::Text(state@.buffer[index as int]),
            PaintView::MoveTo(0, row_below(index as int)),
        ]);
        index = index + 1;
    }
    let ghost body = frame_of(paints@);
    match state.mode {
        Mode::Normal => {
            paints.push(Paint::Shape(CursorShape::Block));
            paints.push(Paint::MoveTo(state.cursor_pos.normal.0, state.cursor_pos.normal.1));
        },
        Mode::Command => {
            paints.push(Paint::MoveTo(state.cursor_pos.command.0, state.cursor_pos.command.1));
        },
        Mode::Insert => {
            paints.push(Paint::Shape(CursorShape::Bar));
            paints.push(Paint::MoveTo(state.cursor_pos.insert.0, state.cursor_pos.insert.1));
        },
    }
    paints.push(Paint::Flush);
    assert(frame_of(paints@) =~= body + state@.cursor_frame() + seq![PaintView::Flush]);
    paints
}

} // verus!
