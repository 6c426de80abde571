use vstd::prelude::*;

verus! {

/// A foreground colour of the terminal.
#[derive(Debug, Clone, Copy, PartialEq, Eq, Structural)]
pub enum Color {
    Green,
    Yellow,
    /// The terminal's own colour.
    Reset,
}

/// One command to a terminal. A view hands out the commands that draw it;
/// whoever owns the terminal carries them out, in order.
#[derive(Debug, PartialEq, Eq)]
pub enum Draw {
    /// Moves the cursor to a column and a row, both counted from 1.
    Goto { col: u16, row: u16 },
    /// Clears the whole screen.
    ClearAll,
    /// Clears the line the cursor is on.
    ClearCurrentLine,
    /// Clears everything after the cursor.
    ClearAfterCursor,
    HideCursor,
    ShowCursor,
    /// Shows the cursor as a blinking bar.
    BlinkingBar,
    /// Shows the cursor as a steady block.
    SteadyBlock,
    /// Moves the cursor up by a number of rows.
    Up(u16),
    /// Moves the cursor down by a number of rows.
    Down(u16),
    /// Sets the colour of the text that follows.
    Foreground(Color),
    /// Makes the text that follows bold.
    Bold,
    /// Writes text where the cursor is.
    Print(String),
}

/// The value of a [`Draw`].
pub ghost enum DrawView {
    Goto { col: u16, row: u16 },
    ClearAll,
    ClearCurrentLine,
    ClearAfterCursor,
    HideCursor,
    ShowCursor,
    BlinkingBar,
    SteadyBlock,
    Up(u16),
    Down(u16),
    Foreground(Color),
    Bold,
    Print(Seq<char>),
}

impl View for Draw {
    type V = DrawView;

    open spec fn view(&self) -> DrawView {
        match *self {
            Draw::Goto { col, row } => DrawView::Goto { col, row },
            Draw::ClearAll => DrawView::ClearAll,
            Draw::ClearCurrentLine => DrawView::ClearCurrentLine,
            Draw::ClearAfterCursor => DrawView::ClearAfterCursor,
            Draw::HideCursor => DrawView::HideCursor,
            Draw::ShowCursor => DrawView::ShowCursor,
            Draw::BlinkingBar => DrawView::BlinkingBar,
            Draw::SteadyBlock => DrawView::SteadyBlock,
            Draw::Up(rows) => DrawView::Up(rows),
            Draw::Down(rows) => DrawView::Down(rows),
            Draw::Foreground(color) => DrawView::Foreground(color),
            Draw::Bold => DrawView::Bold,
            Draw::Print(text) => DrawView::Print(text@),
        }
    }
}

/// The values of a sequence of commands, in the same order.
pub open spec fn draw_views(draws: Seq<Draw>) -> Seq<DrawView> {
    Seq::new(draws.len(), |i: int| draws[i]@)
}

} // verus!
