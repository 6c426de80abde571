use crate::models::entries::{render_line, views, Entry, EntryView, JournalEntry};
use crate::text::{decimal, decimal_text};
use crate::views::terminal::{draw_views, Color, Draw, DrawView};
use vstd::prelude::*;

verus! {

/// The furthest column and the furthest row that the cursor goes to.
pub const CURSOR_LIMIT: u8 = 20;

/// Where the cursor stands, counted from 0.
#[derive(Debug, Clone, Copy, PartialEq, Eq, Structural)]
pub struct Cursor {
    pub col: u8,
    pub row: u8,
}

impl Cursor {
    /// The cursor in the top left corner.
    pub fn new() -> (cursor: Cursor)
        ensures
            cursor == (Cursor { col: 0, row: 0 }),
    {
        Cursor { col: 0, row: 0 }
    }
}

/// The cursor that a move starts from: the one there is, or for want of one
/// the top left corner.
pub open spec fn present(cursor: Option<Cursor>) -> Cursor {
    match cursor {
        Some(cursor) => cursor,
        None => Cursor { col: 0, row: 0 },
    }
}

/// One column to the left, unless the cursor is in the first column.
pub open spec fn moved_left(cursor: Cursor) -> Cursor {
    if cursor.col > 0 {
        Cursor { col: (cursor.col - 1) as u8, row: cursor.row }
    } else {
        cursor
    }
}

/// One row up, unless the cursor is in the first row.
pub open spec fn moved_up(cursor: Cursor) -> Cursor {
    if cursor.row > 0 {
        Cursor { col: cursor.col, row: (cursor.row - 1) as u8 }
    } else {
        cursor
    }
}

/// One row down, unless the cursor has reached the limit.
pub open spec fn moved_down(cursor: Cursor) -> Cursor {
    if cursor.row < CURSOR_LIMIT {
        Cursor { col: cursor.col, row: (cursor.row + 1) as u8 }
    } else {
        cursor
    }
}

/// One column to the right, unless the cursor has reached the limit.
pub open spec fn moved_right(cursor: Cursor) -> Cursor {
    if cursor.col < CURSOR_LIMIT {
        Cursor { col: (cursor.col + 1) as u8, row: cursor.row }
    } else {
        cursor
    }
}

/// What draws the title and the day `today`, each on a line of its own.
pub open spec fn header_draws(today: Seq<char>) -> Seq<DrawView> {
    seq![
        DrawView::Foreground(Color::Green),
        DrawView::Print("Bit Journal v0.1.1"@),
        DrawView::Foreground(Color::Reset),
        DrawView::Print("\r\n"@),
        DrawView::Foreground(Color::Yellow),
        DrawView::Print("Today is "@),
        DrawView::Bold,
        DrawView::Print(today),
        DrawView::Print("."@),
        DrawView::Foreground(Color::Reset),
        DrawView::Print("\r\n"@),
    ]
}

/// What draws `entries`: the line of each, in order, each on a line of its
/// own.
pub open spec fn task_draws(entries: Seq<EntryView>) -> Seq<DrawView> {
    Seq::new(entries.len(), |i: int| DrawView::Print(render_line(entries[i]) + "\r\n"@))
}

/// What reports where the cursor stands, if there is one.
pub open spec fn cursor_draws(cursor: Option<Cursor>) -> Seq<DrawView> {
    match cursor {
        Some(cursor) => seq![
            DrawView::Print(
                "cursor drawn at "@ + decimal(cursor.col as nat) + ","@ + decimal(
                    cursor.row as nat,
                ) + "\n"@,
            ),
        ],
        None => Seq::empty(),
    }
}

/// The list of a journal's entries on screen, with a cursor once it has been
/// moved.
pub struct Application<'a> {
    pub entries: &'a Vec<Entry>,
    pub cursor: Option<Cursor>,
}

impl<'a> Application<'a> {
    /// The screen over `entries`, with no cursor yet.
    pub fn new(entries: &'a Vec<Entry>) -> (application: Application<'a>)
        ensures
            application.entries == entries,
            application.cursor is None,
    {
        Application { cursor: None, entries }
    }

    /// The commands that draw the title and the day `today`.
    pub fn render_header_bar(&self, today: &str) -> (draws: Vec<Draw>)
        ensures
            draw_views(draws@) == header_draws(today@),
    {
        let mut draws: Vec<Draw> = Vec::new();
        draws.push(Draw::Foreground(Color::Green));
        draws.push(Draw::Print("Bit Journal v0.1.1".to_string()));
        draws.push(Draw::Foreground(Color::Reset));
        draws.push(Draw::Print("\r\n".to_string()));
        draws.push(Draw::Foreground(Color::Yellow));
        draws.push(Draw::Print("Today is ".to_string()));
        draws.push(Draw::Bold);
        draws.push(Draw::Print(today.to_string()));
        draws.push(Draw::Print(".".to_string()));
        draws.push(Draw::Foreground(Color::Reset));
        draws.push(Draw::Print("\r\n".to_string()));
        assert(draw_views(draws@) =~= header_draws(today@));
        draws
    }

    /// The commands that draw the entries.
    pub fn render_tasks(&self) -> (draws: Vec<Draw>)
        ensures
            draw_views(draws@) == task_draws(views(self.entries@)),
    {
        let mut draws: Vec<Draw> = Vec::new();
        let mut i: usize = 0;
        while i < self.entries.len()
            invariant
                i <= self.entries.len(),
                draws.len() == i,
                forall|k: int|
                    0 <= k < i ==> draws[k]@ == DrawView::Print(
                        render_line(self.entries[k]@) + "\r\n"@,
                    ),
            decreases self.entries.len() - i,
        {
            let mut line = self.entries[i].render();
            line.append("\r\n");
            draws.push(Draw::Print(line));
            i = i + 1;
        }
        assert(draw_views(draws@) =~= task_draws(views(self.entries@)));
        draws
    }

    /// The commands that report where the cursor stands.
    pub fn render_cursor(&self) -> (draws: Vec<Draw>)
        ensures
            draw_views(draws@) == cursor_draws(self.cursor),
    {
        let mut draws: Vec<Draw> = Vec::new();
        if let Some(cursor) = self.cursor {
            let mut text = "cursor drawn at ".to_string();
            text.append(decimal_text(cursor.col).as_str());
            text.append(",");
            text.append(decimal_text(cursor.row).as_str());
            text.append("\n");
            draws.push(Draw::Print(text));
        }
        assert(draw_views(draws@) =~= cursor_draws(self.cursor));
        draws
    }

    /// Puts the cursor in the top left corner if there is none yet.
    pub fn create_cursor_if_not_exist(&mut self)
        ensures
            final(self).cursor == Some(present(old(self).cursor)),
            final(self).entries == old(self).entries,
    {
        if self.cursor.is_none() {
            self.cursor = Some(Cursor::new());
        }
    }

    /// Moves the cursor one column to the left.
    pub fn on_cursor_left(&mut self)
        ensures
            final(self).cursor == Some(moved_left(present(old(self).cursor))),
            final(self).entries == old(self).entries,
    {
        self.create_cursor_if_not_exist();
        if let Some(cursor) = self.cursor {
            if cursor.col > 0 {
                self.cursor = Some(Cursor { col: cursor.col - 1, row: cursor.row });
            }
        }
    }

    /// Moves the cursor one row up.
    pub fn on_cursor_up(&mut self)
        ensures
            final(self).cursor == Some(moved_up(present(old(self).cursor))),
            final(self).entries == old(self).entries,
    {
        self.create_cursor_if_not_exist();
        if let Some(cursor) = self.cursor {
            if cursor.row > 0 {
                self.cursor = Some(Cursor { col: cursor.col, row: cursor.row - 1 });
            }
        }
    }

    /// Moves the cursor one row down.
    pub fn on_cursor_down(&mut self)
        ensures
            final(self).cursor == Some(moved_down(present(old(self).cursor))),
            final(self).entries == old(self).entries,
    {
        self.create_cursor_if_not_exist();
        if let Some(cursor) = self.cursor {
            if cursor.row < CURSOR_LIMIT {
                self.cursor = Some(Cursor { col: cursor.col, row: cursor.row + 1 });
            }
        }
    }

    /// Moves the cursor one column to the right.
    pub fn on_cursor_right(&mut self)
        ensures
            final(self).cursor == Some(moved_right(present(old(self).cursor))),
            final(self).entries == old(self).entries,
    {
        self.create_cursor_if_not_exist();
        if let Some(cursor) = self.cursor {
            if cursor.col < CURSOR_LIMIT {
                self.cursor = Some(Cursor { col: cursor.col + 1, row: cursor.row });
            }
        }
    }

    /// The commands that draw the whole screen: header, entries, cursor.
    pub fn render(&self, today: &str) -> (draws: Vec<Draw>)
        ensures
            draw_views(draws@) == header_draws(today@) + task_draws(views(self.entries@))
                + cursor_draws(self.cursor),
    {
        let mut draws = self.render_header_bar(today);
        let mut tasks = self.render_tasks();
        let mut cursor = self.render_cursor();
        let ghost header = draws@;
        let ghost listed = tasks@;
        let ghost pointed = cursor@;
        draws.append(&mut tasks);
        draws.append(&mut cursor);
        assert(draw_views(draws@) =~= draw_views(header) + draw_views(listed) + draw_views(
            pointed,
        ));
        draws
    }
}

} // verus!
