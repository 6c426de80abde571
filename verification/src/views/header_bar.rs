use crate::views::terminal::{draw_views, Color, Draw, DrawView};
use vstd::prelude::*;

verus! {

/// The two lines at the top of the screen: the title and the day.
pub struct HeaderBar;

/// What draws the header for the day `today`: the title in green on the
/// first row, and on the second, in yellow, the day in bold.
pub open spec fn header_bar_draws(today: Seq<char>) -> Seq<DrawView> {
    seq![
        DrawView::Goto { col: 1, row: 1 },
        DrawView::ClearCurrentLine,
        DrawView::HideCursor,
        DrawView::Foreground(Color::Green),
        DrawView::Print("Bit Journal v0.1.1"@),
        DrawView::Foreground(Color::Reset),
        DrawView::Print("\r"@),
        DrawView::Goto { col: 1, row: 2 },
        DrawView::Foreground(Color::Yellow),
        DrawView::Print("Today is "@),
        DrawView::Bold,
        DrawView::Print(today),
        DrawView::Print("."@),
        DrawView::Foreground(Color::Reset),
        DrawView::Print("\r"@),
    ]
}

impl HeaderBar {
    /// The commands that draw the header for the day `today`.
    pub fn render(&self, today: &str) -> (draws: Vec<Draw>)
        ensures
            draw_views(draws@) == header_bar_draws(today@),
    {
        let mut draws: Vec<Draw> = Vec::new();
        draws.push(Draw::Goto { col: 1, row: 1 });
        draws.push(Draw::ClearCurrentLine);
        draws.push(Draw::HideCursor);
        draws.push(Draw::Foreground(Color::Green));
        draws.push(Draw::Print("Bit Journal v0.1.1".to_string()));
        draws.push(Draw::Foreground(Color::Reset));
        draws.push(Draw::Print("\r".to_string()));
        draws.push(Draw::Goto { col: 1, row: 2 });
        draws.push(Draw::Foreground(Color::Yellow));
        draws.push(Draw::Print("Today is ".to_string()));
        draws.push(Draw::Bold);
        draws.push(Draw::Print(today.to_string()));
        draws.push(Draw::Print(".".to_string()));
        draws.push(Draw::Foreground(Color::Reset));
        draws.push(Draw::Print("\r".to_string()));
        assert(draw_views(draws@) =~= header_bar_draws(today@));
        draws
    }
}

} // verus!
