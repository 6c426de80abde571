use crate::views::header_bar::{header_bar_draws, HeaderBar};
use crate::views::terminal::{draw_views, Draw, DrawView};
use crate::views::text_area::{answered, opening, quits, typed, Key, Step, TextArea, TextAreaView};
use vstd::prelude::*;

verus! {

/// An interactive session: the header, and below it a text area that takes
/// the keys of the terminal one by one until one of them ends the session.
pub struct Application {
    text_area: TextArea,
}

impl View for Application {
    type V = TextAreaView;

    closed spec fn view(&self) -> TextAreaView {
        self.text_area@
    }
}

impl Application {
    /// Starts a session on the day `today`: an empty text area, and the
    /// commands that clear the screen and draw the header.
    pub fn new(today: &str) -> (started: (Application, Vec<Draw>))
        ensures
            started.0@ == TextArea::new_spec(),
            draw_views(started.1@) == seq![DrawView::ClearAll] + header_bar_draws(today@),
    {
        let mut draws: Vec<Draw> = Vec::new();
        draws.push(Draw::ClearAll);
        let mut header = HeaderBar.render(today);
        let ghost drawn = draw_views(header@);
        draws.append(&mut header);
        assert(draw_views(draws@) =~= seq![DrawView::ClearAll] + drawn);
        (Application { text_area: TextArea::new() }, draws)
    }

    /// Hands `key` to the text area.
    pub fn handle_input(&mut self, key: Key) -> (step: Step)
        ensures
            final(self)@ == typed(old(self)@, key),
            draw_views(step.draws@) == opening(old(self)@) + answered(old(self)@, key),
            step.quit == quits(old(self)@, key),
    {
        self.text_area.handle_input(key)
    }

    /// Ends the session: the text area as it was left, and the command that
    /// shows the cursor again.
    pub fn finish(self) -> (ended: (TextArea, Vec<Draw>))
        ensures
            ended.0@ == self@,
            draw_views(ended.1@) == seq![DrawView::ShowCursor],
    {
        let mut draws: Vec<Draw> = Vec::new();
        draws.push(Draw::ShowCursor);
        assert(draw_views(draws@) =~= seq![DrawView::ShowCursor]);
        (self.text_area, draws)
    }
}

} // verus!
