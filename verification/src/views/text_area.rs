use crate::models::entries::{
    leaf, render_line, views, Entry, EntryVariants, EntryView, JournalEntry,
};
use crate::text::text_view;
use crate::views::terminal::{draw_views, Draw, DrawView};
use vstd::prelude::*;

verus! {

/// Whether keys are commands or text.
#[derive(Debug, Clone, Copy, PartialEq, Eq, Structural)]
pub enum EditorMode {
    /// Each key is a command.
    Normal,
    /// Keys are typed into the text of a new entry.
    Insert,
}

/// A key as the text area takes it.
#[derive(Debug, Clone, Copy, PartialEq, Eq, Structural)]
pub enum Key {
    Esc,
    Backspace,
    Char(char),
    /// Any key that the text area has no use for.
    Other,
}

/// What one key led to: the commands to carry out, and whether the session
/// is over.
#[derive(Debug, PartialEq, Eq)]
pub struct Step {
    pub draws: Vec<Draw>,
    pub quit: bool,
}

/// The first row below the header.
pub const FIRST_ROW: u16 = 3;

/// An editor for new entries: in normal mode a key picks the kind of the
/// next entry, in insert mode keys make up its text.
pub struct TextArea {
    editor_mode: EditorMode,
    entry_buffer: Option<String>,
    entry_variant: Option<EntryVariants>,
    entries: Vec<Entry>,
    changed_editor_mode: bool,
}

/// The value of a [`TextArea`].
pub ghost struct TextAreaView {
    pub editor_mode: EditorMode,
    /// The text typed so far, while there is a buffer to type into.
    pub entry_buffer: Option<Seq<char>>,
    /// The kind of the entry being typed.
    pub entry_variant: Option<EntryVariants>,
    pub entries: Seq<EntryView>,
    /// Whether the mode changed at the last key.
    pub changed_editor_mode: bool,
}

impl View for TextArea {
    type V = TextAreaView;

    closed spec fn view(&self) -> TextAreaView {
        TextAreaView {
            editor_mode: self.editor_mode,
            entry_buffer: text_view(self.entry_buffer),
            entry_variant: self.entry_variant,
            entries: views(self.entries@),
            changed_editor_mode: self.changed_editor_mode,
        }
    }
}

/// The row on which a new entry is typed when `count` entries are listed:
/// the one below them, and the last row that a terminal can address where
/// the list goes beyond it.
pub open spec fn entry_row(count: nat) -> u16 {
    if count + FIRST_ROW <= u16::MAX {
        (count + FIRST_ROW) as u16
    } else {
        u16::MAX
    }
}

/// What draws `entries`: for each, in order, its line on a cleared row.
pub open spec fn entry_draws(entries: Seq<EntryView>) -> Seq<DrawView>
    decreases entries.len(),
{
    if entries.len() == 0 {
        Seq::empty()
    } else {
        entry_draws(entries.drop_last()).push(DrawView::ClearCurrentLine).push(
            DrawView::Print(render_line(entries.last()) + "\n\r"@),
        )
    }
}

/// What is drawn before a key is looked at.
pub open spec fn opening(area: TextAreaView) -> Seq<DrawView> {
    match area.editor_mode {
        EditorMode::Insert => {
            let row = entry_row(area.entries.len());
            (if area.changed_editor_mode {
                seq![DrawView::Goto { col: 1, row }, DrawView::ShowCursor, DrawView::BlinkingBar]
            } else {
                Seq::empty()
            }) + seq![DrawView::Goto { col: 1, row }, DrawView::ClearCurrentLine]
        },
        EditorMode::Normal => if area.changed_editor_mode {
            seq![DrawView::Goto { col: 1, row: FIRST_ROW }, DrawView::SteadyBlock]
        } else {
            Seq::empty()
        },
    }
}

/// The kind that a key picks in normal mode.
pub open spec fn picked(key: Key) -> Option<EntryVariants> {
    if key == Key::Char('n') {
        Some(EntryVariants::Note)
    } else if key == Key::Char('e') {
        Some(EntryVariants::Event)
    } else if key == Key::Char('t') {
        Some(EntryVariants::Task)
    } else {
        None
    }
}

/// The entries after the text typed has been committed: one more where there
/// is a kind and a buffer, a leaf of that kind with that text.
pub open spec fn committed(area: TextAreaView) -> Seq<EntryView> {
    match (area.entry_variant, area.entry_buffer) {
        (Some(variant), Some(text)) => area.entries.push(leaf(variant, text)),
        _ => area.entries,
    }
}

/// The text area after `key`.
///
/// In insert mode, escape drops what was typed and goes back to normal mode;
/// a line feed commits it as a new entry and goes back too; backspace takes
/// the last character off the buffer and any other character is added to it,
/// where there is a buffer. In normal mode `n`, `e` and `t` pick a kind and
/// go to insert mode. No other key changes anything.
pub open spec fn typed(area: TextAreaView, key: Key) -> TextAreaView {
    match area.editor_mode {
        EditorMode::Insert => match key {
            Key::Esc => TextAreaView {
                editor_mode: EditorMode::Normal,
                entry_buffer: None,
                entry_variant: None,
                changed_editor_mode: true,
                ..area
            },
            Key::Backspace => TextAreaView {
                entry_buffer: match area.entry_buffer {
                    Some(text) => Some(
                        if text.len() > 0 {
                            text.drop_last()
                        } else {
                            text
                        },
                    ),
                    None => None,
                },
                changed_editor_mode: false,
                ..area
            },
            Key::Char(c) => if c == '\n' {
                TextAreaView {
                    editor_mode: EditorMode::Normal,
                    entry_buffer: None,
                    entry_variant: None,
                    entries: committed(area),
                    changed_editor_mode: true,
                }
            } else {
                TextAreaView {
                    entry_buffer: match area.entry_buffer {
                        Some(text) => Some(text.push(c)),
                        None => None,
                    },
                    changed_editor_mode: false,
                    ..area
                }
            },
            Key::Other => TextAreaView { changed_editor_mode: false, ..area },
        },
        EditorMode::Normal => match picked(key) {
            Some(variant) => TextAreaView {
                editor_mode: EditorMode::Insert,
                entry_variant: Some(variant),
                changed_editor_mode: true,
                ..area
            },
            None => TextAreaView { changed_editor_mode: false, ..area },
        },
    }
}

/// What `key` itself draws, after the opening.
pub open spec fn answered(area: TextAreaView, key: Key) -> Seq<DrawView> {
    match area.editor_mode {
        EditorMode::Insert => match key {
            Key::Backspace => match typed(area, key).entry_buffer {
                Some(text) => seq![DrawView::ClearCurrentLine, DrawView::Print(text)],
                None => Seq::empty(),
            },
            Key::Char(c) => if c == '\n' {
                seq![
                    DrawView::Goto { col: 1, row: FIRST_ROW },
                    DrawView::ClearAfterCursor,
                ] + entry_draws(committed(area))
            } else {
                match typed(area, key).entry_buffer {
                    Some(text) => seq![DrawView::Print(text)],
                    None => Seq::empty(),
                }
            },
            _ => Seq::empty(),
        },
        EditorMode::Normal => if key == Key::Char('j') {
            seq![DrawView::Down(1)]
        } else if key == Key::Char('k') {
            seq![DrawView::Up(1)]
        } else {
            Seq::empty()
        },
    }
}

/// Whether `key` ends the session: `q` does, in normal mode.
pub open spec fn quits(area: TextAreaView, key: Key) -> bool {
    area.editor_mode == EditorMode::Normal && key == Key::Char('q')
}

/// Drawing one entry more draws what was drawn before, then that entry.
pub proof fn lemma_entry_draws_push(entries: Seq<EntryView>, entry: EntryView)
    ensures
        entry_draws(entries.push(entry)) == entry_draws(entries).push(
            DrawView::ClearCurrentLine,
        ).push(DrawView::Print(render_line(entry) + "\n\r"@)),
{
    assert(entries.push(entry).drop_last() =~= entries);
}

impl TextArea {
    /// The value of a new text area: normal mode, an empty buffer, no kind
    /// picked and no entries.
    pub open spec fn new_spec() -> TextAreaView {
        TextAreaView {
            editor_mode: EditorMode::Normal,
            entry_buffer: Some(Seq::empty()),
            entry_variant: None,
            entries: Seq::empty(),
            changed_editor_mode: false,
        }
    }

    /// An empty text area in normal mode, with an empty buffer.
    pub fn new() -> (area: TextArea)
        ensures
            area@ == TextArea::new_spec(),
    {
        let area = TextArea {
            editor_mode: EditorMode::Normal,
            entry_buffer: Some(String::new()),
            entry_variant: None,
            entries: Vec::new(),
            changed_editor_mode: false,
        };
        assert(area@.entries =~= Seq::empty());
        area
    }

    /// The entries committed so far.
    pub fn entries(&self) -> (entries: &Vec<Entry>)
        ensures
            views(entries@) == self@.entries,
    {
        &self.entries
    }

    /// The row on which a new entry is typed.
    fn row(&self) -> (row: u16)
        ensures
            row == entry_row(self@.entries.len()),
    {
        let count = self.entries.len();
        if count <= 65532 {
            count as u16 + FIRST_ROW
        } else {
            u16::MAX
        }
    }

    /// The commands that draw the entries.
    pub fn render_entries(&self) -> (draws: Vec<Draw>)
        ensures
            draw_views(draws@) == entry_draws(self@.entries),
    {
        let mut draws: Vec<Draw> = Vec::new();
        let mut i: usize = 0;
        assert(views(self.entries@).take(0) =~= Seq::empty());
        while i < self.entries.len()
            invariant
                i <= self.entries.len(),
                draw_views(draws@) == entry_draws(views(self.entries@).take(i as int)),
            decreases self.entries.len() - i,
        {
            let ghost before = draw_views(draws@);
            let mut line = self.entries[i].render();
            line.append("\n\r");
            draws.push(Draw::ClearCurrentLine);
            draws.push(Draw::Print(line));
            proof {
                let all = views(self.entries@);
                assert(all.take(i + 1) =~= all.take(i as int).push(all[i as int]));
                lemma_entry_draws_push(all.take(i as int), all[i as int]);
                assert(draw_views(draws@) =~= before.push(DrawView::ClearCurrentLine).push(
                    DrawView::Print(render_line(all[i as int]) + "\n\r"@),
                ));
            }
            i = i + 1;
        }
        assert(views(self.entries@).take(i as int) =~= views(self.entries@));
        draws
    }

    /// Takes one key: changes the text area as [`typed`] says and hands back
    /// what is to be drawn, first the [`opening`] and then what the key
    /// [`answered`].
    pub fn handle_input(&mut self, key: Key) -> (step: Step)
        ensures
            final(self)@ == typed(old(self)@, key),
            draw_views(step.draws@) == opening(old(self)@) + answered(old(self)@, key),
            step.quit == quits(old(self)@, key),
    {
        let mut draws: Vec<Draw> = Vec::new();
        let mut quit = false;
        match self.editor_mode {
            EditorMode::Insert => {
                let row = self.row();
                if self.changed_editor_mode {
                    draws.push(Draw::Goto { col: 1, row });
                    draws.push(Draw::ShowCursor);
                    draws.push(Draw::BlinkingBar);
                    self.changed_editor_mode = false;
                }
                draws.push(Draw::Goto { col: 1, row });
                draws.push(Draw::ClearCurrentLine);
                assert(draw_views(draws@) =~= opening(old(self)@));
                let ghost opened = draw_views(draws@);
                match key {
                    Key::Esc => {
                        self.entry_buffer = None;
                        self.entry_variant = None;
                        self.editor_mode = EditorMode::Normal;
                        self.changed_editor_mode = true;
                    },
                    Key::Backspace => {
                        if let Some(mut buffer) = self.entry_buffer.take() {
                            buffer.pop();
                            draws.push(Draw::ClearCurrentLine);
                            draws.push(Draw::Print(buffer.clone()));
                            self.entry_buffer = Some(buffer);
                        }
                    },
                    Key::Char(c) => {
                        if c == '\n' {
                            if let Some(variant) = self.entry_variant {
                                if let Some(buffer) = self.entry_buffer.take() {
                                    self.entries.push(Entry::new(variant, buffer));
                                }
                            }
                            assert(views(self.entries@) =~= committed(old(self)@));
                            draws.push(Draw::Goto { col: 1, row: FIRST_ROW });
                            draws.push(Draw::ClearAfterCursor);
                            let ghost cleared = draw_views(draws@);
                            let mut listed = self.render_entries();
                            let ghost list = draw_views(listed@);
                            draws.append(&mut listed);
                            assert(draw_views(draws@) =~= cleared + list);
                            self.entry_buffer = None;
                            self.entry_variant = None;
                            self.editor_mode = EditorMode::Normal;
                            self.changed_editor_mode = true;
                        } else {
                            if let Some(mut buffer) = self.entry_buffer.take() {
                                buffer.push(c);
                                draws.push(Draw::Print(buffer.clone()));
                                self.entry_buffer = Some(buffer);
                            }
                        }
                    },
                    Key::Other => {},
                }
                assert(draw_views(draws@) =~= opened + answered(old(self)@, key));
            },
            EditorMode::Normal => {
                if self.changed_editor_mode {
                    draws.push(Draw::Goto { col: 1, row: FIRST_ROW });
                    draws.push(Draw::SteadyBlock);
                    self.changed_editor_mode = false;
                }
                assert(draw_views(draws@) =~= opening(old(self)@));
                let ghost opened = draw_views(draws@);
                match key {
                    Key::Char(c) => {
                        if c == 'q' {
                            quit = true;
                        } else if c == 'n' {
                            self.editor_mode = EditorMode::Insert;
                            self.entry_variant = Some(EntryVariants::Note);
                            self.changed_editor_mode = true;
                        } else if c == 'e' {
                            self.editor_mode = EditorMode::Insert;
                            self.entry_variant = Some(EntryVariants::Event);
                            self.changed_editor_mode = true;
                        } else if c == 't' {
                            self.editor_mode = EditorMode::Insert;
                            self.entry_variant = Some(EntryVariants::Task);
                            self.changed_editor_mode = true;
                        } else if c == 'j' {
                            draws.push(Draw::Down(1));
                        } else if c == 'k' {
                            draws.push(Draw::Up(1));
                        }
                    },
                    _ => {},
                }
                assert(draw_views(draws@) =~= opened + answered(old(self)@, key));
            },
        }
        Step { draws, quit }
    }
}

} // verus!
