use crate::kinds::entry::{format_line, line, Child, Entry};
use vstd::prelude::*;

verus! {

/// A remark: shown with a dash.
pub struct Note {
    content: String,
    important: bool,
    children: Vec<Child>,
}

impl Note {
    /// The text of the note.
    pub closed spec fn content(&self) -> Seq<char> {
        self.content@
    }

    /// Whether the note is marked as important.
    pub closed spec fn important(&self) -> bool {
        self.important
    }

    /// The symbol of a note.
    pub open spec fn symbol(&self) -> Seq<char> {
        "-"@
    }

    /// A new note with the given text: not important, no children.
    pub fn new(content: String) -> (entry: Box<Note>)
        ensures
            entry.content() == content@,
            !entry.important(),
            entry.children_spec() == Seq::<Child>::empty(),
    {
        Box::new(Note { content, important: false, children: Vec::new() })
    }
}

impl Entry for Note {
    open spec fn text_spec(&self) -> Seq<char> {
        line(self.important(), self.symbol(), self.content())
    }

    closed spec fn children_spec(&self) -> Seq<Child> {
        self.children@
    }

    fn text(&self) -> (text: String) {
        format_line(self.important, "-", self.content.as_str())
    }

    fn insert(&mut self, entry: Child) {
        self.children.push(entry);
    }

    fn children(&self) -> (children: &Vec<Child>) {
        &self.children
    }
}

} // verus!
