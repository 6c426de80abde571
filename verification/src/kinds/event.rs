use crate::kinds::entry::{format_line, line, Child, Entry};
use vstd::prelude::*;

verus! {

/// Something that happens: shown with a small circle.
pub struct Event {
    content: String,
    important: bool,
    children: Vec<Child>,
}

impl Event {
    /// The text of the event.
    pub closed spec fn content(&self) -> Seq<char> {
        self.content@
    }

    /// Whether the event is marked as important.
    pub closed spec fn important(&self) -> bool {
        self.important
    }

    /// The symbol of an event.
    pub open spec fn symbol(&self) -> Seq<char> {
        "\u{26AC}"@
    }

    /// A new event with the given text: not important, no children.
    pub fn new(content: String) -> (entry: Box<Event>)
        ensures
            entry.content() == content@,
            !entry.important(),
            entry.children_spec() == Seq::<Child>::empty(),
    {
        Box::new(Event { content, important: false, children: Vec::new() })
    }
}

impl Entry for Event {
    open spec fn text_spec(&self) -> Seq<char> {
        line(self.important(), self.symbol(), self.content())
    }

    closed spec fn children_spec(&self) -> Seq<Child> {
        self.children@
    }

    fn text(&self) -> (text: String) {
        format_line(self.important, "\u{26AC}", self.content.as_str())
    }

    fn insert(&mut self, entry: Child) {
        self.children.push(entry);
    }

    fn children(&self) -> (children: &Vec<Child>) {
        &self.children
    }
}

} // verus!
