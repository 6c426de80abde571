use crate::kinds::event::Event;
use crate::kinds::note::Note;
use crate::kinds::task::Task;
use vstd::prelude::*;
use vstd::std_specs::convert::FromSpecImpl;

verus! {

/// The line of an entry with the given flag, symbol and text: `*` or a space,
/// a space, the symbol, a space, the text.
pub open spec fn line(important: bool, symbol: Seq<char>, content: Seq<char>) -> Seq<char> {
    (if important {
        "*"@
    } else {
        " "@
    }) + " "@ + symbol + " "@ + content
}

/// Builds the line that [`line`] describes.
pub fn format_line(important: bool, symbol: &str, content: &str) -> (text: String)
    ensures
        text@ == line(important, symbol@, content@),
{
    let mut text = String::from_str(if important { "*" } else { " " });
    text.append(" ");
    text.append(symbol);
    text.append(" ");
    text.append(content);
    assert(text@ =~= line(important, symbol@, content@));
    text
}

/// An entry of any kind, as it stands below another entry.
pub enum Child {
    Note(Box<Note>),
    Task(Box<Task>),
    Event(Box<Event>),
}

/// What every kind of entry offers: its line, and children below it.
pub trait Entry {
    /// The line the entry is shown as.
    spec fn text_spec(&self) -> Seq<char>;

    /// The entries below this one, in insertion order.
    spec fn children_spec(&self) -> Seq<Child>;

    fn text(&self) -> (text: String)
        ensures
            text@ == self.text_spec(),
    ;

    /// Adds `entry` below this one, after the children already there.
    fn insert(&mut self, entry: Child)
        ensures
            final(self).children_spec() == old(self).children_spec().push(entry),
            final(self).text_spec() == old(self).text_spec(),
    ;

    fn children(&self) -> (children: &Vec<Child>)
        ensures
            children@ == self.children_spec(),
    ;
}

impl Entry for Child {
    open spec fn text_spec(&self) -> Seq<char> {
        match *self {
            Child::Note(note) => note.text_spec(),
            Child::Task(task) => task.text_spec(),
            Child::Event(event) => event.text_spec(),
        }
    }

    open spec fn children_spec(&self) -> Seq<Child> {
        match *self {
            Child::Note(note) => note.children_spec(),
            Child::Task(task) => task.children_spec(),
            Child::Event(event) => event.children_spec(),
        }
    }

    fn text(&self) -> (text: String) {
        match self {
            Child::Note(note) => note.text(),
            Child::Task(task) => task.text(),
            Child::Event(event) => event.text(),
        }
    }

    fn insert(&mut self, entry: Child) {
        match self {
            Child::Note(note) => note.insert(entry),
            Child::Task(task) => task.insert(entry),
            Child::Event(event) => event.insert(entry),
        }
    }

    fn children(&self) -> (children: &Vec<Child>) {
        match self {
            Child::Note(note) => note.children(),
            Child::Task(task) => task.children(),
            Child::Event(event) => event.children(),
        }
    }
}

impl From<Box<Note>> for Child {
    fn from(note: Box<Note>) -> (child: Child) {
        Child::Note(note)
    }
}

impl FromSpecImpl<Box<Note>> for Child {
    open spec fn obeys_from_spec() -> bool {
        true
    }

    open spec fn from_spec(note: Box<Note>) -> Child {
        Child::Note(note)
    }
}

impl From<Box<Task>> for Child {
    fn from(task: Box<Task>) -> (child: Child) {
        Child::Task(task)
    }
}

impl FromSpecImpl<Box<Task>> for Child {
    open spec fn obeys_from_spec() -> bool {
        true
    }

    open spec fn from_spec(task: Box<Task>) -> Child {
        Child::Task(task)
    }
}

impl From<Box<Event>> for Child {
    fn from(event: Box<Event>) -> (child: Child) {
        Child::Event(event)
    }
}

impl FromSpecImpl<Box<Event>> for Child {
    open spec fn obeys_from_spec() -> bool {
        true
    }

    open spec fn from_spec(event: Box<Event>) -> Child {
        Child::Event(event)
    }
}

} // verus!
