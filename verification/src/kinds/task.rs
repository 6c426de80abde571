use crate::kinds::entry::{format_line, line, Child, Entry};
use vstd::prelude::*;

verus! {

/// Something to do: shown with a bullet while open and with `X` once completed.
pub struct Task {
    content: String,
    important: bool,
    completed: bool,
    children: Vec<Child>,
}

impl Task {
    /// The text of the task.
    pub closed spec fn content(&self) -> Seq<char> {
        self.content@
    }

    /// Whether the task is marked as important.
    pub closed spec fn important(&self) -> bool {
        self.important
    }

    /// Whether the task is done.
    pub closed spec fn completed(&self) -> bool {
        self.completed
    }

    /// The symbol of the task: `X` once completed, a bullet before.
    pub open spec fn symbol(&self) -> Seq<char> {
        if self.completed() {
            "X"@
        } else {
            "\u{2022}"@
        }
    }

    /// A new task with the given text: not important, no children.
    pub fn new(content: String) -> (entry: Box<Task>)
        ensures
            entry.content() == content@,
            !entry.important(),
            !entry.completed(),
            entry.children_spec() == Seq::<Child>::empty(),
    {
        Box::new(Task { content, important: false, completed: false, children: Vec::new() })
    }
}

impl Entry for Task {
    open spec fn text_spec(&self) -> Seq<char> {
        line(self.important(), self.symbol(), self.content())
    }

    closed spec fn children_spec(&self) -> Seq<Child> {
        self.children@
    }

    fn text(&self) -> (text: String) {
        format_line(self.important, if self.completed { "X" } else { "\u{2022}" }, self.content.as_str())
    }

    fn insert(&mut self, entry: Child) {
        self.children.push(entry);
    }

    fn children(&self) -> (children: &Vec<Child>) {
        &self.children
    }
}

} // verus!
