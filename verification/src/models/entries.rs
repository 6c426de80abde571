use vstd::prelude::*;
use vstd::std_specs::cmp::PartialEqSpecImpl;

verus! {

/// What kind of record an entry is. The kind picks the symbol an entry is
/// rendered with.
#[derive(Debug, Clone, Copy, PartialEq, Eq, Structural)]
pub enum EntryVariants {
    Note,
    Task,
    Event,
}

impl Default for EntryVariants {
    fn default() -> (kind: EntryVariants)
        ensures
            kind == EntryVariants::Note,
    {
        EntryVariants::Note
    }
}

/// One journal record. Its children are owned by it, in insertion order.
/// Two records are equal when they agree in every field and in everything
/// below them.
#[derive(Debug)]
pub struct Entry {
    pub important: bool,
    pub content: String,
    pub completed: bool,
    pub cancelled: bool,
    pub variant: EntryVariants,
    pub children: Vec<Entry>,
}

/// The mathematical value of an [`Entry`]: every field, with the text as a
/// sequence of characters and the children as a sequence of such values.
pub ghost struct EntryView {
    pub important: bool,
    pub content: Seq<char>,
    pub completed: bool,
    pub cancelled: bool,
    pub variant: EntryVariants,
    pub children: Seq<EntryView>,
}

/// The value of `entry`, built from the values of its children.
pub open spec fn value_of(entry: Entry) -> EntryView
    decreases entry,
{
    EntryView {
        important: entry.important,
        content: entry.content@,
        completed: entry.completed,
        cancelled: entry.cancelled,
        variant: entry.variant,
        children: Seq::new(
            entry.children@.len(),
            |i: int|
                if 0 <= i < entry.children@.len() {
                    value_of(entry.children@[i])
                } else {
                    arbitrary()
                },
        ),
    }
}

impl View for Entry {
    type V = EntryView;

    open spec fn view(&self) -> EntryView {
        value_of(*self)
    }
}

/// The values of a sequence of entries, in the same order.
pub open spec fn views(entries: Seq<Entry>) -> Seq<EntryView> {
    Seq::new(entries.len(), |i: int| entries[i]@)
}

/// The children of an entry's value are the values of its children.
pub proof fn lemma_children(entry: Entry)
    ensures
        entry@.children == views(entry.children@),
{
    assert(entry@.children =~= views(entry.children@));
}

/// A leaf of the given kind and text: no flag set, no children.
pub open spec fn leaf(variant: EntryVariants, content: Seq<char>) -> EntryView {
    EntryView {
        important: false,
        content,
        completed: false,
        cancelled: false,
        variant,
        children: Seq::empty(),
    }
}

/// The number of entries in the subtree rooted at `entry`, itself included.
pub open spec fn count(entry: EntryView) -> nat
    decreases entry,
{
    1 + total(entry.children)
}

/// The number of entries reachable from `entries`: each one and all below it.
pub open spec fn total(entries: Seq<EntryView>) -> nat
    decreases entries,
{
    if entries.len() == 0 {
        0
    } else {
        total(entries.drop_last()) + count(entries.last())
    }
}

/// `entry` with its importance flag flipped and nothing else changed.
pub open spec fn with_importance_flipped(entry: EntryView) -> EntryView {
    EntryView { important: !entry.important, ..entry }
}

/// `entry` with its completion flag flipped and nothing else changed.
pub open spec fn with_completion_flipped(entry: EntryView) -> EntryView {
    EntryView { completed: !entry.completed, ..entry }
}

impl Entry {
    /// A new leaf: the given kind and text, every flag false, no children.
    pub fn new(variant: EntryVariants, content: String) -> (entry: Entry)
        ensures
            entry@ == leaf(variant, content@),
    {
        let entry = Entry {
            important: false,
            content,
            completed: false,
            cancelled: false,
            variant,
            children: Vec::new(),
        };
        assert(entry@.children =~= Seq::empty());
        entry
    }

    /// Appends `child` below this entry, after the children already there.
    pub fn insert_child(&mut self, child: Entry)
        ensures
            final(self)@ == (EntryView {
                children: old(self)@.children.push(child@),
                ..old(self)@
            }),
    {
        self.children.push(child);
        proof {
            lemma_children(*self);
            lemma_children(*old(self));
            assert(views(self.children@) =~= views(old(self).children@).push(child@));
        }
    }

    /// Replaces the text and leaves everything else as it was.
    pub fn set_content(&mut self, content: String)
        ensures
            final(self)@ == (EntryView { content: content@, ..old(self)@ }),
    {
        self.content = content;
        assert(self@.children =~= old(self)@.children);
    }

    /// Whether `other` has the same value: the same kind, text and flags,
    /// and below it the same entries in the same order.
    pub fn same(&self, other: &Entry) -> (equal: bool)
        ensures
            equal == (self@ == other@),
        decreases self,
    {
        proof {
            lemma_children(*self);
            lemma_children(*other);
        }
        if self.important != other.important || self.completed != other.completed
            || self.cancelled != other.cancelled {
            return false;
        }
        if !(self.variant == other.variant) || !(self.content == other.content) {
            return false;
        }
        if self.children.len() != other.children.len() {
            assert(self@.children.len() != other@.children.len());
            return false;
        }
        let mut i: usize = 0;
        while i < self.children.len()
            invariant
                i <= self.children.len(),
                self.children.len() == other.children.len(),
                self@.children == views(self.children@),
                other@.children == views(other.children@),
                forall|k: int| 0 <= k < i ==> self.children[k]@ == other.children[k]@,
            decreases self.children.len() - i,
        {
            if !self.children[i].same(&other.children[i]) {
                assert(self@.children[i as int] != other@.children[i as int]);
                return false;
            }
            i = i + 1;
        }
        assert(self@.children =~= other@.children);
        true
    }

    /// Flips the importance flag.
    pub fn toggle_importance(&mut self)
        ensures
            final(self)@ == with_importance_flipped(old(self)@),
    {
        self.important = !self.important;
        assert(self@.children =~= old(self)@.children);
    }

    /// Flips the completion flag.
    pub fn toggle_completion(&mut self)
        ensures
            final(self)@ == with_completion_flipped(old(self)@),
    {
        self.completed = !self.completed;
        assert(self@.children =~= old(self)@.children);
    }
}

/// Whether two lists hold the same entries in the same order.
pub fn same_entries(left: &Vec<Entry>, right: &Vec<Entry>) -> (equal: bool)
    ensures
        equal == (views(left@) == views(right@)),
{
    if left.len() != right.len() {
        assert(views(left@).len() != views(right@).len());
        return false;
    }
    let mut i: usize = 0;
    while i < left.len()
        invariant
            i <= left.len(),
            left.len() == right.len(),
            forall|k: int| 0 <= k < i ==> left[k]@ == right[k]@,
        decreases left.len() - i,
    {
        if !left[i].same(&right[i]) {
            assert(views(left@)[i as int] != views(right@)[i as int]);
            return false;
        }
        i = i + 1;
    }
    assert(views(left@) =~= views(right@));
    true
}

impl PartialEq for Entry {
    fn eq(&self, other: &Entry) -> (equal: bool) {
        self.same(other)
    }
}

impl PartialEqSpecImpl for Entry {
    open spec fn obeys_eq_spec() -> bool {
        true
    }

    open spec fn eq_spec(&self, other: &Entry) -> bool {
        self@ == other@
    }
}

impl Eq for Entry {

}

impl Default for Entry {
    fn default() -> (entry: Entry)
        ensures
            entry@ == leaf(EntryVariants::Note, Seq::empty()),
    {
        Entry::new(EntryVariants::Note, String::new())
    }
}

impl Clone for Entry {
    fn clone(&self) -> (copy: Entry)
        ensures
            copy@ == self@,
        decreases self,
    {
        let mut children: Vec<Entry> = Vec::new();
        let mut i: usize = 0;
        while i < self.children.len()
            invariant
                i <= self.children.len(),
                children.len() == i,
                forall|k: int| 0 <= k < i ==> children[k]@ == self.children[k]@,
            decreases self.children.len() - i,
        {
            let child = self.children[i].clone();
            children.push(child);
            i = i + 1;
        }
        let copy = Entry {
            important: self.important,
            content: self.content.clone(),
            completed: self.completed,
            cancelled: self.cancelled,
            variant: self.variant,
            children,
        };
        proof {
            lemma_children(copy);
            lemma_children(*self);
            assert(views(copy.children@) =~= views(self.children@));
        }
        copy
    }
}

/// The marker that opens struck-out text on a terminal.
pub const STRIKE: &'static str = "\u{1b}[9m";

/// The marker that ends struck-out text.
pub const STRIKE_RESET: &'static str = "\u{1b}[29m";

/// `*` for an important entry, a space for any other.
pub open spec fn importance_marker(important: bool) -> Seq<char> {
    if important {
        "*"@
    } else {
        " "@
    }
}

/// The symbol of a kind: a bullet for an open task and `X` for a completed
/// one, a dash for a note, a small circle for an event.
pub open spec fn kind_symbol(variant: EntryVariants, completed: bool) -> Seq<char> {
    match variant {
        EntryVariants::Task => if completed {
            "X"@
        } else {
            "\u{2022}"@
        },
        EntryVariants::Note => "-"@,
        EntryVariants::Event => "\u{26AC}"@,
    }
}

/// What precedes the symbol of an entry: the strike marker if it is cancelled.
pub open spec fn strike_open(cancelled: bool) -> Seq<char> {
    if cancelled {
        STRIKE@
    } else {
        Seq::empty()
    }
}

/// What follows the text of an entry: the end of the strike if it is cancelled.
pub open spec fn strike_close(cancelled: bool) -> Seq<char> {
    if cancelled {
        STRIKE_RESET@
    } else {
        Seq::empty()
    }
}

/// The line an entry is shown as: marker, space, symbol, space, text, with
/// symbol and text struck out when the entry is cancelled. Children are not
/// part of the line.
pub open spec fn render_line(entry: EntryView) -> Seq<char> {
    importance_marker(entry.important) + " "@ + strike_open(entry.cancelled) + kind_symbol(
        entry.variant,
        entry.completed,
    ) + " "@ + entry.content + strike_close(entry.cancelled)
}

/// Something that can be shown as one line of a journal.
pub trait JournalEntry {
    /// The line, as a sequence of characters.
    spec fn rendered(&self) -> Seq<char>;

    fn render(&self) -> (line: String)
        ensures
            line@ == self.rendered(),
    ;
}

impl JournalEntry for Entry {
    open spec fn rendered(&self) -> Seq<char> {
        render_line(self@)
    }

    fn render(&self) -> (line: String) {
        let mut line = String::from_str(if self.important { "*" } else { " " });
        line.append(" ");
        if self.cancelled {
            line.append(STRIKE);
        }
        match self.variant {
            EntryVariants::Task => line.append(if self.completed { "X" } else { "\u{2022}" }),
            EntryVariants::Note => line.append("-"),
            EntryVariants::Event => line.append("\u{26AC}"),
        }
        line.append(" ");
        line.append(self.content.as_str());
        if self.cancelled {
            line.append(STRIKE_RESET);
        }
        assert(line@ =~= render_line(self@));
        line
    }
}

} // verus!
