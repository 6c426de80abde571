use crate::models::entries::{
    count, total, views, with_completion_flipped, with_importance_flipped, Entry, EntryView,
};
use crate::calendar::{date_text, day_file_if_any, day_file_name, DAY_FILE};
use crate::text::text_view;
use crate::services::codec::{deserialize, deserialized, reads_as, write_entries, written};
use vstd::prelude::*;

verus! {

/// Why an operation of a store failed.
#[derive(Debug, Clone, Copy, PartialEq, Eq, Structural)]
pub enum JournalError {
    /// The store could not be opened: its backing file cannot be had, or
    /// what the file holds is not a sequence of entries.
    ConstructionFailure,
    /// No entry stands at the index given.
    IndexOutOfRange,
    /// The entries could not be made durable: no text can be written for
    /// them that is read back as the same entries, or the write failed.
    PersistenceFailure,
}

/// A full rewrite of a backing file: the store asks whoever runs it to
/// replace everything at `path` by `contents`.
#[derive(Debug, PartialEq, Eq)]
pub struct Write {
    pub path: String,
    pub contents: String,
}

/// The value of a [`Write`].
pub ghost struct WriteView {
    pub path: Seq<char>,
    pub contents: Seq<char>,
}

impl View for Write {
    type V = WriteView;

    open spec fn view(&self) -> WriteView {
        WriteView { path: self.path@, contents: self.contents@ }
    }
}

/// The value of what a mutation hands back.
pub open spec fn outcome_view(outcome: Result<Option<Write>, JournalError>) -> Result<
    Option<WriteView>,
    JournalError,
> {
    match outcome {
        Ok(Some(write)) => Ok(Some(write@)),
        Ok(None) => Ok(None),
        Err(error) => Err(error),
    }
}

/// `entries` with `entry` added at the end.
pub open spec fn appended(entries: Seq<EntryView>, entry: EntryView) -> Seq<EntryView> {
    entries.push(entry)
}

/// `entries` without the one at `index`, which takes its subtree with it.
pub open spec fn removed(entries: Seq<EntryView>, index: int) -> Seq<EntryView> {
    entries.remove(index)
}

/// `entries` with the importance flag of the one at `index` flipped.
pub open spec fn importance_toggled(entries: Seq<EntryView>, index: int) -> Seq<EntryView> {
    entries.update(index, with_importance_flipped(entries[index]))
}

/// `entries` with the completion flag of the one at `index` flipped.
pub open spec fn completion_toggled(entries: Seq<EntryView>, index: int) -> Seq<EntryView> {
    entries.update(index, with_completion_flipped(entries[index]))
}

/// Appending makes the list one longer, leaves what was there where it was,
/// and puts the new entry last; what can be reached grows by the new entry
/// and what is below it.
pub proof fn lemma_append_adds_last(entries: Seq<EntryView>, entry: EntryView)
    ensures
        appended(entries, entry).len() == entries.len() + 1,
        appended(entries, entry).last() == entry,
        appended(entries, entry).drop_last() == entries,
        total(appended(entries, entry)) == total(entries) + count(entry),
{
    assert(appended(entries, entry).drop_last() =~= entries);
}

/// Removing an entry removes its whole subtree: the number of reachable
/// entries falls by one more than the number of entries below it.
pub proof fn lemma_remove_cascades(entries: Seq<EntryView>, index: int)
    requires
        0 <= index < entries.len(),
    ensures
        removed(entries, index).len() == entries.len() - 1,
        total(removed(entries, index)) == total(entries) - (total(entries[index].children) + 1),
    decreases entries.len(),
{
    let gone = entries[index];
    assert(count(gone) == 1 + total(gone.children));
    assert(total(entries) == total(entries.drop_last()) + count(entries.last()));
    if index == entries.len() - 1 {
        assert(removed(entries, index) =~= entries.drop_last());
    } else {
        let rest = removed(entries, index);
        lemma_remove_cascades(entries.drop_last(), index);
        assert(rest.drop_last() =~= removed(entries.drop_last(), index));
        assert(rest.last() == entries.last());
        assert(total(rest) == total(rest.drop_last()) + count(rest.last()));
    }
}

/// Toggling importance flips the flag of the entry at the index, and
/// toggling it twice gives back the list as it was.
pub proof fn lemma_toggle_importance_involutive(entries: Seq<EntryView>, index: int)
    requires
        0 <= index < entries.len(),
    ensures
        importance_toggled(importance_toggled(entries, index), index) == entries,
        importance_toggled(entries, index)[index].important == !entries[index].important,
{
    assert(importance_toggled(importance_toggled(entries, index), index) =~= entries);
}

/// Toggling completion flips the flag of the entry at the index, and
/// toggling it twice gives back the list as it was.
pub proof fn lemma_toggle_completion_involutive(entries: Seq<EntryView>, index: int)
    requires
        0 <= index < entries.len(),
    ensures
        completion_toggled(completion_toggled(entries, index), index) == entries,
        completion_toggled(entries, index)[index].completed == !entries[index].completed,
{
    assert(completion_toggled(completion_toggled(entries, index), index) =~= entries);
}

/// What a store owes after a change: nothing where it has no backing file,
/// a rewrite of that file with the text that stands for its entries where it
/// has one, and a failure where no such text can be made.
pub open spec fn commit_of(locator: Option<Seq<char>>, image: Option<Seq<char>>) -> Result<
    Option<WriteView>,
    JournalError,
> {
    match locator {
        None => Ok(None),
        Some(path) => match image {
            Some(contents) => Ok(Some(WriteView { path, contents })),
            None => Err(JournalError::PersistenceFailure),
        },
    }
}

/// A store of entries, addressed by their index in insertion order.
///
/// A store does no input or output of its own. Each change hands back what
/// has to be written for the change to be durable; the caller performs that
/// write before it goes on.
pub trait Journalable: Sized {
    /// The entries held, in insertion order.
    spec fn entries(&self) -> Seq<EntryView>;

    /// The backing file, if the store has one.
    spec fn locator(&self) -> Option<Seq<char>>;

    /// The text that stands for the entries in the backing file, if there is
    /// such a text.
    spec fn image(&self) -> Option<Seq<char>>;

    /// Adds `entry` at the end.
    fn append(&mut self, entry: Entry) -> (outcome: Result<Option<Write>, JournalError>)
        ensures
            final(self).entries() == appended(old(self).entries(), entry@),
            final(self).locator() == old(self).locator(),
            outcome_view(outcome) == commit_of(final(self).locator(), final(self).image()),
    ;

    /// The entries, in insertion order.
    fn list(&self) -> (entries: &Vec<Entry>)
        ensures
            views(entries@) == self.entries(),
    ;

    /// Removes the entry at `index`, and with it everything below it.
    fn remove(&mut self, index: usize) -> (outcome: Result<Option<Write>, JournalError>)
        ensures
            final(self).locator() == old(self).locator(),
            index < old(self).entries().len() ==> {
                &&& final(self).entries() == removed(old(self).entries(), index as int)
                &&& outcome_view(outcome) == commit_of(final(self).locator(), final(self).image())
            },
            index >= old(self).entries().len() ==> {
                &&& final(self).entries() == old(self).entries()
                &&& outcome_view(outcome) == Err::<Option<WriteView>, JournalError>(
                    JournalError::IndexOutOfRange,
                )
            },
    ;

    /// Flips the importance flag of the entry at `index`.
    fn toggle_importance(&mut self, index: usize) -> (outcome: Result<
        Option<Write>,
        JournalError,
    >)
        ensures
            final(self).locator() == old(self).locator(),
            index < old(self).entries().len() ==> {
                &&& final(self).entries() == importance_toggled(
                    old(self).entries(),
                    index as int,
                )
                &&& outcome_view(outcome) == commit_of(final(self).locator(), final(self).image())
            },
            index >= old(self).entries().len() ==> {
                &&& final(self).entries() == old(self).entries()
                &&& outcome_view(outcome) == Err::<Option<WriteView>, JournalError>(
                    JournalError::IndexOutOfRange,
                )
            },
    ;

    /// Flips the completion flag of the entry at `index`.
    fn toggle_completion(&mut self, index: usize) -> (outcome: Result<
        Option<Write>,
        JournalError,
    >)
        ensures
            final(self).locator() == old(self).locator(),
            index < old(self).entries().len() ==> {
                &&& final(self).entries() == completion_toggled(
                    old(self).entries(),
                    index as int,
                )
                &&& outcome_view(outcome) == commit_of(final(self).locator(), final(self).image())
            },
            index >= old(self).entries().len() ==> {
                &&& final(self).entries() == old(self).entries()
                &&& outcome_view(outcome) == Err::<Option<WriteView>, JournalError>(
                    JournalError::IndexOutOfRange,
                )
            },
    ;

    /// What has to be written for the entries held now to be durable.
    fn commit(&self) -> (outcome: Result<Option<Write>, JournalError>)
        ensures
            outcome_view(outcome) == commit_of(self.locator(), self.image()),
    ;
}

/// A store that lives and dies with the process: it has no backing file and
/// never asks for a write.
pub struct InMemoryJournal {
    entries: Vec<Entry>,
}

impl InMemoryJournal {
    /// An empty store. The locator is ignored.
    pub fn new(_path: Option<String>) -> (journal: InMemoryJournal)
        ensures
            journal.entries() == Seq::<EntryView>::empty(),
            journal.locator() is None,
    {
        let journal = InMemoryJournal { entries: Vec::new() };
        assert(journal.entries() =~= Seq::<EntryView>::empty());
        journal
    }
}

impl Journalable for InMemoryJournal {
    closed spec fn entries(&self) -> Seq<EntryView> {
        views(self.entries@)
    }

    closed spec fn locator(&self) -> Option<Seq<char>> {
        None
    }

    closed spec fn image(&self) -> Option<Seq<char>> {
        None
    }

    fn append(&mut self, entry: Entry) -> (outcome: Result<Option<Write>, JournalError>) {
        self.entries.push(entry);
        assert(self.entries() =~= appended(old(self).entries(), entry@));
        Ok(None)
    }

    fn list(&self) -> (entries: &Vec<Entry>) {
        &self.entries
    }

    fn remove(&mut self, index: usize) -> (outcome: Result<Option<Write>, JournalError>) {
        if index >= self.entries.len() {
            return Err(JournalError::IndexOutOfRange);
        }
        self.entries.remove(index);
        assert(self.entries() =~= removed(old(self).entries(), index as int));
        Ok(None)
    }

    fn toggle_importance(&mut self, index: usize) -> (outcome: Result<
        Option<Write>,
        JournalError,
    >) {
        if index >= self.entries.len() {
            return Err(JournalError::IndexOutOfRange);
        }
        let entry = &mut self.entries[index];
        entry.toggle_importance();
        assert(self.entries() =~= importance_toggled(old(self).entries(), index as int));
        Ok(None)
    }

    fn toggle_completion(&mut self, index: usize) -> (outcome: Result<
        Option<Write>,
        JournalError,
    >) {
        if index >= self.entries.len() {
            return Err(JournalError::IndexOutOfRange);
        }
        let entry = &mut self.entries[index];
        entry.toggle_completion();
        assert(self.entries() =~= completion_toggled(old(self).entries(), index as int));
        Ok(None)
    }

    fn commit(&self) -> (outcome: Result<Option<Write>, JournalError>) {
        Ok(None)
    }
}

/// The directory, below the home of the user, in which journals are kept.
pub const DIRECTORY: &'static str = ".bitjo";

/// What a backing file holds for `entries`: what the YAML writer gives for
/// them and a line feed, provided that a store opened over this text holds
/// `entries`. Where it would not, `entries` cannot be committed.
pub open spec fn committed_text(entries: Seq<EntryView>) -> Option<Seq<char>> {
    match written(entries) {
        Some(text) => if deserialized(text + "\n"@) == Some(entries) {
            Some(text + "\n"@)
        } else {
            None
        },
        None => None,
    }
}

/// The entries that a store starts with when its backing file holds
/// `contents`: none for an empty file, else the entries that the contents
/// stand for.
pub open spec fn loaded(contents: Seq<char>) -> Option<Seq<EntryView>> {
    if contents.len() == 0 {
        Some(Seq::empty())
    } else {
        deserialized(contents)
    }
}

/// A store opened over what was last committed holds what was held then:
/// the same entries in the same order.
pub proof fn lemma_reopen(entries: Seq<EntryView>)
    ensures
        committed_text(entries) is Some ==> loaded(committed_text(entries).unwrap()) == Some(
            entries,
        ),
{
    reveal_strlit("\n");
    if written(entries) is Some {
        assert((written(entries).unwrap() + "\n"@).len() > 0);
    }
}

/// A store whose entries are kept in a file. The store holds the entries in
/// memory and, after each change, hands back the full rewrite of its file.
pub struct LocalDiskJournal {
    path: String,
    entries: Vec<Entry>,
}

impl LocalDiskJournal {
    /// Opens the store over the file at `path`, which holds `contents`.
    pub fn new(path: String, contents: &str) -> (journal: Result<LocalDiskJournal, JournalError>)
        ensures
            match journal {
                Ok(journal) => {
                    &&& loaded(contents@) == Some(journal.entries())
                    &&& journal.locator() == Some(path@)
                },
                Err(error) => {
                    &&& error == JournalError::ConstructionFailure
                    &&& loaded(contents@) is None
                },
            },
    {
        if contents.is_empty() {
            let journal = LocalDiskJournal { path, entries: Vec::new() };
            assert(journal.entries() =~= Seq::<EntryView>::empty());
            Ok(journal)
        } else {
            match deserialize(contents) {
                Ok(entries) => Ok(LocalDiskJournal { path, entries }),
                Err(error) => Err(error),
            }
        }
    }

    /// The name of the file that a store is kept in: the one given, or for
    /// want of one the file of the given day. There is none where no name is
    /// given and there is no such day.
    pub fn resolve(path: Option<String>, year: i32, month: u32, day: u32) -> (name: Option<String>)
        ensures
            match path {
                Some(path) => name is Some && name.unwrap()@ == path@,
                None => {
                    &&& match name {
                        Some(name) => date_text(
                            year as int,
                            month as int,
                            day as int,
                            DAY_FILE@,
                        ) == Some(name@),
                        None => date_text(year as int, month as int, day as int, DAY_FILE@)
                            is None,
                    }
                    &&& 0 <= year <= 9999 ==> text_view(name) == day_file_if_any(
                        year as int,
                        month as int,
                        day as int,
                    )
                },
            },
    {
        match path {
            Some(path) => Some(path),
            None => day_file_name(year, month, day),
        }
    }

    /// The file that the store is kept in.
    pub fn path(&self) -> (path: &String)
        ensures
            self.locator() == Some(path@),
    {
        &self.path
    }
}

impl Journalable for LocalDiskJournal {
    closed spec fn entries(&self) -> Seq<EntryView> {
        views(self.entries@)
    }

    closed spec fn locator(&self) -> Option<Seq<char>> {
        Some(self.path@)
    }

    open spec fn image(&self) -> Option<Seq<char>> {
        committed_text(self.entries())
    }

    fn append(&mut self, entry: Entry) -> (outcome: Result<Option<Write>, JournalError>)
        ensures
            outcome matches Ok(Some(write)) ==> loaded(write.contents@) == Some(
                final(self).entries(),
            ),
    {
        self.entries.push(entry);
        assert(self.entries() =~= appended(old(self).entries(), entry@));
        self.commit()
    }

    fn list(&self) -> (entries: &Vec<Entry>) {
        &self.entries
    }

    fn remove(&mut self, index: usize) -> (outcome: Result<Option<Write>, JournalError>)
        ensures
            outcome matches Ok(Some(write)) ==> loaded(write.contents@) == Some(
                final(self).entries(),
            ),
    {
        if index >= self.entries.len() {
            return Err(JournalError::IndexOutOfRange);
        }
        self.entries.remove(index);
        assert(self.entries() =~= removed(old(self).entries(), index as int));
        self.commit()
    }

    fn toggle_importance(&mut self, index: usize) -> (outcome: Result<
        Option<Write>,
        JournalError,
    >)
        ensures
            outcome matches Ok(Some(write)) ==> loaded(write.contents@) == Some(
                final(self).entries(),
            ),
    {
        if index >= self.entries.len() {
            return Err(JournalError::IndexOutOfRange);
        }
        let entry = &mut self.entries[index];
        entry.toggle_importance();
        assert(self.entries() =~= importance_toggled(old(self).entries(), index as int));
        self.commit()
    }

    fn toggle_completion(&mut self, index: usize) -> (outcome: Result<
        Option<Write>,
        JournalError,
    >)
        ensures
            outcome matches Ok(Some(write)) ==> loaded(write.contents@) == Some(
                final(self).entries(),
            ),
    {
        if index >= self.entries.len() {
            return Err(JournalError::IndexOutOfRange);
        }
        let entry = &mut self.entries[index];
        entry.toggle_completion();
        assert(self.entries() =~= completion_toggled(old(self).entries(), index as int));
        self.commit()
    }

    fn commit(&self) -> (outcome: Result<Option<Write>, JournalError>)
        ensures
            outcome matches Ok(Some(write)) ==> loaded(write.contents@) == Some(self.entries()),
    {
        match write_entries(&self.entries) {
            Some(text) => {
                let mut contents = text;
                contents.append("\n");
                if reads_as(contents.as_str(), &self.entries) {
                    proof {
                        lemma_reopen(self.entries());
                    }
                    Ok(Some(Write { path: self.path.clone(), contents }))
                } else {
                    Err(JournalError::PersistenceFailure)
                }
            },
            None => Err(JournalError::PersistenceFailure),
        }
    }
}

} // verus!
