use crate::kinds::entry::{line, Child, Entry};
use crate::kinds::event::Event;
use crate::kinds::note::Note;
use crate::kinds::task::Task;
use vstd::prelude::*;

verus! {

/// The arguments of a run.
pub struct Cli {
    pub command: Commands,
}

/// What a run is asked to do.
pub enum Commands {
    Add(AddCommands),
}

/// The entry to add: its kind and its text.
pub enum AddCommands {
    Event { content: String },
    Note { content: String },
    Task { content: String },
}

/// The line of the entry that `command` adds.
pub open spec fn added_line(command: AddCommands) -> Seq<char> {
    match command {
        AddCommands::Event { content } => line(false, "\u{26AC}"@, content@),
        AddCommands::Note { content } => line(false, "-"@, content@),
        AddCommands::Task { content } => line(false, "\u{2022}"@, content@),
    }
}

/// The lines of the three entries that every run starts with.
pub open spec fn greeting_lines() -> Seq<Seq<char>> {
    seq![
        line(false, "-"@, "Hello note!"@),
        line(false, "\u{26AC}"@, "Hello event!"@),
        line(false, "\u{2022}"@, "Hello todo!"@),
    ]
}

/// The lines of `entries`, in the same order.
pub open spec fn lines_of(entries: Seq<Child>) -> Seq<Seq<char>> {
    Seq::new(entries.len(), |i: int| entries[i].text_spec())
}

/// The views of `lines`, in the same order.
pub open spec fn line_views(lines: Seq<String>) -> Seq<Seq<char>> {
    Seq::new(lines.len(), |i: int| lines[i]@)
}

/// The new entry that `command` asks for: a leaf of the kind named, with the
/// text given.
pub fn entry_for(command: &AddCommands) -> (entry: Child)
    ensures
        entry.text_spec() == added_line(*command),
        entry.children_spec() == Seq::<Child>::empty(),
        match *command {
            AddCommands::Event { .. } => entry is Event,
            AddCommands::Note { .. } => entry is Note,
            AddCommands::Task { .. } => entry is Task,
        },
{
    match command {
        AddCommands::Event { content } => Child::Event(Event::new(content.clone())),
        AddCommands::Note { content } => Child::Note(Note::new(content.clone())),
        AddCommands::Task { content } => Child::Task(Task::new(content.clone())),
    }
}

/// The entries of a run: a note, an event with one note below it and a task,
/// then what the command adds.
pub fn entries_for(cli: &Cli) -> (entries: Vec<Child>)
    ensures
        lines_of(entries@) == match cli.command {
            Commands::Add(command) => greeting_lines().push(added_line(command)),
        },
        entries@[1].children_spec().len() == 1,
        entries@[1].children_spec()[0].text_spec() == line(false, "-"@, "Hello child note"@),
{
    let note = Note::new("Hello note!".to_string());
    let mut event = Event::new("Hello event!".to_string());
    let task = Task::new("Hello todo!".to_string());
    event.insert(Child::Note(Note::new("Hello child note".to_string())));
    let mut entries: Vec<Child> = Vec::new();
    entries.push(Child::Note(note));
    entries.push(Child::Event(event));
    entries.push(Child::Task(task));
    match &cli.command {
        Commands::Add(command) => {
            entries.push(entry_for(command));
            assert(lines_of(entries@) =~= greeting_lines().push(added_line(*command)));
        },
    }
    entries
}

/// The lines that a run prints: one for each of its entries.
pub fn run(cli: &Cli) -> (lines: Vec<String>)
    ensures
        line_views(lines@) == match cli.command {
            Commands::Add(command) => greeting_lines().push(added_line(command)),
        },
{
    let entries = entries_for(cli);
    let mut lines: Vec<String> = Vec::new();
    let mut i: usize = 0;
    while i < entries.len()
        invariant
            i <= entries.len(),
            lines.len() == i,
            forall|k: int| 0 <= k < i ==> lines[k]@ == entries[k].text_spec(),
        decreases entries.len() - i,
    {
        lines.push(entries[i].text());
        i = i + 1;
    }
    assert(line_views(lines@) =~= lines_of(entries@));
    lines
}

} // verus!
