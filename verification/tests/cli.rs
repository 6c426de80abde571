use bitjo::cli::{entries_for, entry_for, run, AddCommands, Cli, Commands};
use bitjo::kinds::{Child, Entry};

#[test]
fn a_run_lists_the_greetings_and_the_new_entry() {
    let cli = Cli { command: Commands::Add(AddCommands::Task { content: "Buy milk".to_string() }) };
    assert_eq!(
        run(&cli),
        vec!["  - Hello note!", "  \u{26AC} Hello event!", "  \u{2022} Hello todo!", "  \u{2022} Buy milk"]
    );
    let cli = Cli { command: Commands::Add(AddCommands::Note { content: "n".to_string() }) };
    assert_eq!(run(&cli)[3], "  - n");
    let cli = Cli { command: Commands::Add(AddCommands::Event { content: "e".to_string() }) };
    assert_eq!(run(&cli)[3], "  \u{26AC} e");
}

#[test]
fn the_greeting_event_has_a_note_below_it() {
    let cli = Cli { command: Commands::Add(AddCommands::Note { content: "n".to_string() }) };
    let entries = entries_for(&cli);
    assert_eq!(entries.len(), 4);
    assert!(entries[0].children().is_empty());
    assert_eq!(entries[1].children().len(), 1);
    assert_eq!(entries[1].children()[0].text(), "  - Hello child note");
    assert!(entries[2].children().is_empty());
    assert!(entries[3].children().is_empty());
}

#[test]
fn a_command_names_the_kind_of_its_entry() {
    let event = entry_for(&AddCommands::Event { content: "e".to_string() });
    assert!(matches!(event, Child::Event(_)));
    let note = entry_for(&AddCommands::Note { content: "n".to_string() });
    assert!(matches!(note, Child::Note(_)));
    let task = entry_for(&AddCommands::Task { content: "t".to_string() });
    assert!(matches!(task, Child::Task(_)));
    assert_eq!(task.text(), "  \u{2022} t");
}
