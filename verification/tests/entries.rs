use bitjo::models::entries::{same_entries, STRIKE, STRIKE_RESET};
use bitjo::models::{Entry, EntryVariants, JournalEntry};

#[test]
fn a_new_entry_is_a_bare_leaf() {
    let entry = Entry::new(EntryVariants::Event, "Launch".to_string());
    assert_eq!(entry.variant, EntryVariants::Event);
    assert_eq!(entry.content, "Launch");
    assert!(!entry.important);
    assert!(!entry.completed);
    assert!(!entry.cancelled);
    assert!(entry.children.is_empty());
}

#[test]
fn the_default_kind_is_a_note() {
    assert_eq!(EntryVariants::default(), EntryVariants::Note);
    let entry = Entry::default();
    assert_eq!(entry, Entry::new(EntryVariants::Note, String::new()));
}

#[test]
fn children_are_appended_in_order() {
    let mut parent = Entry::new(EntryVariants::Task, "parent".to_string());
    parent.important = true;
    parent.insert_child(Entry::new(EntryVariants::Note, "one".to_string()));
    parent.insert_child(Entry::new(EntryVariants::Event, "two".to_string()));
    let mut third = Entry::new(EntryVariants::Task, "three".to_string());
    third.insert_child(Entry::new(EntryVariants::Note, "below three".to_string()));
    parent.insert_child(third);
    let texts: Vec<&str> = parent.children.iter().map(|child| child.content.as_str()).collect();
    assert_eq!(texts, vec!["one", "two", "three"]);
    assert_eq!(parent.children[2].children[0].content, "below three");
    assert_eq!(parent.content, "parent");
    assert_eq!(parent.variant, EntryVariants::Task);
    assert!(parent.important && !parent.completed && !parent.cancelled);
}

#[test]
fn setting_the_content_changes_nothing_else() {
    let mut entry = Entry::new(EntryVariants::Task, "old".to_string());
    entry.completed = true;
    entry.insert_child(Entry::new(EntryVariants::Note, "child".to_string()));
    let mut expected = entry.clone();
    entry.set_content("new".to_string());
    expected.content = "new".to_string();
    assert_eq!(entry, expected);
}

#[test]
fn each_toggle_flips_its_own_flag_only() {
    let mut entry = Entry::new(EntryVariants::Task, "t".to_string());
    entry.toggle_importance();
    assert!(entry.important && !entry.completed && !entry.cancelled);
    entry.toggle_completion();
    assert!(entry.important && entry.completed && !entry.cancelled);
    entry.toggle_importance();
    assert!(!entry.important && entry.completed);
    entry.toggle_completion();
    assert_eq!(entry, Entry::new(EntryVariants::Task, "t".to_string()));
}

#[test]
fn a_clone_is_equal_in_every_field_and_below() {
    let mut entry = Entry::new(EntryVariants::Event, "root".to_string());
    entry.cancelled = true;
    let mut child = Entry::new(EntryVariants::Task, "child".to_string());
    child.completed = true;
    child.insert_child(Entry::new(EntryVariants::Note, "grandchild".to_string()));
    entry.insert_child(child);
    entry.insert_child(Entry::new(EntryVariants::Note, "second".to_string()));
    let copy = entry.clone();
    assert_eq!(copy, entry);
    assert_eq!(copy.children[0].children[0].content, "grandchild");
    assert_eq!(copy.children.len(), 2);
    assert!(copy.cancelled && copy.children[0].completed);
}

#[test]
fn each_kind_renders_with_its_symbol() {
    let note = Entry::new(EntryVariants::Note, "Remember".to_string());
    assert_eq!(note.render(), "  - Remember");
    let mut task = Entry::new(EntryVariants::Task, "Buy milk".to_string());
    assert_eq!(task.render(), "  \u{2022} Buy milk");
    task.completed = true;
    assert_eq!(task.render(), "  X Buy milk");
    let event = Entry::new(EntryVariants::Event, "Launch".to_string());
    assert_eq!(event.render(), "  \u{26AC} Launch");
}

#[test]
fn completion_shows_on_tasks_only() {
    let mut note = Entry::new(EntryVariants::Note, "n".to_string());
    note.completed = true;
    assert_eq!(note.render(), "  - n");
    let mut event = Entry::new(EntryVariants::Event, "e".to_string());
    event.completed = true;
    assert_eq!(event.render(), "  \u{26AC} e");
}

#[test]
fn an_important_entry_is_starred() {
    let mut task = Entry::new(EntryVariants::Task, "Buy milk".to_string());
    task.important = true;
    assert_eq!(task.render(), "* \u{2022} Buy milk");
    task.completed = true;
    assert_eq!(task.render(), "* X Buy milk");
}

#[test]
fn a_cancelled_entry_is_struck_out() {
    assert_eq!(STRIKE, "\u{1b}[9m");
    assert_eq!(STRIKE_RESET, "\u{1b}[29m");
    let mut task = Entry::new(EntryVariants::Task, "Buy milk".to_string());
    task.cancelled = true;
    assert_eq!(task.render(), "  \u{1b}[9m\u{2022} Buy milk\u{1b}[29m");
    task.important = true;
    task.completed = true;
    assert_eq!(task.render(), "* \u{1b}[9mX Buy milk\u{1b}[29m");
    let uncancelled = Entry::new(EntryVariants::Task, "Buy milk".to_string());
    assert_ne!(task, uncancelled);
}

#[test]
fn children_are_not_rendered() {
    let mut parent = Entry::new(EntryVariants::Note, "parent".to_string());
    parent.insert_child(Entry::new(EntryVariants::Note, "child".to_string()));
    assert_eq!(parent.render(), "  - parent");
}

#[test]
fn an_empty_text_renders_as_marker_and_symbol() {
    assert_eq!(Entry::new(EntryVariants::Note, String::new()).render(), "  - ");
}

#[test]
fn entries_are_equal_when_every_field_and_child_is() {
    let build = || {
        let mut entry = Entry::new(EntryVariants::Task, "root".to_string());
        let mut child = Entry::new(EntryVariants::Note, "child".to_string());
        child.insert_child(Entry::new(EntryVariants::Event, "grandchild".to_string()));
        entry.insert_child(child);
        entry
    };
    let entry = build();
    assert!(entry.same(&build()));
    assert!(entry == build());

    let mut other = build();
    other.important = true;
    assert!(!entry.same(&other) && entry != other);
    let mut other = build();
    other.completed = true;
    assert!(!entry.same(&other) && entry != other);
    let mut other = build();
    other.cancelled = true;
    assert!(!entry.same(&other) && entry != other);
    let mut other = build();
    other.variant = EntryVariants::Event;
    assert!(!entry.same(&other) && entry != other);
    let mut other = build();
    other.content.push('!');
    assert!(!entry.same(&other) && entry != other);
    let mut other = build();
    other.children[0].children[0].content = "changed".to_string();
    assert!(!entry.same(&other) && entry != other);
    let mut other = build();
    other.children[0].children.clear();
    assert!(!entry.same(&other) && entry != other);
    let mut other = build();
    other.insert_child(Entry::new(EntryVariants::Note, "extra".to_string()));
    assert!(!entry.same(&other) && entry != other);
}

#[test]
fn lists_are_equal_when_they_hold_equal_entries_in_order() {
    let first = Entry::new(EntryVariants::Note, "first".to_string());
    let second = Entry::new(EntryVariants::Task, "second".to_string());
    assert!(same_entries(&Vec::new(), &Vec::new()));
    assert!(same_entries(&vec![first.clone(), second.clone()], &vec![first.clone(), second.clone()]));
    assert!(!same_entries(&vec![first.clone(), second.clone()], &vec![second.clone(), first.clone()]));
    assert!(!same_entries(&vec![first.clone()], &vec![first.clone(), second.clone()]));
    assert!(!same_entries(&vec![first.clone()], &Vec::new()));
}
