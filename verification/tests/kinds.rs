use bitjo::kinds::{Child, Entry, Event, Note, Task};

#[test]
fn it_creates_an_event() {
    let content = "Create an event".to_string();
    let event = Event::new(content.clone());
    assert!(event.text().contains(&content));
}

#[test]
fn it_inserts_a_child_entry_to_an_event() {
    let parent = "Create an event".to_string();
    let child = "Create a child note".to_string();
    let mut event = Event::new(parent.clone());
    let note = Note::new(child.clone());
    event.insert(note.into());
    assert!(event.children().first().unwrap().text().contains(&child));
}

#[test]
fn note_it_creates_a_note() {
    let content = "Create a note".to_string();
    let note = Note::new(content.clone());
    assert!(note.text().contains(&content));
}

#[test]
fn it_inserts_a_child_entry_to_a_note() {
    let parent = "Create a note".to_string();
    let child = "Create a child task".to_string();
    let mut note = Note::new(parent.clone());
    let task = Task::new(child.clone());
    note.insert(task.into());
    assert!(note.children().first().unwrap().text().contains(&child));
}

#[test]
fn task_it_creates_a_note() {
    let content = "Create a task".to_string();
    let task = Task::new(content.clone());
    assert!(task.text().contains(&content));
}

#[test]
fn it_inserts_a_child_entry_to_a_task() {
    let parent = "Create a task".to_string();
    let child = "Create a child task".to_string();
    let mut task = Task::new(parent.clone());
    let note = Note::new(child.clone());
    task.insert(note.into());
    assert!(task.children().first().unwrap().text().contains(&child));
}

#[test]
fn each_kind_has_its_own_line() {
    assert_eq!(Note::new("n".to_string()).text(), "  - n");
    assert_eq!(Task::new("t".to_string()).text(), "  \u{2022} t");
    assert_eq!(Event::new("e".to_string()).text(), "  \u{26AC} e");
}

#[test]
fn children_keep_insertion_order() {
    let mut event = Event::new("parent".to_string());
    event.insert(Note::new("first".to_string()).into());
    event.insert(Task::new("second".to_string()).into());
    event.insert(Child::Event(Event::new("third".to_string())));
    let texts: Vec<String> = event.children().iter().map(|child| child.text()).collect();
    assert_eq!(texts, vec!["  - first", "  \u{2022} second", "  \u{26AC} third"]);
    assert!(event.text().contains("parent"));
}

#[test]
fn a_child_takes_children_of_its_own() {
    let mut child = Child::Note(Note::new("outer".to_string()));
    child.insert(Task::new("inner".to_string()).into());
    assert_eq!(child.children().len(), 1);
    assert_eq!(child.children()[0].text(), "  \u{2022} inner");
    assert_eq!(child.text(), "  - outer");
}
