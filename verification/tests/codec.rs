use bitjo::models::{Entry, EntryVariants};
use bitjo::services::codec::{
    bool_field, decode_entries, decode_entry, encode_entries, encode_entry, reads_as, text_field,
    variant_named, variant_text, write_entries,
};
use bitjo::services::{deserialize, serialize, JournalError};
use serde_yaml::Value;

fn sample() -> Vec<Entry> {
    let mut trip = Entry::new(EntryVariants::Event, "Trip".to_string());
    let mut pack = Entry::new(EntryVariants::Task, "Pack".to_string());
    pack.completed = true;
    pack.insert_child(Entry::new(EntryVariants::Note, "socks".to_string()));
    trip.insert_child(pack);
    trip.insert_child(Entry::new(EntryVariants::Note, "passport: yes".to_string()));
    trip.important = true;
    let mut dropped = Entry::new(EntryVariants::Task, "Call".to_string());
    dropped.cancelled = true;
    vec![trip, dropped, Entry::new(EntryVariants::Note, String::new())]
}

#[test]
fn entries_come_back_as_they_were() {
    let entries = sample();
    let text = serialize(&entries).unwrap();
    assert_eq!(deserialize(&text), Ok(entries));
}

#[test]
fn an_empty_list_comes_back_empty() {
    let text = serialize(&Vec::new()).unwrap();
    assert_eq!(text, "[]\n");
    assert_eq!(deserialize(&text), Ok(Vec::new()));
}

#[test]
fn text_that_looks_like_yaml_comes_back_as_text() {
    let contents = [
        "true", "null", "~", "42", "1.5", "- item", "key: value", "# comment", "'quoted'",
        "\"double\"", "line one\nline two", "  padded  ", "caf\u{e9} \u{2022}", "[a, b]", "{a: b}",
        "---", "Note", "",
    ];
    let entries: Vec<Entry> = contents
        .iter()
        .map(|content| Entry::new(EntryVariants::Note, content.to_string()))
        .collect();
    let text = serialize(&entries).unwrap();
    assert_eq!(deserialize(&text), Ok(entries));
}

#[test]
fn deep_nesting_comes_back_whole() {
    let mut entry = Entry::new(EntryVariants::Note, "level 0".to_string());
    for level in 1..20 {
        let mut parent = Entry::new(EntryVariants::Task, format!("level {}", level));
        parent.insert_child(entry);
        entry = parent;
    }
    let entries = vec![entry];
    let text = serialize(&entries).unwrap();
    assert_eq!(deserialize(&text), Ok(entries));
}

#[test]
fn a_record_is_written_field_by_field() {
    let mut entry = Entry::new(EntryVariants::Task, "Buy milk".to_string());
    entry.important = true;
    entry.insert_child(Entry::new(EntryVariants::Event, "Shop opens".to_string()));
    let text = serialize(&vec![entry]).unwrap();
    assert_eq!(
        text,
        "- important: true\n  content: Buy milk\n  completed: false\n  cancelled: false\n  variant: Task\n  children:\n  - important: false\n    content: Shop opens\n    completed: false\n    cancelled: false\n    variant: Event\n    children: []\n"
    );
}

#[test]
fn fields_are_read_in_any_order_and_other_keys_passed_over() {
    let text = "- children: []\n  variant: Event\n  colour: blue\n  cancelled: true\n  completed: false\n  content: Launch\n  important: true\n";
    let mut expected = Entry::new(EntryVariants::Event, "Launch".to_string());
    expected.cancelled = true;
    expected.important = true;
    assert_eq!(deserialize(text), Ok(vec![expected]));
}

#[test]
fn text_that_is_no_yaml_is_rejected() {
    assert_eq!(deserialize("- [unclosed"), Err(JournalError::ConstructionFailure));
    assert_eq!(deserialize("a: b: c: d"), Err(JournalError::ConstructionFailure));
}

#[test]
fn yaml_of_another_shape_is_rejected() {
    let complete = "- important: false\n  content: x\n  completed: false\n  cancelled: false\n  variant: Note\n  children: []\n";
    assert!(deserialize(complete).is_ok());
    let cases = [
        "content: a mapping, not a list\n",
        "just text\n",
        "- 1\n- 2\n",
        "- content: x\n  completed: false\n  cancelled: false\n  variant: Note\n  children: []\n",
        "- important: false\n  completed: false\n  cancelled: false\n  variant: Note\n  children: []\n",
        "- important: false\n  content: x\n  cancelled: false\n  variant: Note\n  children: []\n",
        "- important: false\n  content: x\n  completed: false\n  variant: Note\n  children: []\n",
        "- important: false\n  content: x\n  completed: false\n  cancelled: false\n  children: []\n",
        "- important: false\n  content: x\n  completed: false\n  cancelled: false\n  variant: Note\n",
        "- important: 'false'\n  content: x\n  completed: false\n  cancelled: false\n  variant: Note\n  children: []\n",
        "- important: false\n  content: [x]\n  completed: false\n  cancelled: false\n  variant: Note\n  children: []\n",
        "- important: false\n  content: x\n  completed: 0\n  cancelled: false\n  variant: Note\n  children: []\n",
        "- important: false\n  content: x\n  completed: false\n  cancelled: false\n  variant: Memo\n  children: []\n",
        "- important: false\n  content: x\n  completed: false\n  cancelled: false\n  variant: note\n  children: []\n",
        "- important: false\n  content: x\n  completed: false\n  cancelled: false\n  variant: Note\n  children: none\n",
        "- important: false\n  content: x\n  completed: false\n  cancelled: false\n  variant: Note\n  children:\n    - content: only\n",
    ];
    for case in cases {
        assert_eq!(deserialize(case), Err(JournalError::ConstructionFailure), "{}", case);
    }
}

#[test]
fn kinds_are_stored_under_their_names() {
    assert_eq!(variant_text(EntryVariants::Note), "Note");
    assert_eq!(variant_text(EntryVariants::Task), "Task");
    assert_eq!(variant_text(EntryVariants::Event), "Event");
    assert_eq!(variant_named("Note"), Some(EntryVariants::Note));
    assert_eq!(variant_named("Task"), Some(EntryVariants::Task));
    assert_eq!(variant_named("Event"), Some(EntryVariants::Event));
    assert_eq!(variant_named("event"), None);
    assert_eq!(variant_named(""), None);
    assert_eq!(variant_named("Notes"), None);
}

#[test]
fn an_entry_becomes_a_mapping_of_its_fields() {
    let mut entry = Entry::new(EntryVariants::Task, "Buy milk".to_string());
    entry.completed = true;
    entry.insert_child(Entry::new(EntryVariants::Note, "oat".to_string()));
    let value = encode_entry(&entry);
    let mapping = value.as_mapping().unwrap();
    let keys: Vec<&str> = mapping.iter().map(|(key, _)| key.as_str().unwrap()).collect();
    assert_eq!(
        keys,
        vec!["important", "content", "completed", "cancelled", "variant", "children"]
    );
    assert_eq!(value.get("important"), Some(&Value::Bool(false)));
    assert_eq!(value.get("content"), Some(&Value::String("Buy milk".to_string())));
    assert_eq!(value.get("completed"), Some(&Value::Bool(true)));
    assert_eq!(value.get("cancelled"), Some(&Value::Bool(false)));
    assert_eq!(value.get("variant"), Some(&Value::String("Task".to_string())));
    let children = value.get("children").unwrap().as_sequence().unwrap();
    assert_eq!(children.len(), 1);
    assert_eq!(children[0].get("content"), Some(&Value::String("oat".to_string())));
    assert_eq!(decode_entry(&value), Some(entry));
}

#[test]
fn a_list_becomes_a_sequence_in_order() {
    let entries = sample();
    let value = encode_entries(&entries);
    let items = value.as_sequence().unwrap();
    assert_eq!(items.len(), 3);
    assert_eq!(items[0].get("content"), Some(&Value::String("Trip".to_string())));
    assert_eq!(items[1].get("content"), Some(&Value::String("Call".to_string())));
    assert_eq!(items[2].get("content"), Some(&Value::String(String::new())));
    assert_eq!(decode_entries(&value), Some(entries));
}

#[test]
fn fields_are_read_by_key_and_type() {
    let value: Value =
        serde_yaml::from_str("flag: true\nname: text\ncount: 3\ntrue: false\n").unwrap();
    assert_eq!(bool_field(&value, "flag"), Some(true));
    assert_eq!(bool_field(&value, "name"), None);
    assert_eq!(bool_field(&value, "missing"), None);
    assert_eq!(bool_field(&value, "true"), None);
    assert_eq!(text_field(&value, "name"), Some("text".to_string()));
    assert_eq!(text_field(&value, "flag"), None);
    assert_eq!(text_field(&value, "count"), None);
    assert_eq!(text_field(&value, "missing"), None);
    let no_mapping = Value::Sequence(vec![Value::Bool(true)]);
    assert_eq!(bool_field(&no_mapping, "flag"), None);
    assert_eq!(text_field(&no_mapping, "name"), None);
}

#[test]
fn a_value_that_is_no_entry_is_not_decoded() {
    assert_eq!(decode_entry(&Value::Null), None);
    assert_eq!(decode_entry(&Value::String("Note".to_string())), None);
    assert_eq!(decode_entries(&Value::Null), None);
    assert_eq!(decode_entries(&Value::Bool(true)), None);
    assert_eq!(decode_entries(&Value::Sequence(Vec::new())), Some(Vec::new()));
    let good = encode_entry(&Entry::new(EntryVariants::Note, "ok".to_string()));
    assert_eq!(decode_entries(&Value::Sequence(vec![good, Value::Null])), None);
}

#[test]
fn text_is_checked_against_the_entries_it_is_read_as() {
    let entries = sample();
    let text = write_entries(&entries).unwrap();
    assert_eq!(serialize(&entries), Ok(text.clone()));
    assert!(reads_as(&text, &entries));
    assert!(!reads_as(&text, &Vec::new()));
    assert!(!reads_as("[]\n", &entries));
    assert!(reads_as("[]\n", &Vec::new()));
    assert!(reads_as("---\n[]\n", &Vec::new()));
    assert!(reads_as("[]", &Vec::new()));
    assert!(!reads_as("- [unclosed", &Vec::new()));
    let mut other = sample();
    other[0].children[0].children[0].content.push('!');
    assert!(!reads_as(&text, &other));
}

#[test]
fn text_that_looks_like_a_number_comes_back_as_text() {
    let contents = [
        "0o7", "0b101", "+0x1F", "0x1F", "+.inf", ".inf", "-.inf", ".nan", "7", "+7", "-7", "1e3",
        "1_000", "007", "12:30:00", "2001-01-01", "0o8", "0b2", "yes", "no", "on", "off", "y", "n",
        "Y", "N", "True", "FALSE", "Null", "NULL", "~",
    ];
    for content in contents {
        let entries = vec![Entry::new(EntryVariants::Task, content.to_string())];
        let text = serialize(&entries).unwrap();
        assert_eq!(deserialize(&text), Ok(entries), "{}", content);
    }
}

#[test]
fn text_of_several_lines_comes_back_line_by_line() {
    let contents = [
        "a\nb", "a\n", "a\n\n", "\n", "\n\n", "\na", " a\nb", "a\n b", "a \nb", "a\nb ",
        "  a\n  b\n", "a\n\nb", "\ta\nb", "a\n\tb", "a\r\nb\r\n", "# c\nd", "---\na", "a\n...",
        "- a\n- b", "k: v\nk2: v2",
    ];
    for content in contents {
        let mut parent = Entry::new(EntryVariants::Event, content.to_string());
        parent.insert_child(Entry::new(EntryVariants::Note, content.to_string()));
        let entries = vec![parent];
        let text = serialize(&entries).unwrap();
        assert_eq!(deserialize(&text), Ok(entries), "{:?}", content);
    }
}

#[test]
fn tags_are_passed_over() {
    let text = "- !entry\n  important: !flag true\n  content: !text tagged\n  completed: false\n  cancelled: false\n  variant: Note\n  children: !list []\n";
    let mut expected = Entry::new(EntryVariants::Note, "tagged".to_string());
    expected.important = true;
    assert_eq!(deserialize(text), Ok(vec![expected]));
}
