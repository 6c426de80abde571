use crate::models::entries::{
    lemma_children, same_entries, views, Entry, EntryVariants, EntryView,
};
use crate::services::journal::JournalError;
use crate::services::yaml::{
    as_flag, as_items, as_text, bool_value, docs, emit, field, find_value, key_docs,
    lemma_found_is_smaller, lemma_item_is_smaller, lookup, mapping_value, parse, sequence_value,
    text_value, value_docs, yaml_doc, yaml_parsed, yaml_text, Doc,
};
use vstd::prelude::*;

verus! {

/// The name under which a kind is stored.
pub open spec fn variant_name(variant: EntryVariants) -> Seq<char> {
    match variant {
        EntryVariants::Note => "Note"@,
        EntryVariants::Task => "Task"@,
        EntryVariants::Event => "Event"@,
    }
}

/// The kind stored under `name`, if `name` is the name of one.
pub open spec fn named_variant(name: Seq<char>) -> Option<EntryVariants> {
    if name == "Note"@ {
        Some(EntryVariants::Note)
    } else if name == "Task"@ {
        Some(EntryVariants::Task)
    } else if name == "Event"@ {
        Some(EntryVariants::Event)
    } else {
        None
    }
}

/// The keys of a stored entry, in the order in which they are written.
pub open spec fn field_names() -> Seq<Doc> {
    seq![
        Doc::Text("important"@),
        Doc::Text("content"@),
        Doc::Text("completed"@),
        Doc::Text("cancelled"@),
        Doc::Text("variant"@),
        Doc::Text("children"@),
    ]
}

/// The document that stands for one entry: a mapping from the name of each
/// field to its value, the children as a sequence of such mappings.
pub open spec fn entry_doc(entry: EntryView) -> Doc
    decreases entry,
{
    Doc::Mapping(
        field_names(),
        seq![
            Doc::Bool(entry.important),
            Doc::Text(entry.content),
            Doc::Bool(entry.completed),
            Doc::Bool(entry.cancelled),
            Doc::Text(variant_name(entry.variant)),
            entries_doc(entry.children),
        ],
    )
}

/// The document that stands for a list of entries: the sequence of their
/// documents, in the same order.
pub open spec fn entries_doc(entries: Seq<EntryView>) -> Doc
    decreases entries,
{
    Doc::Sequence(
        Seq::new(
            entries.len(),
            |i: int|
                if 0 <= i < entries.len() {
                    entry_doc(entries[i])
                } else {
                    arbitrary()
                },
        ),
    )
}

/// The boolean that the mapping `doc` holds under `key`.
pub open spec fn flag_at(doc: Doc, key: Seq<char>) -> Option<bool> {
    match lookup(doc, key) {
        Some(found) => as_flag(found),
        None => None,
    }
}

/// The string that the mapping `doc` holds under `key`.
pub open spec fn text_at(doc: Doc, key: Seq<char>) -> Option<Seq<char>> {
    match lookup(doc, key) {
        Some(found) => as_text(found),
        None => None,
    }
}

/// The entry that `doc` stands for. There is one where `doc` is a mapping
/// that holds a boolean under `important`, `completed` and `cancelled`, a
/// string under `content`, the name of a kind under `variant`, and under
/// `children` a document that stands for a list of entries. Other keys are
/// passed over, and so are tags.
pub open spec fn doc_entry(doc: Doc) -> Option<EntryView>
    decreases doc,
{
    match (
        flag_at(doc, "important"@),
        text_at(doc, "content"@),
        flag_at(doc, "completed"@),
        flag_at(doc, "cancelled"@),
        text_at(doc, "variant"@),
        lookup(doc, "children"@),
    ) {
        (
            Some(important),
            Some(content),
            Some(completed),
            Some(cancelled),
            Some(name),
            Some(below),
        ) => {
            proof {
                lemma_found_is_smaller(doc, "children"@);
            }
            match (named_variant(name), doc_entries(below)) {
                (Some(variant), Some(children)) => Some(
                    EntryView { important, content, completed, cancelled, variant, children },
                ),
                _ => None,
            }
        },
        _ => None,
    }
}

/// The list of entries that `doc` stands for. There is one where `doc` is a
/// sequence and each of its items stands for an entry.
pub open spec fn doc_entries(doc: Doc) -> Option<Seq<EntryView>>
    decreases doc,
    via items_are_smaller
{
    match as_items(doc) {
        Some(items) => {
            if forall|i: int| 0 <= i < items.len() ==> doc_entry(#[trigger] items[i]) is Some {
                Some(
                    Seq::new(
                        items.len(),
                        |i: int|
                            if 0 <= i < items.len() {
                                doc_entry(items[i]).unwrap()
                            } else {
                                arbitrary()
                            },
                    ),
                )
            } else {
                None
            }
        },
        None => None,
    }
}

#[via_fn]
proof fn items_are_smaller(doc: Doc) {
    if as_items(doc) is Some {
        let items = as_items(doc).unwrap();
        assert forall|i: int| 0 <= i < items.len() implies decreases_to!(doc => #[trigger] items[i]) by {
            lemma_item_is_smaller(doc, i);
        }
    }
}

/// The names of the six fields are six different strings.
pub proof fn lemma_field_names_differ()
    ensures
        field_names().len() == 6,
        forall|i: int| 0 <= i < 6 ==> #[trigger] field_names()[i] is Text,
        forall|i: int, j: int| 0 <= i < j < 6 ==> field_names()[i] != field_names()[j],
{
    reveal_strlit("important");
    reveal_strlit("content");
    reveal_strlit("completed");
    reveal_strlit("cancelled");
    reveal_strlit("variant");
    reveal_strlit("children");
    let names = field_names();
    assert("important"@[0] == 'i' && "content"@[2] == 'n' && "completed"@[2] == 'm'
        && "cancelled"@[1] == 'a' && "variant"@[0] == 'v' && "children"@[1] == 'h');
    assert("content"@[0] == 'c' && "completed"@[1] == 'o' && "cancelled"@[0] == 'c');
    assert forall|i: int, j: int| 0 <= i < j < 6 implies names[i] != names[j] by {
        if names[i] == names[j] {
            assert(names[i]->Text_0 == names[j]->Text_0);
        }
    }
}

/// The name of `variant`, as a string.
pub fn variant_text(variant: EntryVariants) -> (name: String)
    ensures
        name@ == variant_name(variant),
{
    match variant {
        EntryVariants::Note => "Note".to_string(),
        EntryVariants::Task => "Task".to_string(),
        EntryVariants::Event => "Event".to_string(),
    }
}

/// Builds the document that stands for `entry`.
pub fn encode_entry(entry: &Entry) -> (value: serde_yaml::Value)
    ensures
        yaml_doc(value) == entry_doc(entry@),
    decreases entry,
{
    let mut pairs: Vec<(serde_yaml::Value, serde_yaml::Value)> = Vec::new();
    pairs.push((text_value("important".to_string()), bool_value(entry.important)));
    pairs.push((text_value("content".to_string()), text_value(entry.content.clone())));
    pairs.push((text_value("completed".to_string()), bool_value(entry.completed)));
    pairs.push((text_value("cancelled".to_string()), bool_value(entry.cancelled)));
    pairs.push((text_value("variant".to_string()), text_value(variant_text(entry.variant))));
    pairs.push((text_value("children".to_string()), encode_entries(&entry.children)));
    proof {
        lemma_field_names_differ();
        lemma_children(*entry);
        assert(key_docs(pairs@) =~= field_names());
        assert(value_docs(pairs@) =~= entry_doc(entry@)->Mapping_1);
    }
    mapping_value(pairs)
}

/// Builds the document that stands for `entries`.
pub fn encode_entries(entries: &Vec<Entry>) -> (value: serde_yaml::Value)
    ensures
        yaml_doc(value) == entries_doc(views(entries@)),
    decreases entries,
{
    let mut items: Vec<serde_yaml::Value> = Vec::new();
    let mut i: usize = 0;
    while i < entries.len()
        invariant
            i <= entries.len(),
            items.len() == i,
            forall|k: int| 0 <= k < i ==> yaml_doc(items[k]) == entry_doc(entries[k]@),
        decreases entries.len() - i,
    {
        items.push(encode_entry(&entries[i]));
        i = i + 1;
    }
    proof {
        assert(docs(items@) =~= entries_doc(views(entries@))->Sequence_0);
    }
    sequence_value(items)
}

/// The kind stored under `name`, if `name` is the name of one.
pub fn variant_named(name: &str) -> (variant: Option<EntryVariants>)
    ensures
        variant == named_variant(name@),
{
    let name = name.to_string();
    if name == "Note".to_string() {
        Some(EntryVariants::Note)
    } else if name == "Task".to_string() {
        Some(EntryVariants::Task)
    } else if name == "Event".to_string() {
        Some(EntryVariants::Event)
    } else {
        None
    }
}

/// The boolean that the mapping `value` holds under `key`.
pub fn bool_field(value: &serde_yaml::Value, key: &str) -> (flag: Option<bool>)
    ensures
        flag == flag_at(yaml_doc(*value), key@),
{
    match field(value, key) {
        Some(found) => found.as_bool(),
        None => None,
    }
}

/// The string that the mapping `value` holds under `key`.
pub fn text_field(value: &serde_yaml::Value, key: &str) -> (text: Option<String>)
    ensures
        match text {
            Some(text) => text_at(yaml_doc(*value), key@) == Some(text@),
            None => text_at(yaml_doc(*value), key@) is None,
        },
{
    match field(value, key) {
        Some(found) => match found.as_str() {
            Some(text) => Some(text.to_string()),
            None => None,
        },
        None => None,
    }
}

/// Reads the entry that `value` stands for, if it stands for one.
pub fn decode_entry(value: &serde_yaml::Value) -> (entry: Option<Entry>)
    ensures
        match entry {
            Some(entry) => doc_entry(yaml_doc(*value)) == Some(entry@),
            None => doc_entry(yaml_doc(*value)) is None,
        },
    decreases yaml_doc(*value),
{
    let important = bool_field(value, "important");
    let content = text_field(value, "content");
    let completed = bool_field(value, "completed");
    let cancelled = bool_field(value, "cancelled");
    let name = text_field(value, "variant");
    let below = field(value, "children");
    match (important, content, completed, cancelled, name, below) {
        (
            Some(important),
            Some(content),
            Some(completed),
            Some(cancelled),
            Some(name),
            Some(below),
        ) => {
            proof {
                lemma_found_is_smaller(yaml_doc(*value), "children"@);
            }
            match (variant_named(name.as_str()), decode_entries(below)) {
                (Some(variant), Some(children)) => {
                    let entry = Entry {
                        important,
                        content,
                        completed,
                        cancelled,
                        variant,
                        children,
                    };
                    proof {
                        lemma_children(entry);
                    }
                    Some(entry)
                },
                _ => None,
            }
        },
        _ => None,
    }
}

/// A sequence with an item that stands for no entry stands for no list.
pub proof fn lemma_one_item_fails(doc: Doc, i: int)
    requires
        as_items(doc) is Some,
        0 <= i < as_items(doc).unwrap().len(),
        doc_entry(as_items(doc).unwrap()[i]) is None,
    ensures
        doc_entries(doc) is None,
{
}

/// Reads the list of entries that `value` stands for, if it stands for one.
pub fn decode_entries(value: &serde_yaml::Value) -> (entries: Option<Vec<Entry>>)
    ensures
        match entries {
            Some(entries) => doc_entries(yaml_doc(*value)) == Some(views(entries@)),
            None => doc_entries(yaml_doc(*value)) is None,
        },
    decreases yaml_doc(*value),
{
    match value.as_sequence() {
        Some(items) => {
            let mut entries: Vec<Entry> = Vec::new();
            let mut i: usize = 0;
            while i < items.len()
                invariant
                    i <= items.len(),
                    entries.len() == i,
                    as_items(yaml_doc(*value)) == Some(docs(items@)),
                    forall|k: int|
                        0 <= k < i ==> doc_entry(#[trigger] docs(items@)[k]) == Some(entries[k]@),
                decreases items.len() - i,
            {
                proof {
                    assert(docs(items@)[i as int] == yaml_doc(items@[i as int]));
                    lemma_item_is_smaller(yaml_doc(*value), i as int);
                }
                match decode_entry(&items[i]) {
                    Some(entry) => {
                        entries.push(entry);
                    },
                    None => {
                        proof {
                            lemma_one_item_fails(yaml_doc(*value), i as int);
                        }
                        return None;
                    },
                }
                i = i + 1;
            }
            proof {
                assert(doc_entries(yaml_doc(*value)).unwrap() =~= views(entries@));
            }
            Some(entries)
        },
        None => None,
    }
}

/// In a mapping with the six field names as its keys, each name leads to the
/// value at its own position.
pub proof fn lemma_fields_found(values: Seq<Doc>)
    requires
        values.len() == 6,
    ensures
        lookup(Doc::Mapping(field_names(), values), "important"@) == Some(values[0]),
        lookup(Doc::Mapping(field_names(), values), "content"@) == Some(values[1]),
        lookup(Doc::Mapping(field_names(), values), "completed"@) == Some(values[2]),
        lookup(Doc::Mapping(field_names(), values), "cancelled"@) == Some(values[3]),
        lookup(Doc::Mapping(field_names(), values), "variant"@) == Some(values[4]),
        lookup(Doc::Mapping(field_names(), values), "children"@) == Some(values[5]),
{
    lemma_field_names_differ();
    let names = field_names();
    assert forall|k: int| 0 <= k < 6 implies find_value(names, values, names[k]) == Some(
        values[k],
    ) by {
        lemma_found_at(names, values, k);
    }
    assert(names[0] == Doc::Text("important"@));
    assert(names[1] == Doc::Text("content"@));
    assert(names[2] == Doc::Text("completed"@));
    assert(names[3] == Doc::Text("cancelled"@));
    assert(names[4] == Doc::Text("variant"@));
    assert(names[5] == Doc::Text("children"@));
}

/// Where no earlier key equals the key at `k`, that key leads to the value
/// at `k`.
pub proof fn lemma_found_at(keys: Seq<Doc>, values: Seq<Doc>, k: int)
    requires
        0 <= k < keys.len(),
        keys.len() == values.len(),
        forall|i: int| 0 <= i < k ==> #[trigger] keys[i] != keys[k],
    ensures
        find_value(keys, values, keys[k]) == Some(values[k]),
    decreases k,
{
    if k > 0 {
        let rest_keys = keys.subrange(1, keys.len() as int);
        let rest_values = values.subrange(1, values.len() as int);
        assert(rest_keys[k - 1] == keys[k]);
        assert(rest_values[k - 1] == values[k]);
        assert forall|i: int| 0 <= i < k - 1 implies #[trigger] rest_keys[i] != rest_keys[k - 1] by {
            assert(rest_keys[i] == keys[i + 1]);
        }
        lemma_found_at(rest_keys, rest_values, k - 1);
        assert(keys[0] != keys[k]);
    }
}

/// Each kind is found again under its own name.
pub proof fn lemma_variant_round_trip(variant: EntryVariants)
    ensures
        named_variant(variant_name(variant)) == Some(variant),
{
    reveal_strlit("Note");
    reveal_strlit("Task");
    reveal_strlit("Event");
    assert("Note"@[0] == 'N' && "Task"@[0] == 'T' && "Event"@[0] == 'E');
}

/// An entry is read back from its own document as it was, in every field
/// and with all that is below it.
pub proof fn lemma_entry_round_trip(entry: EntryView)
    ensures
        doc_entry(entry_doc(entry)) == Some(entry),
    decreases entry,
{
    let doc = entry_doc(entry);
    lemma_fields_found(doc->Mapping_1);
    lemma_variant_round_trip(entry.variant);
    lemma_entries_round_trip(entry.children);
}

/// A list of entries is read back from its own document as it was: the
/// same entries in the same order.
pub proof fn lemma_entries_round_trip(entries: Seq<EntryView>)
    ensures
        doc_entries(entries_doc(entries)) == Some(entries),
    decreases entries,
{
    let items = entries_doc(entries)->Sequence_0;
    assert forall|i: int| 0 <= i < items.len() implies doc_entry(#[trigger] items[i]) == Some(
        entries[i],
    ) by {
        lemma_entry_round_trip(entries[i]);
    }
    assert(doc_entries(entries_doc(entries)).unwrap() =~= entries);
}

/// What the YAML writer gives for the document of `entries`.
pub open spec fn written(entries: Seq<EntryView>) -> Option<Seq<char>> {
    yaml_text(entries_doc(entries))
}

/// The entries that `text` stands for: there are some where the YAML reader
/// takes `text` for a document and that document stands for a list of
/// entries.
pub open spec fn deserialized(text: Seq<char>) -> Option<Seq<EntryView>> {
    match yaml_parsed(text) {
        Some(doc) => doc_entries(doc),
        None => None,
    }
}

/// The text that stands for `entries`: what the YAML writer gives for their
/// document, provided that this text stands for `entries` and for nothing
/// else. Where it does not, `entries` have no text.
pub open spec fn serialized(entries: Seq<EntryView>) -> Option<Seq<char>> {
    match written(entries) {
        Some(text) => if deserialized(text) == Some(entries) {
            Some(text)
        } else {
            None
        },
        None => None,
    }
}

/// Reading the text of a list of entries gives back that list: the same
/// entries in the same order, each with the same fields and the same
/// entries below it.
pub proof fn lemma_round_trip(entries: Seq<EntryView>)
    ensures
        serialized(entries) is Some ==> deserialized(serialized(entries).unwrap()) == Some(
            entries,
        ),
{
}

/// Entries have a text wherever the YAML reader gives back the document
/// that the YAML writer was given.
pub proof fn lemma_faithful_yaml_serializes(entries: Seq<EntryView>, text: Seq<char>)
    ensures
        written(entries) == Some(text) && yaml_parsed(text) == Some(entries_doc(entries))
            ==> serialized(entries) == Some(text),
{
    lemma_entries_round_trip(entries);
}

/// Writes the document of `entries` as YAML text, whatever that text is
/// read as.
pub fn write_entries(entries: &Vec<Entry>) -> (text: Option<String>)
    ensures
        match text {
            Some(text) => written(views(entries@)) == Some(text@),
            None => written(views(entries@)) is None,
        },
{
    let value = encode_entries(entries);
    match emit(&value) {
        Ok(text) => Some(text),
        Err(_) => None,
    }
}

/// Whether `text` stands for exactly `entries`.
pub fn reads_as(text: &str, entries: &Vec<Entry>) -> (same: bool)
    ensures
        same == (deserialized(text@) == Some(views(entries@))),
{
    match deserialize(text) {
        Ok(read) => same_entries(&read, entries),
        Err(_) => false,
    }
}

/// Writes `entries` as YAML text and makes sure that the text is read back
/// as `entries`. It fails where the YAML writer does, and where the text
/// written would be read as anything else.
pub fn serialize(entries: &Vec<Entry>) -> (text: Result<String, JournalError>)
    ensures
        match text {
            Ok(text) => {
                &&& serialized(views(entries@)) == Some(text@)
                &&& deserialized(text@) == Some(views(entries@))
            },
            Err(error) => error == JournalError::PersistenceFailure && serialized(
                views(entries@),
            ) is None,
        },
{
    match write_entries(entries) {
        Some(text) => if reads_as(text.as_str(), entries) {
            Ok(text)
        } else {
            Err(JournalError::PersistenceFailure)
        },
        None => Err(JournalError::PersistenceFailure),
    }
}

/// Reads entries from YAML text. It fails where the text is no YAML, or is
/// YAML that does not stand for a list of entries.
pub fn deserialize(text: &str) -> (entries: Result<Vec<Entry>, JournalError>)
    ensures
        match entries {
            Ok(entries) => deserialized(text@) == Some(views(entries@)),
            Err(error) => error == JournalError::ConstructionFailure && deserialized(text@) is None,
        },
{
    match parse(text) {
        Ok(value) => match decode_entries(&value) {
            Some(entries) => Ok(entries),
            None => Err(JournalError::ConstructionFailure),
        },
        Err(_) => Err(JournalError::ConstructionFailure),
    }
}

} // verus!
