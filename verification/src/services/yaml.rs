use vstd::prelude::*;

verus! {

/// `serde_yaml::Value`: a YAML document as a tree. Nothing inside it is
/// visible here; what it holds is spoken of through [`yaml_doc`].
#[verifier::external_type_specification]
#[verifier::external_body]
pub struct ExValue(serde_yaml::Value);

/// `serde_yaml::Number`: a YAML number. It is carried along and never read.
#[verifier::external_type_specification]
#[verifier::external_body]
pub struct ExNumber(serde_yaml::Number);

/// `serde_yaml::value::Tag`: the tag of a tagged document. It is carried
/// along and never read.
#[verifier::external_type_specification]
#[verifier::external_body]
pub struct ExTag(serde_yaml::value::Tag);

/// `serde_yaml::Error`: why text could not be read or a document not be
/// written.
#[verifier::external_type_specification]
#[verifier::external_body]
pub struct ExError(serde_yaml::Error);

/// A YAML document as a mathematical value. A mapping is its keys and, at
/// the same positions, its values, in the order in which they stand in the
/// document. A tagged document is a tag and the document that bears it.
pub ghost enum Doc {
    Null,
    Bool(bool),
    Number(serde_yaml::Number),
    Text(Seq<char>),
    Sequence(Seq<Doc>),
    Mapping(Seq<Doc>, Seq<Doc>),
    Tagged(serde_yaml::value::Tag, Box<Doc>),
}

/// The document that a `serde_yaml::Value` holds.
pub uninterp spec fn yaml_doc(value: serde_yaml::Value) -> Doc;

/// The document that `serde_yaml::from_str` reads from `text`, or `None`
/// where it reports an error.
pub uninterp spec fn yaml_parsed(text: Seq<char>) -> Option<Doc>;

/// The text that `serde_yaml::to_string` writes for `doc`, or `None` where it
/// reports an error.
pub uninterp spec fn yaml_text(doc: Doc) -> Option<Seq<char>>;

/// The documents of `values`, in the same order.
pub open spec fn docs(values: Seq<serde_yaml::Value>) -> Seq<Doc> {
    Seq::new(values.len(), |i: int| yaml_doc(values[i]))
}

/// The keys of `pairs` as documents, in the same order.
pub open spec fn key_docs(pairs: Seq<(serde_yaml::Value, serde_yaml::Value)>) -> Seq<Doc> {
    Seq::new(pairs.len(), |i: int| yaml_doc(pairs[i].0))
}

/// The values of `pairs` as documents, in the same order.
pub open spec fn value_docs(pairs: Seq<(serde_yaml::Value, serde_yaml::Value)>) -> Seq<Doc> {
    Seq::new(pairs.len(), |i: int| yaml_doc(pairs[i].1))
}

/// The value that stands at the first position at which `keys` holds `key`.
pub open spec fn find_value(keys: Seq<Doc>, values: Seq<Doc>, key: Doc) -> Option<Doc>
    decreases keys.len(),
{
    if keys.len() == 0 || values.len() == 0 {
        None
    } else if keys[0] == key {
        Some(values[0])
    } else {
        find_value(
            keys.subrange(1, keys.len() as int),
            values.subrange(1, values.len() as int),
            key,
        )
    }
}

/// The document below the tags of `doc`: `doc` itself where it bears none.
pub open spec fn untagged(doc: Doc) -> Doc
    decreases doc,
{
    match doc {
        Doc::Tagged(_, inner) => untagged(*inner),
        _ => doc,
    }
}

/// The boolean that `doc` is, below its tags.
pub open spec fn as_flag(doc: Doc) -> Option<bool> {
    match untagged(doc) {
        Doc::Bool(flag) => Some(flag),
        _ => None,
    }
}

/// The text that `doc` is, below its tags.
pub open spec fn as_text(doc: Doc) -> Option<Seq<char>> {
    match untagged(doc) {
        Doc::Text(text) => Some(text),
        _ => None,
    }
}

/// The items of the sequence that `doc` is, below its tags.
pub open spec fn as_items(doc: Doc) -> Option<Seq<Doc>> {
    match untagged(doc) {
        Doc::Sequence(items) => Some(items),
        _ => None,
    }
}

/// The value under the text key `key`, where `doc` is, below its tags, a
/// mapping that has that key.
pub open spec fn lookup(doc: Doc, key: Seq<char>) -> Option<Doc> {
    match untagged(doc) {
        Doc::Mapping(keys, values) => find_value(keys, values, Doc::Text(key)),
        _ => None,
    }
}

/// Whatever [`find_value`] finds is one of the values.
pub proof fn lemma_found_is_a_value(keys: Seq<Doc>, values: Seq<Doc>, key: Doc)
    ensures
        find_value(keys, values, key) is Some ==> exists|i: int|
            0 <= i < values.len() && values[i] == find_value(keys, values, key).unwrap(),
    decreases keys.len(),
{
    if keys.len() == 0 || values.len() == 0 {
    } else if keys[0] == key {
    } else {
        let rest = values.subrange(1, values.len() as int);
        lemma_found_is_a_value(keys.subrange(1, keys.len() as int), rest, key);
        if find_value(keys, values, key) is Some {
            let found = find_value(keys, values, key).unwrap();
            let i = choose|i: int| 0 <= i < rest.len() && rest[i] == found;
            assert(values[i + 1] == found);
        }
    }
}

/// What is below the tags of a document is that document or a smaller one.
pub proof fn lemma_untagged_is_within(doc: Doc)
    ensures
        untagged(doc) == doc || decreases_to!(doc => untagged(doc)),
    decreases doc,
{
    match doc {
        Doc::Tagged(_, inner) => {
            lemma_untagged_is_within(*inner);
        },
        _ => {},
    }
}

/// An item of a sequence is a smaller document than the sequence.
pub proof fn lemma_item_is_smaller(doc: Doc, i: int)
    requires
        as_items(doc) is Some,
        0 <= i < as_items(doc).unwrap().len(),
    ensures
        decreases_to!(doc => as_items(doc).unwrap()[i]),
{
    lemma_untagged_is_within(doc);
    let items = as_items(doc).unwrap();
    assert(decreases_to!(items => items[i]));
}

/// What stands under a key of a mapping is a smaller document than the
/// mapping.
pub proof fn lemma_found_is_smaller(doc: Doc, key: Seq<char>)
    ensures
        lookup(doc, key) is Some ==> decreases_to!(doc => lookup(doc, key).unwrap()),
{
    if lookup(doc, key) is Some {
        lemma_untagged_is_within(doc);
        let keys = untagged(doc)->Mapping_0;
        let values = untagged(doc)->Mapping_1;
        lemma_found_is_a_value(keys, values, Doc::Text(key));
        let found = lookup(doc, key).unwrap();
        let i = choose|i: int| 0 <= i < values.len() && values[i] == found;
        assert(decreases_to!(values => values[i]));
    }
}

/// `serde_yaml::Value::as_bool`: the boolean of a document that is, below
/// its tags, a boolean, and `None` for every other document.
pub assume_specification[ serde_yaml::Value::as_bool ](value: &serde_yaml::Value) -> (flag: Option<
    bool,
>)
    ensures
        flag == as_flag(yaml_doc(*value)),
;

/// `serde_yaml::Value::as_str`: the text of a document that is, below its
/// tags, a string, and `None` for every other document.
pub assume_specification<'a>[ serde_yaml::Value::as_str ](value: &'a serde_yaml::Value) -> (text:
    Option<&'a str>)
    ensures
        match text {
            Some(text) => as_text(yaml_doc(*value)) == Some(text@),
            None => as_text(yaml_doc(*value)) is None,
        },
;

/// `serde_yaml::Value::as_sequence`: the items of a document that is, below
/// its tags, a sequence, and `None` for every other document.
pub assume_specification<'a>[ serde_yaml::Value::as_sequence ](
    value: &'a serde_yaml::Value,
) -> (items: Option<&'a Vec<serde_yaml::Value>>)
    ensures
        match items {
            Some(items) => as_items(yaml_doc(*value)) == Some(docs(items@)),
            None => as_items(yaml_doc(*value)) is None,
        },
;

/// `serde_yaml::Value::get` with a string index: the value that the
/// document, below its tags a mapping, holds under that string as its key,
/// and `None` where the document is no mapping or has no such key.
#[verifier::external_body]
pub(crate) fn field<'a>(value: &'a serde_yaml::Value, key: &str) -> (found: Option<
    &'a serde_yaml::Value,
>)
    ensures
        match found {
            Some(found) => lookup(yaml_doc(*value), key@) == Some(yaml_doc(*found)),
            None => lookup(yaml_doc(*value), key@) is None,
        },
{
    value.get(key)
}

/// `serde_yaml::from_str`, reading a `serde_yaml::Value`. The contract
/// claims that the text alone decides whether a document comes back, and
/// which: it gives that document the name [`yaml_parsed`] and says nothing of
/// what it is.
#[verifier::external_body]
pub(crate) fn parse(text: &str) -> (parsed: Result<serde_yaml::Value, serde_yaml::Error>)
    ensures
        match parsed {
            Ok(value) => yaml_parsed(text@) == Some(yaml_doc(value)),
            Err(_) => yaml_parsed(text@) is None,
        },
{
    serde_yaml::from_str::<serde_yaml::Value>(text)
}

/// `serde_yaml::to_string`, writing a `serde_yaml::Value`. The contract
/// claims that the document alone decides whether text comes back, and
/// which: it gives that text the name [`yaml_text`] and says nothing of what
/// it is.
#[verifier::external_body]
pub(crate) fn emit(value: &serde_yaml::Value) -> (emitted: Result<String, serde_yaml::Error>)
    ensures
        match emitted {
            Ok(text) => yaml_text(yaml_doc(*value)) == Some(text@),
            Err(_) => yaml_text(yaml_doc(*value)) is None,
        },
{
    serde_yaml::to_string(value)
}

/// `serde_yaml::Value::from` on a `bool`: the boolean document.
#[verifier::external_body]
pub(crate) fn bool_value(flag: bool) -> (value: serde_yaml::Value)
    ensures
        yaml_doc(value) == Doc::Bool(flag),
{
    serde_yaml::Value::from(flag)
}

/// `serde_yaml::Value::from` on a `String`: the string document with that
/// text.
#[verifier::external_body]
pub(crate) fn text_value(text: String) -> (value: serde_yaml::Value)
    ensures
        yaml_doc(value) == Doc::Text(text@),
{
    serde_yaml::Value::from(text)
}

/// `serde_yaml::Value::from` on a vector of values: the sequence document
/// with those items, in that order.
#[verifier::external_body]
pub(crate) fn sequence_value(items: Vec<serde_yaml::Value>) -> (value: serde_yaml::Value)
    ensures
        yaml_doc(value) == Doc::Sequence(docs(items@)),
{
    serde_yaml::Value::from(items)
}

/// `serde_yaml::Mapping::from_iter`, wrapped as a value: the mapping document
/// with those keys and values, in that order. Two equal keys would leave one
/// pair only, so the keys are required to be strings that differ.
#[verifier::external_body]
pub(crate) fn mapping_value(pairs: Vec<(serde_yaml::Value, serde_yaml::Value)>) -> (value:
    serde_yaml::Value)
    requires
        forall|i: int| 0 <= i < pairs@.len() ==> #[trigger] key_docs(pairs@)[i] is Text,
        forall|i: int, j: int|
            0 <= i < j < pairs@.len() ==> key_docs(pairs@)[i] != key_docs(pairs@)[j],
    ensures
        yaml_doc(value) == Doc::Mapping(key_docs(pairs@), value_docs(pairs@)),
{
    serde_yaml::Value::Mapping(pairs.into_iter().collect())
}

} // verus!
