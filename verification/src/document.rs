//! The configuration document as plain values: a tree of text, lists and
//! tables, produced from the document source once and inspected by verified
//! code. Only the parse itself is delegated to the `config` crate.

use vstd::prelude::*;

verus! {

/// Name of the per-directory configuration document.
pub const CONFIG_FILE_NAME: &'static str = ".contain.yaml";

/// One node of a parsed configuration document. Scalars arrive rendered as
/// text, which is how every consumer of the document reads them.
#[derive(Debug)]
pub enum RawValue {
    Text(String),
    List(Vec<RawValue>),
    Table(Vec<(String, RawValue)>),
}

/// What one directory of the walk contributed: no document at all, a document
/// that does not parse, or the parsed root table.
#[derive(Debug)]
pub enum DocState {
    Missing,
    Unparsable,
    Parsed(Vec<(String, RawValue)>),
}

#[verifier::external_type_specification]
#[verifier::external_body]
pub struct ExConfigValue(config::Value);

/// Relies on the `config` crate's `ValueKind`: a parsed node is a string, a
/// scalar (rendered through its `Display`), an array or a table. This mirrors
/// the node one for one into [`RawValue`].
#[verifier::external_body]
fn raw_of_value(v: config::Value) -> RawValue {
    match v.kind {
        config::ValueKind::Array(items) => RawValue::List(
            items.into_iter().map(raw_of_value).collect(),
        ),
        config::ValueKind::Table(table) => RawValue::Table(
            table.into_iter().map(|(k, x)| (k, raw_of_value(x))).collect(),
        ),
        other => RawValue::Text(other.to_string()),
    }
}

/// Whether this text is a valid configuration document: one YAML document
/// whose root is a mapping. Every way the parse can fail is determined by the
/// text alone, so this is a function of it.
pub uninterp spec fn parses_as_document(text: Seq<char>) -> bool;

/// Relies on `config::File::from_str` with the YAML format and its `Source`
/// implementation: `collect` returns the document's root table, or an error
/// when the text is not a valid document, and every error source (scan error,
/// recursion limit, multiple documents, a root that is no mapping) depends on
/// the text alone. The table's field order is not a function of the text and
/// is promised nothing.
#[verifier::external_body]
fn parse_document(text: &str) -> (r: Option<Vec<(String, RawValue)>>)
    ensures
        (r is Some) == parses_as_document(text@),
{
    let file = config::File::from_str(text, config::FileFormat::Yaml);
    match config::Source::collect(&file) {
        Ok(map) => Some(map.into_iter().map(|(k, v)| (k, raw_of_value(v))).collect()),
        Err(_) => None,
    }
}

/// Parses document text into its root table, or reports it unparsable; which
/// of the two is a function of the text. The parsed fields themselves are
/// opaque here; everything read out of them afterwards is checked by the
/// verified evaluation functions.
pub fn read_document(text: &str) -> (r: DocState)
    ensures
        (r is Parsed) == parses_as_document(text@),
        !(r is Missing),
{
    match parse_document(text) {
        Option::Some(fields) => DocState::Parsed(fields),
        Option::None => DocState::Unparsable,
    }
}

/// The value under `key` in a table's fields, first binding wins.
pub open spec fn table_get_spec(fields: Seq<(String, RawValue)>, key: Seq<char>) -> Option<
    RawValue,
>
    decreases fields.len(),
{
    if fields.len() == 0 {
        Option::None
    } else if fields[0].0@ == key {
        Option::Some(fields[0].1)
    } else {
        table_get_spec(fields.drop_first(), key)
    }
}

proof fn lemma_table_get_step(fields: Seq<(String, RawValue)>, key: Seq<char>, i: int)
    requires
        0 <= i < fields.len(),
        fields[i].0@ != key,
    ensures
        table_get_spec(fields.subrange(i, fields.len() as int), key) == table_get_spec(
            fields.subrange(i + 1, fields.len() as int),
            key,
        ),
{
    let suffix = fields.subrange(i, fields.len() as int);
    assert(suffix[0] == fields[i]);
    assert(suffix.drop_first() =~= fields.subrange(i + 1, fields.len() as int));
}

/// Looks `key` up in a parsed table.
pub fn table_get<'a>(fields: &'a Vec<(String, RawValue)>, key: &str) -> (r: Option<&'a RawValue>)
    ensures
        match r {
            Option::Some(v) => table_get_spec(fields@, key@) == Option::Some(*v),
            Option::None => table_get_spec(fields@, key@) is None,
        },
{
    let mut i: usize = 0;
    proof {
        assert(fields@.subrange(0, fields@.len() as int) =~= fields@);
    }
    while i < fields.len()
        invariant
            i <= fields@.len(),
            table_get_spec(fields@, key@) == table_get_spec(
                fields@.subrange(i as int, fields@.len() as int),
                key@,
            ),
        decreases fields@.len() - i,
    {
        if crate::text::str_eq(fields[i].0.as_str(), key) {
            proof {
                let suffix = fields@.subrange(i as int, fields@.len() as int);
                assert(suffix[0] == fields@[i as int]);
            }
            return Option::Some(&fields[i].1);
        }
        proof {
            lemma_table_get_step(fields@, key@, i as int);
        }
        i += 1;
    }
    Option::None
}

} // verus!
