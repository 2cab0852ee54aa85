//! TOML as the `toml` crate reads and writes it. A `toml::Value` is opaque
//! here: what it holds is told by the spec functions of this file, and every
//! function below hands one question or one construction to the crate. None
//! of their contracts is proved; each says what the crate's source shows.

use vstd::prelude::*;

verus! {

/// `toml::Value`: a value of a TOML document, carried about as it is.
#[verifier::external_type_specification]
#[verifier::external_body]
pub struct ExValue(toml::Value);

/// `toml::de::Error`: what the parser reports for a text that is not TOML.
#[verifier::external_type_specification]
#[verifier::external_body]
pub struct ExParseError(toml::de::Error);

/// `toml::ser::Error`: what the writer reports for a value that it refuses.
#[verifier::external_type_specification]
#[verifier::external_body]
pub struct ExRenderError(toml::ser::Error);

/// What `toml::from_str` makes of a text read as a whole document: the
/// document's table as a value, or the parser's error.
pub uninterp spec fn toml_document(text: Seq<char>) -> Result<toml::Value, toml::de::Error>;

/// The message of a parser's error, as `toml::de::Error::message` gives it.
pub uninterp spec fn fault_text(fault: toml::de::Error) -> Seq<char>;

/// The text of a value that is a string; `None` for a value of another kind.
pub uninterp spec fn value_text(value: toml::Value) -> Option<Seq<char>>;

/// The items of a value that is an array, in their order; `None` for a value
/// of another kind.
pub uninterp spec fn value_list(value: toml::Value) -> Option<Seq<toml::Value>>;

/// The entries of a value that is a table, by their keys; `None` for a value
/// of another kind.
pub uninterp spec fn value_table(value: toml::Value) -> Option<Map<Seq<char>, toml::Value>>;

/// The string value with the text `text`.
pub uninterp spec fn text_value(text: Seq<char>) -> toml::Value;

/// The array value with the items `items`.
pub uninterp spec fn list_value(items: Seq<toml::Value>) -> toml::Value;

/// The table value with the entries `entries`.
pub uninterp spec fn table_value(entries: Map<Seq<char>, toml::Value>) -> toml::Value;

/// The document that `toml::to_string` writes for a value, or the writer's
/// error where it refuses the value.
pub uninterp spec fn rendered_text(value: toml::Value) -> Result<Seq<char>, toml::ser::Error>;

/// The line that a writer's error shows for itself, as its `Display` gives it.
pub uninterp spec fn render_fault_text(fault: toml::ser::Error) -> Seq<char>;

/// The entry of a table under a key: `None` where there is no table or the
/// table has no such key.
pub open spec fn entry_of(table: Option<Map<Seq<char>, toml::Value>>, key: Seq<char>) -> Option<
    toml::Value,
> {
    match table {
        Some(entries) => if entries.contains_key(key) {
            Some(entries[key])
        } else {
            None
        },
        None => None,
    }
}

/// Whether the pairs `pairs` are the entries of `table`: every pair is an
/// entry, and every entry is among the pairs.
pub open spec fn pairs_cover(
    pairs: Seq<(String, toml::Value)>,
    table: Map<Seq<char>, toml::Value>,
) -> bool {
    &&& forall|i: int|
        0 <= i < pairs.len() ==> table.contains_key((#[trigger] pairs[i]).0@) && table[pairs[i].0@]
            == pairs[i].1
    &&& forall|key: Seq<char>| #[trigger]
        table.contains_key(key) ==> exists|i: int|
            0 <= i < pairs.len() && (#[trigger] pairs[i]).0@ == key
}

/// The table that pairs with distinct keys stand for: each key with its
/// value.
pub open spec fn pairs_map(pairs: Seq<(String, toml::Value)>) -> Map<Seq<char>, toml::Value> {
    Map::new(
        |key: Seq<char>| exists|i: int| 0 <= i < pairs.len() && (#[trigger] pairs[i]).0@ == key,
        |key: Seq<char>|
            pairs[choose|i: int| 0 <= i < pairs.len() && (#[trigger] pairs[i]).0@ == key].1,
    )
}

/// Pairs with distinct keys are the entries of the table that they stand for.
pub proof fn pairs_map_covers(pairs: Seq<(String, toml::Value)>)
    requires
        distinct_keys(pairs),
    ensures
        pairs_cover(pairs, pairs_map(pairs)),
{
    let table = pairs_map(pairs);
    assert forall|i: int| 0 <= i < pairs.len() implies table.contains_key(
        (#[trigger] pairs[i]).0@,
    ) && table[pairs[i].0@] == pairs[i].1 by {
        let key = pairs[i].0@;
        let at = choose|j: int| 0 <= j < pairs.len() && (#[trigger] pairs[j]).0@ == key;
        if at < i {
            assert(pairs[at].0@ != pairs[i].0@);
        } else if i < at {
            assert(pairs[i].0@ != pairs[at].0@);
        }
    }
}

/// Whether no two of the pairs share a key.
pub open spec fn distinct_keys(pairs: Seq<(String, toml::Value)>) -> bool {
    forall|i: int, j: int|
        0 <= i < j < pairs.len() ==> (#[trigger] pairs[i]).0@ != (#[trigger] pairs[j]).0@
}

/// Calls `toml::from_str` for a `toml::Table` and hands the table on as a
/// value. The result is the crate's reading of the text and of nothing else.
#[verifier::external_body]
pub(crate) fn parse_document(text: &str) -> (result: Result<toml::Value, toml::de::Error>)
    ensures
        result == toml_document(text@),
{
    match toml::from_str::<toml::Table>(text) {
        Ok(table) => Ok(toml::Value::Table(table)),
        Err(fault) => Err(fault),
    }
}

/// Calls `toml::de::Error::message`: the error's message, without the lines
/// that show its place.
#[verifier::external_body]
pub(crate) fn fault_message(fault: &toml::de::Error) -> (message: String)
    ensures
        message@ == fault_text(*fault),
{
    fault.message().to_owned()
}

/// Calls `toml::Value::as_str`: the text of a string value, `None` for
/// another kind.
#[verifier::external_body]
pub(crate) fn text_in(value: &toml::Value) -> (text: Option<String>)
    ensures
        match text {
            Some(found) => value_text(*value) == Some(found@),
            None => value_text(*value) is None,
        },
{
    match value.as_str() {
        Some(found) => Some(found.to_owned()),
        None => None,
    }
}

/// Calls `toml::Value::as_array`: copies of the items of an array value in
/// their order, `None` for another kind.
#[verifier::external_body]
pub(crate) fn items_in(value: &toml::Value) -> (items: Option<Vec<toml::Value>>)
    ensures
        match items {
            Some(found) => value_list(*value) == Some(found@),
            None => value_list(*value) is None,
        },
{
    match value.as_array() {
        Some(found) => Some(found.clone()),
        None => None,
    }
}

/// Calls `toml::Value::get` with a key: a copy of the entry of a table value
/// under that key, `None` where the value is no table or has no such entry.
#[verifier::external_body]
pub(crate) fn entry_in(value: &toml::Value, key: &str) -> (entry: Option<toml::Value>)
    ensures
        entry == entry_of(value_table(*value), key@),
{
    match value.get(key) {
        Some(found) => Some(found.clone()),
        None => None,
    }
}

/// Calls `toml::Value::as_table` and collects what the table's `into_iter`
/// hands out: copies of all entries of a table value, `None` for another
/// kind. Nothing is said of their order.
#[verifier::external_body]
pub(crate) fn entries_in(value: &toml::Value) -> (pairs: Option<Vec<(String, toml::Value)>>)
    ensures
        match pairs {
            Some(found) => value_table(*value) is Some && pairs_cover(
                found@,
                value_table(*value).unwrap(),
            ),
            None => value_table(*value) is None,
        },
{
    match value.as_table() {
        Some(table) => Some(table.clone().into_iter().collect()),
        None => None,
    }
}

/// Calls `toml::Value::from` on a text: a string value that holds it.
#[verifier::external_body]
pub(crate) fn make_text(text: &str) -> (value: toml::Value)
    ensures
        value == text_value(text@),
        value_text(value) == Some(text@),
{
    toml::Value::from(text)
}

/// Makes a `toml::Value::Array` of the items: an array value that holds them
/// in their order.
#[verifier::external_body]
pub(crate) fn make_list(items: Vec<toml::Value>) -> (value: toml::Value)
    ensures
        value == list_value(items@),
        value_list(value) == Some(items@),
{
    toml::Value::Array(items)
}

/// Collects the pairs into a `toml::Table` and makes a `toml::Value::Table`
/// of it: a table value whose entries are the pairs, and the same value
/// whatever their order, since the table keeps its entries sorted by key. The
/// keys must differ: of two pairs with one key the table keeps only one.
#[verifier::external_body]
pub(crate) fn make_table(pairs: Vec<(String, toml::Value)>) -> (value: toml::Value)
    requires
        distinct_keys(pairs@),
    ensures
        value == table_value(pairs_map(pairs@)),
        value_table(value) == Some(pairs_map(pairs@)),
{
    toml::Value::Table(pairs.into_iter().collect())
}

/// Calls `toml::to_string` on a value: the document that the crate writes for
/// it, or the crate's error where it refuses the value.
#[verifier::external_body]
pub(crate) fn render(value: &toml::Value) -> (result: Result<String, toml::ser::Error>)
    ensures
        match result {
            Ok(text) => rendered_text(*value) == Ok::<Seq<char>, toml::ser::Error>(text@),
            Err(fault) => rendered_text(*value) == Err::<Seq<char>, toml::ser::Error>(fault),
        },
{
    toml::to_string(value)
}

/// Calls `to_string` on a `toml::ser::Error`, which goes by the error's
/// `Display`: the one line that says why the writer refused.
#[verifier::external_body]
pub(crate) fn render_fault_message(fault: &toml::ser::Error) -> (message: String)
    ensures
        message@ == render_fault_text(*fault),
{
    fault.to_string()
}

} // verus!
