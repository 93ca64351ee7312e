use vstd::prelude::*;

use crate::command::args_view;

verus! {

/// One element of a JSON array, as the strings found under some keys.
pub open spec fn row_view(row: Vec<Option<String>>) -> Seq<Option<Seq<char>>> {
    row@.map_values(
        |cell: Option<String>|
            match cell {
                Some(s) => Some(s@),
                None => None,
            },
    )
}

/// The elements of a JSON array, each as the strings found under some keys.
pub open spec fn rows_view(rows: Seq<Vec<Option<String>>>) -> Seq<Seq<Option<Seq<char>>>> {
    rows.map_values(|row: Vec<Option<String>>| row_view(row))
}

/// What `json_string_fields` finds in the text `text` under the keys `keys`.
pub uninterp spec fn json_rows(text: Seq<char>, keys: Seq<Seq<char>>) -> Option<
    Seq<Seq<Option<Seq<char>>>>,
>;

/// Reads `text` as JSON with `serde_json::from_str` and, where it is an array
/// (`Value::as_array`), hands out for each element and each key the string
/// that the element holds under the key (`Value::get`, `Value::as_str`), if
/// it holds one.
///
/// The contract only gives the result a name: it is a function of the text
/// and the keys. Nothing is claimed of what the parser accepts.
#[verifier::external_body]
pub(crate) fn json_string_fields(text: &str, keys: &Vec<String>) -> (found: Option<
    Vec<Vec<Option<String>>>,
>)
    ensures
        match found {
            Some(rows) => json_rows(text@, args_view(keys@)) == Some(rows_view(rows@)),
            None => json_rows(text@, args_view(keys@)) is None,
        },
{
    let value: serde_json::Value = serde_json::from_str(text).ok()?;
    let items = value.as_array()?;
    let cell = |item: &serde_json::Value, key: &String| {
        item.get(key.as_str()).and_then(|v| v.as_str()).map(|s| s.to_owned())
    };
    Some(items.iter().map(|item| keys.iter().map(|key| cell(item, key)).collect()).collect())
}

} // verus!
