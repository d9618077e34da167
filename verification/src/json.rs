//! Objects of JSON text whose values are strings.
use crate::text::{same_text, text_of};
use vstd::prelude::*;
use vstd::string::*;

verus! {

/// What `serde_json` reads from a JSON text: an object, as each key with its value where
/// that is a string, and with nothing where it is another value. Where the text is not
/// one JSON object, it is what the error says.
pub uninterp spec fn json_read(text: Seq<char>) -> Result<
    Map<Seq<char>, Option<Seq<char>>>,
    Seq<char>,
>;

/// The object that a JSON text holds, where it holds one.
pub open spec fn json_object(text: Seq<char>) -> Option<Map<Seq<char>, Option<Seq<char>>>> {
    match json_read(text) {
        Ok(object) => Some(object),
        Err(_) => None,
    }
}

/// `entries` lists the keys and values of `object`.
pub open spec fn lists(
    entries: Seq<(String, Option<String>)>,
    object: Map<Seq<char>, Option<Seq<char>>>,
) -> bool {
    &&& forall|i: int|
        0 <= i < entries.len() ==> object.contains_key((#[trigger] entries[i]).0@)
            && object[entries[i].0@] == text_of(entries[i].1)
    &&& forall|key: Seq<char>| #[trigger]
        object.contains_key(key) ==> exists|i: int|
            0 <= i < entries.len() && (#[trigger] entries[i]).0@ == key
}

/// A JSON string holds `text` as it stands: there is no quotation mark, no backslash and
/// no control character in it.
pub open spec fn plain(text: Seq<char>) -> bool {
    forall|i: int|
        0 <= i < text.len() ==> (#[trigger] text[i]) != '"' && text[i] != '\\' && text[i] >= ' '
}

/// The JSON text of a key and the string under it.
pub open spec fn json_entry(key: Seq<char>, value: Seq<char>) -> Seq<char> {
    "\""@ + key + "\": \""@ + value + "\""@
}

/// The JSON text of an object with one entry.
pub open spec fn one_entry(key: Seq<char>, value: Seq<char>) -> Seq<char> {
    "{"@ + json_entry(key, value) + "}"@
}

/// Where `text` is an object of one plain key and one plain string, `parsed` lists that
/// entry.
pub open spec fn reads_one_entry(
    text: Seq<char>,
    parsed: Result<Vec<(String, Option<String>)>, String>,
) -> bool {
    forall|key: Seq<char>, value: Seq<char>|
        plain(key) && plain(value) && text == #[trigger] one_entry(key, value)
            ==> (parsed matches Ok(entries) && lists(entries@, map![key => Some(value)]))
}

/// Reads a JSON object with `serde_json::from_str`, as a map from strings to values,
/// and gives its keys, each with what `serde_json::Value::as_str` makes of the value, or
/// else what the `serde_json::Error` says. Taken on trust: what it reads, and what an
/// error says, is a function of the text alone, the entries given are those of the
/// object read, in no particular order, and an object of one plain key and one plain
/// string is read as that. What it reads of other texts is left unsaid.
#[verifier::external_body]
pub(crate) fn parse_object(text: &str) -> (parsed: Result<
    Vec<(String, Option<String>)>,
    String,
>)
    ensures
        match parsed {
            Ok(entries) => json_read(text@) matches Ok(object) && lists(entries@, object),
            Err(said) => json_read(text@) matches Err(error) && error == said@,
        },
        reads_one_entry(text@, parsed),
{
    let object: std::collections::HashMap<String, serde_json::Value> =
        serde_json::from_str(text).map_err(|error| error.to_string())?;
    Ok(object.into_iter().map(|(key, value)| (key, value.as_str().map(str::to_string))).collect())
}

/// The string that the first entry for `key` holds.
pub open spec fn entry_string(entries: Seq<(String, Option<String>)>, key: Seq<char>) -> Option<
    Seq<char>,
>
    decreases entries.len(),
{
    if entries.len() == 0 {
        None
    } else if entries[0].0@ == key {
        text_of(entries[0].1)
    } else {
        entry_string(entries.drop_first(), key)
    }
}

/// The string that an object holds under `key`.
pub open spec fn string_at(object: Map<Seq<char>, Option<Seq<char>>>, key: Seq<char>) -> Option<
    Seq<char>,
> {
    if object.contains_key(key) {
        object[key]
    } else {
        None
    }
}

/// What the first entry for a key holds is what the object holds under the key.
pub proof fn lemma_entry_string(
    entries: Seq<(String, Option<String>)>,
    object: Map<Seq<char>, Option<Seq<char>>>,
    key: Seq<char>,
)
    requires
        lists(entries, object),
    ensures
        entry_string(entries, key) == string_at(object, key),
{
    lemma_first_entry(entries, key);
    if object.contains_key(key) {
        let i = choose|i: int| 0 <= i < entries.len() && (#[trigger] entries[i]).0@ == key;
        assert(entries[i].0@ == key);
    }
}

/// The first entry for a key is one of the entries, unless none has the key.
proof fn lemma_first_entry(entries: Seq<(String, Option<String>)>, key: Seq<char>)
    ensures
        (exists|i: int|
            0 <= i < entries.len() && (#[trigger] entries[i]).0@ == key && entry_string(
                entries,
                key,
            ) == text_of(entries[i].1)) || ((forall|i: int|
            0 <= i < entries.len() ==> (#[trigger] entries[i]).0@ != key) && entry_string(
            entries,
            key,
        ) is None),
    decreases entries.len(),
{
    if entries.len() > 0 && entries[0].0@ != key {
        let rest = entries.drop_first();
        lemma_first_entry(rest, key);
        if exists|i: int|
            0 <= i < rest.len() && (#[trigger] rest[i]).0@ == key && entry_string(rest, key)
                == text_of(rest[i].1) {
            let i = choose|i: int|
                0 <= i < rest.len() && (#[trigger] rest[i]).0@ == key && entry_string(rest, key)
                    == text_of(rest[i].1);
            assert(entries[i + 1].0@ == key);
        } else {
            assert forall|i: int| 0 <= i < entries.len() implies (#[trigger] entries[i]).0@
                != key by {
                if i > 0 {
                    assert(rest[i - 1].0@ != key);
                }
            }
        }
    }
}

/// Finds the string that the first entry for `key` holds.
pub fn find_string(entries: &Vec<(String, Option<String>)>, key: &str) -> (found: Option<String>)
    ensures
        text_of(found) == entry_string(entries@, key@),
{
    let mut i: usize = 0;
    assert(entries@.skip(0) =~= entries@);
    while i < entries.len()
        invariant
            i <= entries@.len(),
            entry_string(entries@, key@) == entry_string(entries@.skip(i as int), key@),
        decreases entries@.len() - i,
    {
        assert(entries@.skip(i as int).drop_first() =~= entries@.skip(i + 1));
        if same_text(entries[i].0.as_str(), key) {
            return match &entries[i].1 {
                Some(string) => Some(string.clone()),
                None => None,
            };
        }
        i = i + 1;
    }
    None
}

} // verus!
