//! From Ollama models to the HuggingFace models that they were made of.
use crate::json::{
    entry_string, find_string, json_entry, json_object, json_read, lemma_entry_string, one_entry,
    parse_object, plain, string_at,
};
use crate::manifest::{ModelView, OllamaModel};
use crate::paths::{path_at, LocalPath, PathBase};
use crate::text::{
    has_infix, lemma_without_trailing, stands_at, text_of, trim, trim_end_char, trimmed,
    white_space, without_trailing,
};
use vstd::prelude::*;
use vstd::string::*;

verus! {

/// The number in a model's size: the size without the unit `B` at its end, trimmed.
pub open spec fn bare_size(model_type: Seq<char>) -> Seq<char> {
    trimmed(without_trailing(model_type, 'B'))
}

/// Takes the number out of a model's size.
pub fn size_number<'a>(model_type: &'a str) -> (number: &'a str)
    ensures
        number@ == bare_size(model_type@),
{
    trim(trim_end_char(model_type, 'B'))
}

/// The size by which a model is looked up: its number with one decimal, and the text
/// as it stands where it is no number.
pub open spec fn size_key(model_type: Seq<char>, one_decimal: Option<Seq<char>>) -> Seq<char> {
    match one_decimal {
        Some(number) => number,
        None => bare_size(model_type),
    }
}

/// Normalises a model's size. `one_decimal` is the number that [`size_number`] gives,
/// written with one decimal, where that text is a number.
pub fn normalise_size(model_type: &str, one_decimal: Option<&str>) -> (key: String)
    ensures
        key@ == size_key(model_type@, shown(one_decimal)),
{
    match one_decimal {
        Some(number) => number.to_owned(),
        None => size_number(model_type).to_owned(),
    }
}

/// Normalising a size a second time changes nothing, where the size has no white space
/// in it. The number has the same one decimal both times.
pub proof fn law_normalised_once(model_type: Seq<char>, one_decimal: Option<Seq<char>>)
    requires
        forall|i: int| 0 <= i < model_type.len() ==> !white_space(#[trigger] model_type[i]),
    ensures
        bare_size(bare_size(model_type)) == bare_size(model_type),
        size_key(size_key(model_type, one_decimal), one_decimal) == size_key(
            model_type,
            one_decimal,
        ),
{
    let bare = without_trailing(model_type, 'B');
    lemma_without_trailing(model_type, 'B');
    assert forall|i: int| 0 <= i < bare.len() implies !white_space(#[trigger] bare[i]) by {
        assert(bare[i] == model_type[i]);
    }
    assert(trimmed(bare) == bare);
}

/// One more unit at the end of a size changes nothing.
pub proof fn law_unit_repeated(model_type: Seq<char>, one_decimal: Option<Seq<char>>)
    ensures
        bare_size(model_type + "B"@) == bare_size(model_type),
        size_key(model_type + "B"@, one_decimal) == size_key(model_type, one_decimal),
{
    reveal_strlit("B");
    let longer = model_type + "B"@;
    assert(longer.last() == 'B');
    assert(longer.drop_last() =~= model_type);
}

/// The text of a string that may be missing.
pub open spec fn shown(text: Option<&str>) -> Option<Seq<char>> {
    match text {
        Some(t) => Some(t@),
        None => None,
    }
}

/// The key of a model in the maps: its family and its size.
pub open spec fn model_key(model: ModelView, one_decimal: Option<Seq<char>>) -> Seq<char> {
    model.family + ":"@ + size_key(model.model_type, one_decimal)
}

/// Makes the key of a model. `one_decimal` is as for [`normalise_size`].
pub fn map_key(model: &OllamaModel, one_decimal: Option<&str>) -> (key: String)
    ensures
        key@ == model_key(model@, shown(one_decimal)),
{
    let mut key: String = model.family.clone();
    key.append(":");
    key.append(normalise_size(model.model_type.as_str(), one_decimal).as_str());
    key
}

/// Where the user's own map lies.
pub fn user_map_path() -> (path: LocalPath)
    ensures
        path@ == path_at(PathBase::Home).join(".config"@).join("inferrs"@).join("ollama-map.json"@),
{
    LocalPath::at(PathBase::Home).join(".config").join("inferrs").join("ollama-map.json")
}

/// What a map holds under `key`, where the map could be read and is a JSON object.
pub open spec fn mapped(map: Option<Seq<char>>, key: Seq<char>) -> Option<Seq<char>> {
    match map {
        Some(text) => match json_object(text) {
            Some(object) => string_at(object, key),
            None => None,
        },
        None => None,
    }
}

/// Looks `key` up in the user's map. `map` is its text, where it could be read. A map
/// with one entry gives the string of that entry for its key.
pub fn user_map_lookup(map: Option<&str>, key: &str) -> (id: Option<String>)
    ensures
        text_of(id) == mapped(shown(map), key@),
        forall|value: Seq<char>|
            plain(key@) && plain(value) && shown(map) == Some(#[trigger] one_entry(key@, value))
                ==> text_of(id) == Some(value),
{
    match map {
        Some(text) => match parse_object(text) {
            Ok(entries) => {
                proof {
                    lemma_entry_string(entries@, json_object(text@)->0, key@);
                    assert forall|value: Seq<char>|
                        plain(key@) && plain(value) && text@ == #[trigger] one_entry(
                            key@,
                            value,
                        ) implies entry_string(entries@, key@) == Some(value) by {
                        lemma_entry_string(entries@, map![key@ => Some(value)], key@);
                    }
                }
                find_string(&entries, key)
            },
            Err(_) => None,
        },
        None => None,
    }
}

/// Why a model has no HuggingFace identifier.
#[derive(Debug)]
pub enum ResolveError {
    /// The map that comes with the program is no JSON object.
    BundledInvalid {
        /// Why not.
        cause: String,
    },
    /// No map knows the model.
    NoMapping {
        /// What is said of it.
        message: String,
    },
}

/// The text of a [`ResolveError`].
pub enum ResolveErrorView {
    /// The map that comes with the program is no JSON object.
    BundledInvalid {
        /// Why not.
        cause: Seq<char>,
    },
    /// No map knows the model.
    NoMapping {
        /// What is said of it.
        message: Seq<char>,
    },
}

impl View for ResolveError {
    type V = ResolveErrorView;

    open spec fn view(&self) -> ResolveErrorView {
        match self {
            ResolveError::BundledInvalid { cause } => ResolveErrorView::BundledInvalid {
                cause: cause@,
            },
            ResolveError::NoMapping { message } => ResolveErrorView::NoMapping {
                message: message@,
            },
        }
    }
}

impl ResolveErrorView {
    /// What is said of the error.
    pub open spec fn message(self) -> Seq<char> {
        match self {
            ResolveErrorView::BundledInvalid { .. } =>
                "bundled ollama_map.json is invalid — please file a bug"@,
            ResolveErrorView::NoMapping { message } => message,
        }
    }
}

impl ResolveError {
    /// What is said of the error.
    pub fn message(&self) -> (said: String)
        ensures
            said@ == self@.message(),
    {
        match self {
            ResolveError::BundledInvalid { .. } =>
                "bundled ollama_map.json is invalid — please file a bug".to_owned(),
            ResolveError::NoMapping { message } => message.clone(),
        }
    }
}

/// The entry that a map needs for `key`, with the identifier left open.
pub open spec fn entry_to_add(key: Seq<char>) -> Seq<char> {
    json_entry(key, "<org/model-name-on-huggingface>"@)
}

/// Writes the entry that a map needs for `key`, with the identifier left open.
fn entry_text(key: &str) -> (entry: String)
    ensures
        entry@ == entry_to_add(key@),
{
    let mut entry: String = "\"".to_owned();
    entry.append(key);
    entry.append("\": \"");
    entry.append("<org/model-name-on-huggingface>");
    entry.append("\"");
    entry
}

/// What is said of a model that no map knows: which entry to add, and where.
pub open spec fn no_mapping_message(
    model: ModelView,
    key: Seq<char>,
    map_path: Seq<char>,
    gguf: Seq<char>,
) -> Seq<char> {
    "No HuggingFace model mapping for Ollama model '"@ + model.display_name + "' (family="@
        + model.family + ", size="@ + model.model_type + ", key="@ + key
        + ").\n\nAdd it to your override map at:\n  "@ + map_path + "\n\nEntry to add:\n  "@
        + entry_to_add(key)
        + "\n\nFind the HuggingFace model ID at:\n  https://huggingface.co/models\nSearch for: "@
        + model.family + " "@ + model.model_type
        + "\n\nOr bypass the map entirely with --gguf:\n  inferrs serve <hf-model-id> --gguf "@
        + gguf
}

/// Says which entry to add for a model that no map knows, and where.
pub fn no_mapping_text(model: &OllamaModel, key: &str, map_path: &str, gguf: &str) -> (message:
    String)
    ensures
        message@ == no_mapping_message(model@, key@, map_path@, gguf@),
{
    let mut message: String = "No HuggingFace model mapping for Ollama model '".to_owned();
    message.append(model.display_name.as_str());
    message.append("' (family=");
    message.append(model.family.as_str());
    message.append(", size=");
    message.append(model.model_type.as_str());
    message.append(", key=");
    message.append(key);
    message.append(").\n\nAdd it to your override map at:\n  ");
    message.append(map_path);
    message.append("\n\nEntry to add:\n  ");
    message.append(entry_text(key).as_str());
    message.append(
        "\n\nFind the HuggingFace model ID at:\n  https://huggingface.co/models\nSearch for: ",
    );
    message.append(model.family.as_str());
    message.append(" ");
    message.append(model.model_type.as_str());
    message.append(
        "\n\nOr bypass the map entirely with --gguf:\n  inferrs serve <hf-model-id> --gguf ",
    );
    message.append(gguf);
    message
}

/// The identifier that the maps hold for `key`: the user's map goes first.
pub open spec fn resolved(user: Option<Seq<char>>, bundled: Seq<char>, key: Seq<char>) -> Option<
    Seq<char>,
> {
    match mapped(user, key) {
        Some(id) => Some(id),
        None => mapped(Some(bundled), key),
    }
}

/// What the program was able to read and shows, for resolving a model.
pub struct ResolveInput<'a> {
    /// The number of the model's size with one decimal, as for [`normalise_size`].
    pub one_decimal: Option<&'a str>,
    /// The text of the user's map, where it could be read.
    pub user_map: Option<&'a str>,
    /// The text of the map that comes with the program.
    pub bundled_map: &'a str,
    /// The path of the user's map, for people to read.
    pub map_path: &'a str,
    /// The path of the model's blob, for people to read.
    pub gguf: &'a str,
}

/// What the maps give for a model: its HuggingFace identifier, or why there is none.
pub open spec fn resolution(model: ModelView, input: ResolveInput) -> Result<
    Seq<char>,
    ResolveErrorView,
> {
    let key = model_key(model, shown(input.one_decimal));
    match resolved(shown(input.user_map), input.bundled_map@, key) {
        Some(id) => Ok(id),
        None => match json_read(input.bundled_map@) {
            Err(cause) => Err(ResolveErrorView::BundledInvalid { cause }),
            Ok(_) => Err(
                ResolveErrorView::NoMapping {
                    message: no_mapping_message(model, key, input.map_path@, input.gguf@),
                },
            ),
        },
    }
}

/// Finds the HuggingFace identifier of a model: in the user's map, else in the map
/// that comes with the program.
///
/// The entry that [`no_mapping_text`] advises is enough: with any identifier in its open
/// place, a user's map of that one entry resolves the model to that identifier.
pub fn resolve_hf_model_id(model: &OllamaModel, input: &ResolveInput) -> (id: Result<
    String,
    ResolveError,
>)
    ensures
        match id {
            Ok(found) => resolution(model@, *input) == Ok::<_, ResolveErrorView>(found@),
            Err(error) => resolution(model@, *input) == Err::<Seq<char>, _>(error@),
        },
        forall|value: Seq<char>|
            plain(model_key(model@, shown(input.one_decimal))) && plain(value) && shown(
                input.user_map,
            ) == Some(
                #[trigger] one_entry(model_key(model@, shown(input.one_decimal)), value),
            ) ==> (id matches Ok(found) && found@ == value),
{
    let key = map_key(model, input.one_decimal);
    if let Some(id) = user_map_lookup(input.user_map, key.as_str()) {
        return Ok(id);
    }
    let entries = match parse_object(input.bundled_map) {
        Ok(entries) => entries,
        Err(cause) => return Err(ResolveError::BundledInvalid { cause }),
    };
    proof {
        lemma_entry_string(entries@, json_object(input.bundled_map@)->0, key@);
    }
    match find_string(&entries, key.as_str()) {
        Some(id) => Ok(id),
        None => Err(
            ResolveError::NoMapping {
                message: no_mapping_text(model, key.as_str(), input.map_path, input.gguf),
            },
        ),
    }
}

/// The user's map goes first: what it holds for a key is taken, whatever the bundled
/// map holds. Without it the bundled map decides.
pub proof fn law_user_map_first(user: Option<Seq<char>>, bundled: Seq<char>, key: Seq<char>)
    ensures
        mapped(user, key) is Some ==> resolved(user, bundled, key) == mapped(user, key),
        mapped(user, key) is None ==> resolved(user, bundled, key) == mapped(Some(bundled), key),
{
}

/// The advice for a model that no map knows is enough: it names the file and the
/// entry, and a file that holds an identifier under the entry's key resolves every
/// model with that key to that identifier.
pub proof fn law_advice_suffices(
    model: ModelView,
    key: Seq<char>,
    map_path: Seq<char>,
    gguf: Seq<char>,
    amended: Seq<char>,
    bundled: Seq<char>,
    id: Seq<char>,
)
    requires
        json_object(amended) matches Some(object) && string_at(object, key) == Some(id),
    ensures
        has_infix(no_mapping_message(model, key, map_path, gguf), map_path),
        has_infix(no_mapping_message(model, key, map_path, gguf), entry_to_add(key)),
        resolved(Some(amended), bundled, key) == Some(id),
{
    let before_path = "No HuggingFace model mapping for Ollama model '"@ + model.display_name
        + "' (family="@ + model.family + ", size="@ + model.model_type + ", key="@ + key
        + ").\n\nAdd it to your override map at:\n  "@;
    let before_entry = before_path + map_path + "\n\nEntry to add:\n  "@;
    let message = no_mapping_message(model, key, map_path, gguf);
    let at_path = before_path.len() as int;
    let at_entry = before_entry.len() as int;
    assert(message.subrange(at_path, at_path + map_path.len()) =~= map_path);
    assert(stands_at(message, map_path, at_path));
    assert(message.subrange(at_entry, at_entry + entry_to_add(key).len()) =~= entry_to_add(key));
    assert(stands_at(message, entry_to_add(key), at_entry));
}

} // verus!
