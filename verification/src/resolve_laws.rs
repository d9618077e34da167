//! Laws of the way from an Ollama model to its HuggingFace model.
use crate::json::{entry_string, json_object, json_read, string_at};
use crate::manifest::ModelView;
use crate::resolve::{
    bare_size, entry_to_add, mapped, model_key, no_mapping_message, resolution, resolved, shown,
    size_key, ResolveError, ResolveErrorView, ResolveInput,
};
use crate::text::{text_of, white_space};
use crate::text_laws::{law_trailing_run, law_trimmed};
use vstd::prelude::*;
use vstd::string::*;

verus! {

/// The text of an argument is the argument's own text.
pub proof fn law_shown(text: &str)
    ensures
        shown(Some(text)) == Some(text@),
        shown(None) is None,
{
}

/// The view of an error holds what it says.
pub proof fn law_resolve_error_view(text: String)
    ensures
        (ResolveError::BundledInvalid { cause: text })@ == (ResolveErrorView::BundledInvalid {
            cause: text@,
        }),
        (ResolveError::NoMapping { message: text })@ == (ResolveErrorView::NoMapping {
            message: text@,
        }),
        (ResolveErrorView::BundledInvalid { cause: text@ }).message()
            == "bundled ollama_map.json is invalid — please file a bug"@,
        (ResolveErrorView::NoMapping { message: text@ }).message() == text@,
{
}

/// The number in a size is what stands before the run of `B` at its end, without the
/// white space around it.
pub proof fn law_bare_size(
    before: Seq<char>,
    number: Seq<char>,
    after: Seq<char>,
    units: Seq<char>,
)
    requires
        forall|i: int| 0 <= i < before.len() ==> white_space(#[trigger] before[i]),
        forall|i: int| 0 <= i < after.len() ==> white_space(#[trigger] after[i]),
        number.len() > 0 ==> !white_space(number[0]) && !white_space(number.last()),
        after.len() == 0 && number.len() > 0 ==> number.last() != 'B',
        forall|i: int| 0 <= i < units.len() ==> (#[trigger] units[i]) == 'B',
    ensures
        bare_size(before + number + after + units) == number,
{
    let text = before + number + after;
    if text.len() > 0 {
        if after.len() > 0 {
            assert(white_space(after[after.len() - 1]));
            assert(text.last() == after[after.len() - 1]);
        } else if number.len() > 0 {
            assert(text.last() == number.last());
        } else {
            assert(white_space(before[before.len() - 1]));
            assert(text.last() == before[before.len() - 1]);
        }
    }
    law_trailing_run(text, units, 'B');
    law_trimmed(before, number, after);
}

/// A model is looked up under its family, a colon, and its number with one decimal, all of
/// it. Without a number it is looked up under the bare text of its size.
pub proof fn law_model_key(model: ModelView, number: Seq<char>)
    ensures
        model_key(model, Some(number)) == model.family + ":"@ + number,
        model_key(model, None) == model.family + ":"@ + bare_size(model.model_type),
        size_key(model.model_type, Some(number)) == number,
        size_key(model.model_type, None) == bare_size(model.model_type),
{
}

/// Models of one family with different numbers have different keys.
pub proof fn law_keys_differ(
    model1: ModelView,
    number1: Seq<char>,
    model2: ModelView,
    number2: Seq<char>,
)
    requires
        model1.family == model2.family,
        number1 != number2,
    ensures
        model_key(model1, Some(number1)) != model_key(model2, Some(number2)),
{
    let start = model1.family + ":"@;
    let key1 = start + number1;
    let key2 = start + number2;
    law_model_key(model1, number1);
    law_model_key(model2, number2);
    assert(key1.skip(start.len() as int) =~= number1);
    assert(key2.skip(start.len() as int) =~= number2);
}

/// A map holds what its object holds under exactly the key, and nothing where it could not
/// be read, is no object, or has no string there.
pub proof fn law_mapped(
    text: Seq<char>,
    object: Map<Seq<char>, Option<Seq<char>>>,
    key: Seq<char>,
)
    ensures
        json_read(text) == Ok::<_, Seq<char>>(object) && object.contains_key(key) ==> mapped(
            Some(text),
            key,
        ) == object[key],
        json_read(text) == Ok::<_, Seq<char>>(object) && !object.contains_key(key) ==> mapped(
            Some(text),
            key,
        ) is None,
        json_read(text) is Err ==> mapped(Some(text), key) is None,
        mapped(None, key) is None,
        json_read(text) == Ok::<_, Seq<char>>(object) ==> json_object(text) == Some(object),
        string_at(object, key) == if object.contains_key(key) {
            object[key]
        } else {
            None
        },
{
}

/// A list of entries holds under a key what the first entry with that key holds.
pub proof fn law_first_entry_decides(
    first: (String, Option<String>),
    rest: Seq<(String, Option<String>)>,
    key: Seq<char>,
)
    ensures
        entry_string(Seq::empty(), key) is None,
        first.0@ == key ==> entry_string(seq![first] + rest, key) == text_of(first.1),
        first.0@ != key ==> entry_string(seq![first] + rest, key) == entry_string(rest, key),
{
    assert((seq![first] + rest).drop_first() =~= rest);
}

/// A user's map that holds an identifier under the family, a colon and the number
/// resolves the model to it, whatever the bundled map holds.
pub proof fn law_user_map_resolves(
    model: ModelView,
    input: ResolveInput,
    object: Map<Seq<char>, Option<Seq<char>>>,
    id: Seq<char>,
)
    requires
        input.user_map matches Some(user) && json_read(user@) == Ok::<_, Seq<char>>(object),
        ({
            let key = match input.one_decimal {
                Some(number) => model.family + ":"@ + number@,
                None => model.family + ":"@ + bare_size(model.model_type),
            };
            object.contains_key(key) && object[key] == Some(id)
        }),
    ensures
        resolution(model, input) == Ok::<_, ResolveErrorView>(id),
{
}

/// Where the user's map holds nothing for a model, the bundled map decides under the same
/// key: it resolves the model, or it is no map, or the model is in neither map.
pub proof fn law_bundled_map_resolves(model: ModelView, input: ResolveInput, key: Seq<char>)
    requires
        key == match input.one_decimal {
            Some(number) => model.family + ":"@ + number@,
            None => model.family + ":"@ + bare_size(model.model_type),
        },
        input.user_map matches Some(user) ==> match json_read(user@) {
            Ok(object) => !object.contains_key(key) || object[key] is None,
            Err(_) => true,
        },
    ensures
        match json_read(input.bundled_map@) {
            Ok(object) => {
                &&& object.contains_key(key) && object[key] is Some ==> resolution(model, input)
                    == Ok::<_, ResolveErrorView>(object[key]->0)
                &&& !object.contains_key(key) || object[key] is None ==> resolution(model, input)
                    == Err::<Seq<char>, _>(
                    ResolveErrorView::NoMapping {
                        message: no_mapping_message(model, key, input.map_path@, input.gguf@),
                    },
                )
            },
            Err(cause) => resolution(model, input) == Err::<Seq<char>, _>(
                ResolveErrorView::BundledInvalid { cause },
            ),
        },
        resolved(shown(input.user_map), input.bundled_map@, key) == mapped(
            Some(input.bundled_map@),
            key,
        ),
{
}

/// The advice for a model in neither map says which model it is, by which key it was
/// looked up, which entry to add and where, and how to do without the maps.
pub proof fn law_advice(model: ModelView, key: Seq<char>, map_path: Seq<char>, gguf: Seq<char>)
    ensures
        entry_to_add(key) == "\""@ + key + "\": \""@ + "<org/model-name-on-huggingface>"@ + "\""@,
        no_mapping_message(model, key, map_path, gguf)
            == "No HuggingFace model mapping for Ollama model '"@ + model.display_name
            + "' (family="@ + model.family + ", size="@ + model.model_type + ", key="@ + key
            + ").\n\nAdd it to your override map at:\n  "@ + map_path + "\n\nEntry to add:\n  "@ + (
        "\""@ + key + "\": \""@ + "<org/model-name-on-huggingface>"@ + "\""@)
            + "\n\nFind the HuggingFace model ID at:\n  https://huggingface.co/models\nSearch for: "@
            + model.family + " "@ + model.model_type
            + "\n\nOr bypass the map entirely with --gguf:\n  inferrs serve <hf-model-id> --gguf "@
            + gguf,
{
}

} // verus!
