//! Laws of the list of models, over what is in the caches.
use crate::list::{
    cached_models, entry_views, holds_cached_model, ids, larger, listing, model_id_of,
    ollama_entries, ollama_entry, padded, row_line, row_lines, widest, CacheEntry, EntryView,
    ListRow, ModelEntry,
};
use crate::manifest::ModelView;
use crate::sorting::{arranged, law_sorted, sorts};
use crate::text::{has_infix, replaced, stands_at};
use crate::text_laws::{law_replaced_first, law_replaced_none};
use vstd::prelude::*;
use vstd::string::*;
use vstd::utf8::*;

verus! {

/// The view of an entry holds all of it, each field as it is.
pub proof fn law_entry_view(entry: ModelEntry, entries: Seq<ModelEntry>)
    ensures
        entry@.id == entry.id@,
        entry@.size_bytes == entry.size_bytes,
        entry.note is None ==> entry@.note is None,
        entry.note matches Some(note) ==> entry@.note == Some(note@),
        entry_views(entries).len() == entries.len(),
        forall|i: int| 0 <= i < entries.len() ==> #[trigger] entry_views(entries)[i] == entries[i]@,
{
}

/// Entries are sorted by their identifiers.
pub proof fn law_ids(entries: Seq<EntryView>)
    ensures
        ids(entries).len() == entries.len(),
        forall|i: int| 0 <= i < entries.len() ==> #[trigger] ids(entries)[i] == entries[i].id,
{
}

/// A folder without a double hyphen after `models--` is a model's bare name. Otherwise the
/// first double hyphen is the first slash, and what follows it is read in the same way.
pub proof fn law_folder_reads(start: Seq<char>, rest: Seq<char>)
    ensures
        !has_infix(start, "--"@) ==> model_id_of("models--"@ + start) == start,
        (forall|at: int| 0 <= at < start.len() ==> !stands_at(start + "--"@ + rest, "--"@, at))
            ==> model_id_of("models--"@ + (start + "--"@ + rest)) == start + "/"@ + model_id_of(
            "models--"@ + rest,
        ),
{
    reveal_strlit("--");
    lemma_bare(start);
    lemma_bare(rest);
    lemma_bare(start + "--"@ + rest);
    if !has_infix(start, "--"@) {
        law_replaced_none(start, "--"@, "/"@);
    }
    if forall|at: int| 0 <= at < start.len() ==> !stands_at(start + "--"@ + rest, "--"@, at) {
        law_replaced_first(start, "--"@, rest, "/"@);
    }
}

/// What follows `models--` is read with slashes for double hyphens.
proof fn lemma_bare(bare: Seq<char>)
    ensures
        model_id_of("models--"@ + bare) == replaced(bare, "--"@, "/"@),
{
    let folder = "models--"@ + bare;
    assert(folder.subrange(0, "models--"@.len() as int) =~= "models--"@);
    assert(folder.skip("models--"@.len() as int) =~= bare);
}

/// A folder that does not begin with `models--` is read as if it did.
pub proof fn law_other_folder_reads(folder: Seq<char>)
    requires
        !"models--"@.is_prefix_of(folder),
    ensures
        model_id_of(folder) == model_id_of("models--"@ + folder),
{
    lemma_bare(folder);
}

/// Only a directory whose name begins with `models--` holds a model, and each such does.
pub proof fn law_holds_model(rest: Seq<char>, folder: Seq<char>)
    ensures
        holds_cached_model("models--"@ + rest, true),
        !holds_cached_model(folder, false),
        holds_cached_model(folder, true) ==> folder.len() >= "models--"@.len() && folder
            == "models--"@ + folder.skip("models--"@.len() as int),
{
    let named = "models--"@ + rest;
    assert(named.subrange(0, "models--"@.len() as int) =~= "models--"@);
    if "models--"@.is_prefix_of(folder) {
        assert(folder =~= "models--"@ + folder.skip("models--"@.len() as int));
    }
}

/// Each entry of the cache gives one model or none, with its whole size and no note, and
/// the models of entries come one after the other in the entries' order.
pub proof fn law_cache_gives(before: Seq<CacheEntry>, entry: CacheEntry)
    ensures
        cached_models(Seq::empty()).len() == 0,
        entry.is_dir && "models--"@.is_prefix_of(entry.folder@) ==> cached_models(
            before.push(entry),
        ) == cached_models(before).push(
            EntryView {
                id: model_id_of(entry.folder@),
                size_bytes: entry.size_bytes,
                note: None,
            },
        ),
        !(entry.is_dir && "models--"@.is_prefix_of(entry.folder@)) ==> cached_models(
            before.push(entry),
        ) == cached_models(before),
{
    assert(before.push(entry).drop_last() =~= before);
}

/// The models of the cache are those of its folders, each with the folder's whole size.
proof fn lemma_cached(entries: Seq<CacheEntry>, view: EntryView)
    ensures
        cached_models(entries).contains(view) <==> exists|i: int|
            0 <= i < entries.len() && (#[trigger] entries[i]).is_dir && "models--"@.is_prefix_of(
                entries[i].folder@,
            ) && view.id == model_id_of(entries[i].folder@) && view.size_bytes
                == entries[i].size_bytes && view.note is None,
    decreases entries.len(),
{
    let models = cached_models(entries);
    if entries.len() > 0 {
        let init = entries.drop_last();
        let last = entries.last();
        let before = cached_models(init);
        lemma_cached(init, view);
        assert(entries =~= init.push(last));
        law_cache_gives(init, last);
        if models.contains(view) {
            let k = choose|k: int| 0 <= k < models.len() && models[k] == view;
            if k < before.len() {
                assert(before[k] == view);
                let i = choose|i: int|
                    0 <= i < init.len() && (#[trigger] init[i]).is_dir && "models--"@.is_prefix_of(
                        init[i].folder@,
                    ) && view.id == model_id_of(init[i].folder@) && view.size_bytes
                        == init[i].size_bytes && view.note is None;
                assert(entries[i] == init[i]);
            } else {
                assert(entries[entries.len() - 1] == last);
            }
        }
        if exists|i: int|
            0 <= i < entries.len() && (#[trigger] entries[i]).is_dir && "models--"@.is_prefix_of(
                entries[i].folder@,
            ) && view.id == model_id_of(entries[i].folder@) && view.size_bytes
                == entries[i].size_bytes && view.note is None {
            let i = choose|i: int|
                0 <= i < entries.len() && (#[trigger] entries[i]).is_dir
                    && "models--"@.is_prefix_of(entries[i].folder@) && view.id == model_id_of(
                    entries[i].folder@,
                ) && view.size_bytes == entries[i].size_bytes && view.note is None;
            if i < init.len() {
                assert(init[i] == entries[i]);
                let k = choose|k: int| 0 <= k < before.len() && before[k] == view;
                assert(models[k] == view);
            } else {
                assert(models[models.len() - 1] == view);
            }
        }
    }
}

/// Every directory of the cache whose name begins with `models--` is listed under its
/// model with exactly its size, and everything listed is such a directory.
pub proof fn law_cache_is_listed(
    entries: Seq<CacheEntry>,
    order: Seq<int>,
    listed: Seq<EntryView>,
    view: EntryView,
)
    requires
        sorts(ids(cached_models(entries)), order),
        listed == arranged(cached_models(entries), order),
    ensures
        listed.contains(view) <==> exists|i: int|
            0 <= i < entries.len() && (#[trigger] entries[i]).is_dir && "models--"@.is_prefix_of(
                entries[i].folder@,
            ) && view.id == model_id_of(entries[i].folder@) && view.size_bytes
                == entries[i].size_bytes && view.note is None,
        listed.len() == cached_models(entries).len(),
{
    law_sorted(cached_models(entries), ids(cached_models(entries)), order);
    lemma_cached(entries, view);
    assert(listed.contains(view) <==> cached_models(entries).contains(view));
}

/// An Ollama model is listed under the name it is shown under, with its whole size, and
/// with its family, size and quantisation as a note.
pub proof fn law_ollama_entry(models: Seq<ModelView>, i: int)
    requires
        0 <= i < models.len(),
    ensures
        ollama_entries(models).len() == models.len(),
        ollama_entries(models)[i].id == models[i].display_name,
        ollama_entries(models)[i].size_bytes == models[i].size_bytes,
        ollama_entries(models)[i].note == Some(
            models[i].family + " "@ + models[i].model_type + " ("@ + models[i].quantization + ")"@,
        ),
        ollama_entry(models[i]) == ollama_entries(models)[i],
{
}

/// The widest identifier is as wide as some identifier, and none is wider.
pub proof fn law_widest(rows: Seq<ListRow>)
    ensures
        forall|i: int|
            0 <= i < rows.len() ==> encode_utf8((#[trigger] rows[i]).id@).len() <= widest(rows),
        rows.len() == 0 ==> widest(rows) == 0,
        rows.len() > 0 ==> exists|i: int|
            0 <= i < rows.len() && encode_utf8((#[trigger] rows[i]).id@).len() == widest(rows),
    decreases rows.len(),
{
    if rows.len() > 0 {
        let init = rows.drop_last();
        law_widest(init);
        let last = (rows.len() - 1) as int;
        assert(rows[last] == rows.last());
        assert forall|i: int| 0 <= i < rows.len() implies encode_utf8(
            (#[trigger] rows[i]).id@,
        ).len() <= widest(rows) by {
            if i < last {
                assert(init[i] == rows[i]);
            }
        }
        if widest(rows) != encode_utf8(rows[last].id@).len() {
            if init.len() > 0 {
                let i = choose|i: int|
                    0 <= i < init.len() && encode_utf8((#[trigger] init[i]).id@).len() == widest(
                        init,
                    );
                assert(rows[i] == init[i]);
            }
        }
    }
}

/// The larger of two numbers is one of them, and neither is larger.
pub proof fn law_larger(a: nat, b: nat)
    ensures
        larger(a, b) == a || larger(a, b) == b,
        larger(a, b) >= a,
        larger(a, b) >= b,
{
}

/// Padding puts spaces behind a text, up to the width and no more.
pub proof fn law_padded(text: Seq<char>, width: nat)
    ensures
        text.is_prefix_of(padded(text, width)),
        padded(text, width).len() == if text.len() < width {
            width
        } else {
            text.len()
        },
        forall|i: int|
            text.len() <= i < padded(text, width).len() ==> #[trigger] padded(text, width)[i]
                == ' ',
{
    assert(padded(text, width).subrange(0, text.len() as int) =~= text);
}

/// The line of a model: two spaces, the padded identifier, two spaces and the size, then
/// two more spaces and the note where there is one.
pub proof fn law_row_line(row: ListRow, width: nat)
    ensures
        row.note is None ==> row_line(row, width) == "  "@ + padded(row.id@, width) + "  "@
            + row.size@ + "\n"@,
        row.note matches Some(note) ==> row_line(row, width) == "  "@ + padded(row.id@, width)
            + "  "@ + row.size@ + "  "@ + note@ + "\n"@,
{
}

/// The lines of models come one after the other.
pub proof fn law_row_lines(rows: Seq<ListRow>, row: ListRow, width: nat)
    ensures
        row_lines(Seq::empty(), width).len() == 0,
        row_lines(rows.push(row), width) == row_lines(rows, width) + row_line(row, width),
{
    assert(rows.push(row).drop_last() =~= rows);
}

/// The list: each heading stands above its models where there are any, an empty line
/// between the two, and all lines have the width of the widest identifier of both.
pub proof fn law_listing(hf: Seq<ListRow>, ollama: Seq<ListRow>, width: nat)
    requires
        width == if widest(hf) < widest(ollama) {
            widest(ollama)
        } else {
            widest(hf)
        },
    ensures
        hf.len() == 0 && ollama.len() == 0 ==> listing(hf, ollama) == "No models found.\n"@,
        hf.len() > 0 && ollama.len() == 0 ==> listing(hf, ollama) == "HuggingFace\n"@ + row_lines(
            hf,
            width,
        ),
        hf.len() == 0 && ollama.len() > 0 ==> listing(hf, ollama) == "Ollama\n"@ + row_lines(
            ollama,
            width,
        ),
        hf.len() > 0 && ollama.len() > 0 ==> listing(hf, ollama) == "HuggingFace\n"@ + row_lines(
            hf,
            width,
        ) + "\n"@ + "Ollama\n"@ + row_lines(ollama, width),
{
    if hf.len() > 0 && ollama.len() > 0 {
        assert(listing(hf, ollama) =~= "HuggingFace\n"@ + row_lines(hf, width) + "\n"@
            + "Ollama\n"@ + row_lines(ollama, width));
    }
}

} // verus!
