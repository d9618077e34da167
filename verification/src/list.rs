//! `inferrs list`: the models that are cached from HuggingFace and those of Ollama.
use crate::manifest::{ModelView, OllamaModel};
use crate::sorting::{arranged, names_of, sort_by_name, sorts, Named};
use crate::store::{display_names, list_ollama_models, model_views, stored_models, OllamaStore};
use crate::text::{has_infix, replace, replaced, stands_at, starts_with, strip_prefix, text_of};
use vstd::prelude::*;
use vstd::string::*;
use vstd::utf8::*;

verus! {

/// The arguments of `inferrs list`: there are none.
#[derive(Clone, Copy, Debug)]
pub struct ListArgs {}

/// A model in the list.
#[derive(Debug)]
pub struct ModelEntry {
    /// The model's identifier.
    pub id: String,
    /// Its size in bytes.
    pub size_bytes: u64,
    /// What else is said of it.
    pub note: Option<String>,
}

/// The text of a [`ModelEntry`].
pub struct EntryView {
    /// The model's identifier.
    pub id: Seq<char>,
    /// Its size in bytes.
    pub size_bytes: u64,
    /// What else is said of it.
    pub note: Option<Seq<char>>,
}

impl View for ModelEntry {
    type V = EntryView;

    open spec fn view(&self) -> EntryView {
        EntryView { id: self.id@, size_bytes: self.size_bytes, note: text_of(self.note) }
    }
}

impl Named for ModelEntry {
    open spec fn name(&self) -> Seq<char> {
        self.id@
    }

    fn name_text(&self) -> (text: &str) {
        self.id.as_str()
    }
}

/// The text of entries.
pub open spec fn entry_views(entries: Seq<ModelEntry>) -> Seq<EntryView> {
    Seq::new(entries.len(), |i: int| entries[i]@)
}

/// The identifiers of entries.
pub open spec fn ids(entries: Seq<EntryView>) -> Seq<Seq<char>> {
    Seq::new(entries.len(), |i: int| entries[i].id)
}

/// The identifier of the model that is cached in `folder`.
pub open spec fn model_id_of(folder: Seq<char>) -> Seq<char> {
    let bare = if "models--"@.is_prefix_of(folder) {
        folder.skip("models--"@.len() as int)
    } else {
        folder
    };
    replaced(bare, "--"@, "/"@)
}

/// Turns `models--Org--Name` back into `Org/Name`.
pub fn folder_to_model_id(folder: &str) -> (id: String)
    ensures
        id@ == model_id_of(folder@),
{
    proof {
        reveal_strlit("--");
    }
    let bare = match strip_prefix(folder, "models--") {
        Some(bare) => bare,
        None => folder,
    };
    replace(bare, "--", "/")
}

/// Something in the cache of the HuggingFace Hub.
#[derive(Debug)]
pub struct CacheEntry {
    /// Its name.
    pub folder: String,
    /// It is a directory.
    pub is_dir: bool,
    /// The size in bytes of what is in it.
    pub size_bytes: u64,
}

/// An entry of the cache holds a model: it is a directory with the name of one.
pub open spec fn holds_cached_model(folder: Seq<char>, is_dir: bool) -> bool {
    is_dir && "models--"@.is_prefix_of(folder)
}

/// Whether an entry of the cache holds a model.
pub fn is_model_folder(folder: &str, is_dir: bool) -> (yes: bool)
    ensures
        yes == holds_cached_model(folder@, is_dir),
{
    is_dir && starts_with(folder, "models--")
}

/// The models in the cache, in the order of its entries.
pub open spec fn cached_models(entries: Seq<CacheEntry>) -> Seq<EntryView>
    decreases entries.len(),
{
    if entries.len() == 0 {
        Seq::empty()
    } else {
        let before = cached_models(entries.drop_last());
        let last = entries.last();
        if holds_cached_model(last.folder@, last.is_dir) {
            before.push(
                EntryView {
                    id: model_id_of(last.folder@),
                    size_bytes: last.size_bytes,
                    note: None,
                },
            )
        } else {
            before
        }
    }
}

/// Lists the models in the cache of the HuggingFace Hub, by identifier.
pub fn hf_models(entries: &Vec<CacheEntry>) -> (listed: Vec<ModelEntry>)
    ensures
        exists|order: Seq<int>| #[trigger]
            sorts(ids(cached_models(entries@)), order) && entry_views(listed@) == arranged(
                cached_models(entries@),
                order,
            ),
{
    let mut models: Vec<ModelEntry> = Vec::new();
    let mut i: usize = 0;
    assert(entry_views(models@) =~= Seq::empty());
    assert(entries@.take(0).len() == 0);
    while i < entries.len()
        invariant
            i <= entries@.len(),
            entry_views(models@) == cached_models(entries@.take(i as int)),
        decreases entries@.len() - i,
    {
        let entry = &entries[i];
        let ghost before = models@;
        proof {
            assert(entries@.take(i + 1).drop_last() =~= entries@.take(i as int));
        }
        if is_model_folder(entry.folder.as_str(), entry.is_dir) {
            let id = folder_to_model_id(entry.folder.as_str());
            let model = ModelEntry { id, size_bytes: entry.size_bytes, note: None };
            models.push(model);
            assert(entry_views(models@) =~= entry_views(before).push(model@));
        }
        i = i + 1;
    }
    assert(entries@.take(entries@.len() as int) =~= entries@);
    let sorted = sort_by_name(models);
    proof {
        assert(names_of(models@) =~= ids(cached_models(entries@)));
        let order = choose|order: Seq<int>| #[trigger]
            sorts(names_of(models@), order) && sorted@ == arranged(models@, order);
        assert(entry_views(sorted@) =~= arranged(cached_models(entries@), order));
    }
    sorted
}

/// How an Ollama model is listed.
pub open spec fn ollama_entry(model: ModelView) -> EntryView {
    EntryView {
        id: model.display_name,
        size_bytes: model.size_bytes,
        note: Some(
            model.family + " "@ + model.model_type + " ("@ + model.quantization + ")"@,
        ),
    }
}

/// How Ollama models are listed.
pub open spec fn ollama_entries(models: Seq<ModelView>) -> Seq<EntryView> {
    Seq::new(models.len(), |i: int| ollama_entry(models[i]))
}

/// Lists the models of the Ollama store, by name.
pub fn ollama_models(store: OllamaStore) -> (listed: Vec<ModelEntry>)
    ensures
        exists|order: Seq<int>| #[trigger]
            sorts(display_names(stored_models(store)), order) && entry_views(listed@)
                == ollama_entries(arranged(stored_models(store), order)),
{
    let models: Vec<OllamaModel> = match list_ollama_models(store) {
        Ok(models) => models,
        Err(_) => Vec::new(),
    };
    let ghost all = models@;
    let mut listed: Vec<ModelEntry> = Vec::new();
    assert(entry_views(listed@) =~= ollama_entries(model_views(all.take(0))));
    for model in it: models
        invariant
            it.seq() == all,
            entry_views(listed@) == ollama_entries(model_views(all.take(it.index() as int))),
    {
        let ghost before = listed@;
        let mut note: String = model.family.clone();
        note.append(" ");
        note.append(model.model_type.as_str());
        note.append(" (");
        note.append(model.quantization.as_str());
        note.append(")");
        let entry = ModelEntry {
            id: model.display_name,
            size_bytes: model.size_bytes,
            note: Some(note),
        };
        listed.push(entry);
        proof {
            assert(entry@ == ollama_entry(all[it.index() as int]@));
            let taken = all.take(it.index() as int);
            assert(all.take(it.index() as int + 1) =~= taken.push(all[it.index() as int]));
            assert(entry_views(listed@) =~= entry_views(before).push(entry@));
            assert(ollama_entries(model_views(taken.push(all[it.index() as int])))
                =~= ollama_entries(model_views(taken)).push(entry@));
        }
    }
    assert(all.take(all.len() as int) =~= all);
    listed
}

/// A model in the list, with its size for people to read.
#[derive(Debug)]
pub struct ListRow {
    /// The model's identifier.
    pub id: String,
    /// Its size.
    pub size: String,
    /// What else is said of it.
    pub note: Option<String>,
}

/// The larger of two numbers.
pub open spec fn larger(a: nat, b: nat) -> nat {
    if a < b {
        b
    } else {
        a
    }
}

/// The greatest length in bytes of an identifier in `rows`.
pub open spec fn widest(rows: Seq<ListRow>) -> nat
    decreases rows.len(),
{
    if rows.len() == 0 {
        0
    } else {
        larger(widest(rows.drop_last()), encode_utf8(rows.last().id@).len())
    }
}

/// `n` spaces.
pub open spec fn spaces(n: nat) -> Seq<char> {
    Seq::new(n, |i: int| ' ')
}

/// `text`, with spaces behind it up to `width` characters.
pub open spec fn padded(text: Seq<char>, width: nat) -> Seq<char> {
    if text.len() < width {
        text + spaces((width - text.len()) as nat)
    } else {
        text
    }
}

/// The line of a model.
pub open spec fn row_line(row: ListRow, width: nat) -> Seq<char> {
    let start = "  "@ + padded(row.id@, width) + "  "@ + row.size@;
    match row.note {
        Some(note) => start + "  "@ + note@ + "\n"@,
        None => start + "\n"@,
    }
}

/// The lines of models.
pub open spec fn row_lines(rows: Seq<ListRow>, width: nat) -> Seq<char>
    decreases rows.len(),
{
    if rows.len() == 0 {
        Seq::empty()
    } else {
        row_lines(rows.drop_last(), width) + row_line(rows.last(), width)
    }
}

/// What `inferrs list` prints: the models under their headings, with an empty line
/// between the headings, and a notice where there are none.
pub open spec fn listing(hf: Seq<ListRow>, ollama: Seq<ListRow>) -> Seq<char> {
    let width = larger(widest(hf), widest(ollama));
    let hf_part = "HuggingFace\n"@ + row_lines(hf, width);
    let ollama_part = "Ollama\n"@ + row_lines(ollama, width);
    if hf.len() == 0 && ollama.len() == 0 {
        "No models found.\n"@
    } else if ollama.len() == 0 {
        hf_part
    } else if hf.len() == 0 {
        ollama_part
    } else {
        hf_part + "\n"@ + ollama_part
    }
}

/// Finds the greatest length in bytes of an identifier.
fn find_widest(rows: &Vec<ListRow>) -> (width: usize)
    ensures
        width == widest(rows@),
{
    let mut width: usize = 0;
    let mut i: usize = 0;
    assert(rows@.take(0).len() == 0);
    while i < rows.len()
        invariant
            i <= rows@.len(),
            width == widest(rows@.take(i as int)),
        decreases rows@.len() - i,
    {
        assert(rows@.take(i + 1).drop_last() =~= rows@.take(i as int));
        let len: usize = rows[i].id.as_str().as_bytes().len();
        if width < len {
            width = len;
        }
        i = i + 1;
    }
    assert(rows@.take(rows@.len() as int) =~= rows@);
    width
}

/// Appends `text` with spaces behind it up to `width` characters.
fn append_padded(out: &mut String, text: &str, width: usize)
    ensures
        final(out)@ == old(out)@ + padded(text@, width as nat),
{
    let ghost before = out@;
    out.append(text);
    let mut len: usize = text.unicode_len();
    assert(before + text@ =~= before + text@ + spaces(0));
    while len < width
        invariant
            text@.len() <= len,
            text@.len() < width ==> len <= width,
            text@.len() >= width ==> len == text@.len(),
            out@ == before + text@ + spaces((len - text@.len()) as nat),
        decreases width - len,
    {
        out.append(" ");
        len = len + 1;
        proof {
            reveal_strlit(" ");
        }
        assert(out@ =~= before + text@ + spaces((len - text@.len()) as nat));
    }
    assert(out@ =~= before + padded(text@, width as nat));
}

/// Appends the lines of models.
fn append_rows(out: &mut String, rows: &Vec<ListRow>, width: usize)
    ensures
        final(out)@ == old(out)@ + row_lines(rows@, width as nat),
{
    let ghost before = out@;
    let mut i: usize = 0;
    assert(rows@.take(0).len() == 0);
    assert(before =~= before + row_lines(rows@.take(0), width as nat));
    while i < rows.len()
        invariant
            i <= rows@.len(),
            out@ == before + row_lines(rows@.take(i as int), width as nat),
        decreases rows@.len() - i,
    {
        let ghost so_far = out@;
        let row = &rows[i];
        out.append("  ");
        append_padded(out, row.id.as_str(), width);
        out.append("  ");
        out.append(row.size.as_str());
        match &row.note {
            Some(note) => {
                out.append("  ");
                out.append(note.as_str());
            },
            None => {},
        }
        out.append("\n");
        proof {
            assert(out@ =~= so_far + row_line(rows@[i as int], width as nat));
            assert(rows@.take(i + 1).drop_last() =~= rows@.take(i as int));
            assert(before + row_lines(rows@.take(i as int), width as nat) + row_line(
                rows@[i as int],
                width as nat,
            ) =~= before + row_lines(rows@.take(i + 1), width as nat));
        }
        i = i + 1;
    }
    assert(rows@.take(rows@.len() as int) =~= rows@);
}

/// Makes what `inferrs list` prints.
pub fn run(_args: ListArgs, hf: &Vec<ListRow>, ollama: &Vec<ListRow>) -> (out: String)
    ensures
        out@ == listing(hf@, ollama@),
{
    if hf.len() == 0 && ollama.len() == 0 {
        return "No models found.\n".to_owned();
    }
    let hf_width: usize = find_widest(hf);
    let ollama_width: usize = find_widest(ollama);
    let width: usize = if hf_width < ollama_width {
        ollama_width
    } else {
        hf_width
    };
    let mut out: String = String::new();
    if hf.len() > 0 {
        out.append("HuggingFace\n");
        append_rows(&mut out, hf, width);
    }
    if ollama.len() > 0 {
        if hf.len() > 0 {
            out.append("\n");
        }
        out.append("Ollama\n");
        append_rows(&mut out, ollama, width);
    }
    assert(out@ =~= listing(hf@, ollama@));
    out
}

/// Text without a double hyphen, and without a hyphen before one that follows, is
/// kept by the replacement up to that double hyphen.
proof fn lemma_replaced_after(start: Seq<char>, rest: Seq<char>)
    requires
        !has_infix(start, "--"@),
        start.len() > 0 ==> start.last() != '-',
    ensures
        replaced(start + "--"@ + rest, "--"@, "/"@) == start + "/"@ + replaced(rest, "--"@, "/"@),
    decreases start.len(),
{
    reveal_strlit("--");
    reveal_strlit("/");
    let text = start + "--"@ + rest;
    if start.len() == 0 {
        assert(text.subrange(0, 2) =~= "--"@);
        assert(text.skip(2) =~= rest);
        assert(start + "/"@ + replaced(rest, "--"@, "/"@) =~= "/"@ + replaced(rest, "--"@, "/"@));
    } else {
        let tail = start.drop_first();
        if stands_at(text, "--"@, 0) {
            assert(text.subrange(0, 2)[0] == '-');
            assert(text.subrange(0, 2)[1] == '-');
            assert(start[0] == '-');
            assert(start.len() > 1);
            assert(start[1] == '-');
            assert(start.subrange(0, 2) =~= "--"@);
            assert(stands_at(start, "--"@, 0));
        }
        lemma_no_infix_after_first(start);
        lemma_replaced_after(tail, rest);
        assert(text.drop_first() =~= tail + "--"@ + rest);
        assert(seq![start[0]] + (tail + "/"@ + replaced(rest, "--"@, "/"@)) =~= start + "/"@
            + replaced(rest, "--"@, "/"@));
    }
}

/// Text without a double hyphen has none after its first character.
proof fn lemma_no_infix_after_first(text: Seq<char>)
    requires
        text.len() > 0,
        !has_infix(text, "--"@),
    ensures
        !has_infix(text.drop_first(), "--"@),
{
    if has_infix(text.drop_first(), "--"@) {
        let at = choose|at: int| stands_at(text.drop_first(), "--"@, at);
        assert(text.subrange(at + 1, at + 1 + "--"@.len()) =~= text.drop_first().subrange(
            at,
            at + "--"@.len(),
        ));
        assert(stands_at(text, "--"@, at + 1));
    }
}

/// Text without a double hyphen is kept by the replacement.
proof fn lemma_replaced_none(text: Seq<char>)
    requires
        !has_infix(text, "--"@),
    ensures
        replaced(text, "--"@, "/"@) == text,
    decreases text.len(),
{
    if text.len() > 0 {
        lemma_no_infix_after_first(text);
        lemma_replaced_none(text.drop_first());
        assert(!stands_at(text, "--"@, 0));
        assert(seq![text[0]] + text.drop_first() =~= text);
    }
}

/// The folder in which the Hub caches `org/name` leads back to `org/name`. This holds
/// of names in which the folder's separators can be told from the names' own hyphens.
pub proof fn law_folder_leads_back(org: Seq<char>, name: Seq<char>)
    requires
        !has_infix(org, "--"@),
        !has_infix(name, "--"@),
        org.len() > 0 ==> org.last() != '-',
    ensures
        model_id_of("models--"@ + org + "--"@ + name) == org + "/"@ + name,
{
    let folder = "models--"@ + org + "--"@ + name;
    assert(folder.subrange(0, "models--"@.len() as int) =~= "models--"@);
    assert(folder.skip("models--"@.len() as int) =~= org + "--"@ + name);
    lemma_replaced_after(org, name);
    lemma_replaced_none(name);
}

/// The folder in which the Hub caches a model without an organisation leads back to
/// the model's name.
pub proof fn law_bare_folder_leads_back(name: Seq<char>)
    requires
        !has_infix(name, "--"@),
    ensures
        model_id_of("models--"@ + name) == name,
{
    let folder = "models--"@ + name;
    assert(folder.subrange(0, "models--"@.len() as int) =~= "models--"@);
    assert(folder.skip("models--"@.len() as int) =~= name);
    lemma_replaced_none(name);
}

/// A text has at most as many characters as bytes.
proof fn lemma_chars_at_most_bytes(text: Seq<char>)
    ensures
        text.len() <= encode_utf8(text).len(),
    decreases text.len(),
{
    if text.len() > 0 {
        lemma_chars_at_most_bytes(text.drop_first());
        encode_utf8_first_scalar(text);
    }
}

/// No identifier is wider than the widest.
proof fn lemma_widest(rows: Seq<ListRow>, i: int)
    requires
        0 <= i < rows.len(),
    ensures
        encode_utf8(rows[i].id@).len() <= widest(rows),
    decreases rows.len(),
{
    if i < rows.len() - 1 {
        lemma_widest(rows.drop_last(), i);
    }
}

/// The columns are aligned: in every line the identifier takes the same width.
pub proof fn law_columns_aligned(hf: Seq<ListRow>, ollama: Seq<ListRow>, row: ListRow)
    requires
        hf.contains(row) || ollama.contains(row),
    ensures
        padded(row.id@, larger(widest(hf), widest(ollama))).len() == larger(
            widest(hf),
            widest(ollama),
        ),
{
    lemma_chars_at_most_bytes(row.id@);
    if hf.contains(row) {
        let i = choose|i: int| 0 <= i < hf.len() && hf[i] == row;
        lemma_widest(hf, i);
    } else {
        let i = choose|i: int| 0 <= i < ollama.len() && ollama[i] == row;
        lemma_widest(ollama, i);
    }
}

} // verus!
