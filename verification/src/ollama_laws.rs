//! Laws of Ollama's identifiers and of its store.
use crate::hub::names_local;
use crate::manifest::{parsed, ManifestErrorView, ManifestRead, ModelView};
use crate::ollama::{
    blob_name, blob_path, cache_path, display_of, models_dir, name_and_tag, ollama_id,
};
use crate::paths::{path_at, Bases, PathBase, PathView};
use crate::store::{
    entry_is, first_entry, found, given_models, is_named, FileName, OllamaErrorView, OllamaStore,
    StoreEntry,
};
use crate::text::{same_char_ignoring_case, same_ignoring_case};
use vstd::prelude::*;
use vstd::string::*;

verus! {

/// What is split apart at a colon is `name:tag` again, and the tag has no colon.
/// Without a colon the whole is the name.
pub proof fn law_split_joins(s: Seq<char>)
    ensures
        s.contains(':') ==> display_of(name_and_tag(s).0, name_and_tag(s).1) == s,
        !s.contains(':') ==> name_and_tag(s) == (s, "latest"@),
        !name_and_tag(s).1.contains(':'),
{
    reveal_strlit(":");
    reveal_strlit("latest");
    s.index_of_last_ensures(':');
    let (name, tag) = name_and_tag(s);
    if let Some(colon) = s.index_of_last(':') {
        assert(display_of(name, tag) =~= s);
        if tag.contains(':') {
            let i = choose|i: int| 0 <= i < tag.len() && tag[i] == ':';
            assert(s[colon + 1 + i] == ':');
        }
    } else if tag.contains(':') {
        let i = choose|i: int| 0 <= i < tag.len() && tag[i] == ':';
        assert("latest"@[i] == ':');
        assert(i == 0 || i == 1 || i == 2 || i == 3 || i == 4 || i == 5);
    }
}

/// A name and a tag that are shown together are found again, where the tag has no
/// colon.
pub proof fn law_display_splits(name: Seq<char>, tag: Seq<char>)
    requires
        !tag.contains(':'),
    ensures
        name_and_tag(display_of(name, tag)) == (name, tag),
{
    reveal_strlit(":");
    let s = display_of(name, tag);
    s.index_of_last_ensures(':');
    assert(s[name.len() as int] == ':');
    assert(s.contains(':'));
    let colon = s.index_of_last(':')->0;
    if colon > name.len() {
        assert(tag[colon - name.len() - 1] == ':');
    }
    assert(s.take(colon) =~= name);
    assert(s.skip(colon + 1) =~= tag);
}

/// Leaving the tag out is asking for the tag `latest`.
pub proof fn law_latest_is_default(name: Seq<char>)
    requires
        !name.contains(':'),
    ensures
        name_and_tag(name) == name_and_tag(display_of(name, "latest"@)),
{
    law_split_joins(name);
    law_display_splits(name, "latest"@);
}

/// A HuggingFace identifier is never taken for one of Ollama.
pub proof fn law_hf_id_is_not_ollama(org: Seq<char>, name: Seq<char>)
    ensures
        !ollama_id(org + "/"@ + name),
{
    reveal_strlit("/");
    assert((org + "/"@ + name)[org.len() as int] == '/');
}

/// What is written as a local path is never taken for an identifier of Ollama: a path
/// from the root, one from the directory at hand, or one from the directory above.
pub proof fn law_path_is_not_ollama(s: Seq<char>)
    ensures
        "/"@.is_prefix_of(s) ==> !ollama_id(s),
        names_local(s, false, false) ==> !ollama_id(s),
{
    reveal_strlit(".");
    reveal_strlit("./");
    reveal_strlit("../");
    if "./"@.is_prefix_of(s) {
        assert(s.subrange(0, 2)[0] == '.');
        assert(s.subrange(0, 1) =~= "."@);
    }
    if "../"@.is_prefix_of(s) {
        assert(s.subrange(0, 3)[0] == '.');
        assert(s.subrange(0, 1) =~= "."@);
    }
}

/// A bare name is never taken for an identifier of Ollama.
pub proof fn law_bare_name_is_not_ollama(s: Seq<char>)
    requires
        !s.contains(':'),
    ensures
        !ollama_id(s),
{
}

/// Every `name:tag` is recognised: only a slash anywhere, or a dot at the very beginning,
/// stands against it. Dots inside, as in `qwen2.5:7b`, do not.
pub proof fn law_name_tag_is_ollama(name: Seq<char>, tag: Seq<char>)
    requires
        !name.contains('/'),
        !tag.contains('/'),
        name.len() > 0 ==> name[0] != '.',
    ensures
        ollama_id(name + ":"@ + tag),
{
    reveal_strlit(":");
    reveal_strlit("/");
    reveal_strlit(".");
    let s = name + ":"@ + tag;
    assert(s[name.len() as int] == ':');
    assert forall|i: int| 0 <= i < s.len() implies s[i] != '/' by {
        if i < name.len() {
            assert(s[i] == name[i]);
        } else if i > name.len() {
            assert(s[i] == tag[i - name.len() - 1]);
        }
    }
    assert(s[0] != '.' && s[0] != '/');
    if "/"@.is_prefix_of(s) {
        assert(s.subrange(0, 1)[0] == '/');
    }
    if "."@.is_prefix_of(s) {
        assert(s.subrange(0, 1)[0] == '.');
    }
}

/// What has a slash, begins with a dot or has no colon is not recognised.
pub proof fn law_others_are_not_ollama(s: Seq<char>)
    ensures
        s.contains('/') ==> !ollama_id(s),
        s.len() > 0 && s[0] == '.' ==> !ollama_id(s),
        !s.contains(':') ==> !ollama_id(s),
{
    reveal_strlit(".");
    if s.len() > 0 && s[0] == '.' {
        assert(s.subrange(0, 1) =~= "."@);
    }
}

/// A text is split at its last colon, and without one it has the tag `latest`.
pub proof fn law_splits_at_last_colon(name: Seq<char>, tag: Seq<char>)
    ensures
        !tag.contains(':') ==> name_and_tag(name + ":"@ + tag) == (name, tag),
        !name.contains(':') ==> name_and_tag(name) == (name, "latest"@),
        display_of(name, tag) == name + ":"@ + tag,
{
    law_split_joins(name);
    if !tag.contains(':') {
        law_display_splits(name, tag);
    }
}

/// The root of the store, the manifests and the blobs: where `OLLAMA_MODELS` says, else
/// in `.ollama/models` under the home directory.
pub proof fn law_store_directories(bases: Bases)
    ensures
        bases.ollama_models is Some ==> models_dir(bases) == (PathView {
            base: PathBase::OllamaModels,
            from_here: false,
            parts: Seq::empty(),
        }),
        bases.ollama_models is None ==> models_dir(bases) == (PathView {
            base: PathBase::Home,
            from_here: false,
            parts: seq![".ollama"@, "models"@],
        }),
{
    assert(path_at(PathBase::Home).join(".ollama"@).join("models"@).parts =~= seq![
        ".ollama"@,
        "models"@,
    ]);
}

/// The metadata of `name:tag` is cached under `ollama`, the name and the tag.
pub proof fn law_cache_path(name: Seq<char>, tag: Seq<char>)
    requires
        !tag.contains(':'),
    ensures
        cache_path(name + ":"@ + tag) == (PathView {
            base: PathBase::Cache,
            from_here: false,
            parts: seq!["ollama"@, name, tag],
        }),
        !name.contains(':') ==> cache_path(name) == (PathView {
            base: PathBase::Cache,
            from_here: false,
            parts: seq!["ollama"@, name, "latest"@],
        }),
{
    law_splits_at_last_colon(name, tag);
    assert(cache_path(name + ":"@ + tag).parts =~= seq!["ollama"@, name, tag]);
    if !name.contains(':') {
        assert(cache_path(name).parts =~= seq!["ollama"@, name, "latest"@]);
    }
}

/// The blob of a digest `algorithm:hash` lies in `blobs` under the root of the store, and
/// its file is `algorithm-hash` in full. A digest without a colon is the file's name.
pub proof fn law_blob_path(algorithm: Seq<char>, hash: Seq<char>, bases: Bases)
    requires
        !algorithm.contains(':'),
    ensures
        bases.ollama_models is Some ==> blob_path(algorithm + ":"@ + hash, bases) == (PathView {
            base: PathBase::OllamaModels,
            from_here: false,
            parts: seq!["blobs"@, algorithm + "-"@ + hash],
        }),
        bases.ollama_models is None ==> blob_path(algorithm + ":"@ + hash, bases) == (PathView {
            base: PathBase::Home,
            from_here: false,
            parts: seq![".ollama"@, "models"@, "blobs"@, algorithm + "-"@ + hash],
        }),
        blob_path(algorithm, bases).parts.last() == algorithm,
        blob_path(algorithm, bases).parts.drop_last() == blob_path(
            algorithm + ":"@ + hash,
            bases,
        ).parts.drop_last(),
{
    law_blob_name(algorithm, hash);
    law_store_directories(bases);
    algorithm.index_of_first_ensures(':');
    let path = blob_path(algorithm + ":"@ + hash, bases);
    let name = algorithm + "-"@ + hash;
    if bases.ollama_models is Some {
        assert(path.parts =~= seq!["blobs"@, name]);
    } else {
        assert(path.parts =~= seq![".ollama"@, "models"@, "blobs"@, name]);
    }
    assert(blob_path(algorithm, bases).parts.drop_last() =~= path.parts.drop_last());
}

/// Different digests lead to different paths, where they share the algorithm or no
/// algorithm has a hyphen by which it could be taken for another.
pub proof fn law_blob_paths_differ(
    algorithm1: Seq<char>,
    hash1: Seq<char>,
    algorithm2: Seq<char>,
    hash2: Seq<char>,
    bases: Bases,
)
    requires
        !algorithm1.contains(':'),
        !algorithm2.contains(':'),
        algorithm1 == algorithm2 || (!algorithm1.contains('-') && !algorithm2.contains('-')),
        algorithm1 != algorithm2 || hash1 != hash2,
    ensures
        blob_path(algorithm1 + ":"@ + hash1, bases) != blob_path(algorithm2 + ":"@ + hash2, bases),
{
    reveal_strlit("-");
    law_blob_path(algorithm1, hash1, bases);
    law_blob_path(algorithm2, hash2, bases);
    let name1 = algorithm1 + "-"@ + hash1;
    let name2 = algorithm2 + "-"@ + hash2;
    if name1 == name2 {
        let n1 = algorithm1.len() as int;
        let n2 = algorithm2.len() as int;
        assert(name1[n1] == '-');
        assert(name2[n2] == '-');
        if n1 < n2 {
            assert(name2[n1] == algorithm2[n1]);
        } else if n2 < n1 {
            assert(name1[n2] == algorithm1[n2]);
        }
        assert(n1 == n2);
        assert(algorithm1 =~= name1.take(n1));
        assert(algorithm2 =~= name2.take(n1));
        assert(hash1 =~= name1.skip(n1 + 1));
        assert(hash2 =~= name2.skip(n1 + 1));
    }
    let path1 = blob_path(algorithm1 + ":"@ + hash1, bases);
    let path2 = blob_path(algorithm2 + ":"@ + hash2, bases);
    assert(path1.parts.last() == name1);
    assert(path2.parts.last() == name2);
}

/// A digest `algorithm:hash` is the blob `algorithm-hash`.
pub proof fn law_blob_name(algorithm: Seq<char>, hash: Seq<char>)
    requires
        !algorithm.contains(':'),
    ensures
        blob_name(algorithm + ":"@ + hash) == algorithm + "-"@ + hash,
{
    reveal_strlit(":");
    reveal_strlit("-");
    let digest = algorithm + ":"@ + hash;
    digest.index_of_first_ensures(':');
    assert(digest[algorithm.len() as int] == ':');
    assert(digest.contains(':'));
    let colon = digest.index_of_first(':')->0;
    if colon < algorithm.len() {
        assert(algorithm[colon] == ':');
    }
    assert(digest.update(colon, '-') =~= algorithm + "-"@ + hash);
}

/// Different hashes of one algorithm have different blobs.
pub proof fn law_blobs_differ(algorithm: Seq<char>, hash1: Seq<char>, hash2: Seq<char>)
    requires
        !algorithm.contains(':'),
        hash1 != hash2,
    ensures
        blob_name(algorithm + ":"@ + hash1) != blob_name(algorithm + ":"@ + hash2),
{
    law_blob_name(algorithm, hash1);
    law_blob_name(algorithm, hash2);
    let name1 = algorithm + "-"@ + hash1;
    let name2 = algorithm + "-"@ + hash2;
    let start = (algorithm + "-"@).len() as int;
    assert(name1.skip(start) =~= hash1);
    assert(name2.skip(start) =~= hash2);
}

/// A text is the same as itself, but for case.
proof fn lemma_same_ignoring_case_reflexive(a: Seq<char>)
    ensures
        same_ignoring_case(a, a),
{
}

/// Two texts that differ only in case are named by the same files.
proof fn lemma_named_alike(file: FileName, a: Seq<char>, b: Seq<char>)
    requires
        same_ignoring_case(a, b),
    ensures
        is_named(file, a) == is_named(file, b),
{
    let f = file.text@;
    if same_ignoring_case(f, a) {
        assert forall|i: int| 0 <= i < f.len() implies same_char_ignoring_case(
            #[trigger] f[i],
            b[i],
        ) by {
            lemma_same_char_transitive(f[i], a[i], b[i]);
        }
    }
    if same_ignoring_case(f, b) {
        assert forall|i: int| 0 <= i < f.len() implies same_char_ignoring_case(
            #[trigger] f[i],
            a[i],
        ) by {
            assert(same_char_ignoring_case(a[i], b[i]));
            lemma_same_char_transitive(f[i], b[i], a[i]);
        }
    }
}

/// Being the same but for case carries over from character to character.
proof fn lemma_same_char_transitive(a: char, b: char, c: char)
    requires
        same_char_ignoring_case(a, b),
        same_char_ignoring_case(b, c),
    ensures
        same_char_ignoring_case(a, c),
{
}

/// Texts that are named alike have the same first entry.
proof fn lemma_first_entry_alike(
    entries: Seq<StoreEntry>,
    name1: Seq<char>,
    tag1: Seq<char>,
    name2: Seq<char>,
    tag2: Seq<char>,
)
    requires
        same_ignoring_case(name1, name2),
        same_ignoring_case(tag1, tag2),
    ensures
        first_entry(entries, name1, tag1) == first_entry(entries, name2, tag2),
    decreases entries.len(),
{
    if entries.len() > 0 {
        lemma_named_alike(entries[0].name, name1, name2);
        lemma_named_alike(entries[0].tag, tag1, tag2);
        lemma_first_entry_alike(entries.drop_first(), name1, tag1, name2, tag2);
    }
}

/// Finding a model does not depend on the case of ASCII letters: requests that differ
/// only in case lead to the same entry of the store.
pub proof fn law_find_ignores_case(entries: Seq<StoreEntry>, a: Seq<char>, b: Seq<char>)
    requires
        same_ignoring_case(a, b),
    ensures
        first_entry(entries, name_and_tag(a).0, name_and_tag(a).1) == first_entry(
            entries,
            name_and_tag(b).0,
            name_and_tag(b).1,
        ),
{
    a.index_of_last_ensures(':');
    b.index_of_last_ensures(':');
    assert forall|i: int| 0 <= i < a.len() implies (a[i] == ':' <==> b[i] == ':') by {
        assert(same_char_ignoring_case(a[i], b[i]));
    }
    match (a.index_of_last(':'), b.index_of_last(':')) {
        (Some(i), Some(j)) => {
            assert(b[i] == ':');
            assert(a[j] == ':');
            assert(i == j);
        },
        (Some(i), None) => {
            assert(b[i] == ':');
        },
        (None, Some(j)) => {
            assert(a[j] == ':');
        },
        (None, None) => {
            lemma_same_ignoring_case_reflexive("latest"@);
        },
    }
    let (name1, tag1) = name_and_tag(a);
    let (name2, tag2) = name_and_tag(b);
    assert(same_ignoring_case(name1, name2));
    assert(same_ignoring_case(tag1, tag2));
    lemma_first_entry_alike(entries, name1, tag1, name2, tag2);
}

/// The first entry is missed only where no entry fits.
proof fn lemma_first_entry_some(
    entries: Seq<StoreEntry>,
    name: Seq<char>,
    tag: Seq<char>,
    i: int,
)
    requires
        0 <= i < entries.len(),
        entry_is(entries[i], name, tag),
    ensures
        first_entry(entries, name, tag) is Some,
        (forall|j: int| 0 <= j < i ==> !entry_is(#[trigger] entries[j], name, tag))
            ==> first_entry(entries, name, tag) == Some(entries[i]),
    decreases entries.len(),
{
    if !entry_is(entries[0], name, tag) {
        let rest = entries.drop_first();
        assert(rest[i - 1] == entries[i]);
        lemma_first_entry_some(rest, name, tag, i - 1);
        if forall|j: int| 0 <= j < i ==> !entry_is(#[trigger] entries[j], name, tag) {
            assert forall|j: int| 0 <= j < i - 1 implies !entry_is(
                #[trigger] rest[j],
                name,
                tag,
            ) by {
                assert(rest[j] == entries[j + 1]);
            }
        }
    } else if i > 0 {
        assert(entry_is(entries[0], name, tag));
    }
}

/// What the store shows can be asked for: asking for an entry as it is shown reaches
/// an entry, and reaches that one where no entry before it is named alike.
pub proof fn law_shown_is_found(store: OllamaStore, i: int)
    requires
        store.exists,
        0 <= i < store.entries@.len(),
        store.entries@[i].name.is_unicode,
        store.entries@[i].tag.is_unicode,
        !store.entries@[i].tag.text@.contains(':'),
    ensures
        ({
            let entry = store.entries@[i];
            let name = entry.name.text@;
            let tag = entry.tag.text@;
            let shown = display_of(name, tag);
            &&& !(found(store, shown) matches Err(OllamaErrorView::StoreMissing { .. }))
            &&& !(found(store, shown) matches Err(OllamaErrorView::NotFound { .. }))
            &&& (forall|j: int| 0 <= j < i ==> !entry_is(#[trigger] store.entries@[j], name, tag))
                ==> match parsed(entry.manifest, shown, store.bases) {
                Ok(model) => found(store, shown) == Ok::<_, OllamaErrorView>(model),
                Err(cause) => found(store, shown) == Err::<ModelView, _>(
                    OllamaErrorView::Manifest { name_tag: shown, cause },
                ),
            }
        }),
{
    let entry = store.entries@[i];
    law_display_splits(entry.name.text@, entry.tag.text@);
    lemma_same_ignoring_case_reflexive(entry.name.text@);
    lemma_same_ignoring_case_reflexive(entry.tag.text@);
    lemma_first_entry_some(store.entries@, entry.name.text@, entry.tag.text@, i);
}

/// An entry at the end is reached only where no entry before it fits.
proof fn lemma_first_entry_push(
    entries: Seq<StoreEntry>,
    last: StoreEntry,
    name: Seq<char>,
    tag: Seq<char>,
)
    ensures
        first_entry(entries.push(last), name, tag) == match first_entry(entries, name, tag) {
            Some(entry) => Some(entry),
            None => if entry_is(last, name, tag) {
                Some(last)
            } else {
                None
            },
        },
    decreases entries.len(),
{
    let longer = entries.push(last);
    if entries.len() == 0 {
        assert(longer[0] == last);
        assert(first_entry(longer.drop_first(), name, tag) is None);
    } else {
        assert(longer[0] == entries[0]);
        assert(longer.drop_first() =~= entries.drop_first().push(last));
        lemma_first_entry_push(entries.drop_first(), last, name, tag);
    }
}

/// Only the entries of a model matter for finding it: leaving all others out gives the
/// same entry.
pub proof fn law_other_entries_do_not_matter(
    entries: Seq<StoreEntry>,
    name: Seq<char>,
    tag: Seq<char>,
)
    ensures
        first_entry(entries.filter(|entry: StoreEntry| entry_is(entry, name, tag)), name, tag)
            == first_entry(entries, name, tag),
    decreases entries.len(),
{
    let fits = |entry: StoreEntry| entry_is(entry, name, tag);
    reveal(Seq::filter);
    if entries.len() > 0 {
        let init = entries.drop_last();
        law_other_entries_do_not_matter(init, name, tag);
        lemma_first_entry_push(init, entries.last(), name, tag);
        lemma_first_entry_push(init.filter(fits), entries.last(), name, tag);
        assert(entries =~= init.push(entries.last()));
    }
}

/// What an entry gives when the store is listed.
pub open spec fn gives(entry: StoreEntry, bases: Bases, model: ModelView) -> bool {
    parsed(entry.manifest, display_of(entry.name.text@, entry.tag.text@), bases) == Ok::<
        _,
        ManifestErrorView,
    >(model)
}

/// The blob of every model that a manifest gives lies at an absolute path, however the
/// home directory and `OLLAMA_MODELS` are written.
pub proof fn law_blob_path_absolute(
    read: ManifestRead,
    display_name: Seq<char>,
    bases: Bases,
    model: ModelView,
)
    requires
        parsed(read, display_name, bases) == Ok::<_, ManifestErrorView>(model),
    ensures
        model.gguf_path.is_absolute(bases),
{
}

/// The store lists the models that its entries give, and no others.
pub proof fn law_lists_what_entries_give(
    entries: Seq<StoreEntry>,
    bases: Bases,
    model: ModelView,
)
    ensures
        given_models(entries, bases).contains(model) <==> exists|i: int|
            0 <= i < entries.len() && gives(#[trigger] entries[i], bases, model),
    decreases entries.len(),
{
    let models = given_models(entries, bases);
    if entries.len() > 0 {
        let init = entries.drop_last();
        let before = given_models(init, bases);
        law_lists_what_entries_give(init, bases, model);
        if models.contains(model) {
            let k = choose|k: int| 0 <= k < models.len() && models[k] == model;
            if k < before.len() {
                assert(before[k] == model);
                let i = choose|i: int|
                    0 <= i < init.len() && gives(#[trigger] init[i], bases, model);
                assert(entries[i] == init[i]);
            } else {
                assert(gives(entries[entries.len() - 1], bases, model));
            }
        }
        if exists|i: int|
            0 <= i < entries.len() && gives(#[trigger] entries[i], bases, model) {
            let i = choose|i: int|
                0 <= i < entries.len() && gives(#[trigger] entries[i], bases, model);
            if i < init.len() {
                assert(gives(init[i], bases, model));
                let k = choose|k: int| 0 <= k < before.len() && before[k] == model;
                assert(models[k] == model);
            } else {
                assert(models[models.len() - 1] == model);
            }
        }
    }
}

/// The blob of every model that the store lists lies at an absolute path.
pub proof fn law_listed_paths_absolute(entries: Seq<StoreEntry>, bases: Bases, model: ModelView)
    requires
        given_models(entries, bases).contains(model),
    ensures
        model.gguf_path.is_absolute(bases),
{
    law_lists_what_entries_give(entries, bases, model);
    let i = choose|i: int| 0 <= i < entries.len() && gives(#[trigger] entries[i], bases, model);
    let entry = entries[i];
    let shown = display_of(entry.name.text@, entry.tag.text@);
    law_blob_path_absolute(entry.manifest, shown, bases, model);
}

} // verus!
