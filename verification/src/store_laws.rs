//! Laws of the models that manifests describe and that the store gives, over what was
//! read.
use crate::manifest::{
    model_layer, parsed, Blobs, ManifestError, ManifestErrorView, ManifestLayer, ManifestRead,
    ModelView, OllamaManifest, OllamaModel,
};
use crate::ollama::blob_path;
use crate::ollama_laws::{
    gives, law_blob_path, law_latest_is_default, law_lists_what_entries_give,
    law_splits_at_last_colon,
};
use crate::paths::{Bases, PathBase, Written};
use crate::sorting::{arranged, law_sorted, sorts};
use crate::store::{
    display_names, entry_is, first_entry, found, given_models, is_named, model_views, stored_models,
    OllamaError, OllamaErrorView, OllamaStore, StoreEntry,
};
use crate::text::same_ignoring_case;
use vstd::prelude::*;
use vstd::string::*;

verus! {

/// The view of a model holds all of it, each field as it is.
pub proof fn law_model_view(model: OllamaModel)
    ensures
        model@.display_name == model.display_name@,
        model@.family == model.family@,
        model@.model_type == model.model_type@,
        model@.quantization == model.quantization@,
        model@.gguf_path == model.gguf_path@,
        model@.size_bytes == model.size_bytes,
{
}

/// The views of several models are the view of each, in their order.
pub proof fn law_model_views(models: Seq<OllamaModel>)
    ensures
        model_views(models).len() == models.len(),
        forall|i: int| 0 <= i < models.len() ==> #[trigger] model_views(models)[i] == models[i]@,
{
}

/// The view of an error holds all of it.
pub proof fn law_error_views(path: String, cause: String, why: ManifestError)
    ensures
        (ManifestError::Unreadable { path, cause })@ == (ManifestErrorView::Unreadable {
            path: path@,
            cause: cause@,
        }),
        (ManifestError::Invalid { cause })@ == (ManifestErrorView::Invalid { cause: cause@ }),
        ManifestError::NoModelLayer@ == ManifestErrorView::NoModelLayer,
        (ManifestError::BlobMissing { blob: path, display_name: cause })@
            == (ManifestErrorView::BlobMissing { blob: path@, display_name: cause@ }),
        (OllamaError::StoreMissing { root: path })@ == (OllamaErrorView::StoreMissing {
            root: path@,
        }),
        (OllamaError::NotFound { name_tag: path })@ == (OllamaErrorView::NotFound {
            name_tag: path@,
        }),
        (OllamaError::Manifest { name_tag: path, cause: why })@ == (OllamaErrorView::Manifest {
            name_tag: path@,
            cause: why@,
        }),
{
}

/// What is said of an error names what it is about.
pub proof fn law_error_messages(a: Seq<char>, b: Seq<char>, why: ManifestErrorView)
    ensures
        (ManifestErrorView::Unreadable { path: a, cause: b }).message() == "Cannot read "@ + a,
        (ManifestErrorView::Invalid { cause: b }).message() == "Invalid Ollama manifest JSON"@,
        ManifestErrorView::NoModelLayer.message() == "No model layer in Ollama manifest"@,
        (ManifestErrorView::BlobMissing { blob: a, display_name: b }).message()
            == "GGUF blob missing: "@ + a + " — try `ollama pull "@ + b + "`"@,
        (OllamaErrorView::StoreMissing { root: a }).message()
            == "Ollama model directory not found at "@ + a + " — is Ollama installed?"@,
        (OllamaErrorView::NotFound { name_tag: a }).message() == "Ollama model '"@ + a
            + "' not found locally.\nRun `ollama pull "@ + a + "` to download it first."@,
        (OllamaErrorView::Manifest { name_tag: a, cause: why }).message()
            == "Failed to parse manifest for "@ + a,
{
}

/// The first layer of the model's kind is the model's layer.
proof fn lemma_model_layer_at(layers: Seq<ManifestLayer>, k: int)
    requires
        0 <= k < layers.len(),
        layers[k].media_type@ == "application/vnd.ollama.image.model"@,
        forall|j: int|
            0 <= j < k ==> (#[trigger] layers[j]).media_type@
                != "application/vnd.ollama.image.model"@,
    ensures
        model_layer(layers) == Some(layers[k]),
    decreases layers.len(),
{
    if k > 0 {
        let rest = layers.drop_first();
        assert(layers[0].media_type@ != "application/vnd.ollama.image.model"@);
        assert forall|j: int| 0 <= j < k - 1 implies (#[trigger] rest[j]).media_type@
            != "application/vnd.ollama.image.model"@ by {
            assert(rest[j] == layers[j + 1]);
        }
        assert(rest[k - 1] == layers[k]);
        lemma_model_layer_at(rest, k - 1);
    }
}

/// Without a layer of the model's kind there is no model's layer.
proof fn lemma_no_model_layer(layers: Seq<ManifestLayer>)
    requires
        forall|j: int|
            0 <= j < layers.len() ==> (#[trigger] layers[j]).media_type@
                != "application/vnd.ollama.image.model"@,
    ensures
        model_layer(layers) is None,
    decreases layers.len(),
{
    if layers.len() > 0 {
        let rest = layers.drop_first();
        assert(layers[0].media_type@ != "application/vnd.ollama.image.model"@);
        assert forall|j: int| 0 <= j < rest.len() implies (#[trigger] rest[j]).media_type@
            != "application/vnd.ollama.image.model"@ by {
            assert(rest[j] == layers[j + 1]);
        }
        lemma_no_model_layer(rest);
    }
}

/// A manifest describes the model of its first layer of the model's kind: the size and the
/// blob are that layer's. The rest is as the configuration says, in full, and `unknown`
/// or `?` where it says nothing.
pub proof fn law_manifest_describes(
    manifest: OllamaManifest,
    blobs: Blobs,
    k: int,
    display_name: Seq<char>,
    bases: Bases,
)
    requires
        0 <= k < manifest.layers@.len(),
        manifest.layers@[k].media_type@ == "application/vnd.ollama.image.model"@,
        forall|j: int|
            0 <= j < k ==> (#[trigger] manifest.layers@[j]).media_type@
                != "application/vnd.ollama.image.model"@,
        blobs.gguf_exists,
    ensures
        ({
            let given = parsed((ManifestRead::Parsed { manifest, blobs }), display_name, bases);
            let model = given->Ok_0;
            &&& given is Ok
            &&& model.display_name == display_name
            &&& model.size_bytes == manifest.layers@[k].size
            &&& model.gguf_path == blob_path(manifest.layers@[k].digest@, bases).anchored(bases)
            &&& blobs.config is None ==> model.family == "unknown"@ && model.model_type == "?"@
                && model.quantization == "?"@
            &&& blobs.config matches Some(config) ==> {
                &&& config.model_family matches Some(family) ==> model.family == family@
                &&& config.model_family is None ==> match config.model_families {
                    Some(families) => model.family == if families@.len() > 0 {
                        families@[0]@
                    } else {
                        "unknown"@
                    },
                    None => model.family == "unknown"@,
                }
                &&& config.model_type matches Some(size) ==> model.model_type == size@
                &&& config.model_type is None ==> model.model_type == "?"@
                &&& config.file_type matches Some(label) ==> model.quantization == label@
                &&& config.file_type is None ==> model.quantization == "?"@
            }
        }),
{
    lemma_model_layer_at(manifest.layers@, k);
}

/// The path of a described model ends in `blobs` and the blob's file, which is the digest
/// `algorithm:hash` as `algorithm-hash` in full. It starts where the store is, from the
/// working directory where that is not written as an absolute path.
pub proof fn law_described_path(
    manifest: OllamaManifest,
    blobs: Blobs,
    k: int,
    display_name: Seq<char>,
    bases: Bases,
    algorithm: Seq<char>,
    hash: Seq<char>,
)
    requires
        0 <= k < manifest.layers@.len(),
        manifest.layers@[k].media_type@ == "application/vnd.ollama.image.model"@,
        forall|j: int|
            0 <= j < k ==> (#[trigger] manifest.layers@[j]).media_type@
                != "application/vnd.ollama.image.model"@,
        blobs.gguf_exists,
        manifest.layers@[k].digest@ == algorithm + ":"@ + hash,
        !algorithm.contains(':'),
    ensures
        ({
            let given = parsed((ManifestRead::Parsed { manifest, blobs }), display_name, bases);
            let path = given->Ok_0.gguf_path;
            &&& given is Ok
            &&& bases.ollama_models is None ==> {
                &&& path.base == PathBase::Home
                &&& path.parts == seq![".ollama"@, "models"@, "blobs"@, algorithm + "-"@ + hash]
                &&& path.from_here == (bases.home == Written::Relative)
            }
            &&& bases.ollama_models matches Some(written) ==> {
                &&& path.base == PathBase::OllamaModels
                &&& path.parts == seq!["blobs"@, algorithm + "-"@ + hash]
                &&& path.from_here == (written == Written::Relative)
            }
        }),
{
    law_manifest_describes(manifest, blobs, k, display_name, bases);
    law_blob_path(algorithm, hash, bases);
}

/// What stands against a model: an unreadable or invalid manifest, one that lists no
/// model, or a blob that is not there. Each is reported with its own cause.
pub proof fn law_manifest_fails(
    path: String,
    cause: String,
    manifest: OllamaManifest,
    blobs: Blobs,
    display_name: Seq<char>,
    bases: Bases,
)
    ensures
        parsed((ManifestRead::Unreadable { path, cause }), display_name, bases) == Err::<
            ModelView,
            _,
        >(ManifestErrorView::Unreadable { path: path@, cause: cause@ }),
        parsed((ManifestRead::Invalid { cause }), display_name, bases) == Err::<ModelView, _>(
            ManifestErrorView::Invalid { cause: cause@ },
        ),
        (forall|j: int|
            0 <= j < manifest.layers@.len() ==> (#[trigger] manifest.layers@[j]).media_type@
                != "application/vnd.ollama.image.model"@) ==> parsed(
            (ManifestRead::Parsed { manifest, blobs }),
            display_name,
            bases,
        ) == Err::<ModelView, _>(ManifestErrorView::NoModelLayer),
        (exists|j: int|
            0 <= j < manifest.layers@.len() && (#[trigger] manifest.layers@[j]).media_type@
                == "application/vnd.ollama.image.model"@) && !blobs.gguf_exists ==> parsed(
            (ManifestRead::Parsed { manifest, blobs }),
            display_name,
            bases,
        ) == Err::<ModelView, _>(
            ManifestErrorView::BlobMissing { blob: blobs.gguf_shown@, display_name },
        ),
{
    let layers = manifest.layers@;
    if forall|j: int|
        0 <= j < layers.len() ==> (#[trigger] layers[j]).media_type@
            != "application/vnd.ollama.image.model"@ {
        lemma_no_model_layer(layers);
    } else {
        let j = choose|j: int|
            0 <= j < layers.len() && (#[trigger] layers[j]).media_type@
                == "application/vnd.ollama.image.model"@;
        lemma_some_model_layer(layers, j);
    }
}

/// With a layer of the model's kind there is a model's layer.
proof fn lemma_some_model_layer(layers: Seq<ManifestLayer>, j: int)
    requires
        0 <= j < layers.len(),
        layers[j].media_type@ == "application/vnd.ollama.image.model"@,
    ensures
        model_layer(layers) is Some,
    decreases layers.len(),
{
    if layers[0].media_type@ != "application/vnd.ollama.image.model"@ {
        assert(layers.drop_first()[j - 1] == layers[j]);
        lemma_some_model_layer(layers.drop_first(), j - 1);
    }
}

/// An entry is that of a model where both its names are Unicode and are the model's name
/// and tag but for the case of ASCII letters.
pub proof fn law_entry_is(entry: StoreEntry, name: Seq<char>, tag: Seq<char>)
    ensures
        is_named(entry.name, name) <==> entry.name.is_unicode && same_ignoring_case(
            entry.name.text@,
            name,
        ),
        entry_is(entry, name, tag) <==> entry.name.is_unicode && entry.tag.is_unicode
            && same_ignoring_case(entry.name.text@, name) && same_ignoring_case(
            entry.tag.text@,
            tag,
        ),
{
}

/// The first entry that fits is reached.
proof fn lemma_first_entry_at(
    entries: Seq<StoreEntry>,
    name: Seq<char>,
    tag: Seq<char>,
    i: int,
)
    requires
        0 <= i < entries.len(),
        entry_is(entries[i], name, tag),
        forall|j: int| 0 <= j < i ==> !entry_is(#[trigger] entries[j], name, tag),
    ensures
        first_entry(entries, name, tag) == Some(entries[i]),
    decreases entries.len(),
{
    if i > 0 {
        let rest = entries.drop_first();
        assert(!entry_is(entries[0], name, tag));
        assert(rest[i - 1] == entries[i]);
        assert forall|j: int| 0 <= j < i - 1 implies !entry_is(#[trigger] rest[j], name, tag) by {
            assert(rest[j] == entries[j + 1]);
        }
        lemma_first_entry_at(rest, name, tag, i - 1);
    }
}

/// No entry is reached where none fits.
proof fn lemma_first_entry_none(entries: Seq<StoreEntry>, name: Seq<char>, tag: Seq<char>)
    requires
        forall|j: int| 0 <= j < entries.len() ==> !entry_is(#[trigger] entries[j], name, tag),
    ensures
        first_entry(entries, name, tag) is None,
    decreases entries.len(),
{
    if entries.len() > 0 {
        let rest = entries.drop_first();
        assert(!entry_is(entries[0], name, tag));
        assert forall|j: int| 0 <= j < rest.len() implies !entry_is(
            #[trigger] rest[j],
            name,
            tag,
        ) by {
            assert(rest[j] == entries[j + 1]);
        }
        lemma_first_entry_none(rest, name, tag);
    }
}

/// Asking for `name:tag` gives what the manifest of the first entry of that name and tag
/// gives, shown as `name:tag`. Only where no entry has that name and tag is the model not
/// found, and only where there is no store is the store missing.
pub proof fn law_finds_first_entry(store: OllamaStore, name: Seq<char>, tag: Seq<char>, i: int)
    requires
        !tag.contains(':'),
    ensures
        !store.exists ==> found(store, name + ":"@ + tag) == Err::<ModelView, _>(
            OllamaErrorView::StoreMissing { root: store.root@ },
        ),
        store.exists && (forall|j: int|
            0 <= j < store.entries@.len() ==> !entry_is(#[trigger] store.entries@[j], name, tag))
            ==> found(store, name + ":"@ + tag) == Err::<ModelView, _>(
            OllamaErrorView::NotFound { name_tag: name + ":"@ + tag },
        ),
        store.exists && 0 <= i < store.entries@.len() && entry_is(store.entries@[i], name, tag) && (
        forall|j: int| 0 <= j < i ==> !entry_is(#[trigger] store.entries@[j], name, tag))
            ==> match parsed(store.entries@[i].manifest, name + ":"@ + tag, store.bases) {
            Ok(model) => found(store, name + ":"@ + tag) == Ok::<_, OllamaErrorView>(model),
            Err(cause) => found(store, name + ":"@ + tag) == Err::<ModelView, _>(
                OllamaErrorView::Manifest { name_tag: name + ":"@ + tag, cause },
            ),
        },
{
    law_splits_at_last_colon(name, tag);
    let entries = store.entries@;
    if forall|j: int| 0 <= j < entries.len() ==> !entry_is(#[trigger] entries[j], name, tag) {
        lemma_first_entry_none(entries, name, tag);
    }
    if 0 <= i < entries.len() && entry_is(entries[i], name, tag) && (forall|j: int|
        0 <= j < i ==> !entry_is(#[trigger] entries[j], name, tag)) {
        lemma_first_entry_at(entries, name, tag, i);
    }
}

/// Asking for a name without a tag is asking for the tag `latest`, and what is not found
/// is reported as it was asked for.
pub proof fn law_finds_latest(store: OllamaStore, name: Seq<char>)
    requires
        !name.contains(':'),
    ensures
        match found(store, name + ":"@ + "latest"@) {
            Ok(model) => found(store, name) == Ok::<_, OllamaErrorView>(model),
            Err(OllamaErrorView::StoreMissing { root }) => found(store, name) == Err::<ModelView, _>(
                OllamaErrorView::StoreMissing { root },
            ),
            Err(OllamaErrorView::NotFound { .. }) => found(store, name) == Err::<ModelView, _>(
                OllamaErrorView::NotFound { name_tag: name },
            ),
            Err(OllamaErrorView::Manifest { cause, .. }) => found(store, name) == Err::<
                ModelView,
                _,
            >(OllamaErrorView::Manifest { name_tag: name, cause }),
        },
{
    law_latest_is_default(name);
    law_splits_at_last_colon(name, "latest"@);
}

/// A model that is found lies at the blob of its manifest's first model layer, named by
/// the whole digest, and has that layer's size.
pub proof fn law_found_path(
    store: OllamaStore,
    name: Seq<char>,
    tag: Seq<char>,
    i: int,
    manifest: OllamaManifest,
    blobs: Blobs,
    k: int,
    algorithm: Seq<char>,
    hash: Seq<char>,
)
    requires
        !tag.contains(':'),
        store.exists,
        0 <= i < store.entries@.len(),
        entry_is(store.entries@[i], name, tag),
        forall|j: int| 0 <= j < i ==> !entry_is(#[trigger] store.entries@[j], name, tag),
        store.entries@[i].manifest == (ManifestRead::Parsed { manifest, blobs }),
        0 <= k < manifest.layers@.len(),
        manifest.layers@[k].media_type@ == "application/vnd.ollama.image.model"@,
        forall|j: int|
            0 <= j < k ==> (#[trigger] manifest.layers@[j]).media_type@
                != "application/vnd.ollama.image.model"@,
        blobs.gguf_exists,
        manifest.layers@[k].digest@ == algorithm + ":"@ + hash,
        !algorithm.contains(':'),
    ensures
        ({
            let model = found(store, name + ":"@ + tag)->Ok_0;
            let parts = model.gguf_path.parts;
            &&& found(store, name + ":"@ + tag) is Ok
            &&& model.display_name == name + ":"@ + tag
            &&& model.size_bytes == manifest.layers@[k].size
            &&& parts.len() >= 2
            &&& parts[parts.len() - 1] == algorithm + "-"@ + hash
            &&& parts[parts.len() - 2] == "blobs"@
        }),
{
    law_finds_first_entry(store, name, tag, i);
    law_manifest_describes(manifest, blobs, k, name + ":"@ + tag, store.bases);
    law_described_path(manifest, blobs, k, name + ":"@ + tag, store.bases, algorithm, hash);
}

/// Each entry gives its own model or none, shown as `name:tag`, and the models of entries
/// come one after the other in the entries' order.
pub proof fn law_entries_give(before: Seq<StoreEntry>, entry: StoreEntry, bases: Bases)
    ensures
        given_models(Seq::empty(), bases).len() == 0,
        match parsed(entry.manifest, entry.name.text@ + ":"@ + entry.tag.text@, bases) {
            Ok(model) => given_models(before.push(entry), bases) == given_models(
                before,
                bases,
            ).push(model),
            Err(_) => given_models(before.push(entry), bases) == given_models(before, bases),
        },
{
    assert(before.push(entry).drop_last() =~= before);
}

/// The store lists what its entries give, and nothing where it is missing. Models are
/// sorted by the names they are shown under.
pub proof fn law_store_lists(store: OllamaStore, models: Seq<ModelView>)
    ensures
        store.exists ==> stored_models(store) == given_models(store.entries@, store.bases),
        !store.exists ==> stored_models(store).len() == 0,
        display_names(models).len() == models.len(),
        forall|i: int|
            0 <= i < models.len() ==> #[trigger] display_names(models)[i] == models[i].display_name,
{
}

/// Every model that an entry gives is in the list, whole, and every model in the list is
/// given whole by an entry.
pub proof fn law_list_is_complete(store: OllamaStore, order: Seq<int>, model: ModelView)
    requires
        store.exists,
        sorts(display_names(stored_models(store)), order),
    ensures
        arranged(stored_models(store), order).contains(model) <==> exists|i: int|
            0 <= i < store.entries@.len() && parsed(
                (#[trigger] store.entries@[i]).manifest,
                store.entries@[i].name.text@ + ":"@ + store.entries@[i].tag.text@,
                store.bases,
            ) == Ok::<_, ManifestErrorView>(model),
{
    let entries = store.entries@;
    law_sorted(stored_models(store), display_names(stored_models(store)), order);
    law_lists_what_entries_give(entries, store.bases, model);
    assert(arranged(stored_models(store), order).contains(model) <==> stored_models(store).contains(
        model,
    ));
    if stored_models(store).contains(model) {
        let i = choose|i: int|
            0 <= i < entries.len() && gives(
                #[trigger] entries[i],
                store.bases,
                model,
            );
        assert(gives(entries[i], store.bases, model));
    }
    if exists|i: int|
        0 <= i < entries.len() && parsed(
            (#[trigger] entries[i]).manifest,
            entries[i].name.text@ + ":"@ + entries[i].tag.text@,
            store.bases,
        ) == Ok::<_, ManifestErrorView>(model) {
        let i = choose|i: int|
            0 <= i < entries.len() && parsed(
                (#[trigger] entries[i]).manifest,
                entries[i].name.text@ + ":"@ + entries[i].tag.text@,
                store.bases,
            ) == Ok::<_, ManifestErrorView>(model);
        assert(gives(entries[i], store.bases, model));
    }
}

} // verus!
