//! The models in Ollama's local store.
use crate::manifest::{
    parse_manifest, parsed, ManifestError, ManifestErrorView, ManifestRead, ModelView, OllamaModel,
};
use crate::ollama::{display_of, name_and_tag, show_name_tag, split_name_tag};
use crate::paths::Bases;
use crate::sorting::{arranged, names_of, sort_by_name, sorts};
use crate::text::{eq_ignore_ascii_case, same_ignoring_case};
use vstd::prelude::*;
use vstd::string::*;

verus! {

/// A name in the file system.
#[derive(Debug)]
pub struct FileName {
    /// The name, with what is no Unicode in it replaced.
    pub text: String,
    /// Nothing had to be replaced.
    pub is_unicode: bool,
}

/// A manifest file in the store, under the directory of a name.
#[derive(Debug)]
pub struct StoreEntry {
    /// The directory's name.
    pub name: FileName,
    /// The file's name.
    pub tag: FileName,
    /// What came of reading the file.
    pub manifest: ManifestRead,
}

/// The store, as the disk holds it.
#[derive(Debug)]
pub struct OllamaStore {
    /// How the directories that paths start from were found.
    pub bases: Bases,
    /// The path of the manifests' root, for people to read.
    pub root: String,
    /// The manifests' root is there.
    pub exists: bool,
    /// The manifests, in the order of the walk through the registries, the
    /// namespaces, the names and the tags.
    pub entries: Vec<StoreEntry>,
}

/// Why a model was not found.
#[derive(Debug)]
pub enum OllamaError {
    /// The store is not there.
    StoreMissing {
        /// The path of the manifests' root.
        root: String,
    },
    /// The store has no such model.
    NotFound {
        /// What was asked for.
        name_tag: String,
    },
    /// The model's manifest gives no model.
    Manifest {
        /// What was asked for.
        name_tag: String,
        /// Why not.
        cause: ManifestError,
    },
}

/// The text of an [`OllamaError`].
pub enum OllamaErrorView {
    /// The store is not there.
    StoreMissing {
        /// The path of the manifests' root.
        root: Seq<char>,
    },
    /// The store has no such model.
    NotFound {
        /// What was asked for.
        name_tag: Seq<char>,
    },
    /// The model's manifest gives no model.
    Manifest {
        /// What was asked for.
        name_tag: Seq<char>,
        /// Why not.
        cause: ManifestErrorView,
    },
}

impl View for OllamaError {
    type V = OllamaErrorView;

    open spec fn view(&self) -> OllamaErrorView {
        match self {
            OllamaError::StoreMissing { root } => OllamaErrorView::StoreMissing { root: root@ },
            OllamaError::NotFound { name_tag } => OllamaErrorView::NotFound { name_tag: name_tag@ },
            OllamaError::Manifest { name_tag, cause } => OllamaErrorView::Manifest {
                name_tag: name_tag@,
                cause: cause@,
            },
        }
    }
}

impl OllamaErrorView {
    /// What is said of the error.
    pub open spec fn message(self) -> Seq<char> {
        match self {
            OllamaErrorView::StoreMissing { root } => "Ollama model directory not found at "@ + root
                + " — is Ollama installed?"@,
            OllamaErrorView::NotFound { name_tag } => "Ollama model '"@ + name_tag
                + "' not found locally.\nRun `ollama pull "@ + name_tag
                + "` to download it first."@,
            OllamaErrorView::Manifest { name_tag, .. } => "Failed to parse manifest for "@
                + name_tag,
        }
    }
}

impl OllamaError {
    /// What is said of the error.
    pub fn message(&self) -> (message: String)
        ensures
            message@ == self@.message(),
    {
        match self {
            OllamaError::StoreMissing { root } => {
                let mut message: String = "Ollama model directory not found at ".to_owned();
                message.append(root.as_str());
                message.append(" — is Ollama installed?");
                message
            },
            OllamaError::NotFound { name_tag } => {
                let mut message: String = "Ollama model '".to_owned();
                message.append(name_tag.as_str());
                message.append("' not found locally.\nRun `ollama pull ");
                message.append(name_tag.as_str());
                message.append("` to download it first.");
                message
            },
            OllamaError::Manifest { name_tag, .. } => {
                let mut message: String = "Failed to parse manifest for ".to_owned();
                message.append(name_tag.as_str());
                message
            },
        }
    }
}

/// The file name `file` is `text`, but for the case of ASCII letters.
pub open spec fn is_named(file: FileName, text: Seq<char>) -> bool {
    file.is_unicode && same_ignoring_case(file.text@, text)
}

/// The entry is that of the model `name` with the tag `tag`.
pub open spec fn entry_is(entry: StoreEntry, name: Seq<char>, tag: Seq<char>) -> bool {
    is_named(entry.name, name) && is_named(entry.tag, tag)
}

/// Whether the entry with the names `name` and `tag` is that of the model `name_tag`.
/// The manifests of other entries need not be read to find it.
pub fn is_entry_of(name: &FileName, tag: &FileName, name_tag: &str) -> (yes: bool)
    ensures
        yes == ({
            let (wanted_name, wanted_tag) = name_and_tag(name_tag@);
            is_named(*name, wanted_name) && is_named(*tag, wanted_tag)
        }),
{
    let (wanted_name, wanted_tag) = split_name_tag(name_tag);
    name.is_unicode && eq_ignore_ascii_case(name.text.as_str(), wanted_name) && tag.is_unicode
        && eq_ignore_ascii_case(tag.text.as_str(), wanted_tag)
}

/// The first entry of the model `name` with the tag `tag`.
pub open spec fn first_entry(
    entries: Seq<StoreEntry>,
    name: Seq<char>,
    tag: Seq<char>,
) -> Option<StoreEntry>
    decreases entries.len(),
{
    if entries.len() == 0 {
        None
    } else if entry_is(entries[0], name, tag) {
        Some(entries[0])
    } else {
        first_entry(entries.drop_first(), name, tag)
    }
}

/// What the store gives for `name_tag`: the model of its first entry, or why there is
/// none.
pub open spec fn found(store: OllamaStore, name_tag: Seq<char>) -> Result<
    ModelView,
    OllamaErrorView,
> {
    let (name, tag) = name_and_tag(name_tag);
    if !store.exists {
        Err(OllamaErrorView::StoreMissing { root: store.root@ })
    } else {
        match first_entry(store.entries@, name, tag) {
            None => Err(OllamaErrorView::NotFound { name_tag }),
            Some(entry) => match parsed(entry.manifest, display_of(name, tag), store.bases) {
                Ok(model) => Ok(model),
                Err(cause) => Err(OllamaErrorView::Manifest { name_tag, cause }),
            },
        }
    }
}

/// Finds a model by its `name:tag`.
pub fn find_ollama_model(name_tag: &str, store: OllamaStore) -> (model: Result<
    OllamaModel,
    OllamaError,
>)
    ensures
        match model {
            Ok(m) => found(store, name_tag@) == Ok::<_, OllamaErrorView>(m@),
            Err(e) => found(store, name_tag@) == Err::<ModelView, _>(e@),
        },
        model matches Ok(m) ==> m@.gguf_path.is_absolute(store.bases),
{
    let (name, tag) = split_name_tag(name_tag);
    if !store.exists {
        return Err(OllamaError::StoreMissing { root: store.root });
    }
    let bases: Bases = store.bases;
    let mut entries: Vec<StoreEntry> = store.entries;
    let ghost all = entries@;
    let mut i: usize = 0;
    assert(all.skip(0) =~= all);
    while i < entries.len()
        invariant
            store.exists,
            all == store.entries@,
            bases == store.bases,
            (name@, tag@) == name_and_tag(name_tag@),
            entries@ == all,
            i <= all.len(),
            first_entry(all, name@, tag@) == first_entry(all.skip(i as int), name@, tag@),
        decreases all.len() - i,
    {
        assert(all.skip(i as int).drop_first() =~= all.skip(i + 1));
        if is_entry_of(&entries[i].name, &entries[i].tag, name_tag) {
            let entry = entries.swap_remove(i);
            let display = show_name_tag(name, tag);
            return match parse_manifest(entry.manifest, display.as_str(), bases) {
                Ok(model) => Ok(model),
                Err(cause) => Err(OllamaError::Manifest { name_tag: name_tag.to_owned(), cause }),
            };
        }
        i = i + 1;
    }
    Err(OllamaError::NotFound { name_tag: name_tag.to_owned() })
}

/// The models that the entries give, in their order. An entry that gives none is
/// passed over.
pub open spec fn given_models(entries: Seq<StoreEntry>, bases: Bases) -> Seq<ModelView>
    decreases entries.len(),
{
    if entries.len() == 0 {
        Seq::empty()
    } else {
        let before = given_models(entries.drop_last(), bases);
        let last = entries.last();
        match parsed(last.manifest, display_of(last.name.text@, last.tag.text@), bases) {
            Ok(model) => before.push(model),
            Err(_) => before,
        }
    }
}

/// The names that models are shown under.
pub open spec fn display_names(models: Seq<ModelView>) -> Seq<Seq<char>> {
    Seq::new(models.len(), |i: int| models[i].display_name)
}

/// The text of models.
pub open spec fn model_views(models: Seq<OllamaModel>) -> Seq<ModelView> {
    Seq::new(models.len(), |i: int| models[i]@)
}

/// The models of the store, before they are sorted.
pub open spec fn stored_models(store: OllamaStore) -> Seq<ModelView> {
    if store.exists {
        given_models(store.entries@, store.bases)
    } else {
        Seq::empty()
    }
}

/// Lists the models of the store, by name.
pub fn list_ollama_models(store: OllamaStore) -> (listed: Result<Vec<OllamaModel>, OllamaError>)
    ensures
        listed matches Ok(models) && exists|order: Seq<int>| #[trigger]
            sorts(display_names(stored_models(store)), order) && model_views(models@) == arranged(
                stored_models(store),
                order,
            ),
{
    let mut models: Vec<OllamaModel> = Vec::new();
    let ghost all = store.entries@;
    assert(model_views(models@) =~= Seq::empty());
    if store.exists {
        let bases: Bases = store.bases;
        for entry in it: store.entries
            invariant
                it.seq() == all,
                model_views(models@) == given_models(all.take(it.index() as int), bases),
        {
            let display = show_name_tag(entry.name.text.as_str(), entry.tag.text.as_str());
            let ghost before = models@;
            proof {
                assert(all.take(it.index() as int + 1).drop_last() =~= all.take(it.index() as int));
            }
            match parse_manifest(entry.manifest, display.as_str(), bases) {
                Ok(model) => {
                    models.push(model);
                    assert(model_views(models@) =~= model_views(before).push(model@));
                },
                Err(_) => {},
            }
        }
        assert(all.take(all.len() as int) =~= all);
    }
    assert(model_views(models@) == stored_models(store));
    let sorted = sort_by_name(models);
    proof {
        assert(names_of(models@) =~= display_names(stored_models(store)));
        let order = choose|order: Seq<int>| #[trigger]
            sorts(names_of(models@), order) && sorted@ == arranged(models@, order);
        assert(model_views(sorted@) =~= arranged(stored_models(store), order));
    }
    Ok(sorted)
}

} // verus!
