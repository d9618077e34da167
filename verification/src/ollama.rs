//! Identifiers of Ollama models, and where Ollama keeps them.
//!
//! Ollama keeps models as content-addressed GGUF blobs under `~/.ollama/models/`,
//! with a manifest beside them for each name and tag.
use crate::paths::{path_at, Bases, LocalPath, PathBase, PathView};
use crate::text::{contains_char, find_char, rfind_char, starts_with};
use vstd::prelude::*;
use vstd::string::*;

verus! {

/// `s` looks like the identifier of an Ollama model.
///
/// Ollama writes `name:tag`. A HuggingFace identifier always has a slash, and a local
/// path starts with a slash or a dot. A bare name could be anything, so it does not
/// count.
pub open spec fn ollama_id(s: Seq<char>) -> bool {
    &&& !"/"@.is_prefix_of(s)
    &&& !"."@.is_prefix_of(s)
    &&& s.contains(':')
    &&& !s.contains('/')
}

/// Whether `s` looks like the identifier of an Ollama model.
pub fn is_ollama_model_id(s: &str) -> (yes: bool)
    ensures
        yes == ollama_id(s@),
{
    !starts_with(s, "/") && !starts_with(s, ".") && contains_char(s, ':') && !contains_char(s, '/')
}

/// The name and the tag in `s`: what stands before and after its last colon. Without
/// a colon the tag is `latest`.
pub open spec fn name_and_tag(s: Seq<char>) -> (Seq<char>, Seq<char>) {
    match s.index_of_last(':') {
        Some(colon) => (s.take(colon), s.skip(colon + 1)),
        None => (s, "latest"@),
    }
}

/// A name and a tag as they are shown.
pub open spec fn display_of(name: Seq<char>, tag: Seq<char>) -> Seq<char> {
    name + ":"@ + tag
}

/// Splits `name:tag`. Without a tag, the tag is `latest`.
pub fn split_name_tag<'a>(s: &'a str) -> (parts: (&'a str, &'a str))
    ensures
        (parts.0@, parts.1@) == name_and_tag(s@),
{
    proof {
        s@.index_of_last_ensures(':');
    }
    match rfind_char(s, ':') {
        Some(colon) => {
            let len: usize = s.unicode_len();
            (s.substring_char(0, colon), s.substring_char(colon + 1, len))
        },
        None => (s, "latest"),
    }
}

/// Shows a name and a tag.
pub fn show_name_tag(name: &str, tag: &str) -> (shown: String)
    ensures
        shown@ == display_of(name@, tag@),
{
    let mut shown: String = name.to_owned();
    shown.append(":");
    shown.append(tag);
    shown
}

/// The name of the blob with the given digest: the digest with its first colon
/// turned into a hyphen.
pub open spec fn blob_name(digest: Seq<char>) -> Seq<char> {
    match digest.index_of_first(':') {
        Some(colon) => digest.update(colon, '-'),
        None => digest,
    }
}

/// `sha256:abc` becomes `sha256-abc`, the name of the blob on disk.
pub fn digest_to_filename(digest: &str) -> (name: String)
    ensures
        name@ == blob_name(digest@),
{
    proof {
        digest@.index_of_first_ensures(':');
        reveal_strlit("-");
    }
    match find_char(digest, ':') {
        Some(colon) => {
            let len: usize = digest.unicode_len();
            let mut name: String = digest.substring_char(0, colon).to_owned();
            name.append("-");
            name.append(digest.substring_char(colon + 1, len));
            assert(name@ =~= blob_name(digest@));
            name
        },
        None => digest.to_owned(),
    }
}

/// The root of the store: what `OLLAMA_MODELS` says, where it is set.
pub open spec fn models_dir(bases: Bases) -> PathView {
    if bases.ollama_models is Some {
        path_at(PathBase::OllamaModels)
    } else {
        path_at(PathBase::Home).join(".ollama"@).join("models"@)
    }
}

/// The root of the store.
pub fn ollama_models_dir(bases: Bases) -> (dir: LocalPath)
    ensures
        dir@ == models_dir(bases),
{
    if bases.ollama_models.is_some() {
        LocalPath::at(PathBase::OllamaModels)
    } else {
        LocalPath::at(PathBase::Home).join(".ollama").join("models")
    }
}

/// The directory of the blobs.
pub fn blobs_dir(bases: Bases) -> (dir: LocalPath)
    ensures
        dir@ == models_dir(bases).join("blobs"@),
{
    ollama_models_dir(bases).join("blobs")
}

/// The root of the manifests.
pub fn manifests_root(bases: Bases) -> (dir: LocalPath)
    ensures
        dir@ == models_dir(bases).join("manifests"@),
{
    ollama_models_dir(bases).join("manifests")
}

/// Where the blob with the given digest lies.
pub open spec fn blob_path(digest: Seq<char>, bases: Bases) -> PathView {
    models_dir(bases).join("blobs"@).join(blob_name(digest))
}

/// Where the metadata of the model `name_tag` is cached.
pub open spec fn cache_path(name_tag: Seq<char>) -> PathView {
    path_at(PathBase::Cache).join("ollama"@).join(name_and_tag(name_tag).0).join(
        name_and_tag(name_tag).1,
    )
}

/// Gives where the metadata of the model `name_tag` is cached.
pub fn metadata_cache_dir(name_tag: &str) -> (dir: LocalPath)
    ensures
        dir@ == cache_path(name_tag@),
{
    let (name, tag) = split_name_tag(name_tag);
    LocalPath::at(PathBase::Cache).join("ollama").join(name).join(tag)
}

} // verus!
