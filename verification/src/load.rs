//! What has to be fetched for an Ollama model before it can be loaded.
use crate::manifest::OllamaModel;
use crate::ollama::{cache_path, metadata_cache_dir};
use crate::paths::LocalPath;
use crate::resolve::{
    resolution, resolve_hf_model_id, ResolveError, ResolveErrorView, ResolveInput,
};
use vstd::prelude::*;
use vstd::string::*;

verus! {

/// Where the parts of a model come from.
#[derive(Debug)]
pub struct LoadPlan {
    /// The HuggingFace model whose metadata is needed.
    pub hf_id: String,
    /// Where that metadata is cached.
    pub cache_dir: LocalPath,
    /// Where the weights lie.
    pub gguf: LocalPath,
}

/// Decides what is fetched for the model that was found under `name_tag`: the
/// metadata of its HuggingFace model, into a cache of its own. The weights are those
/// of its blob.
pub fn plan_load(name_tag: &str, model: OllamaModel, input: &ResolveInput) -> (plan: Result<
    LoadPlan,
    ResolveError,
>)
    ensures
        match plan {
            Ok(p) => {
                &&& resolution(model@, *input) == Ok::<_, ResolveErrorView>(p.hf_id@)
                &&& p.cache_dir@ == cache_path(name_tag@)
                &&& p.gguf@ == model@.gguf_path
            },
            Err(error) => resolution(model@, *input) == Err::<Seq<char>, _>(error@),
        },
{
    match resolve_hf_model_id(&model, input) {
        Ok(hf_id) => Ok(
            LoadPlan { hf_id, cache_dir: metadata_cache_dir(name_tag), gguf: model.gguf_path },
        ),
        Err(error) => Err(error),
    }
}

} // verus!
