//! Manifests of Ollama models, and the models that they describe.
use crate::ollama::{blob_path, blobs_dir, digest_to_filename};
use crate::paths::{Bases, LocalPath, PathView};
use crate::sorting::Named;
use crate::text::same_text;
use vstd::prelude::*;
use vstd::string::*;

verus! {

/// A layer that a manifest lists.
#[derive(Debug)]
pub struct ManifestLayer {
    /// The kind of the layer.
    pub media_type: String,
    /// The digest of the layer's blob.
    pub digest: String,
    /// The size of the blob in bytes.
    pub size: u64,
}

/// The manifest of a model.
#[derive(Debug)]
pub struct OllamaManifest {
    /// The layer of the configuration.
    pub config: ManifestLayer,
    /// The other layers.
    pub layers: Vec<ManifestLayer>,
}

/// The configuration of a model, as far as it says anything.
#[derive(Debug)]
pub struct OllamaConfigBlob {
    /// The architecture family.
    pub model_family: Option<String>,
    /// Several architecture families.
    pub model_families: Option<Vec<String>>,
    /// The size of the model, for people to read.
    pub model_type: Option<String>,
    /// The label of the quantisation.
    pub file_type: Option<String>,
}

impl Default for OllamaConfigBlob {
    fn default() -> (config: OllamaConfigBlob)
        ensures
            config.model_family is None,
            config.model_families is None,
            config.model_type is None,
            config.file_type is None,
    {
        OllamaConfigBlob {
            model_family: None,
            model_families: None,
            model_type: None,
            file_type: None,
        }
    }
}

/// What the disk holds of the blobs that a manifest leads to.
#[derive(Debug)]
pub struct Blobs {
    /// The model's blob is there.
    pub gguf_exists: bool,
    /// The path of the model's blob, for people to read.
    pub gguf_shown: String,
    /// The configuration, where it could be read.
    pub config: Option<OllamaConfigBlob>,
}

/// What came of reading a manifest.
#[derive(Debug)]
pub enum ManifestRead {
    /// The file could not be read.
    Unreadable {
        /// The path of the file, for people to read.
        path: String,
        /// Why not.
        cause: String,
    },
    /// The file holds no manifest.
    Invalid {
        /// Why not.
        cause: String,
    },
    /// The file holds a manifest.
    Parsed {
        /// The manifest.
        manifest: OllamaManifest,
        /// What lies at the paths that [`plan_blobs`] gives for the manifest.
        blobs: Blobs,
    },
}

/// A model in the store.
#[derive(Debug)]
pub struct OllamaModel {
    /// The name that is shown, such as `gemma4:e4b`.
    pub display_name: String,
    /// The architecture family, such as `gemma4`.
    pub family: String,
    /// The size for people to read, such as `8.0B`.
    pub model_type: String,
    /// The label of the quantisation, such as `Q4_K_M`.
    pub quantization: String,
    /// Where the GGUF blob lies, as an absolute path.
    pub gguf_path: LocalPath,
    /// The size of the blob in bytes.
    pub size_bytes: u64,
}

/// The text of a model.
pub struct ModelView {
    /// The name that is shown.
    pub display_name: Seq<char>,
    /// The architecture family.
    pub family: Seq<char>,
    /// The size for people to read.
    pub model_type: Seq<char>,
    /// The label of the quantisation.
    pub quantization: Seq<char>,
    /// Where the GGUF blob lies.
    pub gguf_path: PathView,
    /// The size of the blob in bytes.
    pub size_bytes: u64,
}

impl View for OllamaModel {
    type V = ModelView;

    open spec fn view(&self) -> ModelView {
        ModelView {
            display_name: self.display_name@,
            family: self.family@,
            model_type: self.model_type@,
            quantization: self.quantization@,
            gguf_path: self.gguf_path@,
            size_bytes: self.size_bytes,
        }
    }
}

impl Named for OllamaModel {
    open spec fn name(&self) -> Seq<char> {
        self.display_name@
    }

    fn name_text(&self) -> (text: &str) {
        self.display_name.as_str()
    }
}

/// Why a manifest gives no model.
#[derive(Debug)]
pub enum ManifestError {
    /// The file could not be read.
    Unreadable {
        /// The path of the file.
        path: String,
        /// Why not.
        cause: String,
    },
    /// The file holds no manifest.
    Invalid {
        /// Why not.
        cause: String,
    },
    /// The manifest lists no model.
    NoModelLayer,
    /// The model's blob is not there.
    BlobMissing {
        /// The path of the blob.
        blob: String,
        /// The model.
        display_name: String,
    },
}

/// The text of a [`ManifestError`].
pub enum ManifestErrorView {
    /// The file could not be read.
    Unreadable {
        /// The path of the file.
        path: Seq<char>,
        /// Why not.
        cause: Seq<char>,
    },
    /// The file holds no manifest.
    Invalid {
        /// Why not.
        cause: Seq<char>,
    },
    /// The manifest lists no model.
    NoModelLayer,
    /// The model's blob is not there.
    BlobMissing {
        /// The path of the blob.
        blob: Seq<char>,
        /// The model.
        display_name: Seq<char>,
    },
}

impl View for ManifestError {
    type V = ManifestErrorView;

    open spec fn view(&self) -> ManifestErrorView {
        match self {
            ManifestError::Unreadable { path, cause } => ManifestErrorView::Unreadable {
                path: path@,
                cause: cause@,
            },
            ManifestError::Invalid { cause } => ManifestErrorView::Invalid { cause: cause@ },
            ManifestError::NoModelLayer => ManifestErrorView::NoModelLayer,
            ManifestError::BlobMissing { blob, display_name } => ManifestErrorView::BlobMissing {
                blob: blob@,
                display_name: display_name@,
            },
        }
    }
}

impl ManifestErrorView {
    /// What is said of the error.
    pub open spec fn message(self) -> Seq<char> {
        match self {
            ManifestErrorView::Unreadable { path, .. } => "Cannot read "@ + path,
            ManifestErrorView::Invalid { .. } => "Invalid Ollama manifest JSON"@,
            ManifestErrorView::NoModelLayer => "No model layer in Ollama manifest"@,
            ManifestErrorView::BlobMissing { blob, display_name } => "GGUF blob missing: "@ + blob
                + " — try `ollama pull "@ + display_name + "`"@,
        }
    }
}

impl ManifestError {
    /// What is said of the error.
    pub fn message(&self) -> (message: String)
        ensures
            message@ == self@.message(),
    {
        match self {
            ManifestError::Unreadable { path, .. } => {
                let mut message: String = "Cannot read ".to_owned();
                message.append(path.as_str());
                message
            },
            ManifestError::Invalid { .. } => "Invalid Ollama manifest JSON".to_owned(),
            ManifestError::NoModelLayer => "No model layer in Ollama manifest".to_owned(),
            ManifestError::BlobMissing { blob, display_name } => {
                let mut message: String = "GGUF blob missing: ".to_owned();
                message.append(blob.as_str());
                message.append(" — try `ollama pull ");
                message.append(display_name.as_str());
                message.append("`");
                message
            },
        }
    }
}

/// `layer` holds the model itself.
pub open spec fn holds_model(layer: ManifestLayer) -> bool {
    layer.media_type@ == "application/vnd.ollama.image.model"@
}

/// The first layer that holds the model itself.
pub open spec fn model_layer(layers: Seq<ManifestLayer>) -> Option<ManifestLayer>
    decreases layers.len(),
{
    if layers.len() == 0 {
        None
    } else if holds_model(layers[0]) {
        Some(layers[0])
    } else {
        model_layer(layers.drop_first())
    }
}

/// Finds the first layer that holds the model itself.
pub fn find_model_layer(layers: &Vec<ManifestLayer>) -> (found: Option<&ManifestLayer>)
    ensures
        match found {
            Some(layer) => model_layer(layers@) == Some(*layer),
            None => model_layer(layers@) is None,
        },
{
    let mut i: usize = 0;
    assert(layers@.skip(0) =~= layers@);
    while i < layers.len()
        invariant
            i <= layers@.len(),
            model_layer(layers@) == model_layer(layers@.skip(i as int)),
        decreases layers@.len() - i,
    {
        assert(layers@.skip(i as int).drop_first() =~= layers@.skip(i + 1));
        if same_text(layers[i].media_type.as_str(), "application/vnd.ollama.image.model") {
            return Some(&layers[i]);
        }
        i = i + 1;
    }
    None
}

/// The blobs that a manifest leads to.
#[derive(Debug)]
pub struct BlobPlan {
    /// Where the model's blob lies.
    pub gguf: LocalPath,
    /// Where the configuration's blob lies.
    pub config: LocalPath,
}

/// Finds the blobs that a manifest leads to, where it lists a model.
pub fn plan_blobs(manifest: &OllamaManifest, bases: Bases) -> (plan: Option<BlobPlan>)
    ensures
        match model_layer(manifest.layers@) {
            Some(layer) => plan matches Some(p) && p.gguf@ == blob_path(layer.digest@, bases)
                && p.config@ == blob_path(manifest.config.digest@, bases),
            None => plan is None,
        },
{
    match find_model_layer(&manifest.layers) {
        Some(layer) => {
            let gguf = digest_to_filename(layer.digest.as_str());
            let config = digest_to_filename(manifest.config.digest.as_str());
            Some(
                BlobPlan {
                    gguf: blobs_dir(bases).join(gguf.as_str()),
                    config: blobs_dir(bases).join(config.as_str()),
                },
            )
        },
        None => None,
    }
}

/// The text in `text`, or `fallback`.
pub open spec fn text_or(text: Option<String>, fallback: Seq<char>) -> Seq<char> {
    match text {
        Some(t) => t@,
        None => fallback,
    }
}

/// The family that a configuration names: the one, else the first of several, else
/// `unknown`.
pub open spec fn family_of(config: OllamaConfigBlob) -> Seq<char> {
    match config.model_family {
        Some(family) => family@,
        None => match config.model_families {
            Some(families) if families@.len() > 0 => families@[0]@,
            _ => "unknown"@,
        },
    }
}

/// The model that a manifest describes.
pub open spec fn described_model(
    layer: ManifestLayer,
    config: Option<OllamaConfigBlob>,
    display_name: Seq<char>,
    bases: Bases,
) -> ModelView {
    ModelView {
        display_name,
        family: match config {
            Some(c) => family_of(c),
            None => "unknown"@,
        },
        model_type: match config {
            Some(c) => text_or(c.model_type, "?"@),
            None => "?"@,
        },
        quantization: match config {
            Some(c) => text_or(c.file_type, "?"@),
            None => "?"@,
        },
        gguf_path: blob_path(layer.digest@, bases).anchored(bases),
        size_bytes: layer.size,
    }
}

/// What a manifest file gives: the model that it describes, or why there is none.
pub open spec fn parsed(read: ManifestRead, display_name: Seq<char>, bases: Bases) -> Result<
    ModelView,
    ManifestErrorView,
> {
    match read {
        ManifestRead::Unreadable { path, cause } => Err(
            ManifestErrorView::Unreadable { path: path@, cause: cause@ },
        ),
        ManifestRead::Invalid { cause } => Err(ManifestErrorView::Invalid { cause: cause@ }),
        ManifestRead::Parsed { manifest, blobs } => match model_layer(manifest.layers@) {
            None => Err(ManifestErrorView::NoModelLayer),
            Some(layer) => if blobs.gguf_exists {
                Ok(described_model(layer, blobs.config, display_name, bases))
            } else {
                Err(ManifestErrorView::BlobMissing { blob: blobs.gguf_shown@, display_name })
            },
        },
    }
}

/// Turns what was read of a manifest into the model `display_name`.
pub fn parse_manifest(read: ManifestRead, display_name: &str, bases: Bases) -> (model: Result<
    OllamaModel,
    ManifestError,
>)
    ensures
        match model {
            Ok(m) => parsed(read, display_name@, bases) == Ok::<_, ManifestErrorView>(m@),
            Err(e) => parsed(read, display_name@, bases) == Err::<ModelView, _>(e@),
        },
        model matches Ok(m) ==> m@.gguf_path.is_absolute(bases),
{
    match read {
        ManifestRead::Unreadable { path, cause } => Err(ManifestError::Unreadable { path, cause }),
        ManifestRead::Invalid { cause } => Err(ManifestError::Invalid { cause }),
        ManifestRead::Parsed { manifest, blobs } => {
            let layer = match find_model_layer(&manifest.layers) {
                Some(layer) => layer,
                None => return Err(ManifestError::NoModelLayer),
            };
            if !blobs.gguf_exists {
                return Err(
                    ManifestError::BlobMissing {
                        blob: blobs.gguf_shown,
                        display_name: display_name.to_owned(),
                    },
                );
            }
            let gguf_name = digest_to_filename(layer.digest.as_str());
            let size_bytes: u64 = layer.size;
            let config = match blobs.config {
                Some(config) => config,
                None => OllamaConfigBlob::default(),
            };
            let family = match config.model_family {
                Some(family) => family,
                None => match config.model_families {
                    Some(families) => if families.len() > 0 {
                        families[0].clone()
                    } else {
                        "unknown".to_owned()
                    },
                    None => "unknown".to_owned(),
                },
            };
            let model_type = match config.model_type {
                Some(model_type) => model_type,
                None => "?".to_owned(),
            };
            let quantization = match config.file_type {
                Some(file_type) => file_type,
                None => "?".to_owned(),
            };
            Ok(
                OllamaModel {
                    display_name: display_name.to_owned(),
                    family,
                    model_type,
                    quantization,
                    gguf_path: blobs_dir(bases).join(gguf_name.as_str()).anchored(bases),
                    size_bytes,
                },
            )
        },
    }
}

} // verus!
