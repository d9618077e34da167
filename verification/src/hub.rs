//! The metadata of a model whose weights are already at hand.
//!
//! A model needs `config.json` and `tokenizer.json`, and takes
//! `tokenizer_config.json` where there is one. They lie in a local directory or come
//! from the HuggingFace Hub. `P` is how the program writes a path.
use crate::text::{contains_text, has_infix, starts_with};
use vstd::prelude::*;
use vstd::string::*;

verus! {

/// A metadata file.
#[derive(Clone, Copy, Debug, PartialEq, Eq, Structural)]
pub enum MetadataFile {
    /// The configuration of the model.
    Config,
    /// The tokenizer.
    Tokenizer,
    /// The configuration of the tokenizer.
    TokenizerConfig,
}

impl MetadataFile {
    /// The name of the file.
    pub open spec fn name(self) -> Seq<char> {
        match self {
            MetadataFile::Config => "config.json"@,
            MetadataFile::Tokenizer => "tokenizer.json"@,
            MetadataFile::TokenizerConfig => "tokenizer_config.json"@,
        }
    }

    /// Gives the name of the file.
    pub fn file_name(self) -> (name: &'static str)
        ensures
            name@ == self.name(),
    {
        match self {
            MetadataFile::Config => "config.json",
            MetadataFile::Tokenizer => "tokenizer.json",
            MetadataFile::TokenizerConfig => "tokenizer_config.json",
        }
    }
}

/// Where the metadata of a model lies.
#[derive(Debug)]
pub struct Metadata<P> {
    /// The configuration of the model.
    pub config: P,
    /// The tokenizer.
    pub tokenizer: P,
    /// The configuration of the tokenizer, where there is one.
    pub tokenizer_config: Option<P>,
}

/// Where the files of a model lie.
#[derive(Debug)]
pub struct ModelFiles<P> {
    /// The configuration of the model.
    pub config_path: P,
    /// The tokenizer.
    pub tokenizer_path: P,
    /// The configuration of the tokenizer, where there is one.
    pub tokenizer_config_path: Option<P>,
    /// The weights, where they are no GGUF file.
    pub weight_paths: Vec<P>,
    /// The GGUF file, where the weights are one.
    pub gguf_path: Option<P>,
}

/// The files of a model with the given metadata and GGUF file. There are no other weights.
pub fn model_files<P>(metadata: Metadata<P>, gguf: Option<P>) -> (files: ModelFiles<P>)
    ensures
        files.config_path == metadata.config,
        files.tokenizer_path == metadata.tokenizer,
        files.tokenizer_config_path == metadata.tokenizer_config,
        files.weight_paths@.len() == 0,
        files.gguf_path == gguf,
{
    ModelFiles {
        config_path: metadata.config,
        tokenizer_path: metadata.tokenizer,
        tokenizer_config_path: metadata.tokenizer_config,
        weight_paths: Vec::new(),
        gguf_path: gguf,
    }
}

/// Where metadata comes from.
#[derive(Clone, Copy, Debug, PartialEq, Eq, Structural)]
pub enum MetadataSource {
    /// A local directory.
    Local,
    /// The HuggingFace Hub.
    Hub,
}

/// `model_id` names a local directory: it is written as a path, or there is one.
pub open spec fn names_local(model_id: Seq<char>, is_absolute: bool, exists: bool) -> bool {
    ||| is_absolute
    ||| "./"@.is_prefix_of(model_id)
    ||| "../"@.is_prefix_of(model_id)
    ||| exists
}

/// Decides where the metadata of `model_id` comes from. `is_absolute` and `exists`
/// are said of `model_id` as a path.
pub fn metadata_source(model_id: &str, is_absolute: bool, exists: bool) -> (source: MetadataSource)
    ensures
        source == if names_local(model_id@, is_absolute, exists) {
            MetadataSource::Local
        } else {
            MetadataSource::Hub
        },
{
    if is_absolute || starts_with(model_id, "./") || starts_with(model_id, "../") || exists {
        MetadataSource::Local
    } else {
        MetadataSource::Hub
    }
}

/// A file that may be there.
#[derive(Debug)]
pub struct Candidate<P> {
    /// Where the file would lie.
    pub path: P,
    /// The file is there.
    pub exists: bool,
}

/// What is said of a metadata file that is missing in a directory.
pub open spec fn not_found_in(file: MetadataFile, dir: Seq<char>) -> Seq<char> {
    file.name() + " not found in "@ + dir
}

/// Says that a metadata file is missing in a directory.
fn not_found_text(file: MetadataFile, dir: &str) -> (message: String)
    ensures
        message@ == not_found_in(file, dir@),
{
    let mut message: String = file.file_name().to_owned();
    message.append(" not found in ");
    message.append(dir);
    message
}

/// Gathers the metadata in a local directory. `dir` is the directory, for people to
/// read; the other arguments are the files in it.
pub fn local_metadata<P>(
    dir: &str,
    config: Candidate<P>,
    tokenizer: Candidate<P>,
    tokenizer_config: Candidate<P>,
) -> (metadata: Result<Metadata<P>, String>)
    ensures
        match metadata {
            Ok(found) => {
                &&& config.exists
                &&& tokenizer.exists
                &&& found.config == config.path
                &&& found.tokenizer == tokenizer.path
                &&& found.tokenizer_config == if tokenizer_config.exists {
                    Some(tokenizer_config.path)
                } else {
                    None
                }
            },
            Err(message) => {
                ||| !config.exists && message@ == not_found_in(MetadataFile::Config, dir@)
                ||| config.exists && !tokenizer.exists && message@ == not_found_in(
                    MetadataFile::Tokenizer,
                    dir@,
                )
            },
        },
{
    if !config.exists {
        return Err(not_found_text(MetadataFile::Config, dir));
    }
    if !tokenizer.exists {
        return Err(not_found_text(MetadataFile::Tokenizer, dir));
    }
    let optional = if tokenizer_config.exists {
        Some(tokenizer_config.path)
    } else {
        None
    };
    Ok(
        Metadata { config: config.path, tokenizer: tokenizer.path, tokenizer_config: optional },
    )
}

/// Why metadata could not be downloaded.
#[derive(Debug)]
pub enum DownloadError {
    /// The Hub asks for an access token.
    Gated {
        /// What is said of it.
        message: String,
    },
    /// Anything else.
    Failed {
        /// What was tried.
        context: String,
        /// What came of it.
        cause: String,
    },
}

/// The text of a [`DownloadError`].
pub enum DownloadErrorView {
    /// The Hub asks for an access token.
    Gated {
        /// What is said of it.
        message: Seq<char>,
    },
    /// Anything else.
    Failed {
        /// What was tried.
        context: Seq<char>,
        /// What came of it.
        cause: Seq<char>,
    },
}

impl View for DownloadError {
    type V = DownloadErrorView;

    open spec fn view(&self) -> DownloadErrorView {
        match self {
            DownloadError::Gated { message } => DownloadErrorView::Gated { message: message@ },
            DownloadError::Failed { context, cause } => DownloadErrorView::Failed {
                context: context@,
                cause: cause@,
            },
        }
    }
}

/// An error that speaks of an HTTP status by which the Hub asks for authentication.
pub open spec fn asks_for_token(error: Seq<char>) -> bool {
    ||| has_infix(error, "status code 401"@)
    ||| has_infix(error, "status code 403"@)
    ||| has_infix(error, "status: 401"@)
    ||| has_infix(error, "status: 403"@)
}

/// What is said of a model that is gated.
pub open spec fn gated_message(error: Seq<char>, model_id: Seq<char>) -> Seq<char> {
    error + "\n\n'"@ + model_id
        + "' is a gated model that requires a HuggingFace access token.\n\n1. Accept the model license at:\n   https://huggingface.co/"@
        + model_id
        + "\n2. Create a token (read access is enough) at:\n   https://huggingface.co/settings/tokens\n3. Pass it to inferrs via the environment:\n   HF_TOKEN=hf_... inferrs serve "@
        + model_id + "\n\nOr log in once with the HuggingFace CLI:\n   hf auth login"@
}

/// What a failed download for an Ollama model is reported as.
pub open spec fn auth_hint(error: Seq<char>, model_id: Seq<char>) -> DownloadErrorView {
    if asks_for_token(error) {
        DownloadErrorView::Gated { message: gated_message(error, model_id) }
    } else {
        DownloadErrorView::Failed {
            context: "Failed to download metadata for "@ + model_id,
            cause: error,
        }
    }
}

/// Adds to a failed download how to authenticate, where the Hub asks for it.
///
/// Many models are gated: their license has to be accepted on HuggingFace, and a
/// download needs an access token.
pub fn hf_auth_hint(error: String, model_id: &str) -> (hint: DownloadError)
    ensures
        hint@ == auth_hint(error@, model_id@),
{
    let text: &str = error.as_str();
    if contains_text(text, "status code 401") || contains_text(text, "status code 403")
        || contains_text(text, "status: 401") || contains_text(text, "status: 403") {
        let mut message: String = text.to_owned();
        message.append("\n\n'");
        message.append(model_id);
        message.append(
            "' is a gated model that requires a HuggingFace access token.\n\n1. Accept the model license at:\n   https://huggingface.co/",
        );
        message.append(model_id);
        message.append(
            "\n2. Create a token (read access is enough) at:\n   https://huggingface.co/settings/tokens\n3. Pass it to inferrs via the environment:\n   HF_TOKEN=hf_... inferrs serve ",
        );
        message.append(model_id);
        message.append("\n\nOr log in once with the HuggingFace CLI:\n   hf auth login");
        DownloadError::Gated { message }
    } else {
        let mut context: String = "Failed to download metadata for ".to_owned();
        context.append(model_id);
        DownloadError::Failed { context, cause: error }
    }
}

/// What came of a download is reported in full, with or without advice.
pub proof fn law_hint_keeps_error(error: Seq<char>, model_id: Seq<char>)
    ensures
        match auth_hint(error, model_id) {
            DownloadErrorView::Gated { message } => asks_for_token(error) && error.is_prefix_of(
                message,
            ),
            DownloadErrorView::Failed { cause, .. } => !asks_for_token(error) && cause == error,
        },
{
    let message = gated_message(error, model_id);
    assert(message.subrange(0, error.len() as int) =~= error);
}

/// What a download is for.
#[derive(Clone, Copy, Debug, PartialEq, Eq, Structural)]
pub enum Purpose {
    /// An Ollama model.
    Ollama,
    /// A GGUF file that the user gave.
    GivenGguf,
}

/// What a failed download of `file` is reported as.
pub open spec fn reported(
    purpose: Purpose,
    file: MetadataFile,
    error: Seq<char>,
    model_id: Seq<char>,
) -> DownloadErrorView {
    match purpose {
        Purpose::Ollama => auth_hint(error, model_id),
        Purpose::GivenGguf => DownloadErrorView::Failed {
            context: "Failed to download "@ + file.name(),
            cause: error,
        },
    }
}

/// Reports a failed download of `file`.
fn report(purpose: Purpose, file: MetadataFile, error: String, model_id: &str) -> (hint:
    DownloadError)
    ensures
        hint@ == reported(purpose, file, error@, model_id@),
{
    match purpose {
        Purpose::Ollama => hf_auth_hint(error, model_id),
        Purpose::GivenGguf => {
            let mut context: String = "Failed to download ".to_owned();
            context.append(file.file_name());
            DownloadError::Failed { context, cause: error }
        },
    }
}

/// How far the download of the metadata has come.
#[derive(Debug)]
pub enum Download<P> {
    /// The configuration of the model is next.
    Config,
    /// The tokenizer is next.
    Tokenizer {
        /// The configuration of the model.
        config: P,
    },
    /// The configuration of the tokenizer is next.
    TokenizerConfig {
        /// The configuration of the model.
        config: P,
        /// The tokenizer.
        tokenizer: P,
    },
    /// All that can be had is there.
    Done(Metadata<P>),
    /// A file that the model needs could not be had.
    Failed(DownloadError),
}

/// The state of a download, with errors as text.
pub enum DownloadView<P> {
    /// The configuration of the model is next.
    Config,
    /// The tokenizer is next.
    Tokenizer {
        /// The configuration of the model.
        config: P,
    },
    /// The configuration of the tokenizer is next.
    TokenizerConfig {
        /// The configuration of the model.
        config: P,
        /// The tokenizer.
        tokenizer: P,
    },
    /// All that can be had is there.
    Done(Metadata<P>),
    /// A file that the model needs could not be had.
    Failed(DownloadErrorView),
}

impl<P> View for Download<P> {
    type V = DownloadView<P>;

    open spec fn view(&self) -> DownloadView<P> {
        match *self {
            Download::Config => DownloadView::Config,
            Download::Tokenizer { config } => DownloadView::Tokenizer { config },
            Download::TokenizerConfig { config, tokenizer } => DownloadView::TokenizerConfig {
                config,
                tokenizer,
            },
            Download::Done(metadata) => DownloadView::Done(metadata),
            Download::Failed(error) => DownloadView::Failed(error@),
        }
    }
}

impl<P> DownloadView<P> {
    /// The file to download next.
    pub open spec fn wanted(self) -> Option<MetadataFile> {
        match self {
            DownloadView::Config => Some(MetadataFile::Config),
            DownloadView::Tokenizer { .. } => Some(MetadataFile::Tokenizer),
            DownloadView::TokenizerConfig { .. } => Some(MetadataFile::TokenizerConfig),
            _ => None,
        }
    }

    /// The state after the wanted file came, or an error in its place. Only the
    /// configuration of the tokenizer can be missed.
    pub open spec fn next(
        self,
        reply: Result<P, Seq<char>>,
        purpose: Purpose,
        model_id: Seq<char>,
    ) -> DownloadView<P> {
        match (self, reply) {
            (DownloadView::Config, Ok(config)) => DownloadView::Tokenizer { config },
            (DownloadView::Config, Err(error)) => DownloadView::Failed(
                reported(purpose, MetadataFile::Config, error, model_id),
            ),
            (DownloadView::Tokenizer { config }, Ok(tokenizer)) => DownloadView::TokenizerConfig {
                config,
                tokenizer,
            },
            (DownloadView::Tokenizer { .. }, Err(error)) => DownloadView::Failed(
                reported(purpose, MetadataFile::Tokenizer, error, model_id),
            ),
            (DownloadView::TokenizerConfig { config, tokenizer }, Ok(path)) => DownloadView::Done(
                Metadata { config, tokenizer, tokenizer_config: Some(path) },
            ),
            (DownloadView::TokenizerConfig { config, tokenizer }, Err(_)) => DownloadView::Done(
                Metadata { config, tokenizer, tokenizer_config: None },
            ),
            (done, _) => done,
        }
    }
}

/// A reply, with an error as text.
pub open spec fn reply_of<P>(reply: Result<P, String>) -> Result<P, Seq<char>> {
    match reply {
        Ok(path) => Ok(path),
        Err(error) => Err(error@),
    }
}

impl<P> Download<P> {
    /// A download that has not begun.
    pub fn start() -> (download: Download<P>)
        ensures
            download@ == DownloadView::<P>::Config,
    {
        Download::Config
    }

    /// The file to download next, until the download is done or has failed.
    pub fn wanted(&self) -> (file: Option<MetadataFile>)
        ensures
            file == self@.wanted(),
    {
        match self {
            Download::Config => Some(MetadataFile::Config),
            Download::Tokenizer { .. } => Some(MetadataFile::Tokenizer),
            Download::TokenizerConfig { .. } => Some(MetadataFile::TokenizerConfig),
            Download::Done(_) => None,
            Download::Failed(_) => None,
        }
    }

    /// Goes on with the wanted file, or with the error that came in its place.
    pub fn next(self, reply: Result<P, String>, purpose: Purpose, model_id: &str) -> (download:
        Download<P>)
        ensures
            download@ == self@.next(reply_of(reply), purpose, model_id@),
    {
        match self {
            Download::Config => match reply {
                Ok(config) => Download::Tokenizer { config },
                Err(error) => Download::Failed(
                    report(purpose, MetadataFile::Config, error, model_id),
                ),
            },
            Download::Tokenizer { config } => match reply {
                Ok(tokenizer) => Download::TokenizerConfig { config, tokenizer },
                Err(error) => Download::Failed(
                    report(purpose, MetadataFile::Tokenizer, error, model_id),
                ),
            },
            Download::TokenizerConfig { config, tokenizer } => {
                let tokenizer_config = match reply {
                    Ok(path) => Some(path),
                    Err(_) => None,
                };
                Download::Done(Metadata { config, tokenizer, tokenizer_config })
            },
            Download::Done(metadata) => Download::Done(metadata),
            Download::Failed(error) => Download::Failed(error),
        }
    }

    /// What a download gave, once it wants no more: the metadata, or the error.
    pub fn finish(self) -> (outcome: Option<Result<Metadata<P>, DownloadError>>)
        ensures
            match self@ {
                DownloadView::Done(metadata) => outcome == Some(
                    Ok::<_, DownloadError>(metadata),
                ),
                DownloadView::Failed(error) => outcome matches Some(Err(e)) && e@ == error,
                _ => outcome is None,
            },
    {
        match self {
            Download::Done(metadata) => Some(Ok(metadata)),
            Download::Failed(error) => Some(Err(error)),
            _ => None,
        }
    }
}

/// A download that is driven to its end gives the metadata exactly where both files
/// that the model needs came. The first of them that did not come decides the error,
/// and a missing configuration of the tokenizer is no error.
pub proof fn law_download<P>(
    config: Result<P, Seq<char>>,
    tokenizer: Result<P, Seq<char>>,
    tokenizer_config: Result<P, Seq<char>>,
    purpose: Purpose,
    model_id: Seq<char>,
)
    ensures
        ({
            let end = DownloadView::<P>::Config.next(config, purpose, model_id).next(
                tokenizer,
                purpose,
                model_id,
            ).next(tokenizer_config, purpose, model_id);
            match (config, tokenizer) {
                (Ok(c), Ok(t)) => end == DownloadView::Done(
                    Metadata {
                        config: c,
                        tokenizer: t,
                        tokenizer_config: match tokenizer_config {
                            Ok(path) => Some(path),
                            Err(_) => None,
                        },
                    },
                ),
                (Err(error), _) => end == DownloadView::<P>::Failed(
                    reported(purpose, MetadataFile::Config, error, model_id),
                ),
                (Ok(_), Err(error)) => end == DownloadView::<P>::Failed(
                    reported(purpose, MetadataFile::Tokenizer, error, model_id),
                ),
            }
        }),
{
}

/// How many files a download may still ask for.
pub open spec fn files_left<P>(state: DownloadView<P>) -> nat {
    match state {
        DownloadView::Config => 3,
        DownloadView::Tokenizer { .. } => 2,
        DownloadView::TokenizerConfig { .. } => 1,
        _ => 0,
    }
}

/// A download asks for at most three files, and once it wants none it changes no
/// more.
pub proof fn law_download_ends<P>(
    state: DownloadView<P>,
    reply: Result<P, Seq<char>>,
    purpose: Purpose,
    model_id: Seq<char>,
)
    ensures
        state.wanted() is None ==> state.next(reply, purpose, model_id) == state,
        state.wanted() is Some ==> files_left(state.next(reply, purpose, model_id)) < files_left(
            state,
        ),
        files_left(DownloadView::<P>::Config) == 3,
{
}

} // verus!
