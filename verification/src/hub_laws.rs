//! Laws of the metadata that a model needs, and of what is said where it cannot be had.
use crate::hub::{
    asks_for_token, auth_hint, gated_message, names_local, not_found_in, reply_of, reported,
    Download, DownloadError, DownloadErrorView, DownloadView, Metadata, MetadataFile, Purpose,
};
use crate::text::has_infix;
use crate::text_laws::{law_infix_splits, law_stands_where_put};
use vstd::prelude::*;
use vstd::string::*;

verus! {

/// The metadata files go by these names.
pub proof fn law_file_names(dir: Seq<char>)
    ensures
        MetadataFile::Config.name() == "config.json"@,
        MetadataFile::Tokenizer.name() == "tokenizer.json"@,
        MetadataFile::TokenizerConfig.name() == "tokenizer_config.json"@,
        not_found_in(MetadataFile::Config, dir) == "config.json"@ + " not found in "@ + dir,
        not_found_in(MetadataFile::Tokenizer, dir) == "tokenizer.json"@ + " not found in "@ + dir,
{
}

/// What is absolute, begins with `./` or `../`, or is there on the disk is local, and
/// nothing else is.
pub proof fn law_local(rest: Seq<char>, model_id: Seq<char>, is_absolute: bool, exists: bool)
    ensures
        names_local("./"@ + rest, is_absolute, exists),
        names_local("../"@ + rest, is_absolute, exists),
        is_absolute || exists ==> names_local(model_id, is_absolute, exists),
        names_local(model_id, false, false) ==> {
            ||| model_id.len() >= "./"@.len() && model_id == "./"@ + model_id.skip(
                "./"@.len() as int,
            )
            ||| model_id.len() >= "../"@.len() && model_id == "../"@ + model_id.skip(
                "../"@.len() as int,
            )
        },
{
    assert(("./"@ + rest).subrange(0, "./"@.len() as int) =~= "./"@);
    assert(("../"@ + rest).subrange(0, "../"@.len() as int) =~= "../"@);
    if "./"@.is_prefix_of(model_id) {
        assert(model_id =~= "./"@ + model_id.skip("./"@.len() as int));
    }
    if "../"@.is_prefix_of(model_id) {
        assert(model_id =~= "../"@ + model_id.skip("../"@.len() as int));
    }
}

/// An error that speaks of the status 401 or 403 asks for a token, wherever it does so.
pub proof fn law_status_asks(before: Seq<char>, after: Seq<char>)
    ensures
        asks_for_token(before + "status code 401"@ + after),
        asks_for_token(before + "status code 403"@ + after),
        asks_for_token(before + "status: 401"@ + after),
        asks_for_token(before + "status: 403"@ + after),
{
    law_stands_where_put(before, "status code 401"@, after);
    law_stands_where_put(before, "status code 403"@, after);
    law_stands_where_put(before, "status: 401"@, after);
    law_stands_where_put(before, "status: 403"@, after);
}

/// No other error asks for a token.
pub proof fn law_only_status_asks(error: Seq<char>)
    requires
        asks_for_token(error),
    ensures
        (exists|before: Seq<char>, after: Seq<char>|
            error == #[trigger] (before + "status code 401"@ + after)) || (exists|
            before: Seq<char>,
            after: Seq<char>,
        | error == #[trigger] (before + "status code 403"@ + after)) || (exists|
            before: Seq<char>,
            after: Seq<char>,
        | error == #[trigger] (before + "status: 401"@ + after)) || (exists|
            before: Seq<char>,
            after: Seq<char>,
        | error == #[trigger] (before + "status: 403"@ + after)),
{
    if has_infix(error, "status code 401"@) {
        law_infix_splits(error, "status code 401"@);
    } else if has_infix(error, "status code 403"@) {
        law_infix_splits(error, "status code 403"@);
    } else if has_infix(error, "status: 401"@) {
        law_infix_splits(error, "status: 401"@);
    } else {
        law_infix_splits(error, "status: 403"@);
    }
}

/// What a failed download is reported as. For an Ollama model whose download asks for a
/// token it is the error and how to get one, else the error and what was tried.
pub proof fn law_reports(file: MetadataFile, error: Seq<char>, model_id: Seq<char>)
    ensures
        asks_for_token(error) ==> reported(Purpose::Ollama, file, error, model_id)
            == (DownloadErrorView::Gated {
            message: error + "\n\n'"@ + model_id
                + "' is a gated model that requires a HuggingFace access token.\n\n1. Accept the model license at:\n   https://huggingface.co/"@
                + model_id
                + "\n2. Create a token (read access is enough) at:\n   https://huggingface.co/settings/tokens\n3. Pass it to inferrs via the environment:\n   HF_TOKEN=hf_... inferrs serve "@
                + model_id + "\n\nOr log in once with the HuggingFace CLI:\n   hf auth login"@,
        }),
        !asks_for_token(error) ==> reported(Purpose::Ollama, file, error, model_id)
            == (DownloadErrorView::Failed {
            context: "Failed to download metadata for "@ + model_id,
            cause: error,
        }),
        auth_hint(error, model_id) == reported(Purpose::Ollama, file, error, model_id),
        asks_for_token(error) ==> auth_hint(error, model_id) == (DownloadErrorView::Gated {
            message: gated_message(error, model_id),
        }),
        reported(Purpose::GivenGguf, MetadataFile::Config, error, model_id)
            == (DownloadErrorView::Failed {
            context: "Failed to download "@ + "config.json"@,
            cause: error,
        }),
        reported(Purpose::GivenGguf, MetadataFile::Tokenizer, error, model_id)
            == (DownloadErrorView::Failed {
            context: "Failed to download "@ + "tokenizer.json"@,
            cause: error,
        }),
{
}

/// The view of a download holds all of it, and so does that of an error and of a reply.
pub proof fn law_download_view<P>(
    config: P,
    tokenizer: P,
    metadata: Metadata<P>,
    error: DownloadError,
    text: String,
    other: String,
)
    ensures
        Download::<P>::Config@ == DownloadView::<P>::Config,
        (Download::Tokenizer { config })@ == (DownloadView::Tokenizer { config }),
        (Download::TokenizerConfig { config, tokenizer })@ == (DownloadView::TokenizerConfig {
            config,
            tokenizer,
        }),
        Download::Done(metadata)@ == DownloadView::Done(metadata),
        Download::<P>::Failed(error)@ == DownloadView::<P>::Failed(error@),
        (DownloadError::Gated { message: text })@ == (DownloadErrorView::Gated { message: text@ }),
        (DownloadError::Failed { context: text, cause: other })@ == (DownloadErrorView::Failed {
            context: text@,
            cause: other@,
        }),
        reply_of(Ok::<P, String>(config)) == Ok::<P, Seq<char>>(config),
        reply_of(Err::<P, String>(text)) == Err::<P, Seq<char>>(text@),
{
}

/// A download asks for the configuration, then for the tokenizer, then for the
/// configuration of the tokenizer, and then for nothing more.
pub proof fn law_download_asks<P>(
    config: P,
    tokenizer: P,
    metadata: Metadata<P>,
    error: DownloadErrorView,
)
    ensures
        DownloadView::<P>::Config.wanted() == Some(MetadataFile::Config),
        (DownloadView::Tokenizer { config }).wanted() == Some(MetadataFile::Tokenizer),
        (DownloadView::TokenizerConfig { config, tokenizer }).wanted() == Some(
            MetadataFile::TokenizerConfig,
        ),
        DownloadView::Done(metadata).wanted() is None,
        DownloadView::<P>::Failed(error).wanted() is None,
{
}

/// Each reply is taken for the file that was asked for: a file is kept as it came, and a
/// missing one ends the download, but for the configuration of the tokenizer.
pub proof fn law_download_steps<P>(
    config: P,
    tokenizer: P,
    path: P,
    error: Seq<char>,
    purpose: Purpose,
    model_id: Seq<char>,
)
    ensures
        DownloadView::<P>::Config.next(Ok(path), purpose, model_id) == (DownloadView::Tokenizer {
            config: path,
        }),
        (DownloadView::Tokenizer { config }).next(Ok(path), purpose, model_id)
            == (DownloadView::TokenizerConfig { config, tokenizer: path }),
        (DownloadView::TokenizerConfig { config, tokenizer }).next(Ok(path), purpose, model_id)
            == DownloadView::Done(Metadata { config, tokenizer, tokenizer_config: Some(path) }),
        (DownloadView::TokenizerConfig { config, tokenizer }).next(Err(error), purpose, model_id)
            == DownloadView::Done(Metadata { config, tokenizer, tokenizer_config: None }),
        DownloadView::<P>::Config.next(Err(error), purpose, model_id) == DownloadView::<P>::Failed(
            reported(purpose, MetadataFile::Config, error, model_id),
        ),
        (DownloadView::Tokenizer { config }).next(Err(error), purpose, model_id)
            == DownloadView::<P>::Failed(
            reported(purpose, MetadataFile::Tokenizer, error, model_id),
        ),
{
}

} // verus!
