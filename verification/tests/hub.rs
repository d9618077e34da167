//! Metadata from a directory or from the Hub.
use inferrs::hub::{
    hf_auth_hint, local_metadata, metadata_source, model_files, Candidate, Download, DownloadError,
    Metadata, MetadataFile, MetadataSource, Purpose,
};

#[test]
fn paths_are_local_and_ids_are_not() {
    assert_eq!(metadata_source("/models/x", true, false), MetadataSource::Local);
    assert_eq!(metadata_source("./x", false, false), MetadataSource::Local);
    assert_eq!(metadata_source("../x", false, false), MetadataSource::Local);
    assert_eq!(metadata_source("models/x", false, true), MetadataSource::Local);
    assert_eq!(metadata_source("google/gemma", false, false), MetadataSource::Hub);
    assert_eq!(metadata_source(".x", false, false), MetadataSource::Hub);
}

#[test]
fn files_have_their_names() {
    assert_eq!(MetadataFile::Config.file_name(), "config.json");
    assert_eq!(MetadataFile::Tokenizer.file_name(), "tokenizer.json");
    assert_eq!(MetadataFile::TokenizerConfig.file_name(), "tokenizer_config.json");
}

fn local(config: bool, tokenizer: bool, optional: bool) -> Result<Metadata<&'static str>, String> {
    local_metadata(
        "/m",
        Candidate { path: "/m/config.json", exists: config },
        Candidate { path: "/m/tokenizer.json", exists: tokenizer },
        Candidate { path: "/m/tokenizer_config.json", exists: optional },
    )
}

#[test]
fn a_directory_needs_config_and_tokenizer() {
    let m = local(true, true, true).unwrap();
    assert_eq!(m.config, "/m/config.json");
    assert_eq!(m.tokenizer, "/m/tokenizer.json");
    assert_eq!(m.tokenizer_config, Some("/m/tokenizer_config.json"));
    assert_eq!(local(true, true, false).unwrap().tokenizer_config, None);
    assert_eq!(local(false, false, true).unwrap_err(), "config.json not found in /m");
    assert_eq!(local(true, false, true).unwrap_err(), "tokenizer.json not found in /m");
}

#[test]
fn metadata_makes_model_files() {
    let files = model_files(local(true, true, true).unwrap(), Some("/m/x.gguf"));
    assert_eq!(files.config_path, "/m/config.json");
    assert_eq!(files.tokenizer_path, "/m/tokenizer.json");
    assert_eq!(files.tokenizer_config_path, Some("/m/tokenizer_config.json"));
    assert!(files.weight_paths.is_empty());
    assert_eq!(files.gguf_path, Some("/m/x.gguf"));
    assert_eq!(model_files(local(true, true, true).unwrap(), None).gguf_path, None);
}

#[test]
fn gated_models_get_advice() {
    for error in ["status code 401", "x status code 403 y", "status: 401", "http status: 403"] {
        let hint = hf_auth_hint(error.to_string(), "google/gemma");
        let expected = format!(
            "{error}\n\
             \n\
             'google/gemma' is a gated model that requires a HuggingFace access token.\n\
             \n\
             1. Accept the model license at:\n   \
                https://huggingface.co/google/gemma\n\
             2. Create a token (read access is enough) at:\n   \
                https://huggingface.co/settings/tokens\n\
             3. Pass it to inferrs via the environment:\n   \
                HF_TOKEN=hf_... inferrs serve google/gemma\n\
             \n\
             Or log in once with the HuggingFace CLI:\n   \
                hf auth login"
        );
        assert!(matches!(hint, DownloadError::Gated { message } if message == expected));
    }
}

#[test]
fn other_errors_keep_their_cause() {
    for error in ["status code 404", "status 401", "", "timeout"] {
        match hf_auth_hint(error.to_string(), "google/gemma") {
            DownloadError::Failed { context, cause } => {
                assert_eq!(context, "Failed to download metadata for google/gemma");
                assert_eq!(cause, error);
            }
            DownloadError::Gated { .. } => panic!("not gated: {error}"),
        }
    }
}

fn drive(replies: [Result<u8, &str>; 3], purpose: Purpose) -> (Download<u8>, Vec<&'static str>) {
    let mut asked = Vec::new();
    let mut download = Download::start();
    for reply in replies {
        if let Some(file) = download.wanted() {
            asked.push(file.file_name());
        }
        download = download.next(reply.map_err(|e| e.to_string()), purpose, "o/m");
    }
    (download, asked)
}

#[test]
fn downloads_run_to_their_end() {
    let (end, asked) = drive([Ok(1), Ok(2), Ok(3)], Purpose::Ollama);
    assert_eq!(asked, ["config.json", "tokenizer.json", "tokenizer_config.json"]);
    assert!(matches!(
        end,
        Download::Done(Metadata { config: 1, tokenizer: 2, tokenizer_config: Some(3) })
    ));
    let (end, _) = drive([Ok(1), Ok(2), Err("404")], Purpose::GivenGguf);
    assert!(matches!(
        end,
        Download::Done(Metadata { config: 1, tokenizer: 2, tokenizer_config: None })
    ));
    assert!(end.wanted().is_none());
}

#[test]
fn finished_downloads_give_metadata_or_the_error() {
    let (end, _) = drive([Ok(1), Ok(2), Err("404")], Purpose::Ollama);
    let metadata = end.finish().unwrap().unwrap();
    assert_eq!((metadata.config, metadata.tokenizer), (1, 2));
    assert_eq!(metadata.tokenizer_config, None);
    let (end, _) = drive([Ok(1), Err("x"), Ok(3)], Purpose::Ollama);
    assert!(matches!(end.finish(), Some(Err(DownloadError::Failed { cause, .. })) if cause == "x"));
    assert!(Download::<u8>::start().finish().is_none());
    assert!(Download::start().next(Ok(1), Purpose::Ollama, "o/m").finish().is_none());
}

#[test]
fn failed_downloads_stop() {
    let (end, asked) = drive([Err("status code 401"), Ok(2), Ok(3)], Purpose::Ollama);
    assert_eq!(asked, ["config.json"]);
    assert!(matches!(end, Download::Failed(DownloadError::Gated { .. })));
    let (end, asked) = drive([Ok(1), Err("status code 401"), Ok(3)], Purpose::GivenGguf);
    assert_eq!(asked, ["config.json", "tokenizer.json"]);
    assert!(matches!(
        end,
        Download::Failed(DownloadError::Failed { context, cause })
            if context == "Failed to download tokenizer.json" && cause == "status code 401"
    ));
    let (end, _) = drive([Err("x"), Ok(2), Ok(3)], Purpose::GivenGguf);
    assert!(matches!(
        end,
        Download::Failed(DownloadError::Failed { context, .. })
            if context == "Failed to download config.json"
    ));
}
