//! Ollama's identifiers and its store.
use inferrs::manifest::{
    parse_manifest, plan_blobs, Blobs, ManifestError, ManifestLayer, ManifestRead, OllamaConfigBlob,
    OllamaManifest, OllamaModel,
};
use inferrs::ollama::{
    blobs_dir, digest_to_filename, is_ollama_model_id, manifests_root, metadata_cache_dir,
    ollama_models_dir, show_name_tag, split_name_tag,
};
use inferrs::paths::{Bases, LocalPath, PathBase, Written};
use inferrs::store::{
    find_ollama_model, is_entry_of, list_ollama_models, FileName, OllamaError, OllamaStore, StoreEntry,
};

fn bases(ollama_models: Option<Written>) -> Bases {
    Bases { home: Written::Absolute, ollama_models, cache: Written::Absolute }
}

const SET: Option<Written> = Some(Written::Absolute);

fn parts(path: &LocalPath) -> (PathBase, Vec<&str>) {
    (path.base, path.parts.iter().map(|p| p.as_str()).collect())
}

#[test]
fn ollama_ids_have_a_colon_and_no_slash() {
    assert!(is_ollama_model_id("gemma4:e4b"));
    assert!(is_ollama_model_id("a:b:c"));
    assert!(is_ollama_model_id(":"));
    assert!(!is_ollama_model_id("gemma4"));
    assert!(!is_ollama_model_id(""));
    assert!(!is_ollama_model_id("google/gemma-3:latest"));
    assert!(!is_ollama_model_id("/models:x"));
    assert!(!is_ollama_model_id("./models:x"));
    assert!(!is_ollama_model_id(".hidden:x"));
    assert!(!is_ollama_model_id("../a:b"));
}

#[test]
fn names_and_tags_are_split_at_the_last_colon() {
    assert_eq!(split_name_tag("gemma4:e4b"), ("gemma4", "e4b"));
    assert_eq!(split_name_tag("gemma4"), ("gemma4", "latest"));
    assert_eq!(split_name_tag("a:b:c"), ("a:b", "c"));
    assert_eq!(split_name_tag("a:"), ("a", ""));
    assert_eq!(split_name_tag(":t"), ("", "t"));
    assert_eq!(split_name_tag("日本:é"), ("日本", "é"));
}

#[test]
fn what_is_split_is_joined_again() {
    for s in ["gemma4:e4b", "a:b:c", "a:", ":"] {
        let (name, tag) = split_name_tag(s);
        assert_eq!(show_name_tag(name, tag), s);
        assert_eq!(split_name_tag(&show_name_tag(name, tag)), (name, tag));
    }
    assert_eq!(split_name_tag("phi:latest"), split_name_tag("phi"));
}

#[test]
fn digests_become_file_names() {
    assert_eq!(digest_to_filename("sha256:abc"), "sha256-abc");
    assert_eq!(digest_to_filename("sha256:a:b"), "sha256-a:b");
    assert_eq!(digest_to_filename("plain"), "plain");
    assert_eq!(digest_to_filename(":"), "-");
    assert_ne!(digest_to_filename("sha256:abc"), digest_to_filename("sha256:abd"));
}

#[test]
fn the_store_lies_under_home_unless_it_is_moved() {
    assert_eq!(parts(&ollama_models_dir(bases(None))), (PathBase::Home, vec![".ollama", "models"]));
    assert_eq!(parts(&ollama_models_dir(bases(SET))), (PathBase::OllamaModels, vec![]));
    assert_eq!(parts(&blobs_dir(bases(None))), (PathBase::Home, vec![".ollama", "models", "blobs"]));
    assert_eq!(parts(&manifests_root(bases(SET))), (PathBase::OllamaModels, vec!["manifests"]));
    assert_eq!(
        parts(&metadata_cache_dir("gemma4:e4b")),
        (PathBase::Cache, vec!["ollama", "gemma4", "e4b"])
    );
    assert_eq!(parts(&metadata_cache_dir("phi")), (PathBase::Cache, vec!["ollama", "phi", "latest"]));
}

#[test]
fn blob_paths_are_absolute_however_their_base_is_written() {
    let path = |bases| parse_manifest(good(), "gemma4:e4b", bases).unwrap().gguf_path;
    assert!(!path(bases(None)).from_here);
    assert!(!path(bases(SET)).from_here);
    let relative = bases(Some(Written::Relative));
    assert_eq!(
        parts(&path(relative)),
        (PathBase::OllamaModels, vec!["blobs", "sha256-one"])
    );
    assert!(path(relative).from_here);
    let homeless = Bases { home: Written::Relative, ..bases(None) };
    assert_eq!(path(homeless).base, PathBase::Home);
    assert!(path(homeless).from_here);
}

#[test]
fn other_paths_stay_as_their_base_is_written() {
    let relative = bases(Some(Written::Relative));
    assert!(!ollama_models_dir(relative).from_here);
    assert!(!manifests_root(relative).from_here);
    assert!(!blobs_dir(relative).from_here);
    let plan = plan_blobs(&manifest(), relative).unwrap();
    assert!(!plan.gguf.from_here && !plan.config.from_here);
    assert!(!metadata_cache_dir("phi").from_here);
}

#[test]
fn only_the_entries_of_a_model_matter() {
    assert!(is_entry_of(&file("PHI"), &file("Latest"), "phi"));
    assert!(!is_entry_of(&file("phi"), &file("3"), "phi"));
    assert!(!is_entry_of(&file("phi2"), &file("latest"), "phi"));
    let odd = FileName { text: "phi".to_string(), is_unicode: false };
    assert!(!is_entry_of(&odd, &file("latest"), "phi"));
    let entries = || vec![entry("phi", "3", sized(1)), entry("Phi", "x", sized(2))];
    let kept = entries().into_iter().filter(|e| is_entry_of(&e.name, &e.tag, "phi:x")).collect();
    let found = find_ollama_model("phi:x", store(kept)).unwrap();
    assert_eq!(facts(&found), facts(&find_ollama_model("phi:x", store(entries())).unwrap()));
}

fn layer(media_type: &str, digest: &str, size: u64) -> ManifestLayer {
    ManifestLayer { media_type: media_type.to_string(), digest: digest.to_string(), size }
}

const MODEL: &str = "application/vnd.ollama.image.model";

fn manifest() -> OllamaManifest {
    OllamaManifest {
        config: layer("application/vnd.docker.container.image.v1+json", "sha256:cfg", 5),
        layers: vec![
            layer("application/vnd.ollama.image.license", "sha256:lic", 1),
            layer(MODEL, "sha256:one", 9608338848),
            layer(MODEL, "sha256:two", 2),
        ],
    }
}

fn config() -> OllamaConfigBlob {
    OllamaConfigBlob {
        model_family: Some("gemma4".to_string()),
        model_families: Some(vec!["other".to_string()]),
        model_type: Some("8.0B".to_string()),
        file_type: Some("Q4_K_M".to_string()),
    }
}

fn blobs(gguf_exists: bool, config: Option<OllamaConfigBlob>) -> Blobs {
    Blobs { gguf_exists, gguf_shown: "/blobs/sha256-one".to_string(), config }
}

fn good() -> ManifestRead {
    ManifestRead::Parsed { manifest: manifest(), blobs: blobs(true, Some(config())) }
}

fn unreadable() -> ManifestRead {
    ManifestRead::Unreadable { path: "/m/x".to_string(), cause: "denied".to_string() }
}

fn facts(m: &OllamaModel) -> (&str, &str, &str, &str, u64) {
    (&m.display_name, &m.family, &m.model_type, &m.quantization, m.size_bytes)
}

#[test]
fn a_manifest_leads_to_its_first_model_layer() {
    let plan = plan_blobs(&manifest(), bases(None)).unwrap();
    assert_eq!(
        parts(&plan.gguf),
        (PathBase::Home, vec![".ollama", "models", "blobs", "sha256-one"])
    );
    assert_eq!(
        parts(&plan.config),
        (PathBase::Home, vec![".ollama", "models", "blobs", "sha256-cfg"])
    );
    let m = parse_manifest(good(), "gemma4:e4b", bases(SET)).unwrap();
    assert_eq!(facts(&m), ("gemma4:e4b", "gemma4", "8.0B", "Q4_K_M", 9608338848));
    assert_eq!(parts(&m.gguf_path), (PathBase::OllamaModels, vec!["blobs", "sha256-one"]));
}

#[test]
fn missing_configuration_is_filled_in() {
    let read = |config| ManifestRead::Parsed { manifest: manifest(), blobs: blobs(true, config) };
    let m = parse_manifest(read(None), "a:b", bases(None)).unwrap();
    assert_eq!(facts(&m), ("a:b", "unknown", "?", "?", 9608338848));
    let m = parse_manifest(read(Some(OllamaConfigBlob::default())), "a:b", bases(None)).unwrap();
    assert_eq!(m.family, "unknown");
    let families = |v: Vec<&str>| OllamaConfigBlob {
        model_families: Some(v.iter().map(|f| f.to_string()).collect()),
        ..Default::default()
    };
    let m = parse_manifest(read(Some(families(vec!["llama", "clip"]))), "a:b", bases(None)).unwrap();
    assert_eq!(m.family, "llama");
    let m = parse_manifest(read(Some(families(vec![]))), "a:b", bases(None)).unwrap();
    assert_eq!(m.family, "unknown");
}

#[test]
fn manifests_that_give_no_model_say_why() {
    let e = parse_manifest(unreadable(), "a:b", bases(None)).unwrap_err();
    assert_eq!(e.message(), "Cannot read /m/x");
    assert!(matches!(e, ManifestError::Unreadable { cause, .. } if cause == "denied"));

    let invalid = ManifestRead::Invalid { cause: "eof".to_string() };
    let e = parse_manifest(invalid, "a:b", bases(None)).unwrap_err();
    assert_eq!(e.message(), "Invalid Ollama manifest JSON");
    assert!(matches!(e, ManifestError::Invalid { cause } if cause == "eof"));

    let mut none = manifest();
    none.layers.truncate(1);
    assert!(plan_blobs(&none, bases(None)).is_none());
    let read = ManifestRead::Parsed { manifest: none, blobs: blobs(false, None) };
    let e = parse_manifest(read, "a:b", bases(None)).unwrap_err();
    assert_eq!(e.message(), "No model layer in Ollama manifest");

    let read = ManifestRead::Parsed { manifest: manifest(), blobs: blobs(false, None) };
    let e = parse_manifest(read, "a:b", bases(None)).unwrap_err();
    assert_eq!(e.message(), "GGUF blob missing: /blobs/sha256-one — try `ollama pull a:b`");
}

fn file(text: &str) -> FileName {
    FileName { text: text.to_string(), is_unicode: true }
}

fn entry(name: &str, tag: &str, manifest: ManifestRead) -> StoreEntry {
    StoreEntry { name: file(name), tag: file(tag), manifest }
}

fn sized(size: u64) -> ManifestRead {
    let mut m = manifest();
    m.layers[1].size = size;
    ManifestRead::Parsed { manifest: m, blobs: blobs(true, Some(config())) }
}

fn store(entries: Vec<StoreEntry>) -> OllamaStore {
    OllamaStore { bases: bases(None), root: "/o/manifests".to_string(), exists: true, entries }
}

#[test]
fn models_are_found_by_name_and_tag() {
    let entries = || {
        vec![
            entry("gemma4", "e2b", sized(1)),
            entry("Gemma4", "E4B", sized(2)),
            entry("gemma4", "e4b", sized(3)),
            entry("phi", "latest", sized(4)),
        ]
    };
    let find = |q: &str| find_ollama_model(q, store(entries())).unwrap();
    assert_eq!(facts(&find("gemma4:e4b")), ("gemma4:e4b", "gemma4", "8.0B", "Q4_K_M", 2));
    assert_eq!(facts(&find("GEMMA4:e4b")), ("GEMMA4:e4b", "gemma4", "8.0B", "Q4_K_M", 2));
    assert_eq!(find("gemma4:e2b").size_bytes, 1);
    assert_eq!(facts(&find("phi")), ("phi:latest", "gemma4", "8.0B", "Q4_K_M", 4));
    assert_eq!(find("phi:latest").size_bytes, 4);
}

#[test]
fn models_that_are_not_found_are_reported() {
    let mut gone = store(vec![entry("phi", "latest", good())]);
    gone.exists = false;
    let e = find_ollama_model("phi", gone).unwrap_err();
    assert_eq!(
        e.message(),
        "Ollama model directory not found at /o/manifests — is Ollama installed?"
    );
    assert!(matches!(e, OllamaError::StoreMissing { .. }));

    let e = find_ollama_model("phi:x", store(vec![entry("phi", "latest", good())])).unwrap_err();
    assert_eq!(
        e.message(),
        "Ollama model 'phi:x' not found locally.\nRun `ollama pull phi:x` to download it first."
    );
    assert!(matches!(e, OllamaError::NotFound { .. }));

    let e = find_ollama_model("phi", store(vec![entry("phi", "latest", unreadable())])).unwrap_err();
    assert_eq!(e.message(), "Failed to parse manifest for phi");
    assert!(matches!(
        e,
        OllamaError::Manifest { cause: ManifestError::Unreadable { .. }, .. }
    ));
}

#[test]
fn the_first_match_decides_even_where_it_gives_no_model() {
    let entries = vec![entry("phi", "latest", unreadable()), entry("phi", "latest", good())];
    assert!(matches!(
        find_ollama_model("phi", store(entries)),
        Err(OllamaError::Manifest { .. })
    ));
}

#[test]
fn names_that_are_no_unicode_are_not_found() {
    let mut odd = entry("ph\u{fffd}", "latest", good());
    odd.name.is_unicode = false;
    assert!(matches!(
        find_ollama_model("ph\u{fffd}", store(vec![odd])),
        Err(OllamaError::NotFound { .. })
    ));
    let mut odd = entry("ph\u{fffd}", "latest", good());
    odd.name.is_unicode = false;
    let listed = list_ollama_models(store(vec![odd])).unwrap();
    assert_eq!(listed[0].display_name, "ph\u{fffd}:latest");
}

#[test]
fn models_are_listed_by_name() {
    let entries = vec![
        entry("phi", "latest", sized(1)),
        entry("Zeta", "x", sized(2)),
        entry("broken", "x", unreadable()),
        entry("phi", "latest", sized(3)),
        entry("é", "x", sized(4)),
        entry("gemma4", "e4b", sized(5)),
        entry("phi", "3", sized(6)),
    ];
    let listed = list_ollama_models(store(entries)).unwrap();
    let got: Vec<(&str, u64)> =
        listed.iter().map(|m| (m.display_name.as_str(), m.size_bytes)).collect();
    assert_eq!(
        got,
        vec![
            ("Zeta:x", 2),
            ("gemma4:e4b", 5),
            ("phi:3", 6),
            ("phi:latest", 1),
            ("phi:latest", 3),
            ("é:x", 4),
        ]
    );
}

#[test]
fn a_store_that_is_not_there_lists_nothing() {
    let mut gone = store(vec![entry("phi", "latest", good())]);
    gone.exists = false;
    assert!(list_ollama_models(gone).unwrap().is_empty());
    assert!(list_ollama_models(store(vec![])).unwrap().is_empty());
}

#[test]
fn what_is_listed_is_found() {
    let entries = || vec![entry("phi", "3", sized(1)), entry("gemma4", "e4b", sized(2))];
    for m in list_ollama_models(store(entries())).unwrap() {
        let found = find_ollama_model(&m.display_name, store(entries())).unwrap();
        assert_eq!(facts(&found), facts(&m));
    }
}
