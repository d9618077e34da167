//! `inferrs list`.
use inferrs::list::{
    folder_to_model_id, hf_models, is_model_folder, ollama_models, run, CacheEntry, ListArgs,
    ListRow,
};
use inferrs::manifest::{Blobs, ManifestLayer, ManifestRead, OllamaConfigBlob, OllamaManifest};
use inferrs::paths::{Bases, Written};
use inferrs::store::{FileName, OllamaStore, StoreEntry};

#[test]
fn folders_lead_back_to_models() {
    assert_eq!(folder_to_model_id("models--Org--Name"), "Org/Name");
    assert_eq!(folder_to_model_id("models--google--gemma-3-4b-it"), "google/gemma-3-4b-it");
    assert_eq!(folder_to_model_id("models--gpt2"), "gpt2");
    assert_eq!(folder_to_model_id("Org--Name"), "Org/Name");
    assert_eq!(folder_to_model_id("models--a---b"), "a/-b");
    assert_eq!(folder_to_model_id("models--a----b"), "a//b");
    assert_eq!(folder_to_model_id(""), "");
}

fn cached(folder: &str, is_dir: bool, size_bytes: u64) -> CacheEntry {
    CacheEntry { folder: folder.to_string(), is_dir, size_bytes }
}

#[test]
fn cached_models_are_listed_by_id() {
    assert!(is_model_folder("models--a", true));
    assert!(!is_model_folder("models--a", false));
    assert!(!is_model_folder("datasets--a", true));
    let listed = hf_models(&vec![
        cached("models--b--y", true, 2),
        cached("datasets--a--z", true, 9),
        cached("models--a--z", true, 1),
        cached("models--a--file", false, 9),
        cached("version.txt", false, 9),
    ]);
    let got: Vec<(&str, u64, bool)> =
        listed.iter().map(|e| (e.id.as_str(), e.size_bytes, e.note.is_none())).collect();
    assert_eq!(got, vec![("a/z", 1, true), ("b/y", 2, true)]);
}

#[test]
fn ollama_models_are_listed_with_a_note() {
    let layer = |media_type: &str, size| ManifestLayer {
        media_type: media_type.to_string(),
        digest: "sha256:x".to_string(),
        size,
    };
    let entry = |name: &str, size| StoreEntry {
        name: FileName { text: name.to_string(), is_unicode: true },
        tag: FileName { text: "t".to_string(), is_unicode: true },
        manifest: ManifestRead::Parsed {
            manifest: OllamaManifest {
                config: layer("c", 1),
                layers: vec![layer("application/vnd.ollama.image.model", size)],
            },
            blobs: Blobs {
                gguf_exists: true,
                gguf_shown: String::new(),
                config: Some(OllamaConfigBlob {
                    model_family: Some("gemma4".to_string()),
                    model_families: None,
                    model_type: Some("8.0B".to_string()),
                    file_type: Some("Q4_K_M".to_string()),
                }),
            },
        },
    };
    let listed = ollama_models(OllamaStore {
        bases: Bases {
            home: Written::Absolute,
            ollama_models: None,
            cache: Written::Absolute,
        },
        root: String::new(),
        exists: true,
        entries: vec![entry("b", 2), entry("a", 1)],
    });
    let got: Vec<(&str, u64, Option<&str>)> =
        listed.iter().map(|e| (e.id.as_str(), e.size_bytes, e.note.as_deref())).collect();
    assert_eq!(
        got,
        vec![("a:t", 1, Some("gemma4 8.0B (Q4_K_M)")), ("b:t", 2, Some("gemma4 8.0B (Q4_K_M)"))]
    );
}

fn row(id: &str, size: &str, note: Option<&str>) -> ListRow {
    ListRow { id: id.to_string(), size: size.to_string(), note: note.map(|n| n.to_string()) }
}

#[test]
fn an_empty_list_says_so() {
    assert_eq!(run(ListArgs {}, &vec![], &vec![]), "No models found.\n");
}

#[test]
fn models_are_printed_in_columns() {
    let hf = vec![row("a/long-name", "1 GB", None), row("b/x", "2 MB", Some("note"))];
    let ollama = vec![row("é:t", "3 KB", Some("gemma4 8.0B (Q4_K_M)"))];
    assert_eq!(
        run(ListArgs {}, &hf, &ollama),
        "HuggingFace\n\
        \x20 a/long-name  1 GB\n\
        \x20 b/x          2 MB  note\n\
         \n\
         Ollama\n\
        \x20 é:t          3 KB  gemma4 8.0B (Q4_K_M)\n"
    );
    assert_eq!(
        run(ListArgs {}, &hf, &vec![]),
        "HuggingFace\n  a/long-name  1 GB\n  b/x          2 MB  note\n"
    );
    assert_eq!(
        run(ListArgs {}, &vec![], &ollama),
        format!("Ollama\n  {:<width$}  3 KB  gemma4 8.0B (Q4_K_M)\n", "é:t", width = "é:t".len())
    );
}
