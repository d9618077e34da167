//! From Ollama models to HuggingFace models.
use inferrs::json::find_string;
use inferrs::load::plan_load;
use inferrs::manifest::OllamaModel;
use inferrs::paths::{LocalPath, PathBase};
use inferrs::resolve::{
    map_key, normalise_size, resolve_hf_model_id, size_number, user_map_lookup, user_map_path,
    ResolveError, ResolveInput,
};
use std::collections::HashMap;

fn model(family: &str, model_type: &str) -> OllamaModel {
    OllamaModel {
        display_name: "gemma4:e4b".to_string(),
        family: family.to_string(),
        model_type: model_type.to_string(),
        quantization: "Q4_K_M".to_string(),
        gguf_path: LocalPath::at(PathBase::OllamaModels).join("blobs").join("sha256-one"),
        size_bytes: 7,
    }
}

fn one_decimal(text: &str) -> Option<String> {
    text.parse::<f64>().ok().map(|v| format!("{v:.1}"))
}

fn normalised(model_type: &str) -> String {
    normalise_size(model_type, one_decimal(size_number(model_type)).as_deref())
}

#[test]
fn sizes_get_one_decimal() {
    assert_eq!(normalised("8.0B"), "8.0");
    assert_eq!(normalised("8B"), "8.0");
    assert_eq!(normalised("3.8B"), "3.8");
    assert_eq!(normalised(" 70 B"), "70.0");
    assert_eq!(normalised("?"), "?");
    assert_eq!(normalised("999.89M"), "999.89M");
}

#[test]
fn sizes_are_normalised_once() {
    for size in ["8.0B", "8B", "8BB", "3.8B", "0.25B", "1e3B", "B", "", "?", "999.89M", "x7B"] {
        let key = normalised(size);
        assert_eq!(normalised(&key), key);
        assert_eq!(normalised(&format!("{size}B")), key);
        assert_eq!(size_number(size_number(size)), size_number(size));
        assert_eq!(size_number(&format!("{size}B")), size_number(size));
    }
    assert_eq!(size_number(size_number("8B ")), "8");
}

#[test]
fn sizes_lose_unit_and_space() {
    assert_eq!(size_number("8.0B"), "8.0");
    assert_eq!(size_number("8BBB"), "8");
    assert_eq!(size_number(" 8 B"), "8");
    assert_eq!(size_number("8B "), "8B");
    assert_eq!(size_number("B"), "");
    assert_eq!(size_number("\u{2003}x\n"), "x");
}

#[test]
fn keys_hold_family_and_size() {
    assert_eq!(map_key(&model("gemma4", "8B"), Some("8.0")), "gemma4:8.0");
    assert_eq!(map_key(&model("unknown", "?"), None), "unknown:?");
    assert_eq!(map_key(&model("a", " x B"), None), "a:x");
}

#[test]
fn the_user_map_lies_under_home() {
    let path = user_map_path();
    assert_eq!(path.base, PathBase::Home);
    assert_eq!(path.parts, [".config", "inferrs", "ollama-map.json"]);
}

#[test]
fn user_maps_are_objects_with_strings() {
    let look = |text: &str, key: &str| user_map_lookup(Some(text), key);
    assert_eq!(look(r#"{"gemma4:8.0": "google/g"}"#, "gemma4:8.0"), Some("google/g".to_string()));
    assert_eq!(look(r#"{"a": "x", "b": "y", "a": "z"}"#, "a"), Some("z".to_string()));
    assert_eq!(look(r#"{"\u0061": "\u00e9\n"}"#, "a"), Some("é\n".to_string()));
    assert_eq!(look(r#"{"a": "x"}"#, "b"), None);
    assert_eq!(look(r#"{"a": 3, "b": null, "c": ["x"]}"#, "a"), None);
    assert_eq!(look(r#"["a"]"#, "a"), None);
    assert_eq!(look("not json", "a"), None);
    assert_eq!(look("", "a"), None);
    assert_eq!(look(r#"{"a": "x"} trailing"#, "a"), None);
    assert_eq!(user_map_lookup(None, "a"), None);
}

#[test]
fn entries_are_searched_by_key() {
    let entries = vec![
        ("a".to_string(), None),
        ("b".to_string(), Some("x".to_string())),
    ];
    assert_eq!(find_string(&entries, "a"), None);
    assert_eq!(find_string(&entries, "b"), Some("x".to_string()));
    assert_eq!(find_string(&entries, "c"), None);
}

fn input<'a>(user_map: Option<&'a str>, bundled_map: &'a str) -> ResolveInput<'a> {
    ResolveInput {
        one_decimal: Some("8.0"),
        user_map,
        bundled_map,
        map_path: "/h/.config/inferrs/ollama-map.json",
        gguf: "/o/blobs/sha256-one",
    }
}

#[test]
fn the_user_map_goes_first() {
    let m = model("gemma4", "8.0B");
    let user = r#"{"gemma4:8.0": "me/mine"}"#;
    let bundled = r#"{"gemma4:8.0": "google/gemma"}"#;
    assert_eq!(resolve_hf_model_id(&m, &input(Some(user), bundled)).unwrap(), "me/mine");
    assert_eq!(resolve_hf_model_id(&m, &input(None, bundled)).unwrap(), "google/gemma");
    assert_eq!(resolve_hf_model_id(&m, &input(Some("{}"), bundled)).unwrap(), "google/gemma");
    assert_eq!(resolve_hf_model_id(&m, &input(Some("oops"), bundled)).unwrap(), "google/gemma");
    assert_eq!(resolve_hf_model_id(&m, &input(Some(user), "oops")).unwrap(), "me/mine");
}

#[test]
fn a_broken_bundled_map_is_a_bug() {
    for text in ["[]", "", "{", r#"{"a": }"#] {
        let e = resolve_hf_model_id(&model("gemma4", "8.0B"), &input(None, text)).unwrap_err();
        assert_eq!(e.message(), "bundled ollama_map.json is invalid — please file a bug");
        let error =
            serde_json::from_str::<HashMap<String, serde_json::Value>>(text).unwrap_err();
        assert!(matches!(e, ResolveError::BundledInvalid { cause } if cause == error.to_string()));
    }
    let e = resolve_hf_model_id(&model("gemma4", "8.0B"), &input(Some("[1"), "[]")).unwrap_err();
    assert!(matches!(
        e,
        ResolveError::BundledInvalid { cause }
            if cause == "invalid type: sequence, expected a map at line 1 column 0"
    ));
}

#[test]
fn unknown_models_get_advice_that_suffices() {
    let m = model("gemma4", "8.0B");
    let e = resolve_hf_model_id(&m, &input(Some("{}"), r#"{"gemma4:8.0": 1}"#)).unwrap_err();
    assert!(matches!(e, ResolveError::NoMapping { .. }));
    assert_eq!(
        e.message(),
        "No HuggingFace model mapping for Ollama model 'gemma4:e4b' \
         (family=gemma4, size=8.0B, key=gemma4:8.0).\n\
         \n\
         Add it to your override map at:\n  /h/.config/inferrs/ollama-map.json\n\
         \n\
         Entry to add:\n  \"gemma4:8.0\": \"<org/model-name-on-huggingface>\"\n\
         \n\
         Find the HuggingFace model ID at:\n  https://huggingface.co/models\n\
         Search for: gemma4 8.0B\n\
         \n\
         Or bypass the map entirely with --gguf:\n  \
         inferrs serve <hf-model-id> --gguf /o/blobs/sha256-one"
    );
    let amended = r#"{"gemma4:8.0": "google/gemma"}"#;
    assert_eq!(resolve_hf_model_id(&m, &input(Some(amended), "{}")).unwrap(), "google/gemma");
}

#[test]
fn loading_fetches_metadata_and_keeps_the_blob() {
    let bundled = r#"{"gemma4:8.0": "google/gemma"}"#;
    let plan = plan_load("Gemma4:e4b", model("gemma4", "8.0B"), &input(None, bundled)).unwrap();
    assert_eq!(plan.hf_id, "google/gemma");
    assert_eq!(plan.cache_dir.base, PathBase::Cache);
    assert_eq!(plan.cache_dir.parts, ["ollama", "Gemma4", "e4b"]);
    assert_eq!(plan.gguf.base, PathBase::OllamaModels);
    assert!(!plan.gguf.from_here);
    assert_eq!(plan.gguf.parts, ["blobs", "sha256-one"]);

    let e = plan_load("gemma4:e4b", model("other", "8.0B"), &input(None, bundled)).unwrap_err();
    assert!(matches!(e, ResolveError::NoMapping { .. }));
    let e = plan_load("gemma4:e4b", model("gemma4", "8.0B"), &input(None, "oops")).unwrap_err();
    assert!(matches!(e, ResolveError::BundledInvalid { .. }));
}
