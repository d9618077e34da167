//! GGUF files.
use candle_core::quantized::gguf_file::{Content, TensorInfo, VersionedMagic};
use candle_core::quantized::GgmlDType;
use candle_core::Shape;
use inferrs::gguf::{
    check_shape, dims_text, is_norm_weight, load_device, missing_tensor_path, plan_builder,
    GgufNaming,
};
use std::collections::HashMap;

fn content(names: &[&str]) -> Content {
    let mut tensor_infos = HashMap::new();
    for name in names {
        tensor_infos.insert(
            name.to_string(),
            TensorInfo { ggml_dtype: GgmlDType::F32, shape: Shape::from(vec![1usize]), offset: 0 },
        );
    }
    Content {
        magic: VersionedMagic::GgufV3,
        metadata: HashMap::new(),
        tensor_infos,
        tensor_data_offset: 0,
    }
}

#[test]
fn naming_goes_by_the_token_embedding() {
    assert_eq!(
        GgufNaming::detect(&content(&["blk.0.attn_q.weight", "token_embd.weight"])),
        GgufNaming::LlamaCpp
    );
    assert_eq!(
        GgufNaming::detect(&content(&["model.embed_tokens.weight"])),
        GgufNaming::HuggingFace
    );
    assert_eq!(GgufNaming::detect(&content(&[])), GgufNaming::HuggingFace);
    assert_eq!(GgufNaming::from_token_embd(true), GgufNaming::LlamaCpp);
    assert_eq!(GgufNaming::from_token_embd(false), GgufNaming::HuggingFace);
}

#[test]
fn rename_and_norm_fix_are_for_llama_cpp_names() {
    let plan = plan_builder(GgufNaming::LlamaCpp, Some(7), true);
    assert_eq!((plan.norm_fix, plan.rename), (true, Some(7)));
    let plan = plan_builder(GgufNaming::LlamaCpp, Some(7), false);
    assert_eq!((plan.norm_fix, plan.rename), (false, Some(7)));
    let plan = plan_builder::<u8>(GgufNaming::LlamaCpp, None, true);
    assert_eq!((plan.norm_fix, plan.rename), (true, None));
    let plan = plan_builder(GgufNaming::HuggingFace, Some(7), true);
    assert_eq!((plan.norm_fix, plan.rename), (false, None));
}

#[test]
fn norm_weights_are_told_by_their_end() {
    assert!(is_norm_weight("blk.2.attn_norm.weight"));
    assert!(is_norm_weight("norm.weight"));
    assert!(!is_norm_weight("blk.2.attn_q.weight"));
    assert!(!is_norm_weight("norm.weight2"));
    assert!(!is_norm_weight("orm.weight"));
}

#[test]
fn cpu_requests_are_honoured() {
    assert_eq!(*load_device(&"cpu", true, &"gpu"), "cpu");
    assert_eq!(*load_device(&"gpu 1", false, &"gpu 0"), "gpu 0");
}

#[test]
fn missing_tensors_are_reported_with_the_cause() {
    assert_eq!(missing_tensor_path("a.weight", "no such tensor"), "a.weight: no such tensor");
}

#[test]
fn dimensions_are_shown_as_candle_shows_them() {
    for dims in [vec![], vec![0usize], vec![7, 10], vec![1, 262144, 4096], vec![usize::MAX, 99]] {
        assert_eq!(dims_text(&dims), format!("{:?}", Shape::from(dims.clone())));
    }
}

#[test]
fn shapes_are_compared() {
    assert_eq!(check_shape("w", &[2, 3], &[2, 3], 7), Ok(7));
    assert_eq!(check_shape("w", &[], &[], "t"), Ok("t"));
    assert_eq!(
        check_shape("blk.0.w", &[2, 3], &[3, 2], 7),
        Err("shape mismatch for blk.0.w: expected [2, 3], got [3, 2]".to_string())
    );
    assert_eq!(
        check_shape("w", &[2, 3], &[2], 7),
        Err("shape mismatch for w: expected [2, 3], got [2]".to_string())
    );
}
