//! The names of tensors.
use inferrs::rename::{
    gemma3_hf_to_llama, gemma4_hf_to_llama, qwen35_hf_to_llama, qwen3_hf_to_llama,
};

/// Check every `(input, expected)` pair against a rename function.
/// Reports the failing input on assertion failure.
fn check(f: fn(&str) -> String, cases: &[(&str, &str)]) {
    for (input, expected) in cases {
        assert_eq!(f(input), *expected, "rename({input:?})");
    }
}

#[test]
fn gemma4_rename_table() {
    check(gemma4_hf_to_llama, &[
        // globals
        ("model.language_model.embed_tokens.weight",              "token_embd.weight"),
        ("model.language_model.embed_tokens_per_layer.weight",    "per_layer_token_embd.weight"),
        ("model.language_model.per_layer_model_projection.weight","per_layer_model_proj.weight"),
        ("model.language_model.per_layer_projection_norm.weight", "per_layer_proj_norm.weight"),
        ("model.language_model.norm.weight",                      "output_norm.weight"),
        // attention (spot-check a few layer indices)
        ("model.language_model.layers.0.self_attn.q_proj.weight",  "blk.0.attn_q.weight"),
        ("model.language_model.layers.5.self_attn.k_proj.weight",  "blk.5.attn_k.weight"),
        ("model.language_model.layers.12.self_attn.v_proj.weight", "blk.12.attn_v.weight"),
        ("model.language_model.layers.3.self_attn.o_proj.weight",  "blk.3.attn_output.weight"),
        ("model.language_model.layers.7.self_attn.q_norm.weight",  "blk.7.attn_q_norm.weight"),
        ("model.language_model.layers.7.self_attn.k_norm.weight",  "blk.7.attn_k_norm.weight"),
        // norms
        ("model.language_model.layers.2.input_layernorm.weight",            "blk.2.attn_norm.weight"),
        ("model.language_model.layers.2.pre_feedforward_layernorm.weight",  "blk.2.ffn_norm.weight"),
        ("model.language_model.layers.2.post_feedforward_layernorm.weight", "blk.2.post_ffw_norm.weight"),
        ("model.language_model.layers.2.post_attention_layernorm.weight",   "blk.2.post_attention_norm.weight"),
        // mlp
        ("model.language_model.layers.10.mlp.gate_proj.weight", "blk.10.ffn_gate.weight"),
        ("model.language_model.layers.10.mlp.up_proj.weight",   "blk.10.ffn_up.weight"),
        ("model.language_model.layers.10.mlp.down_proj.weight", "blk.10.ffn_down.weight"),
        // per-layer inputs
        ("model.language_model.layers.1.per_layer_input_gate.weight",    "blk.1.inp_gate.weight"),
        ("model.language_model.layers.1.per_layer_projection.weight",    "blk.1.proj.weight"),
        ("model.language_model.layers.1.post_per_layer_input_norm.weight","blk.1.post_norm.weight"),
        ("model.language_model.layers.1.layer_scalar",                   "blk.1.layer_output_scale.weight"),
        // unknown names pass through unchanged
        ("model.some_future_tensor.weight", "model.some_future_tensor.weight"),
        ("lm_head.weight",                  "lm_head.weight"),
    ]);
}

#[test]
fn gemma3_rename_table() {
    check(gemma3_hf_to_llama, &[
        // globals
        ("model.embed_tokens.weight", "token_embd.weight"),
        ("model.norm.weight",         "output_norm.weight"),
        // attention
        ("model.layers.0.self_attn.q_proj.weight",  "blk.0.attn_q.weight"),
        ("model.layers.4.self_attn.k_proj.weight",  "blk.4.attn_k.weight"),
        ("model.layers.4.self_attn.v_proj.weight",  "blk.4.attn_v.weight"),
        ("model.layers.4.self_attn.o_proj.weight",  "blk.4.attn_output.weight"),
        ("model.layers.6.self_attn.q_norm.weight",  "blk.6.attn_q_norm.weight"),
        ("model.layers.6.self_attn.k_norm.weight",  "blk.6.attn_k_norm.weight"),
        // norms (all 4 per layer)
        ("model.layers.2.input_layernorm.weight",            "blk.2.attn_norm.weight"),
        ("model.layers.2.pre_feedforward_layernorm.weight",  "blk.2.ffn_norm.weight"),
        ("model.layers.2.post_feedforward_layernorm.weight", "blk.2.post_ffw_norm.weight"),
        ("model.layers.2.post_attention_layernorm.weight",   "blk.2.post_attention_norm.weight"),
        // mlp
        ("model.layers.9.mlp.gate_proj.weight", "blk.9.ffn_gate.weight"),
        ("model.layers.9.mlp.up_proj.weight",   "blk.9.ffn_up.weight"),
        ("model.layers.9.mlp.down_proj.weight", "blk.9.ffn_down.weight"),
        // unknown passthrough (no separate lm_head — tied)
        ("lm_head.weight",                  "lm_head.weight"),
        ("model.some_future_tensor.weight", "model.some_future_tensor.weight"),
    ]);
}

#[test]
fn qwen35_rename_table() {
    check(qwen35_hf_to_llama, &[
        // globals
        ("model.language_model.embed_tokens.weight", "token_embd.weight"),
        ("model.language_model.norm.weight",         "output_norm.weight"),
        // full-attention layer
        ("model.language_model.layers.0.self_attn.q_proj.weight", "blk.0.attn_q.weight"),
        ("model.language_model.layers.0.self_attn.k_proj.weight", "blk.0.attn_k.weight"),
        ("model.language_model.layers.0.self_attn.v_proj.weight", "blk.0.attn_v.weight"),
        ("model.language_model.layers.0.self_attn.o_proj.weight", "blk.0.attn_output.weight"),
        ("model.language_model.layers.3.self_attn.q_norm.weight", "blk.3.attn_q_norm.weight"),
        ("model.language_model.layers.3.self_attn.k_norm.weight", "blk.3.attn_k_norm.weight"),
        // norms (both layer types share the same norm names)
        ("model.language_model.layers.1.input_layernorm.weight",          "blk.1.attn_norm.weight"),
        ("model.language_model.layers.1.post_attention_layernorm.weight", "blk.1.post_attention_norm.weight"),
        // mlp
        ("model.language_model.layers.5.mlp.gate_proj.weight", "blk.5.ffn_gate.weight"),
        ("model.language_model.layers.5.mlp.up_proj.weight",   "blk.5.ffn_up.weight"),
        ("model.language_model.layers.5.mlp.down_proj.weight", "blk.5.ffn_down.weight"),
        // linear-attention (SSM) tensors — verified against actual Ollama GGUF blk.0/blk.2
        ("model.language_model.layers.2.linear_attn.in_proj_qkv.weight", "blk.2.attn_qkv.weight"),
        ("model.language_model.layers.2.linear_attn.in_proj_z.weight",   "blk.2.attn_gate.weight"),
        ("model.language_model.layers.2.linear_attn.in_proj_a.weight",   "blk.2.ssm_alpha.weight"),
        ("model.language_model.layers.2.linear_attn.in_proj_b.weight",   "blk.2.ssm_beta.weight"),
        ("model.language_model.layers.2.linear_attn.conv1d.weight",      "blk.2.ssm_conv1d.weight"),
        ("model.language_model.layers.2.linear_attn.A_log",              "blk.2.ssm_a"),
        ("model.language_model.layers.2.linear_attn.dt_bias",            "blk.2.ssm_dt"),
        ("model.language_model.layers.2.linear_attn.norm.weight",        "blk.2.ssm_norm.weight"),
        ("model.language_model.layers.2.linear_attn.out_proj.weight",    "blk.2.ssm_out.weight"),
        // unknown passthrough
        ("model.some_future_tensor.weight", "model.some_future_tensor.weight"),
    ]);
}

#[test]
fn qwen3_rename_table() {
    check(qwen3_hf_to_llama, &[
        // globals
        ("model.embed_tokens.weight", "token_embd.weight"),
        ("model.norm.weight",         "output_norm.weight"),
        ("lm_head.weight",            "output.weight"),
        // attention
        ("model.layers.0.self_attn.q_proj.weight",  "blk.0.attn_q.weight"),
        ("model.layers.3.self_attn.k_proj.weight",  "blk.3.attn_k.weight"),
        ("model.layers.3.self_attn.v_proj.weight",  "blk.3.attn_v.weight"),
        ("model.layers.3.self_attn.o_proj.weight",  "blk.3.attn_output.weight"),
        ("model.layers.5.self_attn.q_norm.weight",  "blk.5.attn_q_norm.weight"),
        ("model.layers.5.self_attn.k_norm.weight",  "blk.5.attn_k_norm.weight"),
        // norms
        ("model.layers.2.input_layernorm.weight",         "blk.2.attn_norm.weight"),
        ("model.layers.2.post_attention_layernorm.weight","blk.2.ffn_norm.weight"),
        // mlp
        ("model.layers.8.mlp.gate_proj.weight", "blk.8.ffn_gate.weight"),
        ("model.layers.8.mlp.up_proj.weight",   "blk.8.ffn_up.weight"),
        ("model.layers.8.mlp.down_proj.weight", "blk.8.ffn_down.weight"),
        // unknown passthrough
        ("model.some_future_tensor.weight", "model.some_future_tensor.weight"),
    ]);
}

fn all() -> [fn(&str) -> String; 4] {
    [gemma4_hf_to_llama, gemma3_hf_to_llama, qwen3_hf_to_llama, qwen35_hf_to_llama]
}

#[test]
fn layer_index_is_kept_as_it_stands() {
    check(gemma3_hf_to_llama, &[
        ("model.layers.007.mlp.up_proj.weight", "blk.007.ffn_up.weight"),
        ("model.layers..mlp.up_proj.weight", "blk..ffn_up.weight"),
        ("model.layers.é.mlp.up_proj.weight", "blk.é.ffn_up.weight"),
    ]);
}

#[test]
fn incomplete_layer_names_pass_through() {
    for f in all() {
        for name in [
            "",
            "model.layers.",
            "model.layers.3",
            "model.layers.3.",
            "model.layers.3.mlp",
            "model.language_model.layers.3",
            "model.language_model.layers.3.",
            "model.layers.3.mlp.up_proj.weight.extra",
            "xmodel.layers.3.mlp.up_proj.weight",
        ] {
            assert_eq!(f(name), name);
        }
    }
}

#[test]
fn each_family_keeps_to_its_own_prefix() {
    check(gemma4_hf_to_llama, &[("model.layers.0.mlp.up_proj.weight", "model.layers.0.mlp.up_proj.weight")]);
    check(gemma3_hf_to_llama, &[(
        "model.language_model.layers.0.mlp.up_proj.weight",
        "model.language_model.layers.0.mlp.up_proj.weight",
    )]);
    check(qwen35_hf_to_llama, &[("model.norm.weight", "model.norm.weight")]);
    check(gemma3_hf_to_llama, &[("model.layers.1.layer_scalar", "model.layers.1.layer_scalar")]);
}

const SAMPLES: [&str; 10] = [
    "model.embed_tokens.weight",
    "model.norm.weight",
    "lm_head.weight",
    "model.language_model.norm.weight",
    "model.language_model.per_layer_projection_norm.weight",
    "model.layers.2.input_layernorm.weight",
    "model.layers.2.self_attn.q_proj.weight",
    "model.language_model.layers.2.linear_attn.norm.weight",
    "model.language_model.layers.2.linear_attn.dt_bias",
    "model.some_future_tensor.weight",
];

#[test]
fn renaming_twice_changes_nothing() {
    for f in all() {
        for name in SAMPLES {
            assert_eq!(f(&f(name)), f(name));
        }
    }
}

#[test]
fn norms_stay_norms() {
    for f in all() {
        for name in SAMPLES {
            assert_eq!(f(name).ends_with("norm.weight"), name.ends_with("norm.weight"), "{name}");
        }
    }
}

#[test]
fn different_tensors_stay_different() {
    for f in all() {
        for a in SAMPLES {
            for b in SAMPLES {
                assert_eq!(f(a) == f(b), a == b);
            }
        }
    }
}

#[test]
fn common_tensors_are_renamed_alike() {
    for (prefix, f) in [
        ("model.language_model.layers.", gemma4_hf_to_llama as fn(&str) -> String),
        ("model.layers.", gemma3_hf_to_llama),
        ("model.layers.", qwen3_hf_to_llama),
        ("model.language_model.layers.", qwen35_hf_to_llama),
    ] {
        assert_eq!(f(&format!("{prefix}11.self_attn.o_proj.weight")), "blk.11.attn_output.weight");
        assert_eq!(f(&format!("{prefix}11.input_layernorm.weight")), "blk.11.attn_norm.weight");
    }
}

#[test]
fn gemma3_layers_are_renamed_as_in_gemma4() {
    for rest in [
        "pre_feedforward_layernorm.weight",
        "post_feedforward_layernorm.weight",
        "post_attention_layernorm.weight",
        "self_attn.k_norm.weight",
        "mlp.down_proj.weight",
    ] {
        let gemma3 = gemma3_hf_to_llama(&format!("model.layers.7.{rest}"));
        let gemma4 = gemma4_hf_to_llama(&format!("model.language_model.layers.7.{rest}"));
        assert!(gemma3.starts_with("blk.7."));
        assert_eq!(gemma3, gemma4);
    }
}
