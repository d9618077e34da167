//! Laws of the renaming, for each model family name by name.
use crate::rename::{
    gemma3_table, gemma4_table, layer_parts, lookup, qwen35_table, qwen3_table, rename,
};
use crate::rename_laws::{
    law_global_renamed, law_layer_renamed, lemma_layer_parts, lemma_lookup,
};
use vstd::prelude::*;
use vstd::string::*;

verus! {

/// The tensors in the layers of Gemma 4: the block has the number of the layer, whatever
/// the number is.
pub proof fn law_gemma4_layers(index: Seq<char>)
    requires
        !index.contains('.'),
    ensures
        rename(gemma4_table(), "model.language_model.layers."@ + index + "."@ + "input_layernorm.weight"@)
            == "blk."@ + index + "."@ + "attn_norm.weight"@,
        rename(gemma4_table(), "model.language_model.layers."@ + index + "."@ + "pre_feedforward_layernorm.weight"@)
            == "blk."@ + index + "."@ + "ffn_norm.weight"@,
        rename(gemma4_table(), "model.language_model.layers."@ + index + "."@ + "post_feedforward_layernorm.weight"@)
            == "blk."@ + index + "."@ + "post_ffw_norm.weight"@,
        rename(gemma4_table(), "model.language_model.layers."@ + index + "."@ + "post_attention_layernorm.weight"@)
            == "blk."@ + index + "."@ + "post_attention_norm.weight"@,
        rename(gemma4_table(), "model.language_model.layers."@ + index + "."@ + "self_attn.q_proj.weight"@)
            == "blk."@ + index + "."@ + "attn_q.weight"@,
        rename(gemma4_table(), "model.language_model.layers."@ + index + "."@ + "self_attn.k_proj.weight"@)
            == "blk."@ + index + "."@ + "attn_k.weight"@,
        rename(gemma4_table(), "model.language_model.layers."@ + index + "."@ + "self_attn.v_proj.weight"@)
            == "blk."@ + index + "."@ + "attn_v.weight"@,
        rename(gemma4_table(), "model.language_model.layers."@ + index + "."@ + "self_attn.o_proj.weight"@)
            == "blk."@ + index + "."@ + "attn_output.weight"@,
        rename(gemma4_table(), "model.language_model.layers."@ + index + "."@ + "self_attn.q_norm.weight"@)
            == "blk."@ + index + "."@ + "attn_q_norm.weight"@,
        rename(gemma4_table(), "model.language_model.layers."@ + index + "."@ + "self_attn.k_norm.weight"@)
            == "blk."@ + index + "."@ + "attn_k_norm.weight"@,
        rename(gemma4_table(), "model.language_model.layers."@ + index + "."@ + "mlp.gate_proj.weight"@)
            == "blk."@ + index + "."@ + "ffn_gate.weight"@,
        rename(gemma4_table(), "model.language_model.layers."@ + index + "."@ + "mlp.up_proj.weight"@)
            == "blk."@ + index + "."@ + "ffn_up.weight"@,
        rename(gemma4_table(), "model.language_model.layers."@ + index + "."@ + "mlp.down_proj.weight"@)
            == "blk."@ + index + "."@ + "ffn_down.weight"@,
        rename(gemma4_table(), "model.language_model.layers."@ + index + "."@ + "per_layer_input_gate.weight"@)
            == "blk."@ + index + "."@ + "inp_gate.weight"@,
        rename(gemma4_table(), "model.language_model.layers."@ + index + "."@ + "per_layer_projection.weight"@)
            == "blk."@ + index + "."@ + "proj.weight"@,
        rename(gemma4_table(), "model.language_model.layers."@ + index + "."@ + "post_per_layer_input_norm.weight"@)
            == "blk."@ + index + "."@ + "post_norm.weight"@,
        rename(gemma4_table(), "model.language_model.layers."@ + index + "."@ + "layer_scalar"@)
            == "blk."@ + index + "."@ + "layer_output_scale.weight"@,
{
    let t = gemma4_table();
    assert forall|i: int| 0 <= i < t.layer.len() implies rename(
        t,
        "model.language_model.layers."@ + index + "."@ + (#[trigger] t.layer[i]).0,
    ) == "blk."@ + index + "."@ + t.layer[i].1 by {
        law_layer_renamed(t, index, i);
    }
    assert(t.layer[0].0 == "input_layernorm.weight"@);
    assert(t.layer[1].0 == "pre_feedforward_layernorm.weight"@);
    assert(t.layer[2].0 == "post_feedforward_layernorm.weight"@);
    assert(t.layer[3].0 == "post_attention_layernorm.weight"@);
    assert(t.layer[4].0 == "self_attn.q_proj.weight"@);
    assert(t.layer[5].0 == "self_attn.k_proj.weight"@);
    assert(t.layer[6].0 == "self_attn.v_proj.weight"@);
    assert(t.layer[7].0 == "self_attn.o_proj.weight"@);
    assert(t.layer[8].0 == "self_attn.q_norm.weight"@);
    assert(t.layer[9].0 == "self_attn.k_norm.weight"@);
    assert(t.layer[10].0 == "mlp.gate_proj.weight"@);
    assert(t.layer[11].0 == "mlp.up_proj.weight"@);
    assert(t.layer[12].0 == "mlp.down_proj.weight"@);
    assert(t.layer[13].0 == "per_layer_input_gate.weight"@);
    assert(t.layer[14].0 == "per_layer_projection.weight"@);
    assert(t.layer[15].0 == "post_per_layer_input_norm.weight"@);
    assert(t.layer[16].0 == "layer_scalar"@);
}

/// The tensors of Gemma 4 outside its layers.
pub proof fn law_gemma4_globals()
    ensures
        rename(gemma4_table(), "model.language_model.embed_tokens.weight"@) == "token_embd.weight"@,
        rename(gemma4_table(), "model.language_model.embed_tokens_per_layer.weight"@) == "per_layer_token_embd.weight"@,
        rename(gemma4_table(), "model.language_model.per_layer_model_projection.weight"@) == "per_layer_model_proj.weight"@,
        rename(gemma4_table(), "model.language_model.per_layer_projection_norm.weight"@) == "per_layer_proj_norm.weight"@,
        rename(gemma4_table(), "model.language_model.norm.weight"@) == "output_norm.weight"@,
{
    let t = gemma4_table();
    law_global_renamed(t, 0);
    law_global_renamed(t, 1);
    law_global_renamed(t, 2);
    law_global_renamed(t, 3);
    law_global_renamed(t, 4);
}

/// Every other name stays as it is in Gemma 4.
pub proof fn law_gemma4_others(name: Seq<char>)
    requires
        name != "model.language_model.embed_tokens.weight"@,
        name != "model.language_model.embed_tokens_per_layer.weight"@,
        name != "model.language_model.per_layer_model_projection.weight"@,
        name != "model.language_model.per_layer_projection_norm.weight"@,
        name != "model.language_model.norm.weight"@,
        forall|index: Seq<char>, rest: Seq<char>|
            name == #[trigger] ("model.language_model.layers."@ + index + "."@ + rest) && !index.contains('.') ==> {
                &&& rest != "input_layernorm.weight"@
                &&& rest != "pre_feedforward_layernorm.weight"@
                &&& rest != "post_feedforward_layernorm.weight"@
                &&& rest != "post_attention_layernorm.weight"@
                &&& rest != "self_attn.q_proj.weight"@
                &&& rest != "self_attn.k_proj.weight"@
                &&& rest != "self_attn.v_proj.weight"@
                &&& rest != "self_attn.o_proj.weight"@
                &&& rest != "self_attn.q_norm.weight"@
                &&& rest != "self_attn.k_norm.weight"@
                &&& rest != "mlp.gate_proj.weight"@
                &&& rest != "mlp.up_proj.weight"@
                &&& rest != "mlp.down_proj.weight"@
                &&& rest != "per_layer_input_gate.weight"@
                &&& rest != "per_layer_projection.weight"@
                &&& rest != "post_per_layer_input_norm.weight"@
                &&& rest != "layer_scalar"@
            },
    ensures
        rename(gemma4_table(), name) == name,
{
    let t = gemma4_table();
    lemma_lookup(t.globals, name);
    if let Some(value) = lookup(t.globals, name) {
        let i = choose|i: int| 0 <= i < t.globals.len() && t.globals[i] == (name, value);
        assert(i == 0 || i == 1 || i == 2 || i == 3 || i == 4);
    }
    lemma_layer_parts(name, t.prefix);
    if let Some((index, rest)) = layer_parts(name, t.prefix) {
        assert(name == "model.language_model.layers."@ + index + "."@ + rest);
        lemma_lookup(t.layer, rest);
        if let Some(value) = lookup(t.layer, rest) {
            let i = choose|i: int| 0 <= i < t.layer.len() && t.layer[i] == (rest, value);
            assert(i == 0 || i == 1 || i == 2 || i == 3 || i == 4 || i == 5 || i == 6 || i == 7
                || i == 8 || i == 9 || i == 10 || i == 11 || i == 12 || i == 13 || i == 14
                || i == 15 || i == 16);
        }
    }
}

/// The tensors in the layers of Gemma 3: the block has the number of the layer, whatever
/// the number is.
pub proof fn law_gemma3_layers(index: Seq<char>)
    requires
        !index.contains('.'),
    ensures
        rename(gemma3_table(), "model.layers."@ + index + "."@ + "input_layernorm.weight"@)
            == "blk."@ + index + "."@ + "attn_norm.weight"@,
        rename(gemma3_table(), "model.layers."@ + index + "."@ + "pre_feedforward_layernorm.weight"@)
            == "blk."@ + index + "."@ + "ffn_norm.weight"@,
        rename(gemma3_table(), "model.layers."@ + index + "."@ + "post_feedforward_layernorm.weight"@)
            == "blk."@ + index + "."@ + "post_ffw_norm.weight"@,
        rename(gemma3_table(), "model.layers."@ + index + "."@ + "post_attention_layernorm.weight"@)
            == "blk."@ + index + "."@ + "post_attention_norm.weight"@,
        rename(gemma3_table(), "model.layers."@ + index + "."@ + "self_attn.q_proj.weight"@)
            == "blk."@ + index + "."@ + "attn_q.weight"@,
        rename(gemma3_table(), "model.layers."@ + index + "."@ + "self_attn.k_proj.weight"@)
            == "blk."@ + index + "."@ + "attn_k.weight"@,
        rename(gemma3_table(), "model.layers."@ + index + "."@ + "self_attn.v_proj.weight"@)
            == "blk."@ + index + "."@ + "attn_v.weight"@,
        rename(gemma3_table(), "model.layers."@ + index + "."@ + "self_attn.o_proj.weight"@)
            == "blk."@ + index + "."@ + "attn_output.weight"@,
        rename(gemma3_table(), "model.layers."@ + index + "."@ + "self_attn.q_norm.weight"@)
            == "blk."@ + index + "."@ + "attn_q_norm.weight"@,
        rename(gemma3_table(), "model.layers."@ + index + "."@ + "self_attn.k_norm.weight"@)
            == "blk."@ + index + "."@ + "attn_k_norm.weight"@,
        rename(gemma3_table(), "model.layers."@ + index + "."@ + "mlp.gate_proj.weight"@)
            == "blk."@ + index + "."@ + "ffn_gate.weight"@,
        rename(gemma3_table(), "model.layers."@ + index + "."@ + "mlp.up_proj.weight"@)
            == "blk."@ + index + "."@ + "ffn_up.weight"@,
        rename(gemma3_table(), "model.layers."@ + index + "."@ + "mlp.down_proj.weight"@)
            == "blk."@ + index + "."@ + "ffn_down.weight"@,
{
    let t = gemma3_table();
    assert forall|i: int| 0 <= i < t.layer.len() implies rename(
        t,
        "model.layers."@ + index + "."@ + (#[trigger] t.layer[i]).0,
    ) == "blk."@ + index + "."@ + t.layer[i].1 by {
        law_layer_renamed(t, index, i);
    }
    assert(t.layer[0].0 == "input_layernorm.weight"@);
    assert(t.layer[1].0 == "pre_feedforward_layernorm.weight"@);
    assert(t.layer[2].0 == "post_feedforward_layernorm.weight"@);
    assert(t.layer[3].0 == "post_attention_layernorm.weight"@);
    assert(t.layer[4].0 == "self_attn.q_proj.weight"@);
    assert(t.layer[5].0 == "self_attn.k_proj.weight"@);
    assert(t.layer[6].0 == "self_attn.v_proj.weight"@);
    assert(t.layer[7].0 == "self_attn.o_proj.weight"@);
    assert(t.layer[8].0 == "self_attn.q_norm.weight"@);
    assert(t.layer[9].0 == "self_attn.k_norm.weight"@);
    assert(t.layer[10].0 == "mlp.gate_proj.weight"@);
    assert(t.layer[11].0 == "mlp.up_proj.weight"@);
    assert(t.layer[12].0 == "mlp.down_proj.weight"@);
}

/// The tensors of Gemma 3 outside its layers.
pub proof fn law_gemma3_globals()
    ensures
        rename(gemma3_table(), "model.embed_tokens.weight"@) == "token_embd.weight"@,
        rename(gemma3_table(), "model.norm.weight"@) == "output_norm.weight"@,
{
    let t = gemma3_table();
    law_global_renamed(t, 0);
    law_global_renamed(t, 1);
}

/// Every other name stays as it is in Gemma 3.
pub proof fn law_gemma3_others(name: Seq<char>)
    requires
        name != "model.embed_tokens.weight"@,
        name != "model.norm.weight"@,
        forall|index: Seq<char>, rest: Seq<char>|
            name == #[trigger] ("model.layers."@ + index + "."@ + rest) && !index.contains('.') ==> {
                &&& rest != "input_layernorm.weight"@
                &&& rest != "pre_feedforward_layernorm.weight"@
                &&& rest != "post_feedforward_layernorm.weight"@
                &&& rest != "post_attention_layernorm.weight"@
                &&& rest != "self_attn.q_proj.weight"@
                &&& rest != "self_attn.k_proj.weight"@
                &&& rest != "self_attn.v_proj.weight"@
                &&& rest != "self_attn.o_proj.weight"@
                &&& rest != "self_attn.q_norm.weight"@
                &&& rest != "self_attn.k_norm.weight"@
                &&& rest != "mlp.gate_proj.weight"@
                &&& rest != "mlp.up_proj.weight"@
                &&& rest != "mlp.down_proj.weight"@
            },
    ensures
        rename(gemma3_table(), name) == name,
{
    let t = gemma3_table();
    lemma_lookup(t.globals, name);
    if let Some(value) = lookup(t.globals, name) {
        let i = choose|i: int| 0 <= i < t.globals.len() && t.globals[i] == (name, value);
        assert(i == 0 || i == 1);
    }
    lemma_layer_parts(name, t.prefix);
    if let Some((index, rest)) = layer_parts(name, t.prefix) {
        assert(name == "model.layers."@ + index + "."@ + rest);
        lemma_lookup(t.layer, rest);
        if let Some(value) = lookup(t.layer, rest) {
            let i = choose|i: int| 0 <= i < t.layer.len() && t.layer[i] == (rest, value);
            assert(i == 0 || i == 1 || i == 2 || i == 3 || i == 4 || i == 5 || i == 6 || i == 7
                || i == 8 || i == 9 || i == 10 || i == 11 || i == 12);
        }
    }
}

/// The tensors in the layers of Qwen 3: the block has the number of the layer, whatever
/// the number is.
pub proof fn law_qwen3_layers(index: Seq<char>)
    requires
        !index.contains('.'),
    ensures
        rename(qwen3_table(), "model.layers."@ + index + "."@ + "input_layernorm.weight"@)
            == "blk."@ + index + "."@ + "attn_norm.weight"@,
        rename(qwen3_table(), "model.layers."@ + index + "."@ + "post_attention_layernorm.weight"@)
            == "blk."@ + index + "."@ + "ffn_norm.weight"@,
        rename(qwen3_table(), "model.layers."@ + index + "."@ + "self_attn.q_proj.weight"@)
            == "blk."@ + index + "."@ + "attn_q.weight"@,
        rename(qwen3_table(), "model.layers."@ + index + "."@ + "self_attn.k_proj.weight"@)
            == "blk."@ + index + "."@ + "attn_k.weight"@,
        rename(qwen3_table(), "model.layers."@ + index + "."@ + "self_attn.v_proj.weight"@)
            == "blk."@ + index + "."@ + "attn_v.weight"@,
        rename(qwen3_table(), "model.layers."@ + index + "."@ + "self_attn.o_proj.weight"@)
            == "blk."@ + index + "."@ + "attn_output.weight"@,
        rename(qwen3_table(), "model.layers."@ + index + "."@ + "self_attn.q_norm.weight"@)
            == "blk."@ + index + "."@ + "attn_q_norm.weight"@,
        rename(qwen3_table(), "model.layers."@ + index + "."@ + "self_attn.k_norm.weight"@)
            == "blk."@ + index + "."@ + "attn_k_norm.weight"@,
        rename(qwen3_table(), "model.layers."@ + index + "."@ + "mlp.gate_proj.weight"@)
            == "blk."@ + index + "."@ + "ffn_gate.weight"@,
        rename(qwen3_table(), "model.layers."@ + index + "."@ + "mlp.up_proj.weight"@)
            == "blk."@ + index + "."@ + "ffn_up.weight"@,
        rename(qwen3_table(), "model.layers."@ + index + "."@ + "mlp.down_proj.weight"@)
            == "blk."@ + index + "."@ + "ffn_down.weight"@,
{
    let t = qwen3_table();
    assert forall|i: int| 0 <= i < t.layer.len() implies rename(
        t,
        "model.layers."@ + index + "."@ + (#[trigger] t.layer[i]).0,
    ) == "blk."@ + index + "."@ + t.layer[i].1 by {
        law_layer_renamed(t, index, i);
    }
    assert(t.layer[0].0 == "input_layernorm.weight"@);
    assert(t.layer[1].0 == "post_attention_layernorm.weight"@);
    assert(t.layer[2].0 == "self_attn.q_proj.weight"@);
    assert(t.layer[3].0 == "self_attn.k_proj.weight"@);
    assert(t.layer[4].0 == "self_attn.v_proj.weight"@);
    assert(t.layer[5].0 == "self_attn.o_proj.weight"@);
    assert(t.layer[6].0 == "self_attn.q_norm.weight"@);
    assert(t.layer[7].0 == "self_attn.k_norm.weight"@);
    assert(t.layer[8].0 == "mlp.gate_proj.weight"@);
    assert(t.layer[9].0 == "mlp.up_proj.weight"@);
    assert(t.layer[10].0 == "mlp.down_proj.weight"@);
}

/// The tensors of Qwen 3 outside its layers.
pub proof fn law_qwen3_globals()
    ensures
        rename(qwen3_table(), "model.embed_tokens.weight"@) == "token_embd.weight"@,
        rename(qwen3_table(), "model.norm.weight"@) == "output_norm.weight"@,
        rename(qwen3_table(), "lm_head.weight"@) == "output.weight"@,
{
    let t = qwen3_table();
    law_global_renamed(t, 0);
    law_global_renamed(t, 1);
    law_global_renamed(t, 2);
}

/// Every other name stays as it is in Qwen 3.
pub proof fn law_qwen3_others(name: Seq<char>)
    requires
        name != "model.embed_tokens.weight"@,
        name != "model.norm.weight"@,
        name != "lm_head.weight"@,
        forall|index: Seq<char>, rest: Seq<char>|
            name == #[trigger] ("model.layers."@ + index + "."@ + rest) && !index.contains('.') ==> {
                &&& rest != "input_layernorm.weight"@
                &&& rest != "post_attention_layernorm.weight"@
                &&& rest != "self_attn.q_proj.weight"@
                &&& rest != "self_attn.k_proj.weight"@
                &&& rest != "self_attn.v_proj.weight"@
                &&& rest != "self_attn.o_proj.weight"@
                &&& rest != "self_attn.q_norm.weight"@
                &&& rest != "self_attn.k_norm.weight"@
                &&& rest != "mlp.gate_proj.weight"@
                &&& rest != "mlp.up_proj.weight"@
                &&& rest != "mlp.down_proj.weight"@
            },
    ensures
        rename(qwen3_table(), name) == name,
{
    let t = qwen3_table();
    lemma_lookup(t.globals, name);
    if let Some(value) = lookup(t.globals, name) {
        let i = choose|i: int| 0 <= i < t.globals.len() && t.globals[i] == (name, value);
        assert(i == 0 || i == 1 || i == 2);
    }
    lemma_layer_parts(name, t.prefix);
    if let Some((index, rest)) = layer_parts(name, t.prefix) {
        assert(name == "model.layers."@ + index + "."@ + rest);
        lemma_lookup(t.layer, rest);
        if let Some(value) = lookup(t.layer, rest) {
            let i = choose|i: int| 0 <= i < t.layer.len() && t.layer[i] == (rest, value);
            assert(i == 0 || i == 1 || i == 2 || i == 3 || i == 4 || i == 5 || i == 6 || i == 7
                || i == 8 || i == 9 || i == 10);
        }
    }
}

/// The tensors in the layers of Qwen 3.5: the block has the number of the layer, whatever
/// the number is.
pub proof fn law_qwen35_layers(index: Seq<char>)
    requires
        !index.contains('.'),
    ensures
        rename(qwen35_table(), "model.language_model.layers."@ + index + "."@ + "input_layernorm.weight"@)
            == "blk."@ + index + "."@ + "attn_norm.weight"@,
        rename(qwen35_table(), "model.language_model.layers."@ + index + "."@ + "post_attention_layernorm.weight"@)
            == "blk."@ + index + "."@ + "post_attention_norm.weight"@,
        rename(qwen35_table(), "model.language_model.layers."@ + index + "."@ + "self_attn.q_proj.weight"@)
            == "blk."@ + index + "."@ + "attn_q.weight"@,
        rename(qwen35_table(), "model.language_model.layers."@ + index + "."@ + "self_attn.k_proj.weight"@)
            == "blk."@ + index + "."@ + "attn_k.weight"@,
        rename(qwen35_table(), "model.language_model.layers."@ + index + "."@ + "self_attn.v_proj.weight"@)
            == "blk."@ + index + "."@ + "attn_v.weight"@,
        rename(qwen35_table(), "model.language_model.layers."@ + index + "."@ + "self_attn.o_proj.weight"@)
            == "blk."@ + index + "."@ + "attn_output.weight"@,
        rename(qwen35_table(), "model.language_model.layers."@ + index + "."@ + "self_attn.q_norm.weight"@)
            == "blk."@ + index + "."@ + "attn_q_norm.weight"@,
        rename(qwen35_table(), "model.language_model.layers."@ + index + "."@ + "self_attn.k_norm.weight"@)
            == "blk."@ + index + "."@ + "attn_k_norm.weight"@,
        rename(qwen35_table(), "model.language_model.layers."@ + index + "."@ + "mlp.gate_proj.weight"@)
            == "blk."@ + index + "."@ + "ffn_gate.weight"@,
        rename(qwen35_table(), "model.language_model.layers."@ + index + "."@ + "mlp.up_proj.weight"@)
            == "blk."@ + index + "."@ + "ffn_up.weight"@,
        rename(qwen35_table(), "model.language_model.layers."@ + index + "."@ + "mlp.down_proj.weight"@)
            == "blk."@ + index + "."@ + "ffn_down.weight"@,
        rename(qwen35_table(), "model.language_model.layers."@ + index + "."@ + "linear_attn.in_proj_qkv.weight"@)
            == "blk."@ + index + "."@ + "attn_qkv.weight"@,
        rename(qwen35_table(), "model.language_model.layers."@ + index + "."@ + "linear_attn.in_proj_z.weight"@)
            == "blk."@ + index + "."@ + "attn_gate.weight"@,
        rename(qwen35_table(), "model.language_model.layers."@ + index + "."@ + "linear_attn.in_proj_a.weight"@)
            == "blk."@ + index + "."@ + "ssm_alpha.weight"@,
        rename(qwen35_table(), "model.language_model.layers."@ + index + "."@ + "linear_attn.in_proj_b.weight"@)
            == "blk."@ + index + "."@ + "ssm_beta.weight"@,
        rename(qwen35_table(), "model.language_model.layers."@ + index + "."@ + "linear_attn.conv1d.weight"@)
            == "blk."@ + index + "."@ + "ssm_conv1d.weight"@,
        rename(qwen35_table(), "model.language_model.layers."@ + index + "."@ + "linear_attn.A_log"@)
            == "blk."@ + index + "."@ + "ssm_a"@,
        rename(qwen35_table(), "model.language_model.layers."@ + index + "."@ + "linear_attn.dt_bias"@)
            == "blk."@ + index + "."@ + "ssm_dt"@,
        rename(qwen35_table(), "model.language_model.layers."@ + index + "."@ + "linear_attn.norm.weight"@)
            == "blk."@ + index + "."@ + "ssm_norm.weight"@,
        rename(qwen35_table(), "model.language_model.layers."@ + index + "."@ + "linear_attn.out_proj.weight"@)
            == "blk."@ + index + "."@ + "ssm_out.weight"@,
{
    let t = qwen35_table();
    assert forall|i: int| 0 <= i < t.layer.len() implies rename(
        t,
        "model.language_model.layers."@ + index + "."@ + (#[trigger] t.layer[i]).0,
    ) == "blk."@ + index + "."@ + t.layer[i].1 by {
        law_layer_renamed(t, index, i);
    }
    assert(t.layer[0].0 == "input_layernorm.weight"@);
    assert(t.layer[1].0 == "post_attention_layernorm.weight"@);
    assert(t.layer[2].0 == "self_attn.q_proj.weight"@);
    assert(t.layer[3].0 == "self_attn.k_proj.weight"@);
    assert(t.layer[4].0 == "self_attn.v_proj.weight"@);
    assert(t.layer[5].0 == "self_attn.o_proj.weight"@);
    assert(t.layer[6].0 == "self_attn.q_norm.weight"@);
    assert(t.layer[7].0 == "self_attn.k_norm.weight"@);
    assert(t.layer[8].0 == "mlp.gate_proj.weight"@);
    assert(t.layer[9].0 == "mlp.up_proj.weight"@);
    assert(t.layer[10].0 == "mlp.down_proj.weight"@);
    assert(t.layer[11].0 == "linear_attn.in_proj_qkv.weight"@);
    assert(t.layer[12].0 == "linear_attn.in_proj_z.weight"@);
    assert(t.layer[13].0 == "linear_attn.in_proj_a.weight"@);
    assert(t.layer[14].0 == "linear_attn.in_proj_b.weight"@);
    assert(t.layer[15].0 == "linear_attn.conv1d.weight"@);
    assert(t.layer[16].0 == "linear_attn.A_log"@);
    assert(t.layer[17].0 == "linear_attn.dt_bias"@);
    assert(t.layer[18].0 == "linear_attn.norm.weight"@);
    assert(t.layer[19].0 == "linear_attn.out_proj.weight"@);
}

/// The tensors of Qwen 3.5 outside its layers.
pub proof fn law_qwen35_globals()
    ensures
        rename(qwen35_table(), "model.language_model.embed_tokens.weight"@) == "token_embd.weight"@,
        rename(qwen35_table(), "model.language_model.norm.weight"@) == "output_norm.weight"@,
{
    let t = qwen35_table();
    law_global_renamed(t, 0);
    law_global_renamed(t, 1);
}

/// Every other name stays as it is in Qwen 3.5.
pub proof fn law_qwen35_others(name: Seq<char>)
    requires
        name != "model.language_model.embed_tokens.weight"@,
        name != "model.language_model.norm.weight"@,
        forall|index: Seq<char>, rest: Seq<char>|
            name == #[trigger] ("model.language_model.layers."@ + index + "."@ + rest) && !index.contains('.') ==> {
                &&& rest != "input_layernorm.weight"@
                &&& rest != "post_attention_layernorm.weight"@
                &&& rest != "self_attn.q_proj.weight"@
                &&& rest != "self_attn.k_proj.weight"@
                &&& rest != "self_attn.v_proj.weight"@
                &&& rest != "self_attn.o_proj.weight"@
                &&& rest != "self_attn.q_norm.weight"@
                &&& rest != "self_attn.k_norm.weight"@
                &&& rest != "mlp.gate_proj.weight"@
                &&& rest != "mlp.up_proj.weight"@
                &&& rest != "mlp.down_proj.weight"@
                &&& rest != "linear_attn.in_proj_qkv.weight"@
                &&& rest != "linear_attn.in_proj_z.weight"@
                &&& rest != "linear_attn.in_proj_a.weight"@
                &&& rest != "linear_attn.in_proj_b.weight"@
                &&& rest != "linear_attn.conv1d.weight"@
                &&& rest != "linear_attn.A_log"@
                &&& rest != "linear_attn.dt_bias"@
                &&& rest != "linear_attn.norm.weight"@
                &&& rest != "linear_attn.out_proj.weight"@
            },
    ensures
        rename(qwen35_table(), name) == name,
{
    let t = qwen35_table();
    lemma_lookup(t.globals, name);
    if let Some(value) = lookup(t.globals, name) {
        let i = choose|i: int| 0 <= i < t.globals.len() && t.globals[i] == (name, value);
        assert(i == 0 || i == 1);
    }
    lemma_layer_parts(name, t.prefix);
    if let Some((index, rest)) = layer_parts(name, t.prefix) {
        assert(name == "model.language_model.layers."@ + index + "."@ + rest);
        lemma_lookup(t.layer, rest);
        if let Some(value) = lookup(t.layer, rest) {
            let i = choose|i: int| 0 <= i < t.layer.len() && t.layer[i] == (rest, value);
            assert(i == 0 || i == 1 || i == 2 || i == 3 || i == 4 || i == 5 || i == 6 || i == 7
                || i == 8 || i == 9 || i == 10 || i == 11 || i == 12 || i == 13 || i == 14
                || i == 15 || i == 16 || i == 17 || i == 18 || i == 19);
        }
    }
}

} // verus!
