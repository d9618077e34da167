//! Names of model tensors: from the HuggingFace layout to the llama.cpp layout.
//!
//! HuggingFace names mirror the safetensors files (`model.layers.{i}.*` or
//! `model.language_model.layers.{i}.*`, by model family). llama.cpp files use
//! `blk.{i}.*` for every family. Each family has one table of names. A name that
//! its table does not know passes through unchanged, so that looking it up fails
//! where the file is read instead of finding another tensor.
use crate::text::{find_char, same_text, strip_prefix};
use vstd::prelude::*;
use vstd::string::*;

verus! {

/// The names of one model family.
pub struct RenameTable {
    /// Tensors outside the layers: the whole name and what it becomes.
    pub globals: Seq<(Seq<char>, Seq<char>)>,
    /// What stands before the layer index.
    pub prefix: Seq<char>,
    /// Tensors of a layer: what follows the layer index, and what it becomes.
    pub layer: Seq<(Seq<char>, Seq<char>)>,
}

/// What `key` becomes under `table`: the right side of its first row for `key`.
pub open spec fn lookup(table: Seq<(Seq<char>, Seq<char>)>, key: Seq<char>) -> Option<Seq<char>>
    decreases table.len(),
{
    if table.len() == 0 {
        None
    } else if table[0].0 == key {
        Some(table[0].1)
    } else {
        lookup(table.drop_first(), key)
    }
}

/// The layer index and the rest of a layer tensor's name: what stands between
/// `prefix` and the next dot, and what follows that dot.
pub open spec fn layer_parts(name: Seq<char>, prefix: Seq<char>) -> Option<(Seq<char>, Seq<char>)> {
    if prefix.is_prefix_of(name) {
        let after = name.skip(prefix.len() as int);
        match after.index_of_first('.') {
            Some(dot) => Some((after.take(dot), after.skip(dot + 1))),
            None => None,
        }
    } else {
        None
    }
}

/// The llama.cpp name of a layer tensor.
pub open spec fn block_name(index: Seq<char>, suffix: Seq<char>) -> Seq<char> {
    "blk."@ + index + "."@ + suffix
}

/// The llama.cpp name that `table` holds for `name`, if it knows the name.
pub open spec fn known_name(table: RenameTable, name: Seq<char>) -> Option<Seq<char>> {
    match lookup(table.globals, name) {
        Some(renamed) => Some(renamed),
        None => match layer_parts(name, table.prefix) {
            Some((index, rest)) => match lookup(table.layer, rest) {
                Some(suffix) => Some(block_name(index, suffix)),
                None => None,
            },
            None => None,
        },
    }
}

/// `name` in the llama.cpp layout: its known name, else `name` itself.
pub open spec fn rename(table: RenameTable, name: Seq<char>) -> Seq<char> {
    match known_name(table, name) {
        Some(renamed) => renamed,
        None => name,
    }
}

/// The text of the rows of a table.
pub open spec fn rows(table: Seq<(&str, &str)>) -> Seq<(Seq<char>, Seq<char>)> {
    Seq::new(table.len(), |i: int| (table[i].0@, table[i].1@))
}

/// The tensors of Gemma 4.
pub open spec fn gemma4_table() -> RenameTable {
    RenameTable {
        globals: seq![
            ("model.language_model.embed_tokens.weight"@, "token_embd.weight"@),
            ("model.language_model.embed_tokens_per_layer.weight"@, "per_layer_token_embd.weight"@),
            ("model.language_model.per_layer_model_projection.weight"@, "per_layer_model_proj.weight"@),
            ("model.language_model.per_layer_projection_norm.weight"@, "per_layer_proj_norm.weight"@),
            ("model.language_model.norm.weight"@, "output_norm.weight"@),
        ],
        prefix: "model.language_model.layers."@,
        layer: seq![
            ("input_layernorm.weight"@, "attn_norm.weight"@),
            ("pre_feedforward_layernorm.weight"@, "ffn_norm.weight"@),
            ("post_feedforward_layernorm.weight"@, "post_ffw_norm.weight"@),
            ("post_attention_layernorm.weight"@, "post_attention_norm.weight"@),
            ("self_attn.q_proj.weight"@, "attn_q.weight"@),
            ("self_attn.k_proj.weight"@, "attn_k.weight"@),
            ("self_attn.v_proj.weight"@, "attn_v.weight"@),
            ("self_attn.o_proj.weight"@, "attn_output.weight"@),
            ("self_attn.q_norm.weight"@, "attn_q_norm.weight"@),
            ("self_attn.k_norm.weight"@, "attn_k_norm.weight"@),
            ("mlp.gate_proj.weight"@, "ffn_gate.weight"@),
            ("mlp.up_proj.weight"@, "ffn_up.weight"@),
            ("mlp.down_proj.weight"@, "ffn_down.weight"@),
            ("per_layer_input_gate.weight"@, "inp_gate.weight"@),
            ("per_layer_projection.weight"@, "proj.weight"@),
            ("post_per_layer_input_norm.weight"@, "post_norm.weight"@),
            ("layer_scalar"@, "layer_output_scale.weight"@),
        ],
    }
}

/// The tensors of Gemma 3: the same four norms in each layer as Gemma 4, without
/// the tensors for per-layer input. The output head is tied to `embed_tokens`, so
/// it has no tensor of its own.
pub open spec fn gemma3_table() -> RenameTable {
    RenameTable {
        globals: seq![
            ("model.embed_tokens.weight"@, "token_embd.weight"@),
            ("model.norm.weight"@, "output_norm.weight"@),
        ],
        prefix: "model.layers."@,
        layer: seq![
            ("input_layernorm.weight"@, "attn_norm.weight"@),
            ("pre_feedforward_layernorm.weight"@, "ffn_norm.weight"@),
            ("post_feedforward_layernorm.weight"@, "post_ffw_norm.weight"@),
            ("post_attention_layernorm.weight"@, "post_attention_norm.weight"@),
            ("self_attn.q_proj.weight"@, "attn_q.weight"@),
            ("self_attn.k_proj.weight"@, "attn_k.weight"@),
            ("self_attn.v_proj.weight"@, "attn_v.weight"@),
            ("self_attn.o_proj.weight"@, "attn_output.weight"@),
            ("self_attn.q_norm.weight"@, "attn_q_norm.weight"@),
            ("self_attn.k_norm.weight"@, "attn_k_norm.weight"@),
            ("mlp.gate_proj.weight"@, "ffn_gate.weight"@),
            ("mlp.up_proj.weight"@, "ffn_up.weight"@),
            ("mlp.down_proj.weight"@, "ffn_down.weight"@),
        ],
    }
}

/// The tensors of Qwen 3.
pub open spec fn qwen3_table() -> RenameTable {
    RenameTable {
        globals: seq![
            ("model.embed_tokens.weight"@, "token_embd.weight"@),
            ("model.norm.weight"@, "output_norm.weight"@),
            ("lm_head.weight"@, "output.weight"@),
        ],
        prefix: "model.layers."@,
        layer: seq![
            ("input_layernorm.weight"@, "attn_norm.weight"@),
            ("post_attention_layernorm.weight"@, "ffn_norm.weight"@),
            ("self_attn.q_proj.weight"@, "attn_q.weight"@),
            ("self_attn.k_proj.weight"@, "attn_k.weight"@),
            ("self_attn.v_proj.weight"@, "attn_v.weight"@),
            ("self_attn.o_proj.weight"@, "attn_output.weight"@),
            ("self_attn.q_norm.weight"@, "attn_q_norm.weight"@),
            ("self_attn.k_norm.weight"@, "attn_k_norm.weight"@),
            ("mlp.gate_proj.weight"@, "ffn_gate.weight"@),
            ("mlp.up_proj.weight"@, "ffn_up.weight"@),
            ("mlp.down_proj.weight"@, "ffn_down.weight"@),
        ],
    }
}

/// The tensors of Qwen 3.5, whose layers attend fully or linearly.
///
/// The tensors of full attention and of the MLP follow the common pattern. Those of
/// linear attention (the gated delta rule) are the `ssm_*` tensors of llama.cpp. The
/// output head is tied to `embed_tokens`.
pub open spec fn qwen35_table() -> RenameTable {
    RenameTable {
        globals: seq![
            ("model.language_model.embed_tokens.weight"@, "token_embd.weight"@),
            ("model.language_model.norm.weight"@, "output_norm.weight"@),
        ],
        prefix: "model.language_model.layers."@,
        layer: seq![
            ("input_layernorm.weight"@, "attn_norm.weight"@),
            ("post_attention_layernorm.weight"@, "post_attention_norm.weight"@),
            ("self_attn.q_proj.weight"@, "attn_q.weight"@),
            ("self_attn.k_proj.weight"@, "attn_k.weight"@),
            ("self_attn.v_proj.weight"@, "attn_v.weight"@),
            ("self_attn.o_proj.weight"@, "attn_output.weight"@),
            ("self_attn.q_norm.weight"@, "attn_q_norm.weight"@),
            ("self_attn.k_norm.weight"@, "attn_k_norm.weight"@),
            ("mlp.gate_proj.weight"@, "ffn_gate.weight"@),
            ("mlp.up_proj.weight"@, "ffn_up.weight"@),
            ("mlp.down_proj.weight"@, "ffn_down.weight"@),
            ("linear_attn.in_proj_qkv.weight"@, "attn_qkv.weight"@),
            ("linear_attn.in_proj_z.weight"@, "attn_gate.weight"@),
            ("linear_attn.in_proj_a.weight"@, "ssm_alpha.weight"@),
            ("linear_attn.in_proj_b.weight"@, "ssm_beta.weight"@),
            ("linear_attn.conv1d.weight"@, "ssm_conv1d.weight"@),
            ("linear_attn.A_log"@, "ssm_a"@),
            ("linear_attn.dt_bias"@, "ssm_dt"@),
            ("linear_attn.norm.weight"@, "ssm_norm.weight"@),
            ("linear_attn.out_proj.weight"@, "ssm_out.weight"@),
        ],
    }
}

/// Finds `key` among the left sides of `table`.
fn lookup_row<'a>(table: &[(&'a str, &'a str)], key: &str) -> (found: Option<&'a str>)
    ensures
        match found {
            Some(value) => lookup(rows(table@), key@) == Some(value@),
            None => lookup(rows(table@), key@) is None,
        },
{
    let mut i: usize = 0;
    proof {
        assert(rows(table@).skip(0) =~= rows(table@));
    }
    while i < table.len()
        invariant
            i <= table@.len(),
            lookup(rows(table@), key@) == lookup(rows(table@).skip(i as int), key@),
        decreases table@.len() - i,
    {
        proof {
            assert(rows(table@).skip(i as int).drop_first() =~= rows(table@).skip(i + 1));
        }
        if same_text(table[i].0, key) {
            return Some(table[i].1);
        }
        i = i + 1;
    }
    None
}

/// Renames `name` by the given rows.
fn rename_by(
    globals: &[(&str, &str)],
    prefix: &str,
    layer: &[(&str, &str)],
    name: &str,
) -> (renamed: String)
    ensures
        renamed@ == rename(
            (RenameTable { globals: rows(globals@), prefix: prefix@, layer: rows(layer@) }),
            name@,
        ),
{
    if let Some(global) = lookup_row(globals, name) {
        return global.to_owned();
    }
    if let Some(after) = strip_prefix(name, prefix) {
        proof {
            after@.index_of_first_ensures('.');
        }
        if let Some(dot) = find_char(after, '.') {
            let len: usize = after.unicode_len();
            let index = after.substring_char(0, dot);
            let rest = after.substring_char(dot + 1, len);
            if let Some(suffix) = lookup_row(layer, rest) {
                let mut renamed: String = "blk.".to_owned();
                renamed.append(index);
                renamed.append(".");
                renamed.append(suffix);
                return renamed;
            }
        }
    }
    name.to_owned()
}

/// The llama.cpp name of a Gemma 4 tensor with the HuggingFace name `name`.
pub fn gemma4_hf_to_llama(name: &str) -> (renamed: String)
    ensures
        renamed@ == rename(gemma4_table(), name@),
{
    let globals: [(&str, &str); 5] = [
        ("model.language_model.embed_tokens.weight", "token_embd.weight"),
        ("model.language_model.embed_tokens_per_layer.weight", "per_layer_token_embd.weight"),
        ("model.language_model.per_layer_model_projection.weight", "per_layer_model_proj.weight"),
        ("model.language_model.per_layer_projection_norm.weight", "per_layer_proj_norm.weight"),
        ("model.language_model.norm.weight", "output_norm.weight"),
    ];
    let layer: [(&str, &str); 17] = [
        ("input_layernorm.weight", "attn_norm.weight"),
        ("pre_feedforward_layernorm.weight", "ffn_norm.weight"),
        ("post_feedforward_layernorm.weight", "post_ffw_norm.weight"),
        ("post_attention_layernorm.weight", "post_attention_norm.weight"),
        ("self_attn.q_proj.weight", "attn_q.weight"),
        ("self_attn.k_proj.weight", "attn_k.weight"),
        ("self_attn.v_proj.weight", "attn_v.weight"),
        ("self_attn.o_proj.weight", "attn_output.weight"),
        ("self_attn.q_norm.weight", "attn_q_norm.weight"),
        ("self_attn.k_norm.weight", "attn_k_norm.weight"),
        ("mlp.gate_proj.weight", "ffn_gate.weight"),
        ("mlp.up_proj.weight", "ffn_up.weight"),
        ("mlp.down_proj.weight", "ffn_down.weight"),
        ("per_layer_input_gate.weight", "inp_gate.weight"),
        ("per_layer_projection.weight", "proj.weight"),
        ("post_per_layer_input_norm.weight", "post_norm.weight"),
        ("layer_scalar", "layer_output_scale.weight"),
    ];
    proof {
        assert(rows(globals@) =~= gemma4_table().globals);
        assert(rows(layer@) =~= gemma4_table().layer);
    }
    rename_by(&globals, "model.language_model.layers.", &layer, name)
}

/// The llama.cpp name of a Gemma 3 tensor with the HuggingFace name `name`.
pub fn gemma3_hf_to_llama(name: &str) -> (renamed: String)
    ensures
        renamed@ == rename(gemma3_table(), name@),
{
    let globals: [(&str, &str); 2] = [
        ("model.embed_tokens.weight", "token_embd.weight"),
        ("model.norm.weight", "output_norm.weight"),
    ];
    let layer: [(&str, &str); 13] = [
        ("input_layernorm.weight", "attn_norm.weight"),
        ("pre_feedforward_layernorm.weight", "ffn_norm.weight"),
        ("post_feedforward_layernorm.weight", "post_ffw_norm.weight"),
        ("post_attention_layernorm.weight", "post_attention_norm.weight"),
        ("self_attn.q_proj.weight", "attn_q.weight"),
        ("self_attn.k_proj.weight", "attn_k.weight"),
        ("self_attn.v_proj.weight", "attn_v.weight"),
        ("self_attn.o_proj.weight", "attn_output.weight"),
        ("self_attn.q_norm.weight", "attn_q_norm.weight"),
        ("self_attn.k_norm.weight", "attn_k_norm.weight"),
        ("mlp.gate_proj.weight", "ffn_gate.weight"),
        ("mlp.up_proj.weight", "ffn_up.weight"),
        ("mlp.down_proj.weight", "ffn_down.weight"),
    ];
    proof {
        assert(rows(globals@) =~= gemma3_table().globals);
        assert(rows(layer@) =~= gemma3_table().layer);
    }
    rename_by(&globals, "model.layers.", &layer, name)
}

/// The llama.cpp name of a Qwen 3 tensor with the HuggingFace name `name`.
pub fn qwen3_hf_to_llama(name: &str) -> (renamed: String)
    ensures
        renamed@ == rename(qwen3_table(), name@),
{
    let globals: [(&str, &str); 3] = [
        ("model.embed_tokens.weight", "token_embd.weight"),
        ("model.norm.weight", "output_norm.weight"),
        ("lm_head.weight", "output.weight"),
    ];
    let layer: [(&str, &str); 11] = [
        ("input_layernorm.weight", "attn_norm.weight"),
        ("post_attention_layernorm.weight", "ffn_norm.weight"),
        ("self_attn.q_proj.weight", "attn_q.weight"),
        ("self_attn.k_proj.weight", "attn_k.weight"),
        ("self_attn.v_proj.weight", "attn_v.weight"),
        ("self_attn.o_proj.weight", "attn_output.weight"),
        ("self_attn.q_norm.weight", "attn_q_norm.weight"),
        ("self_attn.k_norm.weight", "attn_k_norm.weight"),
        ("mlp.gate_proj.weight", "ffn_gate.weight"),
        ("mlp.up_proj.weight", "ffn_up.weight"),
        ("mlp.down_proj.weight", "ffn_down.weight"),
    ];
    proof {
        assert(rows(globals@) =~= qwen3_table().globals);
        assert(rows(layer@) =~= qwen3_table().layer);
    }
    rename_by(&globals, "model.layers.", &layer, name)
}

/// The llama.cpp name of a Qwen 3.5 tensor with the HuggingFace name `name`.
pub fn qwen35_hf_to_llama(name: &str) -> (renamed: String)
    ensures
        renamed@ == rename(qwen35_table(), name@),
{
    let globals: [(&str, &str); 2] = [
        ("model.language_model.embed_tokens.weight", "token_embd.weight"),
        ("model.language_model.norm.weight", "output_norm.weight"),
    ];
    let layer: [(&str, &str); 20] = [
        ("input_layernorm.weight", "attn_norm.weight"),
        ("post_attention_layernorm.weight", "post_attention_norm.weight"),
        ("self_attn.q_proj.weight", "attn_q.weight"),
        ("self_attn.k_proj.weight", "attn_k.weight"),
        ("self_attn.v_proj.weight", "attn_v.weight"),
        ("self_attn.o_proj.weight", "attn_output.weight"),
        ("self_attn.q_norm.weight", "attn_q_norm.weight"),
        ("self_attn.k_norm.weight", "attn_k_norm.weight"),
        ("mlp.gate_proj.weight", "ffn_gate.weight"),
        ("mlp.up_proj.weight", "ffn_up.weight"),
        ("mlp.down_proj.weight", "ffn_down.weight"),
        ("linear_attn.in_proj_qkv.weight", "attn_qkv.weight"),
        ("linear_attn.in_proj_z.weight", "attn_gate.weight"),
        ("linear_attn.in_proj_a.weight", "ssm_alpha.weight"),
        ("linear_attn.in_proj_b.weight", "ssm_beta.weight"),
        ("linear_attn.conv1d.weight", "ssm_conv1d.weight"),
        ("linear_attn.A_log", "ssm_a"),
        ("linear_attn.dt_bias", "ssm_dt"),
        ("linear_attn.norm.weight", "ssm_norm.weight"),
        ("linear_attn.out_proj.weight", "ssm_out.weight"),
    ];
    proof {
        assert(rows(globals@) =~= qwen35_table().globals);
        assert(rows(layer@) =~= qwen35_table().layer);
    }
    rename_by(&globals, "model.language_model.layers.", &layer, name)
}

} // verus!
