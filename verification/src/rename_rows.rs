//! Facts about the rows of the rename tables, read off their text.
use crate::rename::{gemma3_table, gemma4_table, qwen3_table, qwen35_table, RenameTable};
use vstd::prelude::*;
use vstd::string::*;

verus! {

/// `name` is that of a norm's weight.
pub open spec fn is_norm(name: Seq<char>) -> bool {
    "norm.weight"@.is_suffix_of(name)
}

/// No two rows share their left side, and no two their right side.
pub open spec fn rows_distinct(table: Seq<(Seq<char>, Seq<char>)>) -> bool {
    &&& forall|i: int, j: int| 0 <= i < j < table.len() ==> table[i].0 != table[j].0
    &&& forall|i: int, j: int| 0 <= i < j < table.len() ==> table[i].1 != table[j].1
}

/// The end of a name settles whether the name is a norm's.
pub open spec fn settles_norm(end: Seq<char>) -> bool {
    end.len() >= 11 || (end.len() >= 2 && end[end.len() - 2] != 'h')
}

/// Both sides of a layer's row name a norm, or neither does.
pub open spec fn keeps_norm(row: (Seq<char>, Seq<char>)) -> bool {
    &&& is_norm(row.0) == is_norm(row.1)
    &&& settles_norm(row.0)
    &&& settles_norm(row.1)
}

/// `name` begins with the first letter of a HuggingFace name: an `m`, as in `model`, or an
/// `l`, as in `lm_head`.
pub open spec fn begins_as_hf(name: Seq<char>) -> bool {
    name.len() > 0 && (name[0] == 'm' || name[0] == 'l')
}

/// A row for a tensor outside the layers: its left side is a HuggingFace name that
/// does not lead into a layer, and its right side is neither such a name nor that of
/// a block.
pub open spec fn global_row(prefix: Seq<char>, row: (Seq<char>, Seq<char>)) -> bool {
    &&& begins_as_hf(row.0)
    &&& !prefix.is_prefix_of(row.0)
    &&& row.1.len() > 0
    &&& !begins_as_hf(row.1)
    &&& row.1[0] != 'b'
    &&& is_norm(row.0) == is_norm(row.1)
}

/// The text before a layer index begins with an `m`, as in `model`.
pub open spec fn layer_prefix(prefix: Seq<char>) -> bool {
    prefix.len() > 0 && prefix[0] == 'm'
}

/// The rows for a layer differ from one another on both sides, and each keeps whether a
/// tensor is a norm.
pub open spec fn layer_rows(rows: Seq<(Seq<char>, Seq<char>)>) -> bool {
    &&& rows_distinct(rows)
    &&& forall|i: int| 0 <= i < rows.len() ==> keeps_norm(#[trigger] rows[i])
}

/// The rows for tensors outside the layers differ from one another on both sides, and
/// none can be taken for one of a layer.
pub open spec fn global_rows(prefix: Seq<char>, rows: Seq<(Seq<char>, Seq<char>)>) -> bool {
    &&& rows_distinct(rows)
    &&& layer_prefix(prefix)
    &&& forall|i: int| 0 <= i < rows.len() ==> global_row(prefix, #[trigger] rows[i])
}

/// What the laws need of a table.
pub open spec fn well_formed(table: RenameTable) -> bool {
    &&& global_rows(table.prefix, table.globals)
    &&& layer_rows(table.layer)
}

/// `table` is that of a supported model family.
pub open spec fn is_family(table: RenameTable) -> bool {
    ||| table == gemma4_table()
    ||| table == gemma3_table()
    ||| table == qwen3_table()
    ||| table == qwen35_table()
}

/// The rows for the layers of Gemma 4.
proof fn lemma_gemma4_layer()
    ensures
        layer_rows(gemma4_table().layer),
{
    let t = gemma4_table().layer;
    reveal_strlit("norm.weight");
    reveal_strlit("input_layernorm.weight");
    reveal_strlit("pre_feedforward_layernorm.weight");
    reveal_strlit("post_feedforward_layernorm.weight");
    reveal_strlit("post_attention_layernorm.weight");
    reveal_strlit("self_attn.q_proj.weight");
    reveal_strlit("self_attn.k_proj.weight");
    reveal_strlit("self_attn.v_proj.weight");
    reveal_strlit("self_attn.o_proj.weight");
    reveal_strlit("self_attn.q_norm.weight");
    reveal_strlit("self_attn.k_norm.weight");
    reveal_strlit("mlp.gate_proj.weight");
    reveal_strlit("mlp.up_proj.weight");
    reveal_strlit("mlp.down_proj.weight");
    reveal_strlit("per_layer_input_gate.weight");
    reveal_strlit("per_layer_projection.weight");
    reveal_strlit("post_per_layer_input_norm.weight");
    reveal_strlit("layer_scalar");
    reveal_strlit("attn_norm.weight");
    reveal_strlit("ffn_norm.weight");
    reveal_strlit("post_ffw_norm.weight");
    reveal_strlit("post_attention_norm.weight");
    reveal_strlit("attn_q.weight");
    reveal_strlit("attn_k.weight");
    reveal_strlit("attn_v.weight");
    reveal_strlit("attn_output.weight");
    reveal_strlit("attn_q_norm.weight");
    reveal_strlit("attn_k_norm.weight");
    reveal_strlit("ffn_gate.weight");
    reveal_strlit("ffn_up.weight");
    reveal_strlit("ffn_down.weight");
    reveal_strlit("inp_gate.weight");
    reveal_strlit("proj.weight");
    reveal_strlit("post_norm.weight");
    reveal_strlit("layer_output_scale.weight");
    assert(t[1].0[1] != t[15].0[1]);
    assert(t[4].0[10] != t[5].0[10]);
    assert(t[4].0[10] != t[6].0[10]);
    assert(t[4].0[10] != t[7].0[10]);
    assert(t[4].0[12] != t[8].0[12]);
    assert(t[4].0[10] != t[9].0[10]);
    assert(t[5].0[10] != t[6].0[10]);
    assert(t[5].0[10] != t[7].0[10]);
    assert(t[5].0[10] != t[8].0[10]);
    assert(t[5].0[12] != t[9].0[12]);
    assert(t[6].0[10] != t[7].0[10]);
    assert(t[6].0[10] != t[8].0[10]);
    assert(t[6].0[10] != t[9].0[10]);
    assert(t[7].0[10] != t[8].0[10]);
    assert(t[7].0[10] != t[9].0[10]);
    assert(t[8].0[10] != t[9].0[10]);
    assert(t[10].0[4] != t[12].0[4]);
    assert(t[13].0[10] != t[14].0[10]);
    assert(t[0].1[0] != t[15].1[0]);
    assert(t[1].1[4] != t[10].1[4]);
    assert(t[1].1[4] != t[12].1[4]);
    assert(t[1].1[0] != t[13].1[0]);
    assert(t[4].1[5] != t[5].1[5]);
    assert(t[4].1[5] != t[6].1[5]);
    assert(t[4].1[0] != t[11].1[0]);
    assert(t[5].1[5] != t[6].1[5]);
    assert(t[5].1[0] != t[11].1[0]);
    assert(t[6].1[0] != t[11].1[0]);
    assert(t[7].1[5] != t[8].1[5]);
    assert(t[7].1[5] != t[9].1[5]);
    assert(t[8].1[5] != t[9].1[5]);
    assert(t[10].1[4] != t[12].1[4]);
    assert(t[10].1[0] != t[13].1[0]);
    assert(t[12].1[0] != t[13].1[0]);
    assert forall|i: int, j: int| 0 <= i < j < t.len() implies t[i].0 != t[j].0 by {
        assert(
            i == 0 || i == 1 || i == 2 || i == 3 || i == 4 || i == 5 || i == 6 || i == 7 || i == 8
            || i == 9 || i == 10 || i == 11 || i == 12 || i == 13 || i == 14 || i == 15 || i == 16
        );
        assert(
            j == 0 || j == 1 || j == 2 || j == 3 || j == 4 || j == 5 || j == 6 || j == 7 || j == 8
            || j == 9 || j == 10 || j == 11 || j == 12 || j == 13 || j == 14 || j == 15 || j == 16
        );
        assert(t[i].0.len() != t[j].0.len() || t[i].0 != t[j].0);
    }
    assert forall|i: int, j: int| 0 <= i < j < t.len() implies t[i].1 != t[j].1 by {
        assert(
            i == 0 || i == 1 || i == 2 || i == 3 || i == 4 || i == 5 || i == 6 || i == 7 || i == 8
            || i == 9 || i == 10 || i == 11 || i == 12 || i == 13 || i == 14 || i == 15 || i == 16
        );
        assert(
            j == 0 || j == 1 || j == 2 || j == 3 || j == 4 || j == 5 || j == 6 || j == 7 || j == 8
            || j == 9 || j == 10 || j == 11 || j == 12 || j == 13 || j == 14 || j == 15 || j == 16
        );
        assert(t[i].1.len() != t[j].1.len() || t[i].1 != t[j].1);
    }
    assert(t[0].0.skip(11) =~= "norm.weight"@);
    assert(t[0].1.skip(5) =~= "norm.weight"@);
    assert(t[1].0.skip(21) =~= "norm.weight"@);
    assert(t[1].1.skip(4) =~= "norm.weight"@);
    assert(t[2].0.skip(22) =~= "norm.weight"@);
    assert(t[2].1.skip(9) =~= "norm.weight"@);
    assert(t[3].0.skip(20) =~= "norm.weight"@);
    assert(t[3].1.skip(15) =~= "norm.weight"@);
    assert(t[4].0.skip(12)[3] != "norm.weight"@[3]);
    assert(t[4].1.skip(2)[3] != "norm.weight"@[3]);
    assert(t[5].0.skip(12)[3] != "norm.weight"@[3]);
    assert(t[5].1.skip(2)[3] != "norm.weight"@[3]);
    assert(t[6].0.skip(12)[3] != "norm.weight"@[3]);
    assert(t[6].1.skip(2)[3] != "norm.weight"@[3]);
    assert(t[7].0.skip(12)[3] != "norm.weight"@[3]);
    assert(t[7].1.skip(7)[3] != "norm.weight"@[3]);
    assert(t[8].0.skip(12) =~= "norm.weight"@);
    assert(t[8].1.skip(7) =~= "norm.weight"@);
    assert(t[9].0.skip(12) =~= "norm.weight"@);
    assert(t[9].1.skip(7) =~= "norm.weight"@);
    assert(t[10].0.skip(9)[3] != "norm.weight"@[3]);
    assert(t[10].1.skip(4)[3] != "norm.weight"@[3]);
    assert(t[11].0.skip(7)[3] != "norm.weight"@[3]);
    assert(t[11].1.skip(2)[3] != "norm.weight"@[3]);
    assert(t[12].0.skip(9)[3] != "norm.weight"@[3]);
    assert(t[12].1.skip(4)[3] != "norm.weight"@[3]);
    assert(t[13].0.skip(16)[3] != "norm.weight"@[3]);
    assert(t[13].1.skip(4)[3] != "norm.weight"@[3]);
    assert(t[14].0.skip(16)[3] != "norm.weight"@[3]);
    assert(t[14].1.skip(0)[3] != "norm.weight"@[3]);
    assert(t[15].0.skip(21) =~= "norm.weight"@);
    assert(t[15].1.skip(5) =~= "norm.weight"@);
    assert(t[16].0.skip(1)[10] != "norm.weight"@[10]);
    assert(t[16].1.skip(14)[3] != "norm.weight"@[3]);
    assert forall|i: int| 0 <= i < t.len() implies keeps_norm(#[trigger] t[i]) by {
        assert(
            i == 0 || i == 1 || i == 2 || i == 3 || i == 4 || i == 5 || i == 6 || i == 7 || i == 8
            || i == 9 || i == 10 || i == 11 || i == 12 || i == 13 || i == 14 || i == 15 || i == 16
        );
    }
}

/// The rows for the tensors of Gemma 4 outside its layers.
proof fn lemma_gemma4_globals()
    ensures
        global_rows(gemma4_table().prefix, gemma4_table().globals),
{
    let t = gemma4_table().globals;
    let prefix = gemma4_table().prefix;
    reveal_strlit("norm.weight");
    reveal_strlit("model.language_model.layers.");
    reveal_strlit("model.language_model.embed_tokens.weight");
    reveal_strlit("model.language_model.embed_tokens_per_layer.weight");
    reveal_strlit("model.language_model.per_layer_model_projection.weight");
    reveal_strlit("model.language_model.per_layer_projection_norm.weight");
    reveal_strlit("model.language_model.norm.weight");
    reveal_strlit("token_embd.weight");
    reveal_strlit("per_layer_token_embd.weight");
    reveal_strlit("per_layer_model_proj.weight");
    reveal_strlit("per_layer_proj_norm.weight");
    reveal_strlit("output_norm.weight");
    assert(t[1].1[10] != t[2].1[10]);
    assert forall|i: int, j: int| 0 <= i < j < t.len() implies t[i].0 != t[j].0 by {
        assert(i == 0 || i == 1 || i == 2 || i == 3 || i == 4);
        assert(j == 0 || j == 1 || j == 2 || j == 3 || j == 4);
        assert(t[i].0.len() != t[j].0.len() || t[i].0 != t[j].0);
    }
    assert forall|i: int, j: int| 0 <= i < j < t.len() implies t[i].1 != t[j].1 by {
        assert(i == 0 || i == 1 || i == 2 || i == 3 || i == 4);
        assert(j == 0 || j == 1 || j == 2 || j == 3 || j == 4);
        assert(t[i].1.len() != t[j].1.len() || t[i].1 != t[j].1);
    }
    assert(t[0].0.skip(29)[3] != "norm.weight"@[3]);
    assert(t[0].1.skip(6)[3] != "norm.weight"@[3]);
    assert(t[1].0.skip(39)[3] != "norm.weight"@[3]);
    assert(t[1].1.skip(16)[3] != "norm.weight"@[3]);
    assert(t[2].0.skip(43)[3] != "norm.weight"@[3]);
    assert(t[2].1.skip(16)[3] != "norm.weight"@[3]);
    assert(t[3].0.skip(42) =~= "norm.weight"@);
    assert(t[3].1.skip(15) =~= "norm.weight"@);
    assert(t[4].0.skip(21) =~= "norm.weight"@);
    assert(t[4].1.skip(7) =~= "norm.weight"@);
    assert(t[0].0.subrange(0, prefix.len() as int)[21] != prefix[21] || t[0].0.len() < prefix.len());
    assert(t[1].0.subrange(0, prefix.len() as int)[21] != prefix[21] || t[1].0.len() < prefix.len());
    assert(t[2].0.subrange(0, prefix.len() as int)[21] != prefix[21] || t[2].0.len() < prefix.len());
    assert(t[3].0.subrange(0, prefix.len() as int)[21] != prefix[21] || t[3].0.len() < prefix.len());
    assert(t[4].0.subrange(0, prefix.len() as int)[21] != prefix[21] || t[4].0.len() < prefix.len());
    assert forall|i: int| 0 <= i < t.len() implies global_row(prefix, #[trigger] t[i]) by {
        assert(i == 0 || i == 1 || i == 2 || i == 3 || i == 4);
    }
}

/// The rows for the layers of Gemma 3 are the first rows of those of Gemma 4.
proof fn lemma_gemma3_layer()
    ensures
        layer_rows(gemma3_table().layer),
{
    lemma_gemma4_layer();
    let t = gemma3_table().layer;
    let longer = gemma4_table().layer;
    assert(t =~= longer.take(13));
    assert forall|i: int| 0 <= i < t.len() implies #[trigger] t[i] == longer[i] by {}
}

/// The rows for the tensors of Gemma 3 outside its layers.
proof fn lemma_gemma3_globals()
    ensures
        global_rows(gemma3_table().prefix, gemma3_table().globals),
{
    let t = gemma3_table().globals;
    let prefix = gemma3_table().prefix;
    reveal_strlit("norm.weight");
    reveal_strlit("model.layers.");
    reveal_strlit("model.embed_tokens.weight");
    reveal_strlit("model.norm.weight");
    reveal_strlit("token_embd.weight");
    reveal_strlit("output_norm.weight");
    assert forall|i: int, j: int| 0 <= i < j < t.len() implies t[i].0 != t[j].0 by {
        assert(i == 0 || i == 1);
        assert(j == 0 || j == 1);
        assert(t[i].0.len() != t[j].0.len() || t[i].0 != t[j].0);
    }
    assert forall|i: int, j: int| 0 <= i < j < t.len() implies t[i].1 != t[j].1 by {
        assert(i == 0 || i == 1);
        assert(j == 0 || j == 1);
        assert(t[i].1.len() != t[j].1.len() || t[i].1 != t[j].1);
    }
    assert(t[0].0.skip(14)[3] != "norm.weight"@[3]);
    assert(t[0].1.skip(6)[3] != "norm.weight"@[3]);
    assert(t[1].0.skip(6) =~= "norm.weight"@);
    assert(t[1].1.skip(7) =~= "norm.weight"@);
    assert(t[0].0.subrange(0, prefix.len() as int)[6] != prefix[6] || t[0].0.len() < prefix.len());
    assert(t[1].0.subrange(0, prefix.len() as int)[6] != prefix[6] || t[1].0.len() < prefix.len());
    assert forall|i: int| 0 <= i < t.len() implies global_row(prefix, #[trigger] t[i]) by {
        assert(i == 0 || i == 1);
    }
}

/// The rows for the layers of Qwen 3.
proof fn lemma_qwen3_layer()
    ensures
        layer_rows(qwen3_table().layer),
{
    let t = qwen3_table().layer;
    reveal_strlit("norm.weight");
    reveal_strlit("input_layernorm.weight");
    reveal_strlit("post_attention_layernorm.weight");
    reveal_strlit("self_attn.q_proj.weight");
    reveal_strlit("self_attn.k_proj.weight");
    reveal_strlit("self_attn.v_proj.weight");
    reveal_strlit("self_attn.o_proj.weight");
    reveal_strlit("self_attn.q_norm.weight");
    reveal_strlit("self_attn.k_norm.weight");
    reveal_strlit("mlp.gate_proj.weight");
    reveal_strlit("mlp.up_proj.weight");
    reveal_strlit("mlp.down_proj.weight");
    reveal_strlit("attn_norm.weight");
    reveal_strlit("ffn_norm.weight");
    reveal_strlit("attn_q.weight");
    reveal_strlit("attn_k.weight");
    reveal_strlit("attn_v.weight");
    reveal_strlit("attn_output.weight");
    reveal_strlit("attn_q_norm.weight");
    reveal_strlit("attn_k_norm.weight");
    reveal_strlit("ffn_gate.weight");
    reveal_strlit("ffn_up.weight");
    reveal_strlit("ffn_down.weight");
    assert(t[2].0[10] != t[3].0[10]);
    assert(t[2].0[10] != t[4].0[10]);
    assert(t[2].0[10] != t[5].0[10]);
    assert(t[2].0[12] != t[6].0[12]);
    assert(t[2].0[10] != t[7].0[10]);
    assert(t[3].0[10] != t[4].0[10]);
    assert(t[3].0[10] != t[5].0[10]);
    assert(t[3].0[10] != t[6].0[10]);
    assert(t[3].0[12] != t[7].0[12]);
    assert(t[4].0[10] != t[5].0[10]);
    assert(t[4].0[10] != t[6].0[10]);
    assert(t[4].0[10] != t[7].0[10]);
    assert(t[5].0[10] != t[6].0[10]);
    assert(t[5].0[10] != t[7].0[10]);
    assert(t[6].0[10] != t[7].0[10]);
    assert(t[8].0[4] != t[10].0[4]);
    assert(t[1].1[4] != t[8].1[4]);
    assert(t[1].1[4] != t[10].1[4]);
    assert(t[2].1[5] != t[3].1[5]);
    assert(t[2].1[5] != t[4].1[5]);
    assert(t[2].1[0] != t[9].1[0]);
    assert(t[3].1[5] != t[4].1[5]);
    assert(t[3].1[0] != t[9].1[0]);
    assert(t[4].1[0] != t[9].1[0]);
    assert(t[5].1[5] != t[6].1[5]);
    assert(t[5].1[5] != t[7].1[5]);
    assert(t[6].1[5] != t[7].1[5]);
    assert(t[8].1[4] != t[10].1[4]);
    assert forall|i: int, j: int| 0 <= i < j < t.len() implies t[i].0 != t[j].0 by {
        assert(
            i == 0 || i == 1 || i == 2 || i == 3 || i == 4 || i == 5 || i == 6 || i == 7 || i == 8
            || i == 9 || i == 10
        );
        assert(
            j == 0 || j == 1 || j == 2 || j == 3 || j == 4 || j == 5 || j == 6 || j == 7 || j == 8
            || j == 9 || j == 10
        );
        assert(t[i].0.len() != t[j].0.len() || t[i].0 != t[j].0);
    }
    assert forall|i: int, j: int| 0 <= i < j < t.len() implies t[i].1 != t[j].1 by {
        assert(
            i == 0 || i == 1 || i == 2 || i == 3 || i == 4 || i == 5 || i == 6 || i == 7 || i == 8
            || i == 9 || i == 10
        );
        assert(
            j == 0 || j == 1 || j == 2 || j == 3 || j == 4 || j == 5 || j == 6 || j == 7 || j == 8
            || j == 9 || j == 10
        );
        assert(t[i].1.len() != t[j].1.len() || t[i].1 != t[j].1);
    }
    assert(t[0].0.skip(11) =~= "norm.weight"@);
    assert(t[0].1.skip(5) =~= "norm.weight"@);
    assert(t[1].0.skip(20) =~= "norm.weight"@);
    assert(t[1].1.skip(4) =~= "norm.weight"@);
    assert(t[2].0.skip(12)[3] != "norm.weight"@[3]);
    assert(t[2].1.skip(2)[3] != "norm.weight"@[3]);
    assert(t[3].0.skip(12)[3] != "norm.weight"@[3]);
    assert(t[3].1.skip(2)[3] != "norm.weight"@[3]);
    assert(t[4].0.skip(12)[3] != "norm.weight"@[3]);
    assert(t[4].1.skip(2)[3] != "norm.weight"@[3]);
    assert(t[5].0.skip(12)[3] != "norm.weight"@[3]);
    assert(t[5].1.skip(7)[3] != "norm.weight"@[3]);
    assert(t[6].0.skip(12) =~= "norm.weight"@);
    assert(t[6].1.skip(7) =~= "norm.weight"@);
    assert(t[7].0.skip(12) =~= "norm.weight"@);
    assert(t[7].1.skip(7) =~= "norm.weight"@);
    assert(t[8].0.skip(9)[3] != "norm.weight"@[3]);
    assert(t[8].1.skip(4)[3] != "norm.weight"@[3]);
    assert(t[9].0.skip(7)[3] != "norm.weight"@[3]);
    assert(t[9].1.skip(2)[3] != "norm.weight"@[3]);
    assert(t[10].0.skip(9)[3] != "norm.weight"@[3]);
    assert(t[10].1.skip(4)[3] != "norm.weight"@[3]);
    assert forall|i: int| 0 <= i < t.len() implies keeps_norm(#[trigger] t[i]) by {
        assert(
            i == 0 || i == 1 || i == 2 || i == 3 || i == 4 || i == 5 || i == 6 || i == 7 || i == 8
            || i == 9 || i == 10
        );
    }
}

/// The rows for the tensors of Qwen 3 outside its layers.
proof fn lemma_qwen3_globals()
    ensures
        global_rows(qwen3_table().prefix, qwen3_table().globals),
{
    let t = qwen3_table().globals;
    let prefix = qwen3_table().prefix;
    reveal_strlit("norm.weight");
    reveal_strlit("model.layers.");
    reveal_strlit("model.embed_tokens.weight");
    reveal_strlit("model.norm.weight");
    reveal_strlit("lm_head.weight");
    reveal_strlit("token_embd.weight");
    reveal_strlit("output_norm.weight");
    reveal_strlit("output.weight");
    assert forall|i: int, j: int| 0 <= i < j < t.len() implies t[i].0 != t[j].0 by {
        assert(i == 0 || i == 1 || i == 2);
        assert(j == 0 || j == 1 || j == 2);
        assert(t[i].0.len() != t[j].0.len() || t[i].0 != t[j].0);
    }
    assert forall|i: int, j: int| 0 <= i < j < t.len() implies t[i].1 != t[j].1 by {
        assert(i == 0 || i == 1 || i == 2);
        assert(j == 0 || j == 1 || j == 2);
        assert(t[i].1.len() != t[j].1.len() || t[i].1 != t[j].1);
    }
    assert(t[0].0.skip(14)[3] != "norm.weight"@[3]);
    assert(t[0].1.skip(6)[3] != "norm.weight"@[3]);
    assert(t[1].0.skip(6) =~= "norm.weight"@);
    assert(t[1].1.skip(7) =~= "norm.weight"@);
    assert(t[2].0.skip(3)[3] != "norm.weight"@[3]);
    assert(t[2].1.skip(2)[3] != "norm.weight"@[3]);
    assert(t[0].0.subrange(0, prefix.len() as int)[6] != prefix[6] || t[0].0.len() < prefix.len());
    assert(t[1].0.subrange(0, prefix.len() as int)[6] != prefix[6] || t[1].0.len() < prefix.len());
    assert(t[2].0.subrange(0, prefix.len() as int)[0] != prefix[0] || t[2].0.len() < prefix.len());
    assert forall|i: int| 0 <= i < t.len() implies global_row(prefix, #[trigger] t[i]) by {
        assert(i == 0 || i == 1 || i == 2);
    }
}

/// The rows for the layers of Qwen 3.5.
proof fn lemma_qwen35_layer()
    ensures
        layer_rows(qwen35_table().layer),
{
    let t = qwen35_table().layer;
    reveal_strlit("norm.weight");
    reveal_strlit("input_layernorm.weight");
    reveal_strlit("post_attention_layernorm.weight");
    reveal_strlit("self_attn.q_proj.weight");
    reveal_strlit("self_attn.k_proj.weight");
    reveal_strlit("self_attn.v_proj.weight");
    reveal_strlit("self_attn.o_proj.weight");
    reveal_strlit("self_attn.q_norm.weight");
    reveal_strlit("self_attn.k_norm.weight");
    reveal_strlit("mlp.gate_proj.weight");
    reveal_strlit("mlp.up_proj.weight");
    reveal_strlit("mlp.down_proj.weight");
    reveal_strlit("linear_attn.in_proj_qkv.weight");
    reveal_strlit("linear_attn.in_proj_z.weight");
    reveal_strlit("linear_attn.in_proj_a.weight");
    reveal_strlit("linear_attn.in_proj_b.weight");
    reveal_strlit("linear_attn.conv1d.weight");
    reveal_strlit("linear_attn.A_log");
    reveal_strlit("linear_attn.dt_bias");
    reveal_strlit("linear_attn.norm.weight");
    reveal_strlit("linear_attn.out_proj.weight");
    reveal_strlit("attn_norm.weight");
    reveal_strlit("post_attention_norm.weight");
    reveal_strlit("attn_q.weight");
    reveal_strlit("attn_k.weight");
    reveal_strlit("attn_v.weight");
    reveal_strlit("attn_output.weight");
    reveal_strlit("attn_q_norm.weight");
    reveal_strlit("attn_k_norm.weight");
    reveal_strlit("ffn_gate.weight");
    reveal_strlit("ffn_up.weight");
    reveal_strlit("ffn_down.weight");
    reveal_strlit("attn_qkv.weight");
    reveal_strlit("attn_gate.weight");
    reveal_strlit("ssm_alpha.weight");
    reveal_strlit("ssm_beta.weight");
    reveal_strlit("ssm_conv1d.weight");
    reveal_strlit("ssm_a");
    reveal_strlit("ssm_dt");
    reveal_strlit("ssm_norm.weight");
    reveal_strlit("ssm_out.weight");
    assert(t[2].0[10] != t[3].0[10]);
    assert(t[2].0[10] != t[4].0[10]);
    assert(t[2].0[10] != t[5].0[10]);
    assert(t[2].0[12] != t[6].0[12]);
    assert(t[2].0[10] != t[7].0[10]);
    assert(t[2].0[0] != t[18].0[0]);
    assert(t[3].0[10] != t[4].0[10]);
    assert(t[3].0[10] != t[5].0[10]);
    assert(t[3].0[10] != t[6].0[10]);
    assert(t[3].0[12] != t[7].0[12]);
    assert(t[3].0[0] != t[18].0[0]);
    assert(t[4].0[10] != t[5].0[10]);
    assert(t[4].0[10] != t[6].0[10]);
    assert(t[4].0[10] != t[7].0[10]);
    assert(t[4].0[0] != t[18].0[0]);
    assert(t[5].0[10] != t[6].0[10]);
    assert(t[5].0[10] != t[7].0[10]);
    assert(t[5].0[0] != t[18].0[0]);
    assert(t[6].0[10] != t[7].0[10]);
    assert(t[6].0[0] != t[18].0[0]);
    assert(t[7].0[0] != t[18].0[0]);
    assert(t[8].0[4] != t[10].0[4]);
    assert(t[12].0[20] != t[13].0[20]);
    assert(t[12].0[20] != t[14].0[20]);
    assert(t[13].0[20] != t[14].0[20]);
    assert(t[0].1[5] != t[12].1[5]);
    assert(t[0].1[0] != t[13].1[0]);
    assert(t[2].1[5] != t[3].1[5]);
    assert(t[2].1[5] != t[4].1[5]);
    assert(t[2].1[0] != t[9].1[0]);
    assert(t[3].1[5] != t[4].1[5]);
    assert(t[3].1[0] != t[9].1[0]);
    assert(t[4].1[0] != t[9].1[0]);
    assert(t[5].1[5] != t[6].1[5]);
    assert(t[5].1[5] != t[7].1[5]);
    assert(t[6].1[5] != t[7].1[5]);
    assert(t[8].1[4] != t[10].1[4]);
    assert(t[8].1[0] != t[11].1[0]);
    assert(t[8].1[0] != t[14].1[0]);
    assert(t[8].1[0] != t[18].1[0]);
    assert(t[10].1[0] != t[11].1[0]);
    assert(t[10].1[0] != t[14].1[0]);
    assert(t[10].1[0] != t[18].1[0]);
    assert(t[11].1[0] != t[14].1[0]);
    assert(t[11].1[0] != t[18].1[0]);
    assert(t[12].1[0] != t[13].1[0]);
    assert(t[14].1[4] != t[18].1[4]);
    assert forall|i: int, j: int| 0 <= i < j < t.len() implies t[i].0 != t[j].0 by {
        assert(
            i == 0 || i == 1 || i == 2 || i == 3 || i == 4 || i == 5 || i == 6 || i == 7 || i == 8
            || i == 9 || i == 10 || i == 11 || i == 12 || i == 13 || i == 14 || i == 15 || i == 16
            || i == 17 || i == 18 || i == 19
        );
        assert(
            j == 0 || j == 1 || j == 2 || j == 3 || j == 4 || j == 5 || j == 6 || j == 7 || j == 8
            || j == 9 || j == 10 || j == 11 || j == 12 || j == 13 || j == 14 || j == 15 || j == 16
            || j == 17 || j == 18 || j == 19
        );
        assert(t[i].0.len() != t[j].0.len() || t[i].0 != t[j].0);
    }
    assert forall|i: int, j: int| 0 <= i < j < t.len() implies t[i].1 != t[j].1 by {
        assert(
            i == 0 || i == 1 || i == 2 || i == 3 || i == 4 || i == 5 || i == 6 || i == 7 || i == 8
            || i == 9 || i == 10 || i == 11 || i == 12 || i == 13 || i == 14 || i == 15 || i == 16
            || i == 17 || i == 18 || i == 19
        );
        assert(
            j == 0 || j == 1 || j == 2 || j == 3 || j == 4 || j == 5 || j == 6 || j == 7 || j == 8
            || j == 9 || j == 10 || j == 11 || j == 12 || j == 13 || j == 14 || j == 15 || j == 16
            || j == 17 || j == 18 || j == 19
        );
        assert(t[i].1.len() != t[j].1.len() || t[i].1 != t[j].1);
    }
    assert(t[0].0.skip(11) =~= "norm.weight"@);
    assert(t[0].1.skip(5) =~= "norm.weight"@);
    assert(t[1].0.skip(20) =~= "norm.weight"@);
    assert(t[1].1.skip(15) =~= "norm.weight"@);
    assert(t[2].0.skip(12)[3] != "norm.weight"@[3]);
    assert(t[2].1.skip(2)[3] != "norm.weight"@[3]);
    assert(t[3].0.skip(12)[3] != "norm.weight"@[3]);
    assert(t[3].1.skip(2)[3] != "norm.weight"@[3]);
    assert(t[4].0.skip(12)[3] != "norm.weight"@[3]);
    assert(t[4].1.skip(2)[3] != "norm.weight"@[3]);
    assert(t[5].0.skip(12)[3] != "norm.weight"@[3]);
    assert(t[5].1.skip(7)[3] != "norm.weight"@[3]);
    assert(t[6].0.skip(12) =~= "norm.weight"@);
    assert(t[6].1.skip(7) =~= "norm.weight"@);
    assert(t[7].0.skip(12) =~= "norm.weight"@);
    assert(t[7].1.skip(7) =~= "norm.weight"@);
    assert(t[8].0.skip(9)[3] != "norm.weight"@[3]);
    assert(t[8].1.skip(4)[3] != "norm.weight"@[3]);
    assert(t[9].0.skip(7)[3] != "norm.weight"@[3]);
    assert(t[9].1.skip(2)[3] != "norm.weight"@[3]);
    assert(t[10].0.skip(9)[3] != "norm.weight"@[3]);
    assert(t[10].1.skip(4)[3] != "norm.weight"@[3]);
    assert(t[11].0.skip(19)[3] != "norm.weight"@[3]);
    assert(t[11].1.skip(4)[3] != "norm.weight"@[3]);
    assert(t[12].0.skip(17)[3] != "norm.weight"@[3]);
    assert(t[12].1.skip(5)[3] != "norm.weight"@[3]);
    assert(t[13].0.skip(17)[3] != "norm.weight"@[3]);
    assert(t[13].1.skip(5)[3] != "norm.weight"@[3]);
    assert(t[14].0.skip(17)[3] != "norm.weight"@[3]);
    assert(t[14].1.skip(4)[3] != "norm.weight"@[3]);
    assert(t[15].0.skip(14)[3] != "norm.weight"@[3]);
    assert(t[15].1.skip(6)[3] != "norm.weight"@[3]);
    assert(t[16].0.skip(6)[10] != "norm.weight"@[10]);
    assert(t[17].0.skip(8)[10] != "norm.weight"@[10]);
    assert(t[18].0.skip(12) =~= "norm.weight"@);
    assert(t[18].1.skip(4) =~= "norm.weight"@);
    assert(t[19].0.skip(16)[3] != "norm.weight"@[3]);
    assert(t[19].1.skip(3)[3] != "norm.weight"@[3]);
    assert forall|i: int| 0 <= i < t.len() implies keeps_norm(#[trigger] t[i]) by {
        assert(
            i == 0 || i == 1 || i == 2 || i == 3 || i == 4 || i == 5 || i == 6 || i == 7 || i == 8
            || i == 9 || i == 10 || i == 11 || i == 12 || i == 13 || i == 14 || i == 15 || i == 16
            || i == 17 || i == 18 || i == 19
        );
    }
}

/// The rows for the tensors of Qwen 3.5 outside its layers.
proof fn lemma_qwen35_globals()
    ensures
        global_rows(qwen35_table().prefix, qwen35_table().globals),
{
    let t = qwen35_table().globals;
    let prefix = qwen35_table().prefix;
    reveal_strlit("norm.weight");
    reveal_strlit("model.language_model.layers.");
    reveal_strlit("model.language_model.embed_tokens.weight");
    reveal_strlit("model.language_model.norm.weight");
    reveal_strlit("token_embd.weight");
    reveal_strlit("output_norm.weight");
    assert forall|i: int, j: int| 0 <= i < j < t.len() implies t[i].0 != t[j].0 by {
        assert(i == 0 || i == 1);
        assert(j == 0 || j == 1);
        assert(t[i].0.len() != t[j].0.len() || t[i].0 != t[j].0);
    }
    assert forall|i: int, j: int| 0 <= i < j < t.len() implies t[i].1 != t[j].1 by {
        assert(i == 0 || i == 1);
        assert(j == 0 || j == 1);
        assert(t[i].1.len() != t[j].1.len() || t[i].1 != t[j].1);
    }
    assert(t[0].0.skip(29)[3] != "norm.weight"@[3]);
    assert(t[0].1.skip(6)[3] != "norm.weight"@[3]);
    assert(t[1].0.skip(21) =~= "norm.weight"@);
    assert(t[1].1.skip(7) =~= "norm.weight"@);
    assert(t[0].0.subrange(0, prefix.len() as int)[21] != prefix[21] || t[0].0.len() < prefix.len());
    assert(t[1].0.subrange(0, prefix.len() as int)[21] != prefix[21] || t[1].0.len() < prefix.len());
    assert forall|i: int| 0 <= i < t.len() implies global_row(prefix, #[trigger] t[i]) by {
        assert(i == 0 || i == 1);
    }
}

/// The table of every family is well formed.
pub proof fn lemma_family_well_formed(table: RenameTable)
    requires
        is_family(table),
    ensures
        well_formed(table),
{
    lemma_gemma4_layer();
    lemma_gemma4_globals();
    lemma_gemma3_layer();
    lemma_gemma3_globals();
    lemma_qwen3_layer();
    lemma_qwen3_globals();
    lemma_qwen35_layer();
    lemma_qwen35_globals();
}

} // verus!
