//! Laws of the renaming, for the table of every model family.
use crate::rename::{
    block_name, gemma3_table, gemma4_table, known_name, layer_parts, lookup, rename, RenameTable,
};
use crate::rename_rows::{
    begins_as_hf, is_family, is_norm, keeps_norm, lemma_family_well_formed, rows_distinct,
    settles_norm,
};
use vstd::prelude::*;
use vstd::string::*;

verus! {

/// What a lookup finds is a row of the table, and it misses only what no row has.
pub proof fn lemma_lookup(table: Seq<(Seq<char>, Seq<char>)>, key: Seq<char>)
    ensures
        match lookup(table, key) {
            Some(value) => exists|i: int| 0 <= i < table.len() && table[i] == (key, value),
            None => forall|i: int| 0 <= i < table.len() ==> (#[trigger] table[i]).0 != key,
        },
    decreases table.len(),
{
    if table.len() > 0 && table[0].0 != key {
        let rest = table.drop_first();
        lemma_lookup(rest, key);
        match lookup(rest, key) {
            Some(value) => {
                let i = choose|i: int| 0 <= i < rest.len() && rest[i] == (key, value);
                assert(table[i + 1] == (key, value));
            },
            None => {
                assert forall|i: int| 0 <= i < table.len() implies (#[trigger] table[i]).0 != key by {
                    if i > 0 {
                        assert(rest[i - 1] == table[i]);
                    }
                }
            },
        }
    } else if table.len() > 0 {
        assert(table[0] == (key, table[0].1));
    }
}

/// Among distinct rows, looking up a left side gives the right side beside it.
proof fn lemma_lookup_row(table: Seq<(Seq<char>, Seq<char>)>, i: int)
    requires
        rows_distinct(table),
        0 <= i < table.len(),
    ensures
        lookup(table, table[i].0) == Some(table[i].1),
{
    lemma_lookup(table, table[i].0);
    if let Some(value) = lookup(table, table[i].0) {
        let j = choose|j: int| 0 <= j < table.len() && table[j] == (table[i].0, value);
        if j < i {
            assert(table[j].0 != table[i].0);
        } else if i < j {
            assert(table[i].0 != table[j].0);
        }
    }
}

/// The parts of a layer tensor's name, put together, are the name.
pub proof fn lemma_layer_parts(name: Seq<char>, prefix: Seq<char>)
    ensures
        layer_parts(name, prefix) matches Some((index, rest)) ==> {
            &&& !index.contains('.')
            &&& name == prefix + index + "."@ + rest
        },
{
    reveal_strlit(".");
    if prefix.is_prefix_of(name) {
        let after = name.skip(prefix.len() as int);
        after.index_of_first_ensures('.');
        if let Some(dot) = after.index_of_first('.') {
            let index = after.take(dot);
            let rest = after.skip(dot + 1);
            assert(name =~= prefix + index + "."@ + rest);
        }
    }
}

/// Parts with an index that holds no dot are found again in the name they make.
proof fn lemma_parts_found(prefix: Seq<char>, index: Seq<char>, rest: Seq<char>)
    requires
        !index.contains('.'),
    ensures
        layer_parts(prefix + index + "."@ + rest, prefix) == Some((index, rest)),
{
    reveal_strlit(".");
    let name = prefix + index + "."@ + rest;
    assert(name.subrange(0, prefix.len() as int) =~= prefix);
    let after = name.skip(prefix.len() as int);
    assert(after =~= index + "."@ + rest);
    after.index_of_first_ensures('.');
    assert(after[index.len() as int] == '.');
    assert(after.contains('.'));
    let dot = after.index_of_first('.')->0;
    if dot < index.len() {
        assert(index[dot] == '.');
    }
    assert(after.take(dot) =~= index);
    assert(after.skip(dot + 1) =~= rest);
}

/// A block name tells its index and its suffix.
proof fn lemma_block_name_injective(
    index1: Seq<char>,
    suffix1: Seq<char>,
    index2: Seq<char>,
    suffix2: Seq<char>,
)
    requires
        !index1.contains('.'),
        !index2.contains('.'),
        block_name(index1, suffix1) == block_name(index2, suffix2),
    ensures
        index1 == index2,
        suffix1 == suffix2,
{
    lemma_parts_found("blk."@, index1, suffix1);
    lemma_parts_found("blk."@, index2, suffix2);
}

/// Whether a name is a norm's is settled by its end.
proof fn lemma_norm_settled(start: Seq<char>, end: Seq<char>)
    requires
        settles_norm(end),
    ensures
        is_norm(start + end) == is_norm(end),
{
    reveal_strlit("norm.weight");
    let name = start + end;
    if end.len() >= 11 {
        assert(name.skip(name.len() - 11) =~= end.skip(end.len() - 11));
        assert(name.subrange(name.len() - 11, name.len() as int) =~= end.subrange(
            end.len() - 11,
            end.len() as int,
        ));
    } else {
        assert(name[name.len() - 2] == end[end.len() - 2]);
        if is_norm(name) {
            assert(name.subrange(name.len() - 11, name.len() as int)[9] == 'h');
        }
    }
}

/// The rows outside the layers: each left side becomes the right side beside it.
pub proof fn law_global_renamed(table: RenameTable, i: int)
    requires
        is_family(table),
        0 <= i < table.globals.len(),
    ensures
        rename(table, table.globals[i].0) == table.globals[i].1,
{
    lemma_family_well_formed(table);
    lemma_lookup_row(table.globals, i);
}

/// The rows of a layer: under every layer index the left side becomes the right
/// side in the block of the same index.
pub proof fn law_layer_renamed(table: RenameTable, index: Seq<char>, i: int)
    requires
        is_family(table),
        !index.contains('.'),
        0 <= i < table.layer.len(),
    ensures
        rename(table, table.prefix + index + "."@ + table.layer[i].0) == block_name(
            index,
            table.layer[i].1,
        ),
{
    lemma_family_well_formed(table);
    let name = table.prefix + index + "."@ + table.layer[i].0;
    lemma_parts_found(table.prefix, index, table.layer[i].0);
    lemma_lookup_row(table.layer, i);
    lemma_lookup(table.globals, name);
    assert(table.prefix.is_prefix_of(name)) by {
        assert(name.subrange(0, table.prefix.len() as int) =~= table.prefix);
    }
}

/// The same with the block's name written out: it has the layer's own index between
/// dots, and ends in the right side of the row.
pub proof fn law_layer_index_kept(table: RenameTable, index: Seq<char>, i: int)
    requires
        is_family(table),
        !index.contains('.'),
        0 <= i < table.layer.len(),
    ensures
        rename(table, table.prefix + index + "."@ + table.layer[i].0) == "blk."@ + index + "."@
            + table.layer[i].1,
{
    law_layer_renamed(table, index, i);
}

/// Different layers go to different blocks: the names of one tensor in two layers are
/// never exchanged.
pub proof fn law_layers_not_exchanged(
    table: RenameTable,
    index1: Seq<char>,
    index2: Seq<char>,
    i: int,
    j: int,
)
    requires
        is_family(table),
        !index1.contains('.'),
        !index2.contains('.'),
        0 <= i < table.layer.len(),
        0 <= j < table.layer.len(),
        index1 != index2,
    ensures
        rename(table, table.prefix + index1 + "."@ + table.layer[i].0) != "blk."@ + index2 + "."@
            + table.layer[j].1,
{
    law_layer_renamed(table, index1, i);
    lemma_parts_found("blk."@, index1, table.layer[i].1);
    lemma_parts_found("blk."@, index2, table.layer[j].1);
}

/// Every other name stays as it is.
pub proof fn law_unknown_unchanged(table: RenameTable, name: Seq<char>)
    requires
        is_family(table),
        forall|i: int| 0 <= i < table.globals.len() ==> (#[trigger] table.globals[i]).0 != name,
        forall|index: Seq<char>, i: int|
            0 <= i < table.layer.len() && !index.contains('.') ==> name != #[trigger] (table.prefix
                + index + "."@ + table.layer[i].0),
    ensures
        rename(table, name) == name,
{
    lemma_lookup(table.globals, name);
    lemma_layer_parts(name, table.prefix);
    if let Some((index, rest)) = layer_parts(name, table.prefix) {
        lemma_lookup(table.layer, rest);
        if let Some(suffix) = lookup(table.layer, rest) {
            let i = choose|i: int|
                0 <= i < table.layer.len() && table.layer[i] == (rest, suffix);
            assert(name == table.prefix + index + "."@ + table.layer[i].0);
        }
    }
}

/// No two known tensors become the same one.
pub proof fn law_known_injective(table: RenameTable, a: Seq<char>, b: Seq<char>)
    requires
        is_family(table),
        known_name(table, a) is Some,
        known_name(table, b) is Some,
        rename(table, a) == rename(table, b),
    ensures
        a == b,
{
    lemma_family_well_formed(table);
    reveal_strlit("blk.");
    lemma_lookup(table.globals, a);
    lemma_lookup(table.globals, b);
    lemma_layer_parts(a, table.prefix);
    lemma_layer_parts(b, table.prefix);
    let renamed = rename(table, a);
    match (lookup(table.globals, a), lookup(table.globals, b)) {
        (Some(x), Some(y)) => {
            let i = choose|i: int| 0 <= i < table.globals.len() && table.globals[i] == (a, x);
            let j = choose|j: int| 0 <= j < table.globals.len() && table.globals[j] == (b, y);
            if i < j {
                assert(table.globals[i].1 != table.globals[j].1);
            } else if j < i {
                assert(table.globals[j].1 != table.globals[i].1);
            }
        },
        (Some(x), None) => {
            let i = choose|i: int| 0 <= i < table.globals.len() && table.globals[i] == (a, x);
            assert(table.globals[i].1[0] != 'b');
            assert(renamed[0] == "blk."@[0]);
        },
        (None, Some(y)) => {
            let j = choose|j: int| 0 <= j < table.globals.len() && table.globals[j] == (b, y);
            assert(table.globals[j].1[0] != 'b');
            assert(renamed[0] == "blk."@[0]);
        },
        (None, None) => {
            let (index1, rest1) = layer_parts(a, table.prefix)->0;
            let (index2, rest2) = layer_parts(b, table.prefix)->0;
            let suffix1 = lookup(table.layer, rest1)->0;
            let suffix2 = lookup(table.layer, rest2)->0;
            lemma_block_name_injective(index1, suffix1, index2, suffix2);
            lemma_lookup(table.layer, rest1);
            lemma_lookup(table.layer, rest2);
            let i = choose|i: int|
                0 <= i < table.layer.len() && table.layer[i] == (rest1, suffix1);
            let j = choose|j: int|
                0 <= j < table.layer.len() && table.layer[j] == (rest2, suffix2);
            if i < j {
                assert(table.layer[i].1 != table.layer[j].1);
            } else if j < i {
                assert(table.layer[j].1 != table.layer[i].1);
            }
        },
    }
}

/// A known tensor's llama.cpp name does not begin as the HuggingFace names do.
proof fn lemma_known_not_hf(table: RenameTable, name: Seq<char>)
    requires
        is_family(table),
        known_name(table, name) is Some,
    ensures
        rename(table, name).len() > 0,
        !begins_as_hf(rename(table, name)),
{
    lemma_family_well_formed(table);
    reveal_strlit("blk.");
    lemma_lookup(table.globals, name);
    match lookup(table.globals, name) {
        Some(x) => {
            let i = choose|i: int| 0 <= i < table.globals.len() && table.globals[i] == (name, x);
            assert(!begins_as_hf(table.globals[i].1));
        },
        None => {
            assert(rename(table, name)[0] == "blk."@[0]);
        },
    }
}

/// An unknown HuggingFace name never meets the llama.cpp name of a known tensor, so
/// that it cannot be taken for that tensor.
pub proof fn law_unknown_meets_no_known(table: RenameTable, known: Seq<char>, unknown: Seq<char>)
    requires
        is_family(table),
        known_name(table, known) is Some,
        known_name(table, unknown) is None,
        begins_as_hf(unknown),
    ensures
        rename(table, known) != rename(table, unknown),
{
    lemma_known_not_hf(table, known);
}

/// Renaming a second time changes nothing.
pub proof fn law_rename_idempotent(table: RenameTable, name: Seq<char>)
    requires
        is_family(table),
    ensures
        rename(table, rename(table, name)) == rename(table, name),
{
    if known_name(table, name) is Some {
        let renamed = rename(table, name);
        lemma_family_well_formed(table);
        lemma_known_not_hf(table, name);
        lemma_lookup(table.globals, renamed);
        if let Some(x) = lookup(table.globals, renamed) {
            let i = choose|i: int| 0 <= i < table.globals.len() && table.globals[i] == (renamed, x);
            assert(begins_as_hf(table.globals[i].0));
        }
        if table.prefix.is_prefix_of(renamed) {
            assert(renamed.subrange(0, table.prefix.len() as int)[0] == renamed[0]);
        }
    }
}

/// A tensor is named as a norm's weight after the renaming exactly where it was
/// before it.
pub proof fn law_norm_kept(table: RenameTable, name: Seq<char>)
    requires
        is_family(table),
    ensures
        is_norm(rename(table, name)) == is_norm(name),
{
    lemma_family_well_formed(table);
    lemma_lookup(table.globals, name);
    lemma_layer_parts(name, table.prefix);
    match lookup(table.globals, name) {
        Some(x) => {
            let i = choose|i: int| 0 <= i < table.globals.len() && table.globals[i] == (name, x);
            assert(is_norm(table.globals[i].0) == is_norm(table.globals[i].1));
        },
        None => {
            if let Some((index, rest)) = layer_parts(name, table.prefix) {
                lemma_lookup(table.layer, rest);
                if let Some(suffix) = lookup(table.layer, rest) {
                    let i = choose|i: int|
                        0 <= i < table.layer.len() && table.layer[i] == (rest, suffix);
                    assert(keeps_norm(table.layer[i]));
                    lemma_norm_settled(table.prefix + index + "."@, rest);
                    lemma_norm_settled("blk."@ + index + "."@, suffix);
                }
            }
        },
    }
}

/// The rows that every family has: the norm before attention, attention, and the MLP.
pub open spec fn common_rows() -> Seq<(Seq<char>, Seq<char>)> {
    seq![
        ("input_layernorm.weight"@, "attn_norm.weight"@),
        ("self_attn.q_proj.weight"@, "attn_q.weight"@),
        ("self_attn.k_proj.weight"@, "attn_k.weight"@),
        ("self_attn.v_proj.weight"@, "attn_v.weight"@),
        ("self_attn.o_proj.weight"@, "attn_output.weight"@),
        ("self_attn.q_norm.weight"@, "attn_q_norm.weight"@),
        ("self_attn.k_norm.weight"@, "attn_k_norm.weight"@),
        ("mlp.gate_proj.weight"@, "ffn_gate.weight"@),
        ("mlp.up_proj.weight"@, "ffn_up.weight"@),
        ("mlp.down_proj.weight"@, "ffn_down.weight"@),
    ]
}

/// Every common row is a row of every family: the families of Gemma have three rows of
/// their own after the first, the others one.
proof fn lemma_common_row(table: RenameTable, i: int) -> (at: int)
    requires
        is_family(table),
        0 <= i < common_rows().len(),
    ensures
        0 <= at < table.layer.len(),
        table.layer[at] == common_rows()[i],
{
    let skipped: int = if table == gemma4_table() || table == gemma3_table() {
        3
    } else {
        1
    };
    let at: int = if i == 0 {
        0
    } else {
        i + skipped
    };
    assert(i == 0 || i == 1 || i == 2 || i == 3 || i == 4 || i == 5 || i == 6 || i == 7 || i == 8
        || i == 9);
    assert(table.layer[at] == common_rows()[i]);
    at
}

/// The tensors of the common rows are renamed alike in every family.
pub proof fn law_common_rows(table: RenameTable, index: Seq<char>, i: int)
    requires
        is_family(table),
        !index.contains('.'),
        0 <= i < common_rows().len(),
    ensures
        rename(table, table.prefix + index + "."@ + common_rows()[i].0) == block_name(
            index,
            common_rows()[i].1,
        ),
{
    let at = lemma_common_row(table, i);
    law_layer_renamed(table, index, at);
}

/// Gemma 4 renames each tensor that the layers of Gemma 3 have as Gemma 3 does.
pub proof fn law_gemma3_rows_in_gemma4(index: Seq<char>, i: int)
    requires
        !index.contains('.'),
        0 <= i < gemma3_table().layer.len(),
    ensures
        rename(
            gemma4_table(),
            gemma4_table().prefix + index + "."@ + gemma3_table().layer[i].0,
        ) == rename(
            gemma3_table(),
            gemma3_table().prefix + index + "."@ + gemma3_table().layer[i].0,
        ),
{
    assert(gemma3_table().layer =~= gemma4_table().layer.take(13));
    assert(gemma3_table().layer[i] == gemma4_table().layer[i]);
    law_layer_renamed(gemma3_table(), index, i);
    law_layer_renamed(gemma4_table(), index, i);
}

} // verus!
