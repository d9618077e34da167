//! Laws of the operations on text, over how texts are put together.
use crate::text::{
    decimal, has_infix, replaced, same_char_ignoring_case, same_ignoring_case, stands_at, text_le,
    text_of, trimmed, trimmed_end, trimmed_start, white_space, without_trailing,
};
use vstd::prelude::*;

verus! {

/// The text of a string is the string's own text.
pub proof fn law_text_of(string: String)
    ensures
        text_of(Some(string)) == Some(string@),
        text_of(None) is None,
{
}

/// What is put into a text stands in it where it was put.
pub proof fn law_stands_where_put(before: Seq<char>, needle: Seq<char>, after: Seq<char>)
    ensures
        stands_at(before + needle + after, needle, before.len() as int),
        has_infix(before + needle + after, needle),
{
    let hay = before + needle + after;
    let at = before.len() as int;
    assert(hay.subrange(at, at + needle.len()) =~= needle);
    assert(stands_at(hay, needle, at));
}

/// A text that stands in another splits it in two.
pub proof fn law_infix_splits(hay: Seq<char>, needle: Seq<char>)
    requires
        has_infix(hay, needle),
    ensures
        exists|before: Seq<char>, after: Seq<char>| hay == #[trigger] (before + needle + after),
{
    let at = choose|at: int| stands_at(hay, needle, at);
    let before = hay.take(at);
    let after = hay.skip(at + needle.len());
    assert(hay =~= before + hay.subrange(at, at + needle.len()) + after);
    assert(hay == before + needle + after);
}

/// Numbers below ten are one digit, and a further digit is put behind the others. The
/// digits have the codes from that of `0` on.
pub proof fn law_decimal(n: nat, d: nat)
    requires
        d < 10,
    ensures
        decimal(d).len() == 1,
        decimal(d)[0] as u32 == '0' as u32 + d,
        n > 0 ==> decimal(10 * n + d) == decimal(n) + decimal(d),
{
    if n > 0 {
        assert((10 * n + d) / 10 == n);
        assert((10 * n + d) % 10 == d);
        assert(decimal(n).push(decimal(d)[0]) =~= decimal(n) + decimal(d));
    }
}

/// Two characters are the same but for case where they are the same character, or where
/// one is the capital of the other from `A` to `Z`, and nowhere else.
pub proof fn law_same_char(a: char, b: char)
    ensures
        same_char_ignoring_case(a, a),
        same_char_ignoring_case(a, b) == same_char_ignoring_case(b, a),
        65 <= a as u32 <= 90 && b as u32 == a as u32 + 32 ==> same_char_ignoring_case(a, b),
        same_char_ignoring_case(a, b) && a != b ==> (65 <= a as u32 <= 90 && b as u32 == a as u32
            + 32) || (65 <= b as u32 <= 90 && a as u32 == b as u32 + 32),
{
}

/// Texts are compared but for case character by character.
pub proof fn law_same_text(a: Seq<char>, b: Seq<char>, c: char, d: char)
    ensures
        same_ignoring_case(Seq::empty(), Seq::empty()),
        same_ignoring_case(a, b) ==> a.len() == b.len(),
        same_ignoring_case(a.push(c), b.push(d)) <==> same_ignoring_case(a, b)
            && same_char_ignoring_case(c, d),
{
    let x = a.push(c);
    let y = b.push(d);
    if same_ignoring_case(x, y) {
        assert forall|i: int| 0 <= i < a.len() implies same_char_ignoring_case(
            #[trigger] a[i],
            b[i],
        ) by {
            assert(x[i] == a[i] && y[i] == b[i]);
            assert(same_char_ignoring_case(x[i], y[i]));
        }
        assert(x[a.len() as int] == c);
        assert(same_char_ignoring_case(x[a.len() as int], y[a.len() as int]));
    }
}

/// The order of texts is decided by the first character in which they differ, and a text
/// stands before what it is the beginning of.
pub proof fn law_text_order(
    start: Seq<char>,
    c: char,
    rest1: Seq<char>,
    d: char,
    rest2: Seq<char>,
)
    requires
        c != d,
    ensures
        text_le(start.push(c) + rest1, start.push(d) + rest2) == (c < d),
        text_le(start, start + rest1),
        !text_le(start.push(c) + rest1, start),
    decreases start.len(),
{
    let a = start.push(c) + rest1;
    let b = start.push(d) + rest2;
    if start.len() > 0 {
        let tail = start.drop_first();
        law_text_order(tail, c, rest1, d, rest2);
        assert(a.drop_first() =~= tail.push(c) + rest1);
        assert(b.drop_first() =~= tail.push(d) + rest2);
        assert((start + rest1).drop_first() =~= tail + rest1);
    }
}

/// Text in which `from` does not stand is kept by the replacement.
pub proof fn law_replaced_none(text: Seq<char>, from: Seq<char>, to: Seq<char>)
    requires
        !has_infix(text, from),
    ensures
        replaced(text, from, to) == text,
    decreases text.len(),
{
    if text.len() > 0 && from.len() > 0 {
        assert(!stands_at(text, from, 0));
        lemma_no_infix_in_rest(text, from);
        law_replaced_none(text.drop_first(), from, to);
        assert(seq![text[0]] + text.drop_first() =~= text);
    }
}

/// Text in which `from` does not stand has none after its first character.
proof fn lemma_no_infix_in_rest(text: Seq<char>, from: Seq<char>)
    requires
        text.len() > 0,
        !has_infix(text, from),
    ensures
        !has_infix(text.drop_first(), from),
{
    if has_infix(text.drop_first(), from) {
        let at = choose|at: int| stands_at(text.drop_first(), from, at);
        assert(text.subrange(at + 1, at + 1 + from.len()) =~= text.drop_first().subrange(
            at,
            at + from.len(),
        ));
        assert(stands_at(text, from, at + 1));
    }
}

/// The first `from` becomes `to`, and what follows it is replaced on its own.
pub proof fn law_replaced_first(start: Seq<char>, from: Seq<char>, rest: Seq<char>, to: Seq<char>)
    requires
        from.len() > 0,
        forall|at: int| 0 <= at < start.len() ==> !stands_at(start + from + rest, from, at),
    ensures
        replaced(start + from + rest, from, to) == start + to + replaced(rest, from, to),
    decreases start.len(),
{
    let text = start + from + rest;
    if start.len() == 0 {
        assert(text.subrange(0, from.len() as int) =~= from);
        assert(text.skip(from.len() as int) =~= rest);
        assert(start + to + replaced(rest, from, to) =~= to + replaced(rest, from, to));
    } else {
        let tail = start.drop_first();
        assert(!stands_at(text, from, 0));
        assert(text.drop_first() =~= tail + from + rest);
        assert forall|at: int| 0 <= at < tail.len() implies !stands_at(
            tail + from + rest,
            from,
            at,
        ) by {
            if stands_at(tail + from + rest, from, at) {
                assert(text.subrange(at + 1, at + 1 + from.len()) =~= (tail + from
                    + rest).subrange(at, at + from.len()));
                assert(stands_at(text, from, at + 1));
            }
        }
        law_replaced_first(tail, from, rest, to);
        assert(seq![start[0]] + (tail + to + replaced(rest, from, to)) =~= start + to + replaced(
            rest,
            from,
            to,
        ));
    }
}

/// A run of `c` at the end is taken off, all of it and nothing else.
pub proof fn law_trailing_run(text: Seq<char>, run: Seq<char>, c: char)
    requires
        forall|i: int| 0 <= i < run.len() ==> (#[trigger] run[i]) == c,
        text.len() > 0 ==> text.last() != c,
    ensures
        without_trailing(text + run, c) == text,
    decreases run.len(),
{
    let s = text + run;
    if run.len() > 0 {
        assert(run.last() == c);
        assert(s.drop_last() =~= text + run.drop_last());
        assert forall|i: int| 0 <= i < run.drop_last().len() implies (#[trigger] run.drop_last()[i])
            == c by {
            assert(run[i] == c);
        }
        law_trailing_run(text, run.drop_last(), c);
    } else {
        assert(s =~= text);
    }
}

/// White space at both ends is taken off, all of it and nothing else.
pub proof fn law_trimmed(before: Seq<char>, text: Seq<char>, after: Seq<char>)
    requires
        forall|i: int| 0 <= i < before.len() ==> white_space(#[trigger] before[i]),
        forall|i: int| 0 <= i < after.len() ==> white_space(#[trigger] after[i]),
        text.len() > 0 ==> !white_space(text[0]) && !white_space(text.last()),
    ensures
        trimmed(before + text + after) == text,
{
    if text.len() == 0 {
        let s = before + text + after;
        assert forall|i: int| 0 <= i < s.len() implies white_space(#[trigger] s[i]) by {
            if i < before.len() {
                assert(s[i] == before[i]);
            } else {
                assert(s[i] == after[i - before.len()]);
            }
        }
        lemma_trimmed_end(Seq::empty(), s);
        assert(Seq::empty() + s =~= s);
        assert(text =~= Seq::empty());
    } else {
        let kept = before + text;
        assert(kept.last() == text.last());
        lemma_trimmed_end(kept, after);
        lemma_trimmed_start(before, text);
    }
}

/// White space at the end is taken off.
proof fn lemma_trimmed_end(text: Seq<char>, after: Seq<char>)
    requires
        forall|i: int| 0 <= i < after.len() ==> white_space(#[trigger] after[i]),
        text.len() > 0 ==> !white_space(text.last()),
    ensures
        trimmed_end(text + after) == text,
    decreases after.len(),
{
    let s = text + after;
    if after.len() > 0 {
        let shorter = after.drop_last();
        assert(white_space(after[after.len() - 1]));
        assert(s.drop_last() =~= text + shorter);
        assert forall|i: int| 0 <= i < shorter.len() implies white_space(#[trigger] shorter[i]) by {
            assert(white_space(after[i]));
        }
        lemma_trimmed_end(text, shorter);
    } else {
        assert(s =~= text);
    }
}

/// White space at the beginning is taken off.
proof fn lemma_trimmed_start(before: Seq<char>, text: Seq<char>)
    requires
        forall|i: int| 0 <= i < before.len() ==> white_space(#[trigger] before[i]),
        text.len() > 0 ==> !white_space(text[0]),
    ensures
        trimmed_start(before + text) == text,
    decreases before.len(),
{
    let s = before + text;
    if before.len() > 0 {
        let shorter = before.drop_first();
        assert(white_space(before[0]));
        assert(s.drop_first() =~= shorter + text);
        assert forall|i: int| 0 <= i < shorter.len() implies white_space(#[trigger] shorter[i]) by {
            assert(white_space(before[i + 1]));
        }
        lemma_trimmed_start(shorter, text);
    } else {
        assert(s =~= text);
    }
}

/// White space is what Unicode counts as such: the controls from tab to carriage return,
/// the next-line control, and the spaces and separators.
pub proof fn law_white_space(c: char)
    ensures
        white_space(c) <==> {
            let n = c as u32;
            9 <= n <= 13 || n == 0x20 || n == 0x85 || n == 0xa0 || n == 0x1680 || 0x2000 <= n
                <= 0x200a || n == 0x2028 || n == 0x2029 || n == 0x202f || n == 0x205f || n == 0x3000
        },
{
}

} // verus!
