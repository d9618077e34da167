//! Sorting by name.
use crate::text::{is_text_le, lemma_text_le_total, lemma_text_le_transitive, text_le};
use vstd::prelude::*;

verus! {

/// Something with a name to sort by.
pub trait Named {
    /// The name.
    spec fn name(&self) -> Seq<char>;

    /// Gives the name.
    fn name_text(&self) -> (text: &str)
        ensures
            text@ == self.name(),
    ;
}

/// The item at `i` goes before the item at `j`: its name comes first, or the names
/// are the same and it stood first.
pub open spec fn goes_before(names: Seq<Seq<char>>, i: int, j: int) -> bool {
    ||| !text_le(names[j], names[i])
    ||| (names[i] == names[j] && i < j)
}

/// `order` lists the positions of `names`, each once, so that the names come in
/// order and equal names as they stood.
pub open spec fn sorts(names: Seq<Seq<char>>, order: Seq<int>) -> bool {
    &&& order.len() == names.len()
    &&& forall|i: int| 0 <= i < order.len() ==> 0 <= #[trigger] order[i] < names.len()
    &&& forall|k: int| 0 <= k < names.len() ==> #[trigger] order.contains(k)
    &&& forall|i: int, j: int|
        0 <= i < j < order.len() ==> goes_before(names, #[trigger] order[i], #[trigger] order[j])
}

/// `items` in the given order.
pub open spec fn arranged<A>(items: Seq<A>, order: Seq<int>) -> Seq<A> {
    Seq::new(order.len(), |i: int| items[order[i]])
}

/// The names of `items`.
pub open spec fn names_of<T: Named>(items: Seq<T>) -> Seq<Seq<char>> {
    Seq::new(items.len(), |i: int| items[i].name())
}

/// `order` lists the positions from `start` on, sorted.
spec fn sorts_from(names: Seq<Seq<char>>, order: Seq<int>, start: int) -> bool {
    &&& order.len() == names.len() - start
    &&& forall|i: int| 0 <= i < order.len() ==> start <= #[trigger] order[i] < names.len()
    &&& forall|k: int| start <= k < names.len() ==> #[trigger] order.contains(k)
    &&& forall|i: int, j: int|
        0 <= i < j < order.len() ==> goes_before(names, #[trigger] order[i], #[trigger] order[j])
}

/// Putting the position before `start` in front of the first name that does not
/// precede its own keeps the order.
proof fn lemma_insert(names: Seq<Seq<char>>, order: Seq<int>, start: int, at: int)
    requires
        0 < start <= names.len(),
        sorts_from(names, order, start),
        0 <= at <= order.len(),
        forall|i: int| 0 <= i < at ==> !text_le(names[start - 1], names[#[trigger] order[i]]),
        at < order.len() ==> text_le(names[start - 1], names[order[at]]),
    ensures
        sorts_from(names, order.insert(at, start - 1), start - 1),
{
    let x = start - 1;
    let longer = order.insert(at, x);
    assert forall|k: int| x <= k < names.len() implies #[trigger] longer.contains(k) by {
        if k == x {
            assert(longer[at] == x);
        } else {
            assert(order.contains(k));
            let i = choose|i: int| 0 <= i < order.len() && order[i] == k;
            assert(longer[if i < at {
                i
            } else {
                i + 1
            }] == k);
        }
    }
    assert forall|i: int, j: int| 0 <= i < j < longer.len() implies goes_before(
        names,
        #[trigger] longer[i],
        #[trigger] longer[j],
    ) by {
        if i == at {
            let later = order[j - 1];
            assert(longer[j] == later);
            if at < j - 1 {
                assert(goes_before(names, order[at], order[j - 1]));
                lemma_text_le_total(names[order[at]], names[later]);
                lemma_text_le_transitive(names[x], names[order[at]], names[later]);
            }
            lemma_text_le_total(names[x], names[later]);
        } else if j == at {
            assert(longer[i] == order[i]);
        } else {
            let a = if i < at {
                i
            } else {
                i - 1
            };
            let b = if j < at {
                j
            } else {
                j - 1
            };
            assert(longer[i] == order[a]);
            assert(longer[j] == order[b]);
        }
    }
}

/// Sorts items by name. Items of the same name stay as they stood.
pub fn sort_by_name<T: Named>(items: Vec<T>) -> (sorted: Vec<T>)
    ensures
        exists|order: Seq<int>| #[trigger]
            sorts(names_of(items@), order) && sorted@ == arranged(items@, order),
{
    let ghost names = names_of(items@);
    let ghost all = items@;
    let mut rest: Vec<T> = items;
    let mut sorted: Vec<T> = Vec::new();
    let ghost mut order: Seq<int> = Seq::empty();
    while rest.len() > 0
        invariant
            names == names_of(all),
            rest@ == all.take(rest@.len() as int),
            rest@.len() <= all.len(),
            sorts_from(names, order, rest@.len() as int),
            sorted@ == arranged(all, order),
        decreases rest@.len(),
    {
        let ghost start = rest@.len() as int;
        let mut at: usize = 0;
        let last: usize = rest.len() - 1;
        while at < sorted.len() && !is_text_le(rest[last].name_text(), sorted[at].name_text())
            invariant
                names == names_of(all),
                rest@ == all.take(start),
                start == rest@.len() == last + 1,
                start <= all.len(),
                sorts_from(names, order, start),
                sorted@ == arranged(all, order),
                at <= sorted@.len(),
                forall|i: int|
                    0 <= i < at ==> !text_le(names[start - 1], names[#[trigger] order[i]]),
            decreases sorted@.len() - at,
        {
            at = at + 1;
        }
        proof {
            lemma_insert(names, order, start, at as int);
        }
        if let Some(item) = rest.pop() {
            sorted.insert(at, item);
            proof {
                order = order.insert(at as int, start - 1);
                assert(sorted@ =~= arranged(all, order));
                assert(rest@ =~= all.take(start - 1));
            }
        }
    }
    assert(sorts(names, order));
    sorted
}

/// Names can be sorted in one way only.
pub proof fn law_sorting_unique(names: Seq<Seq<char>>, one: Seq<int>, other: Seq<int>)
    requires
        sorts(names, one),
        sorts(names, other),
    ensures
        one == other,
{
    assert forall|n: int| 0 <= n <= names.len() implies #[trigger] one.take(n) == other.take(n) by {
        lemma_same_start(names, one, other, n);
    }
    assert(one.take(names.len() as int) == other.take(names.len() as int));
    assert(one =~= one.take(names.len() as int));
    assert(other =~= other.take(names.len() as int));
}

/// Two ways to sort agree on their first `n` positions.
proof fn lemma_same_start(names: Seq<Seq<char>>, one: Seq<int>, other: Seq<int>, n: int)
    requires
        sorts(names, one),
        sorts(names, other),
        0 <= n <= names.len(),
    ensures
        one.take(n) == other.take(n),
    decreases n,
{
    if n > 0 {
        let i = n - 1;
        lemma_same_start(names, one, other, i);
        assert forall|k: int| 0 <= k < i implies one[k] == other[k] by {
            assert(one.take(i)[k] == other.take(i)[k]);
        }
        lemma_no_repeat(names, one);
        lemma_no_repeat(names, other);
        let a = one[i];
        let b = other[i];
        if a != b {
            assert(other.contains(a));
            let j = choose|j: int| 0 <= j < other.len() && other[j] == a;
            assert(one.contains(b));
            let k = choose|k: int| 0 <= k < one.len() && one[k] == b;
            if j < i {
                assert(one[j] == a);
            }
            if k < i {
                assert(other[k] == b);
            }
            assert(goes_before(names, other[i], other[j]));
            assert(goes_before(names, one[i], one[k]));
            lemma_text_le_total(names[a], names[b]);
        }
        assert(one.take(n) =~= one.take(i).push(one[i]));
        assert(other.take(n) =~= other.take(i).push(other[i]));
    }
}

/// A sorted order lists no position twice.
proof fn lemma_no_repeat(names: Seq<Seq<char>>, order: Seq<int>)
    requires
        sorts(names, order),
    ensures
        forall|i: int, j: int| 0 <= i < j < order.len() ==> order[i] != order[j],
{
    assert forall|i: int, j: int| 0 <= i < j < order.len() implies order[i] != order[j] by {
        assert(goes_before(names, order[i], order[j]));
        lemma_text_le_total(names[order[i]], names[order[j]]);
    }
}

/// Sorted items come in the order of their names, each item of the list is there, and
/// none comes from elsewhere.
pub proof fn law_sorted<A>(items: Seq<A>, names: Seq<Seq<char>>, order: Seq<int>)
    requires
        names.len() == items.len(),
        sorts(names, order),
    ensures
        forall|i: int, j: int|
            0 <= i <= j < names.len() ==> text_le(
                #[trigger] arranged(names, order)[i],
                #[trigger] arranged(names, order)[j],
            ),
        arranged(items, order).len() == items.len(),
        forall|item: A| #[trigger]
            arranged(items, order).contains(item) <==> items.contains(item),
{
    let sorted = arranged(items, order);
    assert forall|i: int, j: int| 0 <= i <= j < names.len() implies text_le(
        #[trigger] arranged(names, order)[i],
        #[trigger] arranged(names, order)[j],
    ) by {
        lemma_text_le_total(names[order[i]], names[order[j]]);
        if i < j {
            assert(goes_before(names, order[i], order[j]));
        }
    }
    assert forall|item: A| #[trigger] sorted.contains(item) <==> items.contains(item) by {
        if sorted.contains(item) {
            let k = choose|k: int| 0 <= k < sorted.len() && sorted[k] == item;
            assert(items[order[k]] == item);
        }
        if items.contains(item) {
            let k = choose|k: int| 0 <= k < items.len() && items[k] == item;
            assert(order.contains(k));
            let at = choose|at: int| 0 <= at < order.len() && order[at] == k;
            assert(sorted[at] == item);
        }
    }
}

/// Sorting only changes places: each item goes to one place and each place gets one item,
/// as it is. Items of the same name stay as they stood.
pub proof fn law_sorting_moves<A>(items: Seq<A>, names: Seq<Seq<char>>, order: Seq<int>)
    requires
        names.len() == items.len(),
        sorts(names, order),
    ensures
        arranged(items, order).len() == items.len(),
        forall|i: int|
            0 <= i < items.len() ==> 0 <= order[i] < items.len() && #[trigger] arranged(
                items,
                order,
            )[i] == items[order[i]],
        forall|k: int| 0 <= k < items.len() ==> #[trigger] order.contains(k),
        forall|i: int, j: int|
            0 <= i < j < order.len() ==> #[trigger] order[i] != #[trigger] order[j],
        forall|i: int, j: int|
            0 <= i < j < order.len() && names[order[i]] == names[order[j]] ==> #[trigger] order[i]
                < #[trigger] order[j],
{
    lemma_no_repeat(names, order);
    assert forall|i: int, j: int|
        0 <= i < j < order.len() && names[order[i]] == names[order[j]] implies #[trigger] order[i]
        < #[trigger] order[j] by {
        assert(goes_before(names, order[i], order[j]));
        lemma_text_le_total(names[order[i]], names[order[j]]);
    }
}

/// Items are sorted by their own names.
pub proof fn law_names_of<T: Named>(items: Seq<T>)
    ensures
        names_of(items).len() == items.len(),
        forall|i: int| 0 <= i < items.len() ==> #[trigger] names_of(items)[i] == items[i].name(),
{
}

} // verus!
