//! Material accounting: what a list of placements costs in total.

use vstd::prelude::*;
use crate::catalog::Material;
use crate::placeholder::ComponentPlaceholder;

verus! {

/// The total quantity of material `m` that the placements in `s` cost: the
/// sum of the catalog's unit cost over every placement.
pub open spec fn total_cost(s: Seq<ComponentPlaceholder>, m: Material) -> nat
    decreases s.len(),
{
    if s.len() == 0 {
        0
    } else {
        total_cost(s.drop_last(), m) + s.last().component_type.unit_cost(m)
    }
}

/// One more placement adds exactly its type's unit cost.
pub proof fn lemma_total_cost_push(s: Seq<ComponentPlaceholder>, p: ComponentPlaceholder, m: Material)
    ensures
        total_cost(s.push(p), m) == total_cost(s, m) + p.component_type.unit_cost(m),
{
    assert(s.push(p).drop_last() =~= s);
}

/// Taking a placement away subtracts exactly its type's unit cost, wherever
/// in the list it stood.
pub proof fn lemma_total_cost_remove(s: Seq<ComponentPlaceholder>, i: int, m: Material)
    requires
        0 <= i < s.len(),
    ensures
        total_cost(s, m) == total_cost(s.remove(i), m) + s[i].component_type.unit_cost(m),
    decreases s.len(),
{
    if i == s.len() - 1 {
        assert(s.remove(i) =~= s.drop_last());
    } else {
        lemma_total_cost_remove(s.drop_last(), i, m);
        assert(s.remove(i).drop_last() =~= s.drop_last().remove(i));
        assert(s.remove(i).last() == s.last());
    }
}

/// The total cost does not depend on the order of placement: two lists
/// that hold the same placements, each as often as the other, cost the same.
pub proof fn lemma_total_cost_order_independent(
    a: Seq<ComponentPlaceholder>,
    b: Seq<ComponentPlaceholder>,
    m: Material,
)
    requires
        a.to_multiset() == b.to_multiset(),
    ensures
        total_cost(a, m) == total_cost(b, m),
    decreases a.len(),
{
    broadcast use vstd::seq_lib::group_to_multiset_ensures;

    if a.len() == 0 {
        assert(b.to_multiset().len() == 0);
        assert(b.len() == 0);
    } else {
        let last = a.last();
        assert(a.to_multiset().count(last) > 0);
        assert(b.contains(last));
        let j = choose|j: int| 0 <= j < b.len() && b[j] == last;
        assert(a.drop_last() =~= a.remove(a.len() - 1));
        vstd::seq_lib::to_multiset_remove(a, a.len() - 1);
        vstd::seq_lib::to_multiset_remove(b, j);
        lemma_total_cost_order_independent(a.drop_last(), b.remove(j), m);
        lemma_total_cost_remove(b, j, m);
    }
}

} // verus!
