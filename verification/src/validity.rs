//! When a layout is valid, and what follows from that.

use vstd::prelude::*;
use crate::catalog::ComponentType;
use crate::connectivity::{
    closed_under_adjacency,
    connected,
    is_step,
    is_walk,
    lemma_connected_reflexive,
    lemma_connected_step,
    lemma_connected_walk,
    lemma_walk_connects,
    lemma_walk_stays_marked,
};
use crate::placeholder::{adjacent, ComponentPlaceholder};

verus! {

/// No two placements are anchored at the same cell.
pub open spec fn positions_distinct(s: Seq<ComponentPlaceholder>) -> bool {
    forall|i: int, j: int|
        0 <= i < j < s.len() ==> (#[trigger] s[i]).position != (#[trigger] s[j]).position
}

/// Placement `c` is the one and only `Central` of the layout.
pub open spec fn is_sole_central(s: Seq<ComponentPlaceholder>, c: int) -> bool {
    &&& 0 <= c < s.len()
    &&& s[c].component_type == ComponentType::Central
    &&& forall|j: int|
        0 <= j < s.len() && (#[trigger] s[j]).component_type == ComponentType::Central ==> j == c
}

/// Every placement of the layout is connected to placement `c`.
pub open spec fn all_connected_to(s: Seq<ComponentPlaceholder>, c: int) -> bool {
    forall|i: int| 0 <= i < s.len() ==> #[trigger] connected(s, c, i)
}

/// A layout is valid when no cell holds two placements, exactly one
/// placement is a `Central`, and every placement is connected to it through
/// cardinally adjacent occupied cells.
pub open spec fn spec_valid(s: Seq<ComponentPlaceholder>) -> bool {
    &&& positions_distinct(s)
    &&& exists|c: int| #[trigger] is_sole_central(s, c) && all_connected_to(s, c)
}

/// A layout without placements is invalid.
pub proof fn lemma_empty_invalid()
    ensures
        !spec_valid(Seq::<ComponentPlaceholder>::empty()),
{
}

/// A layout without a `Central` is invalid.
pub proof fn lemma_no_central_invalid(s: Seq<ComponentPlaceholder>)
    requires
        forall|i: int| 0 <= i < s.len() ==> (#[trigger] s[i]).component_type != ComponentType::Central,
    ensures
        !spec_valid(s),
{
    assert forall|c: int| !is_sole_central(s, c) by {
        if 0 <= c < s.len() {
            assert(s[c].component_type != ComponentType::Central);
        }
    }
}

/// A single `Central` and nothing else is a valid layout.
pub proof fn lemma_single_central_valid(p: ComponentPlaceholder)
    requires
        p.component_type == ComponentType::Central,
    ensures
        spec_valid(seq![p]),
{
    let s = seq![p];
    lemma_connected_reflexive(s, 0);
    assert(is_sole_central(s, 0) && all_connected_to(s, 0));
}

/// A layout with two `Central` placements is invalid, wherever they stand.
pub proof fn lemma_two_centrals_invalid(s: Seq<ComponentPlaceholder>, i: int, j: int)
    requires
        0 <= i < s.len(),
        0 <= j < s.len(),
        i != j,
        s[i].component_type == ComponentType::Central,
        s[j].component_type == ComponentType::Central,
    ensures
        !spec_valid(s),
{
    assert forall|c: int| !is_sole_central(s, c) by {
        if is_sole_central(s, c) {
            assert(s[i].component_type == ComponentType::Central);
            assert(s[j].component_type == ComponentType::Central);
        }
    }
}

/// A layout with two placements in one cell is invalid.
pub proof fn lemma_shared_cell_invalid(s: Seq<ComponentPlaceholder>, i: int, j: int)
    requires
        0 <= i < j < s.len(),
        s[i].position == s[j].position,
    ensures
        !spec_valid(s),
{
}

/// Taking the `Central` out of a valid layout leaves an invalid one.
pub proof fn lemma_remove_central_invalid(s: Seq<ComponentPlaceholder>, i: int)
    requires
        spec_valid(s),
        0 <= i < s.len(),
        s[i].component_type == ComponentType::Central,
    ensures
        !spec_valid(s.remove(i)),
{
    let c = choose|c: int| #[trigger] is_sole_central(s, c) && all_connected_to(s, c);
    assert(s[i].component_type == ComponentType::Central);
    assert(c == i);
    let r = s.remove(i);
    assert forall|k: int| 0 <= k < r.len() implies (#[trigger] r[k]).component_type
        != ComponentType::Central by {
        let k0 = if k < i { k } else { k + 1 };
        assert(r[k] == s[k0]);
        assert(k0 != c);
    }
    lemma_no_central_invalid(r);
}

/// What is connected stays connected when a placement is appended.
pub proof fn lemma_connected_after_push(
    s: Seq<ComponentPlaceholder>,
    p: ComponentPlaceholder,
    from: int,
    to: int,
)
    requires
        connected(s, from, to),
    ensures
        connected(s.push(p), from, to),
{
    let path = lemma_connected_walk(s, from, to);
    let t = s.push(p);
    assert forall|k: int| 0 <= k < path.len() - 1 implies #[trigger] is_step(t, path, k) by {
        assert(is_step(s, path, k));
        assert(0 <= path[k] < s.len());
        assert(0 <= path[k + 1] < s.len());
    }
    assert(is_walk(t, path));
    lemma_walk_connects(t, path, from, to);
}

/// Attaching a component keeps a layout valid: a placement that is no
/// `Central`, in a free cell next to a placement of a valid layout, gives a
/// valid layout again.
pub proof fn lemma_attach_keeps_valid(
    s: Seq<ComponentPlaceholder>,
    p: ComponentPlaceholder,
    neighbour: int,
)
    requires
        spec_valid(s),
        p.component_type != ComponentType::Central,
        0 <= neighbour < s.len(),
        adjacent(s[neighbour].position, p.position),
        forall|i: int| 0 <= i < s.len() ==> (#[trigger] s[i]).position != p.position,
    ensures
        spec_valid(s.push(p)),
{
    let c = choose|c: int| #[trigger] is_sole_central(s, c) && all_connected_to(s, c);
    let t = s.push(p);
    assert(is_sole_central(t, c)) by {
        assert(t[c] == s[c]);
        assert forall|j: int|
            0 <= j < t.len() && (#[trigger] t[j]).component_type
                == ComponentType::Central implies j == c by {
            if j < s.len() {
                assert(t[j] == s[j]);
            }
        }
    }
    assert forall|i: int| 0 <= i < t.len() implies #[trigger] connected(t, c, i) by {
        if i < s.len() {
            assert(connected(s, c, i));
            lemma_connected_after_push(s, p, c, i);
        } else {
            assert(connected(s, c, neighbour));
            lemma_connected_after_push(s, p, c, neighbour);
            assert(t[neighbour] == s[neighbour]);
            lemma_connected_step(t, c, neighbour, i);
        }
    }
    assert(all_connected_to(t, c));
    assert forall|i: int, j: int| 0 <= i < j < t.len() implies (#[trigger] t[i]).position != (
    #[trigger] t[j]).position by {
        assert(t[i] == s[i]);
        if j < s.len() {
            assert(t[j] == s[j]);
        }
    }
}

/// A placement outside a set that is closed under adjacency is not
/// connected to any placement inside it.
pub proof fn lemma_closed_set_separates(
    s: Seq<ComponentPlaceholder>,
    marked: Seq<bool>,
    from: int,
    to: int,
)
    requires
        marked.len() == s.len(),
        closed_under_adjacency(s, marked),
        0 <= from < s.len(),
        0 <= to < s.len(),
        marked[from],
        !marked[to],
    ensures
        !connected(s, from, to),
{
    if connected(s, from, to) {
        let path = lemma_connected_walk(s, from, to);
        lemma_walk_stays_marked(s, marked, path, path.len() - 1);
    }
}

/// A component placed right next to a lone `Central` makes a valid layout.
pub proof fn lemma_adjacent_pair_valid(central: ComponentPlaceholder, p: ComponentPlaceholder)
    requires
        central.component_type == ComponentType::Central,
        p.component_type != ComponentType::Central,
        adjacent(central.position, p.position),
    ensures
        spec_valid(seq![central, p]),
{
    lemma_single_central_valid(central);
    lemma_attach_keeps_valid(seq![central], p, 0);
    assert(seq![central].push(p) =~= seq![central, p]);
}

/// A component placed away from a lone `Central`, not in a neighbouring
/// cell, makes an invalid layout.
pub proof fn lemma_detached_pair_invalid(central: ComponentPlaceholder, p: ComponentPlaceholder)
    requires
        central.component_type == ComponentType::Central,
        p.component_type != ComponentType::Central,
        !adjacent(central.position, p.position),
    ensures
        !spec_valid(seq![central, p]),
{
    let s = seq![central, p];
    let marked = seq![true, false];
    lemma_closed_set_separates(s, marked, 0, 1);
    assert forall|c: int| !(#[trigger] is_sole_central(s, c) && all_connected_to(s, c)) by {
        if is_sole_central(s, c) && all_connected_to(s, c) {
            assert(s[0].component_type == ComponentType::Central);
            assert(c == 0);
            assert(connected(s, 0, 1));
        }
    }
}

/// Filling the gap restores validity: a `Central`, a component that is not
/// next to it, and then a component that is next to both, in three cells,
/// make a valid layout.
pub proof fn lemma_bridge_restores_valid(
    central: ComponentPlaceholder,
    far: ComponentPlaceholder,
    bridge: ComponentPlaceholder,
)
    requires
        central.component_type == ComponentType::Central,
        far.component_type != ComponentType::Central,
        bridge.component_type != ComponentType::Central,
        adjacent(central.position, bridge.position),
        adjacent(bridge.position, far.position),
        central.position != far.position,
    ensures
        spec_valid(seq![central, far, bridge]),
{
    let s = seq![central, far, bridge];
    lemma_connected_reflexive(s, 0);
    lemma_connected_step(s, 0, 0, 2);
    lemma_connected_step(s, 0, 2, 1);
    assert(is_sole_central(s, 0) && all_connected_to(s, 0));
}

/// `f` carries every placement of `a` to a placement of `b` in the same
/// cell.
pub open spec fn keeps_cells(
    a: Seq<ComponentPlaceholder>,
    b: Seq<ComponentPlaceholder>,
    f: Seq<int>,
) -> bool {
    &&& f.len() == a.len()
    &&& forall|i: int|
        0 <= i < a.len() ==> 0 <= #[trigger] f[i] < b.len() && b[f[i]].position == a[i].position
}

/// `b` holds the placements of `a` in another order: `f` says where each
/// placement of `a` stands in `b`, `g` where each placement of `b` stood in
/// `a`, and a placement keeps its type and its cell. Its orientation may
/// differ.
pub open spec fn is_rearrangement(
    a: Seq<ComponentPlaceholder>,
    b: Seq<ComponentPlaceholder>,
    f: Seq<int>,
    g: Seq<int>,
) -> bool {
    &&& keeps_cells(a, b, f)
    &&& g.len() == b.len()
    &&& forall|i: int|
        0 <= i < a.len() ==> g[#[trigger] f[i]] == i && b[f[i]].component_type
            == a[i].component_type
    &&& forall|j: int| 0 <= j < b.len() ==> 0 <= #[trigger] g[j] < a.len() && f[g[j]] == j
}

/// What is connected stays connected wherever the placements are carried
/// to, as long as each keeps its cell.
pub proof fn lemma_connected_carried(
    a: Seq<ComponentPlaceholder>,
    b: Seq<ComponentPlaceholder>,
    f: Seq<int>,
    from: int,
    to: int,
)
    requires
        keeps_cells(a, b, f),
        connected(a, from, to),
    ensures
        connected(b, f[from], f[to]),
{
    let path = lemma_connected_walk(a, from, to);
    let carried = Seq::new(path.len(), |k: int| f[path[k]]);
    assert forall|k: int| 0 <= k < carried.len() implies 0 <= #[trigger] carried[k] < b.len() by {
        assert(0 <= path[k] < a.len());
    }
    assert forall|k: int| 0 <= k < carried.len() - 1 implies #[trigger] is_step(b, carried, k) by {
        assert(is_step(a, path, k));
        assert(0 <= path[k] < a.len());
        assert(0 <= path[k + 1] < a.len());
    }
    assert(is_walk(b, carried));
    lemma_walk_connects(b, carried, f[from], f[to]);
}

/// Validity depends neither on the order of placement nor on the way the
/// components face: a rearrangement of a valid layout is valid.
pub proof fn lemma_valid_order_independent(
    a: Seq<ComponentPlaceholder>,
    b: Seq<ComponentPlaceholder>,
    f: Seq<int>,
    g: Seq<int>,
)
    requires
        is_rearrangement(a, b, f, g),
        spec_valid(a),
    ensures
        spec_valid(b),
{
    let c = choose|c: int| #[trigger] is_sole_central(a, c) && all_connected_to(a, c);
    assert forall|j1: int, j2: int| 0 <= j1 < j2 < b.len() implies (#[trigger] b[j1]).position != (
    #[trigger] b[j2]).position by {
        let i1 = g[j1];
        let i2 = g[j2];
        assert(f[i1] == j1 && f[i2] == j2);
        assert(b[f[i1]].position == a[i1].position);
        assert(b[f[i2]].position == a[i2].position);
        if i1 < i2 {
            assert(a[i1].position != a[i2].position);
        } else {
            assert(i2 < i1);
            assert(a[i2].position != a[i1].position);
        }
    }
    let d = f[c];
    assert(is_sole_central(b, d)) by {
        assert(b[f[c]].component_type == a[c].component_type);
        assert forall|j: int|
            0 <= j < b.len() && (#[trigger] b[j]).component_type
                == ComponentType::Central implies j == d by {
            let i = g[j];
            assert(f[i] == j);
            assert(b[f[i]].component_type == a[i].component_type);
            assert(a[i].component_type == ComponentType::Central);
            assert(i == c);
        }
    }
    assert forall|j: int| 0 <= j < b.len() implies #[trigger] connected(b, d, j) by {
        let i = g[j];
        assert(f[i] == j);
        assert(connected(a, c, i));
        lemma_connected_carried(a, b, f, c, i);
    }
    assert(all_connected_to(b, d));
}

} // verus!
