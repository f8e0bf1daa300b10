//! Which placements of a layout hang together: walks over cardinally
//! adjacent cells, and the traversal that finds everything a given placement
//! is connected to.

use vstd::prelude::*;
use crate::placeholder::{adjacent, ComponentPlaceholder};

verus! {

/// Step `k` of `path` leads from one placement of `s` to a placement in a
/// cardinally adjacent cell.
pub open spec fn is_step(s: Seq<ComponentPlaceholder>, path: Seq<int>, k: int) -> bool {
    adjacent(s[path[k]].position, s[path[k + 1]].position)
}

/// `path` lists indices into `s`, is not empty, and each step leads to a
/// placement in a cardinally adjacent cell.
pub open spec fn is_walk(s: Seq<ComponentPlaceholder>, path: Seq<int>) -> bool {
    &&& path.len() >= 1
    &&& forall|k: int| 0 <= k < path.len() ==> 0 <= #[trigger] path[k] < s.len()
    &&& forall|k: int| 0 <= k < path.len() - 1 ==> #[trigger] is_step(s, path, k)
}

/// `path` is a walk through `s` that starts at `from` and ends at `to`.
pub open spec fn is_walk_between(
    s: Seq<ComponentPlaceholder>,
    path: Seq<int>,
    from: int,
    to: int,
) -> bool {
    is_walk(s, path) && path[0] == from && path[path.len() - 1] == to
}

/// Placement `to` can be reached from placement `from` by a chain of
/// cardinal adjacencies through occupied cells.
#[verifier::opaque]
pub open spec fn connected(s: Seq<ComponentPlaceholder>, from: int, to: int) -> bool {
    exists|path: Seq<int>| is_walk_between(s, path, from, to)
}

/// A walk between two placements shows that they are connected.
pub proof fn lemma_walk_connects(s: Seq<ComponentPlaceholder>, path: Seq<int>, from: int, to: int)
    requires
        is_walk_between(s, path, from, to),
    ensures
        connected(s, from, to),
{
    reveal(connected);
}

/// Connected placements have a walk between them.
pub proof fn lemma_connected_walk(s: Seq<ComponentPlaceholder>, from: int, to: int) -> (path: Seq<
    int,
>)
    requires
        connected(s, from, to),
    ensures
        is_walk_between(s, path, from, to),
{
    reveal(connected);
    choose|path: Seq<int>| is_walk_between(s, path, from, to)
}

/// Every placement is connected to itself.
pub proof fn lemma_connected_reflexive(s: Seq<ComponentPlaceholder>, i: int)
    requires
        0 <= i < s.len(),
    ensures
        connected(s, i, i),
{
    let path = seq![i];
    assert(is_walk(s, path));
    lemma_walk_connects(s, path, i, i);
}

/// A connection can be prolonged by one step to an adjacent placement.
pub proof fn lemma_connected_step(s: Seq<ComponentPlaceholder>, from: int, via: int, to: int)
    requires
        connected(s, from, via),
        0 <= to < s.len(),
        adjacent(s[via].position, s[to].position),
    ensures
        connected(s, from, to),
{
    let path = lemma_connected_walk(s, from, via);
    let longer = path.push(to);
    assert forall|k: int| 0 <= k < longer.len() implies 0 <= #[trigger] longer[k] < s.len() by {
        if k < path.len() {
            assert(longer[k] == path[k]);
        }
    }
    assert forall|k: int| 0 <= k < longer.len() - 1 implies #[trigger] is_step(s, longer, k) by {
        assert(longer[k] == path[k]);
        if k < path.len() - 1 {
            assert(longer[k + 1] == path[k + 1]);
            assert(is_step(s, path, k));
        }
    }
    lemma_walk_connects(s, longer, from, to);
}

/// The marked placements are closed under adjacency: every neighbour of a
/// marked placement is marked too.
pub open spec fn closed_under_adjacency(s: Seq<ComponentPlaceholder>, marked: Seq<bool>) -> bool {
    forall|i: int, j: int|
        0 <= i < s.len() && 0 <= j < s.len() && #[trigger] marked[i] && adjacent(
            s[i].position,
            s[j].position,
        ) ==> #[trigger] marked[j]
}

/// A walk that starts at a marked placement never leaves a set that is
/// closed under adjacency.
pub proof fn lemma_walk_stays_marked(
    s: Seq<ComponentPlaceholder>,
    marked: Seq<bool>,
    path: Seq<int>,
    k: int,
)
    requires
        marked.len() == s.len(),
        closed_under_adjacency(s, marked),
        is_walk(s, path),
        marked[path[0]],
        0 <= k < path.len(),
    ensures
        marked[path[k]],
    decreases k,
{
    if k > 0 {
        lemma_walk_stays_marked(s, marked, path, k - 1);
        assert(0 <= path[k - 1] < s.len());
        assert(0 <= path[k] < s.len());
        assert(is_step(s, path, k - 1));
    }
}

/// A sequence of distinct indices below `n` has at most `n` entries.
proof fn lemma_distinct_indices_bounded(q: Seq<usize>, n: nat)
    requires
        forall|k: int| 0 <= k < q.len() ==> #[trigger] q[k] < n,
        forall|a: int, b: int| 0 <= a < b < q.len() ==> q[a] != q[b],
    ensures
        q.len() <= n,
    decreases n,
{
    if q.len() == 0 {
    } else if n == 0 {
        assert(q[0] < n);
    } else {
        let top = (n - 1) as usize;
        if exists|k: int| 0 <= k < q.len() && q[k] == top {
            let k = choose|k: int| 0 <= k < q.len() && q[k] == top;
            let rest = q.remove(k);
            assert forall|i: int| 0 <= i < rest.len() implies #[trigger] rest[i] < (n - 1) as nat by {
                if i < k {
                    assert(rest[i] == q[i]);
                } else {
                    assert(rest[i] == q[i + 1]);
                }
            }
            assert forall|a: int, b: int| 0 <= a < b < rest.len() implies rest[a] != rest[b] by {
                let a0 = if a < k { a } else { a + 1 };
                let b0 = if b < k { b } else { b + 1 };
                assert(rest[a] == q[a0]);
                assert(rest[b] == q[b0]);
            }
            lemma_distinct_indices_bounded(rest, (n - 1) as nat);
        } else {
            assert forall|i: int| 0 <= i < q.len() implies #[trigger] q[i] < (n - 1) as nat by {
                assert(q[i] < n);
                assert(q[i] != top);
            }
            lemma_distinct_indices_bounded(q, (n - 1) as nat);
        }
    }
}

/// Marks every placement that is connected to placement `start`.
pub fn reachable_from(placeholders: &Vec<ComponentPlaceholder>, start: usize) -> (marked: Vec<bool>)
    requires
        start < placeholders.len(),
    ensures
        marked.len() == placeholders.len(),
        forall|i: int|
            0 <= i < placeholders.len() ==> (#[trigger] marked[i] <==> connected(
                placeholders@,
                start as int,
                i,
            )),
{
    let n = placeholders.len();
    let ghost s = placeholders@;
    let mut marked: Vec<bool> = Vec::new();
    let mut i: usize = 0;
    while i < n
        invariant
            i <= n,
            marked.len() == i,
            forall|k: int| 0 <= k < i ==> !(#[trigger] marked[k]),
        decreases n - i,
    {
        marked.push(false);
        i += 1;
    }
    marked.set(start, true);
    // The placements still to be looked at, in the order they were marked;
    // `slot[i]` is where a marked placement `i` stands in the queue.
    let mut queue: Vec<usize> = Vec::new();
    queue.push(start);
    let ghost mut slot: Seq<int> = Seq::new(n as nat, |i: int| 0int);
    proof {
        lemma_connected_reflexive(s, start as int);
    }
    let mut head: usize = 0;
    while head < queue.len()
        invariant
            n == placeholders.len(),
            s == placeholders@,
            start < n,
            marked.len() == n,
            slot.len() == n,
            head <= queue.len(),
            marked[start as int],
            forall|k: int|
                0 <= k < queue.len() ==> (#[trigger] queue[k]) < n && marked[queue[k] as int]
                    && slot[queue[k] as int] == k,
            forall|i: int|
                0 <= i < n && #[trigger] marked[i] ==> 0 <= slot[i] < queue.len()
                    && queue[slot[i]] == i,
            forall|i: int| 0 <= i < n && #[trigger] marked[i] ==> connected(s, start as int, i),
            forall|k: int, j: int|
                0 <= k < head && 0 <= j < n && adjacent(
                    s[#[trigger] queue[k] as int].position,
                    s[j].position,
                ) ==> #[trigger] marked[j],
        decreases n - head,
    {
        proof {
            assert forall|a: int, b: int| 0 <= a < b < queue.len() implies queue[a] != queue[b] by {
                assert(slot[queue[a] as int] == a);
                assert(slot[queue[b] as int] == b);
            }
            lemma_distinct_indices_bounded(queue@, n as nat);
        }
        let u = queue[head];
        let mut j: usize = 0;
        while j < n
            invariant
                n == placeholders.len(),
                s == placeholders@,
                start < n,
                marked.len() == n,
                slot.len() == n,
                head < queue.len(),
                u == queue[head as int],
                u < n,
                j <= n,
                marked[start as int],
                forall|k: int|
                    0 <= k < queue.len() ==> (#[trigger] queue[k]) < n && marked[queue[k] as int]
                        && slot[queue[k] as int] == k,
                forall|i: int|
                    0 <= i < n && #[trigger] marked[i] ==> 0 <= slot[i] < queue.len()
                        && queue[slot[i]] == i,
                forall|i: int|
                    0 <= i < n && #[trigger] marked[i] ==> connected(s, start as int, i),
                forall|k: int, j: int|
                    0 <= k < head && 0 <= j < n && adjacent(
                        s[#[trigger] queue[k] as int].position,
                        s[j].position,
                    ) ==> #[trigger] marked[j],
                forall|j2: int|
                    0 <= j2 < j && adjacent(s[u as int].position, s[j2].position)
                        ==> #[trigger] marked[j2],
            decreases n - j,
        {
            if !marked[j] && placeholders[u].position.is_adjacent(&placeholders[j].position) {
                proof {
                    lemma_connected_step(s, start as int, u as int, j as int);
                    slot = slot.update(j as int, queue.len() as int);
                }
                marked.set(j, true);
                queue.push(j);
            }
            j += 1;
        }
        head += 1;
    }
    proof {
        assert forall|i: int, j: int|
            0 <= i < s.len() && 0 <= j < s.len() && #[trigger] marked@[i] && adjacent(
                s[i].position,
                s[j].position,
            ) implies #[trigger] marked@[j] by {
            assert(queue[slot[i]] == i);
        }
        assert(closed_under_adjacency(s, marked@));
        assert forall|i: int| 0 <= i < n && connected(s, start as int, i) implies #[trigger] marked[i] by {
            let path = lemma_connected_walk(s, start as int, i);
            lemma_walk_stays_marked(s, marked@, path, path.len() - 1);
        }
    }
    marked
}

} // verus!
