//! The spacecraft layout: an ordered list of placements with free-text
//! tags, its material accounting and its validity.

use vstd::prelude::*;
use crate::accounting::total_cost;
use crate::catalog::{
    lemma_unit_cost_bounded,
    ComponentType,
    Material,
    MaterialCost,
    MAX_UNIT_COST,
};
use crate::connectivity::{connected, reachable_from};
use crate::placeholder::{Cell, ComponentPlaceholder};
use crate::validity::{all_connected_to, is_sole_central, positions_distinct, spec_valid};

verus! {

/// The index of the first placement anchored at `cell`, if there is one.
pub open spec fn first_at(s: Seq<ComponentPlaceholder>, cell: Cell) -> Option<int> {
    if exists|i: int| is_first_at(s, cell, i) {
        Some(choose|i: int| is_first_at(s, cell, i))
    } else {
        None
    }
}

/// Placement `i` is anchored at `cell`, and no earlier placement is.
pub open spec fn is_first_at(s: Seq<ComponentPlaceholder>, cell: Cell, i: int) -> bool {
    &&& 0 <= i < s.len()
    &&& s[i].position == cell
    &&& forall|j: int| 0 <= j < i ==> (#[trigger] s[j]).position != cell
}

/// The layout without the first placement anchored at `cell`; the layout
/// itself where no placement is anchored there.
pub open spec fn without_first_at(s: Seq<ComponentPlaceholder>, cell: Cell) -> Seq<
    ComponentPlaceholder,
> {
    match first_at(s, cell) {
        Some(i) => s.remove(i),
        None => s,
    }
}

/// A spacecraft layout. Placements keep the order in which they were made.
pub struct SpacecraftStructure {
    pub component_placeholders: Vec<ComponentPlaceholder>,
    pub tags: Vec<String>,
}

impl SpacecraftStructure {
    /// An empty layout without tags.
    pub fn new() -> (s: SpacecraftStructure)
        ensures
            s.component_placeholders@ == Seq::<ComponentPlaceholder>::empty(),
            s.tags@ == Seq::<String>::empty(),
    {
        SpacecraftStructure { component_placeholders: Vec::new(), tags: Vec::new() }
    }

    /// The total material cost of the layout: for every material, the sum of
    /// what each placement's type costs.
    pub fn materials(&self) -> (total: MaterialCost)
        ensures
            forall|m: Material|
                #[trigger] total.spec_get(m) == total_cost(self.component_placeholders@, m),
            forall|m: Material| #[trigger] total@[m] == total_cost(self.component_placeholders@, m),
    {
        let n = self.component_placeholders.len();
        let ghost s = self.component_placeholders@;
        let mut total = MaterialCost::zero();
        let mut i: usize = 0;
        assert(s.take(0) =~= Seq::<ComponentPlaceholder>::empty());
        while i < n
            invariant
                n == self.component_placeholders.len(),
                s == self.component_placeholders@,
                i <= n,
                forall|m: Material| #[trigger] total.spec_get(m) == total_cost(s.take(i as int), m),
                forall|m: Material| #[trigger] total.spec_get(m) <= i * MAX_UNIT_COST,
            decreases n - i,
        {
            let cost = self.component_placeholders[i].component_type.material_cost();
            proof {
                assert(s.take(i + 1).drop_last() =~= s.take(i as int));
                assert(s.take(i + 1).last() == s[i as int]);
                assert forall|m: Material|
                    total.spec_get(m) + cost.spec_get(m) <= (i + 1) * MAX_UNIT_COST by {
                    lemma_unit_cost_bounded(s[i as int].component_type, m);
                    assert(total.spec_get(m) <= i * MAX_UNIT_COST);
                    assert((i + 1) * MAX_UNIT_COST == i * MAX_UNIT_COST + MAX_UNIT_COST)
                        by (nonlinear_arith);
                }
                assert((i + 1) * MAX_UNIT_COST <= u128::MAX) by (nonlinear_arith)
                    requires
                        i < usize::MAX,
                        usize::MAX <= u64::MAX,
                        MAX_UNIT_COST == 1000,
                ;
            }
            total = total.plus(&cost);
            i += 1;
        }
        assert(s.take(n as int) =~= s);
        total
    }

    /// The index of the layout's `Central`, where it holds exactly one.
    pub fn central_index(&self) -> (c: Option<usize>)
        ensures
            match c {
                Some(c) => is_sole_central(self.component_placeholders@, c as int),
                None => forall|c: int| !is_sole_central(self.component_placeholders@, c),
            },
    {
        let n = self.component_placeholders.len();
        let ghost s = self.component_placeholders@;
        let mut found: Option<usize> = None;
        let mut i: usize = 0;
        while i < n
            invariant
                n == self.component_placeholders.len(),
                s == self.component_placeholders@,
                i <= n,
                match found {
                    Some(c) => c < i && s[c as int].component_type == ComponentType::Central
                        && forall|j: int|
                        0 <= j < i && (#[trigger] s[j]).component_type == ComponentType::Central
                            ==> j == c,
                    None => forall|j: int|
                        0 <= j < i ==> (#[trigger] s[j]).component_type != ComponentType::Central,
                },
            decreases n - i,
        {
            if self.component_placeholders[i].component_type.is_central() {
                match found {
                    Some(c) => {
                        assert forall|k: int| !is_sole_central(s, k) by {
                            if is_sole_central(s, k) {
                                assert(s[c as int].component_type == ComponentType::Central);
                                assert(s[i as int].component_type == ComponentType::Central);
                            }
                        }
                        return None;
                    },
                    None => {
                        found = Some(i);
                    },
                }
            }
            i += 1;
        }
        proof {
            if found.is_none() {
                assert forall|k: int| !is_sole_central(s, k) by {
                    if is_sole_central(s, k) {
                        assert(s[k].component_type == ComponentType::Central);
                    }
                }
            }
        }
        found
    }

    /// Whether no two placements are anchored at the same cell.
    pub fn positions_are_distinct(&self) -> (b: bool)
        ensures
            b == positions_distinct(self.component_placeholders@),
    {
        let n = self.component_placeholders.len();
        let ghost s = self.component_placeholders@;
        let mut j: usize = 0;
        while j < n
            invariant
                n == self.component_placeholders.len(),
                s == self.component_placeholders@,
                j <= n,
                forall|a: int, b: int|
                    0 <= a < b < j ==> (#[trigger] s[a]).position != (#[trigger] s[b]).position,
            decreases n - j,
        {
            let mut i: usize = 0;
            while i < j
                invariant
                    n == self.component_placeholders.len(),
                    s == self.component_placeholders@,
                    i <= j < n,
                    forall|a: int| 0 <= a < i ==> (#[trigger] s[a]).position != s[j as int].position,
                decreases j - i,
            {
                if self.component_placeholders[i].position == self.component_placeholders[j].position {
                    assert(s[i as int].position == s[j as int].position);
                    return false;
                }
                i += 1;
            }
            j += 1;
        }
        true
    }

    /// Whether the layout is valid: no cell holds two placements, there is
    /// exactly one `Central`, and every placement is connected to it.
    pub fn valid(&self) -> (b: bool)
        ensures
            b == spec_valid(self.component_placeholders@),
    {
        let ghost s = self.component_placeholders@;
        let central = match self.central_index() {
            Some(c) => c,
            None => {
                return false;
            },
        };
        if !self.positions_are_distinct() {
            return false;
        }
        let marked = reachable_from(&self.component_placeholders, central);
        let n = marked.len();
        let mut i: usize = 0;
        while i < n
            invariant
                s == self.component_placeholders@,
                n == marked.len(),
                n == s.len(),
                i <= n,
                is_sole_central(s, central as int),
                forall|k: int|
                    0 <= k < n ==> (#[trigger] marked[k] <==> connected(s, central as int, k)),
                forall|k: int| 0 <= k < i ==> #[trigger] marked[k],
            decreases n - i,
        {
            if !marked[i] {
                proof {
                    assert(!connected(s, central as int, i as int));
                    assert forall|c: int| !(is_sole_central(s, c) && all_connected_to(s, c)) by {
                        if is_sole_central(s, c) {
                            assert(s[central as int].component_type == ComponentType::Central);
                            assert(c == central);
                        }
                    }
                }
                return false;
            }
            i += 1;
        }
        proof {
            assert forall|k: int| 0 <= k < s.len() implies #[trigger] connected(
                s,
                central as int,
                k,
            ) by {
                assert(marked[k]);
            }
            assert(is_sole_central(s, central as int) && all_connected_to(s, central as int));
        }
        true
    }

    /// Appends a placement to the layout, whether or not its cell is taken.
    pub fn place(&mut self, placeholder: ComponentPlaceholder)
        ensures
            final(self).component_placeholders@ == old(self).component_placeholders@.push(
                placeholder,
            ),
            final(self).tags == old(self).tags,
    {
        self.component_placeholders.push(placeholder);
    }

    /// The index of the first placement anchored at `cell`.
    pub fn position_index(&self, cell: Cell) -> (r: Option<usize>)
        ensures
            match r {
                Some(i) => first_at(self.component_placeholders@, cell) == Some(i as int),
                None => first_at(self.component_placeholders@, cell).is_none(),
            },
            r matches Some(i) ==> is_first_at(self.component_placeholders@, cell, i as int),
    {
        let n = self.component_placeholders.len();
        let ghost s = self.component_placeholders@;
        let mut i: usize = 0;
        while i < n
            invariant
                n == self.component_placeholders.len(),
                s == self.component_placeholders@,
                i <= n,
                forall|j: int| 0 <= j < i ==> (#[trigger] s[j]).position != cell,
            decreases n - i,
        {
            if self.component_placeholders[i].position == cell {
                proof {
                    lemma_first_at_unique(s, cell, i as int);
                }
                return Some(i);
            }
            i += 1;
        }
        proof {
            assert forall|k: int| !is_first_at(s, cell, k) by {
                if is_first_at(s, cell, k) {
                    assert(s[k].position == cell);
                }
            }
        }
        None
    }

    /// Removes the first placement anchored at `cell` and returns it. A
    /// layout with no placement there stays as it is.
    pub fn remove_at(&mut self, cell: Cell) -> (removed: Option<ComponentPlaceholder>)
        ensures
            final(self).component_placeholders@ == without_first_at(
                old(self).component_placeholders@,
                cell,
            ),
            final(self).tags == old(self).tags,
            match first_at(old(self).component_placeholders@, cell) {
                Some(i) => removed == Some(old(self).component_placeholders@[i]),
                None => removed.is_none(),
            },
    {
        match self.position_index(cell) {
            Some(i) => Some(self.component_placeholders.remove(i)),
            None => None,
        }
    }

    /// Appends an empty tag, ready to be edited.
    pub fn add_tag(&mut self)
        ensures
            final(self).tags@.len() == old(self).tags@.len() + 1,
            final(self).tags@.last()@ == Seq::<char>::empty(),
            final(self).tags@.drop_last() == old(self).tags@,
            final(self).component_placeholders == old(self).component_placeholders,
    {
        self.tags.push(String::new());
        assert(self.tags@.drop_last() =~= old(self).tags@);
    }
}

/// At most one placement is the first one anchored at a given cell.
pub proof fn lemma_first_at_unique(s: Seq<ComponentPlaceholder>, cell: Cell, i: int)
    requires
        is_first_at(s, cell, i),
    ensures
        first_at(s, cell) == Some(i),
{
    let k = choose|k: int| is_first_at(s, cell, k);
    assert(is_first_at(s, cell, k));
    if k < i {
        assert(s[k].position != cell);
    }
    if i < k {
        assert(s[i].position != cell);
    }
}

} // verus!
