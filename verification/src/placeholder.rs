//! Grid cells and the placement of one component on the grid.

use vstd::prelude::*;
use crate::catalog::ComponentType;
use crate::orientation::Orientation;

verus! {

/// A cell of the unbounded integer grid.
#[derive(Clone, Copy, Debug, PartialEq, Eq, Structural, Hash)]
pub struct Cell {
    pub x: i32,
    pub y: i32,
}

/// The Manhattan distance between two cells.
pub open spec fn manhattan(a: Cell, b: Cell) -> nat {
    let dx: int = if a.x >= b.x { a.x - b.x } else { b.x - a.x };
    let dy: int = if a.y >= b.y { a.y - b.y } else { b.y - a.y };
    (dx + dy) as nat
}

/// Two cells are adjacent when they share an edge: their Manhattan
/// distance is 1.
pub open spec fn adjacent(a: Cell, b: Cell) -> bool {
    manhattan(a, b) == 1
}

impl Cell {
    /// The cell at column `x` and row `y`.
    pub fn new(x: i32, y: i32) -> (c: Cell)
        ensures
            c.x == x,
            c.y == y,
    {
        Cell { x, y }
    }

    /// The Manhattan distance to `other`.
    pub fn distance(&self, other: &Cell) -> (d: u64)
        ensures
            d == manhattan(*self, *other),
    {
        let ax: i64 = self.x as i64;
        let ay: i64 = self.y as i64;
        let bx: i64 = other.x as i64;
        let by: i64 = other.y as i64;
        let dx: i64 = if ax >= bx { ax - bx } else { bx - ax };
        let dy: i64 = if ay >= by { ay - by } else { by - ay };
        (dx + dy) as u64
    }

    /// Whether `other` is one of the four cardinal neighbours of this cell.
    pub fn is_adjacent(&self, other: &Cell) -> (b: bool)
        ensures
            b == adjacent(*self, *other),
    {
        self.distance(other) == 1
    }
}

/// Adjacency is symmetric, and no cell is adjacent to itself.
pub proof fn lemma_adjacent_symmetric(a: Cell, b: Cell)
    ensures
        adjacent(a, b) == adjacent(b, a),
        !adjacent(a, a),
{
}

/// One component instance: its type, the cell it is anchored at, and the
/// way it faces.
#[derive(Clone, Copy, Debug, PartialEq, Eq, Structural, Hash)]
pub struct ComponentPlaceholder {
    pub component_type: ComponentType,
    pub position: Cell,
    pub orientation: Orientation,
}

impl ComponentPlaceholder {
    /// A component of `component_type` anchored at `position`, facing
    /// `orientation`.
    pub fn new(component_type: ComponentType, position: Cell, orientation: Orientation) -> (p:
        ComponentPlaceholder)
        ensures
            p.component_type == component_type,
            p.position == position,
            p.orientation == orientation,
    {
        ComponentPlaceholder { component_type, position, orientation }
    }
}

} // verus!
