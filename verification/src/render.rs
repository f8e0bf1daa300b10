//! What a frame shows, as plain values: one shape per placement, the ghost
//! of the pending placement, the background with its reference grid, and
//! the contents of the menus. A renderer turns these into pixels.

use vstd::prelude::*;
use crate::accounting::total_cost;
use crate::catalog::{ComponentType, Footprint, Material};
use crate::editor::SpacecraftBuilderApp;
use crate::orientation::Orientation;
use crate::placeholder::{Cell, ComponentPlaceholder};
use crate::textures::SpacecraftTextures;
use crate::validity::spec_valid;

verus! {

/// The depth at which a shape is drawn. `Top` lies strictly in front of
/// `Base`, and `Preview` strictly in front of both: it is the depth of the
/// preview of the pending placement and of nothing else.
#[derive(Clone, Copy, Debug, PartialEq, Eq, Structural)]
pub enum Layer {
    Base,
    Top,
    Preview,
}

impl Layer {
    /// The rank of the depth from back to front: a shape with a higher rank
    /// is drawn in front of every shape with a lower one.
    pub open spec fn spec_rank(self) -> nat {
        match self {
            Layer::Base => 0,
            Layer::Top => 1,
            Layer::Preview => 2,
        }
    }

    /// This depth lies strictly in front of `other`.
    pub open spec fn in_front_of(self, other: Layer) -> bool {
        self.spec_rank() > other.spec_rank()
    }

    /// The rank of the depth from back to front.
    pub fn rank(self) -> (r: u8)
        ensures
            r == self.spec_rank(),
    {
        match self {
            Layer::Base => 0,
            Layer::Top => 1,
            Layer::Preview => 2,
        }
    }
}

/// How one component is drawn: a unit square with `texture`, stretched to
/// `scale`, turned to `orientation` about the centre of its anchor cell
/// `position`, at depth `layer`.
#[derive(Clone, Copy, Debug, PartialEq, Eq, Structural)]
pub struct ComponentShape {
    pub texture: SpacecraftTextures,
    pub position: Cell,
    pub orientation: Orientation,
    pub scale: Footprint,
    pub layer: Layer,
}

/// The depth at which a component of type `t` is drawn.
pub open spec fn layer_of(t: ComponentType) -> Layer {
    if t.spec_layered() {
        Layer::Top
    } else {
        Layer::Base
    }
}

/// The shape that shows `component`.
pub open spec fn spec_component_shape(component: ComponentPlaceholder) -> ComponentShape {
    ComponentShape {
        texture: SpacecraftTextures::spec_of(component.component_type),
        position: component.position,
        orientation: component.orientation,
        scale: component.component_type.spec_footprint(),
        layer: layer_of(component.component_type),
    }
}

/// The shape that previews `component` before it is placed: the shape of
/// the component itself, lifted to the depth in front of every placement.
pub open spec fn spec_ghost_shape(component: ComponentPlaceholder) -> ComponentShape {
    ComponentShape { layer: Layer::Preview, ..spec_component_shape(component) }
}

/// The shapes of a layout: one per placement, in placement order. The
/// depth that each shape carries, not its place in the list, says what is
/// drawn in front of what.
pub open spec fn spec_structure_shapes(s: Seq<ComponentPlaceholder>) -> Seq<ComponentShape> {
    Seq::new(s.len(), |i: int| spec_component_shape(s[i]))
}

/// The shape that shows `component`.
pub fn component_shape(component: &ComponentPlaceholder) -> (shape: ComponentShape)
    ensures
        shape == spec_component_shape(*component),
{
    let layer = if component.component_type.layered() {
        Layer::Top
    } else {
        Layer::Base
    };
    ComponentShape {
        texture: SpacecraftTextures::of(component.component_type),
        position: component.position,
        orientation: component.orientation,
        scale: component.component_type.footprint(),
        layer,
    }
}

/// The colour behind a valid layout.
pub const VALID_BACKGROUND: u32 = 0x222222;

/// The colour behind an invalid layout.
pub const INVALID_BACKGROUND: u32 = 0xaa1111;

/// The colour of the reference grid.
pub const GRID_LINE_COLOR: u32 = 0x888888;

/// The number of grid lines in each direction.
pub const GRID_LINES: usize = 10;

/// Where grid line `i` lies, in half cells from the centre of the origin
/// cell: the lines are one cell apart and centred on the origin.
pub open spec fn grid_line_offset(i: int) -> int {
    2 * i - (GRID_LINES as int - 1)
}

/// The background of a frame: its colour, and the reference grid. Each
/// entry of `line_offsets` stands for one vertical and one horizontal line,
/// at that many half cells from the centre of the origin cell.
pub struct Background {
    pub color: u32,
    pub line_color: u32,
    pub line_offsets: Vec<i32>,
}

/// What the selection menus offer and what the usage report shows.
pub struct Menus {
    pub weapons: Vec<ComponentType>,
    pub engines: Vec<ComponentType>,
    pub blocks: Vec<ComponentType>,
    pub material_usage: Vec<(Material, u128)>,
}

impl SpacecraftBuilderApp {
    /// One shape per placement, in placement order: the shape at place
    /// `i` shows placement `i`, placements that share a cell included.
    pub fn draw_spacecraft_structure(&self) -> (shapes: Vec<ComponentShape>)
        ensures
            shapes@.len() == self@.placeholders.len(),
            forall|i: int|
                0 <= i < shapes@.len() ==> #[trigger] shapes@[i] == spec_component_shape(
                    self@.placeholders[i],
                ),
            shapes@ == spec_structure_shapes(self@.placeholders),
    {
        let n = self.spacecraft_structure.component_placeholders.len();
        let ghost s = self.spacecraft_structure.component_placeholders@;
        let mut shapes: Vec<ComponentShape> = Vec::new();
        let mut i: usize = 0;
        while i < n
            invariant
                n == self.spacecraft_structure.component_placeholders.len(),
                s == self.spacecraft_structure.component_placeholders@,
                i <= n,
                shapes@.len() == i,
                forall|k: int| 0 <= k < i ==> #[trigger] shapes@[k] == spec_component_shape(s[k]),
            decreases n - i,
        {
            let shape = component_shape(&self.spacecraft_structure.component_placeholders[i]);
            shapes.push(shape);
            i += 1;
        }
        assert(shapes@ =~= spec_structure_shapes(s));
        shapes
    }

    /// The ghost of the pending placement: the shape of the selected
    /// component at the pointer's cell, at the depth in front of every
    /// placement, to be drawn translucent. None while no component type is
    /// selected.
    pub fn draw_extras(&self) -> (ghost_shape: Option<ComponentShape>)
        ensures
            ghost_shape == match self@.pending() {
                Some(p) => Some(spec_ghost_shape(p)),
                None => None,
            },
            ghost_shape matches Some(g) ==> forall|i: int|
                0 <= i < spec_structure_shapes(self@.placeholders).len() ==> g.layer.in_front_of(
                    (#[trigger] spec_structure_shapes(self@.placeholders)[i]).layer,
                ),
    {
        match self.selected_component_as_placeholder() {
            Some(placeholder) => {
                let shape = component_shape(&placeholder);
                proof {
                    lemma_ghost_in_front_of_layout(self@.placeholders, placeholder);
                }
                Some(ComponentShape { layer: Layer::Preview, ..shape })
            },
            None => None,
        }
    }

    /// The background: one colour for a valid layout and another for an
    /// invalid one, and the reference grid.
    pub fn draw_background(&self) -> (background: Background)
        ensures
            background.color == if spec_valid(self@.placeholders) {
                VALID_BACKGROUND
            } else {
                INVALID_BACKGROUND
            },
            background.line_color == GRID_LINE_COLOR,
            background.line_offsets@.len() == GRID_LINES,
            forall|i: int|
                0 <= i < GRID_LINES ==> #[trigger] background.line_offsets@[i] == grid_line_offset(
                    i,
                ),
    {
        let color = if self.spacecraft_structure.valid() {
            VALID_BACKGROUND
        } else {
            INVALID_BACKGROUND
        };
        let mut line_offsets: Vec<i32> = Vec::new();
        let mut i: usize = 0;
        while i < GRID_LINES
            invariant
                i <= GRID_LINES,
                line_offsets@.len() == i,
                forall|k: int| 0 <= k < i ==> #[trigger] line_offsets@[k] == grid_line_offset(k),
            decreases GRID_LINES - i,
        {
            let doubled: i32 = 2 * (i as i32);
            line_offsets.push(doubled - (GRID_LINES as i32 - 1));
            i += 1;
        }
        Background { color, line_color: GRID_LINE_COLOR, line_offsets }
    }

    /// The menus: the component types offered for selection, grouped by
    /// role, and the layout's material usage, material by material in
    /// catalog order.
    pub fn draw_menus(&self) -> (menus: Menus)
        ensures
            menus.weapons@ == seq![ComponentType::LaserWeapon],
            menus.engines@ == seq![ComponentType::RaptorEngine],
            menus.blocks@ == seq![ComponentType::SteelBlock, ComponentType::Central],
            menus.material_usage@.len() == Material::spec_all().len(),
            forall|i: int|
                0 <= i < menus.material_usage@.len() ==> (#[trigger] menus.material_usage@[i]).0
                    == Material::spec_all()[i] && menus.material_usage@[i].1 == total_cost(
                    self@.placeholders,
                    Material::spec_all()[i],
                ),
    {
        let mut weapons: Vec<ComponentType> = Vec::new();
        weapons.push(ComponentType::LaserWeapon);
        let mut engines: Vec<ComponentType> = Vec::new();
        engines.push(ComponentType::RaptorEngine);
        let mut blocks: Vec<ComponentType> = Vec::new();
        blocks.push(ComponentType::SteelBlock);
        blocks.push(ComponentType::Central);
        let usage = self.spacecraft_structure.materials();
        let material_usage = usage.entries();
        proof {
            assert(weapons@ =~= seq![ComponentType::LaserWeapon]);
            assert(engines@ =~= seq![ComponentType::RaptorEngine]);
            assert(blocks@ =~= seq![ComponentType::SteelBlock, ComponentType::Central]);
            assert forall|i: int| 0 <= i < material_usage@.len() implies (
            #[trigger] material_usage@[i]).1 == total_cost(
                self@.placeholders,
                Material::spec_all()[i],
            ) by {
                let m = material_usage@[i].0;
                assert(usage.spec_get(m) == total_cost(self@.placeholders, m));
            }
        }
        Menus { weapons, engines, blocks, material_usage }
    }
}

/// Every shape of a layout lies at base depth or on top of it, as the
/// catalog says of its placement's type; none lies at the preview's depth.
pub proof fn lemma_structure_shape_layers(s: Seq<ComponentPlaceholder>, i: int)
    requires
        0 <= i < s.len(),
    ensures
        spec_structure_shapes(s)[i].layer == layer_of(s[i].component_type),
        spec_structure_shapes(s)[i].layer != Layer::Preview,
        s[i].component_type.spec_layered() ==> spec_structure_shapes(s)[i].layer.in_front_of(
            Layer::Base,
        ),
{
}

/// The ghost lies strictly in front of every shape of the layout, those at
/// base depth and the layered ones alike, whatever type it previews.
pub proof fn lemma_ghost_in_front_of_layout(s: Seq<ComponentPlaceholder>, p: ComponentPlaceholder)
    ensures
        forall|i: int|
            0 <= i < spec_structure_shapes(s).len() ==> spec_ghost_shape(p).layer.in_front_of(
                (#[trigger] spec_structure_shapes(s)[i]).layer,
            ),
{
    assert forall|i: int| 0 <= i < spec_structure_shapes(s).len() implies spec_ghost_shape(
        p,
    ).layer.in_front_of((#[trigger] spec_structure_shapes(s)[i]).layer) by {
        lemma_structure_shape_layers(s, i);
    }
}

} // verus!
