use spacecraft_builder::catalog::{ComponentType, Material, MaterialCost};
use spacecraft_builder::connectivity::reachable_from;
use spacecraft_builder::orientation::Orientation;
use spacecraft_builder::placeholder::{Cell, ComponentPlaceholder};
use spacecraft_builder::structure::SpacecraftStructure;

fn part(t: ComponentType, x: i32, y: i32) -> ComponentPlaceholder {
    ComponentPlaceholder::new(t, Cell::new(x, y), Orientation::Up)
}

fn layout(parts: Vec<ComponentPlaceholder>) -> SpacecraftStructure {
    let mut s = SpacecraftStructure::new();
    for p in parts {
        s.place(p);
    }
    s
}

fn cost_of(parts: &[ComponentType]) -> MaterialCost {
    let mut total = MaterialCost::zero();
    for t in parts {
        total = total.plus(&t.material_cost());
    }
    total
}

#[test]
fn orientation_next_cycles_clockwise() {
    assert_eq!(Orientation::Up.next(), Orientation::Right);
    assert_eq!(Orientation::Right.next(), Orientation::Down);
    assert_eq!(Orientation::Down.next(), Orientation::Left);
    assert_eq!(Orientation::Left.next(), Orientation::Up);
}

#[test]
fn orientation_four_turns_return() {
    for o in [Orientation::Up, Orientation::Right, Orientation::Down, Orientation::Left] {
        assert_eq!(o.next().next().next().next(), o);
        assert_ne!(o.next(), o);
        assert_ne!(o.next().next(), o);
    }
}

#[test]
fn orientation_angles() {
    assert_eq!(Orientation::Up.to_degrees(), 0);
    assert_eq!(Orientation::Right.to_degrees(), 90);
    assert_eq!(Orientation::Down.to_degrees(), 180);
    assert_eq!(Orientation::Left.to_degrees(), 270);
    assert_eq!(Orientation::Left.quarter_turns(), 3);
}

#[test]
fn cell_distance_and_adjacency() {
    let origin = Cell::new(0, 0);
    assert_eq!(origin.distance(&Cell::new(3, -4)), 7);
    assert!(origin.is_adjacent(&Cell::new(1, 0)));
    assert!(origin.is_adjacent(&Cell::new(0, -1)));
    assert!(!origin.is_adjacent(&Cell::new(1, 1)));
    assert!(!origin.is_adjacent(&Cell::new(2, 0)));
    assert!(!origin.is_adjacent(&origin));
}

#[test]
fn cell_distance_at_the_limits() {
    let a = Cell::new(i32::MIN, i32::MIN);
    let b = Cell::new(i32::MAX, i32::MAX);
    assert_eq!(a.distance(&b), 2 * (u32::MAX as u64));
    assert!(!a.is_adjacent(&b));
    assert!(Cell::new(i32::MAX, 0).is_adjacent(&Cell::new(i32::MAX - 1, 0)));
}

#[test]
fn catalog_footprints_are_positive() {
    for t in [
        ComponentType::SteelBlock,
        ComponentType::Central,
        ComponentType::LaserWeapon,
        ComponentType::MissileLauncher,
        ComponentType::RaptorEngine,
    ] {
        let f = t.footprint();
        assert!(f.width >= 1 && f.height >= 1);
    }
    assert_eq!(ComponentType::RaptorEngine.footprint().height, 2);
    assert_eq!(ComponentType::SteelBlock.footprint().width, 1);
}

#[test]
fn catalog_layering_and_anchor() {
    assert!(ComponentType::LaserWeapon.layered());
    assert!(ComponentType::MissileLauncher.layered());
    assert!(!ComponentType::SteelBlock.layered());
    assert!(!ComponentType::Central.layered());
    assert!(!ComponentType::RaptorEngine.layered());
    assert!(ComponentType::Central.is_central());
    assert!(!ComponentType::SteelBlock.is_central());
}

#[test]
fn catalog_names() {
    assert_eq!(ComponentType::SteelBlock.name(), "SteelBlock");
    assert_eq!(ComponentType::MissileLauncher.name(), "MissileLauncher");
    assert_eq!(Material::Silicates.name(), "Silicates");
    assert_eq!(Material::all().len(), 5);
}

#[test]
fn catalog_costs() {
    let block = ComponentType::SteelBlock.material_cost();
    assert_eq!(block.get(Material::Iron), 10);
    assert_eq!(block.get(Material::Carbon), 2);
    assert_eq!(block.get(Material::Copper), 0);
    let central = ComponentType::Central.material_cost();
    assert_eq!(central.get(Material::Iron), 40);
    assert_eq!(central.get(Material::Silicates), 25);
    let entries = central.entries();
    assert_eq!(entries[0], (Material::Iron, 40));
    assert_eq!(entries[3], (Material::Copper, 30));
    assert_eq!(entries.len(), 5);
}

#[test]
fn materials_of_empty_layout_are_zero() {
    assert_eq!(SpacecraftStructure::new().materials(), MaterialCost::zero());
}

#[test]
fn materials_sum_the_catalog_costs() {
    let s = layout(vec![
        part(ComponentType::Central, 0, 0),
        part(ComponentType::SteelBlock, 1, 0),
        part(ComponentType::SteelBlock, 2, 0),
        part(ComponentType::LaserWeapon, 2, 1),
    ]);
    let total = s.materials();
    assert_eq!(total.get(Material::Iron), 40 + 10 + 10 + 5);
    assert_eq!(total.get(Material::Nickel), 10);
    assert_eq!(total.get(Material::Silicates), 25 + 30);
    assert_eq!(total.get(Material::Copper), 30 + 15);
    assert_eq!(total.get(Material::Carbon), 4);
}

#[test]
fn materials_do_not_depend_on_order() {
    let a = layout(vec![
        part(ComponentType::Central, 0, 0),
        part(ComponentType::RaptorEngine, 0, 1),
        part(ComponentType::MissileLauncher, 5, 5),
    ]);
    let b = layout(vec![
        part(ComponentType::MissileLauncher, 5, 5),
        part(ComponentType::Central, 0, 0),
        part(ComponentType::RaptorEngine, 0, 1),
    ]);
    assert_eq!(a.materials(), b.materials());
    assert_eq!(
        a.materials(),
        cost_of(&[
            ComponentType::RaptorEngine,
            ComponentType::MissileLauncher,
            ComponentType::Central
        ])
    );
}

#[test]
fn empty_layout_is_invalid() {
    assert!(!SpacecraftStructure::new().valid());
}

#[test]
fn single_central_is_valid() {
    assert!(layout(vec![part(ComponentType::Central, 7, -3)]).valid());
}

#[test]
fn single_block_is_invalid() {
    assert!(!layout(vec![part(ComponentType::SteelBlock, 0, 0)]).valid());
}

#[test]
fn two_centrals_are_invalid() {
    assert!(!layout(vec![
        part(ComponentType::Central, 0, 0),
        part(ComponentType::Central, 1, 0)
    ])
    .valid());
    assert!(!layout(vec![
        part(ComponentType::Central, 0, 0),
        part(ComponentType::Central, 9, 9)
    ])
    .valid());
}

#[test]
fn adjacency_decides_validity() {
    let central = part(ComponentType::Central, 0, 0);
    assert!(layout(vec![central, part(ComponentType::SteelBlock, 0, 1)]).valid());
    assert!(!layout(vec![central, part(ComponentType::SteelBlock, 2, 0)]).valid());
    assert!(!layout(vec![central, part(ComponentType::SteelBlock, 1, 1)]).valid());
    assert!(layout(vec![
        central,
        part(ComponentType::SteelBlock, 2, 0),
        part(ComponentType::SteelBlock, 1, 0)
    ])
    .valid());
}

#[test]
fn shared_cell_is_invalid() {
    assert!(!layout(vec![
        part(ComponentType::Central, 0, 0),
        part(ComponentType::SteelBlock, 0, 0)
    ])
    .valid());
    assert!(!layout(vec![
        part(ComponentType::Central, 0, 0),
        part(ComponentType::SteelBlock, 1, 0),
        part(ComponentType::LaserWeapon, 1, 0)
    ])
    .valid());
}

#[test]
fn removing_the_central_invalidates() {
    let mut s = layout(vec![
        part(ComponentType::SteelBlock, 1, 0),
        part(ComponentType::Central, 0, 0),
    ]);
    assert!(s.valid());
    assert_eq!(s.central_index(), Some(1));
    let removed = s.remove_at(Cell::new(0, 0));
    assert_eq!(removed, Some(part(ComponentType::Central, 0, 0)));
    assert!(!s.valid());
    assert_eq!(s.central_index(), None);
}

#[test]
fn long_chain_is_connected_whatever_the_order() {
    let mut parts = Vec::new();
    for x in (1..40).rev() {
        parts.push(part(ComponentType::SteelBlock, x, 0));
    }
    parts.push(part(ComponentType::Central, 0, 0));
    let mut s = layout(parts);
    assert!(s.valid());
    s.remove_at(Cell::new(20, 0));
    assert!(!s.valid());
    s.place(part(ComponentType::RaptorEngine, 20, 0));
    assert!(s.valid());
}

#[test]
fn ring_with_a_far_island() {
    let mut s = layout(vec![
        part(ComponentType::Central, 0, 0),
        part(ComponentType::SteelBlock, 1, 0),
        part(ComponentType::SteelBlock, 1, 1),
        part(ComponentType::SteelBlock, 0, 1),
    ]);
    assert!(s.valid());
    s.place(part(ComponentType::SteelBlock, 5, 5));
    s.place(part(ComponentType::SteelBlock, 5, 6));
    assert!(!s.valid());
}

#[test]
fn reachable_marks_exactly_the_connected() {
    let parts = vec![
        part(ComponentType::SteelBlock, 3, 3),
        part(ComponentType::Central, 0, 0),
        part(ComponentType::SteelBlock, 0, -1),
        part(ComponentType::SteelBlock, 3, 4),
        part(ComponentType::SteelBlock, -1, -1),
    ];
    assert_eq!(reachable_from(&parts, 1), vec![false, true, true, false, true]);
    assert_eq!(reachable_from(&parts, 0), vec![true, false, false, true, false]);
}

#[test]
fn position_index_finds_the_first() {
    let s = layout(vec![
        part(ComponentType::Central, 0, 0),
        part(ComponentType::SteelBlock, 1, 0),
        part(ComponentType::LaserWeapon, 1, 0),
    ]);
    assert_eq!(s.position_index(Cell::new(1, 0)), Some(1));
    assert_eq!(s.position_index(Cell::new(0, 0)), Some(0));
    assert_eq!(s.position_index(Cell::new(4, 4)), None);
    assert!(!s.positions_are_distinct());
}

#[test]
fn remove_at_takes_only_the_first_match() {
    let mut s = layout(vec![
        part(ComponentType::Central, 0, 0),
        part(ComponentType::SteelBlock, 1, 0),
        part(ComponentType::LaserWeapon, 1, 0),
    ]);
    assert_eq!(s.remove_at(Cell::new(1, 0)), Some(part(ComponentType::SteelBlock, 1, 0)));
    assert_eq!(
        s.component_placeholders,
        vec![part(ComponentType::Central, 0, 0), part(ComponentType::LaserWeapon, 1, 0)]
    );
    assert_eq!(s.remove_at(Cell::new(8, 8)), None);
    assert_eq!(s.component_placeholders.len(), 2);
}

#[test]
fn add_tag_appends_an_empty_tag() {
    let mut s = SpacecraftStructure::new();
    s.add_tag();
    s.tags[0].push_str("scout");
    s.add_tag();
    assert_eq!(s.tags, vec![String::from("scout"), String::new()]);
    assert!(s.component_placeholders.is_empty());
}

#[test]
fn validity_ignores_order_and_orientation() {
    let cells = [(0, 0), (1, 0), (1, 1), (2, 1)];
    let types = [
        ComponentType::Central,
        ComponentType::SteelBlock,
        ComponentType::LaserWeapon,
        ComponentType::RaptorEngine,
    ];
    let build = |order: [usize; 4], facing: Orientation| {
        let mut s = SpacecraftStructure::new();
        for i in order {
            s.place(ComponentPlaceholder::new(types[i], Cell::new(cells[i].0, cells[i].1), facing));
        }
        s
    };
    assert!(build([0, 1, 2, 3], Orientation::Up).valid());
    assert!(build([3, 2, 1, 0], Orientation::Left).valid());
    assert!(build([2, 0, 3, 1], Orientation::Down).valid());
    let mut gap = build([3, 1, 0, 2], Orientation::Right);
    gap.remove_at(Cell::new(1, 1));
    assert!(!gap.valid());
}
