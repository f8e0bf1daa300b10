use spacecraft_builder::catalog::{ComponentType, Material, MaterialCost};
use spacecraft_builder::editor::{
    Command, ElementState, InputEvent, MouseButton, SpacecraftBuilderApp, VirtualKeyCode,
};
use spacecraft_builder::orientation::Orientation;
use spacecraft_builder::placeholder::{Cell, ComponentPlaceholder};
use spacecraft_builder::render::{
    component_shape, Layer, GRID_LINE_COLOR, INVALID_BACKGROUND, VALID_BACKGROUND,
};
use spacecraft_builder::textures::SpacecraftTextures;

fn press(button: MouseButton) -> InputEvent {
    InputEvent::MouseInput { state: ElementState::Pressed, button }
}

fn hover(x: i32, y: i32) -> InputEvent {
    InputEvent::CursorMoved { cell: Cell::new(x, y) }
}

fn press_r() -> InputEvent {
    InputEvent::KeyboardInput {
        state: ElementState::Pressed,
        virtual_keycode: Some(VirtualKeyCode::R),
    }
}

#[test]
fn new_session_is_idle_and_empty() {
    let app = SpacecraftBuilderApp::new();
    assert!(app.spacecraft_structure.component_placeholders.is_empty());
    assert!(app.spacecraft_structure.tags.is_empty());
    assert_eq!(app.selected_component, None);
    assert_eq!(app.orientation, Orientation::Up);
    assert_eq!(app.mouse_cell_pos(), Cell::new(0, 0));
    assert_eq!(app.selected_component_as_placeholder(), None);
    assert!(!app.spacecraft_structure.valid());
}

#[test]
fn events_map_to_commands() {
    assert_eq!(press(MouseButton::Left).command(), Some(Command::PrimaryConfirm));
    assert_eq!(press(MouseButton::Right).command(), Some(Command::SecondaryConfirm));
    assert_eq!(press(MouseButton::Middle).command(), None);
    assert_eq!(press(MouseButton::Other).command(), None);
    assert_eq!(hover(3, -2).command(), Some(Command::PointerMove(Cell::new(3, -2))));
    assert_eq!(press_r().command(), Some(Command::Rotate));
    assert_eq!(InputEvent::Other.command(), None);
}

#[test]
fn released_edges_are_ignored() {
    let released_left =
        InputEvent::MouseInput { state: ElementState::Released, button: MouseButton::Left };
    let released_right =
        InputEvent::MouseInput { state: ElementState::Released, button: MouseButton::Right };
    let released_r = InputEvent::KeyboardInput {
        state: ElementState::Released,
        virtual_keycode: Some(VirtualKeyCode::R),
    };
    let other_key = InputEvent::KeyboardInput {
        state: ElementState::Pressed,
        virtual_keycode: Some(VirtualKeyCode::Other),
    };
    let no_key = InputEvent::KeyboardInput { state: ElementState::Pressed, virtual_keycode: None };
    let mut app = SpacecraftBuilderApp::new();
    app.apply(Command::Select(ComponentType::Central));
    for e in [released_left, released_right, released_r, other_key, no_key, InputEvent::Other] {
        assert_eq!(e.command(), None);
        assert!(!app.input(&e));
    }
    assert!(app.spacecraft_structure.component_placeholders.is_empty());
    assert_eq!(app.selected_component, Some(ComponentType::Central));
    assert_eq!(app.orientation, Orientation::Up);
}

#[test]
fn primary_confirm_while_idle_does_nothing() {
    let mut app = SpacecraftBuilderApp::new();
    assert!(!app.input(&press(MouseButton::Left)));
    assert!(app.spacecraft_structure.component_placeholders.is_empty());
}

#[test]
fn primary_confirm_places_and_keeps_the_selection() {
    let mut app = SpacecraftBuilderApp::new();
    app.apply(Command::Select(ComponentType::LaserWeapon));
    app.input(&hover(2, 5));
    app.input(&press_r());
    app.input(&press(MouseButton::Left));
    app.input(&press(MouseButton::Left));
    let expected =
        ComponentPlaceholder::new(ComponentType::LaserWeapon, Cell::new(2, 5), Orientation::Right);
    assert_eq!(app.spacecraft_structure.component_placeholders, vec![expected, expected]);
    assert_eq!(app.selected_component, Some(ComponentType::LaserWeapon));
}

#[test]
fn secondary_confirm_cancels_before_it_removes() {
    let mut app = SpacecraftBuilderApp::new();
    app.apply(Command::Select(ComponentType::Central));
    app.input(&press(MouseButton::Left));
    app.input(&press(MouseButton::Right));
    assert_eq!(app.selected_component, None);
    assert_eq!(app.spacecraft_structure.component_placeholders.len(), 1);
    app.input(&press(MouseButton::Right));
    assert!(app.spacecraft_structure.component_placeholders.is_empty());
    app.input(&press(MouseButton::Right));
    assert!(app.spacecraft_structure.component_placeholders.is_empty());
}

#[test]
fn rotate_affects_only_future_placements() {
    let mut app = SpacecraftBuilderApp::new();
    app.apply(Command::Select(ComponentType::SteelBlock));
    app.apply(Command::PrimaryConfirm);
    app.apply(Command::Rotate);
    app.apply(Command::Rotate);
    app.apply(Command::PointerMove(Cell::new(1, 0)));
    app.apply(Command::PrimaryConfirm);
    let placed = &app.spacecraft_structure.component_placeholders;
    assert_eq!(placed[0].orientation, Orientation::Up);
    assert_eq!(placed[1].orientation, Orientation::Down);
    assert_eq!(app.orientation, Orientation::Down);
}

#[test]
fn place_then_remove_scenario() {
    let mut app = SpacecraftBuilderApp::new();
    app.apply(Command::Select(ComponentType::Central));
    app.input(&hover(0, 0));
    app.input(&press(MouseButton::Left));
    assert!(app.spacecraft_structure.valid());
    let central_only = app.spacecraft_structure.materials();
    assert_eq!(central_only, ComponentType::Central.material_cost());
    assert_eq!(
        app.spacecraft_structure.component_placeholders,
        vec![ComponentPlaceholder::new(ComponentType::Central, Cell::new(0, 0), Orientation::Up)]
    );

    app.apply(Command::Select(ComponentType::SteelBlock));
    app.input(&hover(1, 0));
    app.input(&press(MouseButton::Left));
    assert!(app.spacecraft_structure.valid());
    let both = app.spacecraft_structure.materials();
    assert_eq!(both, central_only.plus(&ComponentType::SteelBlock.material_cost()));
    assert_eq!(both.get(Material::Iron), 50);

    app.input(&press(MouseButton::Right));
    assert_eq!(app.selected_component, None);
    app.input(&press(MouseButton::Right));
    assert_eq!(
        app.spacecraft_structure.component_placeholders,
        vec![ComponentPlaceholder::new(ComponentType::Central, Cell::new(0, 0), Orientation::Up)]
    );
    assert!(app.spacecraft_structure.valid());
    assert_eq!(app.spacecraft_structure.materials(), central_only);
    assert_ne!(central_only, MaterialCost::zero());
}

#[test]
fn texture_indices_names_and_default() {
    let all = SpacecraftTextures::all();
    assert_eq!(all.len(), 6);
    for (i, t) in all.iter().enumerate() {
        assert_eq!(u32::from(*t), i as u32);
    }
    let index: u32 = SpacecraftTextures::CentralComponent.into();
    assert_eq!(index, 5);
    assert_eq!(SpacecraftTextures::default(), SpacecraftTextures::White);
    assert_eq!(SpacecraftTextures::White.name(), "white");
    assert_eq!(SpacecraftTextures::MissileWeaponComponent.name(), "missile_weapon_component");
    assert_eq!(SpacecraftTextures::RaptorEngineComponent.name(), "raptor_engine_component");
}

#[test]
fn component_shape_follows_the_catalog() {
    let weapon =
        ComponentPlaceholder::new(ComponentType::MissileLauncher, Cell::new(-2, 4), Orientation::Left);
    let shape = component_shape(&weapon);
    assert_eq!(shape.texture, SpacecraftTextures::MissileWeaponComponent);
    assert_eq!(shape.position, Cell::new(-2, 4));
    assert_eq!(shape.orientation, Orientation::Left);
    assert_eq!(shape.scale, ComponentType::MissileLauncher.footprint());
    assert_eq!(shape.layer, Layer::Top);
    let engine =
        ComponentPlaceholder::new(ComponentType::RaptorEngine, Cell::new(0, 0), Orientation::Up);
    assert_eq!(component_shape(&engine).layer, Layer::Base);
    assert_eq!(component_shape(&engine).texture, SpacecraftTextures::RaptorEngineComponent);
    assert_eq!(component_shape(&engine).scale.height, 2);
}

#[test]
fn structure_shapes_come_in_placement_order() {
    let mut app = SpacecraftBuilderApp::new();
    assert!(app.draw_spacecraft_structure().is_empty());
    let order = [
        (ComponentType::LaserWeapon, 1),
        (ComponentType::Central, 0),
        (ComponentType::MissileLauncher, 2),
        (ComponentType::SteelBlock, 1),
    ];
    for (t, x) in order {
        app.apply(Command::Select(t));
        app.apply(Command::PointerMove(Cell::new(x, 0)));
        app.apply(Command::PrimaryConfirm);
    }
    let shapes = app.draw_spacecraft_structure();
    let placed = &app.spacecraft_structure.component_placeholders;
    assert_eq!(shapes.len(), 4);
    for i in 0..4 {
        assert_eq!(shapes[i], component_shape(&placed[i]));
    }
    let textures: Vec<SpacecraftTextures> = shapes.iter().map(|s| s.texture).collect();
    assert_eq!(
        textures,
        vec![
            SpacecraftTextures::LaserWeaponComponent,
            SpacecraftTextures::CentralComponent,
            SpacecraftTextures::MissileWeaponComponent,
            SpacecraftTextures::BlockComponent,
        ]
    );
    let layers: Vec<Layer> = shapes.iter().map(|s| s.layer).collect();
    assert_eq!(layers, vec![Layer::Top, Layer::Base, Layer::Top, Layer::Base]);
    assert_eq!(placed.len(), 4);
}

#[test]
fn ghost_shows_the_pending_placement() {
    let mut app = SpacecraftBuilderApp::new();
    assert_eq!(app.draw_extras(), None);
    app.apply(Command::Select(ComponentType::SteelBlock));
    app.apply(Command::PointerMove(Cell::new(4, -1)));
    app.apply(Command::Rotate);
    let ghost = app.draw_extras().unwrap();
    let placed = component_shape(&ComponentPlaceholder::new(
        ComponentType::SteelBlock,
        Cell::new(4, -1),
        Orientation::Right,
    ));
    assert_eq!(ghost.texture, placed.texture);
    assert_eq!(ghost.position, placed.position);
    assert_eq!(ghost.orientation, placed.orientation);
    assert_eq!(ghost.scale, placed.scale);
    assert_eq!(ghost.layer, Layer::Preview);
    assert_eq!(placed.layer, Layer::Base);
    assert!(app.spacecraft_structure.component_placeholders.is_empty());
}

#[test]
fn ghost_lies_in_front_of_layered_placements() {
    let mut app = SpacecraftBuilderApp::new();
    app.apply(Command::Select(ComponentType::Central));
    app.apply(Command::PrimaryConfirm);
    app.apply(Command::Select(ComponentType::LaserWeapon));
    app.apply(Command::PointerMove(Cell::new(1, 0)));
    app.apply(Command::PrimaryConfirm);
    for selected in [ComponentType::SteelBlock, ComponentType::MissileLauncher] {
        app.apply(Command::Select(selected));
        let ghost = app.draw_extras().unwrap();
        assert_eq!(ghost.layer.rank(), 2);
        for shape in app.draw_spacecraft_structure() {
            assert!(ghost.layer.rank() > shape.layer.rank());
        }
    }
    assert_eq!(Layer::Base.rank(), 0);
    assert_eq!(Layer::Top.rank(), 1);
}

#[test]
fn background_encodes_validity() {
    let mut app = SpacecraftBuilderApp::new();
    let empty = app.draw_background();
    assert_eq!(empty.color, INVALID_BACKGROUND);
    assert_eq!(empty.color, 0xaa1111);
    assert_eq!(empty.line_color, GRID_LINE_COLOR);
    assert_eq!(empty.line_offsets, vec![-9, -7, -5, -3, -1, 1, 3, 5, 7, 9]);
    app.apply(Command::Select(ComponentType::Central));
    app.apply(Command::PrimaryConfirm);
    assert_eq!(app.draw_background().color, VALID_BACKGROUND);
    assert_eq!(VALID_BACKGROUND, 0x222222);
}

#[test]
fn menus_offer_the_catalog_and_report_usage() {
    let mut app = SpacecraftBuilderApp::new();
    app.apply(Command::Select(ComponentType::RaptorEngine));
    app.apply(Command::PrimaryConfirm);
    let menus = app.draw_menus();
    assert_eq!(menus.weapons, vec![ComponentType::LaserWeapon]);
    assert_eq!(menus.engines, vec![ComponentType::RaptorEngine]);
    assert_eq!(menus.blocks, vec![ComponentType::SteelBlock, ComponentType::Central]);
    assert_eq!(
        menus.material_usage,
        vec![
            (Material::Iron, 15),
            (Material::Nickel, 20),
            (Material::Silicates, 0),
            (Material::Copper, 10),
            (Material::Carbon, 5),
        ]
    );
}
