//! The editing session: which component is selected, where the pointer is,
//! which way new components face, and how input events change the layout.

use vstd::prelude::*;
use crate::catalog::ComponentType;
use crate::orientation::Orientation;
use crate::placeholder::{Cell, ComponentPlaceholder};
use crate::structure::{first_at, without_first_at, SpacecraftStructure};

verus! {

/// Whether a button or key went down or came up.
#[derive(Clone, Copy, Debug, PartialEq, Eq, Structural)]
pub enum ElementState {
    Pressed,
    Released,
}

/// A button of the pointing device.
#[derive(Clone, Copy, Debug, PartialEq, Eq, Structural)]
pub enum MouseButton {
    Left,
    Right,
    Middle,
    Other,
}

/// A key of the keyboard, as far as the editor tells keys apart.
#[derive(Clone, Copy, Debug, PartialEq, Eq, Structural)]
pub enum VirtualKeyCode {
    R,
    Other,
}

/// An event as the window delivers it, reduced to what the editor reads.
#[derive(Clone, Copy, Debug, PartialEq, Eq, Structural)]
pub enum InputEvent {
    /// A pointer button changed state.
    MouseInput { state: ElementState, button: MouseButton },
    /// The pointer moved and now hovers `cell`.
    CursorMoved { cell: Cell },
    /// A key changed state; `virtual_keycode` is absent for keys without one.
    KeyboardInput { state: ElementState, virtual_keycode: Option<VirtualKeyCode> },
    /// Any other event.
    Other,
}

/// What the editor is asked to do.
#[derive(Clone, Copy, Debug, PartialEq, Eq, Structural)]
pub enum Command {
    /// Track the pointer at a new cell.
    PointerMove(Cell),
    /// Place the selected component at the pointer.
    PrimaryConfirm,
    /// Cancel the selection, or remove the component at the pointer.
    SecondaryConfirm,
    /// Turn the orientation of future placements by a quarter turn.
    Rotate,
    /// Select a component type for placement.
    Select(ComponentType),
}

impl InputEvent {
    /// The command that the event stands for. Only the pressed edge of a
    /// button or of the rotate key acts; everything else but pointer
    /// movement is ignored.
    pub open spec fn spec_command(self) -> Option<Command> {
        match self {
            InputEvent::MouseInput { state: ElementState::Pressed, button: MouseButton::Left } => {
                Some(Command::PrimaryConfirm)
            },
            InputEvent::MouseInput { state: ElementState::Pressed, button: MouseButton::Right } => {
                Some(Command::SecondaryConfirm)
            },
            InputEvent::CursorMoved { cell } => Some(Command::PointerMove(cell)),
            InputEvent::KeyboardInput {
                state: ElementState::Pressed,
                virtual_keycode: Some(VirtualKeyCode::R),
            } => Some(Command::Rotate),
            _ => None,
        }
    }

    /// The command that the event stands for, if any.
    pub fn command(&self) -> (c: Option<Command>)
        ensures
            c == self.spec_command(),
    {
        match self {
            InputEvent::MouseInput { state: ElementState::Pressed, button: MouseButton::Left } => {
                Some(Command::PrimaryConfirm)
            },
            InputEvent::MouseInput { state: ElementState::Pressed, button: MouseButton::Right } => {
                Some(Command::SecondaryConfirm)
            },
            InputEvent::CursorMoved { cell } => Some(Command::PointerMove(*cell)),
            InputEvent::KeyboardInput {
                state: ElementState::Pressed,
                virtual_keycode: Some(VirtualKeyCode::R),
            } => Some(Command::Rotate),
            _ => None,
        }
    }
}

/// The state of an editing session as plain mathematical values.
pub struct EditorState {
    pub placeholders: Seq<ComponentPlaceholder>,
    pub tags: Seq<String>,
    pub selected_component: Option<ComponentType>,
    pub pointer_cell: Cell,
    pub orientation: Orientation,
}

impl EditorState {
    /// The placement that a primary confirm would make: the selected type
    /// at the pointer's cell in the current orientation.
    pub open spec fn pending(self) -> Option<ComponentPlaceholder> {
        match self.selected_component {
            Some(t) => Some(
                ComponentPlaceholder {
                    component_type: t,
                    position: self.pointer_cell,
                    orientation: self.orientation,
                },
            ),
            None => None,
        }
    }

    /// The state after `command`.
    pub open spec fn step(self, command: Command) -> EditorState {
        match command {
            Command::PointerMove(cell) => EditorState { pointer_cell: cell, ..self },
            Command::PrimaryConfirm => match self.pending() {
                Some(p) => EditorState { placeholders: self.placeholders.push(p), ..self },
                None => self,
            },
            Command::SecondaryConfirm => if self.selected_component.is_some() {
                EditorState { selected_component: None, ..self }
            } else {
                EditorState {
                    placeholders: without_first_at(self.placeholders, self.pointer_cell),
                    ..self
                }
            },
            Command::Rotate => EditorState { orientation: self.orientation.spec_next(), ..self },
            Command::Select(t) => EditorState { selected_component: Some(t), ..self },
        }
    }

    /// The state after `event`: that after its command, or the same state
    /// where the event stands for none.
    pub open spec fn on_event(self, event: InputEvent) -> EditorState {
        match event.spec_command() {
            Some(c) => self.step(c),
            None => self,
        }
    }
}

/// An editing session: the layout being built and the editor's own state.
pub struct SpacecraftBuilderApp {
    pub spacecraft_structure: SpacecraftStructure,
    pub selected_component: Option<ComponentType>,
    pub pointer_cell: Cell,
    pub orientation: Orientation,
}

impl View for SpacecraftBuilderApp {
    type V = EditorState;

    open spec fn view(&self) -> EditorState {
        EditorState {
            placeholders: self.spacecraft_structure.component_placeholders@,
            tags: self.spacecraft_structure.tags@,
            selected_component: self.selected_component,
            pointer_cell: self.pointer_cell,
            orientation: self.orientation,
        }
    }
}

impl SpacecraftBuilderApp {
    /// A fresh session: an empty layout, nothing selected, the pointer at
    /// the origin cell, new components facing up.
    pub fn new() -> (app: SpacecraftBuilderApp)
        ensures
            app@.placeholders == Seq::<ComponentPlaceholder>::empty(),
            app@.tags == Seq::<String>::empty(),
            app@.selected_component.is_none(),
            app@.pointer_cell == (Cell { x: 0, y: 0 }),
            app@.orientation == Orientation::Up,
    {
        SpacecraftBuilderApp {
            spacecraft_structure: SpacecraftStructure::new(),
            selected_component: None,
            pointer_cell: Cell { x: 0, y: 0 },
            orientation: Orientation::Up,
        }
    }

    /// The cell that the pointer hovers.
    pub fn mouse_cell_pos(&self) -> (cell: Cell)
        ensures
            cell == self@.pointer_cell,
    {
        self.pointer_cell
    }

    /// The placement that a primary confirm would make now; none while no
    /// component type is selected.
    pub fn selected_component_as_placeholder(&self) -> (p: Option<ComponentPlaceholder>)
        ensures
            p == self@.pending(),
    {
        match self.selected_component {
            Some(component) => Some(
                ComponentPlaceholder::new(component, self.mouse_cell_pos(), self.orientation),
            ),
            None => None,
        }
    }

    /// Carries out one command.
    pub fn apply(&mut self, command: Command)
        ensures
            final(self)@ == old(self)@.step(command),
    {
        match command {
            Command::PointerMove(cell) => {
                self.pointer_cell = cell;
            },
            Command::PrimaryConfirm => {
                match self.selected_component_as_placeholder() {
                    Some(placeholder) => {
                        self.spacecraft_structure.place(placeholder);
                    },
                    None => {},
                }
            },
            Command::SecondaryConfirm => {
                if self.selected_component.is_some() {
                    self.selected_component = None;
                } else {
                    let cell = self.mouse_cell_pos();
                    let _ = self.spacecraft_structure.remove_at(cell);
                }
            },
            Command::Rotate => {
                self.orientation = self.orientation.next();
            },
            Command::Select(component) => {
                self.selected_component = Some(component);
            },
        }
    }

    /// Handles one window event. The result says whether the event is used
    /// up and must not reach the window's own handling; the editor never
    /// uses one up.
    pub fn input(&mut self, event: &InputEvent) -> (consumed: bool)
        ensures
            final(self)@ == old(self)@.on_event(*event),
            !consumed,
    {
        match event.command() {
            Some(command) => {
                self.apply(command);
            },
            None => {},
        }
        false
    }
}

/// Moving the pointer, rotating and selecting never touch the layout.
pub proof fn lemma_layout_changes_only_on_confirm(state: EditorState, command: Command)
    requires
        command != Command::PrimaryConfirm,
        command != Command::SecondaryConfirm,
    ensures
        state.step(command).placeholders == state.placeholders,
        state.step(command).tags == state.tags,
{
}

/// Rotating changes the orientation of future placements only: the
/// placements already made keep theirs.
pub proof fn lemma_rotate_keeps_placements(state: EditorState)
    ensures
        state.step(Command::Rotate).placeholders == state.placeholders,
        state.step(Command::Rotate).orientation == state.orientation.spec_next(),
        state.step(Command::Rotate).selected_component == state.selected_component,
        state.step(Command::Rotate).pointer_cell == state.pointer_cell,
{
}

/// While a type is selected, a primary confirm appends exactly one
/// placement and the selection stays; while none is, it does nothing.
pub proof fn lemma_primary_confirm(state: EditorState)
    ensures
        state.selected_component.is_none() ==> state.step(Command::PrimaryConfirm) == state,
        state.selected_component matches Some(t) ==> {
            let next = state.step(Command::PrimaryConfirm);
            &&& next.placeholders.len() == state.placeholders.len() + 1
            &&& next.placeholders.drop_last() == state.placeholders
            &&& next.placeholders.last().component_type == t
            &&& next.placeholders.last().position == state.pointer_cell
            &&& next.placeholders.last().orientation == state.orientation
            &&& next.selected_component == state.selected_component
        },
{
    if state.selected_component.is_some() {
        let next = state.step(Command::PrimaryConfirm);
        assert(next.placeholders.drop_last() =~= state.placeholders);
    }
}

/// While a type is selected, a secondary confirm only cancels the
/// selection.
pub proof fn lemma_secondary_confirm_cancels(state: EditorState)
    requires
        state.selected_component.is_some(),
    ensures
        state.step(Command::SecondaryConfirm).selected_component.is_none(),
        state.step(Command::SecondaryConfirm).placeholders == state.placeholders,
{
}

/// While idle, a secondary confirm over a free cell changes nothing, and
/// so does a second one after the first has removed the only placement
/// that stood in the cell.
pub proof fn lemma_secondary_confirm_on_free_cell(state: EditorState)
    requires
        state.selected_component.is_none(),
        forall|i: int|
            0 <= i < state.placeholders.len() ==> (#[trigger] state.placeholders[i]).position
                != state.pointer_cell,
    ensures
        state.step(Command::SecondaryConfirm) == state,
{
    assert forall|i: int| !crate::structure::is_first_at(
        state.placeholders,
        state.pointer_cell,
        i,
    ) by {
        if 0 <= i < state.placeholders.len() {
            assert(state.placeholders[i].position != state.pointer_cell);
        }
    }
    assert(first_at(state.placeholders, state.pointer_cell).is_none());
}

/// Placing a component in a free cell and then removing what stands at
/// that cell gives back the layout as it was: confirm, cancel the
/// selection, and confirm removal.
pub proof fn lemma_place_then_remove_restores(state: EditorState)
    requires
        state.selected_component.is_some(),
        forall|i: int|
            0 <= i < state.placeholders.len() ==> (#[trigger] state.placeholders[i]).position
                != state.pointer_cell,
    ensures
        state.step(Command::PrimaryConfirm).step(Command::SecondaryConfirm).step(
            Command::SecondaryConfirm,
        ).placeholders == state.placeholders,
{
    let placed = state.step(Command::PrimaryConfirm);
    let idle = placed.step(Command::SecondaryConfirm);
    let s = idle.placeholders;
    let n = state.placeholders.len() as int;
    assert(s == state.placeholders.push(state.pending().unwrap()));
    assert(crate::structure::is_first_at(s, idle.pointer_cell, n)) by {
        assert forall|j: int| 0 <= j < n implies (#[trigger] s[j]).position
            != idle.pointer_cell by {
            assert(s[j] == state.placeholders[j]);
        }
    }
    crate::structure::lemma_first_at_unique(s, idle.pointer_cell, n);
    assert(s.remove(n) =~= state.placeholders);
}

} // verus!
