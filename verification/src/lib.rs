//! Grid-based spacecraft layout editor: the component catalog, the layout
//! model with its validity and material accounting, the editing session that
//! turns input events into layout changes, and the plain-value description of
//! each frame that a renderer draws.

pub mod accounting;
pub mod catalog;
pub mod connectivity;
pub mod editor;
pub mod orientation;
pub mod placeholder;
pub mod render;
pub mod structure;
pub mod textures;
pub mod validity;
