//! Interaction rules of a diagramming board: gesture recognition on nodes,
//! arrow connection, resize handles, text editing, document and tab removal,
//! and the conversion of clipboard images into pixel buffers.

pub mod arrows;
pub mod clipboard;
pub mod documents;
pub mod gesture;
pub mod state;
pub mod text;
