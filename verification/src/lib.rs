//! An editable-document core for an image editor: a current image, a
//! single-slot holder for the next requested edit, and two bounded history
//! stacks that give linear undo and redo over whole-image snapshots.

pub mod image_data;
pub mod ops;
pub mod history;
pub mod errors;
pub mod transforms;
pub mod editor;
pub mod laws;
