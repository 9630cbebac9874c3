//! Editing a dungeon: the form that makes one, the editor, and what each click and
//! form of the editor changes. Every change is stored at once.

pub mod color;
pub mod forms;
pub mod reactions;
pub mod view;
