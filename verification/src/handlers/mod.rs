//! What buttons, menus and forms lead to.

pub mod dungeon_edit;
pub mod headcount;
pub mod inputs;
pub mod profile;
pub mod routing;
pub mod run;
pub mod self_organize;
pub mod verify;
