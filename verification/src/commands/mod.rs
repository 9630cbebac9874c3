//! The rules behind the slash commands.

pub mod autocomplete;
pub mod config;
pub mod dungeon;
pub mod headcount;
pub mod permission;
pub mod pingroles;
pub mod setup;
pub mod sync_wiki;
pub mod tier;
pub mod upload_emoji;
pub mod verify;
