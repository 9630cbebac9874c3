//! What the bot stores and how it reads it, apart from the queries themselves.

pub mod dungeon;
pub mod emoji;
pub mod headcount;
pub mod loot;
pub mod models;
pub mod notification;
pub mod permission;
pub mod raid_gates;
pub mod self_organize;
pub mod tier;
pub mod verification;
