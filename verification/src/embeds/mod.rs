//! The embeds of headcounts and runs.

pub mod headcount;
pub mod listing;
pub mod loot_fields;
pub mod run;
