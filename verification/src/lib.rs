//! Raid coordination for Realm of the Mad God guilds: the rules behind the
//! headcounts, runs, verification and wiki scraping of a Discord bot.

pub mod cli;
pub mod clock;
pub mod commands;
pub mod config;
pub mod curation;
pub mod db;
pub mod embeds;
pub mod gates;
pub mod handlers;
pub mod limits;
pub mod mention;
pub mod name_map;
pub mod picture;
pub mod startup;
pub mod templates;
pub mod text;
pub mod ui;
pub mod unicode;
