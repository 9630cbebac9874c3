//! The RealmEye wiki scraper: what is read off the wiki pages, and which
//! application emojis and rows follow from it.

pub mod drops_section;
pub mod html;
pub mod names;
pub mod run;
pub mod scrape;
pub mod sections;
pub mod session;
