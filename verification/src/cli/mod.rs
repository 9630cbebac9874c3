//! The rules behind the command-line tools.

pub mod curate;
pub mod curating;
pub mod sync_wiki;
pub mod upload_emoji;
