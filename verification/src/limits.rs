//! Central caps for user-supplied data. Each is enforced at the relevant
//! write path and rejected with a friendly message before anything is stored.

use vstd::prelude::*;

verus! {

/// Maximum number of guild-specific dungeon templates per guild. Globals
/// do not count.
pub const CUSTOM_DUNGEONS_PER_GUILD: i64 = 150;

/// Maximum reactions on a single dungeon template, all categories combined.
/// Discord caps message reactions at the same number.
pub const REACTIONS_PER_TEMPLATE: usize = 20;

/// Maximum length in bytes of a dungeon template's `name` slug.
pub const TEMPLATE_NAME_MAX: usize = 40;

/// Maximum length in characters of a dungeon template's `display_name`.
pub const DISPLAY_NAME_MAX: usize = 80;

/// Maximum length in characters of a dungeon's `message_description`.
pub const DESCRIPTION_MAX: usize = 400;

/// Maximum length in characters of a reaction's `display_name`.
pub const REACTION_DISPLAY_NAME_MAX: usize = 40;

} // verus!
