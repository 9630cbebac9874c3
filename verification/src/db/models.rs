//! The rows that the bot stores. Points in time are in microseconds since 1970.

use vstd::prelude::*;

verus! {

/// A server that uses the bot.
#[derive(Debug)]
pub struct Guild {
    /// Id of the server.
    pub guild_id: i64,
    /// Channel that audit events are posted to.
    pub log_channel_id: Option<i64>,
    /// User who bypasses every permission check.
    pub superadmin_user_id: Option<i64>,
    /// Whether the setup wizard was finished.
    pub setup_complete: bool,
    /// Name of the lowest bag tier that runs show loot of.
    pub loot_tier_threshold: String,
    /// Role that verified members get.
    pub verified_role_id: Option<i64>,
    /// Channel of the Verify button.
    pub verify_channel_id: Option<i64>,
    /// Message of the Verify button.
    pub verify_message_id: Option<i64>,
    /// When the row was made.
    pub created_at: i64,
    /// When the row was last changed.
    pub updated_at: i64,
}

/// A section of a server's raids.
#[derive(Debug)]
pub struct Tier {
    /// Id of the tier.
    pub id: i32,
    /// Server that it belongs to.
    pub guild_id: i64,
    /// Name.
    pub name: String,
    /// What it is for.
    pub description: Option<String>,
    /// Channel that headcounts and runs are posted to.
    pub runs_channel_id: Option<i64>,
    /// Whether the tier has a "Start a run" button and a list of active raids.
    pub enable_start_run_ui: bool,
    /// Channel of that button and list.
    pub start_run_ui_channel_id: Option<i64>,
    /// Message of that button.
    pub start_run_ui_button_message_id: Option<i64>,
    /// Message of that list.
    pub start_run_ui_listing_message_id: Option<i64>,
    /// Age in minutes beyond which a headcount may be displaced.
    pub hc_idle_minutes: i32,
    /// Seconds during which a leader who cancelled cannot start another headcount.
    pub hc_cancel_cooldown_seconds: i32,
    /// How many people must react before a headcount becomes a run.
    pub hc_min_reactors: i32,
    /// When the row was made.
    pub created_at: i64,
}

/// A dungeon that raids can go to.
#[derive(Debug)]
pub struct DungeonTemplate {
    /// Id of the template.
    pub id: i32,
    /// Server that it belongs to; all servers share it where there is none.
    pub guild_id: Option<i64>,
    /// Logical name.
    pub name: String,
    /// Name as shown.
    pub display_name: String,
    /// Logical name of its emoji.
    pub emoji: Option<String>,
    /// Colour of its embeds.
    pub color: Option<i32>,
    /// Heading of its embeds.
    pub message_title: Option<String>,
    /// Text of its embeds.
    pub message_description: Option<String>,
    /// Address of its small image.
    pub thumbnail_url: Option<String>,
    /// Address of its large image.
    pub image_url: Option<String>,
    /// Whether its runs need a voice channel.
    pub requires_vc: bool,
    /// Logical names of the emojis of its drops.
    pub showcase_emoji: Vec<String>,
    /// When the row was made.
    pub created_at: i64,
}

/// Something that raiders can bring to a dungeon.
#[derive(Debug)]
pub struct DungeonReaction {
    /// Id of the reaction.
    pub id: i32,
    /// Template that it belongs to.
    pub dungeon_template_id: i32,
    /// Name.
    pub name: String,
    /// Name as shown.
    pub display_name: String,
    /// Logical name of its emoji, or a Unicode emoji.
    pub emoji: String,
    /// How many of it a run needs.
    pub num_required: i32,
    /// Whether who brings it must confirm.
    pub requires_confirmation: bool,
    /// Place among the template's reactions.
    pub sort_order: i32,
}

/// A kind of loot bag.
#[derive(Debug)]
pub struct BagTier {
    /// Name, which is its colour.
    pub name: String,
    /// Place among the tiers, the most valuable last.
    pub sort_order: i32,
    /// Unicode emoji that stands for it.
    pub default_emoji: String,
}

/// An emoji that was uploaded to Discord.
#[derive(Debug)]
pub struct BotEmoji {
    /// Id of the row.
    pub id: i32,
    /// Logical name.
    pub logical_name: String,
    /// Id on Discord.
    pub discord_emoji_id: i64,
    /// Name on Discord.
    pub name_on_discord: String,
    /// Whether it moves.
    pub animated: bool,
    /// Server that hosts it.
    pub source_guild_id: Option<i64>,
    /// Category label.
    pub category: Option<String>,
    /// Address of its image on the wiki.
    pub realmeye_url: Option<String>,
    /// When it was uploaded.
    pub uploaded_at: i64,
    /// Name of the bag tier that the item drops in.
    pub bag_tier: Option<String>,
}

/// A role may do something.
#[derive(Debug)]
pub struct Permission {
    /// Id of the row.
    pub id: i32,
    /// Server that it belongs to.
    pub guild_id: i64,
    /// The role.
    pub role_id: i64,
    /// What the role may do.
    pub action: String,
    /// Tier that it is limited to.
    pub tier_id: Option<i32>,
    /// Dungeon that it is limited to.
    pub dungeon_template_id: Option<i32>,
}

/// A headcount that waits for its leader to start or cancel it.
#[derive(Debug)]
pub struct Headcount {
    /// Id of the headcount.
    pub id: i32,
    /// Server that it belongs to.
    pub guild_id: i64,
    /// Tier that it belongs to.
    pub tier_id: i32,
    /// Dungeon that it is for.
    pub dungeon_template_id: i32,
    /// Channel of its message.
    pub channel_id: i64,
    /// Its message.
    pub message_id: i64,
    /// Who leads it.
    pub leader_user_id: i64,
    /// Where the party meets.
    pub location: Option<String>,
    /// Who the party is.
    pub party: Option<String>,
    /// When it was opened.
    pub created_at: i64,
}

/// A member who was given a code and has not shown it yet.
#[derive(Debug)]
pub struct PendingVerification {
    /// Server.
    pub guild_id: i64,
    /// Member.
    pub discord_user_id: i64,
    /// In-game name that the member claims.
    pub claimed_ign: String,
    /// The code.
    pub code: String,
    /// When the code ends.
    pub expires_at: i64,
    /// When the row was made.
    pub created_at: i64,
}

/// A member whose in-game name is known.
#[derive(Debug)]
pub struct VerifiedUser {
    /// Server.
    pub guild_id: i64,
    /// Member.
    pub discord_user_id: i64,
    /// In-game name.
    pub realmeye_ign: String,
    /// When it was verified.
    pub verified_at: i64,
    /// Who verified it by hand.
    pub verified_by: Option<i64>,
}

/// A run that is under way.
#[derive(Debug)]
pub struct Run {
    /// Id of the run.
    pub id: i32,
    /// Server that it belongs to.
    pub guild_id: i64,
    /// Tier that it belongs to.
    pub tier_id: i32,
    /// Dungeon that it is for.
    pub dungeon_template_id: i32,
    /// Channel of its message.
    pub channel_id: i64,
    /// Its message.
    pub message_id: i64,
    /// Who leads it.
    pub leader_user_id: i64,
    /// Where the party meets.
    pub location: Option<String>,
    /// Who the party is.
    pub party: Option<String>,
    /// Its voice channel.
    pub voice_channel_id: Option<i64>,
    /// Whether it needs a voice channel.
    pub is_vc_raid: bool,
    /// When it was started.
    pub created_at: i64,
}

/// Someone who takes part in a run.
#[derive(Debug, Clone, Copy)]
pub struct Participant {
    /// Who.
    pub user_id: i64,
    /// What they bring.
    pub dungeon_reaction_id: Option<i32>,
    /// Whether they confirmed it.
    pub confirmed: bool,
}

} // verus!
