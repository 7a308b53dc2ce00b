//! What the bot's commands say and how they read what users write.

use vstd::prelude::*;

pub mod blackbox;
pub mod locale;
pub mod protip;
pub mod words;

verus! {

/// Which mentions are made harmless in a command's text before it is read.
#[derive(Debug, Clone, Copy, PartialEq, Eq, Structural)]
pub struct SafetySettings {
    /// Whether mentions of channels are replaced by the channels' names.
    pub clean_channel: bool,
    /// Whether mentions of roles are replaced by the roles' names.
    pub clean_role: bool,
    /// The guild whose member names stand for mentions of users, if any.
    pub display_as_member_from: Option<u64>,
}

/// The settings for a message from the guild `guild_id`, or from no guild.
pub open spec fn settings_for(guild_id: Option<u64>) -> SafetySettings {
    match guild_id {
        Some(guild_id) => SafetySettings {
            clean_channel: false,
            clean_role: true,
            display_as_member_from: Some(guild_id),
        },
        None => SafetySettings {
            clean_channel: false,
            clean_role: false,
            display_as_member_from: None,
        },
    }
}

/// Chooses the settings for a message: channel mentions always stay; in a
/// guild, users are shown under their member names and role mentions are
/// cleaned; outside a guild role mentions stay too.
pub fn make_settings(guild_id: Option<u64>) -> (settings: SafetySettings)
    ensures
        settings == settings_for(guild_id),
{
    match guild_id {
        Some(guild_id) => SafetySettings {
            clean_channel: false,
            clean_role: true,
            display_as_member_from: Some(guild_id),
        },
        None => SafetySettings {
            clean_channel: false,
            clean_role: false,
            display_as_member_from: None,
        },
    }
}

} // verus!
