//! What the bot says of itself, and whom it obeys.

use crate::text::{decimal, push_decimal};
use vstd::prelude::*;

verus! {

/// The name of the environment variable that holds the bot's token.
pub const TOKEN_NAME: &'static str = "JANOSIK_TOKEN";

/// What starts a command.
pub const COMMAND_PREFIX: &'static str = "!";

/// The version as the bot shows it: after a `v`.
pub open spec fn version_text(version: Seq<char>) -> Seq<char> {
    "v"@ + version
}

/// The notice to one who asks too often, with the seconds left to wait.
pub open spec fn rate_limit_text(seconds: u64) -> Seq<char> {
    "Try this again in "@ + decimal(seconds as nat) + " seconds."@
}

/// The complaint about a missing token.
pub open spec fn missing_token_text() -> Seq<char> {
    "Variable "@ + TOKEN_NAME@ + " is not present in the environment!"@
}

/// The one whom the bot obeys: the owner of the team where the application
/// belongs to a team, else the owner of the application.
pub open spec fn owner_of(team_owner: Option<u64>, application_owner: u64) -> u64 {
    match team_owner {
        Some(team_owner) => team_owner,
        None => application_owner,
    }
}

/// The version as the bot shows it while it is connected.
pub fn version_label(version: &str) -> (label: String)
    ensures
        label@ == version_text(version@),
{
    let mut label = String::from_str("v");
    label.append(version);
    label
}

/// Tells one who asks too often when to try again.
pub fn rate_limit_notice(seconds: u64) -> (notice: String)
    ensures
        notice@ == rate_limit_text(seconds),
{
    let mut notice = String::from_str("Try this again in ");
    push_decimal(&mut notice, seconds);
    notice.append(" seconds.");
    notice
}

/// Says that the environment holds no token.
pub fn missing_token_message() -> (message: String)
    ensures
        message@ == missing_token_text(),
{
    let mut message = String::from_str("Variable ");
    message.append(TOKEN_NAME);
    message.append(" is not present in the environment!");
    message
}

/// Picks the bot's owner.
pub fn owner(team_owner: Option<u64>, application_owner: u64) -> (owner: u64)
    ensures
        owner == owner_of(team_owner, application_owner),
{
    match team_owner {
        Some(team_owner) => team_owner,
        None => application_owner,
    }
}

} // verus!
