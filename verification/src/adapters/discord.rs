//! How the bot dispatches a slash command it receives.

use vstd::prelude::*;
use crate::text::same_text;

verus! {

/// The handler a slash command goes to.
#[derive(Debug, Clone, Copy, PartialEq, Eq, Structural)]
pub enum SlashRoute {
    Ping,
    Status,
    Search,
    PlayLink,
    Skip,
    /// A command the bot does not handle: nothing runs.
    Unknown,
}

/// How a received command is handled.
#[derive(Debug, Clone, Copy, PartialEq, Eq, Structural)]
pub struct InteractionPlan {
    /// Join the user's voice channel first; if that fails, stop there.
    pub join_first: bool,
    /// The handler.
    pub route: SlashRoute,
    /// Apply the idle rule once the handler is done.
    pub idle_after: bool,
}

pub open spec fn route_of(name: Seq<char>) -> SlashRoute {
    if name == "ping"@ {
        SlashRoute::Ping
    } else if name == "status"@ {
        SlashRoute::Status
    } else if name == "search"@ {
        SlashRoute::Search
    } else if name == "play_link"@ {
        SlashRoute::PlayLink
    } else if name == "skip"@ {
        SlashRoute::Skip
    } else {
        SlashRoute::Unknown
    }
}

/// How the command `name` is handled: every command but `/ping` first joins
/// the user's voice channel (unknown ones too); `/search` and `/play_link`
/// are followed by the idle rule.
pub open spec fn plan_of(name: Seq<char>) -> InteractionPlan {
    let route = route_of(name);
    InteractionPlan {
        join_first: name != "ping"@,
        route,
        idle_after: route == SlashRoute::Search || route == SlashRoute::PlayLink,
    }
}

/// The handler of the command `name`.
pub fn route_command(name: &str) -> (r: SlashRoute)
    ensures
        r == route_of(name@),
{
    if same_text(name, "ping") {
        SlashRoute::Ping
    } else if same_text(name, "status") {
        SlashRoute::Status
    } else if same_text(name, "search") {
        SlashRoute::Search
    } else if same_text(name, "play_link") {
        SlashRoute::PlayLink
    } else if same_text(name, "skip") {
        SlashRoute::Skip
    } else {
        SlashRoute::Unknown
    }
}

/// How the command `name` is handled.
pub fn plan_interaction(name: &str) -> (p: InteractionPlan)
    ensures
        p == plan_of(name@),
{
    let route = route_command(name);
    let idle_after = match route {
        SlashRoute::Search => true,
        SlashRoute::PlayLink => true,
        _ => false,
    };
    InteractionPlan { join_first: !same_text(name, "ping"), route, idle_after }
}

} // verus!
