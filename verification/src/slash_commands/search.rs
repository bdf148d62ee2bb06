//! `/search`.

use vstd::prelude::*;
use vstd::string::StringExecFns;
use super::{
    command_with_string_option, new_command_with_string_option, require_guild,
    require_string_option, string_option_value, user_voice_channel, CommandError, CommandSpec,
    CommandSpecView, ReceivedOption,
};
use crate::adapters::youtube::{search_expression, search_expression_text};
use crate::text::{channel_mention, channel_mention_text};

verus! {

pub open spec fn search_command() -> CommandSpecView {
    command_with_string_option("search"@, "Use a keyword to find a song"@, "query"@, "What to search for"@)
}

/// The declaration of `/search`.
pub fn register() -> (c: CommandSpec)
    ensures
        c@ == search_command(),
{
    new_command_with_string_option("search", "Use a keyword to find a song", "query", "What to search for")
}

/// What `/search` plays: the first hit of `query` in `channel_id`.
pub struct SearchRequest {
    pub guild_id: u64,
    pub channel_id: u64,
    pub query: String,
    /// The `yt-dlp` search expression for the first hit of the query.
    pub expression: String,
}

/// The checks `/search` makes before it reaches the voice manager, in its
/// order: it needs a guild, then the `query` option, then the guild in the
/// cache, then the user in a voice channel (`cached` as in
/// `user_voice_channel`).
pub fn prepare(guild_id: Option<u64>, options: &Vec<ReceivedOption>, cached: Option<Option<u64>>) -> (r: Result<SearchRequest, CommandError>)
    ensures
        match guild_id {
            None => r matches Err(CommandError::DmsNotSupported),
            Some(g) => match string_option_value(options@, "query"@) {
                None => r matches Err(CommandError::MissingOption { name }) && name@ == "query"@,
                Some(q) => match cached {
                    None => r matches Err(CommandError::GuildNotCached),
                    Some(None) => r matches Err(CommandError::UserNotInVoice),
                    Some(Some(c)) => r matches Ok(req) && req.guild_id == g && req.channel_id == c
                        && req.query@ == q && req.expression@ == search_expression_text(q, 1),
                },
            },
        },
{
    let g = require_guild(guild_id)?;
    let query = require_string_option(options, "query")?;
    let c = user_voice_channel(cached)?;
    let expression = search_expression(query.as_str(), 1);
    Ok(SearchRequest { guild_id: g, channel_id: c, query, expression })
}

pub open spec fn queued_reply_text(query: Seq<char>, channel_id: u64) -> Seq<char> {
    "🔎 ▶️ queued first result for “"@ + query + "” in "@ + channel_mention_text(channel_id)
}

/// What `/search` answers once the hit is queued.
pub fn queued_reply(query: &str, channel_id: u64) -> (r: String)
    ensures
        r@ == queued_reply_text(query@, channel_id),
{
    let mut s = String::from_str("🔎 ▶️ queued first result for “");
    s.append(query);
    s.append("” in ");
    let m = channel_mention(channel_id);
    s.append(m.as_str());
    s
}

} // verus!
