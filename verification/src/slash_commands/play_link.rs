//! `/play_link`.

use vstd::prelude::*;
use vstd::string::StringExecFns;
use super::{
    command_with_string_option, new_command_with_string_option, require_guild,
    require_string_option, string_option_value, user_voice_channel, CommandError, CommandSpec,
    CommandSpecView, ReceivedOption,
};
use crate::text::{channel_mention, channel_mention_text};

verus! {

pub open spec fn play_link_command() -> CommandSpecView {
    command_with_string_option("play_link"@, "Queue audio by URL"@, "url"@, "Direct media/YouTube URL"@)
}

/// The declaration of `/play_link`.
pub fn register() -> (c: CommandSpec)
    ensures
        c@ == play_link_command(),
{
    new_command_with_string_option("play_link", "Queue audio by URL", "url", "Direct media/YouTube URL")
}

/// What `/play_link` queues: `url` in `channel_id`.
pub struct PlayLinkRequest {
    pub guild_id: u64,
    pub channel_id: u64,
    pub url: String,
}

/// The checks `/play_link` makes before it reaches the voice manager, in its
/// order: it needs a guild, then the guild in the cache, then the user in a
/// voice channel (`cached` as in `user_voice_channel`), then the `url`
/// option.
pub fn prepare(guild_id: Option<u64>, cached: Option<Option<u64>>, options: &Vec<ReceivedOption>) -> (r: Result<PlayLinkRequest, CommandError>)
    ensures
        match guild_id {
            None => r matches Err(CommandError::DmsNotSupported),
            Some(g) => match cached {
                None => r matches Err(CommandError::GuildNotCached),
                Some(None) => r matches Err(CommandError::UserNotInVoice),
                Some(Some(c)) => match string_option_value(options@, "url"@) {
                    None => r matches Err(CommandError::MissingOption { name }) && name@ == "url"@,
                    Some(u) => r matches Ok(req) && req.guild_id == g && req.channel_id == c && req.url@ == u,
                },
            },
        },
{
    let g = require_guild(guild_id)?;
    let c = user_voice_channel(cached)?;
    let url = require_string_option(options, "url")?;
    Ok(PlayLinkRequest { guild_id: g, channel_id: c, url })
}

pub open spec fn queued_reply_text(url: Seq<char>, channel_id: u64) -> Seq<char> {
    "▶️ queued: "@ + url + " in "@ + channel_mention_text(channel_id)
}

/// What `/play_link` answers once the URL is queued.
pub fn queued_reply(url: &str, channel_id: u64) -> (r: String)
    ensures
        r@ == queued_reply_text(url@, channel_id),
{
    let mut s = String::from_str("▶️ queued: ");
    s.append(url);
    s.append(" in ");
    let m = channel_mention(channel_id);
    s.append(m.as_str());
    s
}

} // verus!
