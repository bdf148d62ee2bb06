//! `/join`.

use vstd::prelude::*;
use vstd::string::StringExecFns;
use super::{
    plain_command, new_plain_command, require_guild, user_voice_channel, CommandError,
    CommandSpec, CommandSpecView,
};
use crate::text::{channel_mention, channel_mention_text};

verus! {

pub open spec fn join_command() -> CommandSpecView {
    plain_command("join"@, "Join current voice channel"@)
}

/// The declaration of `/join`.
pub fn register() -> (c: CommandSpec)
    ensures
        c@ == join_command(),
{
    new_plain_command("join", "Join current voice channel")
}

/// The checks `/join` makes before joining, in its order: it needs a
/// guild, then the guild in the cache, then the user in a voice channel
/// (`cached` as in `user_voice_channel`). On success, the guild and the
/// channel to join.
pub fn prepare(guild_id: Option<u64>, cached: Option<Option<u64>>) -> (r: Result<(u64, u64), CommandError>)
    ensures
        match guild_id {
            None => r matches Err(CommandError::DmsNotSupported),
            Some(g) => match cached {
                None => r matches Err(CommandError::GuildNotCached),
                Some(None) => r matches Err(CommandError::UserNotInVoice),
                Some(Some(c)) => r == Ok::<(u64, u64), CommandError>((g, c)),
            },
        },
{
    let g = require_guild(guild_id)?;
    let c = user_voice_channel(cached)?;
    Ok((g, c))
}

pub open spec fn join_reply_text(channel_id: u64, failure: Option<Seq<char>>) -> Seq<char> {
    match failure {
        None => "Joined "@ + channel_mention_text(channel_id),
        Some(e) => "Couldn't join: "@ + e,
    }
}

/// What `/join` answers: the channel joined, or why joining failed.
pub fn join_reply(channel_id: u64, failure: Option<String>) -> (r: String)
    ensures
        r@ == join_reply_text(channel_id, match failure { Some(e) => Some(e@), None => None }),
{
    match failure {
        None => {
            let mut s = String::from_str("Joined ");
            let m = channel_mention(channel_id);
            s.append(m.as_str());
            s
        },
        Some(e) => {
            let mut s = String::from_str("Couldn't join: ");
            s.append(e.as_str());
            s
        },
    }
}

} // verus!
