//! Joining the user's voice channel before a command runs.

use vstd::prelude::*;
use vstd::string::StringExecFns;

verus! {

/// What the bot does to be in a call before a command runs.
#[derive(Debug, Clone, Copy, PartialEq, Eq, Structural)]
pub enum AutoJoin {
    /// It is already in a call in the guild: nothing to do.
    AlreadyInCall,
    /// It joins `channel_id` in `guild_id`.
    Join { guild_id: u64, channel_id: u64 },
}

/// Why the bot cannot join before a command.
#[derive(Debug, Clone, Copy, PartialEq, Eq, Structural)]
pub enum AutoJoinError {
    DmsNotSupported,
    VoiceManagerMissing,
    GuildNotCached,
    UserNotInVoice,
}

impl AutoJoinError {
    pub open spec fn message_text(self) -> Seq<char> {
        match self {
            AutoJoinError::DmsNotSupported => "DMs not supported"@,
            AutoJoinError::VoiceManagerMissing => "Songbird voice manager not found"@,
            AutoJoinError::GuildNotCached => "guild not in cache"@,
            AutoJoinError::UserNotInVoice => "You must be in a voice channel"@,
        }
    }

    /// The error as reported.
    pub fn message(&self) -> (r: String)
        ensures
            r@ == self.message_text(),
    {
        match self {
            AutoJoinError::DmsNotSupported => String::from_str("DMs not supported"),
            AutoJoinError::VoiceManagerMissing => String::from_str("Songbird voice manager not found"),
            AutoJoinError::GuildNotCached => String::from_str("guild not in cache"),
            AutoJoinError::UserNotInVoice => String::from_str("You must be in a voice channel"),
        }
    }
}

/// Decides how the bot gets into a call before a command, checking in order:
/// a guild, the voice manager, a call already running (then nothing is to
/// be done), the guild in the cache, the user in a voice channel (`cached`
/// as in `user_voice_channel`).
pub fn plan_auto_join(
    guild_id: Option<u64>,
    manager_ready: bool,
    in_call: bool,
    cached: Option<Option<u64>>,
) -> (r: Result<AutoJoin, AutoJoinError>)
    ensures
        match guild_id {
            None => r == Err::<AutoJoin, AutoJoinError>(AutoJoinError::DmsNotSupported),
            Some(g) => if !manager_ready {
                r == Err::<AutoJoin, AutoJoinError>(AutoJoinError::VoiceManagerMissing)
            } else if in_call {
                r == Ok::<AutoJoin, AutoJoinError>(AutoJoin::AlreadyInCall)
            } else {
                match cached {
                    None => r == Err::<AutoJoin, AutoJoinError>(AutoJoinError::GuildNotCached),
                    Some(None) => r == Err::<AutoJoin, AutoJoinError>(AutoJoinError::UserNotInVoice),
                    Some(Some(c)) => r == Ok::<AutoJoin, AutoJoinError>(AutoJoin::Join { guild_id: g, channel_id: c }),
                }
            },
        },
{
    let g = match guild_id {
        None => return Err(AutoJoinError::DmsNotSupported),
        Some(g) => g,
    };
    if !manager_ready {
        return Err(AutoJoinError::VoiceManagerMissing);
    }
    if in_call {
        return Ok(AutoJoin::AlreadyInCall);
    }
    match cached {
        None => Err(AutoJoinError::GuildNotCached),
        Some(None) => Err(AutoJoinError::UserNotInVoice),
        Some(Some(c)) => Ok(AutoJoin::Join { guild_id: g, channel_id: c }),
    }
}

/// What the user is told when joining failed: `"Couldn't join voice: {cause}"`.
pub fn join_failed_reply(cause: &str) -> (r: String)
    ensures
        r@ == "Couldn't join voice: "@ + cause@,
{
    let mut s = String::from_str("Couldn't join voice: ");
    s.append(cause);
    s
}

/// The error a failed join ends with: `"join failed: {cause}"`.
pub fn join_failed_error(cause: &str) -> (r: String)
    ensures
        r@ == "join failed: "@ + cause@,
{
    let mut s = String::from_str("join failed: ");
    s.append(cause);
    s
}

} // verus!
