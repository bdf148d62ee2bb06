//! `/skip`.

use vstd::prelude::*;
use vstd::string::StringExecFns;
use super::{plain_command, new_plain_command, CommandSpec, CommandSpecView};

verus! {

pub open spec fn skip_command() -> CommandSpecView {
    plain_command("skip"@, "Skip the current song"@)
}

/// The declaration of `/skip`.
pub fn register() -> (c: CommandSpec)
    ensures
        c@ == skip_command(),
{
    new_plain_command("skip", "Skip the current song")
}

/// What `/skip` does next.
pub enum SkipStep {
    /// Answer with `text` and touch nothing.
    Reply { text: String },
    /// Stop playback, then answer with `text`.
    StopAndReply { text: String },
    /// Try to skip to the next track.
    TrySkip,
}

/// The first step of `/skip` on a queue of `queue_len` tracks: with nothing
/// queued it only answers; with a single track it stops playback; with more
/// it tries to skip.
pub fn plan_skip(queue_len: usize) -> (step: SkipStep)
    ensures
        queue_len == 0 ==> (step matches SkipStep::Reply { text }
            && text@ == "⏭️ Nothing to skip — the queue is empty."@),
        queue_len == 1 ==> (step matches SkipStep::StopAndReply { text }
            && text@ == "⏹️ No next track queued — stopped playback."@),
        queue_len > 1 ==> step is TrySkip,
{
    if queue_len == 0 {
        SkipStep::Reply { text: String::from_str("⏭️ Nothing to skip — the queue is empty.") }
    } else if queue_len <= 1 {
        SkipStep::StopAndReply { text: String::from_str("⏹️ No next track queued — stopped playback.") }
    } else {
        SkipStep::TrySkip
    }
}

/// The step after a skip was tried: success is announced; a failure stops
/// playback and is announced with its cause.
pub fn after_skip_attempt(failure: Option<String>) -> (step: SkipStep)
    ensures
        match failure {
            None => step matches SkipStep::Reply { text } && text@ == "⏭️ Skipped to the next track."@,
            Some(e) => step matches SkipStep::StopAndReply { text }
                && text@ == "⏹️ Couldn't skip ("@ + e@ + "). Stopped playback."@,
        },
{
    match failure {
        None => SkipStep::Reply { text: String::from_str("⏭️ Skipped to the next track.") },
        Some(e) => {
            let mut text = String::from_str("⏹️ Couldn't skip (");
            text.append(e.as_str());
            text.append("). Stopped playback.");
            SkipStep::StopAndReply { text }
        },
    }
}

/// What `/skip` answers when the bot is in no call in the guild.
pub fn not_in_voice_reply() -> (r: String)
    ensures
        r@ == "❌ I'm not in a voice channel."@,
{
    String::from_str("❌ I'm not in a voice channel.")
}

} // verus!
