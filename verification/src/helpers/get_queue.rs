//! What the bot knows of a guild's voice call and its queue.

use vstd::prelude::*;

verus! {

/// The state of a guild's queue at one moment.
#[derive(Debug, Clone, Copy, PartialEq, Eq, Structural)]
pub struct QueueSnapshot {
    /// The bot is in a voice call in the guild.
    pub in_voice: bool,
    /// Number of tracks in the queue, the playing one included.
    pub queue_len: usize,
    /// A track is playing.
    pub is_playing: bool,
}

/// The queue of a call the bot is in: its length and whether it has a
/// current track.
#[derive(Debug, Clone, Copy, PartialEq, Eq, Structural)]
pub struct CallQueue {
    pub len: usize,
    pub has_current: bool,
}

impl QueueSnapshot {
    /// The snapshot of a guild: outside a call, nothing is queued or playing;
    /// inside one, the call's queue is described.
    pub fn of_call(call: Option<CallQueue>) -> (s: QueueSnapshot)
        ensures
            match call {
                None => !s.in_voice && s.queue_len == 0 && !s.is_playing,
                Some(q) => s.in_voice && s.queue_len == q.len && s.is_playing == q.has_current,
            },
    {
        match call {
            None => QueueSnapshot { in_voice: false, queue_len: 0, is_playing: false },
            Some(q) => QueueSnapshot { in_voice: true, queue_len: q.len, is_playing: q.has_current },
        }
    }

    pub open spec fn idle(self) -> bool {
        self.in_voice && self.queue_len == 0 && !self.is_playing
    }

    /// The bot sits in a call with nothing queued and nothing playing.
    pub fn is_idle(&self) -> (r: bool)
        ensures
            r == self.idle(),
    {
        self.in_voice && self.queue_len == 0 && !self.is_playing
    }
}

} // verus!
