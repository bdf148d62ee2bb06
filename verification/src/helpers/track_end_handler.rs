//! The idle rule applied when a track ends.

use vstd::prelude::*;
use crate::helpers::get_queue::QueueSnapshot;
use crate::middleware::idle::{idle_command, idle_rule, IdleCommand};

verus! {

/// Seconds an idle call is kept after its last track ended.
pub const AFTER_TRACK_IDLE_SECS: u64 = 300;

/// When a track ends, the idle rule applies with a timeout of
/// `AFTER_TRACK_IDLE_SECS`.
pub fn idle_after_track_end(snapshot: Option<QueueSnapshot>) -> (c: IdleCommand)
    ensures
        c == idle_rule(snapshot, AFTER_TRACK_IDLE_SECS),
{
    idle_command(snapshot, AFTER_TRACK_IDLE_SECS)
}

} // verus!
