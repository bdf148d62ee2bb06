//! The idle rule applied after each music command.

use vstd::prelude::*;
use crate::helpers::get_queue::QueueSnapshot;

verus! {

/// Seconds an idle call is kept after a music command.
pub const AFTER_COMMAND_IDLE_SECS: u64 = 5;

/// What to do with a guild's idle timer.
#[derive(Debug, Clone, Copy, PartialEq, Eq, Structural)]
pub enum IdleCommand {
    /// (Re)start the timer, to fire after `timeout_secs`.
    Arm { timeout_secs: u64 },
    /// Stop the timer.
    Disarm,
}

/// The idle rule: a queue that could be read and is idle gets a timer of
/// `timeout_secs`; in every other case the timer is stopped.
pub open spec fn idle_rule(snapshot: Option<QueueSnapshot>, timeout_secs: u64) -> IdleCommand {
    match snapshot {
        Some(s) => if s.idle() { IdleCommand::Arm { timeout_secs } } else { IdleCommand::Disarm },
        None => IdleCommand::Disarm,
    }
}

/// Applies the idle rule to a queue read (`None` when it could not be read).
pub fn idle_command(snapshot: Option<QueueSnapshot>, timeout_secs: u64) -> (c: IdleCommand)
    ensures
        c == idle_rule(snapshot, timeout_secs),
{
    match snapshot {
        Some(s) => if s.is_idle() { IdleCommand::Arm { timeout_secs } } else { IdleCommand::Disarm },
        None => IdleCommand::Disarm,
    }
}

/// After a music command has run: nothing happens outside a guild; in a
/// guild, the idle rule applies with a timeout of `AFTER_COMMAND_IDLE_SECS`.
pub fn idle_after_command(guild_id: Option<u64>, snapshot: Option<QueueSnapshot>) -> (r: Option<(u64, IdleCommand)>)
    ensures
        match guild_id {
            None => r is None,
            Some(g) => r == Some((g, idle_rule(snapshot, AFTER_COMMAND_IDLE_SECS))),
        },
{
    match guild_id {
        None => None,
        Some(g) => Some((g, idle_command(snapshot, AFTER_COMMAND_IDLE_SECS))),
    }
}

} // verus!
