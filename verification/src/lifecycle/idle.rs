//! Idle timers: per guild, at most one pending timer after which the bot
//! leaves the voice call if it is still idle.

use vstd::prelude::*;
use std::collections::HashMap;
use crate::helpers::get_queue::QueueSnapshot;
use crate::middleware::idle::{idle_rule, IdleCommand};

verus! {

broadcast use vstd::std_specs::hash::group_hash_axioms;

/// The pending idle timers, one handle `H` per guild id.
pub struct IdleManager<H> {
    tasks: HashMap<u64, H>,
}

impl<H> View for IdleManager<H> {
    type V = Map<u64, H>;

    closed spec fn view(&self) -> Map<u64, H> {
        self.tasks@
    }
}

/// What the bot does when an idle timer runs out.
#[derive(Debug, Clone, Copy, PartialEq, Eq, Structural)]
pub struct IdleTimeoutAction {
    /// Leave the guild's voice call.
    pub leave_voice: bool,
    /// Drop the guild's timer from the manager.
    pub forget_timer: bool,
}

/// What an expired idle timer does, given the guild's queue as read when it
/// fired (`None` when it could not be read): leaving needs a queue that is
/// still idle; the timer is forgotten whenever the queue could be read, and
/// kept when it could not.
pub open spec fn timeout_action(snapshot: Option<QueueSnapshot>) -> IdleTimeoutAction {
    IdleTimeoutAction {
        leave_voice: snapshot matches Some(s) && s.idle(),
        forget_timer: snapshot is Some,
    }
}

/// Decides what an expired idle timer does.
pub fn on_idle_timeout(snapshot: Option<QueueSnapshot>) -> (a: IdleTimeoutAction)
    ensures
        a == timeout_action(snapshot),
{
    match snapshot {
        None => IdleTimeoutAction { leave_voice: false, forget_timer: false },
        Some(s) => IdleTimeoutAction { leave_voice: s.is_idle(), forget_timer: true },
    }
}

impl<H> IdleManager<H> {
    /// A manager with no timer.
    pub fn new() -> (m: Self)
        ensures
            m@ == Map::<u64, H>::empty(),
    {
        IdleManager { tasks: HashMap::new() }
    }

    /// Whether the guild has a pending timer.
    pub fn is_armed(&self, guild_id: u64) -> (r: bool)
        ensures
            r == self@.contains_key(guild_id),
    {
        self.tasks.contains_key(&guild_id)
    }

    /// Records `handle` as the guild's timer. The timer it replaces, if any,
    /// is handed back so that the caller can stop it; other guilds keep
    /// theirs.
    pub fn arm(&mut self, guild_id: u64, handle: H) -> (previous: Option<H>)
        ensures
            final(self)@ == old(self)@.insert(guild_id, handle),
            match previous {
                Some(p) => old(self)@.contains_key(guild_id) && p == old(self)@[guild_id],
                None => !old(self)@.contains_key(guild_id),
            },
    {
        self.tasks.insert(guild_id, handle)
    }

    /// Drops the guild's timer and hands it back, so that the caller can stop
    /// it; other guilds keep theirs.
    pub fn disarm(&mut self, guild_id: u64) -> (removed: Option<H>)
        ensures
            final(self)@ == old(self)@.remove(guild_id),
            match removed {
                Some(p) => old(self)@.contains_key(guild_id) && p == old(self)@[guild_id],
                None => !old(self)@.contains_key(guild_id),
            },
    {
        self.tasks.remove(&guild_id)
    }
}

/// A timer is armed exactly for the queues on which, read again unchanged
/// when the timer fires, the bot leaves the call.
pub proof fn law_armed_timer_leaves_if_still_idle(s: QueueSnapshot, timeout_secs: u64)
    ensures
        (idle_rule(Some(s), timeout_secs) is Arm) == timeout_action(Some(s)).leave_voice,
{
}

/// Arming a guild and then disarming it hands back the handle just armed,
/// and leaves the timers as disarming alone would; in between, the guild's
/// timer is that handle, and every other guild keeps its own.
pub proof fn law_disarm_after_arm<H>(timers: Map<u64, H>, guild_id: u64, handle: H)
    ensures
        timers.insert(guild_id, handle).contains_key(guild_id),
        timers.insert(guild_id, handle)[guild_id] == handle,
        timers.insert(guild_id, handle).remove(guild_id) == timers.remove(guild_id),
        forall|other: u64| other != guild_id ==> (
            #[trigger] timers.insert(guild_id, handle).contains_key(other) == timers.contains_key(other)
            && timers.insert(guild_id, handle).remove(guild_id).contains_key(other) == timers.contains_key(other)),
        forall|other: u64| other != guild_id && timers.contains_key(other) ==>
            #[trigger] timers.insert(guild_id, handle)[other] == timers[other],
{
    assert(timers.insert(guild_id, handle).remove(guild_id) =~= timers.remove(guild_id));
}

/// A queue that holds a track, has one playing, or belongs to no call is
/// never treated as idle: its timer is stopped, and an expired timer reading
/// it does not make the bot leave.
pub proof fn law_busy_queue_keeps_the_bot(s: QueueSnapshot, timeout_secs: u64)
    requires
        s.queue_len > 0 || s.is_playing || !s.in_voice,
    ensures
        idle_rule(Some(s), timeout_secs) == IdleCommand::Disarm,
        !timeout_action(Some(s)).leave_voice,
{
}

/// A call with nothing queued and nothing playing gets a timer of the
/// given length, and an expired timer reading it makes the bot leave.
pub proof fn law_silent_call_is_left(s: QueueSnapshot, timeout_secs: u64)
    requires
        s.in_voice,
        s.queue_len == 0,
        !s.is_playing,
    ensures
        idle_rule(Some(s), timeout_secs) == (IdleCommand::Arm { timeout_secs: timeout_secs }),
        timeout_action(Some(s)).leave_voice,
        timeout_action(Some(s)).forget_timer,
{
}

} // verus!
