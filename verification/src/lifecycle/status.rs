//! The bot's lifecycle status: its phase, the last error it met, and the
//! report that `/status` shows.

use vstd::prelude::*;
use vstd::string::StringExecFns;
use crate::text::{decimal, push_decimal};
use crate::adapters::youtube::{lemma_decimal_reads_back, parse_u64};

verus! {

/// The phase of the bot's life.
#[derive(Debug, Clone, Copy, PartialEq, Eq, Structural)]
pub enum Phase {
    Starting,
    Ready,
    Errored,
    ShuttingDown,
}

impl Phase {
    /// The name under which a phase is shown.
    pub open spec fn name(self) -> Seq<char> {
        match self {
            Phase::Starting => "starting"@,
            Phase::Ready => "ready"@,
            Phase::Errored => "errored"@,
            Phase::ShuttingDown => "shutting_down"@,
        }
    }

    /// The name under which a phase is shown.
    pub fn as_str(&self) -> (s: &'static str)
        ensures
            s@ == self.name(),
    {
        match self {
            Phase::Starting => "starting",
            Phase::Ready => "ready",
            Phase::Errored => "errored",
            Phase::ShuttingDown => "shutting_down",
        }
    }
}

/// What the bot knows of its own state: its phase and the last error.
pub struct BotStatus {
    pub phase: Phase,
    pub last_error: Option<String>,
}

/// The status as plain values.
pub struct BotStatusView {
    pub phase: Phase,
    pub last_error: Option<Seq<char>>,
}

impl View for BotStatus {
    type V = BotStatusView;

    open spec fn view(&self) -> BotStatusView {
        BotStatusView { phase: self.phase, last_error: opt_view(self.last_error) }
    }
}

/// One of the three basic changes to the status.
pub enum StatusUpdate {
    SetPhase(Phase),
    SetError(Seq<char>),
    ClearError,
}

/// The status after one change.
pub open spec fn apply_update(s: BotStatusView, u: StatusUpdate) -> BotStatusView {
    match u {
        StatusUpdate::SetPhase(p) => BotStatusView { phase: p, last_error: s.last_error },
        StatusUpdate::SetError(e) => BotStatusView { phase: s.phase, last_error: Some(e) },
        StatusUpdate::ClearError => BotStatusView { phase: s.phase, last_error: None },
    }
}

/// The status after a sequence of changes, made in order.
pub open spec fn apply_updates(s: BotStatusView, us: Seq<StatusUpdate>) -> BotStatusView
    decreases us.len(),
{
    if us.len() == 0 {
        s
    } else {
        apply_update(apply_updates(s, us.drop_last()), us.last())
    }
}

/// The status the bot starts in.
pub open spec fn initial_status() -> BotStatusView {
    BotStatusView { phase: Phase::Starting, last_error: None }
}

/// The change at `i` is the last one that sets the phase.
pub open spec fn last_phase_change_at(us: Seq<StatusUpdate>, i: int) -> bool {
    &&& 0 <= i < us.len()
    &&& us[i] is SetPhase
    &&& forall|j: int| i < j < us.len() ==> !(#[trigger] us[j] is SetPhase)
}

/// The change at `i` is the last one that sets or clears the error.
pub open spec fn last_error_change_at(us: Seq<StatusUpdate>, i: int) -> bool {
    &&& 0 <= i < us.len()
    &&& !(us[i] is SetPhase)
    &&& forall|j: int| i < j < us.len() ==> #[trigger] us[j] is SetPhase
}

/// A copy of the status at one moment, with the time the bot has been up.
pub struct BotStatusSnapshot {
    pub phase: Phase,
    pub last_error: Option<String>,
    pub uptime_secs: u64,
}

/// The hours, minutes and seconds of an uptime, the way `uptime_human`
/// shows them: `"{h}h {m}m {s}s"`, `"{m}m {s}s"` or `"{s}s"`, leaving out
/// leading units that are zero.
pub open spec fn uptime_text(secs: nat) -> Seq<char> {
    let h = secs / 3600;
    let m = (secs % 3600) / 60;
    let s = secs % 60;
    if h > 0 {
        decimal(h) + "h "@ + decimal(m) + "m "@ + decimal(s) + "s"@
    } else if m > 0 {
        decimal(m) + "m "@ + decimal(s) + "s"@
    } else {
        decimal(s) + "s"@
    }
}

/// The text `/status` answers with.
pub open spec fn status_report_text(phase: Phase, uptime_secs: nat, last_error: Option<Seq<char>>) -> Seq<char> {
    let err = match last_error {
        Some(e) => e,
        None => "none"@,
    };
    "**Bot status**\nphase: `"@ + phase.name() + "`\nuptime: `"@ + uptime_text(uptime_secs)
        + "`\nlast error: `"@ + err + "`"@
}

pub open spec fn opt_view(o: Option<String>) -> Option<Seq<char>> {
    match o {
        Some(s) => Some(s@),
        None => None,
    }
}

impl BotStatusSnapshot {
    /// The uptime in a short human form such as `"1h 2m 3s"`.
    pub fn uptime_human(&self) -> (r: String)
        ensures
            r@ == uptime_text(self.uptime_secs as nat),
    {
        let secs = self.uptime_secs;
        let h = secs / 3600;
        let m = (secs % 3600) / 60;
        let s = secs % 60;
        let mut out = String::new();
        if h > 0 {
            push_decimal(&mut out, h);
            out.append("h ");
            push_decimal(&mut out, m);
            out.append("m ");
            push_decimal(&mut out, s);
            out.append("s");
        } else if m > 0 {
            push_decimal(&mut out, m);
            out.append("m ");
            push_decimal(&mut out, s);
            out.append("s");
        } else {
            push_decimal(&mut out, s);
            out.append("s");
        }
        out
    }

    /// The report `/status` shows: phase, uptime and last error (or `none`).
    pub fn status_report(&self) -> (r: String)
        ensures
            r@ == status_report_text(self.phase, self.uptime_secs as nat, opt_view(self.last_error)),
    {
        let mut out = String::new();
        out.append("**Bot status**\nphase: `");
        out.append(self.phase.as_str());
        out.append("`\nuptime: `");
        let up = self.uptime_human();
        out.append(up.as_str());
        out.append("`\nlast error: `");
        match &self.last_error {
            Some(e) => out.append(e.as_str()),
            None => out.append("none"),
        }
        out.append("`");
        out
    }
}

impl BotStatus {
    /// The status the bot starts in: starting, with no error.
    pub fn new() -> (s: Self)
        ensures
            s.phase == Phase::Starting,
            s.last_error is None,
            s@ == initial_status(),
    {
        BotStatus { phase: Phase::Starting, last_error: None }
    }

    /// Moves to `phase`; the last error stays.
    pub fn set_phase(&mut self, phase: Phase)
        ensures
            final(self).phase == phase,
            final(self).last_error == old(self).last_error,
            final(self)@ == apply_update(old(self)@, StatusUpdate::SetPhase(phase)),
    {
        self.phase = phase;
    }

    /// Records `error` as the last error; the phase stays.
    pub fn set_error(&mut self, error: String)
        ensures
            final(self).phase == old(self).phase,
            final(self).last_error == Some(error),
            final(self)@ == apply_update(old(self)@, StatusUpdate::SetError(error@)),
    {
        self.last_error = Some(error);
    }

    /// Forgets the last error; the phase stays.
    pub fn clear_error(&mut self)
        ensures
            final(self).phase == old(self).phase,
            final(self).last_error is None,
            final(self)@ == apply_update(old(self)@, StatusUpdate::ClearError),
    {
        self.last_error = None;
    }

    /// A copy of the status, with the given uptime.
    pub fn snapshot(&self, uptime_secs: u64) -> (s: BotStatusSnapshot)
        ensures
            s.phase == self.phase,
            s.last_error == self.last_error,
            s.uptime_secs == uptime_secs,
    {
        let last_error = match &self.last_error {
            Some(e) => Some(e.clone()),
            None => None,
        };
        BotStatusSnapshot { phase: self.phase, last_error, uptime_secs }
    }

    /// Records how the setup after the gateway's `ready` went: on success the
    /// bot is ready with no error; on failure it is errored, and the error
    /// reads `"after_ready failed: "` followed by the cause.
    pub fn record_ready(&mut self, setup_error: Option<String>)
        ensures
            match setup_error {
                None => final(self).phase == Phase::Ready && final(self).last_error is None,
                Some(e) => final(self).phase == Phase::Errored
                    && opt_view(final(self).last_error) == Some("after_ready failed: "@ + e@),
            },
    {
        match setup_error {
            None => {
                self.clear_error();
                self.set_phase(Phase::Ready);
            },
            Some(e) => {
                self.set_phase(Phase::Errored);
                let mut msg = String::from_str("after_ready failed: ");
                msg.append(e.as_str());
                self.set_error(msg);
            },
        }
    }

    /// What `/search` records when it starts: the bot is ready; the last
    /// error stays until the search ends.
    pub fn begin_search(&mut self)
        ensures
            final(self).phase == Phase::Ready,
            final(self).last_error == old(self).last_error,
    {
        self.set_phase(Phase::Ready);
    }

    /// Records how a `/search` went. Success clears the last error and keeps
    /// the phase; failure makes the bot errored, with the error
    /// `"slash /search failed: "` followed by the cause.
    pub fn record_search(&mut self, failure: Option<String>)
        ensures
            match failure {
                None => final(self).phase == old(self).phase && final(self).last_error is None,
                Some(e) => final(self).phase == Phase::Errored
                    && opt_view(final(self).last_error) == Some("slash /search failed: "@ + e@),
            },
    {
        match failure {
            None => self.clear_error(),
            Some(e) => {
                self.set_phase(Phase::Errored);
                let mut msg = String::from_str("slash /search failed: ");
                msg.append(e.as_str());
                self.set_error(msg);
            },
        }
    }

    /// What the bot records when it is asked to shut down: shutting down,
    /// with no error.
    pub fn begin_shutdown(&mut self)
        ensures
            final(self).phase == Phase::ShuttingDown,
            final(self).last_error is None,
    {
        self.set_phase(Phase::ShuttingDown);
        self.clear_error();
    }
}

/// The hours, minutes and seconds that `uptime_human` shows add back up to
/// the uptime: minutes and seconds are below 60, the hours part is shown
/// exactly from one hour up, the minutes part exactly from one minute up,
/// and each number shown reads back as itself.
pub proof fn law_uptime_reads_back(secs: u64)
    ensures
        ({
            let h = secs / 3600;
            let m = (secs % 3600) / 60;
            let s = secs % 60;
            &&& 3600 * h + 60 * m + s == secs
            &&& m < 60
            &&& s < 60
            &&& (h > 0 <==> secs >= 3600)
            &&& (h > 0 || m > 0 <==> secs >= 60)
            &&& parse_u64(decimal(h as nat)) == Some(h)
            &&& parse_u64(decimal(m as nat)) == Some(m)
            &&& parse_u64(decimal(s as nat)) == Some(s)
            &&& uptime_text(secs as nat) == if h > 0 {
                decimal(h as nat) + "h "@ + decimal(m as nat) + "m "@ + decimal(s as nat) + "s"@
            } else if m > 0 {
                decimal(m as nat) + "m "@ + decimal(s as nat) + "s"@
            } else {
                decimal(s as nat) + "s"@
            }
        }),
{
    let h = secs / 3600;
    let m = (secs % 3600) / 60;
    let s = secs % 60;
    lemma_decimal_reads_back(h as nat);
    lemma_decimal_reads_back(m as nat);
    lemma_decimal_reads_back(s as nat);
    assert(3600 * h + 60 * m + s == secs) by (nonlinear_arith)
        requires
            h == secs / 3600,
            m == (secs % 3600) / 60,
            s == secs % 60,
    {
    }
}

/// After any sequence of phase and error changes, the phase is the one
/// the last phase change set (the starting one if there was none), and the
/// last error is the one the last error change set, or none if that change
/// cleared it (the starting one if there was no error change).
pub proof fn law_status_after_updates(start: BotStatusView, us: Seq<StatusUpdate>)
    ensures
        (forall|i: int| 0 <= i < us.len() ==> !(#[trigger] us[i] is SetPhase))
            ==> apply_updates(start, us).phase == start.phase,
        forall|i: int| #[trigger] last_phase_change_at(us, i)
            ==> us[i] == StatusUpdate::SetPhase(apply_updates(start, us).phase),
        (forall|i: int| 0 <= i < us.len() ==> #[trigger] us[i] is SetPhase)
            ==> apply_updates(start, us).last_error == start.last_error,
        forall|i: int| #[trigger] last_error_change_at(us, i) ==> match us[i] {
            StatusUpdate::SetError(e) => apply_updates(start, us).last_error == Some(e),
            _ => apply_updates(start, us).last_error is None,
        },
    decreases us.len(),
{
    if us.len() > 0 {
        let prev = us.drop_last();
        let n = us.len() - 1;
        law_status_after_updates(start, prev);
        assert forall|i: int| 0 <= i < prev.len() implies prev[i] == us[i] by {}
        assert forall|i: int| #[trigger] last_phase_change_at(us, i)
            implies us[i] == StatusUpdate::SetPhase(apply_updates(start, us).phase) by {
            if i < n {
                assert(!(us[n] is SetPhase));
                assert(last_phase_change_at(prev, i)) by {
                    assert forall|j: int| i < j < prev.len() implies !(#[trigger] prev[j] is SetPhase) by {
                        assert(prev[j] == us[j]);
                    }
                }
            }
        }
        assert forall|i: int| #[trigger] last_error_change_at(us, i) implies match us[i] {
            StatusUpdate::SetError(e) => apply_updates(start, us).last_error == Some(e),
            _ => apply_updates(start, us).last_error is None,
        } by {
            if i < n {
                assert(us[n] is SetPhase);
                assert(last_error_change_at(prev, i)) by {
                    assert forall|j: int| i < j < prev.len() implies #[trigger] prev[j] is SetPhase by {
                        assert(prev[j] == us[j]);
                    }
                }
            }
        }
        if forall|i: int| 0 <= i < us.len() ==> !(#[trigger] us[i] is SetPhase) {
            assert(!(us[n] is SetPhase));
            assert forall|i: int| 0 <= i < prev.len() implies !(#[trigger] prev[i] is SetPhase) by {
                assert(prev[i] == us[i]);
            }
        }
        if forall|i: int| 0 <= i < us.len() ==> #[trigger] us[i] is SetPhase {
            assert(us[n] is SetPhase);
            assert forall|i: int| 0 <= i < prev.len() implies #[trigger] prev[i] is SetPhase by {
                assert(prev[i] == us[i]);
            }
        }
    }
}

/// The `/status` report shows the snapshot's own uptime, whatever its
/// length: between `uptime: \`` and the next backtick stands the uptime text
/// of exactly `uptime_secs`, whose hours, minutes and seconds add back up to
/// it; phase and last error (or `none`) stand around it.
pub proof fn law_report_shows_uptime(phase: Phase, secs: u64, last_error: Option<Seq<char>>)
    ensures
        status_report_text(phase, secs as nat, last_error)
            == "**Bot status**\nphase: `"@ + phase.name() + "`\nuptime: `"@ + uptime_text(secs as nat)
            + "`\nlast error: `"@ + (match last_error { Some(e) => e, None => "none"@ }) + "`"@,
        ({
            let h = secs / 3600;
            let m = (secs % 3600) / 60;
            let s = secs % 60;
            &&& 3600 * h + 60 * m + s == secs
            &&& uptime_text(secs as nat) == if h > 0 {
                decimal(h as nat) + "h "@ + decimal(m as nat) + "m "@ + decimal(s as nat) + "s"@
            } else if m > 0 {
                decimal(m as nat) + "m "@ + decimal(s as nat) + "s"@
            } else {
                decimal(s as nat) + "s"@
            }
        }),
{
    law_uptime_reads_back(secs);
}

} // verus!
