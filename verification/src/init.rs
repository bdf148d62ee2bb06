//! Start-up checks: the external programs the bot needs, how each one is
//! probed, and what the outcome of a probe means.

use vstd::prelude::*;
use vstd::string::StringExecFns;
use crate::text::chars_of;

verus! {

/// The key under which the path of `yt-dlp` is kept once the bot is ready.
pub struct YtDlpPath;

impl YtDlpPath {
    /// The path stored under this key after `ready`: the bare program name.
    pub fn default_value() -> (s: String)
        ensures
            s@ == "yt-dlp"@,
    {
        String::from_str("yt-dlp")
    }
}

/// What the bot shows it is listening to once it is ready.
pub fn listening_activity() -> (s: String)
    ensures
        s@ == "!play"@,
{
    String::from_str("!play")
}

/// `s` ends with `suffix`.
pub open spec fn ends_with(s: Seq<char>, suffix: Seq<char>) -> bool {
    suffix.len() <= s.len() && s.subrange(s.len() - suffix.len(), s.len() as int) == suffix
}

/// The flag that makes a program print its version: `yt-dlp` (any path
/// ending in that name) takes `--version`, everything else `-version`.
pub open spec fn version_flag_text(name: Seq<char>) -> Seq<char> {
    if ends_with(name, "yt-dlp"@) { "--version"@ } else { "-version"@ }
}

fn seq_ends_with(s: &Vec<char>, suffix: &Vec<char>) -> (r: bool)
    ensures
        r == ends_with(s@, suffix@),
{
    if suffix.len() > s.len() {
        return false;
    }
    let off = s.len() - suffix.len();
    let mut i: usize = 0;
    while i < suffix.len()
        invariant
            off + suffix@.len() == s@.len(),
            s@.len() <= usize::MAX,
            i <= suffix@.len(),
            forall|j: int| 0 <= j < i ==> s@[off + j] == suffix@[j],
        decreases suffix@.len() - i,
    {
        if s[off + i] != suffix[i] {
            assert(s@.subrange(off as int, s@.len() as int)[i as int] != suffix@[i as int]);
            return false;
        }
        i = i + 1;
    }
    assert(s@.subrange(off as int, s@.len() as int) =~= suffix@);
    true
}

/// The flag that makes the program `name` print its version.
pub fn version_flag(name: &str) -> (flag: &'static str)
    ensures
        flag@ == version_flag_text(name@),
{
    let n = chars_of(name);
    let suffix = chars_of("yt-dlp");
    if seq_ends_with(&n, &suffix) { "--version" } else { "-version" }
}

/// The external programs the bot cannot run without, in the order they are
/// checked.
#[derive(Debug, Clone, Copy, PartialEq, Eq, Structural)]
pub enum RequiredBin {
    YtDlp,
    Ffmpeg,
}

impl RequiredBin {
    pub open spec fn name_text(self) -> Seq<char> {
        match self {
            RequiredBin::YtDlp => "yt-dlp"@,
            RequiredBin::Ffmpeg => "ffmpeg"@,
        }
    }

    /// The program's name, as it is looked up on the `PATH`.
    pub fn name(&self) -> (s: &'static str)
        ensures
            s@ == self.name_text(),
    {
        match self {
            RequiredBin::YtDlp => "yt-dlp",
            RequiredBin::Ffmpeg => "ffmpeg",
        }
    }

    /// The command line that probes the program: its name and its version flag.
    pub fn command_line(&self) -> (r: (&'static str, &'static str))
        ensures
            r.0@ == self.name_text(),
            r.1@ == version_flag_text(self.name_text()),
    {
        let name = self.name();
        (name, version_flag(name))
    }
}

/// What running a program with its version flag gave.
pub enum BinProbe {
    /// The program could not be started; `cause` says why.
    SpawnFailed { cause: String },
    /// The program ran and exited; `status` is its exit status as printed.
    Exited { success: bool, status: String },
}

impl BinProbe {
    pub open spec fn succeeded(self) -> bool {
        self matches BinProbe::Exited { success, .. } && success
    }
}

/// Why the bot cannot start.
pub enum StartupError {
    /// The program `name` could not be started.
    SpawnFailed { name: String, cause: String },
    /// The program `name` ran but exited with a failure status.
    NotUsable { name: String, status: String },
}

impl StartupError {
    /// `self` is the error that the probe `probe` of the program `name` gives.
    pub open spec fn reports(self, name: Seq<char>, probe: BinProbe) -> bool {
        match probe {
            BinProbe::SpawnFailed { cause } => self matches StartupError::SpawnFailed { name: n, cause: c }
                && n@ == name && c@ == cause@,
            BinProbe::Exited { success, status } => {
                &&& !success
                &&& self matches StartupError::NotUsable { name: n, status: s }
                &&& n@ == name
                &&& s@ == status@
            },
        }
    }

    pub open spec fn message_text(self) -> Seq<char> {
        match self {
            StartupError::SpawnFailed { name, cause } => "failed to spawn "@ + name@ + ": "@ + cause@,
            StartupError::NotUsable { name, status } => name@ + " not usable (exit "@ + status@ + ")"@,
        }
    }

    /// The error as the bot reports it, with its cause:
    /// `"failed to spawn {name}: {cause}"` or `"{name} not usable (exit {status})"`.
    pub fn message(&self) -> (r: String)
        ensures
            r@ == self.message_text(),
    {
        match self {
            StartupError::SpawnFailed { name, cause } => {
                let mut s = String::from_str("failed to spawn ");
                s.append(name.as_str());
                s.append(": ");
                s.append(cause.as_str());
                s
            },
            StartupError::NotUsable { name, status } => {
                let mut s = String::from_str(name.as_str());
                s.append(" not usable (exit ");
                s.append(status.as_str());
                s.append(")");
                s
            },
        }
    }
}

/// Decides, from the probe of the program `name`, whether it is usable:
/// it is when it ran and exited successfully.
pub fn ensure_bin(name: &str, probe: BinProbe) -> (r: Result<(), StartupError>)
    ensures
        r is Ok <==> probe.succeeded(),
        r matches Err(e) ==> e.reports(name@, probe),
{
    match probe {
        BinProbe::SpawnFailed { cause } => Err(
            StartupError::SpawnFailed { name: String::from_str(name), cause },
        ),
        BinProbe::Exited { success, status } => {
            if success {
                Ok(())
            } else {
                Err(StartupError::NotUsable { name: String::from_str(name), status })
            }
        },
    }
}

/// What start-up does next.
pub enum StartupStep {
    /// Probe the program `bin` (run it with its version flag) and report
    /// the outcome to `startup_after_probe`.
    Probe { bin: RequiredBin },
    /// Start-up is over, with this result.
    Finished { result: Result<(), StartupError> },
}

/// The program probed after `bin`'s probe gave `probe`, or `None` when
/// start-up ends there: a failed probe ends it; after `yt-dlp` passes,
/// `ffmpeg` is probed; after `ffmpeg` passes, it ends.
pub open spec fn next_probe(bin: RequiredBin, probe: BinProbe) -> Option<RequiredBin> {
    if !probe.succeeded() {
        None
    } else {
        match bin {
            RequiredBin::YtDlp => Some(RequiredBin::Ffmpeg),
            RequiredBin::Ffmpeg => None,
        }
    }
}

/// Starts the start-up checks: the first step probes `yt-dlp`.
pub fn app_startup() -> (step: StartupStep)
    ensures
        step matches StartupStep::Probe { bin } && bin == RequiredBin::YtDlp,
{
    StartupStep::Probe { bin: RequiredBin::YtDlp }
}

/// The step after the probe of `bin` gave `probe`: the next program to
/// probe, or the end of start-up, which succeeds when the last probe did
/// and otherwise carries the error of that probe.
pub fn startup_after_probe(bin: RequiredBin, probe: BinProbe) -> (step: StartupStep)
    ensures
        match next_probe(bin, probe) {
            Some(next) => step matches StartupStep::Probe { bin: b } && b == next,
            None => step matches StartupStep::Finished { result } && (result is Ok <==> probe.succeeded())
                && (result matches Err(e) ==> e.reports(bin.name_text(), probe)),
        },
{
    let name = bin.name();
    match ensure_bin(name, probe) {
        Err(e) => StartupStep::Finished { result: Err(e) },
        Ok(()) => match bin {
            RequiredBin::YtDlp => StartupStep::Probe { bin: RequiredBin::Ffmpeg },
            RequiredBin::Ffmpeg => StartupStep::Finished { result: Ok(()) },
        },
    }
}

/// The programs probed, in order, when start-up is at `bin` and each
/// program's probe gives `outcome(bin)`; `fuel` bounds the walk.
pub open spec fn probe_trace(bin: RequiredBin, outcome: spec_fn(RequiredBin) -> BinProbe, fuel: nat) -> Seq<RequiredBin>
    decreases fuel,
{
    if fuel == 0 {
        seq![]
    } else {
        match next_probe(bin, outcome(bin)) {
            None => seq![bin],
            Some(next) => seq![bin] + probe_trace(next, outcome, (fuel - 1) as nat),
        }
    }
}

/// Whether start-up, at `bin` with the same outcomes, ends in success.
pub open spec fn startup_succeeds(bin: RequiredBin, outcome: spec_fn(RequiredBin) -> BinProbe, fuel: nat) -> bool
    decreases fuel,
{
    if fuel == 0 {
        false
    } else {
        match next_probe(bin, outcome(bin)) {
            None => outcome(bin).succeeded(),
            Some(next) => startup_succeeds(next, outcome, (fuel - 1) as nat),
        }
    }
}

/// Start-up probes `yt-dlp` first and then, only if it passed, `ffmpeg`;
/// each program is probed once, and start-up succeeds exactly when both
/// probes passed.
pub proof fn law_startup_probes_in_order(outcome: spec_fn(RequiredBin) -> BinProbe, fuel: nat)
    requires
        fuel >= 2,
    ensures
        probe_trace(RequiredBin::YtDlp, outcome, fuel) == (if outcome(RequiredBin::YtDlp).succeeded() {
            seq![RequiredBin::YtDlp, RequiredBin::Ffmpeg]
        } else {
            seq![RequiredBin::YtDlp]
        }),
        startup_succeeds(RequiredBin::YtDlp, outcome, fuel) == (outcome(RequiredBin::YtDlp).succeeded()
            && outcome(RequiredBin::Ffmpeg).succeeded()),
{
    let f1 = (fuel - 1) as nat;
    assert(probe_trace(RequiredBin::Ffmpeg, outcome, f1) == seq![RequiredBin::Ffmpeg]);
    assert(startup_succeeds(RequiredBin::Ffmpeg, outcome, f1) == outcome(RequiredBin::Ffmpeg).succeeded());
    if outcome(RequiredBin::YtDlp).succeeded() {
        assert(seq![RequiredBin::YtDlp] + seq![RequiredBin::Ffmpeg] =~= seq![RequiredBin::YtDlp, RequiredBin::Ffmpeg]);
    }
}

} // verus!
