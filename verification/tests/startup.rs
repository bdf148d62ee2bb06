use mango_tango::init::{
    app_startup, ensure_bin, startup_after_probe, version_flag, BinProbe, RequiredBin, StartupError, StartupStep,
    YtDlpPath,
};

#[test]
fn version_flags() {
    assert_eq!(version_flag("yt-dlp"), "--version");
    assert_eq!(version_flag("/usr/local/bin/yt-dlp"), "--version");
    assert_eq!(version_flag("ffmpeg"), "-version");
    assert_eq!(version_flag("yt-dlp.exe"), "-version");
    assert_eq!(version_flag(""), "-version");
    assert_eq!(RequiredBin::YtDlp.command_line(), ("yt-dlp", "--version"));
    assert_eq!(RequiredBin::Ffmpeg.command_line(), ("ffmpeg", "-version"));
}

#[test]
fn ensure_bin_outcomes() {
    assert!(ensure_bin("ffmpeg", BinProbe::Exited { success: true, status: "exit status: 0".into() }).is_ok());
    let e = ensure_bin("ffmpeg", BinProbe::Exited { success: false, status: "exit status: 1".into() }).unwrap_err();
    assert_eq!(e.message(), "ffmpeg not usable (exit exit status: 1)");
    let e = ensure_bin("yt-dlp", BinProbe::SpawnFailed { cause: "No such file or directory (os error 2)".into() }).unwrap_err();
    assert_eq!(e.message(), "failed to spawn yt-dlp: No such file or directory (os error 2)");
    assert!(matches!(e, StartupError::SpawnFailed { .. }));
}

fn ok() -> BinProbe {
    BinProbe::Exited { success: true, status: "exit status: 0".into() }
}

/// Runs the start-up steps with the given probe outcomes; returns the
/// programs probed, in order, and the result.
fn drive(outcome: impl Fn(RequiredBin) -> BinProbe) -> (Vec<RequiredBin>, Result<(), StartupError>) {
    let mut probed = Vec::new();
    let mut step = app_startup();
    loop {
        match step {
            StartupStep::Probe { bin } => {
                probed.push(bin);
                step = startup_after_probe(bin, outcome(bin));
            }
            StartupStep::Finished { result } => return (probed, result),
        }
    }
}

#[test]
fn startup_probes_in_order_and_stops_early() {
    let (probed, r) = drive(|_| ok());
    assert!(r.is_ok());
    assert_eq!(probed, vec![RequiredBin::YtDlp, RequiredBin::Ffmpeg]);

    let (probed, r) = drive(|_| BinProbe::SpawnFailed { cause: "missing".into() });
    assert_eq!(r.unwrap_err().message(), "failed to spawn yt-dlp: missing");
    assert_eq!(probed, vec![RequiredBin::YtDlp]);

    let (probed, r) = drive(|bin| match bin {
        RequiredBin::YtDlp => ok(),
        RequiredBin::Ffmpeg => BinProbe::Exited { success: false, status: "exit status: 127".into() },
    });
    assert_eq!(r.unwrap_err().message(), "ffmpeg not usable (exit exit status: 127)");
    assert_eq!(probed, vec![RequiredBin::YtDlp, RequiredBin::Ffmpeg]);
}

#[test]
fn ytdlp_path_default() {
    assert_eq!(YtDlpPath::default_value(), "yt-dlp");
}
