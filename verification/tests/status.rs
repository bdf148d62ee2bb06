use mango_tango::lifecycle::status::{BotStatus, BotStatusSnapshot, Phase};

fn snap(secs: u64) -> BotStatusSnapshot {
    BotStatusSnapshot { phase: Phase::Ready, last_error: None, uptime_secs: secs }
}

#[test]
fn uptime_seconds_only() {
    assert_eq!(snap(0).uptime_human(), "0s");
    assert_eq!(snap(59).uptime_human(), "59s");
}

#[test]
fn uptime_minutes() {
    assert_eq!(snap(60).uptime_human(), "1m 0s");
    assert_eq!(snap(3599).uptime_human(), "59m 59s");
}

#[test]
fn uptime_hours() {
    assert_eq!(snap(3600).uptime_human(), "1h 0m 0s");
    assert_eq!(snap(3725).uptime_human(), "1h 2m 5s");
    assert_eq!(snap(90061).uptime_human(), "25h 1m 1s");
}

#[test]
fn status_report_with_and_without_error() {
    let s = BotStatusSnapshot { phase: Phase::Errored, last_error: Some("boom".to_string()), uptime_secs: 61 };
    assert_eq!(s.status_report(), "**Bot status**\nphase: `errored`\nuptime: `1m 1s`\nlast error: `boom`");
    let s = BotStatusSnapshot { phase: Phase::ShuttingDown, last_error: None, uptime_secs: 5 };
    assert_eq!(s.status_report(), "**Bot status**\nphase: `shutting_down`\nuptime: `5s`\nlast error: `none`");
}

#[test]
fn status_transitions() {
    let mut st = BotStatus::new();
    assert_eq!(st.phase, Phase::Starting);
    st.set_error("x".to_string());
    st.set_phase(Phase::Ready);
    let snap = st.snapshot(10);
    assert_eq!(snap.phase, Phase::Ready);
    assert_eq!(snap.last_error.as_deref(), Some("x"));
    assert_eq!(snap.uptime_secs, 10);
    st.record_ready(Some("no cache".to_string()));
    assert_eq!(st.phase, Phase::Errored);
    assert_eq!(st.last_error.as_deref(), Some("after_ready failed: no cache"));
    st.record_ready(None);
    assert_eq!(st.phase, Phase::Ready);
    assert_eq!(st.last_error, None);
    st.record_search(Some("missing 'query' string option".to_string()));
    assert_eq!(st.phase, Phase::Errored);
    assert_eq!(st.last_error.as_deref(), Some("slash /search failed: missing 'query' string option"));
    st.set_phase(Phase::Ready);
    st.record_search(None);
    assert_eq!(st.phase, Phase::Ready);
    assert_eq!(st.last_error, None);
    st.set_error("e".to_string());
    st.begin_shutdown();
    assert_eq!(st.phase, Phase::ShuttingDown);
    assert_eq!(st.last_error, None);
}

#[test]
fn phase_names() {
    assert_eq!(Phase::Starting.as_str(), "starting");
    assert_eq!(Phase::Ready.as_str(), "ready");
    assert_eq!(Phase::Errored.as_str(), "errored");
    assert_eq!(Phase::ShuttingDown.as_str(), "shutting_down");
}

#[test]
fn search_begins_ready_and_keeps_error() {
    let mut st = BotStatus::new();
    st.set_phase(Phase::Errored);
    st.set_error("old".to_string());
    st.begin_search();
    assert_eq!(st.phase, Phase::Ready);
    assert_eq!(st.last_error.as_deref(), Some("old"));
    st.record_search(None);
    assert_eq!(st.phase, Phase::Ready);
    assert_eq!(st.last_error, None);
}

#[test]
fn uptime_parts_add_back_up() {
    // law: reading the parts back gives the seconds
    for secs in [0u64, 1, 59, 60, 61, 3599, 3600, 3661, 86399, 86400, 1_000_000] {
        let text = BotStatusSnapshot { phase: Phase::Ready, last_error: None, uptime_secs: secs }.uptime_human();
        let mut total = 0u64;
        for part in text.split(' ') {
            let (num, unit) = part.split_at(part.len() - 1);
            let n: u64 = num.parse().unwrap();
            total += match unit {
                "h" => 3600 * n,
                "m" => { assert!(n < 60); 60 * n }
                "s" => { assert!(n < 60); n }
                _ => panic!("unit {unit}"),
            };
        }
        assert_eq!(total, secs, "{text}");
        assert!(text.ends_with('s'));
        assert_eq!(text.contains('h'), secs >= 3600);
        assert_eq!(text.contains('m'), secs >= 60);
    }
}

#[test]
fn status_after_updates() {
    // law: last phase change decides the phase; last error change decides the error
    let mut st = BotStatus::new();
    st.set_error("a".to_string());
    st.set_phase(Phase::Errored);
    st.clear_error();
    st.set_phase(Phase::Ready);
    st.set_error("b".to_string());
    let snap = st.snapshot(0);
    assert_eq!(snap.phase, Phase::Ready);
    assert_eq!(snap.last_error.as_deref(), Some("b"));
    st.clear_error();
    st.set_phase(Phase::ShuttingDown);
    let snap = st.snapshot(1);
    assert_eq!(snap.phase, Phase::ShuttingDown);
    assert_eq!(snap.last_error, None);
}
