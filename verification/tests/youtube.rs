use mango_tango::adapters::youtube::{
    parse_search_output, search_command_args, search_expression, search_outcome, ytdlp_user_args,
    SearchError,
};

#[test]
fn parses_three_fields() {
    let out = "Song A\thttps://youtu.be/a\t213\nSong B\thttps://youtu.be/b\tNA\n";
    let r = parse_search_output(out);
    assert_eq!(r.len(), 2);
    assert_eq!(r[0].title, "Song A");
    assert_eq!(r[0].url, "https://youtu.be/a");
    assert_eq!(r[0].duration, Some(213));
    assert_eq!(r[1].title, "Song B");
    assert_eq!(r[1].url, "https://youtu.be/b");
    assert_eq!(r[1].duration, None);
}

#[test]
fn skips_lines_with_one_field() {
    let r = parse_search_output("garbage\n\nT\tU\n");
    assert_eq!(r.len(), 1);
    assert_eq!(r[0].title, "T");
    assert_eq!(r[0].url, "U");
    assert_eq!(r[0].duration, None);
}

#[test]
fn last_line_without_newline_and_crlf() {
    let r = parse_search_output("A\tu1\t7\r\nB\tu2\t+8");
    assert_eq!(r.len(), 2);
    assert_eq!(r[0].duration, Some(7));
    assert_eq!(r[1].title, "B");
    assert_eq!(r[1].duration, Some(8));
}

#[test]
fn final_newline_optional() {
    let a = parse_search_output("A\tu\t1");
    let b = parse_search_output("A\tu\t1\n");
    assert_eq!(a.len(), 1);
    assert_eq!(b.len(), 1);
    assert_eq!(a[0].title, b[0].title);
    assert_eq!(a[0].duration, b[0].duration);
}

#[test]
fn durations_read_like_parse_u64() {
    let cases = [
        ("0", Some(0u64)),
        ("18446744073709551615", Some(u64::MAX)),
        ("18446744073709551616", None),
        ("", None),
        ("+", None),
        ("-1", None),
        ("12.5", None),
        ("0042", Some(42)),
        ("3 ", None),
    ];
    for (text, expected) in cases {
        let line = format!("t\tu\t{text}");
        let r = parse_search_output(&line);
        assert_eq!(r.len(), 1);
        assert_eq!(r[0].duration, expected, "{text:?}");
        assert_eq!(r[0].duration, text.parse::<u64>().ok());
    }
}

#[test]
fn extra_fields_and_empty_fields() {
    let r = parse_search_output("\t\t\textra\n");
    assert_eq!(r.len(), 1);
    assert_eq!(r[0].title, "");
    assert_eq!(r[0].url, "");
    assert_eq!(r[0].duration, None);
}

#[test]
fn unicode_titles() {
    let r = parse_search_output("Café – ✓\thttps://x\t5\n");
    assert_eq!(r[0].title, "Café – ✓");
}

#[test]
fn matches_std_lines_and_split() {
    let samples = [
        "", "\n", "\r\n", "a\r", "a\tb\r", "a\tb\r\n", "x\ty\tz\n\nq\tw\t9\r\nend", "a\tb\n\n\n",
    ];
    for s in samples {
        let ours = parse_search_output(s);
        let theirs: Vec<(String, String, Option<u64>)> = s
            .lines()
            .filter_map(|line| {
                let parts: Vec<_> = line.split('\t').collect();
                if parts.len() < 2 {
                    return None;
                }
                Some((parts[0].to_string(), parts[1].to_string(), parts.get(2).and_then(|d| d.parse::<u64>().ok())))
            })
            .collect();
        let ours: Vec<(String, String, Option<u64>)> =
            ours.into_iter().map(|r| (r.title, r.url, r.duration)).collect();
        assert_eq!(ours, theirs, "{s:?}");
    }
}

#[test]
fn search_expression_and_args() {
    assert_eq!(search_expression("lofi beats", 5), "ytsearch5:lofi beats");
    assert_eq!(search_expression("x", 1), "ytsearch1:x");
    let args = search_command_args("q", 3);
    assert_eq!(
        args,
        vec![
            "--skip-download".to_string(),
            "--no-warnings".to_string(),
            "--print".to_string(),
            "%(title)s\t%(webpage_url)s\t%(duration)s".to_string(),
            "ytsearch3:q".to_string(),
        ]
    );
}

#[test]
fn search_outcome_success_and_failure() {
    let ok = search_outcome(true, "a\tb\t1\n", String::new());
    match ok {
        Ok(v) => assert_eq!(v.len(), 1),
        Err(_) => panic!("expected results"),
    }
    let err = search_outcome(false, "a\tb\n", "ERROR: no network".to_string());
    match err {
        Err(e) => {
            assert_eq!(e.message(), "yt-dlp failed: ERROR: no network");
            let SearchError::YtDlpFailed { stderr } = e;
            assert_eq!(stderr, "ERROR: no network");
        }
        Ok(_) => panic!("expected an error"),
    }
}

#[test]
fn streaming_args() {
    assert_eq!(
        ytdlp_user_args(),
        vec![
            "--js-runtimes", "deno", "--cookies", "./cookies.txt", "--no-playlist", "-f",
            "ba[ext=m4a]/ba[acodec^=opus][protocol!=m3u8]",
        ]
    );
}
