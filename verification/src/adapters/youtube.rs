//! Searching YouTube through `yt-dlp`: the command line that asks for
//! results, and the parser for what `yt-dlp` prints back.

use vstd::prelude::*;
use vstd::string::StringExecFns;
use crate::text::{chars_of, digit_char, push_char, push_decimal, decimal};

verus! {

/// One search hit: its title, its page URL, and its length in seconds when
/// `yt-dlp` reported one.
#[derive(Debug, Clone)]
pub struct YtSearchResult {
    pub title: String,
    pub url: String,
    pub duration: Option<u64>,
}

/// A search hit as plain values.
pub struct YtSearchResultView {
    pub title: Seq<char>,
    pub url: Seq<char>,
    pub duration: Option<u64>,
}

impl View for YtSearchResult {
    type V = YtSearchResultView;

    open spec fn view(&self) -> YtSearchResultView {
        YtSearchResultView { title: self.title@, url: self.url@, duration: self.duration }
    }
}

/// The views of a sequence of search hits.
pub open spec fn result_views(v: Seq<YtSearchResult>) -> Seq<YtSearchResultView> {
    v.map_values(|x: YtSearchResult| x@)
}

// ---------------------------------------------------------------------------
// Splitting text

/// Scans `s` for `sep`: the pieces that a separator closed, in order, and
/// the text after the last separator.
pub open spec fn split_scan(s: Seq<char>, sep: char) -> (Seq<Seq<char>>, Seq<char>)
    decreases s.len(),
{
    if s.len() == 0 {
        (seq![], seq![])
    } else {
        let (closed, open) = split_scan(s.drop_last(), sep);
        if s.last() == sep {
            (closed.push(open), seq![])
        } else {
            (closed, open.push(s.last()))
        }
    }
}

/// The pieces of `s` between occurrences of `sep`, as `str::split` yields
/// them: always one more piece than there are separators.
pub open spec fn split(s: Seq<char>, sep: char) -> Seq<Seq<char>> {
    let (closed, open) = split_scan(s, sep);
    closed.push(open)
}

/// A line without the `'\r'` that ended it, if it had one.
pub open spec fn strip_cr(line: Seq<char>) -> Seq<char> {
    if line.len() > 0 && line.last() == '\r' { line.drop_last() } else { line }
}

/// The lines of `s`, as `str::lines` yields them: split at `'\n'`, each
/// line that a `'\n'` ended loses a `'\r'` before it, and text after the
/// last `'\n'` is a line only when it is not empty.
pub open spec fn lines(s: Seq<char>) -> Seq<Seq<char>> {
    let (closed, open) = split_scan(s, '\n');
    let ended = closed.map_values(|l: Seq<char>| strip_cr(l));
    if open.len() == 0 { ended } else { ended.push(open) }
}

// ---------------------------------------------------------------------------
// Numbers

pub open spec fn is_digit(c: char) -> bool {
    48 <= (c as int) <= 57
}

pub open spec fn all_digits(s: Seq<char>) -> bool {
    forall|i: int| 0 <= i < s.len() ==> is_digit(#[trigger] s[i])
}

/// The value of a string of decimal digits.
pub open spec fn digits_value(s: Seq<char>) -> nat
    decreases s.len(),
{
    if s.len() == 0 {
        0
    } else {
        10 * digits_value(s.drop_last()) + ((s.last() as int) - 48) as nat
    }
}

/// `s` read as a `u64` the way `str::parse::<u64>` reads it: an optional
/// leading `'+'`, then at least one decimal digit and nothing else, with a
/// value that fits.
pub open spec fn parse_u64(s: Seq<char>) -> Option<u64> {
    let body = if s.len() > 0 && s[0] == '+' { s.drop_first() } else { s };
    if body.len() > 0 && all_digits(body) && digits_value(body) <= u64::MAX {
        Some(digits_value(body) as u64)
    } else {
        None
    }
}

// ---------------------------------------------------------------------------
// Search output

/// One line of `yt-dlp` output, printed as `title<TAB>url<TAB>duration`:
/// lines with fewer than two fields are skipped, and the duration counts
/// only when the third field reads as a number.
pub open spec fn parse_result_line(line: Seq<char>) -> Option<YtSearchResultView> {
    let fields = split(line, '\t');
    if fields.len() < 2 {
        None
    } else {
        Some(YtSearchResultView {
            title: fields[0],
            url: fields[1],
            duration: if fields.len() > 2 { parse_u64(fields[2]) } else { None },
        })
    }
}

/// The hits read from a sequence of lines, in order.
pub open spec fn results_of_lines(ls: Seq<Seq<char>>) -> Seq<YtSearchResultView>
    decreases ls.len(),
{
    if ls.len() == 0 {
        seq![]
    } else {
        let before = results_of_lines(ls.drop_last());
        match parse_result_line(ls.last()) {
            Some(r) => before.push(r),
            None => before,
        }
    }
}

/// The hits in the standard output of a `yt-dlp` search.
pub open spec fn search_results(out: Seq<char>) -> Seq<YtSearchResultView> {
    results_of_lines(lines(out))
}

/// Why a search failed.
pub enum SearchError {
    /// `yt-dlp` exited with a failure status; `stderr` is what it printed.
    YtDlpFailed { stderr: String },
}

impl SearchError {
    pub open spec fn message_text(self) -> Seq<char> {
        match self {
            SearchError::YtDlpFailed { stderr } => "yt-dlp failed: "@ + stderr@,
        }
    }

    /// The error as reported: `"yt-dlp failed: {stderr}"`.
    pub fn message(&self) -> (r: String)
        ensures
            r@ == self.message_text(),
    {
        match self {
            SearchError::YtDlpFailed { stderr } => {
                let mut s = String::from_str("yt-dlp failed: ");
                s.append(stderr.as_str());
                s
            },
        }
    }
}

// ---------------------------------------------------------------------------
// Executable parts

fn string_of(v: &Vec<char>) -> (s: String)
    ensures
        s@ == v@,
{
    let mut s = String::new();
    for i in 0..v.len()
        invariant
            s@ == v@.take(i as int),
    {
        push_char(&mut s, v[i]);
        assert(v@.take(i + 1) =~= v@.take(i as int).push(v@[i as int]));
    }
    assert(v@.take(v@.len() as int) =~= v@);
    s
}

fn digit_of(c: char) -> (r: Option<u64>)
    ensures
        r is Some <==> is_digit(c),
        r matches Some(d) ==> d == (c as int) - 48,
{
    if c == '0' { Some(0) }
    else if c == '1' { Some(1) }
    else if c == '2' { Some(2) }
    else if c == '3' { Some(3) }
    else if c == '4' { Some(4) }
    else if c == '5' { Some(5) }
    else if c == '6' { Some(6) }
    else if c == '7' { Some(7) }
    else if c == '8' { Some(8) }
    else if c == '9' { Some(9) }
    else { None }
}

/// Reads a field as `str::parse::<u64>` does.
fn parse_u64_chars(s: &Vec<char>) -> (r: Option<u64>)
    ensures
        r == parse_u64(s@),
{
    let start: usize = if s.len() > 0 && s[0] == '+' { 1 } else { 0 };
    let ghost body = if s@.len() > 0 && s@[0] == '+' { s@.drop_first() } else { s@ };
    assert(body =~= s@.subrange(start as int, s@.len() as int));
    if start == s.len() {
        return None;
    }
    let mut value: u64 = 0;
    let mut overflow = false;
    let mut i: usize = start;
    while i < s.len()
        invariant
            start <= i <= s@.len(),
            start < s@.len(),
            body == s@.subrange(start as int, s@.len() as int),
            body == (if s@.len() > 0 && s@[0] == '+' { s@.drop_first() } else { s@ }),
            all_digits(s@.subrange(start as int, i as int)),
            !overflow ==> value == digits_value(s@.subrange(start as int, i as int)),
            overflow ==> digits_value(s@.subrange(start as int, i as int)) > u64::MAX,
        decreases s@.len() - i,
    {
        let c = s[i];
        let d = match digit_of(c) {
            Some(d) => d,
            None => {
                assert(body[i - start] == c);
                assert(!is_digit(body[i - start]));
                assert(!all_digits(body));
                return None;
            },
        };
        let ghost prefix = s@.subrange(start as int, i as int);
        let ghost next = s@.subrange(start as int, i + 1);
        assert(next.drop_last() =~= prefix);
        assert(next.last() == c);
        assert(digits_value(next) == 10 * digits_value(prefix) + d);
        if !overflow {
            if value > (u64::MAX - d) / 10 {
                overflow = true;
            } else {
                value = value * 10 + d;
            }
        }
        i = i + 1;
        assert(all_digits(next)) by {
            assert forall|j: int| 0 <= j < next.len() implies is_digit(#[trigger] next[j]) by {
                if j < prefix.len() {
                    assert(next[j] == prefix[j]);
                }
            }
        }
    }
    if overflow { None } else { Some(value) }
}

/// Splits a line at tabs.
fn split_tabs(line: &Vec<char>) -> (fields: Vec<Vec<char>>)
    ensures
        fields@.map_values(|f: Vec<char>| f@) == split(line@, '\t'),
{
    let mut closed: Vec<Vec<char>> = Vec::new();
    let mut open: Vec<char> = Vec::new();
    for i in 0..line.len()
        invariant
            split_scan(line@.take(i as int), '\t') == (closed@.map_values(|f: Vec<char>| f@), open@),
    {
        let c = line[i];
        assert(line@.take(i + 1).drop_last() =~= line@.take(i as int));
        assert(line@.take(i + 1).last() == c);
        if c == '\t' {
            let piece = open;
            open = Vec::new();
            let ghost before = closed@;
            closed.push(piece);
            assert(closed@.map_values(|f: Vec<char>| f@) =~= before.map_values(|f: Vec<char>| f@).push(piece@));
        } else {
            open.push(c);
        }
    }
    assert(line@.take(line@.len() as int) =~= line@);
    let ghost before = closed@;
    closed.push(open);
    assert(closed@.map_values(|f: Vec<char>| f@) =~= before.map_values(|f: Vec<char>| f@).push(open@));
    closed
}

/// Reads one line of search output.
fn parse_line(line: &Vec<char>) -> (r: Option<YtSearchResult>)
    ensures
        match r {
            Some(x) => parse_result_line(line@) == Some(x@),
            None => parse_result_line(line@) is None,
        },
{
    let fields = split_tabs(line);
    let ghost fv = fields@.map_values(|f: Vec<char>| f@);
    if fields.len() < 2 {
        return None;
    }
    assert(fv[0] == fields@[0]@);
    assert(fv[1] == fields@[1]@);
    let title = string_of(&fields[0]);
    let url = string_of(&fields[1]);
    let duration = if fields.len() > 2 {
        assert(fv[2] == fields@[2]@);
        parse_u64_chars(&fields[2])
    } else {
        None
    };
    Some(YtSearchResult { title, url, duration })
}

/// Drops a trailing `'\r'`.
fn strip_cr_chars(line: Vec<char>) -> (r: Vec<char>)
    ensures
        r@ == strip_cr(line@),
{
    let mut line = line;
    if line.len() > 0 && line[line.len() - 1] == '\r' {
        line.pop();
    }
    line
}

proof fn lemma_results_push(ls: Seq<Seq<char>>, l: Seq<char>)
    ensures
        results_of_lines(ls.push(l)) == match parse_result_line(l) {
            Some(r) => results_of_lines(ls).push(r),
            None => results_of_lines(ls),
        },
{
    assert(ls.push(l).drop_last() =~= ls);
}

/// The hits in the standard output of a `yt-dlp` search, one per line that
/// holds at least a title and a URL, in the order printed.
pub fn parse_search_output(stdout: &str) -> (r: Vec<YtSearchResult>)
    ensures
        result_views(r@) == search_results(stdout@),
{
    let chars = chars_of(stdout);
    let mut results: Vec<YtSearchResult> = Vec::new();
    let mut open: Vec<char> = Vec::new();
    let ghost mut closed: Seq<Seq<char>> = seq![];
    for i in 0..chars.len()
        invariant
            chars@ == stdout@,
            split_scan(chars@.take(i as int), '\n') == (closed, open@),
            result_views(results@) == results_of_lines(closed.map_values(|l: Seq<char>| strip_cr(l))),
    {
        let c = chars[i];
        assert(chars@.take(i + 1).drop_last() =~= chars@.take(i as int));
        assert(chars@.take(i + 1).last() == c);
        if c == '\n' {
            let ghost ended_before = closed.map_values(|l: Seq<char>| strip_cr(l));
            let ghost piece = open@;
            let line = strip_cr_chars(open);
            open = Vec::new();
            let parsed = parse_line(&line);
            let ghost results_before = results@;
            match parsed {
                Some(x) => {
                    results.push(x);
                    assert(result_views(results@) =~= result_views(results_before).push(x@));
                },
                None => {},
            }
            proof {
                closed = closed.push(piece);
                assert(closed.map_values(|l: Seq<char>| strip_cr(l)) =~= ended_before.push(strip_cr(piece)));
                lemma_results_push(ended_before, strip_cr(piece));
            }
        } else {
            open.push(c);
        }
    }
    assert(chars@.take(chars@.len() as int) =~= chars@);
    if open.len() > 0 {
        let ghost ended = closed.map_values(|l: Seq<char>| strip_cr(l));
        let parsed = parse_line(&open);
        let ghost results_before = results@;
        match parsed {
            Some(x) => {
                results.push(x);
                assert(result_views(results@) =~= result_views(results_before).push(x@));
            },
            None => {},
        }
        proof {
            lemma_results_push(ended, open@);
        }
    }
    results
}

// ---------------------------------------------------------------------------
// Command lines

/// The views of a sequence of strings.
pub open spec fn strings_view(v: Seq<String>) -> Seq<Seq<char>> {
    v.map_values(|x: String| x@)
}

/// The search expression `yt-dlp` understands: `"ytsearch{limit}:{query}"`.
pub open spec fn search_expression_text(query: Seq<char>, limit: nat) -> Seq<char> {
    "ytsearch"@ + decimal(limit) + ":"@ + query
}

/// The search expression for the first `limit` hits of `query`.
pub fn search_expression(query: &str, limit: usize) -> (r: String)
    ensures
        r@ == search_expression_text(query@, limit as nat),
{
    let mut s = String::from_str("ytsearch");
    push_decimal(&mut s, limit as u64);
    s.append(":");
    s.append(query);
    s
}

/// The arguments `yt-dlp` is run with to search: no download, no warnings,
/// one line per hit holding title, page URL and duration separated by tabs,
/// then the search expression.
pub fn search_command_args(query: &str, limit: usize) -> (args: Vec<String>)
    ensures
        strings_view(args@) == seq![
            "--skip-download"@,
            "--no-warnings"@,
            "--print"@,
            "%(title)s\t%(webpage_url)s\t%(duration)s"@,
            search_expression_text(query@, limit as nat),
        ],
{
    let mut args: Vec<String> = Vec::new();
    args.push(String::from_str("--skip-download"));
    args.push(String::from_str("--no-warnings"));
    args.push(String::from_str("--print"));
    args.push(String::from_str("%(title)s\t%(webpage_url)s\t%(duration)s"));
    args.push(search_expression(query, limit));
    assert(strings_view(args@) =~= seq![
        "--skip-download"@,
        "--no-warnings"@,
        "--print"@,
        "%(title)s\t%(webpage_url)s\t%(duration)s"@,
        search_expression_text(query@, limit as nat),
    ]);
    args
}

/// What a finished `yt-dlp` search gives: the hits in its output when it
/// exited successfully, else the error carrying what it printed on stderr.
pub fn search_outcome(success: bool, stdout: &str, stderr: String) -> (r: Result<Vec<YtSearchResult>, SearchError>)
    ensures
        success ==> (r matches Ok(v) && result_views(v@) == search_results(stdout@)),
        !success ==> (r matches Err(SearchError::YtDlpFailed { stderr: e }) && e@ == stderr@),
{
    if success {
        Ok(parse_search_output(stdout))
    } else {
        Err(SearchError::YtDlpFailed { stderr })
    }
}

/// The extra arguments handed to `yt-dlp` when a URL is streamed: the
/// JavaScript runtime, the cookie file, no playlists, and the audio format
/// choice (m4a audio, else opus audio not served over m3u8).
pub fn ytdlp_user_args() -> (args: Vec<String>)
    ensures
        strings_view(args@) == seq![
            "--js-runtimes"@,
            "deno"@,
            "--cookies"@,
            "./cookies.txt"@,
            "--no-playlist"@,
            "-f"@,
            "ba[ext=m4a]/ba[acodec^=opus][protocol!=m3u8]"@,
        ],
{
    let mut args: Vec<String> = Vec::new();
    args.push(String::from_str("--js-runtimes"));
    args.push(String::from_str("deno"));
    args.push(String::from_str("--cookies"));
    args.push(String::from_str("./cookies.txt"));
    args.push(String::from_str("--no-playlist"));
    args.push(String::from_str("-f"));
    args.push(String::from_str("ba[ext=m4a]/ba[acodec^=opus][protocol!=m3u8]"));
    assert(strings_view(args@) =~= seq![
        "--js-runtimes"@,
        "deno"@,
        "--cookies"@,
        "./cookies.txt"@,
        "--no-playlist"@,
        "-f"@,
        "ba[ext=m4a]/ba[acodec^=opus][protocol!=m3u8]"@,
    ]);
    args
}

/// A final line ending is optional, as `str::lines` promises: output that
/// does not end with `'\n'` or `'\r'` gives the same hits with a `'\n'`
/// added at its end.
pub proof fn law_final_newline_is_optional(out: Seq<char>)
    requires
        out.len() > 0,
        out.last() != '\n',
        out.last() != '\r',
    ensures
        lines(out.push('\n')) == lines(out),
        search_results(out.push('\n')) == search_results(out),
{
    let (closed, open) = split_scan(out, '\n');
    assert(out.push('\n').drop_last() =~= out);
    assert(open.len() > 0 && open.last() == out.last()) by {
        assert(out == out.drop_last().push(out.last()));
    }
    let ended = closed.map_values(|l: Seq<char>| strip_cr(l));
    assert(closed.push(open).map_values(|l: Seq<char>| strip_cr(l)) =~= ended.push(open));
}

/// Every hit comes from its own line: there are never more hits than lines.
pub proof fn law_at_most_one_hit_per_line(ls: Seq<Seq<char>>)
    ensures
        results_of_lines(ls).len() <= ls.len(),
    decreases ls.len(),
{
    if ls.len() > 0 {
        law_at_most_one_hit_per_line(ls.drop_last());
    }
}

proof fn lemma_digit_char_value(d: nat)
    requires
        d < 10,
    ensures
        is_digit(digit_char(d)),
        (digit_char(d) as int) - 48 == d,
{
    assert('0' as int == 48 && '1' as int == 49 && '2' as int == 50 && '3' as int == 51
        && '4' as int == 52 && '5' as int == 53 && '6' as int == 54 && '7' as int == 55
        && '8' as int == 56 && '9' as int == 57);
}

/// A number written in decimal reads back as itself: its rendering is a
/// non-empty string of digits whose value is the number, and `parse_u64`
/// gives the number back whenever it fits.
pub proof fn lemma_decimal_reads_back(n: nat)
    ensures
        decimal(n).len() > 0,
        all_digits(decimal(n)),
        digits_value(decimal(n)) == n,
        n <= u64::MAX ==> parse_u64(decimal(n)) == Some(n as u64),
    decreases n,
{
    let d = decimal(n);
    lemma_digit_char_value(n % 10);
    if n < 10 {
        assert(d == seq![digit_char(n)]);
        assert(d.drop_last() =~= Seq::<char>::empty());
        assert(digits_value(d.drop_last()) == 0);
        assert(d.last() == digit_char(n));
        assert(n % 10 == n);
        assert(digits_value(d) == n);
        assert(is_digit(d[0]));
    } else {
        lemma_decimal_reads_back(n / 10);
        let prefix = decimal(n / 10);
        assert(d == prefix.push(digit_char(n % 10)));
        assert(d.drop_last() =~= prefix);
        assert forall|i: int| 0 <= i < d.len() implies is_digit(#[trigger] d[i]) by {
            if i < prefix.len() {
                assert(d[i] == prefix[i]);
            }
        }
        assert(d.last() == digit_char(n % 10));
        assert(digits_value(d) == 10 * (n / 10) + n % 10);
    }
    assert(is_digit(d[0]));
    assert(d[0] != '+');
}

// ---------------------------------------------------------------------------
// Laws on fields and lines

/// `c` does not occur in `s`.
pub open spec fn has_no(s: Seq<char>, c: char) -> bool {
    forall|i: int| 0 <= i < s.len() ==> s[i] != c
}

proof fn lemma_split_scan_plain(a: Seq<char>, sep: char)
    requires
        has_no(a, sep),
    ensures
        split_scan(a, sep) == (Seq::<Seq<char>>::empty(), a),
    decreases a.len(),
{
    if a.len() > 0 {
        lemma_split_scan_plain(a.drop_last(), sep);
        assert(a.drop_last().push(a.last()) =~= a);
    } else {
        assert(a =~= Seq::<char>::empty());
    }
}

proof fn lemma_split_scan_after(a: Seq<char>, b: Seq<char>, sep: char)
    requires
        has_no(a, sep),
    ensures
        split_scan(a + seq![sep] + b, sep) == (seq![a] + split_scan(b, sep).0, split_scan(b, sep).1),
    decreases b.len(),
{
    let s = a + seq![sep] + b;
    if b.len() == 0 {
        assert(s.drop_last() =~= a);
        assert(s.last() == sep);
        lemma_split_scan_plain(a, sep);
        assert(Seq::<Seq<char>>::empty().push(a) =~= seq![a] + Seq::<Seq<char>>::empty());
    } else {
        lemma_split_scan_after(a, b.drop_last(), sep);
        assert(s.drop_last() =~= a + seq![sep] + b.drop_last());
        assert(s.last() == b.last());
        let (cb, ob) = split_scan(b.drop_last(), sep);
        assert((seq![a] + cb).push(ob) =~= seq![a] + cb.push(ob));
    }
}

/// Splitting text that starts with a separator-free piece and a separator
/// gives that piece, then the pieces of the rest; text without the
/// separator is a single piece.
pub proof fn lemma_split_fields(a: Seq<char>, b: Seq<char>, sep: char)
    requires
        has_no(a, sep),
    ensures
        split(a + seq![sep] + b, sep) == seq![a] + split(b, sep),
        split(a, sep) == seq![a],
{
    lemma_split_scan_after(a, b, sep);
    lemma_split_scan_plain(a, sep);
    let (cb, ob) = split_scan(b, sep);
    assert((seq![a] + cb).push(ob) =~= seq![a] + cb.push(ob));
    assert(Seq::<Seq<char>>::empty().push(a) =~= seq![a]);
}

/// A line `title<TAB>url` gives the hit with exactly that title and URL,
/// unchanged, and no duration; a line without a tab gives no hit.
pub proof fn law_two_field_line(title: Seq<char>, url: Seq<char>)
    requires
        has_no(title, '\t'),
        has_no(url, '\t'),
    ensures
        parse_result_line(title + seq!['\t'] + url)
            == Some(YtSearchResultView { title: title, url: url, duration: None }),
        parse_result_line(title) is None,
{
    lemma_split_fields(title, url, '\t');
    lemma_split_fields(url, Seq::<char>::empty(), '\t');
    assert(seq![title] + seq![url] =~= seq![title, url]);
}

/// A line `title<TAB>url<TAB>d` followed by nothing or by more tab-led
/// fields gives the hit with exactly that title and URL, unchanged, and the
/// duration `d` reads as.
pub proof fn law_three_field_line(title: Seq<char>, url: Seq<char>, d: Seq<char>, more: Seq<char>)
    requires
        has_no(title, '\t'),
        has_no(url, '\t'),
        has_no(d, '\t'),
        more.len() == 0 || more[0] == '\t',
    ensures
        parse_result_line(title + seq!['\t'] + url + seq!['\t'] + d + more)
            == Some(YtSearchResultView { title: title, url: url, duration: parse_u64(d) }),
{
    let rest = d + more;
    let line = title + seq!['\t'] + url + seq!['\t'] + rest;
    assert(title + seq!['\t'] + url + seq!['\t'] + d + more =~= line);
    assert(line =~= title + seq!['\t'] + (url + seq!['\t'] + rest));
    lemma_split_fields(title, url + seq!['\t'] + rest, '\t');
    lemma_split_fields(url, rest, '\t');
    if more.len() == 0 {
        assert(rest =~= d);
        lemma_split_fields(d, Seq::<char>::empty(), '\t');
    } else {
        assert(rest =~= d + seq!['\t'] + more.drop_first());
        lemma_split_fields(d, more.drop_first(), '\t');
    }
    let fields = split(line, '\t');
    assert(fields[0] == title);
    assert(fields[1] == url);
    assert(fields[2] == d);
}

/// The output of a search that found one hit, printed as one line
/// `title<TAB>url<TAB>d` and a newline, holds exactly that hit: title and
/// URL unchanged, and the duration `d` reads as.
pub proof fn law_single_hit_output(title: Seq<char>, url: Seq<char>, d: Seq<char>)
    requires
        has_no(title, '\t'),
        has_no(url, '\t'),
        has_no(d, '\t'),
        has_no(title, '\n'),
        has_no(url, '\n'),
        has_no(d, '\n'),
        d.len() == 0 || d.last() != '\r',
    ensures
        search_results(title + seq!['\t'] + url + seq!['\t'] + d + seq!['\n'])
            == seq![YtSearchResultView { title: title, url: url, duration: parse_u64(d) }],
{
    let line = title + seq!['\t'] + url + seq!['\t'] + d;
    law_three_field_line(title, url, d, Seq::<char>::empty());
    assert(line + Seq::<char>::empty() =~= line);
    assert(has_no(line, '\n')) by {
        assert forall|i: int| 0 <= i < line.len() implies line[i] != '\n' by {
            if i < title.len() {
                assert(line[i] == title[i]);
            } else if i == title.len() {
                assert(line[i] == '\t');
            } else if i < title.len() + 1 + url.len() {
                assert(line[i] == url[i - title.len() - 1]);
            } else if i == title.len() + 1 + url.len() {
                assert(line[i] == '\t');
            } else {
                assert(line[i] == d[i - title.len() - 2 - url.len()]);
            }
        }
    }
    lemma_split_scan_plain(line, '\n');
    let out = title + seq!['\t'] + url + seq!['\t'] + d + seq!['\n'];
    assert(out =~= line.push('\n'));
    assert(out.drop_last() =~= line);
    assert(line.last() != '\r') by {
        if d.len() == 0 {
            assert(line.last() == '\t');
        } else {
            assert(line.last() == d.last());
        }
    }
    assert(strip_cr(line) == line);
    let ended = seq![line].map_values(|l: Seq<char>| strip_cr(l));
    assert(ended =~= seq![line]);
    assert(Seq::<Seq<char>>::empty().push(line) =~= seq![line]);
    assert(out.last() == '\n');
    assert(split_scan(out, '\n') == (Seq::<Seq<char>>::empty().push(line), Seq::<char>::empty()));
    assert(lines(out) =~= seq![line]);
    assert(seq![line].drop_last() =~= Seq::<Seq<char>>::empty());
    assert(seq![line].last() == line);
    assert(results_of_lines(Seq::<Seq<char>>::empty()) == Seq::<YtSearchResultView>::empty());
    assert(parse_result_line(line) == Some(YtSearchResultView { title: title, url: url, duration: parse_u64(d) }));
    assert(results_of_lines(seq![line]) == Seq::<YtSearchResultView>::empty().push(
        YtSearchResultView { title: title, url: url, duration: parse_u64(d) }));
    assert(Seq::<YtSearchResultView>::empty().push(
        YtSearchResultView { title: title, url: url, duration: parse_u64(d) },
    ) =~= seq![YtSearchResultView { title: title, url: url, duration: parse_u64(d) }]);
}

} // verus!
