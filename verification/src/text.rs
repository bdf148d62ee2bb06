//! Text helpers shared by the reply builders: decimal rendering of integers
//! and character-level access to strings.

use vstd::prelude::*;
use vstd::string::StringExecFns;
use crate::adapters::youtube::{lemma_decimal_reads_back, parse_u64};

verus! {

/// The ASCII character of a decimal digit.
pub open spec fn digit_char(d: nat) -> char {
    if d == 0 { '0' }
    else if d == 1 { '1' }
    else if d == 2 { '2' }
    else if d == 3 { '3' }
    else if d == 4 { '4' }
    else if d == 5 { '5' }
    else if d == 6 { '6' }
    else if d == 7 { '7' }
    else if d == 8 { '8' }
    else { '9' }
}

/// The decimal rendering of a natural number, without sign or leading zeros,
/// as `Display` prints an unsigned integer.
pub open spec fn decimal(n: nat) -> Seq<char>
    decreases n,
{
    if n < 10 {
        seq![digit_char(n)]
    } else {
        decimal(n / 10).push(digit_char(n % 10))
    }
}

/// `String::push`: appends one character to the end of the string, as its
/// documentation states.
#[verifier::external_body]
pub(crate) fn push_char(s: &mut String, c: char)
    ensures
        final(s)@ == old(s)@.push(c),
{
    s.push(c);
}

fn digit_to_char(d: u64) -> (c: char)
    requires
        d < 10,
    ensures
        c == digit_char(d as nat),
{
    if d == 0 { '0' }
    else if d == 1 { '1' }
    else if d == 2 { '2' }
    else if d == 3 { '3' }
    else if d == 4 { '4' }
    else if d == 5 { '5' }
    else if d == 6 { '6' }
    else if d == 7 { '7' }
    else if d == 8 { '8' }
    else { '9' }
}

/// Appends the decimal rendering of `n` to `s`.
pub fn push_decimal(s: &mut String, n: u64)
    ensures
        final(s)@ == old(s)@ + decimal(n as nat),
    decreases n,
{
    if n >= 10 {
        push_decimal(s, n / 10);
    }
    push_char(s, digit_to_char(n % 10));
    assert(decimal(n as nat) == if n < 10 { seq![digit_char(n as nat)] } else {
        decimal((n / 10) as nat).push(digit_char((n % 10) as nat))
    });
}

/// The decimal rendering of `n` as a new string.
pub fn decimal_string(n: u64) -> (r: String)
    ensures
        r@ == decimal(n as nat),
{
    let mut s = String::new();
    push_decimal(&mut s, n);
    s
}

/// The characters of a string slice, in order.
pub fn chars_of(s: &str) -> (r: Vec<char>)
    ensures
        r@ == s@,
{
    let mut out: Vec<char> = Vec::new();
    for c in it: s.chars()
        invariant
            out@ == it.seq().take(it.index()),
    {
        out.push(c);
    }
    out
}

/// Whether two strings hold the same characters.
pub fn same_text(a: &str, b: &str) -> (r: bool)
    ensures
        r == (a@ == b@),
{
    let x = chars_of(a);
    let y = chars_of(b);
    if x.len() != y.len() {
        return false;
    }
    let mut i: usize = 0;
    while i < x.len()
        invariant
            x@.len() == y@.len(),
            x@ == a@,
            y@ == b@,
            i <= x@.len(),
            forall|j: int| 0 <= j < i ==> x@[j] == y@[j],
        decreases x@.len() - i,
    {
        if x[i] != y[i] {
            assert(x@[i as int] != y@[i as int]);
            assert(a@ != b@);
            return false;
        }
        i = i + 1;
    }
    assert(x@ =~= y@);
    true
}

/// How Discord shows a mention of the channel `id`: `"<#{id}>"`.
pub open spec fn channel_mention_text(id: u64) -> Seq<char> {
    "<#"@ + decimal(id as nat) + ">"@
}

/// The mention of a channel, as serenity's `Mention::Channel` prints it.
pub fn channel_mention(id: u64) -> (r: String)
    ensures
        r@ == channel_mention_text(id),
{
    let mut s = String::from_str("<#");
    push_decimal(&mut s, id);
    s.append(">");
    s
}

/// A channel mention names the channel itself: it is `<#`, then text that
/// reads back as exactly the channel id, then `>`.
pub proof fn law_mention_names_channel(id: u64)
    ensures
        channel_mention_text(id).len() >= 3,
        channel_mention_text(id).subrange(0, 2) == seq!['<', '#'],
        channel_mention_text(id).last() == '>',
        parse_u64(channel_mention_text(id).subrange(2, channel_mention_text(id).len() - 1)) == Some(id),
{
    reveal_strlit("<#");
    reveal_strlit(">");
    lemma_decimal_reads_back(id as nat);
    let t = channel_mention_text(id);
    let d = decimal(id as nat);
    assert(t.subrange(0, 2) =~= seq!['<', '#']);
    assert(t.subrange(2, t.len() - 1) =~= d);
}

} // verus!
