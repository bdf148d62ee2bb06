//! `!search`.

use vstd::prelude::*;
use vstd::string::StringExecFns;

verus! {

pub open spec fn queued_reply_text(query: Seq<char>) -> Seq<char> {
    "🔎 ▶️ queued first result for “"@ + query + "”"@
}

/// What `!search` says once the first hit is queued.
pub fn queued_reply(query: &str) -> (r: String)
    ensures
        r@ == queued_reply_text(query@),
{
    let mut s = String::from_str("🔎 ▶️ queued first result for “");
    s.append(query);
    s.append("”");
    s
}

/// The error of `!search` when the bot is in no call.
pub fn not_in_call_error() -> (r: String)
    ensures
        r@ == "not in a voice channel (use !join first)"@,
{
    String::from_str("not in a voice channel (use !join first)")
}

} // verus!
