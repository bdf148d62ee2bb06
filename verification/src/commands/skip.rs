//! `!skip`; its steps are those of `/skip`.

use vstd::prelude::*;
use vstd::string::StringExecFns;

verus! {

/// The error of `!skip` when the voice client is not set up.
pub fn voice_client_missing_error() -> (r: String)
    ensures
        r@ == "Songbird Voice client not initialized"@,
{
    String::from_str("Songbird Voice client not initialized")
}

/// The error of `!skip` when the bot is in no call.
pub fn not_in_call_error() -> (r: String)
    ensures
        r@ == "Not in a voice channel (use !join first)"@,
{
    String::from_str("Not in a voice channel (use !join first)")
}

} // verus!
