//! `/ping`.

use vstd::prelude::*;
use vstd::string::StringExecFns;
use super::{plain_command, new_plain_command, CommandSpec, CommandSpecView};

verus! {

pub open spec fn ping_command() -> CommandSpecView {
    plain_command("ping"@, "A simple ping command"@)
}

/// The declaration of `/ping`.
pub fn register() -> (c: CommandSpec)
    ensures
        c@ == ping_command(),
{
    new_plain_command("ping", "A simple ping command")
}

/// What `/ping` answers.
pub fn reply() -> (r: String)
    ensures
        r@ == "🏓 Pong!"@,
{
    String::from_str("🏓 Pong!")
}

} // verus!
