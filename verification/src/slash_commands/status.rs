//! `/status`.

use vstd::prelude::*;
use super::{plain_command, new_plain_command, CommandSpec, CommandSpecView};

verus! {

pub open spec fn status_command() -> CommandSpecView {
    plain_command("status"@, "Show the current status of the bot"@)
}

/// The declaration of `/status`.
pub fn register() -> (c: CommandSpec)
    ensures
        c@ == status_command(),
{
    new_plain_command("status", "Show the current status of the bot")
}

} // verus!
