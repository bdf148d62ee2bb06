//! Replies of the text commands (`!join`, `!search`, `!skip`); their checks
//! are those of the slash commands.

pub mod search;
pub mod skip;
