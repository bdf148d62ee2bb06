//! Verified core of a Discord music bot: command replies, queue and idle
//! decisions, status bookkeeping and parsing of `yt-dlp` search output.

pub mod text;
pub mod lifecycle;
pub mod init;
pub mod helpers;
pub mod middleware;
pub mod adapters;
pub mod slash_commands;
pub mod commands;
