use mango_tango::adapters::discord::{plan_interaction, route_command, InteractionPlan, SlashRoute};
use mango_tango::commands;
use mango_tango::helpers::join_channel::{join_failed_error, join_failed_reply, plan_auto_join, AutoJoin, AutoJoinError};
use mango_tango::slash_commands::{
    self, commands_to_register, join, ping, play_link, search, skip, string_option, CommandError,
    OptionKind, ReceivedOption,
};
use mango_tango::slash_commands::{after_registration, require_call, start_registration, RegistrationStep};
use mango_tango::text::channel_mention;

fn opt(name: &str, value: Option<&str>) -> ReceivedOption {
    ReceivedOption { name: name.to_string(), string_value: value.map(|v| v.to_string()) }
}

#[test]
fn registration_order_and_shapes() {
    let cs = commands_to_register();
    let names: Vec<&str> = cs.iter().map(|c| c.name.as_str()).collect();
    assert_eq!(names, vec!["ping", "search", "play_link", "status", "skip"]);
    assert_eq!(cs[0].description, "A simple ping command");
    assert!(cs[0].options.is_empty());
    assert_eq!(cs[1].description, "Use a keyword to find a song");
    assert_eq!(cs[1].options.len(), 1);
    assert_eq!(cs[1].options[0].name, "query");
    assert_eq!(cs[1].options[0].description, "What to search for");
    assert_eq!(cs[1].options[0].kind, OptionKind::String);
    assert!(cs[1].options[0].required);
    assert_eq!(cs[2].options[0].name, "url");
    assert_eq!(cs[2].options[0].description, "Direct media/YouTube URL");
    assert_eq!(cs[2].description, "Queue audio by URL");
    assert_eq!(cs[3].description, "Show the current status of the bot");
    assert_eq!(cs[4].description, "Skip the current song");
    let j = join::register();
    assert_eq!(j.name, "join");
    assert_eq!(j.description, "Join current voice channel");
}

#[test]
fn option_lookup_first_match_decides() {
    let opts = vec![opt("other", Some("x")), opt("query", None), opt("query", Some("late"))];
    assert_eq!(string_option(&opts, "query"), None);
    let opts = vec![opt("other", Some("x")), opt("query", Some("lofi"))];
    assert_eq!(string_option(&opts, "query").as_deref(), Some("lofi"));
    assert_eq!(string_option(&opts, "url"), None);
    assert_eq!(string_option(&Vec::new(), "url"), None);
}

#[test]
fn mentions() {
    assert_eq!(channel_mention(1234567890123), "<#1234567890123>");
}

#[test]
fn routing() {
    assert_eq!(route_command("ping"), SlashRoute::Ping);
    assert_eq!(route_command("status"), SlashRoute::Status);
    assert_eq!(route_command("search"), SlashRoute::Search);
    assert_eq!(route_command("play_link"), SlashRoute::PlayLink);
    assert_eq!(route_command("skip"), SlashRoute::Skip);
    assert_eq!(route_command("join"), SlashRoute::Unknown);
    assert_eq!(plan_interaction("ping"), InteractionPlan { join_first: false, route: SlashRoute::Ping, idle_after: false });
    assert_eq!(plan_interaction("search"), InteractionPlan { join_first: true, route: SlashRoute::Search, idle_after: true });
    assert_eq!(plan_interaction("play_link"), InteractionPlan { join_first: true, route: SlashRoute::PlayLink, idle_after: true });
    assert_eq!(plan_interaction("skip"), InteractionPlan { join_first: true, route: SlashRoute::Skip, idle_after: false });
    assert_eq!(plan_interaction("status"), InteractionPlan { join_first: true, route: SlashRoute::Status, idle_after: false });
    assert_eq!(plan_interaction("dance"), InteractionPlan { join_first: true, route: SlashRoute::Unknown, idle_after: false });
}

#[test]
fn search_preparation() {
    let opts = vec![opt("query", Some("lofi"))];
    let err = search::prepare(None, &opts, Some(Some(3))).err().unwrap();
    assert_eq!(err.message(), "DMs not supported");
    let err = search::prepare(Some(1), &Vec::new(), Some(Some(3))).err().unwrap();
    assert_eq!(err.message(), "missing 'query' string option");
    let err = search::prepare(Some(1), &opts, None).err().unwrap();
    assert_eq!(err.message(), "guild not in cache");
    let err = search::prepare(Some(1), &opts, Some(None)).err().unwrap();
    assert_eq!(err.message(), "you must be in a voice channel");
    let req = search::prepare(Some(1), &opts, Some(Some(3))).ok().unwrap();
    assert_eq!((req.guild_id, req.channel_id), (1, 3));
    assert_eq!(req.query, "lofi");
    assert_eq!(req.expression, "ytsearch1:lofi");
    assert_eq!(search::queued_reply("lofi", 3), "🔎 ▶️ queued first result for “lofi” in <#3>");
    assert_eq!(CommandError::VoiceManagerMissing.message(), "Songbird voice manager not found");
    assert_eq!(CommandError::NotInCall.message(), "not in a voice channel (use /join first)");
}

#[test]
fn play_link_preparation() {
    let opts = vec![opt("url", Some("https://youtu.be/x"))];
    // the voice channel is checked before the option
    let err = play_link::prepare(Some(1), Some(None), &Vec::new()).err().unwrap();
    assert_eq!(err.message(), "you must be in a voice channel");
    let err = play_link::prepare(Some(1), Some(Some(2)), &Vec::new()).err().unwrap();
    assert_eq!(err.message(), "missing 'url' string option");
    let req = play_link::prepare(Some(1), Some(Some(2)), &opts).ok().unwrap();
    assert_eq!(req.url, "https://youtu.be/x");
    assert_eq!(play_link::queued_reply("https://youtu.be/x", 2), "▶️ queued: https://youtu.be/x in <#2>");
}

#[test]
fn join_preparation_and_replies() {
    assert!(matches!(join::prepare(None, Some(Some(2))), Err(CommandError::DmsNotSupported)));
    assert!(matches!(join::prepare(Some(1), None), Err(CommandError::GuildNotCached)));
    assert_eq!(join::prepare(Some(1), Some(Some(2))).ok(), Some((1, 2)));
    assert_eq!(join::join_reply(42, None), "Joined <#42>");
    assert_eq!(join::join_reply(42, Some("timed out".into())), "Couldn't join: timed out");
}

#[test]
fn auto_join() {
    assert_eq!(plan_auto_join(None, true, false, Some(Some(2))), Err(AutoJoinError::DmsNotSupported));
    assert_eq!(plan_auto_join(Some(1), false, true, Some(Some(2))), Err(AutoJoinError::VoiceManagerMissing));
    assert_eq!(plan_auto_join(Some(1), true, true, None), Ok(AutoJoin::AlreadyInCall));
    assert_eq!(plan_auto_join(Some(1), true, false, None), Err(AutoJoinError::GuildNotCached));
    assert_eq!(plan_auto_join(Some(1), true, false, Some(None)), Err(AutoJoinError::UserNotInVoice));
    assert_eq!(AutoJoinError::UserNotInVoice.message(), "You must be in a voice channel");
    assert_eq!(plan_auto_join(Some(1), true, false, Some(Some(2))), Ok(AutoJoin::Join { guild_id: 1, channel_id: 2 }));
    assert_eq!(join_failed_reply("boom"), "Couldn't join voice: boom");
    assert_eq!(join_failed_error("boom"), "join failed: boom");
}

fn text_of(step: skip::SkipStep) -> (String, &'static str) {
    match step {
        skip::SkipStep::Reply { text } => (text, "reply"),
        skip::SkipStep::StopAndReply { text } => (text, "stop"),
        skip::SkipStep::TrySkip => (String::new(), "try"),
    }
}

#[test]
fn skip_steps() {
    assert_eq!(text_of(skip::plan_skip(0)), ("⏭️ Nothing to skip — the queue is empty.".to_string(), "reply"));
    assert_eq!(text_of(skip::plan_skip(1)), ("⏹️ No next track queued — stopped playback.".to_string(), "stop"));
    assert_eq!(text_of(skip::plan_skip(2)).1, "try");
    assert_eq!(text_of(skip::after_skip_attempt(None)), ("⏭️ Skipped to the next track.".to_string(), "reply"));
    assert_eq!(
        text_of(skip::after_skip_attempt(Some("track ended".into()))),
        ("⏹️ Couldn't skip (track ended). Stopped playback.".to_string(), "stop")
    );
    assert_eq!(skip::not_in_voice_reply(), "❌ I'm not in a voice channel.");
}

#[test]
fn text_command_replies() {
    assert_eq!(ping::reply(), "🏓 Pong!");
    assert_eq!(commands::search::queued_reply("q"), "🔎 ▶️ queued first result for “q”");
    assert_eq!(commands::search::not_in_call_error(), "not in a voice channel (use !join first)");
    assert_eq!(commands::skip::not_in_call_error(), "Not in a voice channel (use !join first)");
    assert_eq!(commands::skip::voice_client_missing_error(), "Songbird Voice client not initialized");
    let _ = slash_commands::status::register();
}

#[test]
fn registration_steps() {
    assert_eq!(start_registration(0), RegistrationStep::Done);
    assert_eq!(start_registration(5), RegistrationStep::Register { index: 0 });
    assert_eq!(after_registration(0, true, 5), RegistrationStep::Register { index: 1 });
    assert_eq!(after_registration(4, true, 5), RegistrationStep::Done);
    assert_eq!(after_registration(2, false, 5), RegistrationStep::Stop);
    // Driving the steps with the third registration failing registers 0, 1, 2 and stops.
    let mut visited = Vec::new();
    let mut step = start_registration(5);
    while let RegistrationStep::Register { index } = step {
        visited.push(index);
        step = after_registration(index, index != 2, 5);
    }
    assert_eq!(visited, vec![0, 1, 2]);
    assert_eq!(step, RegistrationStep::Stop);
}

#[test]
fn call_checks() {
    assert!(matches!(require_call(false, false), Err(CommandError::VoiceManagerMissing)));
    assert!(matches!(require_call(false, true), Err(CommandError::VoiceManagerMissing)));
    assert!(matches!(require_call(true, false), Err(CommandError::NotInCall)));
    assert!(require_call(true, true).is_ok());
}
