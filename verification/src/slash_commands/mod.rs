//! The slash commands: how each is declared to Discord, the order they are
//! registered in, the errors they answer with, and how their options are read.

pub mod join;
pub mod ping;
pub mod play_link;
pub mod search;
pub mod skip;
pub mod status;

use vstd::prelude::*;
use vstd::string::StringExecFns;
use crate::text::same_text;

verus! {

/// The type of a command option.
#[derive(Debug, Clone, Copy, PartialEq, Eq, Structural)]
pub enum OptionKind {
    String,
}

/// An option a command declares.
pub struct CommandOptionSpec {
    pub kind: OptionKind,
    pub name: String,
    pub description: String,
    pub required: bool,
}

/// A command as declared to Discord: name, description and options.
pub struct CommandSpec {
    pub name: String,
    pub description: String,
    pub options: Vec<CommandOptionSpec>,
}

pub struct CommandOptionSpecView {
    pub kind: OptionKind,
    pub name: Seq<char>,
    pub description: Seq<char>,
    pub required: bool,
}

pub struct CommandSpecView {
    pub name: Seq<char>,
    pub description: Seq<char>,
    pub options: Seq<CommandOptionSpecView>,
}

impl View for CommandOptionSpec {
    type V = CommandOptionSpecView;

    open spec fn view(&self) -> CommandOptionSpecView {
        CommandOptionSpecView {
            kind: self.kind,
            name: self.name@,
            description: self.description@,
            required: self.required,
        }
    }
}

impl View for CommandSpec {
    type V = CommandSpecView;

    open spec fn view(&self) -> CommandSpecView {
        CommandSpecView {
            name: self.name@,
            description: self.description@,
            options: self.options@.map_values(|o: CommandOptionSpec| o@),
        }
    }
}

/// A command with no option.
pub open spec fn plain_command(name: Seq<char>, description: Seq<char>) -> CommandSpecView {
    CommandSpecView { name, description, options: seq![] }
}

/// A command with one required string option.
pub open spec fn command_with_string_option(
    name: Seq<char>,
    description: Seq<char>,
    option_name: Seq<char>,
    option_description: Seq<char>,
) -> CommandSpecView {
    CommandSpecView {
        name,
        description,
        options: seq![CommandOptionSpecView {
            kind: OptionKind::String,
            name: option_name,
            description: option_description,
            required: true,
        }],
    }
}

/// Builds a command with no option.
pub fn new_plain_command(name: &str, description: &str) -> (c: CommandSpec)
    ensures
        c@ == plain_command(name@, description@),
{
    let c = CommandSpec {
        name: String::from_str(name),
        description: String::from_str(description),
        options: Vec::new(),
    };
    assert(c@.options =~= seq![]);
    c
}

/// Builds a command with one required string option.
pub fn new_command_with_string_option(
    name: &str,
    description: &str,
    option_name: &str,
    option_description: &str,
) -> (c: CommandSpec)
    ensures
        c@ == command_with_string_option(name@, description@, option_name@, option_description@),
{
    let mut options: Vec<CommandOptionSpec> = Vec::new();
    options.push(CommandOptionSpec {
        kind: OptionKind::String,
        name: String::from_str(option_name),
        description: String::from_str(option_description),
        required: true,
    });
    let c = CommandSpec {
        name: String::from_str(name),
        description: String::from_str(description),
        options,
    };
    assert(c@.options =~= command_with_string_option(name@, description@, option_name@, option_description@).options);
    c
}

/// The commands registered with Discord, in the order they are sent:
/// `/ping`, `/search`, `/play_link`, `/status`, `/skip`. (`/join` exists
/// but is not registered.)
pub open spec fn registered_commands() -> Seq<CommandSpecView> {
    seq![
        ping::ping_command(),
        search::search_command(),
        play_link::play_link_command(),
        status::status_command(),
        skip::skip_command(),
    ]
}

/// The commands to register, in order.
pub fn commands_to_register() -> (cs: Vec<CommandSpec>)
    ensures
        cs@.map_values(|c: CommandSpec| c@) == registered_commands(),
{
    let mut cs: Vec<CommandSpec> = Vec::new();
    cs.push(ping::register());
    cs.push(search::register());
    cs.push(play_link::register());
    cs.push(status::register());
    cs.push(skip::register());
    assert(cs@.map_values(|c: CommandSpec| c@) =~= registered_commands());
    cs
}

/// Where registering the commands stands.
#[derive(Debug, Clone, Copy, PartialEq, Eq, Structural)]
pub enum RegistrationStep {
    /// Register the command at `index` in `commands_to_register`.
    Register { index: usize },
    /// A registration failed: stop, with that failure's error.
    Stop,
    /// Every command is registered.
    Done,
}

/// The first registration step for `count` commands.
pub fn start_registration(count: usize) -> (step: RegistrationStep)
    ensures
        count == 0 ==> step == RegistrationStep::Done,
        count > 0 ==> step == (RegistrationStep::Register { index: 0 }),
{
    if count == 0 { RegistrationStep::Done } else { RegistrationStep::Register { index: 0 } }
}

/// The step after registering the command at `index` of `count`: a failure
/// stops registration there; a success moves to the next command, or ends
/// after the last one.
pub fn after_registration(index: usize, succeeded: bool, count: usize) -> (step: RegistrationStep)
    requires
        index < count,
    ensures
        !succeeded ==> step == RegistrationStep::Stop,
        succeeded && index + 1 < count ==> step == (RegistrationStep::Register { index: (index + 1) as usize }),
        succeeded && index + 1 == count ==> step == RegistrationStep::Done,
{
    if !succeeded {
        RegistrationStep::Stop
    } else if index + 1 < count {
        RegistrationStep::Register { index: index + 1 }
    } else {
        RegistrationStep::Done
    }
}

/// What is registered with Discord: the commands `ping`, `search`,
/// `play_link`, `status` and `skip`, in that order; `search` declares one
/// string option `query` and `play_link` one string option `url`, the
/// others none; every declared option is a required string.
pub proof fn law_registered_declarations()
    ensures
        registered_commands().len() == 5,
        registered_commands()[0].name == "ping"@,
        registered_commands()[1].name == "search"@,
        registered_commands()[2].name == "play_link"@,
        registered_commands()[3].name == "status"@,
        registered_commands()[4].name == "skip"@,
        registered_commands()[0].options.len() == 0,
        registered_commands()[1].options.len() == 1,
        registered_commands()[1].options[0].name == "query"@,
        registered_commands()[2].options.len() == 1,
        registered_commands()[2].options[0].name == "url"@,
        registered_commands()[2].options[0].description == "Direct media/YouTube URL"@,
        registered_commands()[3].options.len() == 0,
        registered_commands()[4].options.len() == 0,
        forall|i: int, j: int| 0 <= i < registered_commands().len()
            && 0 <= j < registered_commands()[i].options.len() ==> {
                &&& #[trigger] registered_commands()[i].options[j].required
                &&& registered_commands()[i].options[j].kind == OptionKind::String
            },
{
    let cs = registered_commands();
    assert forall|i: int, j: int| 0 <= i < cs.len() && 0 <= j < cs[i].options.len() implies {
        &&& #[trigger] cs[i].options[j].required
        &&& cs[i].options[j].kind == OptionKind::String
    } by {
        if i == 1 {
            assert(cs[1] == search::search_command());
        } else if i == 2 {
            assert(cs[2] == play_link::play_link_command());
        }
    }
}

/// An option as received with a command: its name, and its text when it
/// holds a string.
pub struct ReceivedOption {
    pub name: String,
    pub string_value: Option<String>,
}

/// The text of the option `name`: the first option of that name decides,
/// and it gives a value only when it holds a string.
pub open spec fn string_option_value(options: Seq<ReceivedOption>, name: Seq<char>) -> Option<Seq<char>>
    decreases options.len(),
{
    if options.len() == 0 {
        None
    } else if options[0].name@ == name {
        match options[0].string_value {
            Some(v) => Some(v@),
            None => None,
        }
    } else {
        string_option_value(options.drop_first(), name)
    }
}

/// Looks up the string option `name` among the options of a command.
pub fn string_option(options: &Vec<ReceivedOption>, name: &str) -> (r: Option<String>)
    ensures
        match r {
            Some(v) => string_option_value(options@, name@) == Some(v@),
            None => string_option_value(options@, name@) is None,
        },
{
    let mut i: usize = 0;
    assert(options@.skip(0) =~= options@);
    while i < options.len()
        invariant
            i <= options@.len(),
            string_option_value(options@, name@) == string_option_value(options@.skip(i as int), name@),
        decreases options@.len() - i,
    {
        let o = &options[i];
        assert(options@.skip(i as int)[0] == options@[i as int]);
        if same_text(o.name.as_str(), name) {
            return match &o.string_value {
                Some(v) => Some(v.clone()),
                None => None,
            };
        }
        assert(options@.skip(i as int).drop_first() =~= options@.skip(i + 1));
        i = i + 1;
    }
    None
}

/// Why a command could not do its work.
pub enum CommandError {
    /// The command was sent outside a guild.
    DmsNotSupported,
    /// The guild is not in the cache.
    GuildNotCached,
    /// The user is not in a voice channel.
    UserNotInVoice,
    /// The required string option `name` is missing.
    MissingOption { name: String },
    /// The voice manager is not set up.
    VoiceManagerMissing,
    /// The bot is not in a call in the guild.
    NotInCall,
}

impl CommandError {
    pub open spec fn message_text(self) -> Seq<char> {
        match self {
            CommandError::DmsNotSupported => "DMs not supported"@,
            CommandError::GuildNotCached => "guild not in cache"@,
            CommandError::UserNotInVoice => "you must be in a voice channel"@,
            CommandError::MissingOption { name } => "missing '"@ + name@ + "' string option"@,
            CommandError::VoiceManagerMissing => "Songbird voice manager not found"@,
            CommandError::NotInCall => "not in a voice channel (use /join first)"@,
        }
    }

    /// The error as the commands report it.
    pub fn message(&self) -> (r: String)
        ensures
            r@ == self.message_text(),
    {
        match self {
            CommandError::DmsNotSupported => String::from_str("DMs not supported"),
            CommandError::GuildNotCached => String::from_str("guild not in cache"),
            CommandError::UserNotInVoice => String::from_str("you must be in a voice channel"),
            CommandError::MissingOption { name } => {
                let mut s = String::from_str("missing '");
                s.append(name.as_str());
                s.append("' string option");
                s
            },
            CommandError::VoiceManagerMissing => String::from_str("Songbird voice manager not found"),
            CommandError::NotInCall => String::from_str("not in a voice channel (use /join first)"),
        }
    }
}

/// The guild a command was sent in; outside a guild it fails.
pub fn require_guild(guild_id: Option<u64>) -> (r: Result<u64, CommandError>)
    ensures
        match guild_id {
            Some(g) => r == Ok::<u64, CommandError>(g),
            None => r matches Err(CommandError::DmsNotSupported),
        },
{
    match guild_id {
        Some(g) => Ok(g),
        None => Err(CommandError::DmsNotSupported),
    }
}

/// The voice channel of the user who sent a command, read from the cached
/// guild: `None` when the guild is not cached, `Some(None)` when the user is
/// in no voice channel.
pub fn user_voice_channel(cached: Option<Option<u64>>) -> (r: Result<u64, CommandError>)
    ensures
        match cached {
            None => r matches Err(CommandError::GuildNotCached),
            Some(None) => r matches Err(CommandError::UserNotInVoice),
            Some(Some(c)) => r == Ok::<u64, CommandError>(c),
        },
{
    match cached {
        None => Err(CommandError::GuildNotCached),
        Some(None) => Err(CommandError::UserNotInVoice),
        Some(Some(c)) => Ok(c),
    }
}

/// The required string option `name`; without it the command fails.
pub fn require_string_option(options: &Vec<ReceivedOption>, name: &str) -> (r: Result<String, CommandError>)
    ensures
        match string_option_value(options@, name@) {
            Some(v) => r matches Ok(s) && s@ == v,
            None => r matches Err(CommandError::MissingOption { name: n }) && n@ == name@,
        },
{
    match string_option(options, name) {
        Some(v) => Ok(v),
        None => Err(CommandError::MissingOption { name: String::from_str(name) }),
    }
}

/// The voice checks `/search` and `/play_link` make once their request is
/// ready, in their order: the voice manager must be set up, then the bot
/// must be in a call in the guild.
pub fn require_call(manager_ready: bool, in_call: bool) -> (r: Result<(), CommandError>)
    ensures
        !manager_ready ==> r matches Err(CommandError::VoiceManagerMissing),
        manager_ready && !in_call ==> r matches Err(CommandError::NotInCall),
        manager_ready && in_call ==> r is Ok,
{
    if !manager_ready {
        Err(CommandError::VoiceManagerMissing)
    } else if !in_call {
        Err(CommandError::NotInCall)
    } else {
        Ok(())
    }
}

} // verus!
