//! The resolved configuration of one run: which session, which program.

use vstd::prelude::*;
use crate::decimal::{chars_of, parse_digits, parse_u32, parsed};
use crate::pipe::{entry_number, lemma_pipe_name_names_session, pipe_name, session_of_entry};

verus! {

/// What one run works with, fixed before the session starts.
#[derive(Clone, Debug, PartialEq, Eq)]
pub struct Config {
    /// Number of the session; it names the injection pipe.
    pub session_number: u32,
    /// The user's shell, where the environment names one.
    pub shell: Option<String>,
    /// Program to run in place of the shell.
    pub program: Option<String>,
    /// Whether this process already runs inside a session.
    pub in_session: bool,
}

/// Why the command line gave no configuration.
#[derive(Clone, Copy, Debug, PartialEq, Eq, Structural)]
pub enum ConfigError {
    /// `-s` was the last argument.
    MissingSessionNumber,
    /// What followed `-s` was no number that fits in 32 bits.
    InvalidSessionNumber,
    /// A session with the greatest number that fits in 32 bits exists
    /// already, so none is left to follow it.
    SessionsExhausted,
}

impl ConfigError {
    /// The error in words, for the user.
    pub open spec fn text(self) -> Seq<char> {
        match self {
            ConfigError::MissingSessionNumber => "Missing session number after -s"@,
            ConfigError::InvalidSessionNumber => "Invalid session number after -s"@,
            ConfigError::SessionsExhausted => "No session number is left"@,
        }
    }

    /// The error in words, for the user.
    pub fn message(&self) -> (message: &'static str)
        ensures
            message@ == self.text(),
    {
        match self {
            ConfigError::MissingSessionNumber => "Missing session number after -s",
            ConfigError::InvalidSessionNumber => "Invalid session number after -s",
            ConfigError::SessionsExhausted => "No session number is left",
        }
    }
}

/// What the command line says.
#[derive(Clone, Debug, PartialEq, Eq)]
pub struct Arguments {
    /// The session number that `-s` pins, if any.
    pub session_number: Option<u32>,
    /// The program named on the command line, if any.
    pub program: Option<String>,
}

/// The characters of an optional text.
pub open spec fn text_of(text: Option<String>) -> Option<Seq<char>> {
    match text {
        Some(text) => Some(text@),
        None => None,
    }
}

/// The characters of each text in a list.
pub open spec fn texts_of(list: Seq<String>) -> Seq<Seq<char>> {
    list.map_values(|text: String| text@)
}

/// [`Arguments`] as plain values.
pub struct ArgumentsView {
    pub session_number: Option<u32>,
    pub program: Option<Seq<char>>,
}

impl View for Arguments {
    type V = ArgumentsView;

    open spec fn view(&self) -> ArgumentsView {
        ArgumentsView { session_number: self.session_number, program: text_of(self.program) }
    }
}

/// [`Config`] as plain values.
pub struct ConfigView {
    pub session_number: u32,
    pub shell: Option<Seq<char>>,
    pub program: Option<Seq<char>>,
    pub in_session: bool,
}

impl View for Config {
    type V = ConfigView;

    open spec fn view(&self) -> ConfigView {
        ConfigView {
            session_number: self.session_number,
            shell: text_of(self.shell),
            program: text_of(self.program),
            in_session: self.in_session,
        }
    }
}

/// Whether `arg` is the session flag: `-s`, alone or with a number
/// attached.
pub open spec fn is_session_flag(arg: Seq<char>) -> bool {
    arg.len() >= 2 && arg[0] == '-' && arg[1] == 's'
}

/// What the arguments from position `from` on add to `seen`, read from
/// left to right.  `-sN` and `-s N` pin the session number; any other
/// argument names the program; of several, the last one counts.  The first
/// `-s` without a number, or with text that is no number, is an error.
pub open spec fn read_arguments(args: Seq<Seq<char>>, from: int, seen: ArgumentsView) -> Result<
    ArgumentsView,
    ConfigError,
>
    decreases args.len() - from,
{
    if from < 0 || from >= args.len() {
        Ok(seen)
    } else if !is_session_flag(args[from]) {
        read_arguments(
            args,
            from + 1,
            ArgumentsView { session_number: seen.session_number, program: Some(args[from]) },
        )
    } else if args[from].len() > 2 {
        match parsed(args[from].skip(2)) {
            Some(number) => read_arguments(
                args,
                from + 1,
                ArgumentsView { session_number: Some(number), program: seen.program },
            ),
            None => Err(ConfigError::InvalidSessionNumber),
        }
    } else if from + 1 >= args.len() {
        Err(ConfigError::MissingSessionNumber)
    } else {
        match parsed(args[from + 1]) {
            Some(number) => read_arguments(
                args,
                from + 2,
                ArgumentsView { session_number: Some(number), program: seen.program },
            ),
            None => Err(ConfigError::InvalidSessionNumber),
        }
    }
}

/// What a command line says, read from its first argument on.
pub open spec fn arguments(args: Seq<Seq<char>>) -> Result<ArgumentsView, ConfigError> {
    read_arguments(args, 0, ArgumentsView { session_number: None, program: None })
}

/// Reads the command line, without the program's own name.
pub fn parse_args(args: &Vec<String>) -> (result: Result<Arguments, ConfigError>)
    ensures
        match result {
            Ok(found) => arguments(texts_of(args@)) == Ok::<ArgumentsView, ConfigError>(found@),
            Err(error) => arguments(texts_of(args@)) == Err::<ArgumentsView, ConfigError>(error),
        },
{
    let ghost texts = texts_of(args@);
    let mut found = Arguments { session_number: None, program: None };
    let mut i: usize = 0;
    while i < args.len()
        invariant
            i <= args.len(),
            texts == texts_of(args@),
            arguments(texts) == read_arguments(texts, i as int, found@),
        decreases args.len() - i,
    {
        let chars = chars_of(args[i].as_str());
        if chars.len() >= 2 && chars[0] == '-' && chars[1] == 's' {
            let number = if chars.len() > 2 {
                i = i + 1;
                parse_digits(&chars, 2)
            } else if i + 1 < args.len() {
                let number = parse_u32(args[i + 1].as_str());
                i = i + 2;
                number
            } else {
                return Err(ConfigError::MissingSessionNumber);
            };
            match number {
                Some(number) => {
                    found.session_number = Some(number);
                },
                None => {
                    return Err(ConfigError::InvalidSessionNumber);
                },
            }
        } else {
            found.program = Some(args[i].clone());
            i = i + 1;
        }
    }
    Ok(found)
}

/// Whether one of `entries` is the pipe of session `number`.
pub open spec fn is_taken(entries: Seq<Seq<char>>, number: u32) -> bool {
    exists|i: int| 0 <= i < entries.len() && entry_number(#[trigger] entries[i]) == Some(number)
}

/// Whether `number` is the first number after those in use: greater than
/// the number of every pipe among `entries`, and zero or one more than the
/// number of one of them.
pub open spec fn follows_sessions(entries: Seq<Seq<char>>, number: u32) -> bool {
    &&& forall|i: int|
        0 <= i < entries.len() ==> (entry_number(#[trigger] entries[i]) matches Some(taken) ==> taken
            < number)
    &&& number > 0 ==> is_taken(entries, (number - 1) as u32)
}

/// The number of this run's session, from the number that the command
/// line pins and the names in the pipe directory.
pub open spec fn session_number_for(
    explicit: Option<u32>,
    entries: Seq<Seq<char>>,
    result: Result<u32, ConfigError>,
) -> bool {
    match explicit {
        Some(number) => result == Ok::<u32, ConfigError>(number),
        None => match result {
            Ok(number) => follows_sessions(entries, number),
            Err(error) => error == ConfigError::SessionsExhausted && is_taken(entries, u32::MAX),
        },
    }
}

/// Picks the session number: the pinned one if there is one, else one more
/// than the greatest number among the pipes in `entries`, or zero if there
/// is no pipe.  Names that are no pipe's are passed over.  Only a pipe
/// with the number `u32::MAX` leaves no number to pick.
pub fn resolve_session_number(explicit: Option<u32>, entries: &Vec<String>) -> (result: Result<
    u32,
    ConfigError,
>)
    ensures
        session_number_for(explicit, texts_of(entries@), result),
{
    if let Some(number) = explicit {
        return Ok(number);
    }
    let ghost names = texts_of(entries@);
    let mut greatest: Option<u32> = None;
    let mut i: usize = 0;
    while i < entries.len()
        invariant
            i <= entries.len(),
            names == texts_of(entries@),
            forall|j: int|
                0 <= j < i ==> (entry_number(#[trigger] names[j]) matches Some(taken) ==> greatest
                    matches Some(most) && taken <= most),
            greatest matches Some(most) ==> exists|j: int|
                0 <= j < i && entry_number(#[trigger] names[j]) == Some(most),
        decreases entries.len() - i,
    {
        let number = session_of_entry(entries[i].as_str());
        assert(number == entry_number(names[i as int]));
        if let Some(taken) = number {
            let is_greater = match greatest {
                Some(most) => taken > most,
                None => true,
            };
            if is_greater {
                greatest = Some(taken);
            }
        }
        i = i + 1;
    }
    match greatest {
        None => Ok(0),
        Some(most) => {
            if most == u32::MAX {
                Err(ConfigError::SessionsExhausted)
            } else {
                Ok(most + 1)
            }
        },
    }
}

/// A new session never takes the number of a session whose pipe is in the
/// directory: with no number pinned, the number picked is none of those
/// in use, and it is greater than each of them.
pub proof fn lemma_picked_number_is_free(entries: Seq<Seq<char>>, number: u32, other: u32)
    requires
        follows_sessions(entries, number),
        is_taken(entries, other),
    ensures
        other < number,
{
}

/// The number picked where the directory holds the pipe of session
/// `running` is greater than `running`.
pub proof fn lemma_picked_number_follows_running(entries: Seq<Seq<char>>, at: int, running: u32, number: u32)
    requires
        0 <= at < entries.len(),
        entries[at] == pipe_name(running),
        follows_sessions(entries, number),
    ensures
        running < number,
{
    lemma_pipe_name_names_session(running);
}

/// What the first number after those in use is, is settled by the
/// directory: no two numbers follow the same sessions.
pub proof fn lemma_picked_number_is_unique(entries: Seq<Seq<char>>, number: u32, other: u32)
    requires
        follows_sessions(entries, number),
        follows_sessions(entries, other),
    ensures
        number == other,
{
}

/// The configuration that a command line, a directory listing and the
/// environment give.
pub open spec fn configured(
    args: Seq<Seq<char>>,
    entries: Seq<Seq<char>>,
    shell: Option<Seq<char>>,
    marker: Option<Seq<char>>,
    result: Result<ConfigView, ConfigError>,
) -> bool {
    match arguments(args) {
        Err(error) => result == Err::<ConfigView, ConfigError>(error),
        Ok(found) => match result {
            Ok(config) => {
                &&& session_number_for(
                    found.session_number,
                    entries,
                    Ok::<u32, ConfigError>(config.session_number),
                )
                &&& config.shell == shell
                &&& config.program == found.program
                &&& config.in_session == marker.is_some()
            },
            Err(error) => session_number_for(
                found.session_number,
                entries,
                Err::<u32, ConfigError>(error),
            ),
        },
    }
}

/// The result of [`parse_config`] as plain values.
pub open spec fn config_view(result: Result<Config, ConfigError>) -> Result<ConfigView, ConfigError> {
    match result {
        Ok(config) => Ok(config@),
        Err(error) => Err(error),
    }
}

/// Resolves the configuration of a run from what its caller has read:
/// `args`, the command line without the program's own name; `entries`, the
/// names in the pipe directory; `shell`, the value of `SHELL`; `marker`,
/// the value of the session marker in the environment.
///
/// The command line is read first, so its errors come before any other.
/// The directory is consulted only where the command line pins no session
/// number.
pub fn parse_config(
    args: &Vec<String>,
    entries: &Vec<String>,
    shell: Option<String>,
    marker: &Option<String>,
) -> (result: Result<Config, ConfigError>)
    ensures
        configured(
            texts_of(args@),
            texts_of(entries@),
            text_of(shell),
            text_of(*marker),
            config_view(result),
        ),
{
    let found = match parse_args(args) {
        Ok(found) => found,
        Err(error) => {
            return Err(error);
        },
    };
    let session_number = match resolve_session_number(found.session_number, entries) {
        Ok(number) => number,
        Err(error) => {
            return Err(error);
        },
    };
    Ok(Config { session_number, shell, program: found.program, in_session: marker.is_some() })
}

} // verus!
