//! What the command line means.
//!
//! The words of the command line are taken apart elsewhere; here are the
//! checks on their values and the settings they amount to.

use crate::terminal::{ConfigError, OutputMethod, TerminalConfig};
use crate::text::words;
use vstd::prelude::*;

verus! {

/// The words that `shlex::split` cuts a command line into, by the rules of
/// a POSIX shell; `None` where the line cannot be cut, as with a quote left
/// open.
pub uninterp spec fn shlex_split(input: Seq<char>) -> Option<Seq<Seq<char>>>;

/// The view of a list of words that may be absent.
pub open spec fn words_view(list: Option<Vec<String>>) -> Option<Seq<Seq<char>>> {
    match list {
        Some(list) => Some(words(list@)),
        None => None,
    }
}

/// Splits `arg` with `shlex::split`, which reads the whole string and
/// depends on nothing else.
#[verifier::external_body]
fn split(arg: &str) -> (list: Option<Vec<String>>)
    ensures
        words_view(list) == shlex_split(arg@),
{
    shlex::split(arg)
}

/// The value of a decimal digit; anything else has none.
pub open spec fn digit_value(c: char) -> Option<nat> {
    if '0' <= c <= '9' {
        Some((c as nat - '0' as nat) as nat)
    } else {
        None
    }
}

/// Every character is a decimal digit.
pub open spec fn all_digits(s: Seq<char>) -> bool {
    forall|i: int| 0 <= i < s.len() ==> digit_value(#[trigger] s[i]) is Some
}

/// The number that a run of decimal digits stands for.
pub open spec fn digits_value(s: Seq<char>) -> nat
    decreases s.len(),
{
    if s.len() == 0 {
        0
    } else {
        digits_value(s.drop_last()) * 10 + digit_value(s.last()).unwrap_or(0)
    }
}

/// The number that `s` stands for as an unsigned decimal: an optional plus
/// sign, then one digit at least and digits only. There is no number where
/// the text is of another form or the value does not fit.
pub open spec fn spec_parse_u64(s: Seq<char>) -> Option<u64> {
    let digits = if s.len() > 0 && s[0] == '+' {
        s.skip(1)
    } else {
        s
    };
    if digits.len() > 0 && all_digits(digits) && digits_value(digits) <= u64::MAX {
        Some(digits_value(digits) as u64)
    } else {
        None
    }
}

/// Parses `arg` with `str::parse::<u64>`. The standard library accepts an
/// optional plus sign followed by decimal digits only and refuses the empty
/// string, any other character and values beyond the type; the error is
/// its own message as text.
#[verifier::external_body]
pub(crate) fn parse_u64(arg: &str) -> (parsed: Result<u64, String>)
    ensures
        match parsed {
            Ok(value) => spec_parse_u64(arg@) == Some(value),
            Err(_) => spec_parse_u64(arg@) is None,
        },
{
    match arg.parse::<u64>() {
        Ok(value) => Ok(value),
        Err(error) => Err(error.to_string()),
    }
}

/// Accepts `arg` as a prefix command given what it splits into: the
/// argument itself where it splits, a message that quotes it where it does
/// not.
pub fn check_shell_cmd(arg: &str, split: &Option<Vec<String>>) -> (checked: Result<String, String>)
    ensures
        match checked {
            Ok(cmd) => split is Some && cmd@ == arg@,
            Err(message) => split is None && message@ == "Failed to parse command "@ + arg@,
        },
{
    if split.is_some() {
        Ok(arg.to_owned())
    } else {
        Err("Failed to parse command ".to_owned().concat(arg))
    }
}

/// Checks that `arg` can be split into words the way a shell would.
pub fn validate_shell_cmd(arg: &str) -> (checked: Result<String, String>)
    ensures
        match checked {
            Ok(cmd) => shlex_split(arg@) is Some && cmd@ == arg@,
            Err(message) => shlex_split(arg@) is None && message@ == "Failed to parse command "@
                + arg@,
        },
{
    let list = split(arg);
    check_shell_cmd(arg, &list)
}

/// Reads a pause between key presses, in milliseconds.
pub fn duration_parser(arg: &str) -> (delay: Result<u64, String>)
    ensures
        match delay {
            Ok(millis) => spec_parse_u64(arg@) == Some(millis),
            Err(_) => spec_parse_u64(arg@) is None,
        },
{
    parse_u64(arg)
}

/// The settings for a prefix command already split into words.
pub fn config_from_words(
    pre_cmd: Option<Vec<String>>,
    type_output: bool,
    key_delay: Option<u64>,
) -> (config: Result<TerminalConfig, ConfigError>)
    ensures
        match config {
            Ok(config) => {
                &&& pre_cmd matches Some(list)
                &&& list@.len() > 0
                &&& config.pre_cmd == list
                &&& config.output_method == if type_output {
                    OutputMethod::Type
                } else {
                    OutputMethod::Paste
                }
                &&& config.key_delay == key_delay
                &&& config.wf()
            },
            Err(ConfigError::Unparsable) => pre_cmd is None,
            Err(ConfigError::Empty) => pre_cmd matches Some(list) && list@.len() == 0,
        },
{
    match pre_cmd {
        None => Err(ConfigError::Unparsable),
        Some(list) => {
            if list.len() == 0 {
                Err(ConfigError::Empty)
            } else {
                Ok(
                    TerminalConfig {
                        pre_cmd: list,
                        output_method: if type_output {
                            OutputMethod::Type
                        } else {
                            OutputMethod::Paste
                        },
                        key_delay,
                    },
                )
            }
        },
    }
}

/// The settings that the command line asks for: the prefix command split
/// into words, the output typed or pasted, and the pause between keys.
pub fn config_from_arguments(pre_cmd: &str, type_output: bool, key_delay: Option<u64>) -> (config:
    Result<TerminalConfig, ConfigError>)
    ensures
        match config {
            Ok(config) => {
                &&& shlex_split(pre_cmd@) == Some(words(config.pre_cmd@))
                &&& config.output_method == if type_output {
                    OutputMethod::Type
                } else {
                    OutputMethod::Paste
                }
                &&& config.key_delay == key_delay
                &&& config.wf()
            },
            Err(ConfigError::Unparsable) => shlex_split(pre_cmd@) is None,
            Err(ConfigError::Empty) => shlex_split(pre_cmd@) == Some(Seq::<Seq<char>>::empty()),
        },
{
    let list = split(pre_cmd);
    proof {
        if list is Some && list->0@.len() == 0 {
            assert(words(list->0@) =~= Seq::<Seq<char>>::empty());
        }
    }
    config_from_words(list, type_output, key_delay)
}

/// The verbosity the program starts from, and the help for the two flags
/// that change it.
#[derive(Copy, Clone, Debug, Default)]
pub struct Level;

impl Level {
    pub fn verbose_help() -> (help: Option<&'static str>)
        ensures
            help matches Some(text) && text@ == "Increase verbosity"@,
    {
        Some("Increase verbosity")
    }

    pub fn quiet_help() -> (help: Option<&'static str>)
        ensures
            help matches Some(text) && text@ == "Decrease verbosity"@,
    {
        Some("Decrease verbosity")
    }
}

} // verus!
