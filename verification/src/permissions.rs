//! Who started the program.
//!
//! The program runs as the superuser, and the command has to run as the
//! user who asked for it. When the effective user is the superuser, the
//! wrappers that raise privileges leave the caller's id in the environment.

use crate::cli::{parse_u64, spec_parse_u64};
use vstd::prelude::*;

verus! {

/// Why the caller's id cannot be told.
#[derive(Debug, Clone, PartialEq, Eq)]
pub enum UidError {
    /// The id left in the environment is not a user id; the text says why.
    Invalid(String),
    /// The program runs as the superuser and no wrapper left an id.
    Unset,
}

impl UidError {
    pub fn message(&self) -> (text: String)
        ensures
            text@ == match *self {
                UidError::Invalid(reason) => reason@,
                UidError::Unset => "UID is 0 but SUDO_UID and PKEXEC_UID are not set"@,
            },
    {
        match self {
            UidError::Invalid(reason) => reason.clone(),
            UidError::Unset => "UID is 0 but SUDO_UID and PKEXEC_UID are not set".to_owned(),
        }
    }
}

/// The user id that `s` stands for in decimal, if it stands for one.
pub open spec fn spec_parse_uid(s: Seq<char>) -> Option<u32> {
    match spec_parse_u64(s) {
        Some(value) => if value <= u32::MAX {
            Some(value as u32)
        } else {
            None
        },
        None => None,
    }
}

/// The caller's id, from the effective user id and the two variables a
/// wrapper may have set. Anyone but the superuser is the caller. For the
/// superuser the id left by `sudo` counts, and that of `pkexec` only where
/// `sudo` left none.
pub open spec fn spec_caller_uid(
    euid: u32,
    sudo_uid: Option<Seq<char>>,
    pkexec_uid: Option<Seq<char>>,
) -> Option<u32> {
    if euid != 0 {
        Some(euid)
    } else if sudo_uid is Some {
        spec_parse_uid(sudo_uid.unwrap())
    } else if pkexec_uid is Some {
        spec_parse_uid(pkexec_uid.unwrap())
    } else {
        None
    }
}

fn parse_uid(text: &str) -> (uid: Result<u32, UidError>)
    ensures
        match uid {
            Ok(uid) => spec_parse_uid(text@) == Some(uid),
            Err(error) => spec_parse_uid(text@) is None && error is Invalid,
        },
{
    match parse_u64(text) {
        Ok(value) => {
            if value <= u32::MAX as u64 {
                Ok(value as u32)
            } else {
                Err(UidError::Invalid("number too large to fit in target type".to_owned()))
            }
        },
        Err(reason) => Err(UidError::Invalid(reason)),
    }
}

/// The view of a text that may be absent.
pub open spec fn text_view(text: Option<String>) -> Option<Seq<char>> {
    match text {
        Some(text) => Some(text@),
        None => None,
    }
}

/// Get the id of the caller. `euid` is the effective user id; `sudo_uid`
/// and `pkexec_uid` are the values of `SUDO_UID` and `PKEXEC_UID`, where
/// they are set.
pub fn get_caller_uid(euid: u32, sudo_uid: Option<String>, pkexec_uid: Option<String>) -> (uid:
    Result<u32, UidError>)
    ensures
        match uid {
            Ok(uid) => spec_caller_uid(euid, text_view(sudo_uid), text_view(pkexec_uid)) == Some(
                uid,
            ),
            Err(error) => {
                &&& spec_caller_uid(euid, text_view(sudo_uid), text_view(pkexec_uid)) is None
                &&& error is Unset <==> sudo_uid is None && pkexec_uid is None
            },
        },
{
    if euid != 0 {
        return Ok(euid);
    }
    if let Some(sudo_uid) = sudo_uid {
        parse_uid(sudo_uid.as_str())
    } else if let Some(pkexec_uid) = pkexec_uid {
        parse_uid(pkexec_uid.as_str())
    } else {
        Err(UidError::Unset)
    }
}

} // verus!
