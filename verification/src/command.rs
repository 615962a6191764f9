//! The command to run and the text it gives back.
//!
//! The typed text is handed, as one last argument, to the configured command,
//! and that command is run through `sudo` as the user who started the
//! program. What the command printed comes back as text, whatever bytes it
//! was.

use crate::text::{string_from_chars, words};
use vstd::prelude::*;
use vstd::utf8::{decode_utf8, valid_utf8};

verus! {

/// A program and its arguments, ready to be spawned.
#[derive(Debug, Clone, PartialEq, Eq)]
pub struct Invocation {
    pub program: String,
    pub args: Vec<String>,
}

/// The decimal digit for `d`, where `d` is below ten.
pub open spec fn digit(d: nat) -> char {
    if d == 0 {
        '0'
    } else if d == 1 {
        '1'
    } else if d == 2 {
        '2'
    } else if d == 3 {
        '3'
    } else if d == 4 {
        '4'
    } else if d == 5 {
        '5'
    } else if d == 6 {
        '6'
    } else if d == 7 {
        '7'
    } else if d == 8 {
        '8'
    } else {
        '9'
    }
}

/// `n` written in decimal, without sign or leading zeros.
pub open spec fn decimal(n: nat) -> Seq<char>
    decreases n,
{
    if n < 10 {
        seq![digit(n)]
    } else {
        decimal(n / 10).push(digit(n % 10))
    }
}

/// The arguments given to `sudo`: run as the user with id `uid`, with that
/// user's login environment, the words of `pre_cmd` followed by `entry` as
/// a single argument.
pub open spec fn sudo_args(uid: u32, pre_cmd: Seq<Seq<char>>, entry: Seq<char>) -> Seq<Seq<char>> {
    seq!["-u"@, seq!['#'] + decimal(uid as nat), "-i"@, "--"@] + pre_cmd + seq![entry]
}

fn digit_char(d: u32) -> (c: char)
    requires
        d < 10,
    ensures
        c == digit(d as nat),
{
    match d {
        0 => '0',
        1 => '1',
        2 => '2',
        3 => '3',
        4 => '4',
        5 => '5',
        6 => '6',
        7 => '7',
        8 => '8',
        _ => '9',
    }
}

fn push_decimal(out: &mut Vec<char>, n: u32)
    ensures
        final(out)@ == old(out)@ + decimal(n as nat),
    decreases n,
{
    if n >= 10 {
        push_decimal(out, n / 10);
    }
    out.push(digit_char(n % 10));
    assert(out@ =~= old(out)@ + decimal(n as nat));
}

/// The user argument of `sudo`: a hash sign and the id in decimal.
pub fn uid_argument(uid: u32) -> (arg: String)
    ensures
        arg@ == seq!['#'] + decimal(uid as nat),
{
    let mut chars: Vec<char> = Vec::new();
    chars.push('#');
    push_decimal(&mut chars, uid);
    assert(chars@ =~= seq!['#'] + decimal(uid as nat));
    string_from_chars(&chars)
}

/// Builds the `sudo` invocation that runs `pre_cmd` on `entry` as user `uid`.
pub fn sudo_invocation(uid: u32, pre_cmd: &Vec<String>, entry: String) -> (invocation: Invocation)
    ensures
        invocation.program@ == "sudo"@,
        words(invocation.args@) == sudo_args(uid, words(pre_cmd@), entry@),
{
    let mut args: Vec<String> = Vec::new();
    args.push("-u".to_owned());
    args.push(uid_argument(uid));
    args.push("-i".to_owned());
    args.push("--".to_owned());
    let ghost head = seq!["-u"@, seq!['#'] + decimal(uid as nat), "-i"@, "--"@];
    assert(words(args@) =~= head);
    let mut i: usize = 0;
    while i < pre_cmd.len()
        invariant
            i <= pre_cmd@.len(),
            head.len() == 4,
            args@.len() == 4 + i,
            forall|j: int| 0 <= j < 4 ==> (#[trigger] args@[j])@ == head[j],
            forall|j: int| 0 <= j < i ==> (#[trigger] args@[4 + j])@ == pre_cmd@[j]@,
        decreases pre_cmd@.len() - i,
    {
        args.push(pre_cmd[i].clone());
        i += 1;
    }
    args.push(entry);
    assert(words(args@) =~= sudo_args(uid, words(pre_cmd@), entry@)) by {
        let target = sudo_args(uid, words(pre_cmd@), entry@);
        assert(words(args@).len() == target.len());
        assert forall|j: int| 0 <= j < target.len() implies words(args@)[j] == target[j] by {
            if j < 4 {
                assert(args@[j]@ == head[j]);
            } else if j < 4 + pre_cmd@.len() {
                assert(args@[4 + (j - 4)]@ == pre_cmd@[j - 4]@);
            }
        }
    }
    Invocation { program: "sudo".to_owned(), args }
}

/// The text that `String::from_utf8_lossy` makes of `bytes`.
pub uninterp spec fn utf8_lossy(bytes: Seq<u8>) -> Seq<char>;

/// Decodes `bytes` with `String::from_utf8_lossy`. The result depends on
/// the bytes alone; where they are valid UTF-8 it is the text they encode,
/// and where they are not, each invalid sequence is replaced by U+FFFD.
#[verifier::external_body]
fn decode_lossy(bytes: &[u8]) -> (text: String)
    ensures
        text@ == utf8_lossy(bytes@),
        valid_utf8(bytes@) ==> text@ == decode_utf8(bytes@),
{
    String::from_utf8_lossy(bytes).into_owned()
}

/// Standard output followed by standard error.
pub fn join_output(out: String, err: String) -> (text: String)
    ensures
        text@ == out@ + err@,
{
    out.concat(err.as_str())
}

/// The text a finished command gives back: what it wrote to standard
/// output, then what it wrote to standard error, each decoded leniently.
pub fn output_text(stdout: &[u8], stderr: &[u8]) -> (text: String)
    ensures
        text@ == utf8_lossy(stdout@) + utf8_lossy(stderr@),
        valid_utf8(stdout@) && valid_utf8(stderr@) ==> text@ == decode_utf8(stdout@) + decode_utf8(
            stderr@,
        ),
{
    let out = decode_lossy(stdout);
    let err = decode_lossy(stderr);
    join_output(out, err)
}

/// The text shown in place of output when the command could not be run.
pub fn failure_text(reason: &str) -> (text: String)
    ensures
        text@ == "Command failed: "@ + reason@,
{
    "Command failed: ".to_owned().concat(reason)
}

} // verus!
