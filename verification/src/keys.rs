//! Key identities and the two character tables.
//!
//! A key is identified by its Linux input scancode. Each printable key types
//! one character without Shift and one with it; the reverse table finds, for a
//! character, the key and Shift state that type it.

use vstd::prelude::*;

verus! {

/// The identity of a physical key: its scancode.
pub type Key = u16;

/// Number of scancodes a key set has room for; every real key is below it.
pub const KEY_COUNT: u16 = 0x300;

pub const KEY_ESC: Key = 1;
pub const KEY_1: Key = 2;
pub const KEY_2: Key = 3;
pub const KEY_3: Key = 4;
pub const KEY_4: Key = 5;
pub const KEY_5: Key = 6;
pub const KEY_6: Key = 7;
pub const KEY_7: Key = 8;
pub const KEY_8: Key = 9;
pub const KEY_9: Key = 10;
pub const KEY_0: Key = 11;
pub const KEY_MINUS: Key = 12;
pub const KEY_EQUAL: Key = 13;
pub const KEY_BACKSPACE: Key = 14;
pub const KEY_TAB: Key = 15;
pub const KEY_Q: Key = 16;
pub const KEY_W: Key = 17;
pub const KEY_E: Key = 18;
pub const KEY_R: Key = 19;
pub const KEY_T: Key = 20;
pub const KEY_Y: Key = 21;
pub const KEY_U: Key = 22;
pub const KEY_I: Key = 23;
pub const KEY_O: Key = 24;
pub const KEY_P: Key = 25;
pub const KEY_LEFTBRACE: Key = 26;
pub const KEY_RIGHTBRACE: Key = 27;
pub const KEY_ENTER: Key = 28;
pub const KEY_LEFTCTRL: Key = 29;
pub const KEY_A: Key = 30;
pub const KEY_S: Key = 31;
pub const KEY_D: Key = 32;
pub const KEY_F: Key = 33;
pub const KEY_G: Key = 34;
pub const KEY_H: Key = 35;
pub const KEY_J: Key = 36;
pub const KEY_K: Key = 37;
pub const KEY_L: Key = 38;
pub const KEY_SEMICOLON: Key = 39;
pub const KEY_APOSTROPHE: Key = 40;
pub const KEY_GRAVE: Key = 41;
pub const KEY_LEFTSHIFT: Key = 42;
pub const KEY_BACKSLASH: Key = 43;
pub const KEY_Z: Key = 44;
pub const KEY_X: Key = 45;
pub const KEY_C: Key = 46;
pub const KEY_V: Key = 47;
pub const KEY_B: Key = 48;
pub const KEY_N: Key = 49;
pub const KEY_M: Key = 50;
pub const KEY_COMMA: Key = 51;
pub const KEY_DOT: Key = 52;
pub const KEY_SLASH: Key = 53;
pub const KEY_RIGHTSHIFT: Key = 54;
pub const KEY_LEFTALT: Key = 56;
pub const KEY_SPACE: Key = 57;
pub const KEY_RIGHTCTRL: Key = 97;
pub const KEY_RIGHTALT: Key = 100;
pub const KEY_HOME: Key = 102;
pub const KEY_LEFT: Key = 105;
pub const KEY_RIGHT: Key = 106;
pub const KEY_END: Key = 107;
pub const KEY_DELETE: Key = 111;
pub const KEY_LEFTMETA: Key = 125;
pub const KEY_RIGHTMETA: Key = 126;
pub const KEY_PASTE: Key = 135;

/// The character table: for each printable key, the character it types
/// without Shift and the one it types with Shift.
pub open spec fn key_chars(key: Key) -> Option<(char, char)> {
    match key {
        KEY_1 => Some(('1', '!')),
        KEY_2 => Some(('2', '@')),
        KEY_3 => Some(('3', '#')),
        KEY_4 => Some(('4', '$')),
        KEY_5 => Some(('5', '%')),
        KEY_6 => Some(('6', '^')),
        KEY_7 => Some(('7', '&')),
        KEY_8 => Some(('8', '*')),
        KEY_9 => Some(('9', '(')),
        KEY_0 => Some(('0', ')')),
        KEY_MINUS => Some(('-', '_')),
        KEY_EQUAL => Some(('=', '+')),
        KEY_TAB => Some(('\t', '\t')),
        KEY_Q => Some(('q', 'Q')),
        KEY_W => Some(('w', 'W')),
        KEY_E => Some(('e', 'E')),
        KEY_R => Some(('r', 'R')),
        KEY_T => Some(('t', 'T')),
        KEY_Y => Some(('y', 'Y')),
        KEY_U => Some(('u', 'U')),
        KEY_I => Some(('i', 'I')),
        KEY_O => Some(('o', 'O')),
        KEY_P => Some(('p', 'P')),
        KEY_LEFTBRACE => Some(('[', '{')),
        KEY_RIGHTBRACE => Some((']', '}')),
        KEY_A => Some(('a', 'A')),
        KEY_S => Some(('s', 'S')),
        KEY_D => Some(('d', 'D')),
        KEY_F => Some(('f', 'F')),
        KEY_G => Some(('g', 'G')),
        KEY_H => Some(('h', 'H')),
        KEY_J => Some(('j', 'J')),
        KEY_K => Some(('k', 'K')),
        KEY_L => Some(('l', 'L')),
        KEY_SEMICOLON => Some((';', ':')),
        KEY_APOSTROPHE => Some(('\'', '"')),
        KEY_GRAVE => Some(('`', '~')),
        KEY_BACKSLASH => Some(('\\', '|')),
        KEY_Z => Some(('z', 'Z')),
        KEY_X => Some(('x', 'X')),
        KEY_C => Some(('c', 'C')),
        KEY_V => Some(('v', 'V')),
        KEY_B => Some(('b', 'B')),
        KEY_N => Some(('n', 'N')),
        KEY_M => Some(('m', 'M')),
        KEY_COMMA => Some((',', '<')),
        KEY_DOT => Some(('.', '>')),
        KEY_SLASH => Some(('/', '?')),
        KEY_SPACE => Some((' ', ' ')),
        _ => None,
    }
}

/// The character that `key` types with the given Shift state, if it types one.
pub open spec fn spec_key_to_char(key: Key, shift: bool) -> Option<char> {
    match key_chars(key) {
        Some((plain, shifted)) => Some(if shift { shifted } else { plain }),
        None => None,
    }
}

/// `key` pressed with Shift state `shift` types `c`.
pub open spec fn types(key: Key, shift: bool, c: char) -> bool {
    spec_key_to_char(key, shift) == Some(c)
}

/// The reverse table. Line feed is typed by Enter and tab by an unshifted
/// Tab; every other character is typed by the key of the character table
/// that yields it, and where a key yields it with and without Shift (the
/// space bar), the shifted entry is the one the table holds.
pub open spec fn spec_char_to_key(c: char) -> Option<(Key, bool)> {
    if c == '\n' {
        Some((KEY_ENTER, false))
    } else if c == '\t' {
        Some((KEY_TAB, false))
    } else if exists|k: Key| types(k, true, c) {
        Some((choose|k: Key| types(k, true, c), true))
    } else if exists|k: Key| types(k, false, c) {
        Some((choose|k: Key| types(k, false, c), false))
    } else {
        None
    }
}

/// The keys the line editor reacts to without synthesizing anything itself:
/// the printable keys and the four editing keys that pass through.
pub open spec fn spec_is_handled_key(key: Key) -> bool {
    key_chars(key) is Some || key == KEY_BACKSPACE || key == KEY_LEFT || key == KEY_RIGHT || key
        == KEY_DELETE
}

fn lookup_key_chars(key: Key) -> (pair: Option<(char, char)>)
    ensures
        pair == key_chars(key),
{
    match key {
        KEY_1 => Some(('1', '!')),
        KEY_2 => Some(('2', '@')),
        KEY_3 => Some(('3', '#')),
        KEY_4 => Some(('4', '$')),
        KEY_5 => Some(('5', '%')),
        KEY_6 => Some(('6', '^')),
        KEY_7 => Some(('7', '&')),
        KEY_8 => Some(('8', '*')),
        KEY_9 => Some(('9', '(')),
        KEY_0 => Some(('0', ')')),
        KEY_MINUS => Some(('-', '_')),
        KEY_EQUAL => Some(('=', '+')),
        KEY_TAB => Some(('\t', '\t')),
        KEY_Q => Some(('q', 'Q')),
        KEY_W => Some(('w', 'W')),
        KEY_E => Some(('e', 'E')),
        KEY_R => Some(('r', 'R')),
        KEY_T => Some(('t', 'T')),
        KEY_Y => Some(('y', 'Y')),
        KEY_U => Some(('u', 'U')),
        KEY_I => Some(('i', 'I')),
        KEY_O => Some(('o', 'O')),
        KEY_P => Some(('p', 'P')),
        KEY_LEFTBRACE => Some(('[', '{')),
        KEY_RIGHTBRACE => Some((']', '}')),
        KEY_A => Some(('a', 'A')),
        KEY_S => Some(('s', 'S')),
        KEY_D => Some(('d', 'D')),
        KEY_F => Some(('f', 'F')),
        KEY_G => Some(('g', 'G')),
        KEY_H => Some(('h', 'H')),
        KEY_J => Some(('j', 'J')),
        KEY_K => Some(('k', 'K')),
        KEY_L => Some(('l', 'L')),
        KEY_SEMICOLON => Some((';', ':')),
        KEY_APOSTROPHE => Some(('\'', '"')),
        KEY_GRAVE => Some(('`', '~')),
        KEY_BACKSLASH => Some(('\\', '|')),
        KEY_Z => Some(('z', 'Z')),
        KEY_X => Some(('x', 'X')),
        KEY_C => Some(('c', 'C')),
        KEY_V => Some(('v', 'V')),
        KEY_B => Some(('b', 'B')),
        KEY_N => Some(('n', 'N')),
        KEY_M => Some(('m', 'M')),
        KEY_COMMA => Some((',', '<')),
        KEY_DOT => Some(('.', '>')),
        KEY_SLASH => Some(('/', '?')),
        KEY_SPACE => Some((' ', ' ')),
        _ => None,
    }
}

/// Looks `key` up in the character table for the given Shift state.
pub fn key_to_char(key: Key, shift: bool) -> (c: Option<char>)
    ensures
        c == spec_key_to_char(key, shift),
{
    match lookup_key_chars(key) {
        Some((plain, shifted)) => Some(if shift { shifted } else { plain }),
        None => None,
    }
}

/// Looks `c` up in the reverse table: the key to tap, and whether Shift has
/// to be held, for `c` to appear.
pub fn char_to_key(c: char) -> (r: Option<(Key, bool)>)
    ensures
        r == spec_char_to_key(c),
{
    let r = match c {
        '\n' => Some((KEY_ENTER, false)),
        '\t' => Some((KEY_TAB, false)),
        ' ' => Some((KEY_SPACE, true)),
        '1' => Some((KEY_1, false)),
        '2' => Some((KEY_2, false)),
        '3' => Some((KEY_3, false)),
        '4' => Some((KEY_4, false)),
        '5' => Some((KEY_5, false)),
        '6' => Some((KEY_6, false)),
        '7' => Some((KEY_7, false)),
        '8' => Some((KEY_8, false)),
        '9' => Some((KEY_9, false)),
        '0' => Some((KEY_0, false)),
        '-' => Some((KEY_MINUS, false)),
        '=' => Some((KEY_EQUAL, false)),
        'q' => Some((KEY_Q, false)),
        'w' => Some((KEY_W, false)),
        'e' => Some((KEY_E, false)),
        'r' => Some((KEY_R, false)),
        't' => Some((KEY_T, false)),
        'y' => Some((KEY_Y, false)),
        'u' => Some((KEY_U, false)),
        'i' => Some((KEY_I, false)),
        'o' => Some((KEY_O, false)),
        'p' => Some((KEY_P, false)),
        '[' => Some((KEY_LEFTBRACE, false)),
        ']' => Some((KEY_RIGHTBRACE, false)),
        'a' => Some((KEY_A, false)),
        's' => Some((KEY_S, false)),
        'd' => Some((KEY_D, false)),
        'f' => Some((KEY_F, false)),
        'g' => Some((KEY_G, false)),
        'h' => Some((KEY_H, false)),
        'j' => Some((KEY_J, false)),
        'k' => Some((KEY_K, false)),
        'l' => Some((KEY_L, false)),
        ';' => Some((KEY_SEMICOLON, false)),
        '\'' => Some((KEY_APOSTROPHE, false)),
        '`' => Some((KEY_GRAVE, false)),
        '\\' => Some((KEY_BACKSLASH, false)),
        'z' => Some((KEY_Z, false)),
        'x' => Some((KEY_X, false)),
        'c' => Some((KEY_C, false)),
        'v' => Some((KEY_V, false)),
        'b' => Some((KEY_B, false)),
        'n' => Some((KEY_N, false)),
        'm' => Some((KEY_M, false)),
        ',' => Some((KEY_COMMA, false)),
        '.' => Some((KEY_DOT, false)),
        '/' => Some((KEY_SLASH, false)),
        '!' => Some((KEY_1, true)),
        '@' => Some((KEY_2, true)),
        '#' => Some((KEY_3, true)),
        '$' => Some((KEY_4, true)),
        '%' => Some((KEY_5, true)),
        '^' => Some((KEY_6, true)),
        '&' => Some((KEY_7, true)),
        '*' => Some((KEY_8, true)),
        '(' => Some((KEY_9, true)),
        ')' => Some((KEY_0, true)),
        '_' => Some((KEY_MINUS, true)),
        '+' => Some((KEY_EQUAL, true)),
        'Q' => Some((KEY_Q, true)),
        'W' => Some((KEY_W, true)),
        'E' => Some((KEY_E, true)),
        'R' => Some((KEY_R, true)),
        'T' => Some((KEY_T, true)),
        'Y' => Some((KEY_Y, true)),
        'U' => Some((KEY_U, true)),
        'I' => Some((KEY_I, true)),
        'O' => Some((KEY_O, true)),
        'P' => Some((KEY_P, true)),
        '{' => Some((KEY_LEFTBRACE, true)),
        '}' => Some((KEY_RIGHTBRACE, true)),
        'A' => Some((KEY_A, true)),
        'S' => Some((KEY_S, true)),
        'D' => Some((KEY_D, true)),
        'F' => Some((KEY_F, true)),
        'G' => Some((KEY_G, true)),
        'H' => Some((KEY_H, true)),
        'J' => Some((KEY_J, true)),
        'K' => Some((KEY_K, true)),
        'L' => Some((KEY_L, true)),
        ':' => Some((KEY_SEMICOLON, true)),
        '"' => Some((KEY_APOSTROPHE, true)),
        '~' => Some((KEY_GRAVE, true)),
        '|' => Some((KEY_BACKSLASH, true)),
        'Z' => Some((KEY_Z, true)),
        'X' => Some((KEY_X, true)),
        'C' => Some((KEY_C, true)),
        'V' => Some((KEY_V, true)),
        'B' => Some((KEY_B, true)),
        'N' => Some((KEY_N, true)),
        'M' => Some((KEY_M, true)),
        '<' => Some((KEY_COMMA, true)),
        '>' => Some((KEY_DOT, true)),
        '?' => Some((KEY_SLASH, true)),
        _ => None,
    };
    proof {
        if let Some((key, shift)) = r {
            if c != '\n' && c != '\t' {
                assert(types(key, shift, c));
            }
        }
    }
    r
}

/// Whether `key` is one of the keys whose press the focused application
/// handles the same way the line editor does.
pub fn is_handled_key(key: Key) -> (handled: bool)
    ensures
        handled == spec_is_handled_key(key),
{
    lookup_key_chars(key).is_some() || key == KEY_BACKSPACE || key == KEY_LEFT || key == KEY_RIGHT
        || key == KEY_DELETE
}

/// Round trip from a key: a key that types a character is the table's
/// answer for that character. Two entries of the character table are
/// shadowed in the reverse table and are left out: the unshifted space bar
/// (a space is typed with Shift held) and the shifted Tab (a tab is typed
/// without).
pub proof fn lemma_key_round_trip(key: Key, shift: bool)
    requires
        spec_key_to_char(key, shift) is Some,
        !(key == KEY_SPACE && !shift),
        !(key == KEY_TAB && shift),
    ensures
        spec_char_to_key(spec_key_to_char(key, shift).unwrap()) == Some((key, shift)),
{
    let c = spec_key_to_char(key, shift).unwrap();
    assert(types(key, shift, c));
}

/// Round trip from a character: the key and Shift state that the reverse
/// table gives for a character type that character. Line feed is left out:
/// Enter types it, and Enter is not a key of the character table.
pub proof fn lemma_char_round_trip(c: char)
    requires
        spec_char_to_key(c) is Some,
        c != '\n',
    ensures
        types(spec_char_to_key(c).unwrap().0, spec_char_to_key(c).unwrap().1, c),
{
}

/// The entries on which the two tables do not mirror each other.
pub proof fn lemma_shadowed_entries()
    ensures
        spec_key_to_char(KEY_SPACE, false) == Some(' '),
        spec_char_to_key(' ') == Some((KEY_SPACE, true)),
        spec_key_to_char(KEY_TAB, true) == Some('\t'),
        spec_char_to_key('\t') == Some((KEY_TAB, false)),
        spec_char_to_key('\n') == Some((KEY_ENTER, false)),
        spec_key_to_char(KEY_ENTER, false) is None,
{
    assert(types(KEY_SPACE, true, ' '));
}

} // verus!
