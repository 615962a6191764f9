//! The synthetic line editor.
//!
//! A [`Terminal`] holds the text typed so far and the cursor in it. Nothing is
//! drawn: the focused application's own text field shows the prompt, and the
//! editor keeps its buffer in step with that field by deciding, key by key,
//! whether the key may pass through or has to be replaced by synthesized taps.

use crate::command::{sudo_args, sudo_invocation, Invocation};
use crate::emission::{pace, paced, Emission, Paced};
use crate::event::{
    lemma_taps_len, spec_key_events, tap, taps, InputEvent, EV_KEY, EV_SYN, KEY_PRESS, KEY_RELEASE,
};
use crate::keys::{
    char_to_key, key_to_char, spec_char_to_key, spec_key_to_char, Key, KEY_BACKSPACE, KEY_COMMA,
    KEY_DELETE, KEY_DOT, KEY_END, KEY_HOME, KEY_LEFT, KEY_LEFTSHIFT, KEY_PASTE, KEY_RIGHT,
};
use crate::text::{string_from_chars, words};
use vstd::prelude::*;

verus! {

/// What becomes of the physical key after the editor has handled it.
#[derive(Clone, Copy, Debug, PartialEq, Eq, Structural)]
pub enum EventFlag {
    /// Pass the key on: the focused application reacts to it as the editor did.
    Emit,
    /// Swallow the key: it changed nothing, or the editor sent its own events.
    Block,
}

/// How a command's output reaches the focused application.
#[derive(Clone, Copy, Debug, PartialEq, Eq, Structural)]
pub enum OutputMethod {
    /// Through the clipboard and one tap of the paste key.
    Paste,
    /// Character by character, as key taps.
    Type,
}

/// Settings of a [`Terminal`]; they do not change once it is built.
#[derive(Debug, Clone, PartialEq, Eq)]
pub struct TerminalConfig {
    /// The command the typed text is handed to as its last argument.
    pub pre_cmd: Vec<String>,
    pub output_method: OutputMethod,
    /// Pause after each key transition sent, in milliseconds.
    pub key_delay: Option<u64>,
}

impl TerminalConfig {
    /// A configuration is usable when it names a command.
    pub open spec fn wf(&self) -> bool {
        self.pre_cmd@.len() > 0
    }
}

/// Why settings are refused.
#[derive(Clone, Copy, Debug, PartialEq, Eq, Structural)]
pub enum ConfigError {
    /// The prefix command cannot be split into words.
    Unparsable,
    /// The prefix command holds no word.
    Empty,
}

impl ConfigError {
    pub fn message(&self) -> (text: String)
        ensures
            text@ == match *self {
                ConfigError::Unparsable => "Failed to parse command"@,
                ConfigError::Empty => "Empty command"@,
            },
    {
        match self {
            ConfigError::Unparsable => "Failed to parse command".to_owned(),
            ConfigError::Empty => "Empty command".to_owned(),
        }
    }
}

impl Default for TerminalConfig {
    /// `bash -c`, output pasted, no pause between keys.
    fn default() -> (config: TerminalConfig)
        ensures
            words(config.pre_cmd@) == seq!["bash"@, "-c"@],
            config.output_method == OutputMethod::Paste,
            config.key_delay is None,
            config.wf(),
    {
        let mut pre_cmd: Vec<String> = Vec::new();
        pre_cmd.push("bash".to_owned());
        pre_cmd.push("-c".to_owned());
        assert(words(pre_cmd@) =~= seq!["bash"@, "-c"@]);
        TerminalConfig { pre_cmd, output_method: OutputMethod::Paste, key_delay: None }
    }
}

/// The line-edit buffer as a mathematical value: the characters typed and
/// the position of the cursor among them.
pub struct Entry {
    pub text: Seq<char>,
    pub cursor: nat,
}

impl Entry {
    /// The cursor sits between two characters, before the first or after the last.
    pub open spec fn wf(self) -> bool {
        self.cursor <= self.text.len()
    }

    pub open spec fn empty() -> Entry {
        Entry { text: Seq::empty(), cursor: 0 }
    }

    /// A character typed at the cursor, which moves past it.
    pub open spec fn insert(self, c: char) -> Entry {
        Entry { text: self.text.insert(self.cursor as int, c), cursor: self.cursor + 1 }
    }

    /// The character before the cursor removed, if there is one.
    pub open spec fn backspace(self) -> Entry {
        if self.cursor > 0 {
            Entry { text: self.text.remove(self.cursor - 1), cursor: (self.cursor - 1) as nat }
        } else {
            self
        }
    }

    /// The character at the cursor removed, if there is one.
    pub open spec fn delete(self) -> Entry {
        if self.cursor < self.text.len() {
            Entry { text: self.text.remove(self.cursor as int), cursor: self.cursor }
        } else {
            self
        }
    }

    pub open spec fn left(self) -> Entry {
        if self.cursor > 0 {
            Entry { text: self.text, cursor: (self.cursor - 1) as nat }
        } else {
            self
        }
    }

    pub open spec fn right(self) -> Entry {
        if self.cursor < self.text.len() {
            Entry { text: self.text, cursor: self.cursor + 1 }
        } else {
            self
        }
    }

    pub open spec fn home(self) -> Entry {
        Entry { text: self.text, cursor: 0 }
    }

    pub open spec fn end(self) -> Entry {
        Entry { text: self.text, cursor: self.text.len() }
    }

    /// `text` typed at the cursor, which moves past it.
    pub open spec fn insert_all(self, text: Seq<char>) -> Entry {
        Entry {
            text: self.text.subrange(0, self.cursor as int) + text + self.text.subrange(
                self.cursor as int,
                self.text.len() as int,
            ),
            cursor: self.cursor + text.len(),
        }
    }

    /// The buffer after `key` went down with Shift state `shift`. A key of
    /// the character table types its character; the six editing keys edit;
    /// any other key leaves the buffer alone.
    pub open spec fn press(self, key: Key, shift: bool) -> Entry {
        match spec_key_to_char(key, shift) {
            Some(c) => self.insert(c),
            None => if key == KEY_BACKSPACE {
                self.backspace()
            } else if key == KEY_DELETE {
                self.delete()
            } else if key == KEY_LEFT {
                self.left()
            } else if key == KEY_RIGHT {
                self.right()
            } else if key == KEY_END {
                self.end()
            } else if key == KEY_HOME {
                self.home()
            } else {
                self
            },
        }
    }

    /// Whether the physical key may pass through. It may when the focused
    /// application reacts to it exactly as the buffer did: a typed
    /// character, or Backspace, Delete, Left or Right that had room to act.
    pub open spec fn flag(self, key: Key, shift: bool) -> EventFlag {
        if spec_key_to_char(key, shift) is Some {
            EventFlag::Emit
        } else if key == KEY_BACKSPACE || key == KEY_LEFT {
            if self.cursor > 0 {
                EventFlag::Emit
            } else {
                EventFlag::Block
            }
        } else if key == KEY_DELETE || key == KEY_RIGHT {
            if self.cursor < self.text.len() {
                EventFlag::Emit
            } else {
                EventFlag::Block
            }
        } else {
            EventFlag::Block
        }
    }

    /// The events the editor sends itself for `key`: Home is played as one
    /// Left tap for each character before the cursor, End as one Right tap
    /// for each character after it. No other key synthesizes anything.
    pub open spec fn synthesized(self, key: Key, shift: bool) -> Seq<InputEvent> {
        if spec_key_to_char(key, shift) is Some {
            Seq::empty()
        } else if key == KEY_HOME {
            taps(KEY_LEFT, self.cursor)
        } else if key == KEY_END {
            taps(KEY_RIGHT, (self.text.len() - self.cursor) as nat)
        } else {
            Seq::empty()
        }
    }

    /// The events that erase the prompt: one Delete tap for each character
    /// after the cursor and one for the closing marker, then one Backspace
    /// tap for each character before the cursor and one for the opening
    /// marker.
    pub open spec fn clear_events(self) -> Seq<InputEvent> {
        taps(KEY_DELETE, (self.text.len() - self.cursor + MARKERS_RIGHT) as nat) + taps(
            KEY_BACKSPACE,
            self.cursor + MARKERS_LEFT as nat,
        )
    }
}

/// Marker characters drawn before the typed text (`>`).
pub const MARKERS_LEFT: usize = 1;

/// Marker characters drawn after the typed text (`<`).
pub const MARKERS_RIGHT: usize = 1;

/// The view of an emission that may be absent.
pub open spec fn emission_view(emission: Option<Emission>) -> Option<Paced> {
    match emission {
        Some(e) => Some(e@),
        None => None,
    }
}

/// What the editor answers to a key press.
#[derive(Debug, Clone, PartialEq, Eq)]
pub struct Handled {
    /// Whether the physical key may pass through.
    pub flag: EventFlag,
    /// The events the editor sends in the key's place, where it sends any.
    pub emission: Option<Emission>,
}

/// The emulated terminal: the text typed so far, the cursor, and the settings.
#[derive(Debug, Clone, PartialEq, Eq)]
pub struct Terminal {
    entry: Vec<char>,
    pos: usize,
    config: TerminalConfig,
}

impl View for Terminal {
    type V = Entry;

    closed spec fn view(&self) -> Entry {
        Entry { text: self.entry@, cursor: self.pos as nat }
    }
}

/// Appends `n` taps of `key` to `events`.
fn push_taps(events: &mut Vec<InputEvent>, key: Key, n: usize)
    ensures
        final(events)@ == old(events)@ + taps(key, n as nat),
{
    let mut i: usize = 0;
    while i < n
        invariant
            i <= n,
            events@ == old(events)@ + taps(key, i as nat),
        decreases n - i,
    {
        events.push(InputEvent::new(EV_KEY, key, KEY_PRESS));
        events.push(InputEvent::new(EV_SYN, 0, 0));
        events.push(InputEvent::new(EV_KEY, key, KEY_RELEASE));
        events.push(InputEvent::new(EV_SYN, 0, 0));
        i += 1;
        assert(events@ =~= old(events)@ + taps(key, i as nat));
    }
}

impl Terminal {
    /// The settings the terminal was built with.
    pub closed spec fn config(&self) -> TerminalConfig {
        self.config
    }

    /// The cursor is inside the text and the settings name a command.
    pub open spec fn wf(&self) -> bool {
        self@.wf() && self.config().wf()
    }

    /// An empty terminal with the given settings, which have to name a
    /// command. The prompt is not drawn yet: [`Terminal::init`] says how.
    pub fn new(config: TerminalConfig) -> (terminal: Result<Terminal, ConfigError>)
        ensures
            match terminal {
                Ok(t) => config.wf() && t.wf() && t@ == Entry::empty() && t.config() == config,
                Err(error) => !config.wf() && error == ConfigError::Empty,
            },
    {
        if config.pre_cmd.len() == 0 {
            return Err(ConfigError::Empty);
        }
        Ok(Terminal { entry: Vec::new(), pos: 0, config })
    }

    /// The events that show `key`, shifted or not, in the focused application.
    pub fn key_events(&self, key: Key, shift: bool) -> (events: Vec<InputEvent>)
        ensures
            events@ == spec_key_events(key, shift),
    {
        let mut events: Vec<InputEvent> = Vec::new();
        if shift {
            events.push(InputEvent::new(EV_KEY, KEY_LEFTSHIFT, KEY_PRESS));
            events.push(InputEvent::new(EV_SYN, 0, 0));
        }
        events.push(InputEvent::new(EV_KEY, key, KEY_PRESS));
        events.push(InputEvent::new(EV_SYN, 0, 0));
        events.push(InputEvent::new(EV_KEY, key, KEY_RELEASE));
        events.push(InputEvent::new(EV_SYN, 0, 0));
        if shift {
            events.push(InputEvent::new(EV_KEY, KEY_LEFTSHIFT, KEY_RELEASE));
            events.push(InputEvent::new(EV_SYN, 0, 0));
        }
        assert(events@ =~= spec_key_events(key, shift));
        events
    }

    /// Batches `events` for the virtual keyboard according to the configured pause.
    pub fn send_events(&self, events: Vec<InputEvent>) -> (emission: Emission)
        ensures
            emission@ == paced(events@, self.config().key_delay),
    {
        pace(events, self.config.key_delay)
    }

    /// The emission for one tap of `key`, shifted or not.
    pub fn send_key(&self, key: Key, shift: bool) -> (emission: Emission)
        ensures
            emission@ == paced(spec_key_events(key, shift), self.config().key_delay),
    {
        let events = self.key_events(key, shift);
        self.send_events(events)
    }

    /// The emissions that draw the empty prompt: the two markers `>` and `<`,
    /// then one step left, which puts the cursor between them.
    pub fn init(&self) -> (emissions: Vec<Emission>)
        ensures
            emissions@.len() == 3,
            emissions@[0]@ == paced(spec_key_events(KEY_DOT, true), self.config().key_delay),
            emissions@[1]@ == paced(spec_key_events(KEY_COMMA, true), self.config().key_delay),
            emissions@[2]@ == paced(spec_key_events(KEY_LEFT, false), self.config().key_delay),
    {
        let mut emissions: Vec<Emission> = Vec::new();
        emissions.push(self.send_key(KEY_DOT, true));
        emissions.push(self.send_key(KEY_COMMA, true));
        emissions.push(self.send_key(KEY_LEFT, false));
        emissions
    }

    fn backspace(&mut self) -> (flag: EventFlag)
        requires
            old(self).wf(),
        ensures
            final(self).wf(),
            final(self)@ == old(self)@.backspace(),
            final(self).config() == old(self).config(),
            flag == old(self)@.flag(KEY_BACKSPACE, false),
    {
        if self.pos > 0 {
            self.pos -= 1;
            self.entry.remove(self.pos);
            return EventFlag::Emit;
        }
        EventFlag::Block
    }

    fn delete(&mut self) -> (flag: EventFlag)
        requires
            old(self).wf(),
        ensures
            final(self).wf(),
            final(self)@ == old(self)@.delete(),
            final(self).config() == old(self).config(),
            flag == old(self)@.flag(KEY_DELETE, false),
    {
        if self.pos < self.entry.len() {
            self.entry.remove(self.pos);
            return EventFlag::Emit;
        }
        EventFlag::Block
    }

    fn left(&mut self) -> (flag: EventFlag)
        requires
            old(self).wf(),
        ensures
            final(self).wf(),
            final(self)@ == old(self)@.left(),
            final(self).config() == old(self).config(),
            flag == old(self)@.flag(KEY_LEFT, false),
    {
        if self.pos > 0 {
            self.pos -= 1;
            return EventFlag::Emit;
        }
        EventFlag::Block
    }

    fn right(&mut self) -> (flag: EventFlag)
        requires
            old(self).wf(),
        ensures
            final(self).wf(),
            final(self)@ == old(self)@.right(),
            final(self).config() == old(self).config(),
            flag == old(self)@.flag(KEY_RIGHT, false),
    {
        if self.pos < self.entry.len() {
            self.pos += 1;
            return EventFlag::Emit;
        }
        EventFlag::Block
    }

    fn home(&mut self) -> (handled: Handled)
        requires
            old(self).wf(),
        ensures
            final(self).wf(),
            final(self)@ == old(self)@.home(),
            final(self).config() == old(self).config(),
            handled.flag == EventFlag::Block,
            emission_view(handled.emission) == if old(self)@.cursor > 0 {
                Some(paced(taps(KEY_LEFT, old(self)@.cursor), old(self).config().key_delay))
            } else {
                None
            },
    {
        let emission = if self.pos > 0 {
            let mut left_events: Vec<InputEvent> = Vec::new();
            push_taps(&mut left_events, KEY_LEFT, self.pos);
            assert(left_events@ =~= taps(KEY_LEFT, self.pos as nat));
            let emission = self.send_events(left_events);
            self.pos = 0;
            Some(emission)
        } else {
            None
        };
        // The physical Home never passes: the Left taps stand in for it.
        Handled { flag: EventFlag::Block, emission }
    }

    /// The Right taps that take the cursor to the end of the text.
    fn end_events(&self) -> (events: Vec<InputEvent>)
        requires
            self.wf(),
        ensures
            events@ == taps(KEY_RIGHT, (self@.text.len() - self@.cursor) as nat),
    {
        let n_rights = self.entry.len() - self.pos;
        let mut events: Vec<InputEvent> = Vec::new();
        push_taps(&mut events, KEY_RIGHT, n_rights);
        assert(events@ =~= taps(KEY_RIGHT, n_rights as nat));
        events
    }

    fn end(&mut self) -> (handled: Handled)
        requires
            old(self).wf(),
        ensures
            final(self).wf(),
            final(self)@ == old(self)@.end(),
            final(self).config() == old(self).config(),
            handled.flag == EventFlag::Block,
            emission_view(handled.emission) == if old(self)@.cursor < old(self)@.text.len() {
                Some(
                    paced(
                        taps(KEY_RIGHT, (old(self)@.text.len() - old(self)@.cursor) as nat),
                        old(self).config().key_delay,
                    ),
                )
            } else {
                None
            },
    {
        let emission = if self.pos < self.entry.len() {
            let right_events = self.end_events();
            let emission = self.send_events(right_events);
            self.pos = self.entry.len();
            Some(emission)
        } else {
            None
        };
        // The physical End never passes: the Right taps stand in for it.
        Handled { flag: EventFlag::Block, emission }
    }

    fn add_char(&mut self, c: char) -> (flag: EventFlag)
        requires
            old(self).wf(),
        ensures
            final(self).wf(),
            final(self)@ == old(self)@.insert(c),
            final(self).config() == old(self).config(),
            flag == EventFlag::Emit,
    {
        self.entry.insert(self.pos, c);
        assert(self.pos < self.entry.len());
        self.pos += 1;
        EventFlag::Emit
    }

    /// Forgets the typed text: the prompt is gone from the screen.
    pub fn reset(&mut self)
        ensures
            final(self)@ == Entry::empty(),
            final(self).config() == old(self).config(),
            old(self).wf() ==> final(self).wf(),
    {
        self.pos = 0;
        self.entry.clear();
    }

    /// The typed text as a string: the last argument of the command to run.
    pub fn get_entry(&self) -> (text: String)
        ensures
            text@ == self@.text,
    {
        string_from_chars(&self.entry)
    }

    /// The invocation that runs the typed text as user `uid`: `sudo` with
    /// the configured command and the text as its last argument.
    pub fn run(&self, uid: u32) -> (invocation: Invocation)
        ensures
            invocation.program@ == "sudo"@,
            words(invocation.args@) == sudo_args(uid, words(self.config().pre_cmd@), self@.text),
    {
        sudo_invocation(uid, &self.config.pre_cmd, self.get_entry())
    }

    /// Handles one key going down, with Shift held or not.
    ///
    /// The buffer is edited as [`Entry::press`] says. The answer tells
    /// whether the physical key may pass through and holds the events the
    /// editor sends in its place: Left or Right taps for Home and End, in
    /// batches as [`paced`] cuts them, and nothing where there is nothing to
    /// send.
    pub fn handle_key(&mut self, key: Key, shift: bool) -> (handled: Handled)
        requires
            old(self).wf(),
        ensures
            final(self).wf(),
            final(self)@ == old(self)@.press(key, shift),
            final(self).config() == old(self).config(),
            handled.flag == old(self)@.flag(key, shift),
            emission_view(handled.emission) == if old(self)@.synthesized(key, shift).len() > 0 {
                Some(paced(old(self)@.synthesized(key, shift), old(self).config().key_delay))
            } else {
                None
            },
            // Backspace at the start and Delete at the end change nothing.
            key == KEY_BACKSPACE && old(self)@.cursor == 0 ==> handled.flag == EventFlag::Block
                && final(self)@ == old(self)@,
            key == KEY_DELETE && old(self)@.cursor == old(self)@.text.len() ==> handled.flag
                == EventFlag::Block && final(self)@ == old(self)@,
    {
        proof {
            lemma_taps_len(KEY_LEFT, self@.cursor);
            lemma_taps_len(KEY_RIGHT, (self@.text.len() - self@.cursor) as nat);
        }
        if let Some(c) = key_to_char(key, shift) {
            let flag = self.add_char(c);
            return Handled { flag, emission: None };
        }
        match key {
            KEY_BACKSPACE => {
                let flag = self.backspace();
                Handled { flag, emission: None }
            },
            KEY_DELETE => {
                let flag = self.delete();
                Handled { flag, emission: None }
            },
            KEY_LEFT => {
                let flag = self.left();
                Handled { flag, emission: None }
            },
            KEY_RIGHT => {
                let flag = self.right();
                Handled { flag, emission: None }
            },
            KEY_END => self.end(),
            KEY_HOME => self.home(),
            _ => Handled { flag: EventFlag::Block, emission: None },
        }
    }

    /// The events that erase the prompt, markers included; see
    /// [`Entry::clear_events`].
    pub fn clear_events(&self) -> (events: Vec<InputEvent>)
        requires
            self.wf(),
        ensures
            events@ == self@.clear_events(),
    {
        let mut events: Vec<InputEvent> = Vec::new();
        // The text right of the cursor, and one more for the `<`.
        push_taps(&mut events, KEY_DELETE, self.entry.len() - self.pos);
        push_taps(&mut events, KEY_DELETE, MARKERS_RIGHT);
        // The text left of the cursor, and one more for the `>`.
        push_taps(&mut events, KEY_BACKSPACE, self.pos);
        push_taps(&mut events, KEY_BACKSPACE, MARKERS_LEFT);
        proof {
            let right = (self@.text.len() - self@.cursor) as nat;
            reveal_with_fuel(taps, 2);
            assert(taps(KEY_DELETE, right) + taps(KEY_DELETE, 1) =~= taps(KEY_DELETE, right + 1));
            assert(taps(KEY_BACKSPACE, self@.cursor) + taps(KEY_BACKSPACE, 1) =~= taps(
                KEY_BACKSPACE,
                self@.cursor + 1,
            ));
            assert(events@ =~= self@.clear_events());
        }
        events
    }

    /// The emission that erases the prompt.
    pub fn clear(&self) -> (emission: Emission)
        requires
            self.wf(),
        ensures
            emission@ == paced(self@.clear_events(), self.config().key_delay),
    {
        self.send_events(self.clear_events())
    }

    /// What writing `contents` back takes, by the configured method.
    ///
    /// The prompt is erased first in every case. Empty contents need nothing
    /// more; otherwise the text is typed or pasted after the erasing events,
    /// in one emission with them.
    pub fn write(&self, contents: String) -> (back: WriteBack)
        requires
            self.wf(),
        ensures
            back@ == write_plan(
                self@,
                self.config().output_method,
                self.config().key_delay,
                contents@,
            ),
    {
        let clear_event = self.clear_events();
        if !contents.as_str().is_empty() {
            match self.config.output_method {
                OutputMethod::Type => self.write_type(contents, Some(clear_event)),
                OutputMethod::Paste => self.write_paste(contents, Some(clear_event)),
            }
        } else {
            WriteBack {
                clipboard: None,
                emission: self.send_events(clear_event),
                skipped: Vec::new(),
            }
        }
    }

    /// Types `contents` as key taps, after the events of `prev_events` and in
    /// one emission with them. A character that no key types is left out of
    /// the events and listed in `skipped`; the rest is typed all the same.
    pub fn write_type(&self, contents: String, prev_events: Option<Vec<InputEvent>>) -> (back:
        WriteBack)
        ensures
            back@ == write_type_plan(
                contents@,
                match prev_events {
                    Some(prev) => prev@,
                    None => Seq::empty(),
                },
                self.config().key_delay,
            ),
    {
        let mut events = match prev_events {
            Some(prev) => prev,
            None => Vec::new(),
        };
        let mut skipped: Vec<char> = Vec::new();
        let ghost prev = events@;
        let text = contents.as_str();
        proof {
            reveal(Seq::filter);
        }
        for c in it: text.chars()
            invariant
                it.seq() == contents@,
                events@ == prev + typed(contents@.take(it.index())),
                skipped@ == untyped(contents@.take(it.index())),
        {
            proof {
                reveal(Seq::filter);
                assert(contents@.take(it.index() + 1).drop_last() =~= contents@.take(it.index()));
            }
            match char_to_key(c) {
                Some((key, shift)) => {
                    let mut taps = self.key_events(key, shift);
                    events.append(&mut taps);
                },
                None => {
                    skipped.push(c);
                },
            }
            assert(events@ =~= prev + typed(contents@.take(it.index() + 1)));
            assert(skipped@ =~= untyped(contents@.take(it.index() + 1)));
        }
        assert(contents@.take(contents@.len() as int) =~= contents@);
        WriteBack { clipboard: None, emission: self.send_events(events), skipped }
    }

    /// Hands `contents` to the clipboard and taps the paste key, after the
    /// events of `prev_events` and in one emission with them.
    pub fn write_paste(&self, contents: String, prev_events: Option<Vec<InputEvent>>) -> (back:
        WriteBack)
        ensures
            back@ == write_paste_plan(
                contents@,
                match prev_events {
                    Some(prev) => prev@,
                    None => Seq::empty(),
                },
                self.config().key_delay,
            ),
    {
        let mut events = match prev_events {
            Some(prev) => prev,
            None => Vec::new(),
        };
        let ghost prev = events@;
        let mut paste = self.key_events(KEY_PASTE, false);
        events.append(&mut paste);
        assert(events@ =~= prev + tap(KEY_PASTE));
        WriteBack {
            clipboard: Some(contents),
            emission: self.send_events(events),
            skipped: Vec::new(),
        }
    }
}

/// The taps that type `c`; none where no key types it.
pub open spec fn char_events(c: char) -> Seq<InputEvent> {
    match spec_char_to_key(c) {
        Some((key, shift)) => spec_key_events(key, shift),
        None => Seq::empty(),
    }
}

/// The taps that type `text`, character by character.
pub open spec fn typed(text: Seq<char>) -> Seq<InputEvent>
    decreases text.len(),
{
    if text.len() == 0 {
        Seq::empty()
    } else {
        typed(text.drop_last()) + char_events(text.last())
    }
}

/// The characters of `text` that no key types, in order.
pub open spec fn untyped(text: Seq<char>) -> Seq<char> {
    text.filter(|c: char| spec_char_to_key(c) is None)
}

/// The characters of `text` that a key types, in order.
pub open spec fn typable(text: Seq<char>) -> Seq<char> {
    text.filter(|c: char| spec_char_to_key(c) is Some)
}

/// Typing `contents` after the events `prev`: the taps of every character
/// that a key types, in order; the other characters are skipped and listed.
pub open spec fn write_type_plan(
    contents: Seq<char>,
    prev: Seq<InputEvent>,
    delay: Option<u64>,
) -> WriteBackView {
    WriteBackView {
        clipboard: None,
        emission: paced(prev + typed(contents), delay),
        skipped: untyped(contents),
    }
}

/// Pasting `contents` after the events `prev`: the text goes to the
/// clipboard and the paste key is tapped once.
pub open spec fn write_paste_plan(
    contents: Seq<char>,
    prev: Seq<InputEvent>,
    delay: Option<u64>,
) -> WriteBackView {
    WriteBackView {
        clipboard: Some(contents),
        emission: paced(prev + tap(KEY_PASTE), delay),
        skipped: Seq::empty(),
    }
}

/// Writing `contents` back over the prompt `entry`. The prompt is erased
/// first in every case; empty contents need nothing more, and other contents
/// are typed or pasted in the same emission.
pub open spec fn write_plan(
    entry: Entry,
    method: OutputMethod,
    delay: Option<u64>,
    contents: Seq<char>,
) -> WriteBackView {
    if contents.len() == 0 {
        WriteBackView {
            clipboard: None,
            emission: paced(entry.clear_events(), delay),
            skipped: Seq::empty(),
        }
    } else {
        match method {
            OutputMethod::Type => write_type_plan(contents, entry.clear_events(), delay),
            OutputMethod::Paste => write_paste_plan(contents, entry.clear_events(), delay),
        }
    }
}

/// What has to happen for a command's output to appear in the focused
/// application.
#[derive(Debug, Clone, PartialEq, Eq)]
pub struct WriteBack {
    /// Text to put on the clipboard before anything is sent.
    pub clipboard: Option<String>,
    /// The events to send.
    pub emission: Emission,
    /// Characters of the output that no key types; they are not sent.
    pub skipped: Vec<char>,
}

/// A [`WriteBack`] as a mathematical value.
pub struct WriteBackView {
    pub clipboard: Option<Seq<char>>,
    pub emission: Paced,
    pub skipped: Seq<char>,
}

impl View for WriteBack {
    type V = WriteBackView;

    open spec fn view(&self) -> WriteBackView {
        WriteBackView {
            clipboard: match self.clipboard {
                Some(text) => Some(text@),
                None => None,
            },
            emission: self.emission@,
            skipped: self.skipped@,
        }
    }
}

} // verus!
