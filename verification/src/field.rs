//! The text field on the other side.
//!
//! The prompt lives in a text field of the focused application. The editor
//! never sees that field; it only sends key events and trusts the field to
//! do with them what text fields do. This module writes that trust down as
//! a model of a text field and proves that the editor's buffer and the
//! field stay in step: the field always shows the text around the prompt,
//! the two markers, and between them exactly what the buffer holds.

use crate::emission::lemma_paced_flatten;
use crate::event::{
    key_down, key_up, spec_key_events, sync_report, tap, taps, InputEvent, EV_KEY, KEY_RELEASE,
};
use crate::keys::{
    lemma_char_round_trip, spec_char_to_key, spec_key_to_char, Key, KEY_BACKSPACE, KEY_COMMA,
    KEY_DELETE, KEY_DOT, KEY_END, KEY_ENTER, KEY_HOME, KEY_LEFT, KEY_LEFTSHIFT, KEY_PASTE,
    KEY_RIGHT, KEY_RIGHTSHIFT,
};
use crate::terminal::{
    char_events, typable, typed, write_plan, Entry, EventFlag, OutputMethod, WriteBackView,
};
use vstd::prelude::*;

verus! {

/// A text field as the virtual keyboard's events reach it: its text and
/// cursor, whether it sees Shift held, and the clipboard it pastes from.
pub struct Field {
    pub entry: Entry,
    pub shift: bool,
    pub clipboard: Seq<char>,
}

impl Field {
    pub open spec fn wf(self) -> bool {
        self.entry.wf()
    }

    pub open spec fn with_entry(self, entry: Entry) -> Field {
        Field { entry, ..self }
    }

    pub open spec fn with_shift(self, shift: bool) -> Field {
        Field { shift, ..self }
    }

    pub open spec fn with_clipboard(self, clipboard: Seq<char>) -> Field {
        Field { clipboard, ..self }
    }

    /// The field after `key` went down. Enter breaks the line, the paste key
    /// inserts the clipboard, and every other key does what it does to a
    /// line of text, with the Shift state the field has seen.
    pub open spec fn pressed(self, key: Key) -> Field {
        if key == KEY_ENTER {
            self.with_entry(self.entry.insert('\n'))
        } else if key == KEY_PASTE {
            self.with_entry(self.entry.insert_all(self.clipboard))
        } else {
            self.with_entry(self.entry.press(key, self.shift))
        }
    }

    /// The field after one event. A Shift key going down or up sets the
    /// Shift state; any other key acts when it goes down or repeats; key
    /// releases and events that are not about keys change nothing.
    pub open spec fn receive(self, event: InputEvent) -> Field {
        if event.event_type != EV_KEY {
            self
        } else if event.code == KEY_LEFTSHIFT || event.code == KEY_RIGHTSHIFT {
            Field { shift: event.value != KEY_RELEASE, ..self }
        } else if event.value == KEY_RELEASE {
            self
        } else {
            self.pressed(event.code)
        }
    }

    /// The field after a run of events.
    pub open spec fn receive_all(self, events: Seq<InputEvent>) -> Field
        decreases events.len(),
    {
        if events.len() == 0 {
            self
        } else {
            self.receive_all(events.drop_last()).receive(events.last())
        }
    }

    /// The field after `n` presses of `key`.
    pub open spec fn pressed_times(self, key: Key, n: nat) -> Field
        decreases n,
    {
        if n == 0 {
            self
        } else {
            self.pressed_times(key, (n - 1) as nat).pressed(key)
        }
    }
}

/// Whether `key` is one of the two Shift keys.
pub open spec fn is_shift_key(key: Key) -> bool {
    key == KEY_LEFTSHIFT || key == KEY_RIGHTSHIFT
}

/// Receiving two runs one after the other is receiving them joined.
pub proof fn lemma_receive_concat(field: Field, first: Seq<InputEvent>, second: Seq<InputEvent>)
    ensures
        field.receive_all(first + second) == field.receive_all(first).receive_all(second),
    decreases second.len(),
{
    if second.len() == 0 {
        assert(first + second =~= first);
    } else {
        assert((first + second).drop_last() =~= first + second.drop_last());
        lemma_receive_concat(field, first, second.drop_last());
    }
}

/// A tap of a key that is not Shift is one press of it.
pub proof fn lemma_receive_tap(field: Field, key: Key)
    requires
        !is_shift_key(key),
    ensures
        field.receive_all(tap(key)) == field.pressed(key),
{
    reveal_with_fuel(Field::receive_all, 5);
    let t = tap(key);
    assert(t.drop_last().drop_last().drop_last().drop_last() =~= Seq::<InputEvent>::empty());
    assert(t.drop_last().drop_last().drop_last() =~= seq![key_down(key)]);
    assert(t.drop_last().drop_last() =~= seq![key_down(key), sync_report()]);
    assert(t.drop_last() =~= seq![key_down(key), sync_report(), key_up(key)]);
}

/// `n` taps of a key that is not Shift are `n` presses of it.
pub proof fn lemma_receive_taps(field: Field, key: Key, n: nat)
    requires
        !is_shift_key(key),
    ensures
        field.receive_all(taps(key, n)) == field.pressed_times(key, n),
    decreases n,
{
    if n > 0 {
        lemma_receive_taps(field, key, (n - 1) as nat);
        lemma_receive_concat(field, taps(key, (n - 1) as nat), tap(key));
        lemma_receive_tap(field.pressed_times(key, (n - 1) as nat), key);
    }
}

/// The events for a key, shifted or not, reach a field that sees Shift up
/// as one press of the key with that Shift state, and leave Shift up.
pub proof fn lemma_receive_key_events(field: Field, key: Key, shift: bool)
    requires
        !is_shift_key(key),
        !field.shift,
    ensures
        field.receive_all(spec_key_events(key, shift)) == (Field { shift, ..field }).pressed(
            key,
        ).with_shift(false),
{
    if shift {
        let down = seq![key_down(KEY_LEFTSHIFT), sync_report()];
        let up = seq![key_up(KEY_LEFTSHIFT), sync_report()];
        lemma_receive_concat(field, down + tap(key), up);
        lemma_receive_concat(field, down, tap(key));
        let held = Field { shift: true, ..field };
        assert(field.receive_all(down) == held) by {
            reveal_with_fuel(Field::receive_all, 3);
            assert(down.drop_last() =~= seq![key_down(KEY_LEFTSHIFT)]);
            assert(down.drop_last().drop_last() =~= Seq::<InputEvent>::empty());
        }
        lemma_receive_tap(held, key);
        let after = held.pressed(key);
        assert(after.receive_all(up) == after.with_shift(false)) by {
            reveal_with_fuel(Field::receive_all, 3);
            assert(up.drop_last() =~= seq![key_up(KEY_LEFTSHIFT)]);
            assert(up.drop_last().drop_last() =~= Seq::<InputEvent>::empty());
        }
    } else {
        lemma_receive_tap(field, key);
    }
}

/// The field with nothing of the prompt in it: `before` and `after` with the
/// cursor between them.
pub open spec fn bare(before: Seq<char>, after: Seq<char>) -> Entry {
    Entry { text: before + after, cursor: before.len() }
}

/// The field that shows `entry` as a prompt: `before`, the marker `>`, the
/// text of the prompt, the marker `<` and `after`, with the cursor where the
/// prompt has it.
pub open spec fn framed(entry: Entry, before: Seq<char>, after: Seq<char>) -> Entry {
    Entry {
        text: before + seq!['>'] + entry.text + seq!['<'] + after,
        cursor: before.len() + 1 + entry.cursor,
    }
}

/// Pressing Left `n` times moves the cursor `n` places, where there are as many.
pub proof fn lemma_left_times(field: Field, n: nat)
    requires
        n <= field.entry.cursor,
    ensures
        field.pressed_times(KEY_LEFT, n) == field.with_entry(
            Entry { text: field.entry.text, cursor: (field.entry.cursor - n) as nat },
        ),
    decreases n,
{
    if n > 0 {
        lemma_left_times(field, (n - 1) as nat);
    }
}

/// Pressing Right `n` times moves the cursor `n` places, where there are as many.
pub proof fn lemma_right_times(field: Field, n: nat)
    requires
        field.entry.cursor + n <= field.entry.text.len(),
    ensures
        field.pressed_times(KEY_RIGHT, n) == field.with_entry(
            Entry { text: field.entry.text, cursor: field.entry.cursor + n },
        ),
    decreases n,
{
    if n > 0 {
        lemma_right_times(field, (n - 1) as nat);
    }
}

/// Pressing Delete `n` times removes the `n` characters after the cursor,
/// where there are as many.
pub proof fn lemma_delete_times(field: Field, n: nat)
    requires
        field.entry.cursor + n <= field.entry.text.len(),
    ensures
        field.pressed_times(KEY_DELETE, n) == field.with_entry(
            Entry {
                text: field.entry.text.subrange(0, field.entry.cursor as int)
                    + field.entry.text.subrange(
                    (field.entry.cursor + n) as int,
                    field.entry.text.len() as int,
                ),
                cursor: field.entry.cursor,
            },
        ),
    decreases n,
{
    let text = field.entry.text;
    let cursor = field.entry.cursor as int;
    if n == 0 {
        assert(text.subrange(0, cursor) + text.subrange(cursor, text.len() as int) =~= text);
    } else {
        lemma_delete_times(field, (n - 1) as nat);
        let mid = text.subrange(0, cursor) + text.subrange(cursor + n - 1, text.len() as int);
        assert(mid.remove(cursor) =~= text.subrange(0, cursor) + text.subrange(
            cursor + n,
            text.len() as int,
        ));
    }
}

/// Pressing Backspace `n` times removes the `n` characters before the
/// cursor, where there are as many.
pub proof fn lemma_backspace_times(field: Field, n: nat)
    requires
        field.entry.wf(),
        n <= field.entry.cursor,
    ensures
        field.pressed_times(KEY_BACKSPACE, n) == field.with_entry(
            Entry {
                text: field.entry.text.subrange(0, field.entry.cursor - n)
                    + field.entry.text.subrange(
                    field.entry.cursor as int,
                    field.entry.text.len() as int,
                ),
                cursor: (field.entry.cursor - n) as nat,
            },
        ),
    decreases n,
{
    let text = field.entry.text;
    let cursor = field.entry.cursor as int;
    if n == 0 {
        assert(text.subrange(0, cursor) + text.subrange(cursor, text.len() as int) =~= text);
    } else {
        lemma_backspace_times(field, (n - 1) as nat);
        let mid = text.subrange(0, cursor - n + 1) + text.subrange(cursor, text.len() as int);
        assert(mid.remove(cursor - n) =~= text.subrange(0, cursor - n) + text.subrange(
            cursor,
            text.len() as int,
        ));
    }
}

/// Drawing the prompt: the three keys sent at the start turn a field with
/// the cursor between `before` and `after` into one that shows the empty
/// prompt there.
pub proof fn lemma_init_draws_prompt(field: Field, before: Seq<char>, after: Seq<char>)
    requires
        field.entry == bare(before, after),
        !field.shift,
    ensures
        field.receive_all(
            spec_key_events(KEY_DOT, true) + spec_key_events(KEY_COMMA, true) + spec_key_events(
                KEY_LEFT,
                false,
            ),
        ) == field.with_entry(framed(Entry::empty(), before, after)),
{
    let dot = spec_key_events(KEY_DOT, true);
    let comma = spec_key_events(KEY_COMMA, true);
    let left = spec_key_events(KEY_LEFT, false);
    lemma_receive_concat(field, dot + comma, left);
    lemma_receive_concat(field, dot, comma);
    lemma_receive_key_events(field, KEY_DOT, true);
    let one = field.receive_all(dot);
    assert(one.entry.text =~= before + seq!['>'] + after);
    lemma_receive_key_events(one, KEY_COMMA, true);
    let two = one.receive_all(comma);
    assert(two.entry.text =~= before + seq!['>'] + seq!['<'] + after);
    lemma_receive_key_events(two, KEY_LEFT, false);
    let three = two.receive_all(left);
    assert(three.entry.text =~= framed(Entry::empty(), before, after).text);
}

/// The events that one key press makes the editor send: what it
/// synthesizes itself, then the key as a fresh tap where it may pass.
pub open spec fn sent_for_key(entry: Entry, key: Key, shift: bool) -> Seq<InputEvent> {
    entry.synthesized(key, shift) + if entry.flag(key, shift) == EventFlag::Emit {
        spec_key_events(key, shift)
    } else {
        Seq::empty()
    }
}

/// The buffer and the field stay in step. Where the field shows the
/// prompt `entry`, the events the editor sends for a key press leave the
/// field showing the prompt as the press left it, with the same text
/// around it.
pub proof fn lemma_key_keeps_in_step(
    field: Field,
    entry: Entry,
    before: Seq<char>,
    after: Seq<char>,
    key: Key,
    shift: bool,
)
    requires
        entry.wf(),
        field.entry == framed(entry, before, after),
        !field.shift,
    ensures
        field.receive_all(sent_for_key(entry, key, shift)) == field.with_entry(
            framed(entry.press(key, shift), before, after),
        ),
{
    let events = sent_for_key(entry, key, shift);
    let target = framed(entry.press(key, shift), before, after);
    let b = before.len() as int;
    let cursor = entry.cursor as int;
    if spec_key_to_char(key, shift) is Some {
        assert(events =~= spec_key_events(key, shift));
        lemma_receive_key_events(field, key, shift);
        assert(field.receive_all(events).entry.text =~= target.text);
    } else if key == KEY_BACKSPACE || key == KEY_DELETE || key == KEY_LEFT || key == KEY_RIGHT {
        if entry.flag(key, shift) == EventFlag::Emit {
            assert(events =~= spec_key_events(key, shift));
            lemma_receive_key_events(field, key, shift);
            assert(field.receive_all(events).entry.text =~= target.text);
        } else {
            assert(events =~= Seq::<InputEvent>::empty());
        }
    } else if key == KEY_HOME {
        assert(events =~= taps(KEY_LEFT, entry.cursor));
        lemma_receive_taps(field, KEY_LEFT, entry.cursor);
        lemma_left_times(field, entry.cursor);
    } else if key == KEY_END {
        let n = (entry.text.len() - entry.cursor) as nat;
        assert(events =~= taps(KEY_RIGHT, n));
        lemma_receive_taps(field, KEY_RIGHT, n);
        lemma_right_times(field, n);
    } else {
        assert(events =~= Seq::<InputEvent>::empty());
    }
}

/// Erasing the prompt gives the field back as it was before the prompt was
/// drawn: nothing of the prompt is left, nothing around it is touched, and
/// the cursor is where it was.
pub proof fn lemma_clear_restores_field(
    field: Field,
    entry: Entry,
    before: Seq<char>,
    after: Seq<char>,
)
    requires
        entry.wf(),
        field.entry == framed(entry, before, after),
    ensures
        field.receive_all(entry.clear_events()) == field.with_entry(bare(before, after)),
{
    let right = (entry.text.len() - entry.cursor + 1) as nat;
    let left = entry.cursor + 1;
    let deletes = taps(KEY_DELETE, right);
    let backspaces = taps(KEY_BACKSPACE, left);
    assert(entry.clear_events() =~= deletes + backspaces);
    lemma_receive_concat(field, deletes, backspaces);
    lemma_receive_taps(field, KEY_DELETE, right);
    lemma_delete_times(field, right);
    let half = field.receive_all(deletes);
    assert(half.entry.text =~= before + seq!['>'] + entry.text.subrange(0, entry.cursor as int)
        + after);
    lemma_receive_taps(half, KEY_BACKSPACE, left);
    lemma_backspace_times(half, left);
    assert(half.receive_all(backspaces).entry.text =~= before + after);
}

/// The taps for one character reach the field as that character typed,
/// where a key types it, and as nothing where none does.
pub proof fn lemma_receive_char(field: Field, c: char)
    requires
        !field.shift,
    ensures
        field.receive_all(char_events(c)) == if spec_char_to_key(c) is Some {
            field.with_entry(field.entry.insert(c))
        } else {
            field
        },
{
    match spec_char_to_key(c) {
        Some((key, shift)) => {
            if c != '\n' {
                lemma_char_round_trip(c);
            }
            lemma_receive_key_events(field, key, shift);
        },
        None => {},
    }
}

/// Typed output arrives as its typable characters, in order, at the cursor.
pub proof fn lemma_receive_typed(field: Field, text: Seq<char>)
    requires
        field.wf(),
        !field.shift,
    ensures
        field.receive_all(typed(text)) == field.with_entry(field.entry.insert_all(typable(text))),
    decreases text.len(),
{
    let entry = field.entry;
    reveal(Seq::filter);
    if text.len() == 0 {
        assert(entry.insert_all(typable(text)).text =~= entry.text);
    } else {
        let rest = text.drop_last();
        lemma_receive_typed(field, rest);
        lemma_receive_concat(field, typed(rest), char_events(text.last()));
        let mid = field.receive_all(typed(rest));
        lemma_receive_char(mid, text.last());
        assert(field.receive_all(typed(text)).entry.text =~= entry.insert_all(typable(text)).text);
    }
}

/// The field after a write-back: the clipboard is loaded first where the
/// plan has text for it, then the events arrive.
pub open spec fn written(field: Field, back: WriteBackView) -> Field {
    let loaded = match back.clipboard {
        Some(text) => field.with_clipboard(text),
        None => field,
    };
    loaded.receive_all(back.emission.batches.flatten())
}

/// What the focused application shows of `contents`, by the output method:
/// all of it when pasted, its typable characters when typed.
pub open spec fn shown(method: OutputMethod, contents: Seq<char>) -> Seq<char> {
    match method {
        OutputMethod::Paste => contents,
        OutputMethod::Type => typable(contents),
    }
}

/// Writing output back replaces the prompt by the output. Where the
/// field shows the prompt `entry`, it shows after the write-back the text
/// that was before the prompt, the output, and the text that was after it,
/// with the cursor behind the output.
pub proof fn lemma_write_back_replaces_prompt(
    field: Field,
    entry: Entry,
    before: Seq<char>,
    after: Seq<char>,
    method: OutputMethod,
    delay: Option<u64>,
    contents: Seq<char>,
)
    requires
        entry.wf(),
        field.entry == framed(entry, before, after),
        !field.shift,
    ensures
        written(field, write_plan(entry, method, delay, contents)).entry == bare(
            before + shown(method, contents),
            after,
        ),
{
    let plan = write_plan(entry, method, delay, contents);
    let clear = entry.clear_events();
    if contents.len() == 0 {
        lemma_paced_flatten(clear, delay);
        lemma_clear_restores_field(field, entry, before, after);
        assert(typable(contents) =~= Seq::<char>::empty()) by {
            reveal(Seq::filter);
        }
        assert(before + shown(method, contents) =~= before);
    } else {
        match method {
            OutputMethod::Type => {
                lemma_paced_flatten(clear + typed(contents), delay);
                lemma_receive_concat(field, clear, typed(contents));
                lemma_clear_restores_field(field, entry, before, after);
                let cleared = field.receive_all(clear);
                lemma_receive_typed(cleared, contents);
                assert(cleared.entry.insert_all(typable(contents)).text =~= before + typable(
                    contents,
                ) + after);
            },
            OutputMethod::Paste => {
                let loaded = field.with_clipboard(contents);
                lemma_paced_flatten(clear + tap(KEY_PASTE), delay);
                lemma_receive_concat(loaded, clear, tap(KEY_PASTE));
                lemma_clear_restores_field(loaded, entry, before, after);
                let cleared = loaded.receive_all(clear);
                lemma_receive_tap(cleared, KEY_PASTE);
                assert(cleared.entry.insert_all(contents).text =~= before + contents + after);
            },
        }
    }
}

} // verus!
