//! What holds of the line editor over whole runs of key presses.

use crate::event::{lemma_taps_len, taps, InputEvent};
use crate::field::{framed, lemma_key_keeps_in_step, lemma_receive_concat, sent_for_key, Field};
use crate::keys::{
    spec_key_to_char, Key, KEY_BACKSPACE, KEY_DELETE, KEY_END, KEY_HOME, KEY_LEFT, KEY_RIGHT,
};
use crate::terminal::{Entry, EventFlag};
use vstd::prelude::*;

verus! {

/// One key going down, with the Shift state it went down in.
pub struct KeyPress {
    pub key: Key,
    pub shift: bool,
}

/// The buffer after a run of key presses.
pub open spec fn replay(entry: Entry, presses: Seq<KeyPress>) -> Entry
    decreases presses.len(),
{
    if presses.len() == 0 {
        entry
    } else {
        replay(entry, presses.drop_last()).press(presses.last().key, presses.last().shift)
    }
}

/// Whether the press types a character.
pub open spec fn inserts(press: KeyPress) -> bool {
    spec_key_to_char(press.key, press.shift) is Some
}

/// Whether the press removes a character from `entry`: a Backspace with
/// something before the cursor or a Delete with something after it.
pub open spec fn removes(entry: Entry, press: KeyPress) -> bool {
    !inserts(press) && (press.key == KEY_BACKSPACE && entry.cursor > 0 || press.key == KEY_DELETE
        && entry.cursor < entry.text.len())
}

/// The number of presses in a run that type a character.
pub open spec fn inserted(presses: Seq<KeyPress>) -> nat
    decreases presses.len(),
{
    if presses.len() == 0 {
        0
    } else {
        inserted(presses.drop_last()) + if inserts(presses.last()) {
            1nat
        } else {
            0nat
        }
    }
}

/// The number of presses in a run from `entry` that remove a character.
pub open spec fn removed(entry: Entry, presses: Seq<KeyPress>) -> nat
    decreases presses.len(),
{
    if presses.len() == 0 {
        0
    } else {
        removed(entry, presses.drop_last()) + if removes(
            replay(entry, presses.drop_last()),
            presses.last(),
        ) {
            1nat
        } else {
            0nat
        }
    }
}

/// The events the editor sends over a run of key presses from `entry`.
pub open spec fn sent_for_run(entry: Entry, presses: Seq<KeyPress>) -> Seq<InputEvent>
    decreases presses.len(),
{
    if presses.len() == 0 {
        Seq::empty()
    } else {
        sent_for_run(entry, presses.drop_last()) + sent_for_key(
            replay(entry, presses.drop_last()),
            presses.last().key,
            presses.last().shift,
        )
    }
}

/// A key press leaves the cursor inside the text.
pub proof fn lemma_press_keeps_cursor_inside(entry: Entry, key: Key, shift: bool)
    requires
        entry.wf(),
    ensures
        entry.press(key, shift).wf(),
{
}

/// After any run of key presses the cursor is inside the text.
pub proof fn lemma_replay_keeps_cursor_inside(entry: Entry, presses: Seq<KeyPress>)
    requires
        entry.wf(),
    ensures
        replay(entry, presses).wf(),
    decreases presses.len(),
{
    if presses.len() > 0 {
        lemma_replay_keeps_cursor_inside(entry, presses.drop_last());
    }
}

/// After any run of key presses the buffer holds as many characters as it
/// held before, plus those typed, minus those removed.
pub proof fn lemma_replay_length(entry: Entry, presses: Seq<KeyPress>)
    requires
        entry.wf(),
    ensures
        removed(entry, presses) <= entry.text.len() + inserted(presses),
        replay(entry, presses).text.len() == entry.text.len() + inserted(presses) - removed(
            entry,
            presses,
        ),
    decreases presses.len(),
{
    if presses.len() > 0 {
        lemma_replay_length(entry, presses.drop_last());
        lemma_replay_keeps_cursor_inside(entry, presses.drop_last());
    }
}

/// After any run of key presses the field shows what the buffer holds.
/// Where the field shows the prompt `entry` between `before` and `after`,
/// the events sent over the run leave it showing the prompt as the run
/// left it, between the same `before` and `after`.
pub proof fn lemma_replay_keeps_in_step(
    field: Field,
    entry: Entry,
    before: Seq<char>,
    after: Seq<char>,
    presses: Seq<KeyPress>,
)
    requires
        entry.wf(),
        field.entry == framed(entry, before, after),
        !field.shift,
    ensures
        field.receive_all(sent_for_run(entry, presses)) == field.with_entry(
            framed(replay(entry, presses), before, after),
        ),
    decreases presses.len(),
{
    if presses.len() > 0 {
        let rest = presses.drop_last();
        let last = presses.last();
        lemma_replay_keeps_in_step(field, entry, before, after, rest);
        lemma_replay_keeps_cursor_inside(entry, rest);
        let mid = field.receive_all(sent_for_run(entry, rest));
        lemma_receive_concat(
            field,
            sent_for_run(entry, rest),
            sent_for_key(replay(entry, rest), last.key, last.shift),
        );
        lemma_key_keeps_in_step(mid, replay(entry, rest), before, after, last.key, last.shift);
    }
}

/// Backspace at the start of the text and Delete at its end do nothing:
/// the buffer stays as it is, the key is blocked and nothing is sent.
pub proof fn lemma_edge_keys_do_nothing(entry: Entry, shift: bool)
    ensures
        entry.cursor == 0 ==> {
            &&& entry.press(KEY_BACKSPACE, shift) == entry
            &&& entry.flag(KEY_BACKSPACE, shift) == EventFlag::Block
            &&& sent_for_key(entry, KEY_BACKSPACE, shift) == Seq::<InputEvent>::empty()
        },
        entry.cursor == entry.text.len() ==> {
            &&& entry.press(KEY_DELETE, shift) == entry
            &&& entry.flag(KEY_DELETE, shift) == EventFlag::Block
            &&& sent_for_key(entry, KEY_DELETE, shift) == Seq::<InputEvent>::empty()
        },
{
    if entry.cursor == 0 {
        assert(sent_for_key(entry, KEY_BACKSPACE, shift) =~= Seq::<InputEvent>::empty());
    }
    if entry.cursor == entry.text.len() {
        assert(sent_for_key(entry, KEY_DELETE, shift) =~= Seq::<InputEvent>::empty());
    }
}

/// Home and then End. Neither touches the text and both are blocked; Home
/// is played as one Left tap for each character before the cursor, and End,
/// which then starts from the front, as one Right tap for each character of
/// the text. The cursor ends behind the last character.
pub proof fn lemma_home_then_end(entry: Entry, shift: bool)
    requires
        entry.wf(),
    ensures
        ({
            let home = entry.press(KEY_HOME, shift);
            let end = home.press(KEY_END, shift);
            &&& home.text == entry.text
            &&& end.text == entry.text
            &&& home.cursor == 0
            &&& end.cursor == entry.text.len()
            &&& entry.flag(KEY_HOME, shift) == EventFlag::Block
            &&& home.flag(KEY_END, shift) == EventFlag::Block
            &&& sent_for_key(entry, KEY_HOME, shift) == taps(KEY_LEFT, entry.cursor)
            &&& sent_for_key(home, KEY_END, shift) == taps(KEY_RIGHT, entry.text.len())
            &&& sent_for_key(entry, KEY_HOME, shift).len() + sent_for_key(
                home,
                KEY_END,
                shift,
            ).len() == 4 * (entry.cursor + entry.text.len())
        }),
{
    let home = entry.press(KEY_HOME, shift);
    assert(sent_for_key(entry, KEY_HOME, shift) =~= taps(KEY_LEFT, entry.cursor));
    assert(sent_for_key(home, KEY_END, shift) =~= taps(KEY_RIGHT, entry.text.len()));
    lemma_taps_len(KEY_LEFT, entry.cursor);
    lemma_taps_len(KEY_RIGHT, entry.text.len());
}

/// Home and then End bring the cursor back where it was exactly when it
/// was behind the last character.
pub proof fn lemma_home_then_end_restores_cursor_at_end(entry: Entry, shift: bool)
    requires
        entry.wf(),
    ensures
        entry.press(KEY_HOME, shift).press(KEY_END, shift).cursor == entry.cursor
            <==> entry.cursor == entry.text.len(),
{
}

/// From one and the same cursor, Home and End together take as many taps
/// as the text has characters: those before the cursor to the left, those
/// after it to the right.
pub proof fn lemma_home_and_end_taps(entry: Entry, shift: bool)
    requires
        entry.wf(),
    ensures
        sent_for_key(entry, KEY_HOME, shift) == taps(KEY_LEFT, entry.cursor),
        sent_for_key(entry, KEY_END, shift) == taps(
            KEY_RIGHT,
            (entry.text.len() - entry.cursor) as nat,
        ),
        sent_for_key(entry, KEY_HOME, shift).len() + sent_for_key(entry, KEY_END, shift).len() == 4
            * entry.text.len(),
{
    assert(sent_for_key(entry, KEY_HOME, shift) =~= taps(KEY_LEFT, entry.cursor));
    assert(sent_for_key(entry, KEY_END, shift) =~= taps(
        KEY_RIGHT,
        (entry.text.len() - entry.cursor) as nat,
    ));
    lemma_taps_len(KEY_LEFT, entry.cursor);
    lemma_taps_len(KEY_RIGHT, (entry.text.len() - entry.cursor) as nat);
}

/// Erasing the prompt takes one Delete tap for each character after the
/// cursor and one Backspace tap for each character before it, and one more
/// of each for the two markers.
pub proof fn lemma_clear_counts(entry: Entry)
    requires
        entry.wf(),
    ensures
        entry.clear_events() == taps(KEY_DELETE, (entry.text.len() - entry.cursor + 1) as nat)
            + taps(KEY_BACKSPACE, entry.cursor + 1),
        entry.clear_events().len() == 4 * (entry.text.len() + 2),
{
    lemma_taps_len(KEY_DELETE, (entry.text.len() - entry.cursor + 1) as nat);
    lemma_taps_len(KEY_BACKSPACE, entry.cursor + 1);
}

} // verus!
