//! Primitive input events and the sequences that make up a key tap.

use crate::keys::{Key, KEY_LEFTSHIFT};
use vstd::prelude::*;

verus! {

/// The type field of an input event.
pub type EventType = u16;

/// Marks the end of a batch of state changes.
pub const EV_SYN: EventType = 0;

/// A key changed state.
pub const EV_KEY: EventType = 1;

/// Value of a key event: the key went up.
pub const KEY_RELEASE: i32 = 0;

/// Value of a key event: the key went down.
pub const KEY_PRESS: i32 = 1;

/// Value of a key event: the key is held and repeats.
pub const KEY_REPEAT: i32 = 2;

/// One primitive event, as read from a device or written to the virtual one.
#[derive(Clone, Copy, Debug, PartialEq, Eq, Structural)]
pub struct InputEvent {
    pub event_type: EventType,
    pub code: u16,
    pub value: i32,
}

/// What an event is about, by its type.
#[derive(Clone, Copy, Debug, PartialEq, Eq, Structural)]
pub enum InputEventKind {
    Synchronization(u16),
    Key(Key),
    Other,
}

/// The event for `key` going down.
pub open spec fn key_down(key: Key) -> InputEvent {
    InputEvent { event_type: EV_KEY, code: key, value: KEY_PRESS }
}

/// The event for `key` going up.
pub open spec fn key_up(key: Key) -> InputEvent {
    InputEvent { event_type: EV_KEY, code: key, value: KEY_RELEASE }
}

/// The synchronization marker that closes a key transition.
pub open spec fn sync_report() -> InputEvent {
    InputEvent { event_type: EV_SYN, code: 0, value: 0 }
}

/// One tap of `key`: down and up, each followed by a synchronization marker.
pub open spec fn tap(key: Key) -> Seq<InputEvent> {
    seq![key_down(key), sync_report(), key_up(key), sync_report()]
}

/// `n` taps of `key` in a row.
pub open spec fn taps(key: Key, n: nat) -> Seq<InputEvent>
    decreases n,
{
    if n == 0 {
        Seq::empty()
    } else {
        taps(key, (n - 1) as nat) + tap(key)
    }
}

/// The events that make the focused application see `key`, shifted or not:
/// a plain tap, or a tap wrapped between left Shift going down and up.
pub open spec fn spec_key_events(key: Key, shift: bool) -> Seq<InputEvent> {
    if shift {
        seq![key_down(KEY_LEFTSHIFT), sync_report()] + tap(key) + seq![
            key_up(KEY_LEFTSHIFT),
            sync_report(),
        ]
    } else {
        tap(key)
    }
}

impl InputEvent {
    pub fn new(event_type: EventType, code: u16, value: i32) -> (event: InputEvent)
        ensures
            event == (InputEvent { event_type, code, value }),
    {
        InputEvent { event_type, code, value }
    }

    pub open spec fn spec_kind(self) -> InputEventKind {
        if self.event_type == EV_SYN {
            InputEventKind::Synchronization(self.code)
        } else if self.event_type == EV_KEY {
            InputEventKind::Key(self.code)
        } else {
            InputEventKind::Other
        }
    }

    /// Classifies the event by its type; the code of a key event is the key.
    pub fn kind(&self) -> (kind: InputEventKind)
        ensures
            kind == self.spec_kind(),
    {
        if self.event_type == EV_SYN {
            InputEventKind::Synchronization(self.code)
        } else if self.event_type == EV_KEY {
            InputEventKind::Key(self.code)
        } else {
            InputEventKind::Other
        }
    }

    pub fn value(&self) -> (value: i32)
        ensures
            value == self.value,
    {
        self.value
    }
}

/// The number of taps in a run is a quarter of its events.
pub proof fn lemma_taps_len(key: Key, n: nat)
    ensures
        taps(key, n).len() == 4 * n,
    decreases n,
{
    if n > 0 {
        lemma_taps_len(key, (n - 1) as nat);
    }
}

} // verus!
