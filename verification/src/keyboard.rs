//! The keyboard state tracker.
//!
//! A [`Keyboard`] follows raw key events and remembers which modifiers and
//! which other keys are down. It never looks at anything but the events it
//! is given.

use crate::event::{InputEvent, KEY_PRESS, KEY_RELEASE};
use crate::keys::{
    Key, KEY_C, KEY_COUNT, KEY_ENTER, KEY_ESC, KEY_LEFTALT, KEY_LEFTCTRL, KEY_LEFTMETA,
    KEY_LEFTSHIFT, KEY_RIGHTALT, KEY_RIGHTCTRL, KEY_RIGHTMETA, KEY_RIGHTSHIFT,
};
use std::collections::HashSet;
use vstd::prelude::*;

verus! {

broadcast use vstd::std_specs::hash::group_hash_axioms;

/// The four modifiers; the left and the right key of a pair count as one.
#[derive(Debug, PartialEq, Eq, Copy, Clone, Hash, Structural)]
pub enum Modifier {
    Super,
    Alt,
    Control,
    Shift,
}

/// The modifier that `key` stands for, if it is one of the eight modifier keys.
pub open spec fn spec_modifier(key: Key) -> Option<Modifier> {
    if key == KEY_LEFTCTRL || key == KEY_RIGHTCTRL {
        Some(Modifier::Control)
    } else if key == KEY_LEFTSHIFT || key == KEY_RIGHTSHIFT {
        Some(Modifier::Shift)
    } else if key == KEY_LEFTALT || key == KEY_RIGHTALT {
        Some(Modifier::Alt)
    } else if key == KEY_LEFTMETA || key == KEY_RIGHTMETA {
        Some(Modifier::Super)
    } else {
        None
    }
}

/// The modifier that `key` stands for, if it is one of the eight modifier keys.
pub fn key_modifier(key: Key) -> (modifier: Option<Modifier>)
    ensures
        modifier == spec_modifier(key),
{
    match key {
        KEY_LEFTCTRL | KEY_RIGHTCTRL => Some(Modifier::Control),
        KEY_LEFTSHIFT | KEY_RIGHTSHIFT => Some(Modifier::Shift),
        KEY_LEFTALT | KEY_RIGHTALT => Some(Modifier::Alt),
        KEY_LEFTMETA | KEY_RIGHTMETA => Some(Modifier::Super),
        _ => None,
    }
}

/// The set of keys that are down, kept as the bit set `evdev::AttributeSet`
/// with one bit for each scancode below [`KEY_COUNT`].
#[verifier::external_body]
#[derive(Debug)]
pub struct KeySet {
    bits: evdev::AttributeSet<evdev::Key>,
}

/// The scancodes whose bit is set in a key set.
pub uninterp spec fn held_keys(set: KeySet) -> Set<Key>;

/// `AttributeSet::new`: a set with every bit cleared.
#[verifier::external_body]
fn key_set_new() -> (set: KeySet)
    ensures
        held_keys(set) == Set::<Key>::empty(),
{
    KeySet { bits: evdev::AttributeSet::new() }
}

/// `AttributeSetRef::insert`: sets the bit of `key` and no other. The bit
/// has to exist: the call panics on a scancode the set has no room for.
#[verifier::external_body]
fn key_set_insert(set: &mut KeySet, key: Key)
    requires
        key < KEY_COUNT,
    ensures
        held_keys(*final(set)) == held_keys(*old(set)).insert(key),
{
    set.bits.insert(evdev::Key::new(key))
}

/// `AttributeSetRef::remove`: clears the bit of `key` and no other. The bit
/// has to exist: the call panics on a scancode the set has no room for.
#[verifier::external_body]
fn key_set_remove(set: &mut KeySet, key: Key)
    requires
        key < KEY_COUNT,
    ensures
        held_keys(*final(set)) == held_keys(*old(set)).remove(key),
{
    set.bits.remove(evdev::Key::new(key))
}

/// `AttributeSetRef::contains`: whether the bit of `key` is set; a scancode
/// the set has no room for is not in it.
#[verifier::external_body]
fn key_set_contains(set: &KeySet, key: Key) -> (held: bool)
    ensures
        held == held_keys(*set).contains(key),
{
    set.bits.contains(evdev::Key::new(key))
}

/// The keyboard as a mathematical value: the modifiers and the other keys
/// that are down.
pub struct KeyboardState {
    pub modifiers: Set<Modifier>,
    pub held: Set<Key>,
}

impl KeyboardState {
    /// Nothing is down.
    pub open spec fn released() -> KeyboardState {
        KeyboardState { modifiers: Set::empty(), held: Set::empty() }
    }

    /// The state after an event of value `value` for `key`. A release
    /// takes the key out, a press puts it in, and anything else, a repeat
    /// above all, changes nothing. Modifier keys are kept by the modifier
    /// they stand for. A scancode at or above [`KEY_COUNT`] names no key
    /// and is never held.
    pub open spec fn handle(self, value: i32, key: Key) -> KeyboardState {
        match spec_modifier(key) {
            Some(modifier) => if value == KEY_RELEASE {
                KeyboardState { modifiers: self.modifiers.remove(modifier), held: self.held }
            } else if value == KEY_PRESS {
                KeyboardState { modifiers: self.modifiers.insert(modifier), held: self.held }
            } else {
                self
            },
            None => if key >= KEY_COUNT {
                self
            } else if value == KEY_RELEASE {
                KeyboardState { modifiers: self.modifiers, held: self.held.remove(key) }
            } else if value == KEY_PRESS {
                KeyboardState { modifiers: self.modifiers, held: self.held.insert(key) }
            } else {
                self
            },
        }
    }

    pub open spec fn is_ctrl(self) -> bool {
        self.modifiers.contains(Modifier::Control)
    }

    pub open spec fn is_shift(self) -> bool {
        self.modifiers.contains(Modifier::Shift)
    }

    pub open spec fn is_ctrl_c(self) -> bool {
        self.is_ctrl() && self.held.contains(KEY_C)
    }

    pub open spec fn is_enter(self) -> bool {
        self.held.contains(KEY_ENTER)
    }

    pub open spec fn is_escape(self) -> bool {
        self.held.contains(KEY_ESC)
    }
}

/// Keyboard state: the modifiers and the keys that are currently down.
#[derive(Debug)]
pub struct Keyboard {
    modifiers: HashSet<u8>,
    keysyms: KeySet,
}

/// The number a modifier is stored under.
pub closed spec fn modifier_index(modifier: Modifier) -> u8 {
    match modifier {
        Modifier::Super => 0,
        Modifier::Alt => 1,
        Modifier::Control => 2,
        Modifier::Shift => 3,
    }
}

fn index_of(modifier: Modifier) -> (index: u8)
    ensures
        index == modifier_index(modifier),
{
    match modifier {
        Modifier::Super => 0,
        Modifier::Alt => 1,
        Modifier::Control => 2,
        Modifier::Shift => 3,
    }
}

impl View for Keyboard {
    type V = KeyboardState;

    closed spec fn view(&self) -> KeyboardState {
        KeyboardState {
            modifiers: Set::new(|m: Modifier| self.modifiers@.contains(modifier_index(m))),
            held: held_keys(self.keysyms),
        }
    }
}

impl Keyboard {
    /// A keyboard with nothing held.
    pub fn new() -> (keyboard: Keyboard)
        ensures
            keyboard@ == KeyboardState::released(),
    {
        let keyboard = Keyboard { modifiers: HashSet::new(), keysyms: key_set_new() };
        assert(keyboard@.modifiers =~= Set::<Modifier>::empty());
        keyboard
    }

    /// Takes note of one key event. Only the value of `event` is read; the
    /// key it is about is `key`.
    pub fn handle_event(&mut self, event: InputEvent, key: Key)
        ensures
            final(self)@ == old(self)@.handle(event.value, key),
    {
        if let Some(modifier) = key_modifier(key) {
            self.update_modifiers(event, modifier);
        } else {
            self.update_keysyms(event, key);
        }
    }

    fn update_keysyms(&mut self, event: InputEvent, key: Key)
        requires
            spec_modifier(key) is None,
        ensures
            final(self)@ == old(self)@.handle(event.value, key),
    {
        if key >= KEY_COUNT {
            // Not a key: the set has no bit for it.
            return ;
        }
        if event.value() == KEY_RELEASE {
            key_set_remove(&mut self.keysyms, key);
        } else if event.value() == KEY_PRESS {
            key_set_insert(&mut self.keysyms, key);
        }
    }

    fn update_modifiers(&mut self, event: InputEvent, modifier: Modifier)
        ensures
            final(self)@.held == old(self)@.held,
            final(self)@.modifiers == if event.value == KEY_RELEASE {
                old(self)@.modifiers.remove(modifier)
            } else if event.value == KEY_PRESS {
                old(self)@.modifiers.insert(modifier)
            } else {
                old(self)@.modifiers
            },
    {
        let index = index_of(modifier);
        if event.value() == KEY_RELEASE {
            self.modifiers.remove(&index);
            assert(self@.modifiers =~= old(self)@.modifiers.remove(modifier));
        } else if event.value() == KEY_PRESS {
            self.modifiers.insert(index);
            assert(self@.modifiers =~= old(self)@.modifiers.insert(modifier));
        }
    }

    /// Control is down together with the C key.
    pub fn is_ctrl_c(&self) -> (held: bool)
        ensures
            held == self@.is_ctrl_c(),
    {
        self.is_ctrl() && key_set_contains(&self.keysyms, KEY_C)
    }

    pub fn is_enter(&self) -> (held: bool)
        ensures
            held == self@.is_enter(),
    {
        key_set_contains(&self.keysyms, KEY_ENTER)
    }

    pub fn is_escape(&self) -> (held: bool)
        ensures
            held == self@.is_escape(),
    {
        key_set_contains(&self.keysyms, KEY_ESC)
    }

    pub fn is_ctrl(&self) -> (held: bool)
        ensures
            held == self@.is_ctrl(),
    {
        self.modifiers.contains(&index_of(Modifier::Control))
    }

    pub fn is_shift(&self) -> (held: bool)
        ensures
            held == self@.is_shift(),
    {
        self.modifiers.contains(&index_of(Modifier::Shift))
    }

    /// Whether `key` is down. Modifier keys are not kept by key: ask for
    /// them with [`Keyboard::is_ctrl`] and [`Keyboard::is_shift`].
    pub fn is_held(&self, key: Key) -> (held: bool)
        ensures
            held == self@.held.contains(key),
    {
        key_set_contains(&self.keysyms, key)
    }
}

} // verus!
