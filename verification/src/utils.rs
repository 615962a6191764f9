//! Which input devices are keyboards.

use crate::keys::{Key, KEY_ENTER};
use vstd::prelude::*;

verus! {

/// The name the program gives its own virtual keyboard.
pub const UINPUT_DEVICE_NAME: &'static str = "shiv virtual keyboard";

/// What is known of an input device without reading events from it.
#[derive(Debug, Clone, PartialEq, Eq)]
pub struct DeviceInfo {
    pub name: Option<String>,
    /// The keys the device can send, where it sends keys at all.
    pub supported_keys: Option<Vec<Key>>,
    /// Whether the device reports movement on relative axes, as a mouse does.
    pub has_relative_axes: bool,
}

impl DeviceInfo {
    pub open spec fn has_key(self, key: Key) -> bool {
        self.supported_keys matches Some(keys) && keys@.contains(key)
    }

    pub open spec fn is_named(self, name: Seq<char>) -> bool {
        self.name matches Some(own) && own@ == name
    }

    /// A keyboard has an Enter key, is not the program's own virtual
    /// keyboard, and has no relative axes.
    pub open spec fn is_keyboard(self) -> bool {
        self.has_key(KEY_ENTER) && !self.is_named(UINPUT_DEVICE_NAME@) && !self.has_relative_axes
    }
}

fn contains_key(keys: &Vec<Key>, key: Key) -> (found: bool)
    ensures
        found == keys@.contains(key),
{
    let mut i: usize = 0;
    while i < keys.len()
        invariant
            i <= keys@.len(),
            forall|j: int| 0 <= j < i ==> keys@[j] != key,
        decreases keys@.len() - i,
    {
        if keys[i] == key {
            return true;
        }
        i += 1;
    }
    false
}

/// Determine if a device is a keyboard.
pub fn check_device_is_keyboard(device: &DeviceInfo) -> (keyboard: bool)
    ensures
        keyboard == device.is_keyboard(),
{
    let has_enter = match &device.supported_keys {
        Some(keys) => contains_key(keys, KEY_ENTER),
        None => false,
    };
    if has_enter {
        let own = match &device.name {
            Some(name) => *name == UINPUT_DEVICE_NAME.to_owned(),
            None => false,
        };
        if own {
            false
        } else {
            // Only accept devices that have no relative axes, to leave mice out.
            !device.has_relative_axes
        }
    } else {
        false
    }
}

/// `list` holds the positions of the keyboards among `devices`: every
/// keyboard, nothing else, each once and in increasing order.
pub open spec fn lists_keyboards(devices: Seq<DeviceInfo>, list: Seq<usize>) -> bool {
    &&& forall|j: int|
        0 <= j < list.len() ==> #[trigger] list[j] < devices.len() && devices[list[j] as int]
            .is_keyboard()
    &&& forall|j: int, k: int| 0 <= j < k < list.len() ==> list[j] < list[k]
    &&& forall|i: int|
        0 <= i < devices.len() && (#[trigger] devices[i]).is_keyboard() ==> list.contains(
            i as usize,
        )
}

/// Get the positions of all keyboards among `devices`.
pub fn get_keyboards(devices: &Vec<DeviceInfo>) -> (keyboards: Vec<usize>)
    ensures
        lists_keyboards(devices@, keyboards@),
{
    let mut keyboards: Vec<usize> = Vec::new();
    let mut i: usize = 0;
    while i < devices.len()
        invariant
            i <= devices@.len(),
            lists_keyboards(devices@.take(i as int), keyboards@),
        decreases devices@.len() - i,
    {
        let ghost found = keyboards@;
        if check_device_is_keyboard(&devices[i]) {
            keyboards.push(i);
        }
        proof {
            let seen = devices@.take(i + 1);
            assert forall|p: int| 0 <= p < seen.len() && (#[trigger] seen[p]).is_keyboard() implies
                keyboards@.contains(p as usize) by {
                if p < i {
                    assert(devices@.take(i as int)[p].is_keyboard());
                    let j = choose|j: int| 0 <= j < found.len() && found[j] == p as usize;
                    assert(keyboards@[j] == p as usize);
                } else {
                    assert(keyboards@[keyboards@.len() - 1] == p as usize);
                }
            }
        }
        i += 1;
    }
    assert(devices@.take(devices@.len() as int) =~= devices@);
    keyboards
}

/// The devices to release when the program ends: every keyboard among
/// `devices`, by position.
pub fn release_keyboards(devices: &Vec<DeviceInfo>) -> (released: Vec<usize>)
    ensures
        lists_keyboards(devices@, released@),
{
    get_keyboards(devices)
}

/// There is no keyboard to read from.
#[derive(Clone, Copy, Debug, PartialEq, Eq, Structural)]
pub struct NoKeyboard;

impl NoKeyboard {
    pub fn message(&self) -> (text: String)
        ensures
            text@ == "No keyboard found"@,
    {
        "No keyboard found".to_owned()
    }
}

/// The devices to grab when the program starts: every keyboard among
/// `devices`, by position. Without a keyboard there is nothing to do.
pub fn keyboards_to_grab(devices: &Vec<DeviceInfo>) -> (grabbed: Result<Vec<usize>, NoKeyboard>)
    ensures
        match grabbed {
            Ok(keyboards) => keyboards@.len() > 0 && lists_keyboards(devices@, keyboards@),
            Err(_) => forall|i: int|
                0 <= i < devices@.len() ==> !(#[trigger] devices@[i]).is_keyboard(),
        },
{
    let keyboards = get_keyboards(devices);
    if keyboards.len() == 0 {
        Err(NoKeyboard)
    } else {
        Ok(keyboards)
    }
}

} // verus!
