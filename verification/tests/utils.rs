use shiv::keys::{KEY_A, KEY_ENTER, KEY_ESC};
use shiv::utils::{
    check_device_is_keyboard, get_keyboards, keyboards_to_grab, release_keyboards, DeviceInfo,
    NoKeyboard, UINPUT_DEVICE_NAME,
};

fn device(name: Option<&str>, keys: Option<Vec<u16>>, axes: bool) -> DeviceInfo {
    DeviceInfo { name: name.map(|n| n.to_string()), supported_keys: keys, has_relative_axes: axes }
}

fn keyboard(name: &str) -> DeviceInfo {
    device(Some(name), Some(vec![KEY_ESC, KEY_A, KEY_ENTER]), false)
}

#[test]
fn a_keyboard_has_enter_and_no_relative_axes() {
    assert!(check_device_is_keyboard(&keyboard("USB Keyboard")));
    assert!(check_device_is_keyboard(&device(None, Some(vec![KEY_ENTER]), false)));
    assert!(check_device_is_keyboard(&device(Some(""), Some(vec![KEY_ENTER, KEY_ENTER]), false)));
}

#[test]
fn a_device_without_enter_is_no_keyboard() {
    assert!(!check_device_is_keyboard(&device(Some("Power Button"), Some(vec![116]), false)));
    assert!(!check_device_is_keyboard(&device(Some("Lid Switch"), None, false)));
    assert!(!check_device_is_keyboard(&device(Some("empty"), Some(vec![]), false)));
}

#[test]
fn a_mouse_is_no_keyboard() {
    assert!(!check_device_is_keyboard(&device(Some("Gaming Mouse"), Some(vec![KEY_ENTER, 272]), true)));
}

#[test]
fn the_virtual_keyboard_is_left_out() {
    assert!(!check_device_is_keyboard(&keyboard(UINPUT_DEVICE_NAME)));
    assert!(check_device_is_keyboard(&keyboard(&UINPUT_DEVICE_NAME.to_uppercase())));
    assert!(check_device_is_keyboard(&keyboard(&format!("{} 2", UINPUT_DEVICE_NAME))));
}

#[test]
fn keyboards_are_found_by_position() {
    let devices = vec![
        device(Some("Power Button"), Some(vec![116]), false),
        keyboard("first"),
        device(Some("mouse"), Some(vec![KEY_ENTER]), true),
        keyboard(UINPUT_DEVICE_NAME),
        keyboard("second"),
        device(None, None, false),
        keyboard("third"),
    ];
    assert_eq!(get_keyboards(&devices), vec![1, 4, 6]);
    assert_eq!(release_keyboards(&devices), vec![1, 4, 6]);
    assert_eq!(get_keyboards(&vec![]), Vec::<usize>::new());
    assert_eq!(release_keyboards(&devices[..1].to_vec()), Vec::<usize>::new());
}

#[test]
fn there_has_to_be_a_keyboard_to_grab() {
    let devices = vec![device(Some("mouse"), Some(vec![KEY_ENTER]), true), keyboard("only")];
    assert_eq!(keyboards_to_grab(&devices), Ok(vec![1]));
    assert_eq!(keyboards_to_grab(&devices[..1].to_vec()), Err(NoKeyboard));
    assert_eq!(keyboards_to_grab(&vec![]), Err(NoKeyboard));
    assert_eq!(NoKeyboard.message(), "No keyboard found");
}
