use shiv::emission::{pace, Emission};
use shiv::event::{InputEvent, InputEventKind, EV_KEY, EV_SYN};
use shiv::keys::KEY_A;

fn numbered(n: usize) -> Vec<InputEvent> {
    (0..n).map(|i| InputEvent::new(EV_KEY, i as u16, 1)).collect()
}

#[test]
fn pace_without_delay() {
    for n in 0..5 {
        assert_eq!(pace(numbered(n), None), Emission { batches: vec![numbered(n)], delay: None });
    }
}

#[test]
fn pace_with_delay() {
    for n in 0..9 {
        let emission = pace(numbered(n), Some(3));
        assert_eq!(emission.delay, Some(3));
        assert_eq!(emission.batches.len(), (n + 1) / 2);
        assert_eq!(emission.batches.concat(), numbered(n));
        for (i, batch) in emission.batches.iter().enumerate() {
            let expected = if 2 * i + 2 <= n { 2 } else { 1 };
            assert_eq!(batch.len(), expected);
        }
    }
}

#[test]
fn pace_with_zero_delay_still_cuts() {
    assert_eq!(
        pace(numbered(3), Some(0)),
        Emission { batches: vec![numbered(2), vec![InputEvent::new(EV_KEY, 2, 1)]], delay: Some(0) }
    );
}

#[test]
fn event_fields_and_kind() {
    let event = InputEvent::new(EV_KEY, KEY_A, 1);
    assert_eq!(event.event_type, EV_KEY);
    assert_eq!(event.code, KEY_A);
    assert_eq!(event.value(), 1);
    assert_eq!(event.kind(), InputEventKind::Key(KEY_A));
    assert_eq!(InputEvent::new(EV_SYN, 0, 0).kind(), InputEventKind::Synchronization(0));
    assert_eq!(InputEvent::new(EV_SYN, 3, 7).kind(), InputEventKind::Synchronization(3));
    assert_eq!(InputEvent::new(2, 0, 5).kind(), InputEventKind::Other);
    assert_eq!(InputEvent::new(0x14, 1, 1).kind(), InputEventKind::Other);
}

#[test]
fn event_types_are_those_of_evdev() {
    assert_eq!(EV_SYN, evdev::EventType::SYNCHRONIZATION.0);
    assert_eq!(EV_KEY, evdev::EventType::KEY.0);
    let theirs = evdev::InputEvent::new(evdev::EventType::KEY, KEY_A, 1);
    let ours = InputEvent::new(theirs.event_type().0, theirs.code(), theirs.value());
    assert_eq!(ours.kind(), InputEventKind::Key(KEY_A));
    assert!(matches!(theirs.kind(), evdev::InputEventKind::Key(key) if key.code() == KEY_A));
}
