use flower::keyboard::{Keyboard, KeyEventKind, KeyboardRequest, LedFlags, Ps2Keyboard, LED_CAPS_LOCK};
use flower::keymap::{A, CAPS_LOCK, LEFT_SHIFT};
use flower::ps2::keyboard::Event;

#[test]
fn keys_are_made_repeated_and_broken() {
    let mut keyboard = Ps2Keyboard::new();
    let (event, request) = keyboard.read_event(Some(Event::Key { key: A, make: true }));
    let event = event.unwrap();
    assert!(request.is_none());
    assert_eq!(event.kind, KeyEventKind::Make);
    assert_eq!(event.char, Some('a'));
    assert!(keyboard.is_down(A));
    let (event, _) = keyboard.read_event(Some(Event::Key { key: A, make: true }));
    assert_eq!(event.unwrap().kind, KeyEventKind::Repeat);
    assert!(keyboard.is_down(A));
    let (event, _) = keyboard.read_event(Some(Event::Key { key: A, make: true }));
    assert_eq!(event.unwrap().kind, KeyEventKind::Repeat);
    assert!(keyboard.is_down(A));
    let (event, _) = keyboard.read_event(Some(Event::Key { key: A, make: false }));
    assert_eq!(event.unwrap().kind, KeyEventKind::Break);
    assert!(!keyboard.is_down(A));
}

#[test]
fn shift_and_caps_lock_change_characters() {
    let mut keyboard = Ps2Keyboard::new();
    keyboard.read_event(Some(Event::Key { key: LEFT_SHIFT, make: true }));
    let (event, _) = keyboard.read_event(Some(Event::Key { key: A, make: true }));
    assert_eq!(event.unwrap().char, Some('A'));
    keyboard.read_event(Some(Event::Key { key: LEFT_SHIFT, make: false }));
    keyboard.read_event(Some(Event::Key { key: A, make: false }));

    let (_, request) = keyboard.read_event(Some(Event::Key { key: CAPS_LOCK, make: true }));
    assert!(request == Some(KeyboardRequest::SetLeds(LedFlags { bits: LED_CAPS_LOCK })));
    assert!(keyboard.caps_lock());
    let (event, _) = keyboard.read_event(Some(Event::Key { key: A, make: true }));
    assert_eq!(event.unwrap().char, Some('A'));
}

#[test]
fn self_test_asks_for_the_scan_set_again() {
    let mut keyboard = Ps2Keyboard::new();
    let (event, request) = keyboard.read_event(Some(Event::BatSuccess));
    assert!(event.is_none());
    assert!(request == Some(KeyboardRequest::UseScansetTwo));
    let (event, request) = keyboard.read_event(Some(Event::UnexpectedByte(3)));
    assert!(event.is_none() && request.is_none());
    let (event, request) = keyboard.read_event(None);
    assert!(event.is_none() && request.is_none());
}
