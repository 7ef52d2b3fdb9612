use i2c_passthru::keys::{is_shown, lookup_key, named_key_lookup, Key, KeyEvent, KeyReport, KeyState};

fn fresh() -> KeyState {
    KeyState::default()
}

#[test]
fn shift_press_then_char_then_release() {
    let mut s = fresh();
    assert_eq!(s.update([1, 0xA2]), None);
    assert!(s.lshift);
    let r = s.update([1, 0x61]).unwrap();
    assert_eq!(r.evt, KeyEvent::Press(Key::Char('a')));
    assert!(r.shift);
    assert!(!r.ctrl);
    assert!(!r.alt);
    assert_eq!(s.update([3, 0xA2]), None);
    assert!(!s.lshift);
    let r = s.update([3, 0x61]).unwrap();
    assert_eq!(r.evt, KeyEvent::Release(Key::Char('a')));
    assert!(!r.shift);
}

#[test]
fn idle_record_changes_nothing() {
    let mut s = KeyState { ctrl: true, lshift: false, rshift: true, alt: false };
    let before = s;
    assert_eq!(s.update([0, 0]), None);
    assert_eq!(s, before);
}

#[test]
fn dpad_press_hold_and_unknown_kind() {
    let mut s = fresh();
    assert_eq!(s.update([1, 0xB4]).unwrap().evt, KeyEvent::Press(Key::LeftDPad));
    assert_eq!(s.update([2, 0xB4]).unwrap().evt, KeyEvent::Hold(Key::LeftDPad));
    assert_eq!(s.update([4, 0xB4]).unwrap().evt, KeyEvent::Other([4, 0xB4]));
}

#[test]
fn unmapped_code_with_known_kind() {
    let mut s = fresh();
    assert_eq!(s.update([1, 0xFF]).unwrap().evt, KeyEvent::Press(Key::Other(0xFF)));
    assert_eq!(s.update([3, 0xFF]).unwrap().evt, KeyEvent::Release(Key::Other(0xFF)));
}

#[test]
fn unmapped_code_with_unknown_kind() {
    let mut s = fresh();
    assert_eq!(s.update([7, 0xFF]).unwrap().evt, KeyEvent::Other([7, 0xFF]));
    assert_eq!(s.update([0, 0x41]).unwrap().evt, KeyEvent::Other([0, 0x41]));
}

#[test]
fn every_modifier_sets_and_clears() {
    let mut s = fresh();
    assert_eq!(s.update([1, 0xA3]), None);
    assert_eq!(s.update([1, 0xA5]), None);
    assert_eq!(s.update([1, 0xA1]), None);
    assert_eq!(s, KeyState { ctrl: true, lshift: false, rshift: true, alt: true });
    let r = s.update([2, b'z']).unwrap();
    assert_eq!(r, KeyReport { ctrl: true, shift: true, alt: true, evt: KeyEvent::Hold(Key::Char('z')) });
    assert_eq!(s.update([3, 0xA3]), None);
    assert_eq!(s.update([3, 0xA5]), None);
    assert_eq!(s.update([3, 0xA1]), None);
    assert_eq!(s, fresh());
}

#[test]
fn modifier_code_with_hold_kind_is_a_key_event() {
    let mut s = fresh();
    assert_eq!(s.update([2, 0xA2]).unwrap().evt, KeyEvent::Hold(Key::Other(0xA2)));
    assert!(!s.lshift);
}

#[test]
fn printable_bounds() {
    let mut s = fresh();
    assert_eq!(s.update([1, 0x20]).unwrap().evt, KeyEvent::Press(Key::Char(' ')));
    assert_eq!(s.update([1, 0x7E]).unwrap().evt, KeyEvent::Press(Key::Char('~')));
    assert_eq!(s.update([1, 0x7F]).unwrap().evt, KeyEvent::Press(Key::Other(0x7F)));
    assert_eq!(s.update([1, 0x1F]).unwrap().evt, KeyEvent::Press(Key::Other(0x1F)));
}

#[test]
fn named_keys_below_printable_range() {
    assert_eq!(lookup_key(0x09), Key::Tab);
    assert_eq!(lookup_key(0x08), Key::Back);
    assert_eq!(lookup_key(0x0A), Key::Enter);
    assert_eq!(lookup_key(0x90), Key::Func10);
    assert_eq!(named_key_lookup(0xD1), Some(Key::Ins));
    assert_eq!(named_key_lookup(0x41), None);
}

#[test]
fn hold_reports_are_not_shown() {
    let r = KeyReport { ctrl: false, shift: false, alt: false, evt: KeyEvent::Hold(Key::Esc) };
    assert!(!is_shown(&r));
    let r = KeyReport { ctrl: false, shift: false, alt: false, evt: KeyEvent::Press(Key::Esc) };
    assert!(is_shown(&r));
}
