//! Keystroke decoder: turns two-byte keypad scan records into key events,
//! tracking the modifier keys across records.

use vstd::prelude::*;

verus! {

/// A key of the keypad.
#[derive(Debug, Clone, Copy, PartialEq, Eq)]
pub enum Key {
    Char(char),
    LeftDPad,
    UpDPad,
    DownDPad,
    RightDPad,
    Func1,
    Func2,
    Func3,
    Func4,
    Func5,
    Func6,
    Func7,
    Func8,
    Func9,
    Func10,
    Esc,
    Tab,
    CapsLk,
    Del,
    Back,
    Brk,
    Home,
    End,
    Enter,
    Ins,
    /// A code that is neither printable nor in the named-key table.
    Other(u8),
}

/// What one scan record reports about a key.
#[derive(Debug, Clone, Copy, PartialEq, Eq)]
pub enum KeyEvent {
    Press(Key),
    Release(Key),
    Hold(Key),
    /// A record whose event kind is not recognized, with its raw bytes.
    Other([u8; 2]),
}

/// A key event together with the modifiers held when it was produced.
#[derive(Debug, Clone, Copy, PartialEq, Eq)]
pub struct KeyReport {
    pub ctrl: bool,
    pub shift: bool,
    pub alt: bool,
    pub evt: KeyEvent,
}

/// The modifier keys currently held down.
#[derive(Debug, Clone, Copy, PartialEq, Eq)]
pub struct KeyState {
    pub ctrl: bool,
    pub lshift: bool,
    pub rshift: bool,
    pub alt: bool,
}

/// The keypad controller's I2C address.
pub const KEYPAD_ADDR: u8 = 0x1F;

/// The byte written to the keypad controller to select its key report,
/// before each two-byte read of a scan record.
pub const SELECT_REPORT: u8 = 0x09;

/// A printable, non-control ASCII byte.
pub open spec fn is_printable(b: u8) -> bool {
    0x20 <= b < 0x7f
}

/// The named-key table.
pub open spec fn named_key(code: u8) -> Option<Key> {
    match code {
        0xB4 => Some(Key::LeftDPad),
        0xB5 => Some(Key::UpDPad),
        0xB6 => Some(Key::DownDPad),
        0xB7 => Some(Key::RightDPad),
        0x81 => Some(Key::Func1),
        0x82 => Some(Key::Func2),
        0x83 => Some(Key::Func3),
        0x84 => Some(Key::Func4),
        0x85 => Some(Key::Func5),
        0x86 => Some(Key::Func6),
        0x87 => Some(Key::Func7),
        0x88 => Some(Key::Func8),
        0x89 => Some(Key::Func9),
        0x90 => Some(Key::Func10),
        0xB1 => Some(Key::Esc),
        0x09 => Some(Key::Tab),
        0xC1 => Some(Key::CapsLk),
        0xD4 => Some(Key::Del),
        0x08 => Some(Key::Back),
        0xD0 => Some(Key::Brk),
        0xD2 => Some(Key::Home),
        0xD5 => Some(Key::End),
        0x0A => Some(Key::Enter),
        0xD1 => Some(Key::Ins),
        _ => None,
    }
}

/// The key that a code names, for a recognized event kind.
pub open spec fn key_of(code: u8) -> Key {
    if is_printable(code) {
        Key::Char(code as char)
    } else {
        match named_key(code) {
            Some(k) => k,
            None => Key::Other(code),
        }
    }
}

/// The event that a non-modifier record reports.
pub open spec fn event_of(data: [u8; 2]) -> KeyEvent {
    let kind = data[0];
    let code = data[1];
    if kind == 1 {
        KeyEvent::Press(key_of(code))
    } else if kind == 2 {
        KeyEvent::Hold(key_of(code))
    } else if kind == 3 {
        KeyEvent::Release(key_of(code))
    } else {
        KeyEvent::Other(data)
    }
}

/// Whether a record is the press (kind 1) or release (kind 3) of a modifier key.
pub open spec fn is_modifier_record(kind: u8, code: u8) -> bool {
    (kind == 1 || kind == 3) && (code == 0xA2 || code == 0xA3 || code == 0xA5 || code == 0xA1)
}

/// The modifiers after a modifier record: a press sets, a release clears.
pub open spec fn apply_modifier(s: KeyState, kind: u8, code: u8) -> KeyState {
    let down = kind == 1;
    if code == 0xA2 {
        KeyState { lshift: down, ..s }
    } else if code == 0xA3 {
        KeyState { rshift: down, ..s }
    } else if code == 0xA5 {
        KeyState { ctrl: down, ..s }
    } else {
        KeyState { alt: down, ..s }
    }
}

impl KeyState {
    /// The state in which no modifier is held.
    pub open spec fn released() -> KeyState {
        KeyState { ctrl: false, lshift: false, rshift: false, alt: false }
    }

    /// The report of an event under these modifiers.
    pub open spec fn report_spec(self, evt: KeyEvent) -> KeyReport {
        KeyReport { ctrl: self.ctrl, shift: self.lshift || self.rshift, alt: self.alt, evt }
    }

    /// The state after a scan record.
    pub open spec fn next(self, data: [u8; 2]) -> KeyState {
        let kind = data[0];
        let code = data[1];
        if is_modifier_record(kind, code) {
            apply_modifier(self, kind, code)
        } else {
            self
        }
    }

    /// The report that a scan record produces, if any.
    pub open spec fn output(self, data: [u8; 2]) -> Option<KeyReport> {
        let kind = data[0];
        let code = data[1];
        if kind == 0 && code == 0 {
            None
        } else if is_modifier_record(kind, code) {
            None
        } else {
            Some(self.report_spec(event_of(data)))
        }
    }

    pub fn report(&self, evt: KeyEvent) -> (r: KeyReport)
        ensures
            r == self.report_spec(evt),
    {
        KeyReport { ctrl: self.ctrl, shift: self.lshift || self.rshift, alt: self.alt, evt }
    }

    /// Feeds one scan record `[kind, code]` to the decoder. A modifier
    /// record updates the modifiers and yields nothing; `[0, 0]` yields
    /// nothing; any other record yields one report.
    pub fn update(&mut self, data: [u8; 2]) -> (r: Option<KeyReport>)
        ensures
            *final(self) == old(self).next(data),
            r == old(self).output(data),
    {
        let kind = data[0];
        let code = data[1];
        if kind == 0 && code == 0 {
            return None;
        }
        if kind == 1 || kind == 3 {
            let down = kind == 1;
            if code == 0xA2 {
                self.lshift = down;
                return None;
            } else if code == 0xA3 {
                self.rshift = down;
                return None;
            } else if code == 0xA5 {
                self.ctrl = down;
                return None;
            } else if code == 0xA1 {
                self.alt = down;
                return None;
            }
        }
        let evt = if kind == 1 {
            KeyEvent::Press(lookup_key(code))
        } else if kind == 2 {
            KeyEvent::Hold(lookup_key(code))
        } else if kind == 3 {
            KeyEvent::Release(lookup_key(code))
        } else {
            KeyEvent::Other(data)
        };
        Some(self.report(evt))
    }
}

impl Default for KeyState {
    fn default() -> (r: KeyState)
        ensures
            r == KeyState::released(),
    {
        KeyState { ctrl: false, lshift: false, rshift: false, alt: false }
    }
}

/// Whether a report is shown to the user: every one but a hold.
pub fn is_shown(r: &KeyReport) -> (b: bool)
    ensures
        b == !(r.evt is Hold),
{
    match r.evt {
        KeyEvent::Hold(_) => false,
        _ => true,
    }
}

/// Looks a code up in the named-key table.
pub fn named_key_lookup(code: u8) -> (r: Option<Key>)
    ensures
        r == named_key(code),
{
    match code {
        0xB4 => Some(Key::LeftDPad),
        0xB5 => Some(Key::UpDPad),
        0xB6 => Some(Key::DownDPad),
        0xB7 => Some(Key::RightDPad),
        0x81 => Some(Key::Func1),
        0x82 => Some(Key::Func2),
        0x83 => Some(Key::Func3),
        0x84 => Some(Key::Func4),
        0x85 => Some(Key::Func5),
        0x86 => Some(Key::Func6),
        0x87 => Some(Key::Func7),
        0x88 => Some(Key::Func8),
        0x89 => Some(Key::Func9),
        0x90 => Some(Key::Func10),
        0xB1 => Some(Key::Esc),
        0x09 => Some(Key::Tab),
        0xC1 => Some(Key::CapsLk),
        0xD4 => Some(Key::Del),
        0x08 => Some(Key::Back),
        0xD0 => Some(Key::Brk),
        0xD2 => Some(Key::Home),
        0xD5 => Some(Key::End),
        0x0A => Some(Key::Enter),
        0xD1 => Some(Key::Ins),
        _ => None,
    }
}

/// The key that a code names: its character when printable, else its
/// named key, else the raw code.
pub fn lookup_key(code: u8) -> (r: Key)
    ensures
        r == key_of(code),
{
    if 0x20 <= code && code < 0x7f {
        Key::Char(code as char)
    } else {
        match named_key_lookup(code) {
            Some(k) => k,
            None => Key::Other(code),
        }
    }
}

} // verus!
