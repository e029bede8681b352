//! The terminal key translator: a captured terminal input event,
//! either a plain character or a named key, mapped into the client
//! device's single-byte key-code space.
//!
//! Named keys and a few control characters land on codes 1 to 31;
//! printable characters in the 32 to 255 range pass through unchanged.
//! The map is deliberately partial: an event with no code in the
//! client's space yields nothing, and the caller answers "not
//! available" instead of failing.

use vstd::prelude::*;

verus! {

/// A key that arrives as a name rather than as a character.
#[derive(Debug, PartialEq, Eq, Clone, Copy)]
pub enum NamedKey {
    Home,
    Left,
    Delete,
    End,
    Right,
    Down,
    Up,
    F1,
    F2,
    F3,
    F4,
    F5,
    F6,
    F7,
    F8,
    F9,
    F10,
    F11,
    F12,
}

/// One captured terminal input event.
#[derive(Debug, PartialEq, Eq, Clone, Copy)]
pub enum KeyEvent {
    /// A character, given by its code point.
    Character { code: u32 },
    /// A named key.
    Named { key: NamedKey },
}

/// The client's code for each named key.
pub open spec fn spec_named_code(key: NamedKey) -> u8 {
    match key {
        NamedKey::Home => 1,
        NamedKey::Left => 2,
        NamedKey::Delete => 4,
        NamedKey::End => 5,
        NamedKey::Right => 6,
        NamedKey::Down => 14,
        NamedKey::Up => 16,
        NamedKey::F1 => 18,
        NamedKey::F2 => 19,
        NamedKey::F3 => 20,
        NamedKey::F4 => 21,
        NamedKey::F5 => 22,
        NamedKey::F6 => 23,
        NamedKey::F7 => 24,
        NamedKey::F8 => 25,
        NamedKey::F9 => 28,
        NamedKey::F10 => 29,
        NamedKey::F11 => 30,
        NamedKey::F12 => 31,
    }
}

/// The client's code for a captured event, if it has one: tab, return,
/// escape and backspace map to their control codes, characters 32 to
/// 255 pass through, named keys take `spec_named_code`, and everything
/// else has no code.
pub open spec fn spec_to_hc800(event: KeyEvent) -> Option<u8> {
    match event {
        KeyEvent::Character { code } => if code == 9 {
            Some(9u8)
        } else if code == 10 {
            Some(10u8)
        } else if code == 27 {
            Some(27u8)
        } else if code == 127 {
            Some(8u8)
        } else if 32 <= code && code <= 255 {
            Some(code as u8)
        } else {
            None
        },
        KeyEvent::Named { key } => Some(spec_named_code(key)),
    }
}

/// Translates a captured terminal event into the client's single-byte
/// key-code space, or nothing when the event has no code there.
pub fn to_hc800(event: &KeyEvent) -> (r: Option<u8>)
    ensures
        r == spec_to_hc800(*event),
{
    match event {
        KeyEvent::Character { code } => {
            if *code == 9 {
                Some(9)
            } else if *code == 10 {
                Some(10)
            } else if *code == 27 {
                Some(27)
            } else if *code == 127 {
                Some(8)
            } else if 32 <= *code && *code <= 255 {
                #[verifier::truncate]
                let b: u8 = *code as u8;
                Some(b)
            } else {
                None
            }
        },
        KeyEvent::Named { key } => Some(
            match key {
                NamedKey::Home => 1,
                NamedKey::Left => 2,
                NamedKey::Delete => 4,
                NamedKey::End => 5,
                NamedKey::Right => 6,
                NamedKey::Down => 14,
                NamedKey::Up => 16,
                NamedKey::F1 => 18,
                NamedKey::F2 => 19,
                NamedKey::F3 => 20,
                NamedKey::F4 => 21,
                NamedKey::F5 => 22,
                NamedKey::F6 => 23,
                NamedKey::F7 => 24,
                NamedKey::F8 => 25,
                NamedKey::F9 => 28,
                NamedKey::F10 => 29,
                NamedKey::F11 => 30,
                NamedKey::F12 => 31,
            },
        ),
    }
}

} // verus!
