//! Key translator checks: the fixed table into the client's
//! single-byte key-code space.

use uartfileserver::keys::{to_hc800, KeyEvent, NamedKey};

fn ch(code: u32) -> KeyEvent {
    KeyEvent::Character { code }
}

fn named(key: NamedKey) -> KeyEvent {
    KeyEvent::Named { key }
}

#[test]
fn control_characters_map_to_control_codes() {
    assert_eq!(to_hc800(&ch(9)), Some(9)); // tab
    assert_eq!(to_hc800(&ch(10)), Some(10)); // return
    assert_eq!(to_hc800(&ch(27)), Some(27)); // escape
    assert_eq!(to_hc800(&ch(127)), Some(8)); // backspace
}

#[test]
fn printable_characters_pass_through() {
    assert_eq!(to_hc800(&ch(32)), Some(32));
    assert_eq!(to_hc800(&ch(b'A' as u32)), Some(b'A'));
    assert_eq!(to_hc800(&ch(255)), Some(255));
}

#[test]
fn unmapped_characters_give_nothing() {
    assert_eq!(to_hc800(&ch(0)), None);
    assert_eq!(to_hc800(&ch(5)), None);
    assert_eq!(to_hc800(&ch(31)), None);
    assert_eq!(to_hc800(&ch(256)), None);
    assert_eq!(to_hc800(&ch(0x20AC)), None);
}

#[test]
fn named_keys_map_to_their_codes() {
    let table = [
        (NamedKey::Home, 1),
        (NamedKey::Left, 2),
        (NamedKey::Delete, 4),
        (NamedKey::End, 5),
        (NamedKey::Right, 6),
        (NamedKey::Down, 14),
        (NamedKey::Up, 16),
        (NamedKey::F1, 18),
        (NamedKey::F2, 19),
        (NamedKey::F3, 20),
        (NamedKey::F4, 21),
        (NamedKey::F5, 22),
        (NamedKey::F6, 23),
        (NamedKey::F7, 24),
        (NamedKey::F8, 25),
        (NamedKey::F9, 28),
        (NamedKey::F10, 29),
        (NamedKey::F11, 30),
        (NamedKey::F12, 31),
    ];
    for (key, code) in table {
        assert_eq!(to_hc800(&named(key)), Some(code));
    }
}
