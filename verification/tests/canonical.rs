use keyboard_heatmap::canonical::{canonicalize, translate, OPAQUE_CODES, OPAQUE_CODE_COUNT};
use keyboard_heatmap::key::{Key, NAMED_KEYS};

/// The numbers that stand for a named key, written out once more.
fn documented() -> Vec<(u32, Key)> {
    vec![
        (160, Key::F3),
        (177, Key::F4),
        (176, Key::F5),
        (178, Key::F6),
        (62, Key::ControlRight),
        (114, Key::Insert),
        (115, Key::Home),
        (116, Key::PageUp),
        (117, Key::Delete),
        (119, Key::End),
        (121, Key::PageDown),
        (105, Key::PrintScreen),
        (107, Key::ScrollLock),
        (113, Key::Pause),
    ]
}

fn some_named_keys() -> Vec<Key> {
    vec![
        Key::Alt,
        Key::AltGr,
        Key::Backspace,
        Key::CapsLock,
        Key::ControlLeft,
        Key::ControlRight,
        Key::Escape,
        Key::F1,
        Key::F3,
        Key::F12,
        Key::MetaLeft,
        Key::Return,
        Key::ShiftLeft,
        Key::ShiftRight,
        Key::Space,
        Key::Tab,
        Key::Num0,
        Key::KeyA,
        Key::KeyZ,
        Key::IntlBackslash,
        Key::Kp0,
        Key::KpDelete,
        Key::Function,
    ]
}

#[test]
fn every_listed_code_becomes_its_key() {
    for (code, key) in documented() {
        assert_eq!(canonicalize(Key::Unknown(code)), key);
        assert_eq!(translate(code), Some(key));
    }
}

#[test]
fn the_table_is_the_documented_one() {
    assert_eq!(OPAQUE_CODE_COUNT, 14);
    assert_eq!(OPAQUE_CODES.len(), OPAQUE_CODE_COUNT);
    assert_eq!(OPAQUE_CODES.to_vec(), documented());
}

#[test]
fn no_code_is_listed_twice() {
    for (i, first) in OPAQUE_CODES.iter().enumerate() {
        for second in OPAQUE_CODES.iter().skip(i + 1) {
            assert_ne!(first.0, second.0);
        }
    }
}

#[test]
fn canonicalizing_is_deterministic() {
    for code in 0..400u32 {
        assert_eq!(canonicalize(Key::Unknown(code)), canonicalize(Key::Unknown(code)));
    }
}

#[test]
fn named_keys_pass_through() {
    for key in some_named_keys() {
        assert_eq!(canonicalize(key), key);
    }
}

#[test]
fn unlisted_codes_pass_through() {
    for code in [0u32, 1, 61, 63, 104, 106, 110, 112, 118, 120, 159, 161, 175, 179, 1000, u32::MAX] {
        assert_eq!(canonicalize(Key::Unknown(code)), Key::Unknown(code));
        assert_eq!(translate(code), None);
    }
}

#[test]
fn only_listed_codes_change() {
    let listed: Vec<u32> = documented().iter().map(|entry| entry.0).collect();
    for code in 0..400u32 {
        let changed = canonicalize(Key::Unknown(code)) != Key::Unknown(code);
        assert_eq!(changed, listed.contains(&code));
    }
}

#[test]
fn canonicalizing_twice_changes_nothing() {
    for code in 0..400u32 {
        let once = canonicalize(Key::Unknown(code));
        assert_eq!(canonicalize(once), once);
    }
    for key in some_named_keys() {
        assert_eq!(canonicalize(canonicalize(key)), canonicalize(key));
    }
}

#[test]
fn named_keys_take_the_low_slots() {
    assert_eq!(NAMED_KEYS, 105);
    assert_eq!(Key::Alt.slot(), 0);
    assert_eq!(Key::AltGr.slot(), 1);
    assert_eq!(Key::F3.slot(), 15);
    assert_eq!(Key::Space.slot(), 32);
    assert_eq!(Key::KeyA.slot(), 64);
    assert_eq!(Key::Function.slot(), 104);
    for key in some_named_keys() {
        assert!(key.slot() < NAMED_KEYS);
    }
}

#[test]
fn unknown_keys_take_the_slots_above() {
    assert_eq!(Key::Unknown(0).slot(), 105);
    assert_eq!(Key::Unknown(160).slot(), 265);
    assert_eq!(Key::Unknown(u32::MAX).slot(), 105 + 4_294_967_295);
}

#[test]
fn no_two_keys_share_a_slot() {
    let mut keys = some_named_keys();
    for code in [0u32, 1, 104, 105, 160, u32::MAX] {
        keys.push(Key::Unknown(code));
    }
    for (i, first) in keys.iter().enumerate() {
        for second in keys.iter().skip(i + 1) {
            assert_ne!(first.slot(), second.slot());
        }
    }
}

#[test]
fn keys_serve_as_map_keys() {
    let mut seen = std::collections::HashMap::new();
    for key in [Key::KeyA, Key::Unknown(160), Key::KeyA, Key::F3, Key::Unknown(160), Key::KeyA] {
        *seen.entry(key).or_insert(0u32) += 1;
    }
    assert_eq!(seen.len(), 3);
    assert_eq!(seen[&Key::KeyA], 3);
    assert_eq!(seen[&Key::Unknown(160)], 2);
    assert_eq!(seen[&Key::F3], 1);
    assert!(Key::Unknown(1) != Key::Unknown(2));
    assert!(Key::Unknown(1) == Key::Unknown(1));
}
