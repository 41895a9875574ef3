//! Translating what a platform reports into the key that was pressed.
//!
//! Some platforms have no name for a handful of keys and report a bare number
//! for them. `OPAQUE_CODES` lists those numbers with the keys they stand for,
//! and `canonicalize` applies the list. Every other key passes through as it
//! came, so that no press is ever lost for want of a name.

use vstd::prelude::*;
use crate::key::Key;

verus! {

/// How many numbers `OPAQUE_CODES` translates.
pub const OPAQUE_CODE_COUNT: usize = 14;

/// The numbers that stand for a named key, each with that key.
pub const OPAQUE_CODES: [(u32, Key); 14] = [
    (160, Key::F3),
    (177, Key::F4),
    (176, Key::F5),
    (178, Key::F6),
    (62, Key::ControlRight),
    (114, Key::Insert),
    (115, Key::Home),
    (116, Key::PageUp),
    (117, Key::Delete),
    (119, Key::End),
    (121, Key::PageDown),
    (105, Key::PrintScreen),
    (107, Key::ScrollLock),
    (113, Key::Pause),
];

/// The key of the first entry at or after `start` that translates `code`.
pub open spec fn translation_from(code: u32, start: int) -> Option<Key>
    decreases OPAQUE_CODES@.len() - start,
{
    if start < 0 || start >= OPAQUE_CODES@.len() {
        None
    } else if OPAQUE_CODES@[start].0 == code {
        Some(OPAQUE_CODES@[start].1)
    } else {
        translation_from(code, start + 1)
    }
}

/// The named key that `code` stands for, if `OPAQUE_CODES` lists it.
pub open spec fn translation(code: u32) -> Option<Key> {
    translation_from(code, 0)
}

/// The key under which a press of `raw` is counted.
pub open spec fn canonical(raw: Key) -> Key {
    match raw {
        Key::Unknown(code) => match translation(code) {
            Some(key) => key,
            None => raw,
        },
        _ => raw,
    }
}

/// Whether presses are counted under `key` itself.
pub open spec fn is_canonical(key: Key) -> bool {
    canonical(key) == key
}

/// Looks `code` up in `OPAQUE_CODES`.
pub fn translate(code: u32) -> (target: Option<Key>)
    ensures
        target == translation(code),
{
    let mut i: usize = 0;
    while i < OPAQUE_CODE_COUNT
        invariant
            i <= OPAQUE_CODE_COUNT,
            OPAQUE_CODES@.len() == OPAQUE_CODE_COUNT,
            translation(code) == translation_from(code, i as int),
        decreases OPAQUE_CODE_COUNT - i,
    {
        let entry = OPAQUE_CODES[i];
        if entry.0 == code {
            return Some(entry.1);
        }
        i += 1;
    }
    None
}

/// Returns the key under which a press of `raw` is counted.
///
/// A number that `OPAQUE_CODES` lists becomes the key it stands for. Any
/// other key, named or not, is returned as it came.
pub fn canonicalize(raw: Key) -> (key: Key)
    ensures
        key == canonical(raw),
{
    match raw {
        Key::Unknown(code) => match translate(code) {
            Some(key) => key,
            None => raw,
        },
        _ => raw,
    }
}

/// A translation is the key of some entry that lists the number.
pub proof fn lemma_translation_is_an_entry(code: u32, start: int)
    requires
        0 <= start,
        translation_from(code, start) is Some,
    ensures
        exists|i: int|
            start <= i < OPAQUE_CODES@.len() && #[trigger] OPAQUE_CODES@[i] == (
                code,
                translation_from(code, start)->0,
            ),
    decreases OPAQUE_CODES@.len() - start,
{
    if OPAQUE_CODES@[start].0 == code {
        assert(OPAQUE_CODES@[start] == (code, translation_from(code, start)->0));
    } else {
        lemma_translation_is_an_entry(code, start + 1);
    }
}

/// No number is listed twice, and every listed number stands for a named key.
pub proof fn lemma_table_well_formed()
    ensures
        OPAQUE_CODES@.len() == OPAQUE_CODE_COUNT,
        forall|i: int, j: int|
            0 <= i < j < OPAQUE_CODES@.len() ==> OPAQUE_CODES@[i].0 != OPAQUE_CODES@[j].0,
        forall|i: int| 0 <= i < OPAQUE_CODES@.len() ==> (#[trigger] OPAQUE_CODES@[i]).1.is_named(),
{
}

/// Every number that `OPAQUE_CODES` lists is counted under the key listed
/// beside it.
pub proof fn lemma_listed_code_is_translated(i: int)
    requires
        0 <= i < OPAQUE_CODES@.len(),
    ensures
        translation(OPAQUE_CODES@[i].0) == Some(OPAQUE_CODES@[i].1),
        canonical(Key::Unknown(OPAQUE_CODES@[i].0)) == OPAQUE_CODES@[i].1,
{
    lemma_table_well_formed();
    lemma_first_entry_wins(OPAQUE_CODES@[i].0, 0, i);
}

/// Searching from `start` finds entry `at` when no earlier entry lists the number.
proof fn lemma_first_entry_wins(code: u32, start: int, at: int)
    requires
        0 <= start <= at < OPAQUE_CODES@.len(),
        OPAQUE_CODES@[at].0 == code,
        forall|j: int| start <= j < at ==> OPAQUE_CODES@[j].0 != code,
    ensures
        translation_from(code, start) == Some(OPAQUE_CODES@[at].1),
    decreases at - start,
{
    if start < at {
        lemma_first_entry_wins(code, start + 1, at);
    }
}

/// A number that `OPAQUE_CODES` does not list has no translation.
pub proof fn lemma_unlisted_code_has_no_translation(code: u32, start: int)
    requires
        0 <= start,
        forall|i: int| start <= i < OPAQUE_CODES@.len() ==> OPAQUE_CODES@[i].0 != code,
    ensures
        translation_from(code, start) is None,
    decreases OPAQUE_CODES@.len() - start,
{
    if start < OPAQUE_CODES@.len() {
        lemma_unlisted_code_has_no_translation(code, start + 1);
    }
}

/// A named key is counted under itself.
pub proof fn lemma_named_key_is_canonical(key: Key)
    requires
        key.is_named(),
    ensures
        is_canonical(key),
{
}

/// A number that `OPAQUE_CODES` does not list is counted under itself.
pub proof fn lemma_unlisted_code_is_canonical(code: u32)
    requires
        forall|i: int| 0 <= i < OPAQUE_CODES@.len() ==> OPAQUE_CODES@[i].0 != code,
    ensures
        is_canonical(Key::Unknown(code)),
{
    lemma_unlisted_code_has_no_translation(code, 0);
}

/// Translating twice changes nothing: what `canonical` returns is counted
/// under itself.
pub proof fn lemma_canonical_is_idempotent(raw: Key)
    ensures
        is_canonical(canonical(raw)),
{
    if let Key::Unknown(code) = raw {
        if translation(code) is Some {
            lemma_translation_is_an_entry(code, 0);
            lemma_table_well_formed();
        }
    }
}

} // verus!
