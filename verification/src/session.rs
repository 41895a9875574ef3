//! A counting session as a value, and what holds of it.
//!
//! A session is the multiset of the keys pressed since it began, with the
//! time at which it began. The aggregator's operations are stated over this
//! value, and the laws below are proved of it.

use vstd::multiset::Multiset;
use vstd::prelude::*;
use crate::canonical::{canonical, lemma_canonical_is_idempotent};
use crate::key::Key;

verus! {

/// The presses counted since a moment in time.
pub struct Session {
    /// The keys pressed, each as often as it was pressed.
    pub pressed: Multiset<Key>,
    /// When counting began, in milliseconds since the Unix epoch.
    pub started: i64,
}

impl Session {
    /// The session that begins at `now`, with nothing pressed yet.
    pub open spec fn fresh(now: i64) -> Session {
        Session { pressed: Multiset::empty(), started: now }
    }

    /// How often `key` has been counted.
    pub open spec fn count_of(self, key: Key) -> nat {
        self.pressed.count(key)
    }

    /// The session after one press of `key`.
    pub open spec fn record(self, key: Key) -> Session {
        Session { pressed: self.pressed.insert(canonical(key)), started: self.started }
    }

    /// The session after the presses of `keys`, in their order.
    pub open spec fn record_all(self, keys: Seq<Key>) -> Session
        decreases keys.len(),
    {
        if keys.len() == 0 {
            self
        } else {
            self.record_all(keys.drop_last()).record(keys.last())
        }
    }

    /// The session that replaces this one when counting starts over at `now`.
    pub open spec fn reset(self, now: i64) -> Session {
        Session::fresh(now)
    }
}

/// How many of the presses of `keys` are counted under `key`.
pub open spec fn presses_of(keys: Seq<Key>, key: Key) -> nat {
    keys.filter(|pressed: Key| canonical(pressed) == key).len()
}

/// In a fresh session every count is zero.
pub proof fn lemma_fresh_session_counts_nothing(now: i64, key: Key)
    ensures
        Session::fresh(now).count_of(key) == 0,
        Session::fresh(now).started == now,
{
}

/// A press adds exactly one to the count of the key it is counted under, and
/// leaves every other count and the start of the session as they were.
pub proof fn lemma_record_adds_one(session: Session, pressed: Key, key: Key)
    ensures
        session.record(pressed).count_of(key) == session.count_of(key) + if canonical(pressed)
            == key {
            1nat
        } else {
            0nat
        },
        session.record(pressed).started == session.started,
{
}

/// A press of a key counted under itself adds one to that key's own count.
pub proof fn lemma_record_canonical_key(session: Session, raw: Key)
    ensures
        session.record(canonical(raw)) == session.record(raw),
        session.record(raw).count_of(canonical(raw)) == session.count_of(canonical(raw)) + 1,
{
    lemma_canonical_is_idempotent(raw);
}

/// Presses do not move the start of the session.
pub proof fn lemma_presses_keep_start(session: Session, keys: Seq<Key>)
    ensures
        session.record_all(keys).started == session.started,
    decreases keys.len(),
{
    if keys.len() > 0 {
        lemma_presses_keep_start(session, keys.drop_last());
    }
}

/// After any presses, in any order, the count of a key has grown by the
/// number of presses counted under it: presses of other keys neither add to
/// it nor take from it.
pub proof fn lemma_count_after_presses(session: Session, keys: Seq<Key>, key: Key)
    ensures
        session.record_all(keys).count_of(key) == session.count_of(key) + presses_of(keys, key),
    decreases keys.len(),
{
    let counted = |pressed: Key| canonical(pressed) == key;
    if keys.len() == 0 {
        assert(keys.filter(counted).len() == 0) by {
            keys.lemma_filter_len(counted);
        }
    } else {
        lemma_count_after_presses(session, keys.drop_last(), key);
        assert(keys.drop_last().push(keys.last()) =~= keys);
        keys.drop_last().lemma_filter_len_push(counted, keys.last());
    }
}

/// A key pressed `n` times since the session began has a count of `n`,
/// whatever other keys were pressed in between.
pub proof fn lemma_count_in_fresh_session(now: i64, keys: Seq<Key>, key: Key)
    ensures
        Session::fresh(now).record_all(keys).count_of(key) == presses_of(keys, key),
{
    lemma_count_after_presses(Session::fresh(now), keys, key);
}

/// A count never shrinks while keys are pressed.
pub proof fn lemma_counts_never_decrease(session: Session, keys: Seq<Key>, key: Key)
    ensures
        session.record_all(keys).count_of(key) >= session.count_of(key),
{
    lemma_count_after_presses(session, keys, key);
}

/// A key under which none of the presses is counted keeps its count.
pub proof fn lemma_unpressed_key_keeps_count(session: Session, keys: Seq<Key>, key: Key)
    requires
        forall|i: int| 0 <= i < keys.len() ==> canonical(#[trigger] keys[i]) != key,
    ensures
        session.record_all(keys).count_of(key) == session.count_of(key),
    decreases keys.len(),
{
    if keys.len() > 0 {
        lemma_unpressed_key_keeps_count(session, keys.drop_last(), key);
    }
}

/// A key that was never pressed since the session began has a count of zero.
pub proof fn lemma_never_pressed_key_counts_zero(now: i64, keys: Seq<Key>, key: Key)
    requires
        forall|i: int| 0 <= i < keys.len() ==> canonical(#[trigger] keys[i]) != key,
    ensures
        Session::fresh(now).record_all(keys).count_of(key) == 0,
{
    lemma_unpressed_key_keeps_count(Session::fresh(now), keys, key);
}

/// When every one of the presses is counted under `key`, each of them shows
/// in its count.
pub proof fn lemma_every_press_counts(session: Session, keys: Seq<Key>, key: Key)
    requires
        forall|i: int| 0 <= i < keys.len() ==> canonical(#[trigger] keys[i]) == key,
    ensures
        session.record_all(keys).count_of(key) == session.count_of(key) + keys.len(),
    decreases keys.len(),
{
    if keys.len() > 0 {
        lemma_every_press_counts(session, keys.drop_last(), key);
    }
}

/// No press is lost: when `producers` sources press the same key `each` times
/// and the presses are recorded one after another, in whatever order they
/// arrive, the key's count grows by `producers * each`.
pub proof fn lemma_no_lost_updates(
    session: Session,
    keys: Seq<Key>,
    key: Key,
    producers: nat,
    each: nat,
)
    requires
        keys.len() == producers * each,
        forall|i: int| 0 <= i < keys.len() ==> canonical(#[trigger] keys[i]) == key,
    ensures
        session.record_all(keys).count_of(key) == session.count_of(key) + producers * each,
{
    lemma_every_press_counts(session, keys, key);
}

/// The order of the presses does not matter: two runs of presses that press
/// every key equally often lead to the same session.
pub proof fn lemma_order_is_irrelevant(session: Session, keys: Seq<Key>, others: Seq<Key>)
    requires
        forall|key: Key| presses_of(keys, key) == presses_of(others, key),
    ensures
        session.record_all(keys) == session.record_all(others),
{
    assert forall|key: Key|
        session.record_all(keys).pressed.count(key) == session.record_all(others).pressed.count(
            key,
        ) by {
        lemma_count_after_presses(session, keys, key);
        lemma_count_after_presses(session, others, key);
    }
    lemma_presses_keep_start(session, keys);
    lemma_presses_keep_start(session, others);
    assert(session.record_all(keys).pressed =~= session.record_all(others).pressed);
}

/// Right after a reset every count is zero, and the session starts at the
/// time of the reset.
pub proof fn lemma_reset_counts_nothing(session: Session, now: i64, key: Key)
    ensures
        session.reset(now).count_of(key) == 0,
        session.reset(now).started == now,
{
}

/// A second reset right after a first leaves every count at zero and moves
/// the start of the session to the time of the second.
pub proof fn lemma_reset_twice(session: Session, first: i64, second: i64, key: Key)
    ensures
        session.reset(first).reset(second) == session.reset(second),
        session.reset(first).reset(second).count_of(key) == 0,
        session.reset(first).reset(second).started == second,
{
}

} // verus!
