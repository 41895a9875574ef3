//! The aggregator: the one owner of the frequency table and the session
//! timer.

use vstd::prelude::*;
use crate::canonical::canonical;
use crate::clock::now_millis;
use crate::key::Key;
use crate::press_time_map::PressTimesMap;
use crate::session::Session;

verus! {

/// Counts key presses and remembers when counting began.
///
/// Whoever holds the aggregator exclusively may record a press or reset it;
/// whoever holds it at all may read a count. Shared between a consumer and a
/// reader, it belongs behind one lock.
pub struct Aggregator {
    /// How often each key has been pressed in this session.
    table: PressTimesMap,
    /// When this session began, in milliseconds since the Unix epoch.
    started: i64,
}

impl View for Aggregator {
    type V = Session;

    closed spec fn view(&self) -> Session {
        Session { pressed: self.table@, started: self.started }
    }
}

impl Aggregator {
    /// Creates an aggregator whose session begins at `now`, with every count
    /// at zero.
    pub fn starting_at(now: i64) -> (aggregator: Self)
        ensures
            aggregator@ == Session::fresh(now),
            forall|key: Key| aggregator@.count_of(key) == 0,
    {
        Aggregator { table: PressTimesMap::new(), started: now }
    }

    /// Creates an aggregator whose session begins at the time the clock
    /// shows, with every count at zero.
    pub fn new() -> (aggregator: Self)
        ensures
            aggregator@ == Session::fresh(aggregator@.started),
            forall|key: Key| aggregator@.count_of(key) == 0,
    {
        Aggregator::starting_at(now_millis())
    }

    /// Counts one press of `key`, under the key that `key` stands for.
    ///
    /// No other count changes, and the session goes on. A count that has
    /// reached `u32::MAX` cannot grow.
    pub fn record(&mut self, key: Key)
        requires
            old(self)@.count_of(canonical(key)) < u32::MAX,
        ensures
            final(self)@ == old(self)@.record(key),
            final(self)@.count_of(canonical(key)) == old(self)@.count_of(canonical(key)) + 1,
            forall|other: Key|
                other != canonical(key) ==> final(self)@.count_of(other) == old(self)@.count_of(
                    other,
                ),
            final(self)@.started == old(self)@.started,
    {
        self.table.key_press(key);
    }

    /// Returns how often `key` has been counted in this session: zero for a
    /// key that was never pressed.
    pub fn count_of(&self, key: Key) -> (times: u32)
        ensures
            times == self@.count_of(key),
    {
        self.table.get_key_times(key)
    }

    /// Returns when this session began, in milliseconds since the Unix
    /// epoch.
    pub fn session_start_time(&self) -> (started: i64)
        ensures
            started == self@.started,
    {
        self.started
    }

    /// Starts a new session at `now`: every count returns to zero.
    pub fn reset_at(&mut self, now: i64)
        ensures
            final(self)@ == old(self)@.reset(now),
            forall|key: Key| final(self)@.count_of(key) == 0,
            final(self)@.started == now,
    {
        self.table.clear();
        self.started = now;
    }

    /// Starts a new session at the time the clock shows: every count returns
    /// to zero.
    pub fn reset(&mut self)
        ensures
            final(self)@ == old(self)@.reset(final(self)@.started),
            forall|key: Key| final(self)@.count_of(key) == 0,
    {
        self.reset_at(now_millis());
    }
}

} // verus!
