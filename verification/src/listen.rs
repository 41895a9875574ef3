//! The capture side: which of the platform's events reach the aggregator.
//!
//! The platform's listener reports every event as it happens. Only the press
//! of a key is counted. It is translated at once and handed to the consumer
//! through a channel that holds `TRANSPORT_CAPACITY` presses: when the
//! consumer is behind, the listener waits instead of dropping a press.

use vstd::prelude::*;
use crate::canonical::{canonical, canonicalize};
use crate::key::Key;

verus! {

/// How many presses may wait between the listener and the consumer.
pub const TRANSPORT_CAPACITY: usize = 1;

/// An event as the platform's listener reports it.
#[derive(Clone, Copy, Debug, PartialEq, Eq, Structural)]
pub enum RawEvent {
    /// A key went down.
    KeyPress(Key),
    /// A key came up.
    KeyRelease(Key),
    /// Anything else: a mouse button, a pointer move, the wheel.
    Other,
}

/// The key that `event` sends to the aggregator, if it sends one.
pub open spec fn forwarded(event: RawEvent) -> Option<Key> {
    match event {
        RawEvent::KeyPress(key) => Some(canonical(key)),
        _ => None,
    }
}

/// Decides what the listener hands on for `event`: the key to count for a
/// press, nothing for any other event.
pub fn forward(event: RawEvent) -> (key: Option<Key>)
    ensures
        key == forwarded(event),
{
    match event {
        RawEvent::KeyPress(key) => Some(canonicalize(key)),
        _ => None,
    }
}

} // verus!
