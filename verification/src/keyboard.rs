//! The keyboard layouts a heat map can be drawn on.

use vstd::prelude::*;

verus! {

/// A physical keyboard layout.
#[derive(Clone, Copy, Debug, PartialEq, Eq, Structural)]
pub enum KeyboardType {
    /// The compact layout of a MacBook.
    QwertyMac,
    /// A tenkeyless board with 87 keys.
    Qwerty87,
}

impl KeyboardType {
    /// The name under which a layout is offered to the user.
    pub open spec fn spec_description(self) -> Seq<char> {
        match self {
            KeyboardType::QwertyMac => "MacBook"@,
            KeyboardType::Qwerty87 => "87 Keys"@,
        }
    }

    /// Returns the name under which this layout is offered to the user.
    pub fn description(&self) -> (name: &'static str)
        ensures
            name@ == self.spec_description(),
    {
        match self {
            KeyboardType::QwertyMac => "MacBook",
            KeyboardType::Qwerty87 => "87 Keys",
        }
    }
}

} // verus!
