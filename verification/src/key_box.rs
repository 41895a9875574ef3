//! What is written on a key.

use vstd::prelude::*;

verus! {

/// How the legend of a key is laid out on its cap.
#[derive(Debug)]
pub enum KeyTextsLayout {
    /// Two legends, the first above the second.
    TopBottom((String, String)),
    /// One legend in the middle.
    Center1(String),
}

impl KeyTextsLayout {
    /// The legends of the key, from top to bottom.
    pub open spec fn texts(self) -> Seq<Seq<char>> {
        match self {
            KeyTextsLayout::TopBottom(pair) => seq![pair.0@, pair.1@],
            KeyTextsLayout::Center1(text) => seq![text@],
        }
    }
}

impl Clone for KeyTextsLayout {
    /// Returns a layout of the same shape with the same legends.
    fn clone(&self) -> (copy: Self)
        ensures
            copy is TopBottom <==> self is TopBottom,
            copy.texts() == self.texts(),
    {
        match self {
            KeyTextsLayout::TopBottom(pair) => KeyTextsLayout::TopBottom(
                (pair.0.clone(), pair.1.clone()),
            ),
            KeyTextsLayout::Center1(text) => KeyTextsLayout::Center1(text.clone()),
        }
    }
}

} // verus!
