//! The keyboard layout.

use crate::events::Keystroke;
use vstd::prelude::*;

verus! {

/// The keyboard layout. The system translates key presses before they arrive,
/// so there is no layout to look anything up in.
#[derive(Clone, Copy, Debug, Default, PartialEq, Eq)]
pub struct IosKeyboardLayout;

impl IosKeyboardLayout {
    /// The name of the layout.
    pub fn current_layout(&self) -> (name: &'static str)
        ensures
            name@ == "com.apple.keylayout.US"@,
    {
        "com.apple.keylayout.US"
    }

    /// The keystroke that types a shortcut: none is known.
    pub fn keystroke_for_key_equivalent(&self, _equiv: &str) -> (keystroke: Option<Keystroke>)
        ensures
            keystroke is None,
    {
        None
    }
}

} // verus!
