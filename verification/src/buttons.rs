//! The buttons that are held down, kept in bevy's `ButtonInput`.
//!
//! Keys and mouse buttons are stored by their codes. Verus does not look
//! inside a `ButtonInput`: what it holds is named here, and the functions at
//! the end of this file say what bevy's methods do to it. Those statements
//! are taken from bevy's source and are not proved.

use bevy::input::ButtonInput;
use std::hash::Hash;
use vstd::prelude::*;

verus! {

/// bevy's `ButtonInput`, declared so that it can be passed around.
#[verifier::external_type_specification]
#[verifier::external_body]
#[verifier::reject_recursive_types(T)]
pub struct ExButtonInput<T: Copy + Eq + Hash + Send + Sync + 'static>(ButtonInput<T>);

/// The codes in the pressed set of `input`: what `ButtonInput::get_pressed`
/// walks.
pub uninterp spec fn pressed_codes(input: ButtonInput<u16>) -> Set<u16>;

/// The codes in the just-pressed set of `input`: what
/// `ButtonInput::get_just_pressed` walks.
pub uninterp spec fn just_pressed_codes(input: ButtonInput<u16>) -> Set<u16>;

/// The codes in the just-released set of `input`: what
/// `ButtonInput::get_just_released` walks.
pub uninterp spec fn just_released_codes(input: ButtonInput<u16>) -> Set<u16>;

/// The three sets of codes that make up the state of a `ButtonInput`.
pub struct Buttons {
    /// The buttons that are down.
    pub pressed: Set<u16>,
    /// The buttons that went down since the last clear.
    pub just_pressed: Set<u16>,
    /// The buttons that came up since the last clear.
    pub just_released: Set<u16>,
}

impl Buttons {
    /// No button is down and none has changed.
    pub open spec fn empty() -> Buttons {
        Buttons { pressed: Set::empty(), just_pressed: Set::empty(), just_released: Set::empty() }
    }

    /// The state after `code` is pressed: a button that was up goes down and
    /// counts as just pressed; one that is down already changes nothing.
    pub open spec fn press(self, code: u16) -> Buttons {
        if self.pressed.contains(code) {
            self
        } else {
            Buttons {
                pressed: self.pressed.insert(code),
                just_pressed: self.just_pressed.insert(code),
                just_released: self.just_released,
            }
        }
    }

    /// The state after `code` is released: a button that was down comes up
    /// and counts as just released; one that is up already changes nothing.
    pub open spec fn release(self, code: u16) -> Buttons {
        if self.pressed.contains(code) {
            Buttons {
                pressed: self.pressed.remove(code),
                just_pressed: self.just_pressed,
                just_released: self.just_released.insert(code),
            }
        } else {
            self
        }
    }

    /// The state at the start of a frame: the same buttons are down, and
    /// none counts as just pressed or just released.
    pub open spec fn clear(self) -> Buttons {
        Buttons {
            pressed: self.pressed,
            just_pressed: Set::empty(),
            just_released: Set::empty(),
        }
    }
}

/// The state of `input` as three sets of codes.
pub open spec fn buttons_of(input: ButtonInput<u16>) -> Buttons {
    Buttons {
        pressed: pressed_codes(input),
        just_pressed: just_pressed_codes(input),
        just_released: just_released_codes(input),
    }
}

/// Calls `ButtonInput::press`, which inserts the code into the pressed set
/// and, where it was not there before, into the just-pressed set.
#[verifier::external_body]
pub(crate) fn press_button(input: &mut ButtonInput<u16>, code: u16)
    ensures
        buttons_of(*final(input)) == buttons_of(*old(input)).press(code),
{
    input.press(code)
}

/// Calls `ButtonInput::release`, which removes the code from the pressed set
/// and, where it was there before, inserts it into the just-released set.
#[verifier::external_body]
pub(crate) fn release_button(input: &mut ButtonInput<u16>, code: u16)
    ensures
        buttons_of(*final(input)) == buttons_of(*old(input)).release(code),
{
    input.release(code)
}

/// Calls `ButtonInput::clear`, which empties the just-pressed and the
/// just-released set and leaves the pressed set alone.
#[verifier::external_body]
pub(crate) fn clear_buttons(input: &mut ButtonInput<u16>)
    ensures
        pressed_codes(*final(input)) == pressed_codes(*old(input)),
        just_pressed_codes(*final(input)) == Set::<u16>::empty(),
        just_released_codes(*final(input)) == Set::<u16>::empty(),
{
    input.clear()
}

/// Calls `ButtonInput::get_pressed`, which walks the pressed set: every
/// pressed code comes out once, in no order that could be relied on.
#[verifier::external_body]
pub(crate) fn pressed_buttons(input: &ButtonInput<u16>) -> (codes: Vec<u16>)
    ensures
        codes@.to_set() == pressed_codes(*input),
        codes@.no_duplicates(),
{
    input.get_pressed().copied().collect()
}

} // verus!
