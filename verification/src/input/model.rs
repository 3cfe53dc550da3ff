use crate::input::state_tracking::NUM_BUTTONS;
use crate::input::state_tracking::NUM_KEYS;
use vstd::prelude::*;

verus! {

/// What an input tracker knows at one instant, as mathematics.
///
/// The three key sequences have one entry per key code and the three button
/// sequences one entry per mouse button. `keys[k]` says that key `k` is held
/// right now; `keys_pressed[k]` that it went from released to held since the
/// last frame reset; `keys_released[k]` that it went from held to released
/// since then. The button sequences read the same way.
pub ghost struct InputModel {
    pub keys: Seq<bool>,
    pub keys_pressed: Seq<bool>,
    pub keys_released: Seq<bool>,
    pub buttons: Seq<bool>,
    pub buttons_pressed: Seq<bool>,
    pub buttons_released: Seq<bool>,
    pub position: (int, int),
    pub locked: bool,
}

/// A sequence of `len` flags, none of them set.
pub open spec fn all_clear(len: nat) -> Seq<bool> {
    Seq::new(len, |i: int| false)
}

/// The flags after a down event for slot `i`: the slot is held, and the
/// pressed edge is raised only if the slot was not held before.
pub open spec fn press(held: Seq<bool>, pressed: Seq<bool>, i: int) -> (Seq<bool>, Seq<bool>) {
    (
        held.update(i, true),
        if held[i] {
            pressed
        } else {
            pressed.update(i, true)
        },
    )
}

/// The flags after an up event for slot `i`: the slot is no longer held, and
/// the released edge is raised only if the slot was held before.
pub open spec fn release(held: Seq<bool>, released: Seq<bool>, i: int) -> (Seq<bool>, Seq<bool>) {
    (
        held.update(i, false),
        if held[i] {
            released.update(i, true)
        } else {
            released
        },
    )
}

impl InputModel {
    /// Every sequence has exactly one entry per key or button.
    pub open spec fn wf(self) -> bool {
        &&& self.keys.len() == NUM_KEYS
        &&& self.keys_pressed.len() == NUM_KEYS
        &&& self.keys_released.len() == NUM_KEYS
        &&& self.buttons.len() == NUM_BUTTONS
        &&& self.buttons_pressed.len() == NUM_BUTTONS
        &&& self.buttons_released.len() == NUM_BUTTONS
    }

    /// Nothing held, no edges, mouse at the origin and unlocked.
    pub open spec fn initial() -> InputModel {
        InputModel {
            keys: all_clear(NUM_KEYS as nat),
            keys_pressed: all_clear(NUM_KEYS as nat),
            keys_released: all_clear(NUM_KEYS as nat),
            buttons: all_clear(NUM_BUTTONS as nat),
            buttons_pressed: all_clear(NUM_BUTTONS as nat),
            buttons_released: all_clear(NUM_BUTTONS as nat),
            position: (0, 0),
            locked: false,
        }
    }

    pub open spec fn key_down(self, key: u8) -> InputModel {
        let (keys, keys_pressed) = press(self.keys, self.keys_pressed, key as int);
        InputModel { keys, keys_pressed, ..self }
    }

    pub open spec fn key_up(self, key: u8) -> InputModel {
        let (keys, keys_released) = release(self.keys, self.keys_released, key as int);
        InputModel { keys, keys_released, ..self }
    }

    pub open spec fn mouse_down(self, button: u8) -> InputModel {
        let (buttons, buttons_pressed) = press(self.buttons, self.buttons_pressed, button as int);
        InputModel { buttons, buttons_pressed, ..self }
    }

    pub open spec fn mouse_up(self, button: u8) -> InputModel {
        let (buttons, buttons_released) = release(
            self.buttons,
            self.buttons_released,
            button as int,
        );
        InputModel { buttons, buttons_released, ..self }
    }

    pub open spec fn move_mouse(self, position: (int, int)) -> InputModel {
        InputModel { position, ..self }
    }

    /// Setting the lock, to whatever value, puts the mouse back at the origin.
    pub open spec fn set_mouse_lock(self, state: bool) -> InputModel {
        InputModel { locked: state, position: (0, 0), ..self }
    }

    /// The start of a new frame: all edges are forgotten, what is held stays.
    pub open spec fn frame_reset(self) -> InputModel {
        InputModel {
            keys_pressed: all_clear(NUM_KEYS as nat),
            keys_released: all_clear(NUM_KEYS as nat),
            buttons_pressed: all_clear(NUM_BUTTONS as nat),
            buttons_released: all_clear(NUM_BUTTONS as nat),
            ..self
        }
    }
}

} // verus!
