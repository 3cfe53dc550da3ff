use crate::input::model::all_clear;
use crate::input::model::InputModel;
use crate::input::Input;
use vstd::prelude::*;

verus! {

/// How many key codes the tracker has a slot for: every value of a `u8`.
pub const NUM_KEYS: usize = 256;

/// How many mouse buttons the tracker has a slot for.
pub const NUM_BUTTONS: usize = 3;

/// An [`Input`] that remembers, per key and per mouse button, whether it is
/// held and whether it was pressed or released since the last frame reset,
/// together with the mouse position and the lock flag.
pub struct StateTrackingInput {
    key_states: [bool; NUM_KEYS],
    key_states_down: [bool; NUM_KEYS],
    key_states_up: [bool; NUM_KEYS],
    mouse_states: [bool; NUM_BUTTONS],
    mouse_states_down: [bool; NUM_BUTTONS],
    mouse_states_up: [bool; NUM_BUTTONS],
    mouse_position: (isize, isize),
    mouse_lock: bool,
}

impl View for StateTrackingInput {
    type V = InputModel;

    closed spec fn view(&self) -> InputModel {
        InputModel {
            keys: self.key_states@,
            keys_pressed: self.key_states_down@,
            keys_released: self.key_states_up@,
            buttons: self.mouse_states@,
            buttons_pressed: self.mouse_states_down@,
            buttons_released: self.mouse_states_up@,
            position: (self.mouse_position.0 as int, self.mouse_position.1 as int),
            locked: self.mouse_lock,
        }
    }
}

impl Input for StateTrackingInput {
    open spec fn tracks_button(button: u8) -> bool {
        button < NUM_BUTTONS
    }

    open spec fn mouse_locked(&self) -> bool {
        self@.locked
    }

    fn new() -> (input: Self)
        ensures
            input@ == InputModel::initial(),
    {
        let input = StateTrackingInput {
            key_states: [false;NUM_KEYS],
            key_states_down: [false;NUM_KEYS],
            key_states_up: [false;NUM_KEYS],
            mouse_states: [false;NUM_BUTTONS],
            mouse_states_down: [false;NUM_BUTTONS],
            mouse_states_up: [false;NUM_BUTTONS],
            mouse_position: (0, 0),
            mouse_lock: false,
        };
        assert(input.key_states@ =~= all_clear(NUM_KEYS as nat));
        assert(input.key_states_down@ =~= all_clear(NUM_KEYS as nat));
        assert(input.key_states_up@ =~= all_clear(NUM_KEYS as nat));
        assert(input.mouse_states@ =~= all_clear(NUM_BUTTONS as nat));
        assert(input.mouse_states_down@ =~= all_clear(NUM_BUTTONS as nat));
        assert(input.mouse_states_up@ =~= all_clear(NUM_BUTTONS as nat));
        input
    }

    fn key_down(&mut self, key: u8)
        ensures
            final(self)@ == old(self)@.key_down(key),
    {
        if !self.key_states[key as usize] {
            self.key_states_down[key as usize] = true;
        }
        self.key_states[key as usize] = true;
    }

    fn key_up(&mut self, key: u8)
        ensures
            final(self)@ == old(self)@.key_up(key),
    {
        if self.key_states[key as usize] {
            self.key_states_up[key as usize] = true;
        }
        self.key_states[key as usize] = false;
    }

    fn mouse_down(&mut self, button: u8)
        ensures
            final(self)@ == old(self)@.mouse_down(button),
    {
        if !self.mouse_states[button as usize] {
            self.mouse_states_down[button as usize] = true;
        }
        self.mouse_states[button as usize] = true;
    }

    fn mouse_up(&mut self, button: u8)
        ensures
            final(self)@ == old(self)@.mouse_up(button),
    {
        if self.mouse_states[button as usize] {
            self.mouse_states_up[button as usize] = true;
        }
        self.mouse_states[button as usize] = false;
    }

    fn update_mouse_position(&mut self, position: (isize, isize))
        ensures
            final(self)@ == old(self)@.move_mouse((position.0 as int, position.1 as int)),
    {
        self.mouse_position = position;
    }

    fn set_mouse_lock(&mut self, state: bool)
        ensures
            final(self)@ == old(self)@.set_mouse_lock(state),
    {
        self.mouse_lock = state;

        self.mouse_position = (0, 0);
    }

    fn is_mouse_locked(&self) -> (locked: bool)
        ensures
            locked == self@.locked,
    {
        self.mouse_lock
    }

    fn frame_reset(&mut self)
        ensures
            final(self)@ == old(self)@.frame_reset(),
    {
        for i in 0..NUM_KEYS
            invariant
                forall|j: int| 0 <= j < i ==> !self.key_states_down@[j] && !self.key_states_up@[j],
                self.key_states == old(self).key_states,
                self.mouse_states == old(self).mouse_states,
                self.mouse_states_down == old(self).mouse_states_down,
                self.mouse_states_up == old(self).mouse_states_up,
                self.mouse_position == old(self).mouse_position,
                self.mouse_lock == old(self).mouse_lock,
        {
            self.key_states_down[i] = false;
            self.key_states_up[i] = false;
        }

        for i in 0..NUM_BUTTONS
            invariant
                forall|j: int|
                    0 <= j < i ==> !self.mouse_states_down@[j] && !self.mouse_states_up@[j],
                forall|j: int|
                    0 <= j < NUM_KEYS ==> !self.key_states_down@[j] && !self.key_states_up@[j],
                self.key_states == old(self).key_states,
                self.mouse_states == old(self).mouse_states,
                self.mouse_position == old(self).mouse_position,
                self.mouse_lock == old(self).mouse_lock,
        {
            self.mouse_states_down[i] = false;
            self.mouse_states_up[i] = false;
        }
        assert(self.key_states_down@ =~= all_clear(NUM_KEYS as nat));
        assert(self.key_states_up@ =~= all_clear(NUM_KEYS as nat));
        assert(self.mouse_states_down@ =~= all_clear(NUM_BUTTONS as nat));
        assert(self.mouse_states_up@ =~= all_clear(NUM_BUTTONS as nat));
    }
}

impl StateTrackingInput {
    /// The view of any tracker has one entry per key and per button.
    pub proof fn view_is_well_formed(&self)
        ensures
            self@.wf(),
    {
    }

    pub fn get_key(&self, key: u8) -> (held: bool)
        ensures
            held == self@.keys[key as int],
    {
        self.key_states[key as usize]
    }

    pub fn get_key_down(&self, key: u8) -> (pressed: bool)
        ensures
            pressed == self@.keys_pressed[key as int],
    {
        self.key_states_down[key as usize]
    }

    pub fn get_key_up(&self, key: u8) -> (released: bool)
        ensures
            released == self@.keys_released[key as int],
    {
        self.key_states_up[key as usize]
    }

    pub fn get_mouse_button(&self, button: u8) -> (held: bool)
        requires
            button < NUM_BUTTONS,
        ensures
            held == self@.buttons[button as int],
    {
        self.mouse_states[button as usize]
    }

    pub fn get_mouse_down(&self, button: u8) -> (pressed: bool)
        requires
            button < NUM_BUTTONS,
        ensures
            pressed == self@.buttons_pressed[button as int],
    {
        self.mouse_states_down[button as usize]
    }

    pub fn get_mouse_up(&self, button: u8) -> (released: bool)
        requires
            button < NUM_BUTTONS,
        ensures
            released == self@.buttons_released[button as int],
    {
        self.mouse_states_up[button as usize]
    }

    pub fn get_mouse_x(&self) -> (x: isize)
        ensures
            x == self@.position.0,
    {
        self.mouse_position.0
    }

    pub fn get_mouse_y(&self) -> (y: isize)
        ensures
            y == self@.position.1,
    {
        self.mouse_position.1
    }

    pub fn get_mouse_position(&self) -> (position: (isize, isize))
        ensures
            position.0 == self@.position.0,
            position.1 == self@.position.1,
    {
        self.mouse_position
    }
}

} // verus!
