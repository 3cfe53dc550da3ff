use vstd::prelude::*;

pub mod model;
pub mod laws;
pub mod state_tracking;

verus! {

/// The capability through which a window delivers raw key and mouse events
/// while it polls.
///
/// The trait fixes how the mouse-lock flag behaves: only `set_mouse_lock`
/// changes it, and `is_mouse_locked` reads it back. Everything else an
/// implementation records is its own affair and is stated on the impl.
pub trait Input: Sized {
    /// Whether the implementation has a slot for this mouse button. Events
    /// for other buttons must not be delivered.
    spec fn tracks_button(button: u8) -> bool;

    /// The lock flag as it was last set.
    spec fn mouse_locked(&self) -> bool;

    fn new() -> (input: Self);

    fn key_down(&mut self, key: u8)
        ensures
            final(self).mouse_locked() == old(self).mouse_locked(),
    ;

    fn key_up(&mut self, key: u8)
        ensures
            final(self).mouse_locked() == old(self).mouse_locked(),
    ;

    fn mouse_down(&mut self, button: u8)
        requires
            Self::tracks_button(button),
        ensures
            final(self).mouse_locked() == old(self).mouse_locked(),
    ;

    fn mouse_up(&mut self, button: u8)
        requires
            Self::tracks_button(button),
        ensures
            final(self).mouse_locked() == old(self).mouse_locked(),
    ;

    fn update_mouse_position(&mut self, position: (isize, isize))
        ensures
            final(self).mouse_locked() == old(self).mouse_locked(),
    ;

    fn set_mouse_lock(&mut self, state: bool)
        ensures
            final(self).mouse_locked() == state,
    ;

    fn frame_reset(&mut self)
        ensures
            final(self).mouse_locked() == old(self).mouse_locked(),
    ;

    fn is_mouse_locked(&self) -> (locked: bool)
        ensures
            locked == self.mouse_locked(),
    ;
}

} // verus!
