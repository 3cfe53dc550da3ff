use crate::input::model::InputModel;
use crate::input::state_tracking::NUM_BUTTONS;
use vstd::prelude::*;

verus! {

/// A down event for a key that is not held leaves the key held with its
/// pressed edge raised, and touches no other key.
pub proof fn press_of_released_key_raises_edge(m: InputModel, key: u8)
    requires
        m.wf(),
        !m.keys[key as int],
    ensures
        m.key_down(key).keys[key as int],
        m.key_down(key).keys_pressed[key as int],
        m.key_down(key).keys_released == m.keys_released,
        forall|other: u8|
            other != key ==> {
                &&& m.key_down(key).keys[other as int] == m.keys[other as int]
                &&& #[trigger] m.key_down(key).keys_pressed[other as int]
                    == m.keys_pressed[other as int]
            },
{
}

/// A down event for a key that is already held changes nothing: no second
/// edge is recorded, and none is raised again after a frame reset.
pub proof fn press_of_held_key_is_ignored(m: InputModel, key: u8)
    requires
        m.wf(),
        m.keys[key as int],
    ensures
        m.key_down(key) == m,
        !m.frame_reset().key_down(key).keys_pressed[key as int],
{
    assert(m.key_down(key).keys =~= m.keys);
}

/// Two down events in a row for one key leave exactly what the first one
/// left, whatever the key's state was before.
pub proof fn second_press_changes_nothing(m: InputModel, key: u8)
    requires
        m.wf(),
    ensures
        m.key_down(key).key_down(key) == m.key_down(key),
        m.key_down(key).keys[key as int],
        m.key_down(key).keys_pressed[key as int] == (m.keys_pressed[key as int]
            || !m.keys[key as int]),
{
    let once = m.key_down(key);
    assert(once.key_down(key).keys =~= once.keys);
}

/// An up event for a key that is held leaves the key released with its
/// released edge raised, and touches no other key.
pub proof fn release_of_held_key_raises_edge(m: InputModel, key: u8)
    requires
        m.wf(),
        m.keys[key as int],
    ensures
        !m.key_up(key).keys[key as int],
        m.key_up(key).keys_released[key as int],
        m.key_up(key).keys_pressed == m.keys_pressed,
        forall|other: u8|
            other != key ==> {
                &&& m.key_up(key).keys[other as int] == m.keys[other as int]
                &&& #[trigger] m.key_up(key).keys_released[other as int]
                    == m.keys_released[other as int]
            },
{
}

/// An up event for a key that is not held changes nothing.
pub proof fn release_of_released_key_is_ignored(m: InputModel, key: u8)
    requires
        m.wf(),
        !m.keys[key as int],
    ensures
        m.key_up(key) == m,
        !m.frame_reset().key_up(key).keys_released[key as int],
{
    assert(m.key_up(key).keys =~= m.keys);
}

/// Mouse buttons follow the same edge rules as keys.
pub proof fn buttons_follow_the_key_rules(m: InputModel, button: u8)
    requires
        m.wf(),
        button < NUM_BUTTONS,
    ensures
        m.mouse_down(button).buttons[button as int],
        m.mouse_down(button).buttons_pressed[button as int] == (m.buttons_pressed[button as int]
            || !m.buttons[button as int]),
        m.buttons[button as int] ==> m.mouse_down(button) == m,
        !m.mouse_up(button).buttons[button as int],
        m.mouse_up(button).buttons_released[button as int] == (m.buttons_released[button as int]
            || m.buttons[button as int]),
        !m.buttons[button as int] ==> m.mouse_up(button) == m,
{
    if m.buttons[button as int] {
        assert(m.mouse_down(button).buttons =~= m.buttons);
    } else {
        assert(m.mouse_up(button).buttons =~= m.buttons);
    }
}

/// A frame reset clears the pressed and released edge of every key and of
/// every button, and keeps what is held, the mouse position and the lock.
pub proof fn frame_reset_clears_edges_only(m: InputModel)
    requires
        m.wf(),
    ensures
        forall|key: u8|
            {
                &&& !(#[trigger] m.frame_reset().keys_pressed[key as int])
                &&& !m.frame_reset().keys_released[key as int]
            },
        forall|button: u8|
            button < NUM_BUTTONS ==> {
                &&& !(#[trigger] m.frame_reset().buttons_pressed[button as int])
                &&& !m.frame_reset().buttons_released[button as int]
            },
        m.frame_reset().keys == m.keys,
        m.frame_reset().buttons == m.buttons,
        m.frame_reset().position == m.position,
        m.frame_reset().locked == m.locked,
        m.frame_reset().frame_reset() == m.frame_reset(),
{
}

/// Setting the lock puts the mouse at the origin every time, also when the
/// lock already had that value and the mouse has moved in between.
pub proof fn every_lock_call_resets_position(
    m: InputModel,
    first: bool,
    moved_to: (int, int),
    second: bool,
)
    ensures
        m.set_mouse_lock(first).position == (0int, 0int),
        m.set_mouse_lock(first).locked == first,
        m.set_mouse_lock(first).move_mouse(moved_to).position == moved_to,
        m.set_mouse_lock(first).move_mouse(moved_to).set_mouse_lock(second).position == (
            0int,
            0int,
        ),
        m.set_mouse_lock(first).move_mouse(moved_to).set_mouse_lock(second).locked == second,
        m.set_mouse_lock(first).set_mouse_lock(first) == m.set_mouse_lock(first),
{
}

/// Every event keeps the model well formed, and the initial model is.
pub proof fn events_keep_the_model_well_formed(
    m: InputModel,
    key: u8,
    button: u8,
    position: (int, int),
    state: bool,
)
    requires
        m.wf(),
        button < NUM_BUTTONS,
    ensures
        InputModel::initial().wf(),
        m.key_down(key).wf(),
        m.key_up(key).wf(),
        m.mouse_down(button).wf(),
        m.mouse_up(button).wf(),
        m.move_mouse(position).wf(),
        m.set_mouse_lock(state).wf(),
        m.frame_reset().wf(),
{
}

} // verus!
