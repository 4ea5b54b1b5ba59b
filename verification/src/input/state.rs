use vstd::prelude::*;

use crate::input::events::{
    CloseRequested, ElementState, KeyboardEvent, MouseButtonEvent, PhysicalSize, WindowResized,
};
use crate::input::keyboard::{Keyboard, KEY_A, KEY_D, KEY_S, KEY_W};
use crate::input::mouse::{with_button, Buttons, Mouse};

verus! {

/// The input state of a frame: keyboard, mouse buttons, and the window
/// requests seen during the frame.
pub struct State {
    pub keyboard: Keyboard,
    pub mouse: Mouse,
    close_requested: bool,
    new_size: Option<PhysicalSize>,
}

/// The movement direction the held W, A, S and D keys ask for, one unit
/// per key: W adds one forward, S one backward, and A and D each one to
/// the left.
pub open spec fn direction_of(held: Set<u32>) -> (int, int) {
    let x = (if held.contains(KEY_A) { -1int } else { 0int }) + (if held.contains(KEY_D) {
        -1int
    } else {
        0int
    });
    let y = (if held.contains(KEY_W) { 1int } else { 0int }) + (if held.contains(KEY_S) {
        -1int
    } else {
        0int
    });
    (x, y)
}

impl State {
    /// The keyboard state.
    pub closed spec fn spec_keyboard(&self) -> Keyboard {
        self.keyboard
    }

    /// The mouse button state.
    pub closed spec fn spec_mouse(&self) -> Mouse {
        self.mouse
    }

    /// Whether closing was requested during the frame.
    pub closed spec fn spec_close_requested(&self) -> bool {
        self.close_requested
    }

    /// The size the window was resized to during the frame, if any.
    pub closed spec fn spec_new_size(&self) -> Option<PhysicalSize> {
        self.new_size
    }

    /// Input with nothing held and no request seen.
    pub fn new() -> (s: State)
        ensures
            s.spec_keyboard().held_keys() == Set::<u32>::empty(),
            s.spec_keyboard().previous_keys() == Set::<u32>::empty(),
            s.spec_mouse() == Mouse::new_spec(),
            !s.spec_close_requested(),
            s.spec_new_size() is None,
    {
        State { keyboard: Keyboard::new(), mouse: Mouse::new(), close_requested: false, new_size: None }
    }

    /// Starts a frame for the keyboard and the mouse, and forgets the
    /// requests of the last frame.
    pub fn start_frame(&mut self)
        ensures
            final(self).spec_keyboard().previous_keys() == old(self).spec_keyboard().held_keys(),
            final(self).spec_keyboard().held_keys() == old(self).spec_keyboard().held_keys(),
            final(self).spec_mouse().previous == old(self).spec_mouse().current,
            final(self).spec_mouse().current == old(self).spec_mouse().current,
            !final(self).spec_close_requested(),
            final(self).spec_new_size() is None,
    {
        self.keyboard.start_frame();
        self.mouse.start_frame();
        self.new_size = None;
        self.close_requested = false;
    }

    /// Records that the window was resized.
    pub fn process_resize(&mut self, resize: WindowResized)
        ensures
            final(self).spec_new_size() == Some(resize.size),
            final(self).spec_close_requested() == old(self).spec_close_requested(),
            final(self).spec_keyboard() == old(self).spec_keyboard(),
            final(self).spec_mouse() == old(self).spec_mouse(),
    {
        self.new_size = Some(resize.size);
    }

    /// Records that closing was requested.
    pub fn process_close_requsted(&mut self)
        ensures
            final(self).spec_close_requested(),
            final(self).spec_new_size() == old(self).spec_new_size(),
            final(self).spec_keyboard() == old(self).spec_keyboard(),
            final(self).spec_mouse() == old(self).spec_mouse(),
    {
        self.close_requested = true;
    }

    /// The movement direction the held W, A, S and D keys ask for, as
    /// (sideways, forward) units.
    pub fn move_direction(&self) -> (v: (i32, i32))
        ensures
            (v.0 as int, v.1 as int) == direction_of(self.spec_keyboard().held_keys()),
            v.1 == (if self.spec_keyboard().held_keys().contains(KEY_W) {
                1int
            } else {
                0int
            }) - (if self.spec_keyboard().held_keys().contains(KEY_S) {
                1int
            } else {
                0int
            }),
            v.0 == -((if self.spec_keyboard().held_keys().contains(KEY_A) {
                1int
            } else {
                0int
            }) + (if self.spec_keyboard().held_keys().contains(KEY_D) {
                1int
            } else {
                0int
            })),
    {
        let mut x: i32 = 0;
        let mut y: i32 = 0;
        if self.keyboard.held(KEY_W) {
            y = y + 1;
        }
        if self.keyboard.held(KEY_A) {
            x = x - 1;
        }
        if self.keyboard.held(KEY_S) {
            y = y - 1;
        }
        if self.keyboard.held(KEY_D) {
            x = x - 1;
        }
        (x, y)
    }

    /// Forgets a close request.
    pub fn reset_close_requested(&mut self)
        ensures
            !final(self).spec_close_requested(),
            final(self).spec_new_size() == old(self).spec_new_size(),
            final(self).spec_keyboard() == old(self).spec_keyboard(),
            final(self).spec_mouse() == old(self).spec_mouse(),
    {
        self.close_requested = false;
    }

    /// Forgets a resize.
    pub fn reset_window_size(&mut self)
        ensures
            final(self).spec_new_size() is None,
            final(self).spec_close_requested() == old(self).spec_close_requested(),
            final(self).spec_keyboard() == old(self).spec_keyboard(),
            final(self).spec_mouse() == old(self).spec_mouse(),
    {
        self.new_size = None;
    }

    /// Whether closing was requested during the frame.
    pub fn close_requested(&self) -> (b: bool)
        ensures
            b == self.spec_close_requested(),
    {
        self.close_requested
    }

    /// The size the window was resized to during the frame, if any.
    pub fn new_window_size(&self) -> (s: Option<PhysicalSize>)
        ensures
            s == self.spec_new_size(),
    {
        self.new_size
    }
}

/// Each held movement key contributes its unit on its own, whatever else
/// is held: pressing W adds one forward and pressing S one backward, A and
/// D each one to the left, and any other key changes nothing. With nothing
/// held there is no movement.
pub proof fn lemma_direction_keys_contribute_independently(held: Set<u32>, key: u32)
    ensures
        direction_of(Set::<u32>::empty()) == (0int, 0int),
        !held.contains(KEY_W) ==> direction_of(held.insert(KEY_W)) == (
            direction_of(held).0,
            direction_of(held).1 + 1,
        ),
        !held.contains(KEY_S) ==> direction_of(held.insert(KEY_S)) == (
            direction_of(held).0,
            direction_of(held).1 - 1,
        ),
        !held.contains(KEY_A) ==> direction_of(held.insert(KEY_A)) == (
            direction_of(held).0 - 1,
            direction_of(held).1,
        ),
        !held.contains(KEY_D) ==> direction_of(held.insert(KEY_D)) == (
            direction_of(held).0 - 1,
            direction_of(held).1,
        ),
        key != KEY_W && key != KEY_A && key != KEY_S && key != KEY_D ==> direction_of(
            held.insert(key),
        ) == direction_of(held),
        direction_of(set![KEY_S]) == (0int, -1int),
        direction_of(set![KEY_W]) == (0int, 1int),
{
    assert(set![KEY_S] == Set::<u32>::empty().insert(KEY_S));
    assert(set![KEY_W] == Set::<u32>::empty().insert(KEY_W));
}

// The per-frame input systems: each starts its part of the input state on
// a new frame and then applies the events received during the frame, in
// the order they arrived.

/// The keys held after applying `events`, in order, to the keys `held`.
pub open spec fn keys_after(held: Set<u32>, events: Seq<KeyboardEvent>) -> Set<u32>
    decreases events.len(),
{
    if events.len() == 0 {
        held
    } else {
        let before = keys_after(held, events.drop_last());
        let last = events.last();
        match last.state {
            ElementState::Pressed => before.insert(last.key_code),
            ElementState::Released => before.remove(last.key_code),
        }
    }
}

/// The tracked buttons held after applying `events`, in order, to `held`.
pub open spec fn buttons_after(held: Buttons, events: Seq<MouseButtonEvent>) -> Buttons
    decreases events.len(),
{
    if events.len() == 0 {
        held
    } else {
        let last = events.last();
        with_button(
            buttons_after(held, events.drop_last()),
            last.button,
            last.state == ElementState::Pressed,
        )
    }
}

/// The state reported by the last event among `events` that concerns
/// `key`, if any does.
pub open spec fn last_key_state(events: Seq<KeyboardEvent>, key: u32) -> Option<ElementState>
    decreases events.len(),
{
    if events.len() == 0 {
        None
    } else if events.last().key_code == key {
        Some(events.last().state)
    } else {
        last_key_state(events.drop_last(), key)
    }
}

/// Starts the keyboard on a new frame and applies the frame's key events
/// in order. The mouse and the window requests are left as they were.
pub fn keyboard(state: &mut State, events: &[KeyboardEvent])
    ensures
        final(state).spec_keyboard().previous_keys() == old(state).spec_keyboard().held_keys(),
        final(state).spec_keyboard().held_keys() == keys_after(
            old(state).spec_keyboard().held_keys(),
            events@,
        ),
        final(state).spec_mouse() == old(state).spec_mouse(),
        final(state).spec_close_requested() == old(state).spec_close_requested(),
        final(state).spec_new_size() == old(state).spec_new_size(),
{
    state.keyboard.start_frame();
    let mut i: usize = 0;
    while i < events.len()
        invariant
            i <= events.len(),
            state.spec_keyboard().previous_keys() == old(state).spec_keyboard().held_keys(),
            state.spec_keyboard().held_keys() == keys_after(
                old(state).spec_keyboard().held_keys(),
                events@.subrange(0, i as int),
            ),
            state.spec_mouse() == old(state).spec_mouse(),
            state.spec_close_requested() == old(state).spec_close_requested(),
            state.spec_new_size() == old(state).spec_new_size(),
        decreases events.len() - i,
    {
        state.keyboard.process(events[i]);
        proof {
            assert(events@.subrange(0, i + 1).drop_last() =~= events@.subrange(0, i as int));
        }
        i = i + 1;
    }
    proof {
        assert(events@.subrange(0, events@.len() as int) =~= events@);
    }
}

/// Starts the mouse buttons on a new frame and applies the frame's button
/// events in order. The keyboard and the window requests are left as they
/// were.
pub fn mouse(state: &mut State, button_events: &[MouseButtonEvent])
    ensures
        final(state).spec_mouse().previous == old(state).spec_mouse().current,
        final(state).spec_mouse().current == buttons_after(
            old(state).spec_mouse().current,
            button_events@,
        ),
        final(state).spec_keyboard() == old(state).spec_keyboard(),
        final(state).spec_close_requested() == old(state).spec_close_requested(),
        final(state).spec_new_size() == old(state).spec_new_size(),
{
    state.mouse.start_frame();
    let mut i: usize = 0;
    while i < button_events.len()
        invariant
            i <= button_events.len(),
            state.spec_mouse().previous == old(state).spec_mouse().current,
            state.spec_mouse().current == buttons_after(
                old(state).spec_mouse().current,
                button_events@.subrange(0, i as int),
            ),
            state.spec_keyboard() == old(state).spec_keyboard(),
            state.spec_close_requested() == old(state).spec_close_requested(),
            state.spec_new_size() == old(state).spec_new_size(),
        decreases button_events.len() - i,
    {
        state.mouse.process_button(button_events[i]);
        proof {
            assert(button_events@.subrange(0, i + 1).drop_last() =~= button_events@.subrange(
                0,
                i as int,
            ));
        }
        i = i + 1;
    }
    proof {
        assert(button_events@.subrange(0, button_events@.len() as int) =~= button_events@);
    }
}

/// Forgets the last frame's close request and records one if any arrived
/// during this frame.
pub fn close_requested(state: &mut State, events: &[CloseRequested])
    ensures
        final(state).spec_close_requested() == (events@.len() > 0),
        final(state).spec_new_size() == old(state).spec_new_size(),
        final(state).spec_keyboard() == old(state).spec_keyboard(),
        final(state).spec_mouse() == old(state).spec_mouse(),
{
    state.reset_close_requested();
    if events.len() > 0 {
        state.process_close_requsted();
    }
}

/// Forgets the last frame's resize and records the frame's resizes in
/// order, so that the last one is kept.
pub fn window_resize(state: &mut State, events: &[WindowResized])
    ensures
        final(state).spec_new_size() == (if events@.len() == 0 {
            None
        } else {
            Some(events@.last().size)
        }),
        final(state).spec_close_requested() == old(state).spec_close_requested(),
        final(state).spec_keyboard() == old(state).spec_keyboard(),
        final(state).spec_mouse() == old(state).spec_mouse(),
{
    state.reset_window_size();
    let mut i: usize = 0;
    while i < events.len()
        invariant
            i <= events.len(),
            state.spec_new_size() == (if i == 0 {
                None
            } else {
                Some(events@[i - 1].size)
            }),
            state.spec_close_requested() == old(state).spec_close_requested(),
            state.spec_keyboard() == old(state).spec_keyboard(),
            state.spec_mouse() == old(state).spec_mouse(),
        decreases events.len() - i,
    {
        state.process_resize(events[i]);
        i = i + 1;
    }
}

/// After a frame's key events, a key is held exactly when the last event
/// concerning it was a press; a key that no event concerned is held
/// exactly when it was held before.
pub proof fn lemma_key_follows_last_event(held: Set<u32>, events: Seq<KeyboardEvent>, key: u32)
    ensures
        keys_after(held, events).contains(key) == match last_key_state(events, key) {
            Some(ElementState::Pressed) => true,
            Some(ElementState::Released) => false,
            None => held.contains(key),
        },
    decreases events.len(),
{
    if events.len() > 0 {
        lemma_key_follows_last_event(held, events.drop_last(), key);
    }
}

} // verus!
