use vstd::prelude::*;

use crate::input::events::{ElementState, MouseButton, MouseButtonEvent};

verus! {

/// Which of the tracked mouse buttons are held.
#[derive(Debug, Clone, Copy, Default, PartialEq, Eq, Structural)]
pub struct Buttons {
    pub left: bool,
    pub right: bool,
    pub middle: bool,
}

/// Whether `button` is held in `buttons`; only the left, right and middle
/// buttons are tracked, the others never count as held.
pub open spec fn button_held(buttons: Buttons, button: MouseButton) -> bool {
    match button {
        MouseButton::Left => buttons.left,
        MouseButton::Right => buttons.right,
        MouseButton::Middle => buttons.middle,
        _ => false,
    }
}

/// `buttons` with the tracked `button` set to `held`; other buttons leave
/// it unchanged.
pub open spec fn with_button(buttons: Buttons, button: MouseButton, held: bool) -> Buttons {
    match button {
        MouseButton::Left => Buttons { left: held, ..buttons },
        MouseButton::Right => Buttons { right: held, ..buttons },
        MouseButton::Middle => Buttons { middle: held, ..buttons },
        _ => buttons,
    }
}

/// The mouse buttons held now and at the end of the last frame.
pub struct Mouse {
    pub current: Buttons,
    pub previous: Buttons,
}

impl Mouse {
    /// A mouse with no button held, as a value.
    pub open spec fn new_spec() -> Mouse {
        Mouse {
            current: Buttons { left: false, right: false, middle: false },
            previous: Buttons { left: false, right: false, middle: false },
        }
    }

    /// A mouse with no button held.
    pub fn new() -> (m: Mouse)
        ensures
            m == Mouse::new_spec(),
    {
        Mouse {
            current: Buttons { left: false, right: false, middle: false },
            previous: Buttons { left: false, right: false, middle: false },
        }
    }

    /// Starts a frame: the buttons held now become those of the last frame,
    /// and stay held.
    pub fn start_frame(&mut self)
        ensures
            final(self).previous == old(self).current,
            final(self).current == old(self).current,
    {
        self.previous = self.current;
    }

    /// Applies a button event to the held buttons.
    pub fn process_button(&mut self, event: MouseButtonEvent)
        ensures
            final(self).previous == old(self).previous,
            final(self).current == with_button(
                old(self).current,
                event.button,
                event.state == ElementState::Pressed,
            ),
    {
        let held = match event.state {
            ElementState::Pressed => true,
            ElementState::Released => false,
        };
        match event.button {
            MouseButton::Left => self.current.left = held,
            MouseButton::Right => self.current.right = held,
            MouseButton::Middle => self.current.middle = held,
            _ => {},
        }
    }

    /// Whether `button` went down this frame.
    pub fn pressed(&self, button: MouseButton) -> (b: bool)
        ensures
            b == (button_held(self.current, button) && !button_held(self.previous, button)),
    {
        match button {
            MouseButton::Left => self.current.left && !self.previous.left,
            MouseButton::Right => self.current.right && !self.previous.right,
            MouseButton::Middle => self.current.middle && !self.previous.middle,
            _ => false,
        }
    }

    /// Whether `button` came up this frame.
    pub fn released(&self, button: MouseButton) -> (b: bool)
        ensures
            b == (!button_held(self.current, button) && button_held(self.previous, button)),
    {
        match button {
            MouseButton::Left => !self.current.left && self.previous.left,
            MouseButton::Right => !self.current.right && self.previous.right,
            MouseButton::Middle => !self.current.middle && self.previous.middle,
            _ => false,
        }
    }

    /// Whether `button` is held.
    pub fn held(&self, button: MouseButton) -> (b: bool)
        ensures
            b == button_held(self.current, button),
    {
        match button {
            MouseButton::Left => self.current.left,
            MouseButton::Right => self.current.right,
            MouseButton::Middle => self.current.middle,
            _ => false,
        }
    }
}

/// A button event makes the tracked button held exactly when it reports a
/// press, and leaves every other button as it was.
pub proof fn lemma_button_event_effect(
    buttons: Buttons,
    button: MouseButton,
    held: bool,
    other: MouseButton,
)
    ensures
        (button is Left || button is Right || button is Middle) ==> button_held(
            with_button(buttons, button, held),
            button,
        ) == held,
        !(button is Left || button is Right || button is Middle) ==> with_button(
            buttons,
            button,
            held,
        ) == buttons,
        other != button && !(other is Other && button is Other) ==> button_held(
            with_button(buttons, button, held),
            other,
        ) == button_held(buttons, other),
{
}

/// Right after a frame starts no button has gone down or come up.
pub proof fn lemma_fresh_frame_has_no_button_edges(buttons: Buttons, button: MouseButton)
    ensures
        !(button_held(buttons, button) && !button_held(buttons, button)),
        !(!button_held(buttons, button) && button_held(buttons, button)),
{
}

} // verus!
