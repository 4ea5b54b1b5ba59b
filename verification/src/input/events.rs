use vstd::prelude::*;

verus! {

/// Whether a key or button went down or came up.
#[derive(Debug, Clone, Copy, PartialEq, Eq, Structural)]
pub enum ElementState {
    Pressed,
    Released,
}

/// A mouse button.
#[derive(Debug, Clone, Copy, PartialEq, Eq, Structural)]
pub enum MouseButton {
    Left,
    Right,
    Middle,
    Back,
    Forward,
    Other(u16),
}

/// A physical key went down or came up. Keys are identified by their code.
#[derive(Debug, Clone, Copy, PartialEq, Eq, Structural)]
pub struct KeyboardEvent {
    pub key_code: u32,
    pub state: ElementState,
}

/// A mouse button went down or came up.
#[derive(Debug, Clone, Copy, PartialEq, Eq, Structural)]
pub struct MouseButtonEvent {
    pub button: MouseButton,
    pub state: ElementState,
}

/// A size in physical pixels.
#[derive(Debug, Clone, Copy, PartialEq, Eq, Structural)]
pub struct PhysicalSize {
    pub width: u32,
    pub height: u32,
}

/// The window was resized.
#[derive(Debug, Clone, Copy, PartialEq, Eq, Structural)]
pub struct WindowResized {
    pub size: PhysicalSize,
}

/// The user asked to close the window.
#[derive(Debug, Clone, Copy, PartialEq, Eq, Structural)]
pub struct CloseRequested;

/// The application should exit.
#[derive(Debug, Clone, Copy, PartialEq, Eq, Structural)]
pub struct Exit;

} // verus!
