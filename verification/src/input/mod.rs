//! Input state for one frame at a time: which keys and mouse buttons are
//! held, which went down or up since the last frame, and window requests.

pub mod events;
pub use events::{
    CloseRequested, ElementState, Exit, KeyboardEvent, MouseButton, MouseButtonEvent, PhysicalSize,
    WindowResized,
};

pub mod keyboard;
pub use keyboard::Keyboard;

pub mod mouse;
pub use mouse::Mouse;


pub mod state;
pub use state::State;

