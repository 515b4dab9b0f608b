//! The event taxonomy consumed by the dispatch loop.
//!
//! Events come from an external window library; the embedding translates each
//! raw event into this crate's own plain-value form before handing it to the
//! loop. Payloads the loop never inspects (frame timing, non-cursor motion
//! coordinates) are carried as opaque scalar values and forwarded untouched.

use vstd::prelude::*;

verus! {

/// An input button, identified by category and plain identity values.
#[derive(Clone, Copy, PartialEq, Eq, Structural, Debug)]
pub enum Button {
    /// A keyboard key, by its key code.
    Keyboard(u32),
    /// A mouse button, by its button number.
    Mouse(u32),
    /// A controller button: controller id and button number.
    Controller(u32, u8),
}

/// Whether a button event is a press or a release.
#[derive(Clone, Copy, PartialEq, Eq, Structural, Debug)]
pub enum ButtonState {
    Press,
    Release,
}

/// Payload of a button input event.
#[derive(Clone, Copy, PartialEq, Eq, Structural, Debug)]
pub struct ButtonArgs {
    pub state: ButtonState,
    pub button: Button,
}

/// A motion input payload. Only cursor motion carries coordinates the loop
/// stores; the other kinds are recognised and ignored.
#[derive(Clone, Copy, PartialEq, Eq, Structural, Debug)]
pub enum Motion {
    /// Absolute cursor position, as two opaque coordinate payloads.
    Cursor(u64, u64),
    /// Relative cursor movement.
    Relative(u64, u64),
    /// Scroll wheel movement.
    Scroll(u64, u64),
    /// A controller axis change.
    ControllerAxis,
    /// A touch event.
    Touch,
}

/// A loop event: a tick of the render/update cycle. The scalar payloads are
/// opaque frame-timing values, forwarded to the handler untouched.
#[derive(Clone, Copy, PartialEq, Eq, Structural, Debug)]
pub enum LoopEvent {
    Render(u64),
    Update(u64),
    AfterRender,
    Idle(u64),
}

/// An input event delivered by the window.
#[derive(Clone, Copy, PartialEq, Eq, Structural, Debug)]
pub enum InputEvent {
    /// A button press or release.
    Button(ButtonArgs),
    /// Pointer or controller motion.
    Move(Motion),
    /// The window was resized to the given width and height.
    Resize(u32, u32),
    /// Text input; carries no payload here because the loop discards it.
    Text,
    /// The pointer entered (true) or left (false) the window.
    Cursor(bool),
    /// The window gained (true) or lost (false) input focus.
    Focus(bool),
    /// The window received a close request.
    Close,
}

/// One event pulled from the window's event source.
#[derive(Clone, Copy, PartialEq, Eq, Structural, Debug)]
pub enum Event {
    /// An event of a kind outside the taxonomy; ignored by the loop.
    Custom,
    Loop(LoopEvent),
    Input(InputEvent),
}

} // verus!
