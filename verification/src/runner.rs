//! Demo runner decisions.
//!
//! The runner polls window events and renders frames until it is asked to quit. What it does
//! with each event is decided here; polling and rendering are the caller's.

use vstd::prelude::*;

verus! {

/// A window event, as far as the runner reads it.
#[derive(Clone, Copy, Debug, Eq, PartialEq, Structural)]
pub enum RunnerEvent {
    /// The window was closed.
    Close,
    /// The escape key was released.
    EscapeReleased,
    /// The framebuffer was resized.
    FramebufferSize(i32, i32),
    /// Any other event.
    Other,
}

/// What the runner does after an event.
#[derive(Clone, Copy, Debug, Eq, PartialEq, Structural)]
pub enum RunnerStep {
    /// Stop running.
    Quit,
    /// Recreate the back buffer and resize the demo to the given width and height.
    Resize(u32, u32),
    /// Go on.
    Continue,
}

/// React to a window event: closing the window or releasing escape quits, a framebuffer resize
/// resizes (its dimensions taken as unsigned, bit for bit), anything else is ignored.
pub fn on_event(event: RunnerEvent) -> (res: RunnerStep)
    ensures
        res == match event {
            RunnerEvent::Close | RunnerEvent::EscapeReleased => RunnerStep::Quit,
            RunnerEvent::FramebufferSize(w, h) => RunnerStep::Resize(w as u32, h as u32),
            RunnerEvent::Other => RunnerStep::Continue,
        },
{
    match event {
        RunnerEvent::Close | RunnerEvent::EscapeReleased => RunnerStep::Quit,
        RunnerEvent::FramebufferSize(w, h) => RunnerStep::Resize(w as u32, h as u32),
        RunnerEvent::Other => RunnerStep::Continue,
    }
}

} // verus!
