//! What the window event loop does with each event: quit, ask for a redraw,
//! draw a frame, or resize the swapchain.

use vstd::prelude::*;

verus! {

/// A window event, as far as the loop cares.
#[derive(Clone, Copy, Debug, PartialEq, Eq, Structural)]
pub enum WindowEventKind {
    CloseRequested,
    /// A keyboard event with the Escape key pressed.
    EscapePressed,
    /// The window's inner size changed.
    Resized { width: u32, height: u32 },
    Other,
}

/// An event the loop receives.
#[derive(Clone, Copy, Debug, PartialEq, Eq, Structural)]
pub enum LoopEvent {
    Window(WindowEventKind),
    /// Every pending event has been handled.
    MainEventsCleared,
    /// The window asks to be drawn.
    RedrawRequested,
    Other,
}

/// What the loop does in response.
#[derive(Clone, Copy, Debug, PartialEq, Eq, Structural)]
pub enum LoopAction {
    Nothing,
    /// Leave the loop.
    Exit,
    /// Ask the window for a redraw.
    RequestRedraw,
    /// Update the frame's state, then render it.
    UpdateAndRender,
    /// Recreate the swapchain for the new size.
    Resize { width: u32, height: u32 },
}

/// The response to `event`: a close request quits, and so does a pressed
/// Escape where the application quits on it; a resize recreates the
/// swapchain where the application follows resizes; once the events are
/// handled a redraw is requested, and a redraw request draws a frame.
pub open spec fn loop_action_spec(event: LoopEvent, exit_on_escape: bool, follow_resize: bool) -> LoopAction {
    match event {
        LoopEvent::Window(WindowEventKind::CloseRequested) => LoopAction::Exit,
        LoopEvent::Window(WindowEventKind::EscapePressed) => if exit_on_escape {
            LoopAction::Exit
        } else {
            LoopAction::Nothing
        },
        LoopEvent::Window(WindowEventKind::Resized { width, height }) => if follow_resize {
            LoopAction::Resize { width, height }
        } else {
            LoopAction::Nothing
        },
        LoopEvent::Window(WindowEventKind::Other) => LoopAction::Nothing,
        LoopEvent::MainEventsCleared => LoopAction::RequestRedraw,
        LoopEvent::RedrawRequested => LoopAction::UpdateAndRender,
        LoopEvent::Other => LoopAction::Nothing,
    }
}

/// Decides what the loop does with one event.
pub fn loop_action(event: LoopEvent, exit_on_escape: bool, follow_resize: bool) -> (r: LoopAction)
    ensures
        r == loop_action_spec(event, exit_on_escape, follow_resize),
{
    match event {
        LoopEvent::Window(WindowEventKind::CloseRequested) => LoopAction::Exit,
        LoopEvent::Window(WindowEventKind::EscapePressed) => if exit_on_escape {
            LoopAction::Exit
        } else {
            LoopAction::Nothing
        },
        LoopEvent::Window(WindowEventKind::Resized { width, height }) => if follow_resize {
            LoopAction::Resize { width, height }
        } else {
            LoopAction::Nothing
        },
        LoopEvent::Window(WindowEventKind::Other) => LoopAction::Nothing,
        LoopEvent::MainEventsCleared => LoopAction::RequestRedraw,
        LoopEvent::RedrawRequested => LoopAction::UpdateAndRender,
        LoopEvent::Other => LoopAction::Nothing,
    }
}

/// The loop quits on a close request, and on Escape only where the
/// application quits on it; no other event ends it.
pub proof fn lemma_exit_only_when_asked(event: LoopEvent, exit_on_escape: bool, follow_resize: bool)
    ensures
        loop_action_spec(event, exit_on_escape, follow_resize) == LoopAction::Exit <==> (event
            == LoopEvent::Window(WindowEventKind::CloseRequested) || (exit_on_escape && event
            == LoopEvent::Window(WindowEventKind::EscapePressed))),
{
}

} // verus!
