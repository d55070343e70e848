//! The decisions of the window event loops: what each window event leads to.
use vstd::prelude::*;

verus! {

/// A key as the loop tells keys apart: Escape, or any other (or unknown) key.
#[derive(Clone, Copy, Debug, PartialEq, Eq, Structural)]
pub enum Key {
    Escape,
    Other,
}

/// A window-system event, as much of it as the loops look at.
#[derive(Clone, Copy, Debug, PartialEq, Eq, Structural)]
pub enum LoopEvent {
    /// The user asked to close a window; `own_window` tells whether it is the
    /// application's window.
    CloseRequested { own_window: bool },
    /// A key was pressed or released.
    KeyboardInput { key: Key, pressed: bool },
    /// Every pending event has been handled.
    MainEventsCleared,
    /// A window must be redrawn.
    RedrawRequested,
    /// Anything else.
    Other,
}

/// What the loop does next.
#[derive(Clone, Copy, Debug, PartialEq, Eq, Structural)]
pub enum LoopAction {
    Exit,
    RequestRedraw,
    Draw,
    Continue,
}

/// The renderer application.
pub struct VulkanApp {}

/// The renderer application's loop: a close request or a press of Escape ends
/// it, a redraw is requested once all events are handled, and a frame is drawn
/// on each redraw.
pub open spec fn app_action(event: LoopEvent) -> LoopAction {
    match event {
        LoopEvent::CloseRequested { .. } => LoopAction::Exit,
        LoopEvent::KeyboardInput { key, pressed } => if key == Key::Escape && pressed {
            LoopAction::Exit
        } else {
            LoopAction::Continue
        },
        LoopEvent::MainEventsCleared => LoopAction::RequestRedraw,
        LoopEvent::RedrawRequested => LoopAction::Draw,
        LoopEvent::Other => LoopAction::Continue,
    }
}

/// The example window's loop: it waits for events, ends when its own window is
/// asked to close, and requests a redraw once all events are handled.
pub open spec fn example_action(event: LoopEvent) -> LoopAction {
    match event {
        LoopEvent::CloseRequested { own_window } => if own_window {
            LoopAction::Exit
        } else {
            LoopAction::Continue
        },
        LoopEvent::MainEventsCleared => LoopAction::RequestRedraw,
        _ => LoopAction::Continue,
    }
}

impl VulkanApp {
    /// What the renderer application does on `event`.
    pub fn handle_event(event: &LoopEvent) -> (r: LoopAction)
        ensures
            r == app_action(*event),
            (r == LoopAction::Exit) == (event is CloseRequested || *event == (LoopEvent::KeyboardInput {
                key: Key::Escape,
                pressed: true,
            })),
            (r == LoopAction::Draw) == (event is RedrawRequested),
            (r == LoopAction::RequestRedraw) == (event is MainEventsCleared),
    {
        match event {
            LoopEvent::CloseRequested { .. } => LoopAction::Exit,
            LoopEvent::KeyboardInput { key, pressed } => {
                if *pressed && match key {
                    Key::Escape => true,
                    Key::Other => false,
                } {
                    LoopAction::Exit
                } else {
                    LoopAction::Continue
                }
            },
            LoopEvent::MainEventsCleared => LoopAction::RequestRedraw,
            LoopEvent::RedrawRequested => LoopAction::Draw,
            LoopEvent::Other => LoopAction::Continue,
        }
    }
}

/// What the example window does on `event`.
pub fn example_window_action(event: &LoopEvent) -> (r: LoopAction)
    ensures
        r == example_action(*event),
        (r == LoopAction::Exit) == (*event == (LoopEvent::CloseRequested { own_window: true })),
        (r == LoopAction::RequestRedraw) == (event is MainEventsCleared),
        r != LoopAction::Draw,
{
    match event {
        LoopEvent::CloseRequested { own_window } => {
            if *own_window {
                LoopAction::Exit
            } else {
                LoopAction::Continue
            }
        },
        LoopEvent::MainEventsCleared => LoopAction::RequestRedraw,
        _ => LoopAction::Continue,
    }
}

/// The application ends only when asked to close or when Escape is pressed,
/// and draws only on a redraw request.
pub proof fn lemma_app_exits_only_on_request(event: LoopEvent)
    ensures
        app_action(event) == LoopAction::Exit <==> (event is CloseRequested || event
            == (LoopEvent::KeyboardInput { key: Key::Escape, pressed: true })),
        app_action(event) == LoopAction::Draw <==> event is RedrawRequested,
{
}

/// The example window never ends for another window's close request.
pub proof fn lemma_example_exits_only_for_own_window(event: LoopEvent)
    ensures
        example_action(event) == LoopAction::Exit <==> event == (LoopEvent::CloseRequested {
            own_window: true,
        }),
{
}

} // verus!
