use vstd::prelude::*;

verus! {

/// Whether the event loop keeps running or has been told to exit.
#[derive(Debug, Clone, Copy, PartialEq, Eq, Structural)]
pub enum LoopFlow {
    Running,
    Exit,
}

/// The keys the loop tells apart.
#[derive(Debug, Clone, Copy, PartialEq, Eq, Structural)]
pub enum Key {
    Escape,
    Other,
}

/// A window event, reduced to what the loop decides on.
#[derive(Debug, Clone, Copy, PartialEq, Eq, Structural)]
pub enum WindowEventKind {
    CloseRequested,
    /// A keyboard event: whether the key went down, and which key it was,
    /// where the platform reports one.
    KeyboardInput { pressed: bool, key: Option<Key> },
    /// The window's inner size changed.
    Resized { width: u32, height: u32 },
    /// The scale factor changed; the new inner size proposed for the window.
    ScaleFactorChanged { width: u32, height: u32 },
    Other,
}

/// An event of the window system's event loop.
#[derive(Debug, Clone, Copy, PartialEq, Eq, Structural)]
pub enum LoopEvent {
    /// An event of a window: `ours` tells whether it is the rendered window,
    /// `consumed` whether the renderer's input handler, which is offered only
    /// the events of that window, took it.
    Window { ours: bool, consumed: bool, kind: WindowEventKind },
    /// A window asks to be redrawn.
    RedrawRequested { ours: bool },
    /// All pending events have been handled.
    MainEventsCleared,
    Other,
}

/// What the surface reported when a frame was rendered.
#[derive(Debug, Clone, Copy, PartialEq, Eq, Structural)]
pub enum RenderOutcome {
    Presented,
    Lost,
    Outdated,
    OutOfMemory,
    Timeout,
}

/// The work the loop asks of the renderer and the window.
#[derive(Debug, Clone, Copy, PartialEq, Eq, Structural)]
pub enum LoopAction {
    Nothing,
    /// Reconfigure the surface for this inner size.
    Resize { width: u32, height: u32 },
    /// Reconfigure the surface for the size the renderer already has.
    ResizeToCurrent,
    /// Update the scene, render a frame and report its outcome.
    UpdateAndRender,
    /// Ask the window for a redraw.
    RequestRedraw,
    /// Log that the surface timed out.
    WarnTimeout,
}

/// The loop's decision for an event: the next flow and the action to perform.
pub open spec fn event_step(flow: LoopFlow, event: LoopEvent) -> (LoopFlow, LoopAction) {
    match event {
        LoopEvent::Window { ours, consumed, kind } => {
            if !ours || consumed {
                (flow, LoopAction::Nothing)
            } else {
                match kind {
                    WindowEventKind::CloseRequested => (LoopFlow::Exit, LoopAction::Nothing),
                    WindowEventKind::KeyboardInput { pressed, key } => {
                        if pressed && key == Some(Key::Escape) {
                            (LoopFlow::Exit, LoopAction::Nothing)
                        } else {
                            (flow, LoopAction::Nothing)
                        }
                    },
                    WindowEventKind::Resized { width, height } => (
                        flow,
                        LoopAction::Resize { width, height },
                    ),
                    WindowEventKind::ScaleFactorChanged { width, height } => (
                        flow,
                        LoopAction::Resize { width, height },
                    ),
                    WindowEventKind::Other => (flow, LoopAction::Nothing),
                }
            }
        },
        LoopEvent::RedrawRequested { ours } => {
            if ours {
                (flow, LoopAction::UpdateAndRender)
            } else {
                (flow, LoopAction::Nothing)
            }
        },
        LoopEvent::MainEventsCleared => (flow, LoopAction::RequestRedraw),
        LoopEvent::Other => (flow, LoopAction::Nothing),
    }
}

/// The loop's decision once a frame was rendered.
pub open spec fn render_step(flow: LoopFlow, outcome: RenderOutcome) -> (LoopFlow, LoopAction) {
    match outcome {
        RenderOutcome::Presented => (flow, LoopAction::Nothing),
        RenderOutcome::Lost => (flow, LoopAction::ResizeToCurrent),
        RenderOutcome::Outdated => (flow, LoopAction::ResizeToCurrent),
        RenderOutcome::OutOfMemory => (LoopFlow::Exit, LoopAction::Nothing),
        RenderOutcome::Timeout => (flow, LoopAction::WarnTimeout),
    }
}

/// Decides what the event loop does with one event: a close request or a
/// press of Escape on the rendered window, not taken by the input handler,
/// makes the loop exit; a resize or scale change resizes the surface; a
/// redraw request of that window renders a frame; the end of a batch of
/// events asks for a redraw; anything else is ignored.
pub fn handle_event(flow: LoopFlow, event: LoopEvent) -> (step: (LoopFlow, LoopAction))
    ensures
        step == event_step(flow, event),
        event matches LoopEvent::Window { ours: true, consumed: false, kind: WindowEventKind::Resized { width, height } }
            ==> step == (flow, LoopAction::Resize { width, height }),
        event matches LoopEvent::Window { ours: true, consumed: false, kind: WindowEventKind::ScaleFactorChanged { width, height } }
            ==> step == (flow, LoopAction::Resize { width, height }),
{
    proof {
        lemma_event_decisions(flow, event);
    }
    match event {
        LoopEvent::Window { ours, consumed, kind } => {
            if !ours || consumed {
                return (flow, LoopAction::Nothing);
            }
            match kind {
                WindowEventKind::CloseRequested => (LoopFlow::Exit, LoopAction::Nothing),
                WindowEventKind::KeyboardInput { pressed, key } => {
                    let escape = match key {
                        Some(Key::Escape) => true,
                        _ => false,
                    };
                    if pressed && escape {
                        (LoopFlow::Exit, LoopAction::Nothing)
                    } else {
                        (flow, LoopAction::Nothing)
                    }
                },
                WindowEventKind::Resized { width, height } => (
                    flow,
                    LoopAction::Resize { width, height },
                ),
                WindowEventKind::ScaleFactorChanged { width, height } => (
                    flow,
                    LoopAction::Resize { width, height },
                ),
                WindowEventKind::Other => (flow, LoopAction::Nothing),
            }
        },
        LoopEvent::RedrawRequested { ours } => {
            if ours {
                (flow, LoopAction::UpdateAndRender)
            } else {
                (flow, LoopAction::Nothing)
            }
        },
        LoopEvent::MainEventsCleared => (flow, LoopAction::RequestRedraw),
        LoopEvent::Other => (flow, LoopAction::Nothing),
    }
}

/// Decides what the loop does after rendering a frame: a lost or outdated
/// surface is reconfigured at the current size, running out of memory makes
/// the loop exit, a timeout is logged, and a presented frame needs nothing.
pub fn handle_render_outcome(flow: LoopFlow, outcome: RenderOutcome) -> (step: (
    LoopFlow,
    LoopAction,
))
    ensures
        step == render_step(flow, outcome),
        outcome == RenderOutcome::OutOfMemory ==> step == (LoopFlow::Exit, LoopAction::Nothing),
        outcome != RenderOutcome::OutOfMemory ==> step.0 == flow,
{
    proof {
        lemma_render_decisions(flow, outcome);
    }
    match outcome {
        RenderOutcome::Presented => (flow, LoopAction::Nothing),
        RenderOutcome::Lost => (flow, LoopAction::ResizeToCurrent),
        RenderOutcome::Outdated => (flow, LoopAction::ResizeToCurrent),
        RenderOutcome::OutOfMemory => (LoopFlow::Exit, LoopAction::Nothing),
        RenderOutcome::Timeout => (flow, LoopAction::WarnTimeout),
    }
}

/// Exiting is final: once the loop has been told to exit, no event and no
/// render outcome makes it run again.
pub proof fn lemma_exit_is_final(event: LoopEvent, outcome: RenderOutcome)
    ensures
        event_step(LoopFlow::Exit, event).0 == LoopFlow::Exit,
        render_step(LoopFlow::Exit, outcome).0 == LoopFlow::Exit,
{
}

/// Events of other windows, and events the input handler took, change
/// nothing: the flow stays and no action follows.
pub proof fn lemma_foreign_or_consumed_events_ignored(
    flow: LoopFlow,
    ours: bool,
    consumed: bool,
    kind: WindowEventKind,
)
    requires
        !ours || consumed,
    ensures
        event_step(flow, LoopEvent::Window { ours, consumed, kind }) == (flow, LoopAction::Nothing),
        !ours ==> event_step(flow, LoopEvent::RedrawRequested { ours }) == (
            flow,
            LoopAction::Nothing,
        ),
{
}

/// Only a close request, a press of Escape, or running out of memory ends
/// the loop: a running loop exits after an event or outcome exactly when one
/// of these occurred on the rendered window and was not taken by the input handler.
pub proof fn lemma_exit_causes(event: LoopEvent, outcome: RenderOutcome)
    ensures
        event_step(LoopFlow::Running, event).0 == LoopFlow::Exit <==> (event matches LoopEvent::Window {
            ours: true,
            consumed: false,
            kind,
        } && (kind == WindowEventKind::CloseRequested || kind == WindowEventKind::KeyboardInput {
            pressed: true,
            key: Some(Key::Escape),
        })),
        render_step(LoopFlow::Running, outcome).0 == LoopFlow::Exit <==> outcome
            == RenderOutcome::OutOfMemory,
{
}

/// What each event of the rendered window, not taken by the input handler,
/// leads to: a resize or scale change resizes the surface to exactly the
/// reported size and keeps the flow; a close request or a press of Escape
/// exits with no further action; other keys and other window events change
/// nothing; a redraw of the rendered window renders a frame; the end of a
/// batch of events asks for a redraw; unrelated events change nothing.
pub proof fn lemma_event_decisions(flow: LoopFlow, event: LoopEvent)
    ensures
        event matches LoopEvent::Window { ours: true, consumed: false, kind: WindowEventKind::Resized { width, height } }
            ==> event_step(flow, event) == (flow, LoopAction::Resize { width, height }),
        event matches LoopEvent::Window { ours: true, consumed: false, kind: WindowEventKind::ScaleFactorChanged { width, height } }
            ==> event_step(flow, event) == (flow, LoopAction::Resize { width, height }),
        event == (LoopEvent::Window {
            ours: true,
            consumed: false,
            kind: WindowEventKind::CloseRequested,
        }) ==> event_step(flow, event) == (LoopFlow::Exit, LoopAction::Nothing),
        event matches LoopEvent::Window { ours: true, consumed: false, kind: WindowEventKind::KeyboardInput { pressed, key } }
            ==> event_step(flow, event) == (if pressed && key == Some(Key::Escape) {
            (LoopFlow::Exit, LoopAction::Nothing)
        } else {
            (flow, LoopAction::Nothing)
        }),
        event == (LoopEvent::Window { ours: true, consumed: false, kind: WindowEventKind::Other })
            ==> event_step(flow, event) == (flow, LoopAction::Nothing),
        event == (LoopEvent::RedrawRequested { ours: true }) ==> event_step(flow, event) == (
            flow,
            LoopAction::UpdateAndRender,
        ),
        event == LoopEvent::MainEventsCleared ==> event_step(flow, event) == (
            flow,
            LoopAction::RequestRedraw,
        ),
        event == LoopEvent::Other ==> event_step(flow, event) == (flow, LoopAction::Nothing),
{
}

/// A resize of the rendered window, not taken by the input handler, resizes
/// the surface to exactly the reported size, for every size; so does a scale
/// change, to the proposed inner size.
pub proof fn lemma_resize_is_exact(flow: LoopFlow, width: u32, height: u32)
    ensures
        event_step(
            flow,
            LoopEvent::Window {
                ours: true,
                consumed: false,
                kind: WindowEventKind::Resized { width, height },
            },
        ) == (flow, LoopAction::Resize { width, height }),
        event_step(
            flow,
            LoopEvent::Window {
                ours: true,
                consumed: false,
                kind: WindowEventKind::ScaleFactorChanged { width, height },
            },
        ) == (flow, LoopAction::Resize { width, height }),
{
}

/// What each render outcome leads to: a presented frame needs nothing, a
/// lost or outdated surface is reconfigured at the current size, running out
/// of memory exits, a timeout is logged; only running out of memory changes
/// the flow.
pub proof fn lemma_render_decisions(flow: LoopFlow, outcome: RenderOutcome)
    ensures
        outcome == RenderOutcome::Presented ==> render_step(flow, outcome) == (
            flow,
            LoopAction::Nothing,
        ),
        (outcome == RenderOutcome::Lost || outcome == RenderOutcome::Outdated) ==> render_step(
            flow,
            outcome,
        ) == (flow, LoopAction::ResizeToCurrent),
        outcome == RenderOutcome::OutOfMemory ==> render_step(flow, outcome) == (
            LoopFlow::Exit,
            LoopAction::Nothing,
        ),
        outcome == RenderOutcome::Timeout ==> render_step(flow, outcome) == (
            flow,
            LoopAction::WarnTimeout,
        ),
{
}

} // verus!
