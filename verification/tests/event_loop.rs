use gpuwu::{
    handle_event, handle_render_outcome, Key, LoopAction, LoopEvent, LoopFlow, RenderOutcome,
    WindowEventKind,
};

fn ours(kind: WindowEventKind) -> LoopEvent {
    LoopEvent::Window { ours: true, consumed: false, kind }
}

#[test]
fn close_request_exits() {
    assert_eq!(
        handle_event(LoopFlow::Running, ours(WindowEventKind::CloseRequested)),
        (LoopFlow::Exit, LoopAction::Nothing)
    );
}

#[test]
fn escape_press_exits_release_does_not() {
    let press = WindowEventKind::KeyboardInput { pressed: true, key: Some(Key::Escape) };
    let release = WindowEventKind::KeyboardInput { pressed: false, key: Some(Key::Escape) };
    let other = WindowEventKind::KeyboardInput { pressed: true, key: Some(Key::Other) };
    let unknown = WindowEventKind::KeyboardInput { pressed: true, key: None };
    assert_eq!(handle_event(LoopFlow::Running, ours(press)), (LoopFlow::Exit, LoopAction::Nothing));
    assert_eq!(
        handle_event(LoopFlow::Running, ours(release)),
        (LoopFlow::Running, LoopAction::Nothing)
    );
    assert_eq!(
        handle_event(LoopFlow::Running, ours(other)),
        (LoopFlow::Running, LoopAction::Nothing)
    );
    assert_eq!(
        handle_event(LoopFlow::Running, ours(unknown)),
        (LoopFlow::Running, LoopAction::Nothing)
    );
}

#[test]
fn resize_and_scale_change_resize_surface() {
    assert_eq!(
        handle_event(LoopFlow::Running, ours(WindowEventKind::Resized { width: 800, height: 600 })),
        (LoopFlow::Running, LoopAction::Resize { width: 800, height: 600 })
    );
    assert_eq!(
        handle_event(
            LoopFlow::Running,
            ours(WindowEventKind::ScaleFactorChanged { width: 1600, height: 1200 })
        ),
        (LoopFlow::Running, LoopAction::Resize { width: 1600, height: 1200 })
    );
}

#[test]
fn consumed_or_foreign_window_events_are_ignored() {
    let consumed = LoopEvent::Window {
        ours: true,
        consumed: true,
        kind: WindowEventKind::CloseRequested,
    };
    let foreign = LoopEvent::Window {
        ours: false,
        consumed: false,
        kind: WindowEventKind::Resized { width: 1, height: 1 },
    };
    assert_eq!(handle_event(LoopFlow::Running, consumed), (LoopFlow::Running, LoopAction::Nothing));
    assert_eq!(handle_event(LoopFlow::Running, foreign), (LoopFlow::Running, LoopAction::Nothing));
    assert_eq!(
        handle_event(LoopFlow::Running, ours(WindowEventKind::Other)),
        (LoopFlow::Running, LoopAction::Nothing)
    );
}

#[test]
fn redraw_and_main_events_cleared() {
    assert_eq!(
        handle_event(LoopFlow::Running, LoopEvent::RedrawRequested { ours: true }),
        (LoopFlow::Running, LoopAction::UpdateAndRender)
    );
    assert_eq!(
        handle_event(LoopFlow::Running, LoopEvent::RedrawRequested { ours: false }),
        (LoopFlow::Running, LoopAction::Nothing)
    );
    assert_eq!(
        handle_event(LoopFlow::Running, LoopEvent::MainEventsCleared),
        (LoopFlow::Running, LoopAction::RequestRedraw)
    );
    assert_eq!(
        handle_event(LoopFlow::Running, LoopEvent::Other),
        (LoopFlow::Running, LoopAction::Nothing)
    );
}

#[test]
fn render_outcomes() {
    assert_eq!(
        handle_render_outcome(LoopFlow::Running, RenderOutcome::Presented),
        (LoopFlow::Running, LoopAction::Nothing)
    );
    assert_eq!(
        handle_render_outcome(LoopFlow::Running, RenderOutcome::Lost),
        (LoopFlow::Running, LoopAction::ResizeToCurrent)
    );
    assert_eq!(
        handle_render_outcome(LoopFlow::Running, RenderOutcome::Outdated),
        (LoopFlow::Running, LoopAction::ResizeToCurrent)
    );
    assert_eq!(
        handle_render_outcome(LoopFlow::Running, RenderOutcome::OutOfMemory),
        (LoopFlow::Exit, LoopAction::Nothing)
    );
    assert_eq!(
        handle_render_outcome(LoopFlow::Running, RenderOutcome::Timeout),
        (LoopFlow::Running, LoopAction::WarnTimeout)
    );
}

#[test]
fn exit_is_final() {
    let events = [
        ours(WindowEventKind::CloseRequested),
        ours(WindowEventKind::Resized { width: 3, height: 4 }),
        LoopEvent::RedrawRequested { ours: true },
        LoopEvent::MainEventsCleared,
        LoopEvent::Other,
    ];
    for e in events {
        assert_eq!(handle_event(LoopFlow::Exit, e).0, LoopFlow::Exit);
    }
    for o in [
        RenderOutcome::Presented,
        RenderOutcome::Lost,
        RenderOutcome::Outdated,
        RenderOutcome::OutOfMemory,
        RenderOutcome::Timeout,
    ] {
        assert_eq!(handle_render_outcome(LoopFlow::Exit, o).0, LoopFlow::Exit);
    }
}
