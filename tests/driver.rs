use paintings::driver::{after_frame, on_event, LoopAction, LoopEvent, SurfaceError, WindowInput};

fn window(input: WindowInput, consumed: bool) -> LoopEvent {
    LoopEvent::Window { input, consumed }
}

#[test]
fn default_handling_of_window_events() {
    assert_eq!(on_event(window(WindowInput::CloseRequested, false)), LoopAction::Exit);
    assert_eq!(on_event(window(WindowInput::EscapePressed, false)), LoopAction::Exit);
    assert_eq!(on_event(window(WindowInput::Resized, false)), LoopAction::Resize);
    assert_eq!(on_event(window(WindowInput::ScaleFactorChanged, false)), LoopAction::Resize);
    assert_eq!(on_event(window(WindowInput::Other, false)), LoopAction::Nothing);
}

#[test]
fn consumed_events_get_no_default_handling() {
    assert_eq!(on_event(window(WindowInput::CloseRequested, true)), LoopAction::Nothing);
    assert_eq!(on_event(window(WindowInput::EscapePressed, true)), LoopAction::Nothing);
    assert_eq!(on_event(window(WindowInput::Resized, true)), LoopAction::Nothing);
}

#[test]
fn redraw_cycle() {
    assert_eq!(on_event(LoopEvent::RedrawRequested), LoopAction::UpdateAndRender);
    assert_eq!(on_event(LoopEvent::MainEventsCleared), LoopAction::RequestRedraw);
    assert_eq!(on_event(LoopEvent::Other), LoopAction::Nothing);
}

#[test]
fn render_results_are_classified() {
    assert_eq!(after_frame(Ok(())), LoopAction::Nothing);
    assert_eq!(after_frame(Err(SurfaceError::Lost)), LoopAction::Resize);
    assert_eq!(after_frame(Err(SurfaceError::OutOfMemory)), LoopAction::Exit);
    assert_eq!(
        after_frame(Err(SurfaceError::Timeout)),
        LoopAction::Report(SurfaceError::Timeout)
    );
    assert_eq!(
        after_frame(Err(SurfaceError::Outdated)),
        LoopAction::Report(SurfaceError::Outdated)
    );
}
