use vstd::prelude::*;

verus! {

/// Why acquiring the next surface image failed.
#[derive(Clone, Copy, Debug, PartialEq, Eq, Structural)]
pub enum SurfaceError {
    /// Acquiring took too long; the next frame tries again.
    Timeout,
    /// The surface changed under the image; the next frame tries again.
    Outdated,
    /// The surface was lost and must be configured anew.
    Lost,
    /// There is no memory left to go on with.
    OutOfMemory,
}

/// A window event as the driver loop sees it, once the application state has
/// had it (`consumed`: the application handled it and wants no default).
#[derive(Clone, Copy, Debug, PartialEq, Eq, Structural)]
pub enum WindowInput {
    CloseRequested,
    EscapePressed,
    Resized,
    ScaleFactorChanged,
    Other,
}

/// What the driver loop is handed.
#[derive(Clone, Copy, Debug, PartialEq, Eq, Structural)]
pub enum LoopEvent {
    /// An event of the application's window.
    Window { input: WindowInput, consumed: bool },
    /// The window asks to be drawn.
    RedrawRequested,
    /// Every event of this round has been delivered.
    MainEventsCleared,
    /// Anything else, events of other windows included.
    Other,
}

/// What the driver loop does next.
#[derive(Clone, Copy, Debug, PartialEq, Eq, Structural)]
pub enum LoopAction {
    /// Leave the loop.
    Exit,
    /// Take the window's current size (`Renderer::resize`) and reconfigure.
    Resize,
    /// Update the application state, then render one frame.
    UpdateAndRender,
    /// Ask the window for a redraw.
    RequestRedraw,
    /// Do nothing.
    Nothing,
    /// Report the error and render again next frame.
    Report(SurfaceError),
}

/// The default handling of an event: a close request or Escape ends the loop,
/// a resize or a change of scale factor resizes, a redraw request updates and
/// renders, the end of a round asks for a redraw. An event the application
/// consumed gets no default handling.
pub fn on_event(event: LoopEvent) -> (a: LoopAction)
    ensures
        a == match event {
            LoopEvent::Window { input, consumed } => if consumed {
                LoopAction::Nothing
            } else {
                match input {
                    WindowInput::CloseRequested | WindowInput::EscapePressed => LoopAction::Exit,
                    WindowInput::Resized | WindowInput::ScaleFactorChanged => LoopAction::Resize,
                    WindowInput::Other => LoopAction::Nothing,
                }
            },
            LoopEvent::RedrawRequested => LoopAction::UpdateAndRender,
            LoopEvent::MainEventsCleared => LoopAction::RequestRedraw,
            LoopEvent::Other => LoopAction::Nothing,
        },
{
    match event {
        LoopEvent::Window { input, consumed } => {
            if consumed {
                LoopAction::Nothing
            } else {
                match input {
                    WindowInput::CloseRequested | WindowInput::EscapePressed => LoopAction::Exit,
                    WindowInput::Resized | WindowInput::ScaleFactorChanged => LoopAction::Resize,
                    WindowInput::Other => LoopAction::Nothing,
                }
            }
        },
        LoopEvent::RedrawRequested => LoopAction::UpdateAndRender,
        LoopEvent::MainEventsCleared => LoopAction::RequestRedraw,
        LoopEvent::Other => LoopAction::Nothing,
    }
}

/// What follows a rendered frame: nothing after success; a lost surface is
/// configured anew at the window's size; out of memory ends the loop; a
/// timeout or an outdated surface is reported and the next frame tries again.
pub fn after_frame(result: Result<(), SurfaceError>) -> (a: LoopAction)
    ensures
        result is Ok ==> a == LoopAction::Nothing,
        result == Err::<(), SurfaceError>(SurfaceError::Lost) ==> a == LoopAction::Resize,
        result == Err::<(), SurfaceError>(SurfaceError::OutOfMemory) ==> a == LoopAction::Exit,
        result == Err::<(), SurfaceError>(SurfaceError::Timeout) ==> a == LoopAction::Report(
            SurfaceError::Timeout,
        ),
        result == Err::<(), SurfaceError>(SurfaceError::Outdated) ==> a == LoopAction::Report(
            SurfaceError::Outdated,
        ),
{
    match result {
        Ok(()) => LoopAction::Nothing,
        Err(SurfaceError::Lost) => LoopAction::Resize,
        Err(SurfaceError::OutOfMemory) => LoopAction::Exit,
        Err(e) => LoopAction::Report(e),
    }
}

} // verus!
