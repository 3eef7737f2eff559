//! The frame loop driver: what the loop does with each event of the window.

use crate::app::{App, Orchestrator, RenderError};
use crate::graphics::swap_chain::PhysicalSize;
use vstd::prelude::*;

verus! {

/// Whether the event loop goes on.
#[derive(Clone, Copy, Debug, PartialEq, Eq, Structural)]
pub enum ControlFlow {
    /// Start the next iteration right away.
    Poll,
    /// Stop the loop.
    Exit,
}

/// An event of one window.
#[derive(Clone, Copy, Debug, PartialEq, Eq, Structural)]
pub enum WindowEvent {
    CloseRequested,
    Resized(PhysicalSize),
    ScaleFactorChanged { new_inner_size: PhysicalSize },
    /// Any other event of a window.
    Other,
}

/// An event of the loop.
#[derive(Clone, Copy, Debug, PartialEq, Eq, Structural)]
pub enum Event {
    /// A window asks to be drawn.
    RedrawRequested,
    /// Every event of this iteration has been delivered.
    MainEventsCleared,
    /// An event of a window, which is the game's window or another one.
    WindowEvent { own_window: bool, event: WindowEvent },
    /// Any other event of the loop.
    Other,
}

/// What the shell is to do after an event.
#[derive(Clone, Copy, Debug, PartialEq, Eq, Structural)]
pub enum LoopAction {
    Nothing,
    /// Ask the window for a redraw.
    RequestRedraw,
    /// Render one frame, then report its result with
    /// [`GameWindow::frame_finished`].
    Render,
}

/// The size that an event reports for the game's window, if it reports one.
pub open spec fn spec_reported_size(event: Event) -> Option<PhysicalSize> {
    match event {
        Event::WindowEvent { own_window: true, event: WindowEvent::Resized(size) } => Some(size),
        Event::WindowEvent {
            own_window: true,
            event: WindowEvent::ScaleFactorChanged { new_inner_size },
        } => Some(new_inner_size),
        _ => None,
    }
}

/// What the shell is to do after an event: draw when a redraw is asked for,
/// and ask for a redraw when the events of the iteration are through.
pub open spec fn spec_action(event: Event) -> LoopAction {
    match event {
        Event::RedrawRequested => LoopAction::Render,
        Event::MainEventsCleared => LoopAction::RequestRedraw,
        _ => LoopAction::Nothing,
    }
}

/// The control flow after an event. Once the loop is set to exit, it stays
/// so. Otherwise only the request to close the game's window stops it.
pub open spec fn spec_flow_after(flow: ControlFlow, event: Event) -> ControlFlow {
    if flow is Exit {
        ControlFlow::Exit
    } else {
        match event {
            Event::WindowEvent { own_window: true, event: WindowEvent::CloseRequested } =>
                ControlFlow::Exit,
            _ => ControlFlow::Poll,
        }
    }
}

/// The control flow after a frame: running out of memory stops the loop.
pub open spec fn spec_flow_after_frame(
    flow: ControlFlow,
    result: Result<(), RenderError>,
) -> ControlFlow {
    if flow is Exit || result == Err::<(), RenderError>(RenderError::OutOfMemory) {
        ControlFlow::Exit
    } else {
        ControlFlow::Poll
    }
}

/// The error of a frame that is worth a line in the log: a timeout. A stale
/// chain is taken care of at the next frame, and running out of memory
/// stops the loop.
pub open spec fn spec_report(result: Result<(), RenderError>) -> Option<RenderError> {
    match result {
        Err(RenderError::Timeout) => Some(RenderError::Timeout),
        _ => None,
    }
}

/// The orchestrator after an event: a size that is reported for the game's
/// window is passed on, and nothing else is.
pub open spec fn spec_app_after(app: Orchestrator, event: Event) -> Orchestrator {
    match spec_reported_size(event) {
        Some(size) => app.resize(size),
        None => app,
    }
}

/// Once the loop is set to exit, no event and no frame sets it going again.
pub proof fn lemma_exit_is_final(event: Event, result: Result<(), RenderError>)
    ensures
        spec_flow_after(ControlFlow::Exit, event) is Exit,
        spec_flow_after_frame(ControlFlow::Exit, result) is Exit,
{
}

/// The game's window, as far as the loop decides about it: its title and
/// whether the loop goes on.
#[derive(Debug)]
pub struct GameWindow {
    title: String,
    control_flow: ControlFlow,
}

impl GameWindow {
    pub closed spec fn spec_title(&self) -> Seq<char> {
        self.title@
    }

    pub closed spec fn spec_control_flow(&self) -> ControlFlow {
        self.control_flow
    }

    /// A window with the given title, whose loop is running.
    pub fn new(title: &str) -> (window: GameWindow)
        ensures
            window.spec_title() == title@,
            window.spec_control_flow() is Poll,
    {
        GameWindow { title: title.to_owned(), control_flow: ControlFlow::Poll }
    }

    /// The title of the window.
    pub fn title(&self) -> (title: &str)
        ensures
            title@ == self.spec_title(),
    {
        self.title.as_str()
    }

    /// Whether the loop goes on.
    pub fn control_flow(&self) -> (flow: ControlFlow)
        ensures
            flow == self.spec_control_flow(),
    {
        self.control_flow
    }

    /// Takes in one event of the loop. A size that the game's window
    /// reports goes to the orchestrator; a request to close the window
    /// stops the loop. Returns what the shell is to do.
    pub fn run(&mut self, app: &mut App, event: Event) -> (action: LoopAction)
        requires
            old(app).wf(),
            old(app)@.phase is Idle,
        ensures
            action == spec_action(event),
            final(self).spec_control_flow() == spec_flow_after(
                old(self).spec_control_flow(),
                event,
            ),
            final(self).spec_title() == old(self).spec_title(),
            final(app).wf(),
            final(app)@ == spec_app_after(old(app)@, event),
            final(app).spec_graphic_system() == old(app).spec_graphic_system(),
            final(app).spec_vertex_buffer() == old(app).spec_vertex_buffer(),
            final(app).spec_index_buffer() == old(app).spec_index_buffer(),
    {
        if self.control_flow != ControlFlow::Exit {
            self.control_flow = ControlFlow::Poll;
        }
        match event {
            Event::RedrawRequested => LoopAction::Render,
            Event::MainEventsCleared => LoopAction::RequestRedraw,
            Event::WindowEvent { own_window, event } => {
                if own_window {
                    match event {
                        WindowEvent::CloseRequested => {
                            self.control_flow = ControlFlow::Exit;
                        },
                        WindowEvent::Resized(physical_size) => {
                            app.resize(physical_size);
                        },
                        WindowEvent::ScaleFactorChanged { new_inner_size } => {
                            app.resize(new_inner_size);
                        },
                        WindowEvent::Other => {},
                    }
                }
                LoopAction::Nothing
            },
            Event::Other => LoopAction::Nothing,
        }
    }

    /// Takes in the result of the frame that was rendered. Running out of
    /// memory stops the loop. Returns the error that is worth a line in the
    /// log, if there is one.
    pub fn frame_finished(&mut self, result: Result<(), RenderError>) -> (report: Option<RenderError>)
        ensures
            report == spec_report(result),
            final(self).spec_control_flow() == spec_flow_after_frame(
                old(self).spec_control_flow(),
                result,
            ),
            final(self).spec_title() == old(self).spec_title(),
    {
        match result {
            Ok(_) => None,
            Err(RenderError::Stale) => None,
            Err(RenderError::OutOfMemory) => {
                self.control_flow = ControlFlow::Exit;
                None
            },
            Err(RenderError::Timeout) => Some(RenderError::Timeout),
        }
    }
}

} // verus!
