//! The render orchestrator: one frame is rendered in a few steps, and
//! between two steps the shell does the GPU work that the last step asked
//! for.

use crate::graphics::device::CommandBuffer;
use crate::graphics::graphic_system::{spec_frame_commands, GraphicSystem};
use crate::graphics::pipeline::Pipeline;
use crate::graphics::swap_chain::{
    AcquireError, Frame, PhysicalSize, SwapChainError, Swapchain, SwapchainDescriptor,
};
use crate::graphics::vertex::Buffer;
use vstd::prelude::*;

verus! {

/// Where the orchestrator stands between two frames.
#[derive(Clone, Copy, Debug, PartialEq, Eq, Structural)]
pub enum RenderState {
    /// The chain matches the surface.
    Ready,
    /// A new chain is due: the surface has changed since the last frame that
    /// was rendered, or the chain was found stale.
    Resizing,
    /// Memory ran out. Nothing is rendered any more.
    Fatal,
}

/// How far the frame that is being rendered has come.
#[derive(Clone, Copy, Debug, PartialEq, Eq, Structural)]
pub enum RenderPhase {
    /// No frame is being rendered.
    Idle,
    /// The shell is making the new chain.
    Rebuilding,
    /// The shell is asking the chain for an image.
    Acquiring,
    /// The shell is executing and submitting the recorded commands.
    Submitting,
}

/// Why the queue did not take a submission.
#[derive(Clone, Copy, Debug, PartialEq, Eq, Structural)]
pub enum SubmitError {
    OutOfMemory,
}

/// Why no frame was rendered.
#[derive(Clone, Copy, Debug, PartialEq, Eq, Structural)]
pub enum RenderError {
    /// The chain was stale, and so was the one that was made in its place.
    /// A new one is made at the next frame.
    Stale,
    /// Memory ran out, now or at an earlier frame.
    OutOfMemory,
    /// No image became free in time.
    Timeout,
}

/// What the shell reports to the orchestrator.
#[derive(Clone, Copy, Debug, PartialEq, Eq)]
pub enum RenderEvent {
    /// A frame is due.
    Tick,
    /// The chain that was asked for has been made.
    SwapchainRebuilt,
    /// The chain was asked for an image, with this outcome.
    FrameAcquired(Result<(), SwapChainError>),
    /// The commands were handed to the queue, with this outcome.
    Submitted(Result<(), SubmitError>),
}

/// What the orchestrator asks of the shell, without what is to be
/// submitted.
#[derive(Clone, Copy, Debug, PartialEq, Eq)]
pub enum ActionKind {
    RebuildSwapchain(SwapchainDescriptor),
    AcquireFrame,
    Submit,
    Finish(Result<(), RenderError>),
}

/// What the orchestrator asks of the shell.
#[derive(Debug)]
pub enum RenderAction {
    /// Make a chain with this descriptor in the place of the present one,
    /// then report `SwapchainRebuilt`. No frame of the present chain is out.
    RebuildSwapchain(SwapchainDescriptor),
    /// Ask the chain for the next image, then report `FrameAcquired`.
    AcquireFrame,
    /// Execute the command buffers on the acquired image with the given
    /// pipeline, hand them to the queue in their order, let the image go,
    /// then report `Submitted`.
    Submit { pipeline: Pipeline, command_buffers: Vec<CommandBuffer> },
    /// The frame is over, with this result. No GPU work is asked for.
    Finish(Result<(), RenderError>),
}

impl RenderAction {
    pub open spec fn kind(&self) -> ActionKind {
        match *self {
            RenderAction::RebuildSwapchain(desc) => ActionKind::RebuildSwapchain(desc),
            RenderAction::AcquireFrame => ActionKind::AcquireFrame,
            RenderAction::Submit { .. } => ActionKind::Submit,
            RenderAction::Finish(result) => ActionKind::Finish(result),
        }
    }
}

/// The state of the orchestrator, as far as its decisions depend on it.
pub struct Orchestrator {
    pub state: RenderState,
    pub phase: RenderPhase,
    /// The size of the surface, as the window last reported it.
    pub size: PhysicalSize,
    /// The size that the present chain was made with.
    pub chain: PhysicalSize,
    /// Whether the frame in progress has already made a new chain.
    pub rebuilt: bool,
}

/// The GPU work of one frame, counted.
pub struct FrameWork {
    pub rebuilds: nat,
    pub acquisitions: nat,
    pub submissions: nat,
}

impl Orchestrator {
    /// What holds between any two steps. A frame is in progress only while
    /// the state is not fatal and the surface can be presented to. A ready
    /// orchestrator whose surface can be presented to has a chain of the
    /// surface's size, and so has one that is acquiring or submitting. A
    /// new chain is made only while the state is resizing, and at most once
    /// in a frame.
    pub open spec fn wf(self) -> bool {
        &&& self.chain.presentable()
        &&& self.phase !is Idle ==> self.state !is Fatal && self.size.presentable()
        &&& self.phase is Idle ==> !self.rebuilt
        &&& self.phase is Rebuilding ==> self.state is Resizing && !self.rebuilt
        &&& self.rebuilt ==> self.state is Resizing
        &&& self.phase is Acquiring || self.phase is Submitting ==> self.chain == self.size
        &&& self.state is Ready && self.size.presentable() ==> self.chain == self.size
    }

    /// The events that can follow: a tick when no frame is in progress, and
    /// otherwise the report of what was last asked for.
    pub open spec fn expects(self, event: RenderEvent) -> bool {
        match event {
            RenderEvent::Tick => self.phase is Idle,
            RenderEvent::SwapchainRebuilt => self.phase is Rebuilding,
            RenderEvent::FrameAcquired(_) => self.phase is Acquiring,
            RenderEvent::Submitted(_) => self.phase is Submitting,
        }
    }

    /// The orchestrator after the window has reported a new size. The size
    /// is recorded. A size that can be presented to makes the chain due for
    /// rebuilding, unless the state is fatal; a size with a zero dimension
    /// changes nothing else.
    pub open spec fn resize(self, new_size: PhysicalSize) -> Orchestrator {
        Orchestrator {
            state: if self.state !is Fatal && new_size.presentable() {
                RenderState::Resizing
            } else {
                self.state
            },
            size: new_size,
            ..self
        }
    }

    /// One step: the orchestrator after `event`, and what it asks for.
    ///
    /// A tick ends the frame at once in the fatal state, with an error, and
    /// on a surface with a zero dimension, with success; otherwise it asks
    /// for a new chain if one is due, and else for an image. A new chain is
    /// followed by asking for an image. An image is followed by the
    /// submission. Without an image the frame ends with the reason, except
    /// that a stale chain is first replaced and asked again, once in a
    /// frame; a stale chain makes a new chain due, and running out of memory
    /// is fatal. A submission ends the frame: the orchestrator is ready if
    /// the queue took it and in the fatal state if memory ran out.
    pub open spec fn step(self, event: RenderEvent) -> (Orchestrator, ActionKind) {
        match event {
            RenderEvent::Tick => {
                if self.state is Fatal {
                    (self, ActionKind::Finish(Err(RenderError::OutOfMemory)))
                } else if !self.size.presentable() {
                    (self, ActionKind::Finish(Ok(())))
                } else if self.state is Resizing {
                    (
                        Orchestrator { phase: RenderPhase::Rebuilding, ..self },
                        ActionKind::RebuildSwapchain(
                            Swapchain::spec_descriptor(self.size.width, self.size.height),
                        ),
                    )
                } else {
                    (Orchestrator { phase: RenderPhase::Acquiring, ..self }, ActionKind::AcquireFrame)
                }
            },
            RenderEvent::SwapchainRebuilt => (
                Orchestrator {
                    phase: RenderPhase::Acquiring,
                    chain: self.size,
                    rebuilt: true,
                    ..self
                },
                ActionKind::AcquireFrame,
            ),
            RenderEvent::FrameAcquired(Ok(_)) => (
                Orchestrator { phase: RenderPhase::Submitting, ..self },
                ActionKind::Submit,
            ),
            RenderEvent::FrameAcquired(Err(status)) => {
                match AcquireError::spec_from_status(status) {
                    AcquireError::Stale => if self.rebuilt {
                        (
                            Orchestrator {
                                phase: RenderPhase::Idle,
                                state: RenderState::Resizing,
                                rebuilt: false,
                                ..self
                            },
                            ActionKind::Finish(Err(RenderError::Stale)),
                        )
                    } else {
                        (
                            Orchestrator {
                                phase: RenderPhase::Rebuilding,
                                state: RenderState::Resizing,
                                ..self
                            },
                            ActionKind::RebuildSwapchain(
                                Swapchain::spec_descriptor(self.size.width, self.size.height),
                            ),
                        )
                    },
                    AcquireError::OutOfMemory => (
                        Orchestrator {
                            phase: RenderPhase::Idle,
                            state: RenderState::Fatal,
                            rebuilt: false,
                            ..self
                        },
                        ActionKind::Finish(Err(RenderError::OutOfMemory)),
                    ),
                    AcquireError::Timeout => (
                        Orchestrator { phase: RenderPhase::Idle, rebuilt: false, ..self },
                        ActionKind::Finish(Err(RenderError::Timeout)),
                    ),
                }
            },
            RenderEvent::Submitted(Ok(_)) => (
                Orchestrator {
                    phase: RenderPhase::Idle,
                    state: RenderState::Ready,
                    rebuilt: false,
                    ..self
                },
                ActionKind::Finish(Ok(())),
            ),
            RenderEvent::Submitted(Err(_)) => (
                Orchestrator {
                    phase: RenderPhase::Idle,
                    state: RenderState::Fatal,
                    rebuilt: false,
                    ..self
                },
                ActionKind::Finish(Err(RenderError::OutOfMemory)),
            ),
        }
    }

    /// The rest of a frame from the point where the chain is asked for an
    /// image for the last time: the chain answers `acquired`, and the queue
    /// answers `submitted` if it is handed commands. `work` is the GPU work
    /// that was asked for before.
    pub open spec fn finish_frame(
        self,
        acquired: Result<(), SwapChainError>,
        submitted: Result<(), SubmitError>,
        work: FrameWork,
    ) -> (Orchestrator, Result<(), RenderError>, FrameWork) {
        let (answered, action) = self.step(RenderEvent::FrameAcquired(acquired));
        let asked = FrameWork { acquisitions: work.acquisitions + 1, ..work };
        match action {
            ActionKind::Submit => {
                let (done, last) = answered.step(RenderEvent::Submitted(submitted));
                (
                    done,
                    match last {
                        ActionKind::Finish(result) => result,
                        _ => Ok(()),
                    },
                    FrameWork { submissions: asked.submissions + 1, ..asked },
                )
            },
            ActionKind::Finish(result) => (answered, result, asked),
            _ => (answered, Err(RenderError::Stale), asked),
        }
    }

    /// One whole frame, from the tick to the step that finishes it: the
    /// orchestrator afterwards, the result of the frame, and the GPU work
    /// that was asked for on the way. The chain answers `first` when it is
    /// asked for an image, and `retry` when it is asked a second time; the
    /// queue answers `submitted` when it is handed commands.
    pub open spec fn frame(
        self,
        first: Result<(), SwapChainError>,
        retry: Result<(), SwapChainError>,
        submitted: Result<(), SubmitError>,
    ) -> (Orchestrator, Result<(), RenderError>, FrameWork) {
        let none = FrameWork { rebuilds: 0, acquisitions: 0, submissions: 0 };
        let (ticked, start) = self.step(RenderEvent::Tick);
        match start {
            ActionKind::Finish(result) => (ticked, result, none),
            ActionKind::RebuildSwapchain(_) => ticked.step(
                RenderEvent::SwapchainRebuilt,
            ).0.finish_frame(first, submitted, FrameWork { rebuilds: 1, ..none }),
            _ => {
                let (answered, action) = ticked.step(RenderEvent::FrameAcquired(first));
                match action {
                    ActionKind::RebuildSwapchain(_) => answered.step(
                        RenderEvent::SwapchainRebuilt,
                    ).0.finish_frame(
                        retry,
                        submitted,
                        FrameWork { rebuilds: 1, acquisitions: 1, submissions: 0 },
                    ),
                    _ => ticked.finish_frame(first, submitted, none),
                }
            },
        }
    }
}

/// Every step keeps the orchestrator well formed.
pub proof fn lemma_step_keeps_wf(before: Orchestrator, event: RenderEvent)
    requires
        before.wf(),
        before.expects(event),
    ensures
        before.step(event).0.wf(),
{
}

/// A frame ends where it began: with no frame in progress. It keeps the
/// orchestrator well formed, leaves the recorded size of the surface alone,
/// and asks for at most one chain, two images and one submission; it asks
/// for a second image only after it has made a new chain for a stale one.
pub proof fn lemma_frame_is_bounded(
    before: Orchestrator,
    first: Result<(), SwapChainError>,
    retry: Result<(), SwapChainError>,
    submitted: Result<(), SubmitError>,
)
    requires
        before.wf(),
        before.phase is Idle,
    ensures
        before.frame(first, retry, submitted).0.wf(),
        before.frame(first, retry, submitted).0.phase is Idle,
        before.frame(first, retry, submitted).0.size == before.size,
        before.frame(first, retry, submitted).2.rebuilds <= 1,
        before.frame(first, retry, submitted).2.acquisitions <= 2,
        before.frame(first, retry, submitted).2.submissions <= 1,
        before.frame(first, retry, submitted).2.submissions
            <= before.frame(first, retry, submitted).2.acquisitions,
        before.frame(first, retry, submitted).2.acquisitions == 2 ==> {
            &&& before.state is Ready
            &&& first matches Err(status)
            &&& AcquireError::spec_from_status(status) is Stale
            &&& before.frame(first, retry, submitted).2.rebuilds == 1
        },
{
}

/// A frame that succeeds on a surface that can be presented to has
/// submitted exactly once and leaves the orchestrator ready, with a chain of
/// the surface's size. With a chain that hands out an image at once, the
/// frame succeeds exactly when the queue takes the commands.
pub proof fn lemma_frame_that_succeeds(
    before: Orchestrator,
    first: Result<(), SwapChainError>,
    retry: Result<(), SwapChainError>,
    submitted: Result<(), SubmitError>,
)
    requires
        before.wf(),
        before.phase is Idle,
        before.state !is Fatal,
        before.size.presentable(),
    ensures
        before.frame(first, retry, submitted).1 is Ok ==> {
            &&& submitted is Ok
            &&& before.frame(first, retry, submitted).0.state is Ready
            &&& before.frame(first, retry, submitted).0.chain == before.size
            &&& before.frame(first, retry, submitted).2.submissions == 1
        },
        before.frame(first, retry, submitted).1 is Err ==> before.frame(
            first,
            retry,
            submitted,
        ).0.state !is Ready || before.frame(first, retry, submitted).1 == Err::<(), RenderError>(
            RenderError::Timeout,
        ),
        first is Ok ==> (before.frame(first, retry, submitted).1 is Ok <==> submitted is Ok),
        first is Ok ==> before.frame(first, retry, submitted).2 == (FrameWork {
            rebuilds: if before.state is Resizing {
                1
            } else {
                0
            },
            acquisitions: 1,
            submissions: 1,
        }),
{
}

/// Reporting the same size twice is the same as reporting it once: the
/// orchestrator is the same, and so is every frame that follows, with the
/// chain that it rebuilds. That chain has the reported size and the fixed
/// format.
pub proof fn lemma_resize_is_idempotent(
    before: Orchestrator,
    size: PhysicalSize,
    first: Result<(), SwapChainError>,
    retry: Result<(), SwapChainError>,
    submitted: Result<(), SubmitError>,
)
    requires
        before.wf(),
        before.phase is Idle,
    ensures
        before.resize(size).wf(),
        before.resize(size).phase is Idle,
        before.resize(size).resize(size) == before.resize(size),
        before.resize(size).resize(size).frame(first, retry, submitted) == before.resize(
            size,
        ).frame(first, retry, submitted),
        before.state !is Fatal && size.presentable() ==> {
            &&& before.resize(size).state is Resizing
            &&& before.resize(size).step(RenderEvent::Tick).1 == ActionKind::RebuildSwapchain(
                Swapchain::spec_descriptor(size.width, size.height),
            )
            &&& Swapchain::spec_descriptor(size.width, size.height).format
                == Swapchain::spec_format()
            &&& before.resize(size).step(RenderEvent::Tick).0.step(
                RenderEvent::SwapchainRebuilt,
            ).0.chain == size
        },
{
}

/// When the chain of a ready orchestrator turns out stale, the orchestrator
/// leaves the ready state at once, and the next thing it asks for is a new
/// chain of the surface's size; only then does it ask for an image again.
/// If the new chain hands out an image, the frame goes on as usual: one
/// stale chain, one rebuild. If the new chain is stale too, the frame ends
/// with `Stale` and without a second rebuild, and the orchestrator stays due
/// for rebuilding: the next frame begins by making a new chain.
pub proof fn lemma_stale_chain_is_rebuilt_once(
    before: Orchestrator,
    status: SwapChainError,
    retry: Result<(), SwapChainError>,
    submitted: Result<(), SubmitError>,
)
    requires
        before.wf(),
        before.phase is Idle,
        before.state is Ready,
        before.size.presentable(),
        status is Outdated || status is Lost,
    ensures
        ({
            let asking = before.step(RenderEvent::Tick).0;
            let (stale, action) = asking.step(RenderEvent::FrameAcquired(Err(status)));
            let rebuild = ActionKind::RebuildSwapchain(
                Swapchain::spec_descriptor(before.size.width, before.size.height),
            );
            let (after, result, work) = before.frame(Err(status), retry, submitted);
            &&& before.step(RenderEvent::Tick).1 == ActionKind::AcquireFrame
            &&& stale.state is Resizing
            &&& action == rebuild
            &&& stale.step(RenderEvent::SwapchainRebuilt).1 == ActionKind::AcquireFrame
            &&& work.rebuilds == 1
            &&& work.acquisitions == 2
            &&& retry is Ok && submitted is Ok ==> {
                &&& result is Ok
                &&& work.submissions == 1
                &&& after.state is Ready
                &&& after.frame(Ok(()), Ok(()), Ok(())).2.rebuilds == 0
            }
            &&& (retry == Err::<(), SwapChainError>(SwapChainError::Outdated) || retry == Err::<
                (),
                SwapChainError,
            >(SwapChainError::Lost)) ==> {
                &&& result == Err::<(), RenderError>(RenderError::Stale)
                &&& work.submissions == 0
                &&& after.state is Resizing
                &&& after.step(RenderEvent::Tick).1 == rebuild
            }
        }),
{
}

/// A chain that was found stale is never asked for an image again: the
/// orchestrator either asks for a new chain at once, or, if the frame has
/// made one already, ends the frame due for rebuilding, and then the next
/// frame begins by asking for a new chain.
pub proof fn lemma_stale_chain_is_never_reused(before: Orchestrator, status: SwapChainError)
    requires
        before.wf(),
        before.phase is Acquiring,
        status is Outdated || status is Lost,
    ensures
        ({
            let (after, action) = before.step(RenderEvent::FrameAcquired(Err(status)));
            let rebuild = ActionKind::RebuildSwapchain(
                Swapchain::spec_descriptor(before.size.width, before.size.height),
            );
            &&& after.state is Resizing
            &&& !before.rebuilt ==> action == rebuild && after.phase is Rebuilding
            &&& before.rebuilt ==> {
                &&& action == ActionKind::Finish(Err(RenderError::Stale))
                &&& after.phase is Idle
                &&& after.step(RenderEvent::Tick).1 == rebuild
            }
        }),
{
}

/// A frame that begins due for rebuilding makes the new chain first. If
/// that chain is stale, the frame ends with `Stale` after this one rebuild,
/// and the orchestrator stays due for rebuilding.
pub proof fn lemma_stale_after_rebuild_ends_the_frame(
    before: Orchestrator,
    status: SwapChainError,
    retry: Result<(), SwapChainError>,
    submitted: Result<(), SubmitError>,
)
    requires
        before.wf(),
        before.phase is Idle,
        before.state is Resizing,
        before.size.presentable(),
        status is Outdated || status is Lost,
    ensures
        before.frame(Err(status), retry, submitted).0 == (Orchestrator {
            chain: before.size,
            ..before
        }),
        before.frame(Err(status), retry, submitted).1 == Err::<(), RenderError>(
            RenderError::Stale,
        ),
        before.frame(Err(status), retry, submitted).2 == (FrameWork {
            rebuilds: 1,
            acquisitions: 1,
            submissions: 0,
        }),
{
}

/// Running out of memory, when an image is asked for or when the commands
/// are submitted, always leaves the orchestrator in the fatal state. In the
/// fatal state a frame asks for no GPU work at all and changes nothing, and
/// no report of a size leads out of it. Nothing but running out of memory
/// leads into it.
pub proof fn lemma_out_of_memory_is_fatal(
    before: Orchestrator,
    event: RenderEvent,
    first: Result<(), SwapChainError>,
    retry: Result<(), SwapChainError>,
    submitted: Result<(), SubmitError>,
    size: PhysicalSize,
)
    requires
        before.wf(),
    ensures
        before.expects(event) && (event == RenderEvent::FrameAcquired(
            Err(SwapChainError::OutOfMemory),
        ) || (event matches RenderEvent::Submitted(outcome) && outcome is Err)) ==> before.step(
            event,
        ) == (
            Orchestrator {
                state: RenderState::Fatal,
                phase: RenderPhase::Idle,
                rebuilt: false,
                ..before
            },
            ActionKind::Finish(Err(RenderError::OutOfMemory)),
        ),
        before.expects(event) && before.step(event).0.state is Fatal ==> before.state is Fatal
            || event == RenderEvent::FrameAcquired(Err(SwapChainError::OutOfMemory)) || (
        event matches RenderEvent::Submitted(outcome) && outcome is Err),
        before.phase is Idle && before.state !is Fatal && before.size.presentable() && (first
            == Err::<(), SwapChainError>(SwapChainError::OutOfMemory) || (first is Ok
            && submitted is Err)) ==> {
            &&& before.frame(first, retry, submitted).0.state is Fatal
            &&& before.frame(first, retry, submitted).1 == Err::<(), RenderError>(
                RenderError::OutOfMemory,
            )
        },
        before.phase is Idle && before.state is Fatal ==> {
            &&& before.step(RenderEvent::Tick) == (
                before,
                ActionKind::Finish(Err(RenderError::OutOfMemory)),
            )
            &&& before.frame(first, retry, submitted) == (
                before,
                Err::<(), RenderError>(RenderError::OutOfMemory),
                FrameWork { rebuilds: 0, acquisitions: 0, submissions: 0 },
            )
            &&& before.resize(size).state is Fatal
            &&& before.resize(size).wf()
        },
{
}

/// While the surface has a dimension of zero, a frame succeeds without
/// asking for any GPU work and changes nothing, unless the state is fatal.
pub proof fn lemma_zero_size_frame_is_skipped(
    before: Orchestrator,
    first: Result<(), SwapChainError>,
    retry: Result<(), SwapChainError>,
    submitted: Result<(), SubmitError>,
)
    requires
        before.wf(),
        before.phase is Idle,
        before.state !is Fatal,
        !before.size.presentable(),
    ensures
        before.step(RenderEvent::Tick) == (before, ActionKind::Finish(Ok(()))),
        before.frame(first, retry, submitted) == (
            before,
            Ok::<(), RenderError>(()),
            FrameWork { rebuilds: 0, acquisitions: 0, submissions: 0 },
        ),
{
}

/// A timeout ends the frame without a submission. The state stays as it
/// was; if a new chain was due, it has been made and is due again.
pub proof fn lemma_timeout_keeps_the_state(
    before: Orchestrator,
    retry: Result<(), SwapChainError>,
    submitted: Result<(), SubmitError>,
)
    requires
        before.wf(),
        before.phase is Idle,
        before.state !is Fatal,
        before.size.presentable(),
    ensures
        before.frame(Err(SwapChainError::Timeout), retry, submitted).0 == (Orchestrator {
            chain: before.size,
            ..before
        }),
        before.frame(Err(SwapChainError::Timeout), retry, submitted).1 == Err::<(), RenderError>(
            RenderError::Timeout,
        ),
        before.frame(Err(SwapChainError::Timeout), retry, submitted).2.submissions == 0,
{
}

/// The render orchestrator. It owns the graphic system and the geometry,
/// which it draws once per frame.
#[derive(Debug)]
pub struct App {
    graphic_system: GraphicSystem,
    vertex_buffer: Buffer,
    index_buffer: Option<Buffer>,
    size: PhysicalSize,
    state: RenderState,
    phase: RenderPhase,
    rebuilt: bool,
    frame: Option<Frame>,
}

impl View for App {
    type V = Orchestrator;

    closed spec fn view(&self) -> Orchestrator {
        Orchestrator {
            state: self.state,
            phase: self.phase,
            size: self.size,
            chain: self.graphic_system.spec_swap_chain().spec_size(),
            rebuilt: self.rebuilt,
        }
    }
}

impl App {
    pub closed spec fn spec_graphic_system(&self) -> GraphicSystem {
        self.graphic_system
    }

    pub closed spec fn spec_vertex_buffer(&self) -> Buffer {
        self.vertex_buffer
    }

    pub closed spec fn spec_index_buffer(&self) -> Option<Buffer> {
        self.index_buffer
    }

    /// The number of vertices, and the number of indices where the geometry
    /// is indexed: what one frame draws.
    pub open spec fn geometry(&self) -> (nat, Option<nat>) {
        (
            self.spec_vertex_buffer().spec_size(),
            match self.spec_index_buffer() {
                Some(buffer) => Some(buffer.spec_size()),
                None => None,
            },
        )
    }

    /// The orchestrator is between two steps: its parts are well formed,
    /// the queue holds nothing, and a frame of the chain is out exactly
    /// while its commands are being submitted.
    pub closed spec fn wf(&self) -> bool {
        &&& self@.wf()
        &&& self.graphic_system.wf()
        &&& self.vertex_buffer.wf()
        &&& self.index_buffer matches Some(buffer) ==> buffer.wf()
        &&& self.graphic_system.spec_device().pending().len() == 0
        &&& self.graphic_system.spec_swap_chain().frame_outstanding() == (self.phase
            is Submitting)
        &&& self.frame is Some == (self.phase is Submitting)
        &&& self.frame matches Some(frame) ==> frame.spec_size()
            == self.graphic_system.spec_swap_chain().spec_size()
    }

    /// A well-formed orchestrator is in a well-formed state, its queue holds
    /// nothing, and a frame of its chain is out exactly while the commands
    /// of that frame are being submitted: no frame outlives the step that
    /// ends it, and none is out when a new chain is made.
    pub proof fn lemma_wf(&self)
        requires
            self.wf(),
        ensures
            self@.wf(),
            self.spec_graphic_system().wf(),
            self.spec_graphic_system().spec_device().pending().len() == 0,
            self.spec_graphic_system().spec_swap_chain().frame_outstanding() == (self@.phase
                is Submitting),
            self.spec_graphic_system().spec_swap_chain().spec_size() == self@.chain,
    {
    }

    /// The orchestrator of a graphic system whose chain was just made for
    /// the window, with the geometry to draw. It is ready, and no frame is
    /// in progress.
    pub fn new(graphic_system: GraphicSystem, vertex_buffer: Buffer, index_buffer: Option<Buffer>) -> (app:
        App)
        requires
            graphic_system.wf(),
            graphic_system.spec_swap_chain().spec_size().presentable(),
            !graphic_system.spec_swap_chain().frame_outstanding(),
            graphic_system.spec_device().pending().len() == 0,
            vertex_buffer.wf(),
            index_buffer matches Some(buffer) ==> buffer.wf(),
        ensures
            app.wf(),
            app@ == (Orchestrator {
                state: RenderState::Ready,
                phase: RenderPhase::Idle,
                size: graphic_system.spec_swap_chain().spec_size(),
                chain: graphic_system.spec_swap_chain().spec_size(),
                rebuilt: false,
            }),
            app.spec_graphic_system() == graphic_system,
            app.spec_vertex_buffer() == vertex_buffer,
            app.spec_index_buffer() == index_buffer,
    {
        let size = graphic_system.size();
        App {
            graphic_system,
            vertex_buffer,
            index_buffer,
            size,
            state: RenderState::Ready,
            phase: RenderPhase::Idle,
            rebuilt: false,
            frame: None,
        }
    }

    /// The size of the surface, as the window last reported it.
    pub fn size(&self) -> (size: PhysicalSize)
        ensures
            size == self@.size,
    {
        self.size
    }

    pub fn state(&self) -> (state: RenderState)
        ensures
            state == self@.state,
    {
        self.state
    }

    pub fn phase(&self) -> (phase: RenderPhase)
        ensures
            phase == self@.phase,
    {
        self.phase
    }

    /// Whether `event` can be reported now.
    pub fn expects(&self, event: RenderEvent) -> (r: bool)
        ensures
            r == self@.expects(event),
    {
        match event {
            RenderEvent::Tick => self.phase == RenderPhase::Idle,
            RenderEvent::SwapchainRebuilt => self.phase == RenderPhase::Rebuilding,
            RenderEvent::FrameAcquired(_) => self.phase == RenderPhase::Acquiring,
            RenderEvent::Submitted(_) => self.phase == RenderPhase::Submitting,
        }
    }

    /// Takes in the size that the window reports. The window reports sizes
    /// between frames, not while one is in progress.
    pub fn resize(&mut self, new_size: PhysicalSize)
        requires
            old(self).wf(),
            old(self)@.phase is Idle,
        ensures
            final(self).wf(),
            final(self)@ == old(self)@.resize(new_size),
            final(self).spec_graphic_system() == old(self).spec_graphic_system(),
            final(self).spec_vertex_buffer() == old(self).spec_vertex_buffer(),
            final(self).spec_index_buffer() == old(self).spec_index_buffer(),
    {
        self.size = new_size;
        if self.state != RenderState::Fatal && new_size.is_presentable() {
            self.state = RenderState::Resizing;
        }
    }

    /// One step of a frame: takes in what the shell reports and returns
    /// what it is to do next, as [`Orchestrator::step`] says. The frame
    /// starts with a tick and is over when `Finish` is returned.
    ///
    /// What is submitted is one command buffer with the commands of
    /// [`spec_frame_commands`] for the orchestrator's geometry, together
    /// with the pipeline that they are drawn with.
    pub fn render(&mut self, event: RenderEvent) -> (action: RenderAction)
        requires
            old(self).wf(),
            old(self)@.expects(event),
        ensures
            final(self).wf(),
            final(self)@ == old(self)@.step(event).0,
            action.kind() == old(self)@.step(event).1,
            final(self).spec_vertex_buffer() == old(self).spec_vertex_buffer(),
            final(self).spec_index_buffer() == old(self).spec_index_buffer(),
            final(self).spec_graphic_system().spec_vertex_format() == old(
                self,
            ).spec_graphic_system().spec_vertex_format(),
            final(self).spec_graphic_system().spec_device().spec_shader() == old(
                self,
            ).spec_graphic_system().spec_device().spec_shader(),
            action matches RenderAction::Submit { pipeline, command_buffers } ==> {
                &&& command_buffers@.len() == 1
                &&& command_buffers@[0].label@ == "Main Command Encoder"@
                &&& command_buffers@[0].commands@ == spec_frame_commands(
                    old(self).geometry().0,
                    old(self).geometry().1,
                )
                &&& final(self).spec_graphic_system().draws_with(&pipeline)
            },
    {
        match event {
            RenderEvent::Tick => {
                if self.state == RenderState::Fatal {
                    RenderAction::Finish(Err(RenderError::OutOfMemory))
                } else if !self.size.is_presentable() {
                    RenderAction::Finish(Ok(()))
                } else if self.state == RenderState::Resizing {
                    self.phase = RenderPhase::Rebuilding;
                    RenderAction::RebuildSwapchain(
                        Swapchain::descriptor(self.size.width, self.size.height),
                    )
                } else {
                    self.phase = RenderPhase::Acquiring;
                    RenderAction::AcquireFrame
                }
            },
            RenderEvent::SwapchainRebuilt => {
                let _ = self.graphic_system.swap_chain(self.size);
                self.phase = RenderPhase::Acquiring;
                self.rebuilt = true;
                RenderAction::AcquireFrame
            },
            RenderEvent::FrameAcquired(acquired) => {
                let drawn = match &self.index_buffer {
                    Some(indices) => self.graphic_system.draw(
                        acquired,
                        &self.vertex_buffer,
                        Some(indices),
                    ),
                    None => self.graphic_system.draw(acquired, &self.vertex_buffer, None),
                };
                match drawn {
                    Ok((frame, pipeline)) => {
                        let command_buffers = self.graphic_system.flush();
                        self.frame = Some(frame);
                        self.phase = RenderPhase::Submitting;
                        RenderAction::Submit { pipeline, command_buffers }
                    },
                    Err(AcquireError::Stale) => {
                        self.state = RenderState::Resizing;
                        if self.rebuilt {
                            self.phase = RenderPhase::Idle;
                            self.rebuilt = false;
                            RenderAction::Finish(Err(RenderError::Stale))
                        } else {
                            self.phase = RenderPhase::Rebuilding;
                            RenderAction::RebuildSwapchain(
                                Swapchain::descriptor(self.size.width, self.size.height),
                            )
                        }
                    },
                    Err(AcquireError::OutOfMemory) => {
                        self.phase = RenderPhase::Idle;
                        self.rebuilt = false;
                        self.state = RenderState::Fatal;
                        RenderAction::Finish(Err(RenderError::OutOfMemory))
                    },
                    Err(AcquireError::Timeout) => {
                        self.phase = RenderPhase::Idle;
                        self.rebuilt = false;
                        RenderAction::Finish(Err(RenderError::Timeout))
                    },
                }
            },
            RenderEvent::Submitted(submitted) => {
                match self.frame.take() {
                    Some(frame) => {
                        self.graphic_system.present(frame);
                    },
                    None => {},
                }
                self.phase = RenderPhase::Idle;
                self.rebuilt = false;
                match submitted {
                    Ok(_) => {
                        self.state = RenderState::Ready;
                        RenderAction::Finish(Ok(()))
                    },
                    Err(_) => {
                        self.state = RenderState::Fatal;
                        RenderAction::Finish(Err(RenderError::OutOfMemory))
                    },
                }
            },
        }
    }
}

} // verus!
