//! Rendering the eyes of a render manager and presenting them.
//!
//! A frame asks OSVR for the render info collection, lets the caller draw
//! each eye into its own color and depth buffer through the manager's
//! framebuffer, then presents each eye's color buffer and finishes the frame.
//! A manager that has no color buffer has not registered its buffers, and
//! cannot render. An eye beyond the buffers the manager holds cannot be drawn.
//!
//! The calls themselves are made by the caller: `Presentation::start` and
//! `Presentation::step` say which call comes next, given the result of the
//! last one.
use vstd::prelude::*;
use crate::manager::{RenderBuffer, RenderManager, RenderManagerView};

verus! {

/// Why a frame stopped.
#[derive(Clone, Copy, Debug, PartialEq, Eq, Structural)]
pub enum PresentError {
    /// The manager has no color buffers: its buffers were never registered.
    NotRegistered,
    /// The render info collection could not be had.
    RenderInfoUnavailable,
    /// The manager holds no buffers for this eye.
    BufferMissing { eye: usize },
    /// OSVR refused to start presenting.
    StartFailed,
    /// OSVR refused to present this eye's color buffer.
    PresentFailed { eye: usize },
    /// OSVR refused to finish presenting.
    FinishFailed,
}

/// The call a frame waits on.
#[derive(Clone, Copy, Debug, PartialEq, Eq, Structural)]
pub enum PresentPhase {
    QueryingRenderInfo,
    Counting,
    FetchingDrawInfo,
    Drawing,
    StartingPresent,
    FetchingPresentInfo,
    Presenting,
    Releasing,
    Finishing,
    Done,
    Failed { error: PresentError },
}

/// The result of the call that a frame waits on.
#[derive(Clone, Copy, Debug, PartialEq, Eq, Structural)]
pub enum PresentEvent {
    /// The render info collection was asked for, with this return code.
    RenderInfoQueried { code: i32 },
    /// The collection holds this many render infos, one per eye.
    Counted { count: usize },
    /// The current eye's render info was fetched, with this return code.
    EyeInfoFetched { code: i32 },
    /// The caller drew the current eye.
    EyeDrawn,
    PresentStarted { code: i32 },
    EyePresented { code: i32 },
    /// The render info collection was released.
    Released,
    PresentFinished { code: i32 },
}

/// The call to make next.
#[derive(Clone, Copy, Debug, PartialEq, Eq, Structural)]
pub enum PresentAction {
    /// Ask for the render info collection with the registered parameters.
    QueryRenderInfo,
    CountRenderInfo,
    FetchEyeInfo { eye: usize },
    /// Let the caller draw eye `eye`, with its render info, into the given
    /// framebuffer, color buffer and depth buffer.
    DrawEye { eye: usize, frame_buffer: u32, color_buffer: u32, depth_buffer: u32 },
    StartPresent,
    /// Present this color buffer with eye `eye`'s render info over the
    /// whole viewport.
    PresentEye { eye: usize, buffer: RenderBuffer },
    ReleaseRenderInfo,
    FinishPresent,
    /// The frame is over and succeeded.
    Complete,
    /// The frame is over and failed.
    Abort { error: PresentError },
}

/// The model of a frame: the manager it renders, the call waited on, the
/// current eye and the number of eyes.
#[verifier::ext_equal]
pub struct PresentationView {
    pub manager: RenderManagerView,
    pub phase: PresentPhase,
    pub eye: nat,
    pub count: nat,
}

/// Whether `event` answers the call that `phase` waits on.
pub open spec fn present_accepts(phase: PresentPhase, event: PresentEvent) -> bool {
    match (phase, event) {
        (PresentPhase::QueryingRenderInfo, PresentEvent::RenderInfoQueried { .. }) => true,
        (PresentPhase::Counting, PresentEvent::Counted { .. }) => true,
        (PresentPhase::FetchingDrawInfo, PresentEvent::EyeInfoFetched { .. }) => true,
        (PresentPhase::Drawing, PresentEvent::EyeDrawn) => true,
        (PresentPhase::StartingPresent, PresentEvent::PresentStarted { .. }) => true,
        (PresentPhase::FetchingPresentInfo, PresentEvent::EyeInfoFetched { .. }) => true,
        (PresentPhase::Presenting, PresentEvent::EyePresented { .. }) => true,
        (PresentPhase::Releasing, PresentEvent::Released) => true,
        (PresentPhase::Finishing, PresentEvent::PresentFinished { .. }) => true,
        _ => false,
    }
}

/// How a frame begins: a manager without color buffers fails at once,
/// before any call; any other asks for the render info.
pub open spec fn present_start(m: RenderManagerView) -> (PresentationView, PresentAction) {
    if m.color_buffers.len() == 0 {
        (
            PresentationView {
                manager: m,
                phase: PresentPhase::Failed { error: PresentError::NotRegistered },
                eye: 0,
                count: 0,
            },
            PresentAction::Abort { error: PresentError::NotRegistered },
        )
    } else {
        (
            PresentationView { manager: m, phase: PresentPhase::QueryingRenderInfo, eye: 0, count: 0 },
            PresentAction::QueryRenderInfo,
        )
    }
}

/// The frame stops with `error`.
pub open spec fn present_fail(s: PresentationView, error: PresentError) -> (
    PresentationView,
    PresentAction,
) {
    (PresentationView { phase: PresentPhase::Failed { error }, ..s }, PresentAction::Abort { error })
}

/// The frame draws eye `s.eye`, or starts presenting when every eye is drawn.
pub open spec fn present_next_draw(s: PresentationView) -> (PresentationView, PresentAction) {
    if s.eye < s.count {
        (
            PresentationView { phase: PresentPhase::FetchingDrawInfo, ..s },
            PresentAction::FetchEyeInfo { eye: s.eye as usize },
        )
    } else {
        (PresentationView { phase: PresentPhase::StartingPresent, ..s }, PresentAction::StartPresent)
    }
}

/// The frame presents eye `s.eye`, or releases the render info when every
/// eye is presented.
pub open spec fn present_next_present(s: PresentationView) -> (PresentationView, PresentAction) {
    if s.eye < s.count {
        (
            PresentationView { phase: PresentPhase::FetchingPresentInfo, ..s },
            PresentAction::FetchEyeInfo { eye: s.eye as usize },
        )
    } else {
        (PresentationView { phase: PresentPhase::Releasing, ..s }, PresentAction::ReleaseRenderInfo)
    }
}

/// How a frame answers the result of the call it waits on. The return code
/// of fetching an eye's render info is not checked; every other nonzero
/// return code fails the frame.
pub open spec fn present_next(s: PresentationView, event: PresentEvent) -> (
    PresentationView,
    PresentAction,
) {
    let m = s.manager;
    match (s.phase, event) {
        (PresentPhase::QueryingRenderInfo, PresentEvent::RenderInfoQueried { code }) => {
            if code != 0 {
                present_fail(s, PresentError::RenderInfoUnavailable)
            } else {
                (PresentationView { phase: PresentPhase::Counting, ..s }, PresentAction::CountRenderInfo)
            }
        },
        (PresentPhase::Counting, PresentEvent::Counted { count }) => present_next_draw(
            PresentationView { count: count as nat, ..s },
        ),
        (PresentPhase::FetchingDrawInfo, PresentEvent::EyeInfoFetched { .. }) => {
            if s.eye < m.color_buffers.len() && s.eye < m.depth_buffers.len() {
                (
                    PresentationView { phase: PresentPhase::Drawing, ..s },
                    PresentAction::DrawEye {
                        eye: s.eye as usize,
                        frame_buffer: m.frame_buffer,
                        color_buffer: m.color_buffers[s.eye as int].color_buffer_name,
                        depth_buffer: m.depth_buffers[s.eye as int],
                    },
                )
            } else {
                present_fail(s, PresentError::BufferMissing { eye: s.eye as usize })
            }
        },
        (PresentPhase::Drawing, PresentEvent::EyeDrawn) => present_next_draw(
            PresentationView { eye: s.eye + 1, ..s },
        ),
        (PresentPhase::StartingPresent, PresentEvent::PresentStarted { code }) => {
            if code != 0 {
                present_fail(s, PresentError::StartFailed)
            } else {
                present_next_present(PresentationView { eye: 0, ..s })
            }
        },
        (PresentPhase::FetchingPresentInfo, PresentEvent::EyeInfoFetched { .. }) => {
            if s.eye < m.color_buffers.len() {
                (
                    PresentationView { phase: PresentPhase::Presenting, ..s },
                    PresentAction::PresentEye {
                        eye: s.eye as usize,
                        buffer: m.color_buffers[s.eye as int],
                    },
                )
            } else {
                present_fail(s, PresentError::BufferMissing { eye: s.eye as usize })
            }
        },
        (PresentPhase::Presenting, PresentEvent::EyePresented { code }) => {
            if code != 0 {
                present_fail(s, PresentError::PresentFailed { eye: s.eye as usize })
            } else {
                present_next_present(PresentationView { eye: s.eye + 1, ..s })
            }
        },
        (PresentPhase::Releasing, PresentEvent::Released) => (
            PresentationView { phase: PresentPhase::Finishing, ..s },
            PresentAction::FinishPresent,
        ),
        (PresentPhase::Finishing, PresentEvent::PresentFinished { code }) => {
            if code != 0 {
                present_fail(s, PresentError::FinishFailed)
            } else {
                (PresentationView { phase: PresentPhase::Done, ..s }, PresentAction::Complete)
            }
        },
        _ => (s, PresentAction::Complete),
    }
}

/// The phases after every eye has been drawn.
pub open spec fn all_drawn(phase: PresentPhase) -> bool {
    match phase {
        PresentPhase::StartingPresent => true,
        PresentPhase::FetchingPresentInfo => true,
        PresentPhase::Presenting => true,
        PresentPhase::Releasing => true,
        PresentPhase::Finishing => true,
        PresentPhase::Done => true,
        PresentPhase::Failed { error: PresentError::StartFailed } => true,
        PresentPhase::Failed { error: PresentError::PresentFailed { .. } } => true,
        PresentPhase::Failed { error: PresentError::FinishFailed } => true,
        _ => false,
    }
}

impl PresentationView {
    /// What holds of a frame at every step: the eye never passes the number
    /// of eyes; an eye is drawn only with buffers the manager holds; and
    /// once every eye is drawn, the manager holds buffers for every eye, so
    /// that presenting never runs past them.
    pub open spec fn consistent(self) -> bool {
        &&& self.eye <= self.count
        &&& self.count <= usize::MAX
        &&& self.manager.color_buffers.len() > 0
        &&& (self.phase == PresentPhase::QueryingRenderInfo || self.phase == PresentPhase::Counting)
            ==> self.count == 0
        &&& (self.phase == PresentPhase::FetchingDrawInfo || self.phase
            == PresentPhase::FetchingPresentInfo || self.phase == PresentPhase::Presenting)
            ==> self.eye < self.count
        &&& self.phase == PresentPhase::Drawing ==> {
            &&& self.eye < self.count
            &&& self.eye < self.manager.color_buffers.len()
            &&& self.eye < self.manager.depth_buffers.len()
        }
        &&& all_drawn(self.phase) ==> {
            &&& self.count <= self.manager.color_buffers.len()
            &&& self.count <= self.manager.depth_buffers.len()
        }
        &&& (self.phase == PresentPhase::Releasing || self.phase == PresentPhase::Finishing
            || self.phase == PresentPhase::Done) ==> self.eye == self.count
    }
}

/// A frame of a render manager in progress.
pub struct Presentation<'a> {
    manager: &'a RenderManager,
    phase: PresentPhase,
    eye: usize,
    count: usize,
}

impl<'a> View for Presentation<'a> {
    type V = PresentationView;

    closed spec fn view(&self) -> PresentationView {
        PresentationView {
            manager: self.manager@,
            phase: self.phase,
            eye: self.eye as nat,
            count: self.count as nat,
        }
    }
}

impl<'a> Presentation<'a> {
    #[verifier::type_invariant]
    closed spec fn presentation_invariant(self) -> bool {
        self.phase is Failed || self@.consistent()
    }

    /// Starts a frame of `manager`.
    pub fn start(manager: &'a RenderManager) -> (r: (Presentation<'a>, PresentAction))
        ensures
            (r.0@, r.1) == present_start(manager@),
            r.0@.phase is Failed || r.0@.consistent(),
    {
        if manager.color_buffer_count() == 0 {
            let error = PresentError::NotRegistered;
            (
                Presentation { manager, phase: PresentPhase::Failed { error }, eye: 0, count: 0 },
                PresentAction::Abort { error },
            )
        } else {
            (
                Presentation { manager, phase: PresentPhase::QueryingRenderInfo, eye: 0, count: 0 },
                PresentAction::QueryRenderInfo,
            )
        }
    }

    /// The call the frame waits on.
    pub fn phase(&self) -> (p: PresentPhase)
        ensures
            p == self@.phase,
    {
        self.phase
    }

    /// Whether `event` answers the call the frame waits on.
    pub fn accepts(&self, event: &PresentEvent) -> (b: bool)
        ensures
            b == present_accepts(self@.phase, *event),
    {
        match (self.phase, *event) {
            (PresentPhase::QueryingRenderInfo, PresentEvent::RenderInfoQueried { .. }) => true,
            (PresentPhase::Counting, PresentEvent::Counted { .. }) => true,
            (PresentPhase::FetchingDrawInfo, PresentEvent::EyeInfoFetched { .. }) => true,
            (PresentPhase::Drawing, PresentEvent::EyeDrawn) => true,
            (PresentPhase::StartingPresent, PresentEvent::PresentStarted { .. }) => true,
            (PresentPhase::FetchingPresentInfo, PresentEvent::EyeInfoFetched { .. }) => true,
            (PresentPhase::Presenting, PresentEvent::EyePresented { .. }) => true,
            (PresentPhase::Releasing, PresentEvent::Released) => true,
            (PresentPhase::Finishing, PresentEvent::PresentFinished { .. }) => true,
            _ => false,
        }
    }

    /// Takes the result of the call the frame waits on and says what to do
    /// next.
    pub fn step(self, event: PresentEvent) -> (r: (Presentation<'a>, PresentAction))
        requires
            present_accepts(self@.phase, event),
        ensures
            (r.0@, r.1) == present_next(self@, event),
            r.0@.phase is Failed || r.0@.consistent(),
    {
        proof {
            use_type_invariant(&self);
        }
        let Presentation { manager, phase, eye, count } = self;
        match (phase, event) {
            (PresentPhase::QueryingRenderInfo, PresentEvent::RenderInfoQueried { code }) => {
                if code != 0 {
                    let error = PresentError::RenderInfoUnavailable;
                    (
                        Presentation { manager, phase: PresentPhase::Failed { error }, eye, count },
                        PresentAction::Abort { error },
                    )
                } else {
                    (
                        Presentation { manager, phase: PresentPhase::Counting, eye, count },
                        PresentAction::CountRenderInfo,
                    )
                }
            },
            (PresentPhase::Counting, PresentEvent::Counted { count: n }) => {
                if eye < n {
                    (
                        Presentation { manager, phase: PresentPhase::FetchingDrawInfo, eye, count: n },
                        PresentAction::FetchEyeInfo { eye },
                    )
                } else {
                    (
                        Presentation { manager, phase: PresentPhase::StartingPresent, eye, count: n },
                        PresentAction::StartPresent,
                    )
                }
            },
            (PresentPhase::FetchingDrawInfo, PresentEvent::EyeInfoFetched { .. }) => {
                if eye < manager.color_buffer_count() && eye < manager.depth_buffer_count() {
                    let color = manager.color_buffer(eye);
                    let depth = manager.depth_buffer(eye);
                    let frame_buffer = manager.frame_buffer();
                    (
                        Presentation { manager, phase: PresentPhase::Drawing, eye, count },
                        PresentAction::DrawEye {
                            eye,
                            frame_buffer,
                            color_buffer: color.color_buffer_name,
                            depth_buffer: depth,
                        },
                    )
                } else {
                    let error = PresentError::BufferMissing { eye };
                    (
                        Presentation { manager, phase: PresentPhase::Failed { error }, eye, count },
                        PresentAction::Abort { error },
                    )
                }
            },
            (PresentPhase::Drawing, PresentEvent::EyeDrawn) => {
                let next = eye + 1;
                if next < count {
                    (
                        Presentation { manager, phase: PresentPhase::FetchingDrawInfo, eye: next, count },
                        PresentAction::FetchEyeInfo { eye: next },
                    )
                } else {
                    (
                        Presentation { manager, phase: PresentPhase::StartingPresent, eye: next, count },
                        PresentAction::StartPresent,
                    )
                }
            },
            (PresentPhase::StartingPresent, PresentEvent::PresentStarted { code }) => {
                if code != 0 {
                    let error = PresentError::StartFailed;
                    (
                        Presentation { manager, phase: PresentPhase::Failed { error }, eye, count },
                        PresentAction::Abort { error },
                    )
                } else if 0 < count {
                    (
                        Presentation { manager, phase: PresentPhase::FetchingPresentInfo, eye: 0, count },
                        PresentAction::FetchEyeInfo { eye: 0 },
                    )
                } else {
                    (
                        Presentation { manager, phase: PresentPhase::Releasing, eye: 0, count },
                        PresentAction::ReleaseRenderInfo,
                    )
                }
            },
            (PresentPhase::FetchingPresentInfo, PresentEvent::EyeInfoFetched { .. }) => {
                if eye < manager.color_buffer_count() {
                    let buffer = manager.color_buffer(eye);
                    (
                        Presentation { manager, phase: PresentPhase::Presenting, eye, count },
                        PresentAction::PresentEye { eye, buffer },
                    )
                } else {
                    let error = PresentError::BufferMissing { eye };
                    (
                        Presentation { manager, phase: PresentPhase::Failed { error }, eye, count },
                        PresentAction::Abort { error },
                    )
                }
            },
            (PresentPhase::Presenting, PresentEvent::EyePresented { code }) => {
                if code != 0 {
                    let error = PresentError::PresentFailed { eye };
                    (
                        Presentation { manager, phase: PresentPhase::Failed { error }, eye, count },
                        PresentAction::Abort { error },
                    )
                } else {
                    let next = eye + 1;
                    if next < count {
                        (
                            Presentation {
                                manager,
                                phase: PresentPhase::FetchingPresentInfo,
                                eye: next,
                                count,
                            },
                            PresentAction::FetchEyeInfo { eye: next },
                        )
                    } else {
                        (
                            Presentation { manager, phase: PresentPhase::Releasing, eye: next, count },
                            PresentAction::ReleaseRenderInfo,
                        )
                    }
                }
            },
            (PresentPhase::Releasing, PresentEvent::Released) => {
                (
                    Presentation { manager, phase: PresentPhase::Finishing, eye, count },
                    PresentAction::FinishPresent,
                )
            },
            (PresentPhase::Finishing, PresentEvent::PresentFinished { code }) => {
                if code != 0 {
                    let error = PresentError::FinishFailed;
                    (
                        Presentation { manager, phase: PresentPhase::Failed { error }, eye, count },
                        PresentAction::Abort { error },
                    )
                } else {
                    (
                        Presentation { manager, phase: PresentPhase::Done, eye, count },
                        PresentAction::Complete,
                    )
                }
            },
            _ => {
                proof {
                    assert(false);
                }
                (Presentation { manager, phase, eye, count }, PresentAction::Complete)
            },
        }
    }
}

} // verus!
