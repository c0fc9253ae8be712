//! Opening an OpenGL render manager: create it for the client context, open
//! its display, then load the GL entry points. A failure of either of the
//! first two calls leaves no render manager.
//!
//! The calls themselves are made by the caller: `Opening::start` and
//! `Opening::step` say which call comes next, given the result of the last
//! one, and `Opening::finish` hands out the new manager.
use vstd::prelude::*;
use crate::manager::RenderManager;

verus! {

/// Why no render manager was opened.
#[derive(Clone, Copy, Debug, PartialEq, Eq, Structural)]
pub enum OpenError {
    /// OSVR could not create the render manager.
    CreateFailed,
    /// OSVR could not open the display.
    DisplayFailed,
}

/// The call an opening waits on.
#[derive(Clone, Copy, Debug, PartialEq, Eq, Structural)]
pub enum OpenPhase {
    Creating,
    OpeningDisplay,
    LoadingGl,
    Ready,
    Failed { error: OpenError },
}

/// The result of the call that an opening waits on.
#[derive(Clone, Copy, Debug, PartialEq, Eq, Structural)]
pub enum OpenEvent {
    Created { code: i32 },
    DisplayOpened { code: i32 },
    GlLoaded,
}

/// The call to make next.
#[derive(Clone, Copy, Debug, PartialEq, Eq, Structural)]
pub enum OpenAction {
    /// Create an OpenGL render manager for the client context.
    CreateRenderManager,
    OpenDisplay,
    /// Load the GL entry points through the display's GL context.
    LoadGl,
    /// The render manager is open.
    Complete,
    /// No render manager could be opened.
    Abort { error: OpenError },
}

/// Whether `event` answers the call that `phase` waits on.
pub open spec fn open_accepts(phase: OpenPhase, event: OpenEvent) -> bool {
    match (phase, event) {
        (OpenPhase::Creating, OpenEvent::Created { .. }) => true,
        (OpenPhase::OpeningDisplay, OpenEvent::DisplayOpened { .. }) => true,
        (OpenPhase::LoadingGl, OpenEvent::GlLoaded) => true,
        _ => false,
    }
}

/// How an opening answers the result of the call it waits on.
pub open spec fn open_next(phase: OpenPhase, event: OpenEvent) -> (OpenPhase, OpenAction) {
    match (phase, event) {
        (OpenPhase::Creating, OpenEvent::Created { code }) => {
            if code != 0 {
                (
                    OpenPhase::Failed { error: OpenError::CreateFailed },
                    OpenAction::Abort { error: OpenError::CreateFailed },
                )
            } else {
                (OpenPhase::OpeningDisplay, OpenAction::OpenDisplay)
            }
        },
        (OpenPhase::OpeningDisplay, OpenEvent::DisplayOpened { code }) => {
            if code != 0 {
                (
                    OpenPhase::Failed { error: OpenError::DisplayFailed },
                    OpenAction::Abort { error: OpenError::DisplayFailed },
                )
            } else {
                (OpenPhase::LoadingGl, OpenAction::LoadGl)
            }
        },
        (OpenPhase::LoadingGl, OpenEvent::GlLoaded) => (OpenPhase::Ready, OpenAction::Complete),
        _ => (phase, OpenAction::Complete),
    }
}

/// The opening of a render manager in progress.
pub struct Opening {
    phase: OpenPhase,
}

impl View for Opening {
    type V = OpenPhase;

    closed spec fn view(&self) -> OpenPhase {
        self.phase
    }
}

impl Opening {
    /// Starts opening a render manager; the first call is to create it.
    pub fn start() -> (r: (Opening, OpenAction))
        ensures
            r.0@ == OpenPhase::Creating,
            r.1 == OpenAction::CreateRenderManager,
    {
        (Opening { phase: OpenPhase::Creating }, OpenAction::CreateRenderManager)
    }

    /// The call the opening waits on.
    pub fn phase(&self) -> (p: OpenPhase)
        ensures
            p == self@,
    {
        self.phase
    }

    /// Whether `event` answers the call the opening waits on.
    pub fn accepts(&self, event: &OpenEvent) -> (b: bool)
        ensures
            b == open_accepts(self@, *event),
    {
        match (self.phase, *event) {
            (OpenPhase::Creating, OpenEvent::Created { .. }) => true,
            (OpenPhase::OpeningDisplay, OpenEvent::DisplayOpened { .. }) => true,
            (OpenPhase::LoadingGl, OpenEvent::GlLoaded) => true,
            _ => false,
        }
    }

    /// Takes the result of the call the opening waits on and says what to do
    /// next.
    pub fn step(&mut self, event: OpenEvent) -> (action: OpenAction)
        requires
            open_accepts(old(self)@, event),
        ensures
            (final(self)@, action) == open_next(old(self)@, event),
    {
        match (self.phase, event) {
            (OpenPhase::Creating, OpenEvent::Created { code }) => {
                if code != 0 {
                    let error = OpenError::CreateFailed;
                    self.phase = OpenPhase::Failed { error };
                    OpenAction::Abort { error }
                } else {
                    self.phase = OpenPhase::OpeningDisplay;
                    OpenAction::OpenDisplay
                }
            },
            (OpenPhase::OpeningDisplay, OpenEvent::DisplayOpened { code }) => {
                if code != 0 {
                    let error = OpenError::DisplayFailed;
                    self.phase = OpenPhase::Failed { error };
                    OpenAction::Abort { error }
                } else {
                    self.phase = OpenPhase::LoadingGl;
                    OpenAction::LoadGl
                }
            },
            (OpenPhase::LoadingGl, OpenEvent::GlLoaded) => {
                self.phase = OpenPhase::Ready;
                OpenAction::Complete
            },
            _ => OpenAction::Complete,
        }
    }

    /// The new render manager, when the opening got through every call: it
    /// has registered nothing yet, its framebuffer name is 0 and it holds no
    /// buffers.
    pub fn finish(self) -> (m: Option<RenderManager>)
        ensures
            m is Some <==> self@ == OpenPhase::Ready,
            m matches Some(m) ==> {
                &&& m@.frame_buffer == 0
                &&& m@.color_buffers.len() == 0
                &&& m@.depth_buffers.len() == 0
            },
    {
        match self.phase {
            OpenPhase::Ready => Some(RenderManager::new()),
            _ => None,
        }
    }
}

} // verus!
