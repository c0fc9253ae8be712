//! Registering a render manager's buffers with OSVR.
//!
//! The manager asks OSVR for the render info of the display, makes a GL
//! framebuffer, and then for each eye creates a color buffer and a depth
//! buffer of the eye's viewport size and registers the pair. Every call whose
//! return code is checked ends the registration when it reports a failure.
//!
//! The calls themselves are made by the caller: `Registration::start` and
//! `Registration::step` say which call comes next, given the result of the
//! last one.
use vstd::prelude::*;
use crate::manager::{RenderBuffer, RenderManager, RenderManagerView};

verus! {

/// Why a registration stopped.
#[derive(Clone, Copy, Debug, PartialEq, Eq, Structural)]
pub enum RegisterError {
    /// The render info collection could not be had.
    RenderInfoUnavailable,
    /// OSVR refused to start registering render buffers.
    StartFailed,
    /// The render info of this eye could not be had.
    EyeInfoUnavailable { eye: usize },
    /// OSVR could not create a color buffer.
    ColorBufferFailed,
    /// OSVR could not create a depth buffer.
    DepthBufferFailed,
    /// OSVR refused to register this eye's buffers.
    RegisterFailed { eye: usize },
    /// OSVR refused to finish the registration.
    FinishFailed,
}

/// The call a registration waits on.
#[derive(Clone, Copy, Debug, PartialEq, Eq, Structural)]
pub enum RegisterPhase {
    QueryingRenderInfo,
    Counting,
    CreatingFramebuffer,
    Starting,
    FetchingEyeInfo,
    CreatingColorBuffer { width: i32, height: i32 },
    CreatingDepthBuffer { width: i32, height: i32 },
    Registering,
    Finishing,
    Done,
    Failed { error: RegisterError },
}

/// The result of the call that a registration waits on.
#[derive(Clone, Copy, Debug, PartialEq, Eq, Structural)]
pub enum RegisterEvent {
    /// The default render parameters were fetched and the render info
    /// collection asked for, with this return code.
    RenderInfoQueried { code: i32 },
    /// The collection holds this many render infos, one per eye.
    Counted { count: usize },
    /// A GL framebuffer with this name was generated and bound.
    FramebufferCreated { name: u32 },
    RegistrationStarted { code: i32 },
    /// The current eye's render info was fetched; its viewport is this large.
    EyeInfoFetched { code: i32, width: i32, height: i32 },
    ColorBufferCreated { code: i32, name: u32 },
    DepthBufferCreated { code: i32, name: u32 },
    BufferRegistered { code: i32 },
    RegistrationFinished { code: i32 },
}

/// The call to make next.
#[derive(Clone, Copy, Debug, PartialEq, Eq, Structural)]
pub enum RegisterAction {
    /// Fetch the default render parameters, then ask for the render info
    /// collection with them.
    QueryRenderInfo,
    CountRenderInfo,
    /// Generate a GL framebuffer and bind it.
    CreateFramebuffer,
    StartRegistration,
    FetchEyeInfo { eye: usize },
    CreateColorBuffer { width: i32, height: i32 },
    CreateDepthBuffer { width: i32, height: i32 },
    RegisterBuffer { buffer: RenderBuffer },
    FinishRegistration,
    /// The registration is over and succeeded.
    Complete,
    /// The registration is over and failed.
    Abort { error: RegisterError },
}

/// The model of a registration: the manager as it is now and as it was when
/// the registration started, the call waited on, the current eye and the
/// number of eyes.
#[verifier::ext_equal]
pub struct RegistrationView {
    pub manager: RenderManagerView,
    pub prior: RenderManagerView,
    pub phase: RegisterPhase,
    pub eye: nat,
    pub count: nat,
}

/// Whether `event` answers the call that `phase` waits on.
pub open spec fn register_accepts(phase: RegisterPhase, event: RegisterEvent) -> bool {
    match (phase, event) {
        (RegisterPhase::QueryingRenderInfo, RegisterEvent::RenderInfoQueried { .. }) => true,
        (RegisterPhase::Counting, RegisterEvent::Counted { .. }) => true,
        (RegisterPhase::CreatingFramebuffer, RegisterEvent::FramebufferCreated { .. }) => true,
        (RegisterPhase::Starting, RegisterEvent::RegistrationStarted { .. }) => true,
        (RegisterPhase::FetchingEyeInfo, RegisterEvent::EyeInfoFetched { .. }) => true,
        (RegisterPhase::CreatingColorBuffer { .. }, RegisterEvent::ColorBufferCreated { .. }) => true,
        (RegisterPhase::CreatingDepthBuffer { .. }, RegisterEvent::DepthBufferCreated { .. }) => true,
        (RegisterPhase::Registering, RegisterEvent::BufferRegistered { .. }) => true,
        (RegisterPhase::Finishing, RegisterEvent::RegistrationFinished { .. }) => true,
        _ => false,
    }
}

/// The registration stops with `error`.
pub open spec fn register_fail(s: RegistrationView, error: RegisterError) -> (
    RegistrationView,
    RegisterAction,
) {
    (RegistrationView { phase: RegisterPhase::Failed { error }, ..s }, RegisterAction::Abort { error })
}

/// The registration goes on with eye `s.eye`, or finishes when every eye has
/// its buffers.
pub open spec fn register_next_eye(s: RegistrationView) -> (RegistrationView, RegisterAction) {
    if s.eye < s.count {
        (
            RegistrationView { phase: RegisterPhase::FetchingEyeInfo, ..s },
            RegisterAction::FetchEyeInfo { eye: s.eye as usize },
        )
    } else {
        (RegistrationView { phase: RegisterPhase::Finishing, ..s }, RegisterAction::FinishRegistration)
    }
}

/// How a registration answers the result of the call it waits on: a nonzero
/// return code of a checked call fails it; otherwise it records what the call
/// created and names the next call.
pub open spec fn register_next(s: RegistrationView, event: RegisterEvent) -> (
    RegistrationView,
    RegisterAction,
) {
    match (s.phase, event) {
        (RegisterPhase::QueryingRenderInfo, RegisterEvent::RenderInfoQueried { code }) => {
            if code != 0 {
                register_fail(s, RegisterError::RenderInfoUnavailable)
            } else {
                (RegistrationView { phase: RegisterPhase::Counting, ..s }, RegisterAction::CountRenderInfo)
            }
        },
        (RegisterPhase::Counting, RegisterEvent::Counted { count }) => (
            RegistrationView { phase: RegisterPhase::CreatingFramebuffer, count: count as nat, ..s },
            RegisterAction::CreateFramebuffer,
        ),
        (RegisterPhase::CreatingFramebuffer, RegisterEvent::FramebufferCreated { name }) => (
            RegistrationView {
                phase: RegisterPhase::Starting,
                manager: RenderManagerView { frame_buffer: name, ..s.manager },
                ..s
            },
            RegisterAction::StartRegistration,
        ),
        (RegisterPhase::Starting, RegisterEvent::RegistrationStarted { code }) => {
            if code != 0 {
                register_fail(s, RegisterError::StartFailed)
            } else {
                register_next_eye(s)
            }
        },
        (RegisterPhase::FetchingEyeInfo, RegisterEvent::EyeInfoFetched { code, width, height }) => {
            if code != 0 {
                register_fail(s, RegisterError::EyeInfoUnavailable { eye: s.eye as usize })
            } else {
                (
                    RegistrationView {
                        phase: RegisterPhase::CreatingColorBuffer { width, height },
                        ..s
                    },
                    RegisterAction::CreateColorBuffer { width, height },
                )
            }
        },
        (
            RegisterPhase::CreatingColorBuffer { width, height },
            RegisterEvent::ColorBufferCreated { code, name },
        ) => {
            if code != 0 {
                register_fail(s, RegisterError::ColorBufferFailed)
            } else {
                (
                    RegistrationView {
                        phase: RegisterPhase::CreatingDepthBuffer { width, height },
                        manager: RenderManagerView {
                            color_buffers: s.manager.color_buffers.push(
                                RenderBuffer { color_buffer_name: name, depth_stencil_buffer_name: 0 },
                            ),
                            ..s.manager
                        },
                        ..s
                    },
                    RegisterAction::CreateDepthBuffer { width, height },
                )
            }
        },
        (RegisterPhase::CreatingDepthBuffer { .. }, RegisterEvent::DepthBufferCreated { code, name }) => {
            if code != 0 {
                register_fail(s, RegisterError::DepthBufferFailed)
            } else {
                (
                    RegistrationView {
                        phase: RegisterPhase::Registering,
                        manager: RenderManagerView {
                            depth_buffers: s.manager.depth_buffers.push(name),
                            ..s.manager
                        },
                        ..s
                    },
                    RegisterAction::RegisterBuffer {
                        buffer: RenderBuffer {
                            color_buffer_name: s.manager.color_buffers.last().color_buffer_name,
                            depth_stencil_buffer_name: name,
                        },
                    },
                )
            }
        },
        (RegisterPhase::Registering, RegisterEvent::BufferRegistered { code }) => {
            if code != 0 {
                register_fail(s, RegisterError::RegisterFailed { eye: s.eye as usize })
            } else {
                register_next_eye(RegistrationView { eye: s.eye + 1, ..s })
            }
        },
        (RegisterPhase::Finishing, RegisterEvent::RegistrationFinished { code }) => {
            if code != 0 {
                register_fail(s, RegisterError::FinishFailed)
            } else {
                (RegistrationView { phase: RegisterPhase::Done, ..s }, RegisterAction::Complete)
            }
        },
        _ => (s, RegisterAction::Complete),
    }
}

/// How many color buffers a registration in `phase` has made beyond those
/// of the eyes it is done with.
pub open spec fn pending_color_buffers(phase: RegisterPhase) -> nat {
    match phase {
        RegisterPhase::CreatingDepthBuffer { .. } => 1,
        RegisterPhase::Registering => 1,
        RegisterPhase::Failed { error: RegisterError::DepthBufferFailed } => 1,
        RegisterPhase::Failed { error: RegisterError::RegisterFailed { .. } } => 1,
        _ => 0,
    }
}

/// How many depth buffers a registration in `phase` has made beyond those
/// of the eyes it is done with.
pub open spec fn pending_depth_buffers(phase: RegisterPhase) -> nat {
    match phase {
        RegisterPhase::Registering => 1,
        RegisterPhase::Failed { error: RegisterError::RegisterFailed { .. } } => 1,
        _ => 0,
    }
}

/// The phases in which a registration works on eye `eye`.
pub open spec fn in_eye(phase: RegisterPhase) -> bool {
    match phase {
        RegisterPhase::FetchingEyeInfo => true,
        RegisterPhase::CreatingColorBuffer { .. } => true,
        RegisterPhase::CreatingDepthBuffer { .. } => true,
        RegisterPhase::Registering => true,
        RegisterPhase::Failed { error: RegisterError::EyeInfoUnavailable { .. } } => true,
        RegisterPhase::Failed { error: RegisterError::ColorBufferFailed } => true,
        RegisterPhase::Failed { error: RegisterError::DepthBufferFailed } => true,
        RegisterPhase::Failed { error: RegisterError::RegisterFailed { .. } } => true,
        _ => false,
    }
}

/// The phases before the render infos are counted.
pub open spec fn before_count(phase: RegisterPhase) -> bool {
    match phase {
        RegisterPhase::QueryingRenderInfo => true,
        RegisterPhase::Counting => true,
        RegisterPhase::Failed { error: RegisterError::RenderInfoUnavailable } => true,
        _ => false,
    }
}

/// The phases before the framebuffer exists.
pub open spec fn before_framebuffer(phase: RegisterPhase) -> bool {
    before_count(phase) || phase == RegisterPhase::CreatingFramebuffer
}

/// The phases before the first eye.
pub open spec fn before_eyes(phase: RegisterPhase) -> bool {
    before_framebuffer(phase) || phase == RegisterPhase::Starting
        || phase == (RegisterPhase::Failed { error: RegisterError::StartFailed })
}

impl RegistrationView {
    /// What holds of a registration at every step: it only appends to the
    /// manager's buffers; each eye it is done with added one color buffer
    /// and one depth buffer; the eye it works on may have added its color
    /// buffer, and then its depth buffer; the color buffers it appends name
    /// no depth buffer; and when it is done, it has done every eye.
    pub open spec fn consistent(self) -> bool {
        let prior_colors = self.prior.color_buffers.len();
        let prior_depths = self.prior.depth_buffers.len();
        &&& self.eye <= self.count
        &&& self.count <= usize::MAX
        &&& in_eye(self.phase) ==> self.eye < self.count
        &&& before_count(self.phase) ==> self.count == 0
        &&& before_eyes(self.phase) ==> self.eye == 0
        &&& self.phase == RegisterPhase::Finishing ==> self.eye == self.count
        &&& self.phase == RegisterPhase::Done ==> self.eye == self.count
        &&& before_framebuffer(self.phase) ==> self.manager.frame_buffer == self.prior.frame_buffer
        &&& self.manager.color_buffers.len() == prior_colors + self.eye + pending_color_buffers(
            self.phase,
        )
        &&& self.manager.depth_buffers.len() == prior_depths + self.eye + pending_depth_buffers(
            self.phase,
        )
        &&& self.manager.color_buffers.take(prior_colors as int) == self.prior.color_buffers
        &&& self.manager.depth_buffers.take(prior_depths as int) == self.prior.depth_buffers
        &&& forall|i: int|
            prior_colors <= i < self.manager.color_buffers.len()
                ==> #[trigger] self.manager.color_buffers[i].depth_stencil_buffer_name == 0u32
    }
}

/// A registration of a render manager's buffers in progress.
pub struct Registration {
    manager: RenderManager,
    prior: Ghost<RenderManagerView>,
    phase: RegisterPhase,
    eye: usize,
    count: usize,
}

impl View for Registration {
    type V = RegistrationView;

    closed spec fn view(&self) -> RegistrationView {
        RegistrationView {
            manager: self.manager@,
            prior: self.prior@,
            phase: self.phase,
            eye: self.eye as nat,
            count: self.count as nat,
        }
    }
}

impl Registration {
    #[verifier::type_invariant]
    closed spec fn registration_invariant(self) -> bool {
        self@.consistent()
    }

    /// Starts registering buffers for `manager`; the first call to make is
    /// to query the render info.
    pub fn start(manager: RenderManager) -> (r: (Registration, RegisterAction))
        ensures
            r.0@ == (RegistrationView {
                manager: manager@,
                prior: manager@,
                phase: RegisterPhase::QueryingRenderInfo,
                eye: 0,
                count: 0,
            }),
            r.1 == RegisterAction::QueryRenderInfo,
            r.0@.consistent(),
    {
        let ghost prior = manager@;
        proof {
            assert(manager@.color_buffers.take(manager@.color_buffers.len() as int)
                == manager@.color_buffers);
            assert(manager@.depth_buffers.take(manager@.depth_buffers.len() as int)
                == manager@.depth_buffers);
        }
        (
            Registration {
                manager,
                prior: Ghost(prior),
                phase: RegisterPhase::QueryingRenderInfo,
                eye: 0,
                count: 0,
            },
            RegisterAction::QueryRenderInfo,
        )
    }

    /// The call the registration waits on.
    pub fn phase(&self) -> (p: RegisterPhase)
        ensures
            p == self@.phase,
    {
        self.phase
    }

    /// Whether `event` answers the call the registration waits on.
    pub fn accepts(&self, event: &RegisterEvent) -> (b: bool)
        ensures
            b == register_accepts(self@.phase, *event),
    {
        match (self.phase, *event) {
            (RegisterPhase::QueryingRenderInfo, RegisterEvent::RenderInfoQueried { .. }) => true,
            (RegisterPhase::Counting, RegisterEvent::Counted { .. }) => true,
            (RegisterPhase::CreatingFramebuffer, RegisterEvent::FramebufferCreated { .. }) => true,
            (RegisterPhase::Starting, RegisterEvent::RegistrationStarted { .. }) => true,
            (RegisterPhase::FetchingEyeInfo, RegisterEvent::EyeInfoFetched { .. }) => true,
            (RegisterPhase::CreatingColorBuffer { .. }, RegisterEvent::ColorBufferCreated { .. }) => true,
            (RegisterPhase::CreatingDepthBuffer { .. }, RegisterEvent::DepthBufferCreated { .. }) => true,
            (RegisterPhase::Registering, RegisterEvent::BufferRegistered { .. }) => true,
            (RegisterPhase::Finishing, RegisterEvent::RegistrationFinished { .. }) => true,
            _ => false,
        }
    }

    /// The manager, with what the registration has added to it.
    pub fn into_manager(self) -> (m: RenderManager)
        ensures
            m@ == self@.manager,
    {
        let Registration { manager, .. } = self;
        manager
    }

    /// Takes the result of the call the registration waits on and says what
    /// to do next.
    pub fn step(self, event: RegisterEvent) -> (r: (Registration, RegisterAction))
        requires
            register_accepts(self@.phase, event),
        ensures
            (r.0@, r.1) == register_next(self@, event),
            r.0@.consistent(),
    {
        proof {
            use_type_invariant(&self);
        }
        let ghost s = self@;
        let Registration { mut manager, prior, phase, eye, count } = self;
        match (phase, event) {
            (RegisterPhase::QueryingRenderInfo, RegisterEvent::RenderInfoQueried { code }) => {
                if code != 0 {
                    let error = RegisterError::RenderInfoUnavailable;
                    (
                        Registration { manager, prior, phase: RegisterPhase::Failed { error }, eye, count },
                        RegisterAction::Abort { error },
                    )
                } else {
                    (
                        Registration { manager, prior, phase: RegisterPhase::Counting, eye, count },
                        RegisterAction::CountRenderInfo,
                    )
                }
            },
            (RegisterPhase::Counting, RegisterEvent::Counted { count: n }) => {
                (
                    Registration {
                        manager,
                        prior,
                        phase: RegisterPhase::CreatingFramebuffer,
                        eye,
                        count: n,
                    },
                    RegisterAction::CreateFramebuffer,
                )
            },
            (RegisterPhase::CreatingFramebuffer, RegisterEvent::FramebufferCreated { name }) => {
                manager.set_frame_buffer(name);
                (
                    Registration { manager, prior, phase: RegisterPhase::Starting, eye, count },
                    RegisterAction::StartRegistration,
                )
            },
            (RegisterPhase::Starting, RegisterEvent::RegistrationStarted { code }) => {
                if code != 0 {
                    let error = RegisterError::StartFailed;
                    (
                        Registration { manager, prior, phase: RegisterPhase::Failed { error }, eye, count },
                        RegisterAction::Abort { error },
                    )
                } else if eye < count {
                    (
                        Registration { manager, prior, phase: RegisterPhase::FetchingEyeInfo, eye, count },
                        RegisterAction::FetchEyeInfo { eye },
                    )
                } else {
                    (
                        Registration { manager, prior, phase: RegisterPhase::Finishing, eye, count },
                        RegisterAction::FinishRegistration,
                    )
                }
            },
            (
                RegisterPhase::FetchingEyeInfo,
                RegisterEvent::EyeInfoFetched { code, width, height },
            ) => {
                if code != 0 {
                    let error = RegisterError::EyeInfoUnavailable { eye };
                    (
                        Registration { manager, prior, phase: RegisterPhase::Failed { error }, eye, count },
                        RegisterAction::Abort { error },
                    )
                } else {
                    (
                        Registration {
                            manager,
                            prior,
                            phase: RegisterPhase::CreatingColorBuffer { width, height },
                            eye,
                            count,
                        },
                        RegisterAction::CreateColorBuffer { width, height },
                    )
                }
            },
            (
                RegisterPhase::CreatingColorBuffer { width, height },
                RegisterEvent::ColorBufferCreated { code, name },
            ) => {
                if code != 0 {
                    let error = RegisterError::ColorBufferFailed;
                    (
                        Registration { manager, prior, phase: RegisterPhase::Failed { error }, eye, count },
                        RegisterAction::Abort { error },
                    )
                } else {
                    manager.push_color_buffer(
                        RenderBuffer { color_buffer_name: name, depth_stencil_buffer_name: 0 },
                    );
                    proof {
                        let p = s.prior.color_buffers.len() as int;
                        assert(manager@.color_buffers.take(p) == s.manager.color_buffers.take(p));
                    }
                    (
                        Registration {
                            manager,
                            prior,
                            phase: RegisterPhase::CreatingDepthBuffer { width, height },
                            eye,
                            count,
                        },
                        RegisterAction::CreateDepthBuffer { width, height },
                    )
                }
            },
            (
                RegisterPhase::CreatingDepthBuffer { .. },
                RegisterEvent::DepthBufferCreated { code, name },
            ) => {
                if code != 0 {
                    let error = RegisterError::DepthBufferFailed;
                    (
                        Registration { manager, prior, phase: RegisterPhase::Failed { error }, eye, count },
                        RegisterAction::Abort { error },
                    )
                } else {
                    let last = manager.color_buffer_count() - 1;
                    let color = manager.color_buffer(last);
                    manager.push_depth_buffer(name);
                    proof {
                        let p = s.prior.depth_buffers.len() as int;
                        assert(manager@.depth_buffers.take(p) == s.manager.depth_buffers.take(p));
                    }
                    (
                        Registration { manager, prior, phase: RegisterPhase::Registering, eye, count },
                        RegisterAction::RegisterBuffer {
                            buffer: RenderBuffer {
                                color_buffer_name: color.color_buffer_name,
                                depth_stencil_buffer_name: name,
                            },
                        },
                    )
                }
            },
            (RegisterPhase::Registering, RegisterEvent::BufferRegistered { code }) => {
                if code != 0 {
                    let error = RegisterError::RegisterFailed { eye };
                    (
                        Registration { manager, prior, phase: RegisterPhase::Failed { error }, eye, count },
                        RegisterAction::Abort { error },
                    )
                } else {
                    let next = eye + 1;
                    if next < count {
                        (
                            Registration {
                                manager,
                                prior,
                                phase: RegisterPhase::FetchingEyeInfo,
                                eye: next,
                                count,
                            },
                            RegisterAction::FetchEyeInfo { eye: next },
                        )
                    } else {
                        (
                            Registration {
                                manager,
                                prior,
                                phase: RegisterPhase::Finishing,
                                eye: next,
                                count,
                            },
                            RegisterAction::FinishRegistration,
                        )
                    }
                }
            },
            (RegisterPhase::Finishing, RegisterEvent::RegistrationFinished { code }) => {
                if code != 0 {
                    let error = RegisterError::FinishFailed;
                    (
                        Registration { manager, prior, phase: RegisterPhase::Failed { error }, eye, count },
                        RegisterAction::Abort { error },
                    )
                } else {
                    (
                        Registration { manager, prior, phase: RegisterPhase::Done, eye, count },
                        RegisterAction::Complete,
                    )
                }
            },
            _ => {
                proof {
                    assert(false);
                }
                (Registration { manager, prior, phase, eye, count }, RegisterAction::Complete)
            },
        }
    }
}

} // verus!
