//! The calls a registration and a frame make when every call succeeds, and
//! the error each failing call ends them with.
use vstd::prelude::*;
use crate::manager::{RenderBuffer, RenderManagerView};
use crate::register::{
    register_accepts, register_next, RegisterAction, RegisterError, RegisterEvent, RegisterPhase,
    RegistrationView,
};
use crate::present::{
    present_accepts, present_next, present_start, PresentAction, PresentError, PresentEvent,
    PresentPhase, PresentationView,
};

verus! {

/// A registration whose first calls succeed asks, in order, for the render
/// info, its count, a framebuffer and the start of the registration; it then
/// asks for eye 0's render info, or finishes when there is no eye. Only the
/// framebuffer's name changes the manager, and the count is the one OSVR
/// gave.
pub proof fn registration_begins(s: RegistrationView, count: usize, frame_buffer: u32)
    requires
        s.consistent(),
        s.phase == RegisterPhase::QueryingRenderInfo,
    ensures
        ({
            let (s1, a1) = register_next(s, RegisterEvent::RenderInfoQueried { code: 0 });
            let (s2, a2) = register_next(s1, RegisterEvent::Counted { count });
            let (s3, a3) = register_next(s2, RegisterEvent::FramebufferCreated { name: frame_buffer });
            let (s4, a4) = register_next(s3, RegisterEvent::RegistrationStarted { code: 0 });
            &&& a1 == RegisterAction::CountRenderInfo
            &&& s1.phase == RegisterPhase::Counting
            &&& a2 == RegisterAction::CreateFramebuffer
            &&& s2.phase == RegisterPhase::CreatingFramebuffer
            &&& a3 == RegisterAction::StartRegistration
            &&& s3.phase == RegisterPhase::Starting
            &&& a4 == if count > 0 {
                RegisterAction::FetchEyeInfo { eye: 0 }
            } else {
                RegisterAction::FinishRegistration
            }
            &&& s4.phase == if count > 0 {
                RegisterPhase::FetchingEyeInfo
            } else {
                RegisterPhase::Finishing
            }
            &&& s4.eye == 0
            &&& s4.count == count
            &&& s4.manager == (RenderManagerView { frame_buffer, ..s.manager })
            &&& s4.prior == s.prior
        }),
{
}

/// An eye whose calls all succeed gets, in order, a color buffer and then a
/// depth buffer of its viewport's size, and then the pair that OSVR created
/// is registered; the manager keeps the pair, and the registration moves on
/// to the next eye, or finishes after the last.
pub proof fn registration_handles_an_eye(
    s: RegistrationView,
    width: i32,
    height: i32,
    color: u32,
    depth: u32,
)
    requires
        s.consistent(),
        s.phase == RegisterPhase::FetchingEyeInfo,
    ensures
        ({
            let (s1, a1) = register_next(s, RegisterEvent::EyeInfoFetched { code: 0, width, height });
            let (s2, a2) = register_next(s1, RegisterEvent::ColorBufferCreated { code: 0, name: color });
            let (s3, a3) = register_next(s2, RegisterEvent::DepthBufferCreated { code: 0, name: depth });
            let (s4, a4) = register_next(s3, RegisterEvent::BufferRegistered { code: 0 });
            &&& a1 == (RegisterAction::CreateColorBuffer { width, height })
            &&& a2 == (RegisterAction::CreateDepthBuffer { width, height })
            &&& a3 == (RegisterAction::RegisterBuffer {
                buffer: RenderBuffer { color_buffer_name: color, depth_stencil_buffer_name: depth },
            })
            &&& a4 == if s.eye + 1 < s.count {
                RegisterAction::FetchEyeInfo { eye: (s.eye + 1) as usize }
            } else {
                RegisterAction::FinishRegistration
            }
            &&& s4.phase == if s.eye + 1 < s.count {
                RegisterPhase::FetchingEyeInfo
            } else {
                RegisterPhase::Finishing
            }
            &&& s4.eye == s.eye + 1
            &&& s4.count == s.count
            &&& s4.prior == s.prior
            &&& s4.manager == (RenderManagerView {
                color_buffers: s.manager.color_buffers.push(
                    RenderBuffer { color_buffer_name: color, depth_stencil_buffer_name: 0 },
                ),
                depth_buffers: s.manager.depth_buffers.push(depth),
                ..s.manager
            })
        }),
{
}

/// A registration that OSVR finishes with code 0 is done and complete, with
/// the manager as it was.
pub proof fn registration_ends(s: RegistrationView)
    requires
        s.phase == RegisterPhase::Finishing,
    ensures
        register_next(s, RegisterEvent::RegistrationFinished { code: 0 }) == (RegistrationView {
            phase: RegisterPhase::Done,
            ..s
        }, RegisterAction::Complete),
{
}

/// A registration that fails stops with the error of the call that failed:
/// the render info query, the start, the current eye's render info, its
/// color buffer, its depth buffer, its registration, or the finish.
pub proof fn register_error_names_the_failed_call(s: RegistrationView, event: RegisterEvent)
    requires
        s.consistent(),
        register_accepts(s.phase, event),
        register_next(s, event).1 is Abort,
    ensures
        register_next(s, event).1->error == match s.phase {
            RegisterPhase::QueryingRenderInfo => RegisterError::RenderInfoUnavailable,
            RegisterPhase::Starting => RegisterError::StartFailed,
            RegisterPhase::FetchingEyeInfo => RegisterError::EyeInfoUnavailable {
                eye: s.eye as usize,
            },
            RegisterPhase::CreatingColorBuffer { .. } => RegisterError::ColorBufferFailed,
            RegisterPhase::CreatingDepthBuffer { .. } => RegisterError::DepthBufferFailed,
            RegisterPhase::Registering => RegisterError::RegisterFailed { eye: s.eye as usize },
            _ => RegisterError::FinishFailed,
        },
        register_next(s, event).0.phase == (RegisterPhase::Failed {
            error: register_next(s, event).1->error,
        }),
        s.phase != RegisterPhase::Counting && s.phase != RegisterPhase::CreatingFramebuffer,
{
}

/// A frame of a registered manager whose first calls succeed asks for the
/// render info and its count, then for eye 0's render info, or starts
/// presenting when there is no eye.
pub proof fn frame_begins(m: RenderManagerView, count: usize)
    requires
        m.color_buffers.len() > 0,
    ensures
        ({
            let (s0, a0) = present_start(m);
            let (s1, a1) = present_next(s0, PresentEvent::RenderInfoQueried { code: 0 });
            let (s2, a2) = present_next(s1, PresentEvent::Counted { count });
            &&& a0 == PresentAction::QueryRenderInfo
            &&& s0.phase == PresentPhase::QueryingRenderInfo
            &&& a1 == PresentAction::CountRenderInfo
            &&& s1.phase == PresentPhase::Counting
            &&& a2 == if count > 0 {
                PresentAction::FetchEyeInfo { eye: 0 }
            } else {
                PresentAction::StartPresent
            }
            &&& s2.phase == if count > 0 {
                PresentPhase::FetchingDrawInfo
            } else {
                PresentPhase::StartingPresent
            }
            &&& s2.eye == 0
            &&& s2.count == count
            &&& s2.manager == m
        }),
{
}

/// Drawing an eye that the manager has buffers for: with its render info the
/// frame draws the eye into the framebuffer and the eye's own color and depth
/// buffers, and once it is drawn asks for the next eye's render info, or
/// starts presenting after the last eye.
pub proof fn frame_draws_an_eye(s: PresentationView, code: i32)
    requires
        s.consistent(),
        s.phase == PresentPhase::FetchingDrawInfo,
        s.eye < s.manager.color_buffers.len(),
        s.eye < s.manager.depth_buffers.len(),
    ensures
        ({
            let (s1, a1) = present_next(s, PresentEvent::EyeInfoFetched { code });
            let (s2, a2) = present_next(s1, PresentEvent::EyeDrawn);
            &&& a1 == (PresentAction::DrawEye {
                eye: s.eye as usize,
                frame_buffer: s.manager.frame_buffer,
                color_buffer: s.manager.color_buffers[s.eye as int].color_buffer_name,
                depth_buffer: s.manager.depth_buffers[s.eye as int],
            })
            &&& a2 == if s.eye + 1 < s.count {
                PresentAction::FetchEyeInfo { eye: (s.eye + 1) as usize }
            } else {
                PresentAction::StartPresent
            }
            &&& s2.phase == if s.eye + 1 < s.count {
                PresentPhase::FetchingDrawInfo
            } else {
                PresentPhase::StartingPresent
            }
            &&& s2.eye == s.eye + 1
            &&& s2.count == s.count
            &&& s2.manager == s.manager
        }),
{
}

/// Drawing an eye that the manager has no buffers for stops the frame.
pub proof fn frame_stops_at_missing_buffers(s: PresentationView, code: i32)
    requires
        s.consistent(),
        s.phase == PresentPhase::FetchingDrawInfo,
        !(s.eye < s.manager.color_buffers.len() && s.eye < s.manager.depth_buffers.len()),
    ensures
        present_next(s, PresentEvent::EyeInfoFetched { code }).1 == (PresentAction::Abort {
            error: PresentError::BufferMissing { eye: s.eye as usize },
        }),
{
}

/// Once OSVR started presenting with code 0, the frame asks for eye 0's
/// render info, or releases the render info when there is no eye.
pub proof fn frame_starts_presenting(s: PresentationView)
    requires
        s.consistent(),
        s.phase == PresentPhase::StartingPresent,
    ensures
        ({
            let (s1, a1) = present_next(s, PresentEvent::PresentStarted { code: 0 });
            &&& a1 == if s.count > 0 {
                PresentAction::FetchEyeInfo { eye: 0 }
            } else {
                PresentAction::ReleaseRenderInfo
            }
            &&& s1.phase == if s.count > 0 {
                PresentPhase::FetchingPresentInfo
            } else {
                PresentPhase::Releasing
            }
            &&& s1.eye == 0
            &&& s1.count == s.count
            &&& s1.manager == s.manager
        }),
{
}

/// Presenting an eye: with its render info the frame presents the eye's own
/// color buffer, and once OSVR presented it with code 0 asks for the next
/// eye's render info, or releases the render info after the last eye.
pub proof fn frame_presents_an_eye(s: PresentationView, code: i32)
    requires
        s.consistent(),
        s.phase == PresentPhase::FetchingPresentInfo,
    ensures
        ({
            let (s1, a1) = present_next(s, PresentEvent::EyeInfoFetched { code });
            let (s2, a2) = present_next(s1, PresentEvent::EyePresented { code: 0 });
            &&& a1 == (PresentAction::PresentEye {
                eye: s.eye as usize,
                buffer: s.manager.color_buffers[s.eye as int],
            })
            &&& a2 == if s.eye + 1 < s.count {
                PresentAction::FetchEyeInfo { eye: (s.eye + 1) as usize }
            } else {
                PresentAction::ReleaseRenderInfo
            }
            &&& s2.phase == if s.eye + 1 < s.count {
                PresentPhase::FetchingPresentInfo
            } else {
                PresentPhase::Releasing
            }
            &&& s2.eye == s.eye + 1
            &&& s2.count == s.count
            &&& s2.manager == s.manager
        }),
{
}

/// After the render info is released the frame asks OSVR to finish
/// presenting, and once that returns code 0 the frame is done and complete.
pub proof fn frame_ends(s: PresentationView)
    requires
        s.phase == PresentPhase::Releasing,
    ensures
        ({
            let (s1, a1) = present_next(s, PresentEvent::Released);
            let (s2, a2) = present_next(s1, PresentEvent::PresentFinished { code: 0 });
            &&& a1 == PresentAction::FinishPresent
            &&& s1 == (PresentationView { phase: PresentPhase::Finishing, ..s })
            &&& a2 == PresentAction::Complete
            &&& s2 == (PresentationView { phase: PresentPhase::Done, ..s })
        }),
{
}

/// A frame that fails stops with the error of the call that failed: the
/// render info query, a missing buffer while drawing, the start of
/// presenting, the presenting of the current eye, or the finish.
pub proof fn present_error_names_the_failed_call(s: PresentationView, event: PresentEvent)
    requires
        s.consistent(),
        present_accepts(s.phase, event),
        present_next(s, event).1 is Abort,
    ensures
        present_next(s, event).1->error == match s.phase {
            PresentPhase::QueryingRenderInfo => PresentError::RenderInfoUnavailable,
            PresentPhase::FetchingDrawInfo => PresentError::BufferMissing { eye: s.eye as usize },
            PresentPhase::StartingPresent => PresentError::StartFailed,
            PresentPhase::Presenting => PresentError::PresentFailed { eye: s.eye as usize },
            _ => PresentError::FinishFailed,
        },
        present_next(s, event).0.phase == (PresentPhase::Failed {
            error: present_next(s, event).1->error,
        }),
        s.phase != PresentPhase::Counting && s.phase != PresentPhase::Drawing && s.phase
            != PresentPhase::FetchingPresentInfo && s.phase != PresentPhase::Releasing,
{
}

} // verus!
