//! Properties of the render manager's protocols that hold over whole runs
//! and across its operations.
use vstd::prelude::*;
use crate::manager::{release_sequence, Release, RenderBuffer, RenderManagerView};
use crate::open::{open_accepts, open_next, OpenAction, OpenEvent, OpenPhase};
use crate::register::{
    register_accepts, register_next, RegisterAction, RegisterEvent, RegisterPhase,
    RegistrationView,
};
use crate::present::{
    present_accepts, present_next, present_start, PresentAction, PresentError, PresentEvent,
    PresentPhase, PresentationView,
};

verus! {

/// Every step of a registration keeps it consistent: it only appends to the
/// manager's buffers, one color and one depth buffer per eye it is done with,
/// and it reaches its end only after every eye.
pub proof fn register_step_keeps_consistency(s: RegistrationView, event: RegisterEvent)
    requires
        s.consistent(),
        register_accepts(s.phase, event),
    ensures
        register_next(s, event).0.consistent(),
{
    let pc = s.prior.color_buffers.len() as int;
    let pd = s.prior.depth_buffers.len() as int;
    match (s.phase, event) {
        (RegisterPhase::CreatingColorBuffer { .. }, RegisterEvent::ColorBufferCreated { code, name }) => {
            let b = RenderBuffer { color_buffer_name: name, depth_stencil_buffer_name: 0 };
            assert(s.manager.color_buffers.push(b).take(pc) == s.manager.color_buffers.take(pc));
        },
        (RegisterPhase::CreatingDepthBuffer { .. }, RegisterEvent::DepthBufferCreated { code, name }) => {
            assert(s.manager.depth_buffers.push(name).take(pd) == s.manager.depth_buffers.take(pd));
        },
        _ => {},
    }
}


/// No step of a registration changes or drops a buffer the manager already
/// holds: each step appends at most one color buffer or one depth buffer,
/// and only the step that learns the new framebuffer's name changes the
/// manager's framebuffer.
pub proof fn register_step_only_appends(s: RegistrationView, event: RegisterEvent)
    requires
        register_accepts(s.phase, event),
    ensures
        ({
            let t = register_next(s, event).0.manager;
            let m = s.manager;
            &&& t.color_buffers.take(m.color_buffers.len() as int) == m.color_buffers
            &&& t.depth_buffers.take(m.depth_buffers.len() as int) == m.depth_buffers
            &&& m.color_buffers.len() <= t.color_buffers.len() <= m.color_buffers.len() + 1
            &&& m.depth_buffers.len() <= t.depth_buffers.len() <= m.depth_buffers.len() + 1
            &&& t.color_buffers.len() + t.depth_buffers.len() <= m.color_buffers.len()
                + m.depth_buffers.len() + 1
            &&& t.frame_buffer != m.frame_buffer ==> event is FramebufferCreated
        }),
{
    let m = s.manager;
    assert(m.color_buffers.take(m.color_buffers.len() as int) == m.color_buffers);
    assert(m.depth_buffers.take(m.depth_buffers.len() as int) == m.depth_buffers);
    match (s.phase, event) {
        (RegisterPhase::CreatingColorBuffer { .. }, RegisterEvent::ColorBufferCreated { code, name }) => {
            let b = RenderBuffer { color_buffer_name: name, depth_stencil_buffer_name: 0 };
            assert(m.color_buffers.push(b).take(m.color_buffers.len() as int) == m.color_buffers);
        },
        (RegisterPhase::CreatingDepthBuffer { .. }, RegisterEvent::DepthBufferCreated { code, name }) => {
            assert(m.depth_buffers.push(name).take(m.depth_buffers.len() as int) == m.depth_buffers);
        },
        _ => {},
    }
}

/// A registration that starts from a well-formed manager whose eyes all have
/// both buffers keeps the manager well formed at every step. When it is done,
/// every eye again has both buffers: the manager holds its earlier buffers
/// unchanged, followed by one color and one depth buffer per render info.
pub proof fn registration_keeps_manager_well_formed(s: RegistrationView)
    requires
        s.consistent(),
        s.prior.well_formed(),
        s.prior.balanced(),
    ensures
        s.manager.well_formed(),
        s.phase == RegisterPhase::Done ==> {
            &&& s.manager.balanced()
            &&& s.manager.color_buffers.len() == s.prior.color_buffers.len() + s.count
            &&& s.manager.color_buffers.take(s.prior.color_buffers.len() as int)
                == s.prior.color_buffers
            &&& s.manager.depth_buffers.take(s.prior.depth_buffers.len() as int)
                == s.prior.depth_buffers
        },
{
    let pc = s.prior.color_buffers.len() as int;
    assert forall|i: int| 0 <= i < s.manager.color_buffers.len() implies
        #[trigger] s.manager.color_buffers[i].depth_stencil_buffer_name == 0u32 by {
        if i < pc {
            assert(s.manager.color_buffers.take(pc)[i] == s.prior.color_buffers[i]);
        }
    }
}

/// The return code of the call that a registration event answers, when the
/// call has one.
pub open spec fn register_event_code(event: RegisterEvent) -> Option<i32> {
    match event {
        RegisterEvent::RenderInfoQueried { code } => Some(code),
        RegisterEvent::Counted { .. } => None,
        RegisterEvent::FramebufferCreated { .. } => None,
        RegisterEvent::RegistrationStarted { code } => Some(code),
        RegisterEvent::EyeInfoFetched { code, .. } => Some(code),
        RegisterEvent::ColorBufferCreated { code, .. } => Some(code),
        RegisterEvent::DepthBufferCreated { code, .. } => Some(code),
        RegisterEvent::BufferRegistered { code } => Some(code),
        RegisterEvent::RegistrationFinished { code } => Some(code),
    }
}

/// A nonzero return code from any call of a registration stops it, without
/// recording anything that the failed call reported; a zero one never does.
pub proof fn register_failure_stops(s: RegistrationView, event: RegisterEvent)
    requires
        register_accepts(s.phase, event),
    ensures
        register_next(s, event).1 is Abort <==> (register_event_code(event) matches Some(c)
            && c != 0),
        register_next(s, event).1 is Abort ==> {
            &&& register_next(s, event).0.phase is Failed
            &&& register_next(s, event).0.manager == s.manager
        },
{
}

/// A registration that is over, done or failed, takes no further result.
pub proof fn register_end_is_final(event: RegisterEvent, error: crate::register::RegisterError)
    ensures
        !register_accepts(RegisterPhase::Done, event),
        !register_accepts(RegisterPhase::Failed { error }, event),
{
}

/// The buffer registered for an eye pairs the color buffer and the depth
/// buffer made for that same eye: the `prior + eye`-th of each.
pub proof fn registered_buffer_is_the_eyes_pair(s: RegistrationView, event: RegisterEvent)
    requires
        s.consistent(),
        register_accepts(s.phase, event),
        register_next(s, event).1 is RegisterBuffer,
    ensures
        ({
            let t = register_next(s, event).0;
            let buffer = register_next(s, event).1->buffer;
            let c = s.prior.color_buffers.len() + s.eye;
            let d = s.prior.depth_buffers.len() + s.eye;
            &&& t.manager.color_buffers.len() == c + 1
            &&& t.manager.depth_buffers.len() == d + 1
            &&& buffer.color_buffer_name == t.manager.color_buffers[c as int].color_buffer_name
            &&& buffer.depth_stencil_buffer_name == t.manager.depth_buffers[d as int]
        }),
{
}

/// A frame of a manager without color buffers (one that never registered
/// its buffers) fails at once with `NotRegistered`, before any call; a frame
/// of any other manager begins by asking for the render info.
pub proof fn frame_needs_registered_buffers(m: RenderManagerView)
    ensures
        present_start(m).1 == (PresentAction::Abort { error: PresentError::NotRegistered })
            <==> m.color_buffers.len() == 0,
        m.color_buffers.len() != 0 ==> present_start(m).1 == PresentAction::QueryRenderInfo,
{
}

/// Every step of a frame that has not failed keeps it consistent, and no
/// step of a frame changes the manager.
pub proof fn present_step_keeps_consistency(s: PresentationView, event: PresentEvent)
    requires
        s.consistent(),
        present_accepts(s.phase, event),
    ensures
        present_next(s, event).0.phase is Failed || present_next(s, event).0.consistent(),
        present_next(s, event).0.manager == s.manager,
{
}

/// The return code of the call that a frame event answers, when the call has
/// one.
pub open spec fn present_event_code(event: PresentEvent) -> Option<i32> {
    match event {
        PresentEvent::RenderInfoQueried { code } => Some(code),
        PresentEvent::Counted { .. } => None,
        PresentEvent::EyeInfoFetched { code } => Some(code),
        PresentEvent::EyeDrawn => None,
        PresentEvent::PresentStarted { code } => Some(code),
        PresentEvent::EyePresented { code } => Some(code),
        PresentEvent::Released => None,
        PresentEvent::PresentFinished { code } => Some(code),
    }
}

/// In a consistent frame, a nonzero return code stops the frame exactly when
/// it comes from a call other than fetching an eye's render info, whose code
/// the frame does not look at; and the frame never runs past the manager's
/// buffers while presenting, only (at worst) while drawing.
pub proof fn present_failure_stops(s: PresentationView, event: PresentEvent, other: i32)
    requires
        s.consistent(),
        present_accepts(s.phase, event),
    ensures
        (present_next(s, event).1 is Abort && !(present_next(s, event).1->error is BufferMissing))
            <==> (present_event_code(event) matches Some(c) && c != 0 && !(event is EyeInfoFetched)),
        present_next(s, event).1 matches PresentAction::Abort {
            error: PresentError::BufferMissing { .. },
        } ==> s.phase == PresentPhase::FetchingDrawInfo,
        event is EyeInfoFetched ==> present_next(s, event) == present_next(
            s,
            PresentEvent::EyeInfoFetched { code: other },
        ),
{
}

/// An eye is drawn into, and presented from, the manager's buffers of that
/// eye: the color buffer drawn into is the one presented.
pub proof fn drawn_buffer_is_presented_buffer(s: PresentationView, event: PresentEvent)
    requires
        s.consistent(),
        present_accepts(s.phase, event),
    ensures
        present_next(s, event).1 matches PresentAction::DrawEye {
            eye,
            frame_buffer,
            color_buffer,
            depth_buffer,
        } ==> {
            &&& eye == s.eye
            &&& frame_buffer == s.manager.frame_buffer
            &&& color_buffer == s.manager.color_buffers[eye as int].color_buffer_name
            &&& depth_buffer == s.manager.depth_buffers[eye as int]
        },
        present_next(s, event).1 matches PresentAction::PresentEye { eye, buffer } ==> {
            &&& eye == s.eye
            &&& buffer == s.manager.color_buffers[eye as int]
            &&& buffer.depth_stencil_buffer_name == 0u32 <== s.manager.well_formed()
        },
{
}

/// After a registration that is done, starting from a well-formed manager
/// whose eyes had both buffers, a frame of the manager draws every eye that
/// the manager now holds: it never stops for a missing buffer on such an
/// eye, whatever the render info code.
pub proof fn registered_eyes_are_drawn(r: RegistrationView, f: PresentationView, code: i32)
    requires
        r.consistent(),
        r.phase == RegisterPhase::Done,
        r.prior.well_formed(),
        r.prior.balanced(),
        f.manager == r.manager,
        f.phase == PresentPhase::FetchingDrawInfo,
        f.eye < r.prior.color_buffers.len() + r.count,
    ensures
        present_next(f, PresentEvent::EyeInfoFetched { code }).1 == (PresentAction::DrawEye {
            eye: f.eye as usize,
            frame_buffer: r.manager.frame_buffer,
            color_buffer: r.manager.color_buffers[f.eye as int].color_buffer_name,
            depth_buffer: r.manager.depth_buffers[f.eye as int],
        }),
{
    registration_keeps_manager_well_formed(r);
}

/// Dropping a well-formed manager whose eyes all have both buffers releases
/// its framebuffer first, then every eye's color texture and depth
/// renderbuffer, and nothing else.
pub proof fn release_covers_every_buffer(m: RenderManagerView)
    requires
        m.well_formed(),
        m.balanced(),
    ensures
        release_sequence(m).len() == 1 + 2 * m.color_buffers.len(),
        release_sequence(m)[0] == (Release::DeleteFramebuffer { name: m.frame_buffer }),
        forall|i: int|
            0 <= i < m.color_buffers.len() ==> {
                &&& release_sequence(m)[1 + 2 * i] == (Release::DeleteTexture {
                    name: #[trigger] m.color_buffers[i].color_buffer_name,
                })
                &&& release_sequence(m)[2 + 2 * i] == (Release::DeleteRenderbuffer {
                    name: m.depth_buffers[i],
                })
            },
        forall|i: int|
            0 <= i < m.color_buffers.len() ==> {
                &&& release_sequence(m).contains(
                    Release::DeleteTexture { name: #[trigger] m.color_buffers[i].color_buffer_name },
                )
                &&& release_sequence(m).contains(
                    Release::DeleteRenderbuffer { name: m.depth_buffers[i] },
                )
            },
        forall|k: int|
            1 <= k < release_sequence(m).len() ==> {
                let i = (k - 1) / 2;
                ||| #[trigger] release_sequence(m)[k] == (Release::DeleteTexture {
                    name: m.color_buffers[i].color_buffer_name,
                })
                ||| release_sequence(m)[k] == (Release::DeleteRenderbuffer { name: m.depth_buffers[i] })
            },
{
    assert forall|i: int| 0 <= i < m.color_buffers.len() implies {
        &&& release_sequence(m)[1 + 2 * i] == (Release::DeleteTexture {
            name: #[trigger] m.color_buffers[i].color_buffer_name,
        })
        &&& release_sequence(m)[2 + 2 * i] == (Release::DeleteRenderbuffer {
            name: m.depth_buffers[i],
        })
        &&& release_sequence(m).contains(Release::DeleteTexture { name: #[trigger] m.color_buffers[i].color_buffer_name })
        &&& release_sequence(m).contains(Release::DeleteRenderbuffer { name: m.depth_buffers[i] })
    } by {
        let r = release_sequence(m);
        assert((2 * i) % 2 == 0 && (2 * i) / 2 == i) by (nonlinear_arith)
            requires
                0 <= i,
        ;
        assert((2 * i + 1) % 2 == 1 && (2 * i + 1) / 2 == i) by (nonlinear_arith)
            requires
                0 <= i,
        ;
        assert(r[1 + 2 * i] == Release::DeleteTexture { name: m.color_buffers[i].color_buffer_name });
        assert(r[2 + 2 * i] == Release::DeleteRenderbuffer { name: m.depth_buffers[i] });
    }
    assert forall|k: int| 1 <= k < release_sequence(m).len() implies {
        let i = (k - 1) / 2;
        ||| #[trigger] release_sequence(m)[k] == (Release::DeleteTexture {
            name: m.color_buffers[i].color_buffer_name,
        })
        ||| release_sequence(m)[k] == (Release::DeleteRenderbuffer { name: m.depth_buffers[i] })
    } by {
        let j = k - 1;
        assert(0 <= j / 2 < m.color_buffers.len() && j == 2 * (j / 2) + j % 2 && 0 <= j % 2 < 2)
            by (nonlinear_arith)
            requires
                0 <= j < 2 * m.color_buffers.len(),
        ;
        let i = j / 2;
        if j % 2 == 0 {
            assert(release_sequence(m)[k] == (Release::DeleteTexture {
                name: m.color_buffers[i].color_buffer_name,
            }));
        } else {
            assert(release_sequence(m)[k] == (Release::DeleteRenderbuffer {
                name: m.depth_buffers[i],
            }));
        }
    }
}

/// A manager opened fresh (framebuffer 0, no buffers) whose registration is
/// done, when dropped, releases the framebuffer that the registration made
/// and exactly one color texture and one depth renderbuffer per render info.
pub proof fn registered_buffers_are_released(r: RegistrationView)
    requires
        r.consistent(),
        r.phase == RegisterPhase::Done,
        r.prior.frame_buffer == 0,
        r.prior.color_buffers.len() == 0,
        r.prior.depth_buffers.len() == 0,
    ensures
        release_sequence(r.manager).len() == 1 + 2 * r.count,
        release_sequence(r.manager)[0] == (Release::DeleteFramebuffer {
            name: r.manager.frame_buffer,
        }),
        forall|i: int|
            0 <= i < r.count ==> {
                &&& release_sequence(r.manager).contains(
                    Release::DeleteTexture {
                        name: #[trigger] r.manager.color_buffers[i].color_buffer_name,
                    },
                )
                &&& release_sequence(r.manager).contains(
                    Release::DeleteRenderbuffer { name: r.manager.depth_buffers[i] },
                )
            },
{
    registration_keeps_manager_well_formed(r);
    release_covers_every_buffer(r.manager);
}

/// An opening in which a call returns a nonzero code fails at once and never
/// yields a render manager; one in which every call succeeds reaches `Ready`
/// after exactly its three calls.
pub proof fn opening_needs_every_call(code: i32, display_code: i32)
    ensures
        code != 0 ==> open_next(OpenPhase::Creating, OpenEvent::Created { code }).0 is Failed,
        display_code != 0 ==> open_next(
            OpenPhase::OpeningDisplay,
            OpenEvent::DisplayOpened { code: display_code },
        ).0 is Failed,
        forall|e: OpenEvent| !open_accepts(OpenPhase::Ready, e),
        forall|e: OpenEvent, error| !open_accepts(OpenPhase::Failed { error }, e),
        open_next(OpenPhase::Creating, OpenEvent::Created { code: 0 }) == (
        OpenPhase::OpeningDisplay,
        OpenAction::OpenDisplay,
        ),
        open_next(OpenPhase::OpeningDisplay, OpenEvent::DisplayOpened { code: 0 }) == (
        OpenPhase::LoadingGl,
        OpenAction::LoadGl,
        ),
        open_next(OpenPhase::LoadingGl, OpenEvent::GlLoaded) == (
        OpenPhase::Ready,
        OpenAction::Complete,
        ),
{
}


/// The framebuffer a registration keeps is the one GL generated for it, and
/// learning it changes nothing else of the manager.
pub proof fn registration_keeps_generated_framebuffer(s: RegistrationView, name: u32)
    requires
        s.phase == RegisterPhase::CreatingFramebuffer,
    ensures
        register_next(s, RegisterEvent::FramebufferCreated { name }).0.manager.frame_buffer == name,
        register_next(s, RegisterEvent::FramebufferCreated { name }).0.manager.color_buffers
            == s.manager.color_buffers,
        register_next(s, RegisterEvent::FramebufferCreated { name }).0.manager.depth_buffers
            == s.manager.depth_buffers,
        register_next(s, RegisterEvent::FramebufferCreated { name }).1
            == RegisterAction::StartRegistration,
{
}

/// The color buffer a registration keeps for an eye names exactly the
/// texture OSVR created, with no depth buffer; nothing else changes.
pub proof fn registration_keeps_created_color_buffer(
    s: RegistrationView,
    width: i32,
    height: i32,
    name: u32,
)
    requires
        s.phase == (RegisterPhase::CreatingColorBuffer { width, height }),
    ensures
        ({
            let t = register_next(s, RegisterEvent::ColorBufferCreated { code: 0, name }).0;
            &&& t.manager.color_buffers.len() == s.manager.color_buffers.len() + 1
            &&& t.manager.color_buffers.last() == (RenderBuffer {
                color_buffer_name: name,
                depth_stencil_buffer_name: 0,
            })
            &&& t.manager.color_buffers.drop_last() == s.manager.color_buffers
            &&& t.manager.depth_buffers == s.manager.depth_buffers
            &&& t.manager.frame_buffer == s.manager.frame_buffer
        }),
{
    let t = register_next(s, RegisterEvent::ColorBufferCreated { code: 0, name }).0;
    assert(t.manager.color_buffers.drop_last() == s.manager.color_buffers);
}

/// The depth buffer a registration keeps for an eye is exactly the
/// renderbuffer OSVR created, and the buffer it then registers pairs the
/// eye's color texture with that renderbuffer.
pub proof fn registration_keeps_created_depth_buffer(
    s: RegistrationView,
    width: i32,
    height: i32,
    name: u32,
)
    requires
        s.phase == (RegisterPhase::CreatingDepthBuffer { width, height }),
    ensures
        ({
            let (t, a) = register_next(s, RegisterEvent::DepthBufferCreated { code: 0, name });
            &&& t.manager.depth_buffers.len() == s.manager.depth_buffers.len() + 1
            &&& t.manager.depth_buffers.last() == name
            &&& t.manager.depth_buffers.drop_last() == s.manager.depth_buffers
            &&& t.manager.color_buffers == s.manager.color_buffers
            &&& t.manager.frame_buffer == s.manager.frame_buffer
            &&& a == (RegisterAction::RegisterBuffer {
                buffer: RenderBuffer {
                    color_buffer_name: s.manager.color_buffers.last().color_buffer_name,
                    depth_stencil_buffer_name: name,
                },
            })
        }),
{
    let t = register_next(s, RegisterEvent::DepthBufferCreated { code: 0, name }).0;
    assert(t.manager.depth_buffers.drop_last() == s.manager.depth_buffers);
}

/// Both buffers made for an eye have the size of that eye's viewport, width
/// then height, whatever else the registration holds and whatever name the
/// color buffer got.
pub proof fn eye_buffers_have_viewport_size(
    s: RegistrationView,
    width: i32,
    height: i32,
    color: u32,
)
    requires
        s.phase == RegisterPhase::FetchingEyeInfo,
    ensures
        ({
            let (t, a) = register_next(
                s,
                RegisterEvent::EyeInfoFetched { code: 0, width, height },
            );
            &&& a == (RegisterAction::CreateColorBuffer { width, height })
            &&& register_next(t, RegisterEvent::ColorBufferCreated { code: 0, name: color }).1
                == (RegisterAction::CreateDepthBuffer { width, height })
        }),
{
}

/// A registration works through the eyes one by one, in order: the eye whose
/// render info it asks for is the eye it then works on, and it moves to the
/// next eye only when the current eye's buffers are registered.
pub proof fn registration_visits_eyes_in_order(s: RegistrationView, event: RegisterEvent)
    requires
        s.consistent(),
        register_accepts(s.phase, event),
    ensures
        ({
            let (t, a) = register_next(s, event);
            &&& a matches RegisterAction::FetchEyeInfo { eye } ==> {
                &&& t.phase == RegisterPhase::FetchingEyeInfo
                &&& t.eye == eye
                &&& t.eye < t.count
            }
            &&& t.eye == if event == (RegisterEvent::BufferRegistered { code: 0 }) {
                s.eye + 1
            } else {
                s.eye
            }
            &&& t.count == if event is Counted {
                event->count as nat
            } else {
                s.count
            }
        }),
{
}

/// A registration that succeeded in starting, or in registering an eye's
/// buffers, asks for the next eye's render info while an eye is left, and
/// otherwise finishes; it completes only when OSVR finished it with code 0.
pub proof fn registration_covers_every_eye(s: RegistrationView, event: RegisterEvent)
    requires
        s.consistent(),
        register_accepts(s.phase, event),
    ensures
        (s.phase == RegisterPhase::Starting && event == RegisterEvent::RegistrationStarted {
            code: 0,
        }) ==> register_next(s, event).1 == if 0 < s.count {
            RegisterAction::FetchEyeInfo { eye: 0 }
        } else {
            RegisterAction::FinishRegistration
        },
        (s.phase == RegisterPhase::Registering && event == RegisterEvent::BufferRegistered {
            code: 0,
        }) ==> register_next(s, event).1 == if s.eye + 1 < s.count {
            RegisterAction::FetchEyeInfo { eye: (s.eye + 1) as usize }
        } else {
            RegisterAction::FinishRegistration
        },
        register_next(s, event).1 == RegisterAction::FinishRegistration ==> register_next(
            s,
            event,
        ).0.eye == s.count,
        register_next(s, event).1 == RegisterAction::Complete <==> (s.phase == RegisterPhase::Finishing
            && event == RegisterEvent::RegistrationFinished { code: 0 }),
        register_next(s, event).0.phase == RegisterPhase::Done <==> (s.phase
            == RegisterPhase::Finishing && event == RegisterEvent::RegistrationFinished { code: 0 }),
{
}

/// A nonzero code from either call of an opening ends it with that call's
/// failure; the GL entry points are loaded only once the display opened with
/// code 0, and the opening completes only after they are loaded.
pub proof fn opening_stops_on_failure(phase: OpenPhase, event: OpenEvent, code: i32)
    requires
        open_accepts(phase, event),
    ensures
        code != 0 ==> open_next(OpenPhase::Creating, OpenEvent::Created { code }) == (
        OpenPhase::Failed { error: crate::open::OpenError::CreateFailed },
        OpenAction::Abort { error: crate::open::OpenError::CreateFailed },
        ),
        code != 0 ==> open_next(OpenPhase::OpeningDisplay, OpenEvent::DisplayOpened { code }) == (
        OpenPhase::Failed { error: crate::open::OpenError::DisplayFailed },
        OpenAction::Abort { error: crate::open::OpenError::DisplayFailed },
        ),
        open_next(phase, event).1 == OpenAction::LoadGl <==> (phase == OpenPhase::OpeningDisplay
            && event == OpenEvent::DisplayOpened { code: 0 }),
        open_next(phase, event).1 == OpenAction::OpenDisplay <==> (phase == OpenPhase::Creating
            && event == OpenEvent::Created { code: 0 }),
        open_next(phase, event).1 == OpenAction::Complete <==> (phase == OpenPhase::LoadingGl
            && event == OpenEvent::GlLoaded),
        open_next(phase, event).0 == OpenPhase::Ready <==> open_next(phase, event).1
            == OpenAction::Complete,
{
}

/// The render info a frame asks for is that of the eye it then draws or
/// presents: after asking for eye `e`'s render info the frame waits on it
/// with `e` as its current eye.
pub proof fn frame_fetches_the_eye_it_uses(s: PresentationView, event: PresentEvent)
    requires
        s.consistent(),
        present_accepts(s.phase, event),
    ensures
        ({
            let (t, a) = present_next(s, event);
            a matches PresentAction::FetchEyeInfo { eye } ==> {
                &&& t.eye == eye
                &&& t.eye < t.count
                &&& (t.phase == PresentPhase::FetchingDrawInfo || t.phase
                    == PresentPhase::FetchingPresentInfo)
                &&& (t.phase == PresentPhase::FetchingDrawInfo <==> (s.phase
                    == PresentPhase::Counting || s.phase == PresentPhase::Drawing))
            }
        }),
{
}

/// Once it has an eye's render info, a consistent frame draws that eye into
/// the eye's own buffers while there are buffers for it, and presents that
/// eye's own color buffer; the render info's return code plays no part.
pub proof fn frame_uses_the_eyes_buffers(s: PresentationView, code: i32)
    requires
        s.consistent(),
    ensures
        (s.phase == PresentPhase::FetchingDrawInfo && s.eye < s.manager.color_buffers.len()
            && s.eye < s.manager.depth_buffers.len()) ==> present_next(
            s,
            PresentEvent::EyeInfoFetched { code },
        ) == (PresentationView { phase: PresentPhase::Drawing, ..s }, PresentAction::DrawEye {
            eye: s.eye as usize,
            frame_buffer: s.manager.frame_buffer,
            color_buffer: s.manager.color_buffers[s.eye as int].color_buffer_name,
            depth_buffer: s.manager.depth_buffers[s.eye as int],
        }),
        s.phase == PresentPhase::FetchingPresentInfo ==> present_next(
            s,
            PresentEvent::EyeInfoFetched { code },
        ) == (PresentationView { phase: PresentPhase::Presenting, ..s }, PresentAction::PresentEye {
            eye: s.eye as usize,
            buffer: s.manager.color_buffers[s.eye as int],
        }),
{
}

/// A frame draws, then presents, every eye, one after the other in order:
/// it begins drawing with eye 0, goes on to the next eye after each eye is
/// drawn or presented with code 0, starts presenting only after the last eye
/// is drawn, and releases the render info only after the last eye is
/// presented; it completes only when OSVR finished presenting with code 0.
pub proof fn frame_covers_every_eye(s: PresentationView, event: PresentEvent)
    requires
        s.consistent(),
        present_accepts(s.phase, event),
    ensures
        ({
            let (t, a) = present_next(s, event);
            &&& event matches PresentEvent::Counted { count } ==> a == if 0 < count {
                PresentAction::FetchEyeInfo { eye: 0 }
            } else {
                PresentAction::StartPresent
            }
            &&& s.phase == PresentPhase::Drawing ==> a == if s.eye + 1 < s.count {
                PresentAction::FetchEyeInfo { eye: (s.eye + 1) as usize }
            } else {
                PresentAction::StartPresent
            }
            &&& event == PresentEvent::PresentStarted { code: 0 } ==> a == if 0 < s.count {
                PresentAction::FetchEyeInfo { eye: 0 }
            } else {
                PresentAction::ReleaseRenderInfo
            }
            &&& event == PresentEvent::EyePresented { code: 0 } ==> a == if s.eye + 1 < s.count {
                PresentAction::FetchEyeInfo { eye: (s.eye + 1) as usize }
            } else {
                PresentAction::ReleaseRenderInfo
            }
            &&& a == PresentAction::StartPresent ==> (t.phase == PresentPhase::StartingPresent
                && ((s.phase == PresentPhase::Drawing && s.eye + 1 == s.count) || (s.phase
                == PresentPhase::Counting && t.count == 0)))
            &&& a == PresentAction::ReleaseRenderInfo ==> (t.phase == PresentPhase::Releasing && ((
            s.phase == PresentPhase::Presenting && s.eye + 1 == s.count && event
                == PresentEvent::EyePresented { code: 0 }) || (s.phase
                == PresentPhase::StartingPresent && s.count == 0 && event
                == PresentEvent::PresentStarted { code: 0 })))
            &&& a == PresentAction::FinishPresent <==> s.phase == PresentPhase::Releasing
            &&& a == PresentAction::Complete <==> (s.phase == PresentPhase::Finishing && event
                == PresentEvent::PresentFinished { code: 0 })
        }),
{
}

} // verus!
