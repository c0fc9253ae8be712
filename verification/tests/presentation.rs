use osvr::present::{PresentAction, PresentError, PresentEvent, PresentPhase, Presentation};
use osvr::register::{RegisterEvent, RegisterPhase, Registration};
use osvr::{RenderBuffer, RenderManager};

/// A manager whose registration of `pairs` (color, depth) succeeded, with
/// framebuffer 7.
fn registered(pairs: &[(u32, u32)]) -> RenderManager {
    let (mut reg, _) = Registration::start(RenderManager::new());
    let mut events = vec![
        RegisterEvent::RenderInfoQueried { code: 0 },
        RegisterEvent::Counted { count: pairs.len() },
        RegisterEvent::FramebufferCreated { name: 7 },
        RegisterEvent::RegistrationStarted { code: 0 },
    ];
    for &(color, depth) in pairs {
        events.push(RegisterEvent::EyeInfoFetched { code: 0, width: 2, height: 2 });
        events.push(RegisterEvent::ColorBufferCreated { code: 0, name: color });
        events.push(RegisterEvent::DepthBufferCreated { code: 0, name: depth });
        events.push(RegisterEvent::BufferRegistered { code: 0 });
    }
    events.push(RegisterEvent::RegistrationFinished { code: 0 });
    for e in events {
        assert!(reg.accepts(&e));
        reg = reg.step(e).0;
    }
    assert_eq!(reg.phase(), RegisterPhase::Done);
    reg.into_manager()
}

fn run<'a>(manager: &'a RenderManager, events: Vec<PresentEvent>) -> (Presentation<'a>, Vec<PresentAction>) {
    let (mut frame, first) = Presentation::start(manager);
    let mut log = vec![first];
    for e in events {
        assert!(frame.accepts(&e));
        let (next, action) = frame.step(e);
        frame = next;
        log.push(action);
    }
    (frame, log)
}

fn frame_events(count: usize) -> Vec<PresentEvent> {
    let mut events = vec![PresentEvent::RenderInfoQueried { code: 0 }, PresentEvent::Counted { count }];
    for _ in 0..count {
        events.push(PresentEvent::EyeInfoFetched { code: 0 });
        events.push(PresentEvent::EyeDrawn);
    }
    events.push(PresentEvent::PresentStarted { code: 0 });
    for _ in 0..count {
        events.push(PresentEvent::EyeInfoFetched { code: 0 });
        events.push(PresentEvent::EyePresented { code: 0 });
    }
    events.push(PresentEvent::Released);
    events.push(PresentEvent::PresentFinished { code: 0 });
    events
}

#[test]
fn unregistered_manager_cannot_render() {
    let manager = RenderManager::new();
    let (frame, action) = Presentation::start(&manager);
    assert_eq!(action, PresentAction::Abort { error: PresentError::NotRegistered });
    assert_eq!(frame.phase(), PresentPhase::Failed { error: PresentError::NotRegistered });
    assert!(!frame.accepts(&PresentEvent::RenderInfoQueried { code: 0 }));
}

#[test]
fn registration_without_eyes_still_cannot_render() {
    let manager = registered(&[]);
    let (_, action) = Presentation::start(&manager);
    assert_eq!(action, PresentAction::Abort { error: PresentError::NotRegistered });
}

#[test]
fn frame_draws_then_presents_every_eye() {
    let manager = registered(&[(11, 21), (12, 22)]);
    let (frame, log) = run(&manager, frame_events(2));
    assert_eq!(
        log,
        vec![
            PresentAction::QueryRenderInfo,
            PresentAction::CountRenderInfo,
            PresentAction::FetchEyeInfo { eye: 0 },
            PresentAction::DrawEye { eye: 0, frame_buffer: 7, color_buffer: 11, depth_buffer: 21 },
            PresentAction::FetchEyeInfo { eye: 1 },
            PresentAction::DrawEye { eye: 1, frame_buffer: 7, color_buffer: 12, depth_buffer: 22 },
            PresentAction::StartPresent,
            PresentAction::FetchEyeInfo { eye: 0 },
            PresentAction::PresentEye {
                eye: 0,
                buffer: RenderBuffer { color_buffer_name: 11, depth_stencil_buffer_name: 0 }
            },
            PresentAction::FetchEyeInfo { eye: 1 },
            PresentAction::PresentEye {
                eye: 1,
                buffer: RenderBuffer { color_buffer_name: 12, depth_stencil_buffer_name: 0 }
            },
            PresentAction::ReleaseRenderInfo,
            PresentAction::FinishPresent,
            PresentAction::Complete,
        ]
    );
    assert_eq!(frame.phase(), PresentPhase::Done);
}

#[test]
fn frame_with_fewer_eyes_than_buffers_uses_the_first_ones() {
    let manager = registered(&[(11, 21), (12, 22)]);
    let (_, log) = run(&manager, frame_events(1));
    assert_eq!(log[3], PresentAction::DrawEye { eye: 0, frame_buffer: 7, color_buffer: 11, depth_buffer: 21 });
    assert_eq!(log[4], PresentAction::StartPresent);
}

#[test]
fn frame_with_no_eyes_presents_nothing() {
    let manager = registered(&[(11, 21)]);
    let (frame, log) = run(&manager, frame_events(0));
    assert_eq!(
        log,
        vec![
            PresentAction::QueryRenderInfo,
            PresentAction::CountRenderInfo,
            PresentAction::StartPresent,
            PresentAction::ReleaseRenderInfo,
            PresentAction::FinishPresent,
            PresentAction::Complete,
        ]
    );
    assert_eq!(frame.phase(), PresentPhase::Done);
}

#[test]
fn eye_beyond_the_registered_buffers_stops_the_frame() {
    let manager = registered(&[(11, 21)]);
    let events = vec![
        PresentEvent::RenderInfoQueried { code: 0 },
        PresentEvent::Counted { count: 2 },
        PresentEvent::EyeInfoFetched { code: 0 },
        PresentEvent::EyeDrawn,
        PresentEvent::EyeInfoFetched { code: 0 },
    ];
    let (frame, log) = run(&manager, events);
    assert_eq!(log[3], PresentAction::DrawEye { eye: 0, frame_buffer: 7, color_buffer: 11, depth_buffer: 21 });
    assert_eq!(log[5], PresentAction::Abort { error: PresentError::BufferMissing { eye: 1 } });
    assert_eq!(frame.phase(), PresentPhase::Failed { error: PresentError::BufferMissing { eye: 1 } });
}

#[test]
fn eye_info_code_is_not_checked() {
    let manager = registered(&[(11, 21)]);
    let events = vec![
        PresentEvent::RenderInfoQueried { code: 0 },
        PresentEvent::Counted { count: 1 },
        PresentEvent::EyeInfoFetched { code: 5 },
        PresentEvent::EyeDrawn,
        PresentEvent::PresentStarted { code: 0 },
        PresentEvent::EyeInfoFetched { code: -2 },
    ];
    let (_, log) = run(&manager, events);
    assert_eq!(log[3], PresentAction::DrawEye { eye: 0, frame_buffer: 7, color_buffer: 11, depth_buffer: 21 });
    assert_eq!(
        log[6],
        PresentAction::PresentEye { eye: 0, buffer: RenderBuffer { color_buffer_name: 11, depth_stencil_buffer_name: 0 } }
    );
}

fn failing_frame(prefix: usize, last: PresentEvent) -> PresentAction {
    let manager = registered(&[(11, 21), (12, 22)]);
    let mut events: Vec<PresentEvent> = frame_events(2).into_iter().take(prefix).collect();
    events.push(last);
    let (frame, log) = run(&manager, events);
    assert!(matches!(frame.phase(), PresentPhase::Failed { .. }));
    *log.last().unwrap()
}

#[test]
fn render_info_failure_stops_the_frame() {
    assert_eq!(
        failing_frame(0, PresentEvent::RenderInfoQueried { code: 1 }),
        PresentAction::Abort { error: PresentError::RenderInfoUnavailable }
    );
}

#[test]
fn start_present_failure_stops_the_frame() {
    assert_eq!(
        failing_frame(6, PresentEvent::PresentStarted { code: 1 }),
        PresentAction::Abort { error: PresentError::StartFailed }
    );
}

#[test]
fn present_failure_names_the_eye() {
    assert_eq!(
        failing_frame(10, PresentEvent::EyePresented { code: 1 }),
        PresentAction::Abort { error: PresentError::PresentFailed { eye: 1 } }
    );
}

#[test]
fn finish_present_failure_stops_the_frame() {
    assert_eq!(
        failing_frame(12, PresentEvent::PresentFinished { code: 1 }),
        PresentAction::Abort { error: PresentError::FinishFailed }
    );
}
