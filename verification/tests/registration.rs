use osvr::register::{RegisterAction, RegisterError, RegisterEvent, RegisterPhase, Registration};
use osvr::{Release, RenderBuffer, RenderManager};

struct Eye {
    width: i32,
    height: i32,
    color: u32,
    depth: u32,
}

fn feed(reg: Registration, event: RegisterEvent, log: &mut Vec<RegisterAction>) -> Registration {
    assert!(reg.accepts(&event));
    let (reg, action) = reg.step(event);
    log.push(action);
    reg
}

/// Runs a registration in which every call succeeds.
fn register(manager: RenderManager, frame_buffer: u32, eyes: &[Eye]) -> (RenderManager, Vec<RegisterAction>) {
    let mut log = Vec::new();
    let (mut reg, first) = Registration::start(manager);
    log.push(first);
    reg = feed(reg, RegisterEvent::RenderInfoQueried { code: 0 }, &mut log);
    reg = feed(reg, RegisterEvent::Counted { count: eyes.len() }, &mut log);
    reg = feed(reg, RegisterEvent::FramebufferCreated { name: frame_buffer }, &mut log);
    reg = feed(reg, RegisterEvent::RegistrationStarted { code: 0 }, &mut log);
    for eye in eyes {
        reg = feed(reg, RegisterEvent::EyeInfoFetched { code: 0, width: eye.width, height: eye.height }, &mut log);
        reg = feed(reg, RegisterEvent::ColorBufferCreated { code: 0, name: eye.color }, &mut log);
        reg = feed(reg, RegisterEvent::DepthBufferCreated { code: 0, name: eye.depth }, &mut log);
        reg = feed(reg, RegisterEvent::BufferRegistered { code: 0 }, &mut log);
    }
    reg = feed(reg, RegisterEvent::RegistrationFinished { code: 0 }, &mut log);
    assert_eq!(reg.phase(), RegisterPhase::Done);
    (reg.into_manager(), log)
}

fn two_eyes() -> Vec<Eye> {
    vec![
        Eye { width: 1080, height: 1200, color: 11, depth: 21 },
        Eye { width: 1080, height: 1200, color: 12, depth: 22 },
    ]
}

#[test]
fn registration_makes_and_registers_a_pair_per_eye() {
    let (manager, log) = register(RenderManager::new(), 7, &two_eyes());
    assert_eq!(
        log,
        vec![
            RegisterAction::QueryRenderInfo,
            RegisterAction::CountRenderInfo,
            RegisterAction::CreateFramebuffer,
            RegisterAction::StartRegistration,
            RegisterAction::FetchEyeInfo { eye: 0 },
            RegisterAction::CreateColorBuffer { width: 1080, height: 1200 },
            RegisterAction::CreateDepthBuffer { width: 1080, height: 1200 },
            RegisterAction::RegisterBuffer {
                buffer: RenderBuffer { color_buffer_name: 11, depth_stencil_buffer_name: 21 }
            },
            RegisterAction::FetchEyeInfo { eye: 1 },
            RegisterAction::CreateColorBuffer { width: 1080, height: 1200 },
            RegisterAction::CreateDepthBuffer { width: 1080, height: 1200 },
            RegisterAction::RegisterBuffer {
                buffer: RenderBuffer { color_buffer_name: 12, depth_stencil_buffer_name: 22 }
            },
            RegisterAction::FinishRegistration,
            RegisterAction::Complete,
        ]
    );
    assert_eq!(manager.frame_buffer(), 7);
    assert_eq!(manager.color_buffer_count(), 2);
    assert_eq!(manager.depth_buffer_count(), 2);
    // The kept copies name only the color buffer.
    assert_eq!(manager.color_buffer(0), RenderBuffer { color_buffer_name: 11, depth_stencil_buffer_name: 0 });
    assert_eq!(manager.color_buffer(1), RenderBuffer { color_buffer_name: 12, depth_stencil_buffer_name: 0 });
    assert_eq!(manager.depth_buffer(0), 21);
    assert_eq!(manager.depth_buffer(1), 22);
}

#[test]
fn eyes_of_different_sizes_get_buffers_of_their_own_size() {
    let eyes = vec![
        Eye { width: 640, height: 480, color: 1, depth: 2 },
        Eye { width: 800, height: 600, color: 3, depth: 4 },
    ];
    let (_, log) = register(RenderManager::new(), 9, &eyes);
    assert_eq!(log[5], RegisterAction::CreateColorBuffer { width: 640, height: 480 });
    assert_eq!(log[6], RegisterAction::CreateDepthBuffer { width: 640, height: 480 });
    assert_eq!(log[9], RegisterAction::CreateColorBuffer { width: 800, height: 600 });
    assert_eq!(log[10], RegisterAction::CreateDepthBuffer { width: 800, height: 600 });
}

#[test]
fn registration_without_render_infos_goes_straight_to_finish() {
    let (manager, log) = register(RenderManager::new(), 5, &[]);
    assert_eq!(
        log,
        vec![
            RegisterAction::QueryRenderInfo,
            RegisterAction::CountRenderInfo,
            RegisterAction::CreateFramebuffer,
            RegisterAction::StartRegistration,
            RegisterAction::FinishRegistration,
            RegisterAction::Complete,
        ]
    );
    assert_eq!(manager.frame_buffer(), 5);
    assert_eq!(manager.color_buffer_count(), 0);
    assert_eq!(manager.depth_buffer_count(), 0);
}

#[test]
fn second_registration_appends_to_the_first() {
    let (manager, _) = register(RenderManager::new(), 7, &two_eyes());
    let more = vec![Eye { width: 10, height: 10, color: 31, depth: 41 }];
    let (manager, _) = register(manager, 8, &more);
    assert_eq!(manager.frame_buffer(), 8);
    assert_eq!(manager.color_buffer_count(), 3);
    assert_eq!(manager.depth_buffer_count(), 3);
    assert_eq!(manager.color_buffer(0).color_buffer_name, 11);
    assert_eq!(manager.color_buffer(2).color_buffer_name, 31);
    assert_eq!(manager.depth_buffer(2), 41);
}

#[test]
fn release_plan_after_registration_frees_framebuffer_then_each_pair() {
    let (manager, _) = register(RenderManager::new(), 7, &two_eyes());
    assert_eq!(
        manager.release_plan(),
        vec![
            Release::DeleteFramebuffer { name: 7 },
            Release::DeleteTexture { name: 11 },
            Release::DeleteRenderbuffer { name: 21 },
            Release::DeleteTexture { name: 12 },
            Release::DeleteRenderbuffer { name: 22 },
        ]
    );
}

#[test]
fn release_plan_of_fresh_manager_frees_only_framebuffer_zero() {
    let manager = RenderManager::new();
    assert_eq!(manager.frame_buffer(), 0);
    assert_eq!(manager.release_plan(), vec![Release::DeleteFramebuffer { name: 0 }]);
}

/// Feeds `events_before` to a new registration, then `last`, which must fail it.
fn fail_with(events_before: Vec<RegisterEvent>, last: RegisterEvent) -> (RenderManager, RegisterAction) {
    let (mut reg, _) = Registration::start(RenderManager::new());
    let mut log = Vec::new();
    for e in events_before {
        reg = feed(reg, e, &mut log);
    }
    let (reg, action) = reg.step(last);
    assert!(matches!(reg.phase(), RegisterPhase::Failed { .. }));
    // A failed registration takes nothing more.
    assert!(!reg.accepts(&RegisterEvent::RegistrationFinished { code: 0 }));
    (reg.into_manager(), action)
}

fn prefix(n: usize) -> Vec<RegisterEvent> {
    let all = vec![
        RegisterEvent::RenderInfoQueried { code: 0 },
        RegisterEvent::Counted { count: 2 },
        RegisterEvent::FramebufferCreated { name: 7 },
        RegisterEvent::RegistrationStarted { code: 0 },
        RegisterEvent::EyeInfoFetched { code: 0, width: 4, height: 3 },
        RegisterEvent::ColorBufferCreated { code: 0, name: 11 },
        RegisterEvent::DepthBufferCreated { code: 0, name: 21 },
        RegisterEvent::BufferRegistered { code: 0 },
        RegisterEvent::EyeInfoFetched { code: 0, width: 4, height: 3 },
        RegisterEvent::ColorBufferCreated { code: 0, name: 12 },
        RegisterEvent::DepthBufferCreated { code: 0, name: 22 },
        RegisterEvent::BufferRegistered { code: 0 },
    ];
    all.into_iter().take(n).collect()
}

#[test]
fn render_info_failure_stops_registration() {
    let (m, a) = fail_with(prefix(0), RegisterEvent::RenderInfoQueried { code: 1 });
    assert_eq!(a, RegisterAction::Abort { error: RegisterError::RenderInfoUnavailable });
    assert_eq!(m.color_buffer_count(), 0);
    assert_eq!(m.frame_buffer(), 0);
}

#[test]
fn start_failure_stops_registration() {
    let (m, a) = fail_with(prefix(3), RegisterEvent::RegistrationStarted { code: -1 });
    assert_eq!(a, RegisterAction::Abort { error: RegisterError::StartFailed });
    assert_eq!(m.frame_buffer(), 7);
}

#[test]
fn eye_info_failure_names_the_eye() {
    let (m, a) = fail_with(prefix(8), RegisterEvent::EyeInfoFetched { code: 1, width: 4, height: 3 });
    assert_eq!(a, RegisterAction::Abort { error: RegisterError::EyeInfoUnavailable { eye: 1 } });
    assert_eq!(m.color_buffer_count(), 1);
    assert_eq!(m.depth_buffer_count(), 1);
}

#[test]
fn color_buffer_failure_stops_registration() {
    let (m, a) = fail_with(prefix(5), RegisterEvent::ColorBufferCreated { code: 1, name: 99 });
    assert_eq!(a, RegisterAction::Abort { error: RegisterError::ColorBufferFailed });
    assert_eq!(m.color_buffer_count(), 0);
}

#[test]
fn depth_buffer_failure_leaves_the_eyes_color_buffer() {
    let (m, a) = fail_with(prefix(6), RegisterEvent::DepthBufferCreated { code: 1, name: 99 });
    assert_eq!(a, RegisterAction::Abort { error: RegisterError::DepthBufferFailed });
    assert_eq!(m.color_buffer_count(), 1);
    assert_eq!(m.depth_buffer_count(), 0);
}

#[test]
fn register_failure_names_the_eye() {
    let (m, a) = fail_with(prefix(11), RegisterEvent::BufferRegistered { code: 2 });
    assert_eq!(a, RegisterAction::Abort { error: RegisterError::RegisterFailed { eye: 1 } });
    assert_eq!(m.color_buffer_count(), 2);
    assert_eq!(m.depth_buffer_count(), 2);
}

#[test]
fn finish_failure_stops_registration() {
    let (m, a) = fail_with(prefix(12), RegisterEvent::RegistrationFinished { code: 3 });
    assert_eq!(a, RegisterAction::Abort { error: RegisterError::FinishFailed });
    assert_eq!(m.color_buffer_count(), 2);
}

#[test]
fn registration_refuses_an_event_out_of_turn() {
    let (reg, _) = Registration::start(RenderManager::new());
    assert!(reg.accepts(&RegisterEvent::RenderInfoQueried { code: 0 }));
    assert!(!reg.accepts(&RegisterEvent::Counted { count: 2 }));
    assert!(!reg.accepts(&RegisterEvent::BufferRegistered { code: 0 }));
}
