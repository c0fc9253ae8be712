use osvr::open::{OpenAction, OpenError, OpenEvent, OpenPhase, Opening};

#[test]
fn opening_creates_then_opens_then_loads_gl() {
    let (mut opening, first) = Opening::start();
    assert_eq!(first, OpenAction::CreateRenderManager);
    assert_eq!(opening.step(OpenEvent::Created { code: 0 }), OpenAction::OpenDisplay);
    assert_eq!(opening.step(OpenEvent::DisplayOpened { code: 0 }), OpenAction::LoadGl);
    assert_eq!(opening.step(OpenEvent::GlLoaded), OpenAction::Complete);
    let manager = opening.finish().unwrap();
    assert_eq!(manager.frame_buffer(), 0);
    assert_eq!(manager.color_buffer_count(), 0);
    assert_eq!(manager.depth_buffer_count(), 0);
}

#[test]
fn failed_creation_gives_no_manager() {
    let (mut opening, _) = Opening::start();
    assert_eq!(
        opening.step(OpenEvent::Created { code: 1 }),
        OpenAction::Abort { error: OpenError::CreateFailed }
    );
    assert!(!opening.accepts(&OpenEvent::DisplayOpened { code: 0 }));
    assert!(opening.finish().is_none());
}

#[test]
fn failed_display_gives_no_manager() {
    let (mut opening, _) = Opening::start();
    opening.step(OpenEvent::Created { code: 0 });
    assert_eq!(
        opening.step(OpenEvent::DisplayOpened { code: -1 }),
        OpenAction::Abort { error: OpenError::DisplayFailed }
    );
    assert!(opening.finish().is_none());
}

#[test]
fn opening_is_not_ready_before_gl_is_loaded() {
    let (mut opening, _) = Opening::start();
    opening.step(OpenEvent::Created { code: 0 });
    opening.step(OpenEvent::DisplayOpened { code: 0 });
    assert!(opening.accepts(&OpenEvent::GlLoaded));
    assert!(!opening.accepts(&OpenEvent::Created { code: 0 }));
    assert!(opening.finish().is_none());
}

#[test]
fn phases_follow_the_calls() {
    let (mut opening, _) = Opening::start();
    assert_eq!(opening.phase(), OpenPhase::Creating);
    opening.step(OpenEvent::Created { code: 0 });
    assert_eq!(opening.phase(), OpenPhase::OpeningDisplay);
    opening.step(OpenEvent::DisplayOpened { code: 0 });
    assert_eq!(opening.phase(), OpenPhase::LoadingGl);
    opening.step(OpenEvent::GlLoaded);
    assert_eq!(opening.phase(), OpenPhase::Ready);
}

#[test]
fn failed_phase_names_the_failure() {
    let (mut opening, _) = Opening::start();
    opening.step(OpenEvent::Created { code: 4 });
    assert_eq!(opening.phase(), OpenPhase::Failed { error: OpenError::CreateFailed });
}
