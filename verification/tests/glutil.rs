use osvr::glutil::{check_framebuffer_status, FramebufferError};

const FRAMEBUFFER_COMPLETE: u32 = 0x8CD5;
const FRAMEBUFFER_INCOMPLETE_ATTACHMENT: u32 = 0x8CD6;

#[test]
fn complete_framebuffer_passes() {
    assert_eq!(check_framebuffer_status(FRAMEBUFFER_COMPLETE, FRAMEBUFFER_COMPLETE), Ok(()));
}

#[test]
fn incomplete_framebuffer_is_reported_with_its_status() {
    assert_eq!(
        check_framebuffer_status(FRAMEBUFFER_INCOMPLETE_ATTACHMENT, FRAMEBUFFER_COMPLETE),
        Err(FramebufferError::Incomplete { status: FRAMEBUFFER_INCOMPLETE_ATTACHMENT })
    );
}
