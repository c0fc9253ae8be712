//! Checks that the OpenGL helpers make on what GL reports.
use vstd::prelude::*;

verus! {

/// Why a framebuffer cannot be rendered into.
#[derive(Clone, Copy, Debug, PartialEq, Eq, Structural)]
pub enum FramebufferError {
    /// GL reports this status for the framebuffer, not the complete one.
    Incomplete { status: u32 },
}

/// After binding a frame's color and depth buffers, the framebuffer is
/// usable only when GL reports it complete: `status` is what GL reports and
/// `complete` is GL's status code for a complete framebuffer.
pub fn check_framebuffer_status(status: u32, complete: u32) -> (r: Result<(), FramebufferError>)
    ensures
        r is Ok <==> status == complete,
        r matches Err(FramebufferError::Incomplete { status: s }) ==> s == status,
{
    if status == complete {
        Ok(())
    } else {
        Err(FramebufferError::Incomplete { status })
    }
}

} // verus!
