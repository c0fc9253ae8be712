//! Verified core of the OSVR client bindings: the plain-value reports that
//! OSVR hands to button callbacks, the C-string encoding of identifiers and
//! interface paths, and the decision logic of the OpenGL render manager
//! (opening it, registering its render buffers, rendering and presenting the
//! eyes, and releasing what it holds). That logic is written as step
//! functions: the caller makes each OSVR or GL call that a step names and
//! hands the result to the next step.
mod manager;
mod report;

pub mod c_string;
pub mod glutil;
pub mod laws;
pub mod open;
pub mod paths;
pub mod present;
pub mod register;
pub mod runs;

pub use manager::{release_sequence, Release, RenderBuffer, RenderManager, RenderManagerView};
pub use report::{ButtonReport, TimeValue};
