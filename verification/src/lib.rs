//! Verified negotiation core of a minimal GPU rendering substrate.
//!
//! The crate models the decision layer of a handle-based graphics stack:
//! physical-device and queue-family selection, surface/swapchain format and
//! present-mode negotiation, memory-type selection, the fixed descriptions of
//! the GPU objects (images, render pass, pipeline, framebuffer), and the
//! synchronous command-recording protocol.  Everything here is a pure function
//! of plain values; the unsafe driver calls that act on these decisions live
//! outside the library.

use vstd::prelude::*;

pub mod command;
pub mod device;
pub mod framebuffer;
pub mod image;
pub mod memory;
pub mod physical_device;
pub mod pipeline;
pub mod queue_family;
pub mod queue_family_index;
pub mod render_pass;
pub mod shader;
pub mod surface;
pub mod swapchain;

verus! {

/// Failures that the negotiation layer itself can decide.  Driver-side
/// creation and submission failures are surfaced by the unverified glue.
#[derive(Clone, Copy, Debug, PartialEq, Eq, Structural)]
pub enum RenderError {
    /// No enumerated device satisfies the capability requirements.
    NoSuitableDevice,
    /// No reported memory type matches a resource's requirement bitmask and
    /// required property flags.
    NoSuitableMemoryType,
    /// None of the supported present modes is offered by the surface.
    NoSupportedPresentMode,
    /// Shader bytecode is empty, not a whole number of words, or lacks the
    /// SPIR-V magic number.
    InvalidShaderCode,
}

} // verus!
