//! The framebuffer description: exactly one attachment view bound to a
//! render pass at a given size, with one layer.

use vstd::prelude::*;

verus! {

/// Everything a framebuffer is created from, beside the render pass and the
/// attachment view it binds.
#[derive(Clone, Copy, Debug, PartialEq, Eq, Structural)]
pub struct FramebufferDesc {
    pub width: u32,
    pub height: u32,
    pub layers: u32,
    pub attachment_count: u32,
}

/// Build the framebuffer description for the given size: one attachment,
/// one layer.
pub fn framebuffer_description(width: u32, height: u32) -> (r: FramebufferDesc)
    ensures
        r.width == width,
        r.height == height,
        r.layers == 1,
        r.attachment_count == 1,
{
    FramebufferDesc { width, height, layers: 1, attachment_count: 1 }
}

} // verus!
