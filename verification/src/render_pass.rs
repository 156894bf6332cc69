//! The render-pass description.
//!
//! One color attachment of the fixed pixel format, single-sampled, loaded
//! with "don't care" and stored, ending in the general layout; one subpass
//! binding that attachment as its sole color attachment; no explicit subpass
//! dependencies.

use vstd::prelude::*;

use crate::image::ImageLayout;
use crate::surface::PixelFormat;

verus! {

/// What happens to an attachment's contents when a render pass begins.
#[derive(Clone, Copy, Debug, PartialEq, Eq, Structural)]
pub enum AttachmentLoadOp {
    Load,
    Clear,
    DontCare,
}

/// What happens to an attachment's contents when a render pass ends.
#[derive(Clone, Copy, Debug, PartialEq, Eq, Structural)]
pub enum AttachmentStoreOp {
    Store,
    DontCare,
}

/// How the render pass uses its one attachment.
#[derive(Clone, Copy, Debug, PartialEq, Eq, Structural)]
pub struct AttachmentDescription {
    pub format: PixelFormat,
    pub samples: u32,
    pub load_op: AttachmentLoadOp,
    pub store_op: AttachmentStoreOp,
    pub stencil_load_op: AttachmentLoadOp,
    pub stencil_store_op: AttachmentStoreOp,
    pub initial_layout: ImageLayout,
    pub final_layout: ImageLayout,
}

/// The one subpass: a graphics binding of attachment 0 as the sole color
/// attachment.
#[derive(Clone, Copy, Debug, PartialEq, Eq, Structural)]
pub struct SubpassDescription {
    pub graphics_bind_point: bool,
    pub color_attachment: u32,
    pub color_attachment_layout: ImageLayout,
}

/// Everything the render pass is created from.
#[derive(Clone, Copy, Debug, PartialEq, Eq, Structural)]
pub struct RenderPassDesc {
    pub attachment: AttachmentDescription,
    pub subpass: SubpassDescription,
    pub dependency_count: u32,
}

/// The fixed render-pass description: one single-sampled color attachment of
/// the fixed pixel format, loaded "don't care", stored, ending in the
/// general layout; one graphics subpass binding it as the sole color
/// attachment; no explicit dependencies.
pub open spec fn render_pass_description_spec() -> RenderPassDesc {
    RenderPassDesc {
        attachment: AttachmentDescription {
            format: PixelFormat::R8G8B8A8Unorm,
            samples: 1,
            load_op: AttachmentLoadOp::DontCare,
            store_op: AttachmentStoreOp::Store,
            stencil_load_op: AttachmentLoadOp::DontCare,
            stencil_store_op: AttachmentStoreOp::DontCare,
            initial_layout: ImageLayout::Undefined,
            final_layout: ImageLayout::General,
        },
        subpass: SubpassDescription {
            graphics_bind_point: true,
            color_attachment: 0,
            color_attachment_layout: ImageLayout::ColorAttachmentOptimal,
        },
        dependency_count: 0,
    }
}

/// Build the fixed render-pass description.
pub fn render_pass_description() -> (r: RenderPassDesc)
    ensures
        r == render_pass_description_spec(),
{
    RenderPassDesc {
        attachment: AttachmentDescription {
            format: PixelFormat::R8G8B8A8Unorm,
            samples: 1,
            load_op: AttachmentLoadOp::DontCare,
            store_op: AttachmentStoreOp::Store,
            stencil_load_op: AttachmentLoadOp::DontCare,
            stencil_store_op: AttachmentStoreOp::DontCare,
            initial_layout: ImageLayout::Undefined,
            final_layout: ImageLayout::General,
        },
        subpass: SubpassDescription {
            graphics_bind_point: true,
            color_attachment: 0,
            color_attachment_layout: ImageLayout::ColorAttachmentOptimal,
        },
        dependency_count: 0,
    }
}

} // verus!
