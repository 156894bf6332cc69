//! Managed images: creation descriptions, the linear image's byte contents,
//! and the host readback path.
//!
//! Both image variants are 2-D, single-level, single-layer, single-sample
//! color images of a fixed pixel format.  The optimized variant uses
//! device-optimal tiling and device-local memory; the linear variant uses
//! linear tiling and host-visible memory and is the one whose bytes the host
//! can read back.  Readback repacks the 4-byte RGBA pixels into tightly
//! packed 3-byte RGB by dropping the alpha channel.

use vstd::prelude::*;

use crate::memory::{MEMORY_PROPERTY_DEVICE_LOCAL, MEMORY_PROPERTY_HOST_VISIBLE};
use crate::surface::PixelFormat;

verus! {

/// The image can be the source of a transfer (blit) operation.
pub const IMAGE_USAGE_TRANSFER_SRC: u32 = 0x1;

/// The image can be the destination of a transfer (blit) operation.
pub const IMAGE_USAGE_TRANSFER_DST: u32 = 0x2;

/// The image can be sampled by shaders.
pub const IMAGE_USAGE_SAMPLED: u32 = 0x4;

/// The image can be rendered to as a color attachment.
pub const IMAGE_USAGE_COLOR_ATTACHMENT: u32 = 0x10;

/// How the driver lays the image out in memory.
#[derive(Clone, Copy, Debug, PartialEq, Eq, Structural)]
pub enum ImageTiling {
    /// Driver-defined layout, fastest for device-only access.
    Optimal,
    /// Row-major layout, addressable by the host.
    Linear,
}

/// The image layouts the library's operations name.
#[derive(Clone, Copy, Debug, PartialEq, Eq, Structural)]
pub enum ImageLayout {
    Undefined,
    General,
    ColorAttachmentOptimal,
}

/// Everything a 2-D image is created from.
#[derive(Clone, Copy, Debug, PartialEq, Eq, Structural)]
pub struct ImageDesc {
    pub width: u32,
    pub height: u32,
    pub depth: u32,
    pub mip_levels: u32,
    pub array_layers: u32,
    pub samples: u32,
    pub format: PixelFormat,
    pub tiling: ImageTiling,
    pub usage: u32,
    pub initial_layout: ImageLayout,
    /// Images are owned by one queue family at a time.
    pub exclusive_sharing: bool,
}

/// The creation description of the linear (host-readable) image variant: a
/// 2-D, single-level, single-layer, single-sample RGBA image with linear
/// tiling, usable as a sampled image and as a transfer destination.
pub open spec fn linear_image_desc_spec(width: u32, height: u32) -> ImageDesc {
    ImageDesc {
        width,
        height,
        depth: 1,
        mip_levels: 1,
        array_layers: 1,
        samples: 1,
        format: PixelFormat::R8G8B8A8Unorm,
        tiling: ImageTiling::Linear,
        usage: IMAGE_USAGE_SAMPLED | IMAGE_USAGE_TRANSFER_DST,
        initial_layout: ImageLayout::Undefined,
        exclusive_sharing: true,
    }
}

/// Build the creation description of the linear image variant.
pub fn linear_image_desc(width: u32, height: u32) -> (r: ImageDesc)
    ensures
        r == linear_image_desc_spec(width, height),
{
    ImageDesc {
        width,
        height,
        depth: 1,
        mip_levels: 1,
        array_layers: 1,
        samples: 1,
        format: PixelFormat::R8G8B8A8Unorm,
        tiling: ImageTiling::Linear,
        usage: IMAGE_USAGE_SAMPLED | IMAGE_USAGE_TRANSFER_DST,
        initial_layout: ImageLayout::Undefined,
        exclusive_sharing: true,
    }
}

/// The creation description of the optimized (device-local) image variant: a
/// 2-D, single-level, single-layer, single-sample RGBA image with
/// device-optimal tiling, usable as a color attachment and as a transfer
/// source.
pub open spec fn optimized_image_desc_spec(width: u32, height: u32) -> ImageDesc {
    ImageDesc {
        width,
        height,
        depth: 1,
        mip_levels: 1,
        array_layers: 1,
        samples: 1,
        format: PixelFormat::R8G8B8A8Unorm,
        tiling: ImageTiling::Optimal,
        usage: IMAGE_USAGE_COLOR_ATTACHMENT | IMAGE_USAGE_TRANSFER_SRC,
        initial_layout: ImageLayout::Undefined,
        exclusive_sharing: true,
    }
}

/// Build the creation description of the optimized image variant.
pub fn optimized_image_desc(width: u32, height: u32) -> (r: ImageDesc)
    ensures
        r == optimized_image_desc_spec(width, height),
{
    ImageDesc {
        width,
        height,
        depth: 1,
        mip_levels: 1,
        array_layers: 1,
        samples: 1,
        format: PixelFormat::R8G8B8A8Unorm,
        tiling: ImageTiling::Optimal,
        usage: IMAGE_USAGE_COLOR_ATTACHMENT | IMAGE_USAGE_TRANSFER_SRC,
        initial_layout: ImageLayout::Undefined,
        exclusive_sharing: true,
    }
}

/// The memory property an image's backing allocation must carry:
/// device-local for optimal tiling, host-visible for linear tiling.
pub fn required_memory_properties(tiling: ImageTiling) -> (r: u32)
    ensures
        tiling is Optimal ==> r == MEMORY_PROPERTY_DEVICE_LOCAL,
        tiling is Linear ==> r == MEMORY_PROPERTY_HOST_VISIBLE,
{
    match tiling {
        ImageTiling::Optimal => MEMORY_PROPERTY_DEVICE_LOCAL,
        ImageTiling::Linear => MEMORY_PROPERTY_HOST_VISIBLE,
    }
}

/// The view created over an image: 2-D, color aspect, identity component
/// swizzling, over the full single-level, single-layer subresource range.
#[derive(Clone, Copy, Debug, PartialEq, Eq, Structural)]
pub struct ImageViewDesc {
    pub format: PixelFormat,
    pub two_dimensional: bool,
    pub identity_swizzle: bool,
    pub aspect_color: bool,
    pub base_mip_level: u32,
    pub level_count: u32,
    pub base_array_layer: u32,
    pub layer_count: u32,
}

/// The fixed view description over an image of the given format.
pub open spec fn image_view_description(format: PixelFormat) -> ImageViewDesc {
    ImageViewDesc {
        format,
        two_dimensional: true,
        identity_swizzle: true,
        aspect_color: true,
        base_mip_level: 0,
        level_count: 1,
        base_array_layer: 0,
        layer_count: 1,
    }
}

/// Build the fixed view description over an image of the given format.
pub fn create_image_view_description(format: PixelFormat) -> (r: ImageViewDesc)
    ensures
        r == image_view_description(format),
{
    ImageViewDesc {
        format,
        two_dimensional: true,
        identity_swizzle: true,
        aspect_color: true,
        base_mip_level: 0,
        level_count: 1,
        base_array_layer: 0,
        layer_count: 1,
    }
}

/// Drop the alpha channel: the 4-byte RGBA pixels of `b`, repacked as
/// tightly packed 3-byte RGB pixels.
pub open spec fn strip_alpha_spec(b: Seq<u8>) -> Seq<u8> {
    Seq::new((b.len() / 4) * 3, |k: int| b[(k / 3) * 4 + (k % 3)])
}

/// Insert an alpha channel: the 3-byte RGB pixels of `rgb`, repacked as
/// 4-byte RGBA pixels whose alpha byte is `alpha`.
pub open spec fn with_alpha_spec(rgb: Seq<u8>, alpha: u8) -> Seq<u8> {
    Seq::new(
        (rgb.len() / 3) * 4,
        |k: int|
            if k % 4 == 3 {
                alpha
            } else {
                rgb[(k / 4) * 3 + (k % 4)]
            },
    )
}

/// Writing whole RGB pixels in with any alpha byte and reading them back
/// through the alpha-dropping repack returns exactly the bytes written.
pub proof fn lemma_strip_alpha_round_trip(rgb: Seq<u8>, alpha: u8)
    requires
        rgb.len() % 3 == 0,
    ensures
        strip_alpha_spec(with_alpha_spec(rgb, alpha)) == rgb,
{
    let m = rgb.len() as int / 3;
    assert(rgb.len() == 3 * m);
    let wa = with_alpha_spec(rgb, alpha);
    assert(wa.len() == 4 * m);
    let st = strip_alpha_spec(wa);
    assert((4 * m) / 4 == m) by (nonlinear_arith)
        requires
            m >= 0,
    ;
    assert(st.len() == 3 * m);
    assert forall|k: int| 0 <= k < rgb.len() implies st[k] == rgb[k] by {
        let p = k / 3;
        let j = k % 3;
        assert(k == 3 * p + j);
        assert(0 <= j < 3);
        assert(p < m) by (nonlinear_arith)
            requires
                0 <= k < 3 * m,
                p == k / 3,
        ;
        assert((4 * p + j) / 4 == p && (4 * p + j) % 4 == j) by (nonlinear_arith)
            requires
                0 <= j < 4,
                p >= 0,
        ;
        assert(st[k] == wa[4 * p + j]);
        assert(wa[4 * p + j] == rgb[3 * p + j]);
    }
    assert(st =~= rgb);
}

/// The byte contents of a linear image's host-visible memory.  This is the
/// value the driver's mapped memory holds: one 4-byte RGBA pixel per texel,
/// tightly packed.
pub struct LinearImage {
    width: u32,
    height: u32,
    bytes: Vec<u8>,
}

impl LinearImage {
    /// The image width, for contracts.
    pub closed spec fn width_spec(self) -> u32 {
        self.width
    }

    /// The image height, for contracts.
    pub closed spec fn height_spec(self) -> u32 {
        self.height
    }

    /// The pixel bytes, for contracts.
    pub closed spec fn bytes_spec(self) -> Seq<u8> {
        self.bytes@
    }

    /// The contents hold exactly one 4-byte pixel per texel.
    pub open spec fn wf(self) -> bool {
        self.bytes_spec().len() == self.width_spec() * self.height_spec() * 4
    }

    /// A linear image of the given size with all bytes zero.
    pub fn new(width: u32, height: u32) -> (r: LinearImage)
        requires
            width * height * 4 <= usize::MAX,
        ensures
            r.wf(),
            r.width_spec() == width,
            r.height_spec() == height,
            r.bytes_spec() == Seq::new((width * height * 4) as nat, |i: int| 0u8),
    {
        let total: usize = (width as usize) * (height as usize) * 4;
        let mut bytes: Vec<u8> = Vec::new();
        let mut i: usize = 0;
        while i < total
            invariant
                0 <= i <= total,
                bytes@.len() == i,
                forall|j: int| 0 <= j < i ==> bytes@[j] == 0u8,
            decreases total - i,
        {
            bytes.push(0);
            i = i + 1;
        }
        let r = LinearImage { width, height, bytes };
        assert(r.bytes_spec() =~= Seq::new((width * height * 4) as nat, |i: int| 0u8));
        r
    }

    /// The image width in pixels.
    pub fn width(&self) -> (r: u32)
        ensures
            r == self.width_spec(),
    {
        self.width
    }

    /// The image height in pixels.
    pub fn height(&self) -> (r: u32)
        ensures
            r == self.height_spec(),
    {
        self.height
    }

    /// Replace the image contents with the given RGBA pixel bytes.
    pub fn write_pixels(&mut self, rgba: &Vec<u8>)
        requires
            old(self).wf(),
            rgba@.len() == old(self).bytes_spec().len(),
        ensures
            final(self).wf(),
            final(self).width_spec() == old(self).width_spec(),
            final(self).height_spec() == old(self).height_spec(),
            final(self).bytes_spec() == rgba@,
    {
        let n = rgba.len();
        let mut out: Vec<u8> = Vec::new();
        let mut i: usize = 0;
        while i < n
            invariant
                n == rgba@.len(),
                0 <= i <= n,
                out@ =~= rgba@.take(i as int),
            decreases n - i,
        {
            out.push(rgba[i]);
            i = i + 1;
        }
        assert(out@ =~= rgba@);
        self.bytes = out;
    }

    /// Read the contents back as tightly packed RGB bytes: each pixel's
    /// alpha byte is dropped, everything else is returned unchanged, in
    /// order.
    pub fn export_rgb(&self) -> (r: Vec<u8>)
        requires
            self.wf(),
        ensures
            r@ == strip_alpha_spec(self.bytes_spec()),
            r@.len() == self.width_spec() * self.height_spec() * 3,
    {
        let len = self.bytes.len();
        let n = len / 4;
        proof {
            let wh = self.width_spec() * self.height_spec();
            assert(len == 4 * wh);
            assert((4 * wh) / 4 == wh) by (nonlinear_arith)
                requires
                    wh >= 0,
            ;
            assert(n == wh);
        }
        let mut out: Vec<u8> = Vec::new();
        let mut p: usize = 0;
        while p < n
            invariant
                n == self.bytes@.len() / 4,
                self.bytes@.len() == 4 * n,
                4 * n <= usize::MAX,
                0 <= p <= n,
                out@.len() == 3 * p,
                forall|k: int| 0 <= k < 3 * p ==> out@[k] == self.bytes@[(k / 3) * 4 + (k % 3)],
            decreases n - p,
        {
            let base = 4 * p;
            out.push(self.bytes[base]);
            out.push(self.bytes[base + 1]);
            out.push(self.bytes[base + 2]);
            proof {
                assert forall|k: int| 0 <= k < 3 * (p + 1) implies out@[k] == self.bytes@[(k / 3)
                    * 4 + (k % 3)] by {
                    if k >= 3 * (p as int) {
                        let j = k - 3 * (p as int);
                        assert(0 <= j < 3);
                        assert(k / 3 == p as int && k % 3 == j) by (nonlinear_arith)
                            requires
                                0 <= j < 3,
                                p >= 0,
                                k == 3 * (p as int) + j,
                        ;
                        assert(out@[k] == self.bytes@[4 * (p as int) + j]);
                    }
                }
            }
            p = p + 1;
        }
        proof {
            assert(out@ =~= strip_alpha_spec(self.bytes_spec()));
        }
        out
    }
}

} // verus!
