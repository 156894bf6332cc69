//! Surface negotiation: extent, pixel format and present mode.
//!
//! These are pure functions of the capability, format and present-mode lists
//! that a surface reports for a physical device.

use vstd::prelude::*;

use crate::RenderError;

verus! {

/// Width reported in `current_extent` when the surface leaves the extent
/// undefined and the application must pick one within the advertised range.
pub const EXTENT_UNDEFINED: u32 = 0xffff_ffff;

/// A two-dimensional size in pixels.
#[derive(Clone, Copy, Debug, PartialEq, Eq, Structural)]
pub struct Extent2D {
    pub width: u32,
    pub height: u32,
}

/// The capability data a surface reports for a physical device, reduced to
/// the fields the negotiation reads.
#[derive(Clone, Copy, Debug, PartialEq, Eq, Structural)]
pub struct SurfaceCapabilities {
    pub min_image_count: u32,
    /// Zero means "no upper limit".
    pub max_image_count: u32,
    pub current_extent: Extent2D,
    pub min_image_extent: Extent2D,
    pub max_image_extent: Extent2D,
}

impl SurfaceCapabilities {
    /// The advertised extent range is non-empty on each axis.
    pub open spec fn wf(self) -> bool {
        &&& self.min_image_extent.width <= self.max_image_extent.width
        &&& self.min_image_extent.height <= self.max_image_extent.height
    }
}

/// A pixel format, reduced to the cases the negotiation distinguishes.
#[derive(Clone, Copy, Debug, PartialEq, Eq, Structural)]
pub enum PixelFormat {
    Undefined,
    B8G8R8A8Unorm,
    R8G8B8A8Unorm,
    Other(u32),
}

/// A color space, reduced to the cases the negotiation distinguishes.
#[derive(Clone, Copy, Debug, PartialEq, Eq, Structural)]
pub enum ColorSpace {
    SrgbNonlinear,
    Other(u32),
}

/// One entry of the format list a surface reports.
#[derive(Clone, Copy, Debug, PartialEq, Eq, Structural)]
pub struct SurfaceFormat {
    pub format: PixelFormat,
    pub color_space: ColorSpace,
}

/// A presentation mode, reduced to the cases the negotiation distinguishes.
#[derive(Clone, Copy, Debug, PartialEq, Eq, Structural)]
pub enum PresentMode {
    Immediate,
    Mailbox,
    Fifo,
    Other(u32),
}

/// `x` clamped into `[lo, hi]`.
pub open spec fn clamped(x: u32, lo: u32, hi: u32) -> u32 {
    if x < lo {
        lo
    } else if x > hi {
        hi
    } else {
        x
    }
}

/// The extent the negotiation settles on: the surface's own extent when it is
/// concrete, otherwise the requested size clamped into the advertised range,
/// per axis independently.
pub open spec fn negotiated_extent(caps: SurfaceCapabilities, requested: Extent2D) -> Extent2D {
    if caps.current_extent.width != EXTENT_UNDEFINED {
        caps.current_extent
    } else {
        Extent2D {
            width: clamped(
                requested.width,
                caps.min_image_extent.width,
                caps.max_image_extent.width,
            ),
            height: clamped(
                requested.height,
                caps.min_image_extent.height,
                caps.max_image_extent.height,
            ),
        }
    }
}

fn clamp_u32(x: u32, lo: u32, hi: u32) -> (r: u32)
    requires
        lo <= hi,
    ensures
        r == clamped(x, lo, hi),
        lo <= r <= hi,
{
    if x < lo {
        lo
    } else if x > hi {
        hi
    } else {
        x
    }
}

/// Settle the swapchain extent from the reported capabilities.
///
/// A concrete `current_extent` (one whose width is not the undefined
/// sentinel) is returned unchanged; under the sentinel the requested size is
/// clamped into `[min_image_extent, max_image_extent]` on each axis, so the
/// result always lies within the advertised range in that case.
pub fn decide_swapchain_extent(caps: &SurfaceCapabilities, requested: Extent2D) -> (r: Extent2D)
    requires
        caps.wf(),
    ensures
        r == negotiated_extent(*caps, requested),
        caps.current_extent.width != EXTENT_UNDEFINED ==> r == caps.current_extent,
        caps.current_extent.width == EXTENT_UNDEFINED ==> {
            &&& caps.min_image_extent.width <= r.width <= caps.max_image_extent.width
            &&& caps.min_image_extent.height <= r.height <= caps.max_image_extent.height
        },
{
    if caps.current_extent.width != EXTENT_UNDEFINED {
        return caps.current_extent;
    }
    let width = clamp_u32(
        requested.width,
        caps.min_image_extent.width,
        caps.max_image_extent.width,
    );
    let height = clamp_u32(
        requested.height,
        caps.min_image_extent.height,
        caps.max_image_extent.height,
    );
    Extent2D { width, height }
}

/// The fixed default pair: the preferred pixel format with the SRGB-nonlinear
/// color space.
pub open spec fn preferred_surface_format() -> SurfaceFormat {
    SurfaceFormat { format: PixelFormat::B8G8R8A8Unorm, color_space: ColorSpace::SrgbNonlinear }
}

/// The format list offers the preferred format/color-space pair.
pub open spec fn has_preferred_format(s: Seq<SurfaceFormat>) -> bool {
    exists|i: int| 0 <= i < s.len() && s[i] == preferred_surface_format()
}

/// The format the negotiation settles on: the fixed default when the single
/// reported entry leaves the format undefined, else the preferred pair when
/// it is offered, else the first reported entry.
pub open spec fn chosen_surface_format(s: Seq<SurfaceFormat>) -> SurfaceFormat
    recommends
        s.len() > 0,
{
    if s.len() == 1 && s[0].format is Undefined {
        preferred_surface_format()
    } else if has_preferred_format(s) {
        preferred_surface_format()
    } else {
        s[0]
    }
}

/// Select the surface format from the reported list.
pub fn choose_swapchain_surface_format(available_formats: &Vec<SurfaceFormat>) -> (r:
    SurfaceFormat)
    requires
        available_formats@.len() > 0,
    ensures
        r == chosen_surface_format(available_formats@),
{
    if available_formats.len() == 1 && available_formats[0].format == (PixelFormat::Undefined) {
        return SurfaceFormat {
            format: PixelFormat::B8G8R8A8Unorm,
            color_space: ColorSpace::SrgbNonlinear,
        };
    }
    let n = available_formats.len();
    let mut i: usize = 0;
    while i < n
        invariant
            n == available_formats@.len(),
            0 <= i <= n,
            forall|j: int| 0 <= j < i ==> available_formats@[j] != preferred_surface_format(),
        decreases n - i,
    {
        let f = available_formats[i];
        if f.format == (PixelFormat::B8G8R8A8Unorm) && f.color_space == (
        ColorSpace::SrgbNonlinear) {
            assert(f == preferred_surface_format());
            return f;
        }
        i = i + 1;
    }
    available_formats[0]
}

/// A single reported entry with the undefined format falls back to the fixed
/// default: the preferred format with the SRGB-nonlinear color space.
pub proof fn lemma_undefined_format_defaults(s: Seq<SurfaceFormat>)
    requires
        s.len() == 1,
        s[0].format is Undefined,
    ensures
        chosen_surface_format(s) == preferred_surface_format(),
{
}

/// Whenever the preferred format/color-space pair occurs anywhere in the
/// list, selection returns exactly that pair.
pub proof fn lemma_preferred_format_selected(s: Seq<SurfaceFormat>)
    requires
        s.len() > 0,
        has_preferred_format(s),
    ensures
        chosen_surface_format(s) == preferred_surface_format(),
{
}

/// Without the preferred pair and outside the undefined-sentinel case,
/// selection falls back to the first reported entry.
pub proof fn lemma_format_fallback_is_first(s: Seq<SurfaceFormat>)
    requires
        s.len() > 0,
        !has_preferred_format(s),
        !(s.len() == 1 && s[0].format is Undefined),
    ensures
        chosen_surface_format(s) == s[0],
{
}

/// The mode list offers `m`.
pub open spec fn has_present_mode(s: Seq<PresentMode>, m: PresentMode) -> bool {
    exists|i: int| 0 <= i < s.len() && s[i] == m
}

/// The present mode the negotiation settles on, in fixed priority order:
/// MAILBOX, else FIFO, else IMMEDIATE; none of the three is a failure.
pub open spec fn chosen_present_mode(s: Seq<PresentMode>) -> Result<PresentMode, RenderError> {
    if has_present_mode(s, PresentMode::Mailbox) {
        Ok(PresentMode::Mailbox)
    } else if has_present_mode(s, PresentMode::Fifo) {
        Ok(PresentMode::Fifo)
    } else if has_present_mode(s, PresentMode::Immediate) {
        Ok(PresentMode::Immediate)
    } else {
        Err(RenderError::NoSupportedPresentMode)
    }
}

fn contains_present_mode(modes: &Vec<PresentMode>, m: PresentMode) -> (r: bool)
    ensures
        r == has_present_mode(modes@, m),
{
    let n = modes.len();
    let mut i: usize = 0;
    while i < n
        invariant
            n == modes@.len(),
            0 <= i <= n,
            forall|j: int| 0 <= j < i ==> modes@[j] != m,
        decreases n - i,
    {
        if modes[i] == m {
            return true;
        }
        i = i + 1;
    }
    false
}

/// Select the present mode from the reported list: MAILBOX whenever offered,
/// else FIFO whenever offered, else IMMEDIATE whenever offered; if none of
/// the three is offered the negotiation fails.
pub fn choose_swapchain_surface_present_mode(available_present_modes: &Vec<PresentMode>) -> (r:
    Result<PresentMode, RenderError>)
    ensures
        r == chosen_present_mode(available_present_modes@),
{
    if contains_present_mode(available_present_modes, PresentMode::Mailbox) {
        Ok(PresentMode::Mailbox)
    } else if contains_present_mode(available_present_modes, PresentMode::Fifo) {
        Ok(PresentMode::Fifo)
    } else if contains_present_mode(available_present_modes, PresentMode::Immediate) {
        Ok(PresentMode::Immediate)
    } else {
        Err(RenderError::NoSupportedPresentMode)
    }
}

} // verus!
