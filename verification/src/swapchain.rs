//! Swapchain configuration.
//!
//! Combines the surface negotiation with the selected queues into the full
//! description of the presentable image chain: image count, sharing mode,
//! and the per-image view description.

use vstd::prelude::*;

use crate::device::{build_device_request, Queues};
use crate::image::{image_view_description, ImageViewDesc, IMAGE_USAGE_COLOR_ATTACHMENT};
use crate::surface::{
    choose_swapchain_surface_format, choose_swapchain_surface_present_mode,
    chosen_present_mode, chosen_surface_format, decide_swapchain_extent, negotiated_extent,
    Extent2D, PresentMode, SurfaceCapabilities, SurfaceFormat,
};
use crate::RenderError;

verus! {

/// How the swapchain images are shared between queue families.
#[derive(Clone, Copy, Debug, PartialEq, Eq, Structural)]
pub enum SharingMode {
    /// One family owns the images at a time.
    Exclusive,
    /// The images are shared between the listed families.
    Concurrent,
}

/// The image count the chain is created with: one more than the reported
/// minimum, capped by the reported maximum when there is one (zero means
/// unlimited).
pub open spec fn negotiated_image_count(min_image_count: u32, max_image_count: u32) -> u32 {
    if max_image_count > 0 && min_image_count + 1 > max_image_count {
        max_image_count
    } else {
        (min_image_count + 1) as u32
    }
}

/// Decide how many images the chain is created with.
pub fn decide_image_count(min_image_count: u32, max_image_count: u32) -> (r: u32)
    requires
        min_image_count < u32::MAX,
    ensures
        r == negotiated_image_count(min_image_count, max_image_count),
{
    let max = max_image_count;
    let preferred = min_image_count + 1;
    if max > 0 && preferred > max {
        max
    } else {
        preferred
    }
}

/// Decide the sharing mode: concurrent exactly when the graphics and the
/// presentation family differ.
pub fn decide_sharing_mode(queues: &Queues) -> (r: SharingMode)
    ensures
        r is Concurrent <==> queues.graphics != queues.presentation,
{
    if queues.graphics != queues.presentation {
        SharingMode::Concurrent
    } else {
        SharingMode::Exclusive
    }
}

/// Everything the presentable image chain is created from.
#[derive(Debug)]
pub struct SwapchainConfig {
    pub extent: Extent2D,
    pub format: SurfaceFormat,
    pub present_mode: PresentMode,
    pub image_count: u32,
    /// Layers per image: the chain is created with single-layer images.
    pub image_array_layers: u32,
    /// What the images are used for: rendering into, as color attachments.
    pub image_usage: u32,
    pub sharing_mode: SharingMode,
    /// The distinct queue-family indices sharing the images, graphics first.
    pub queue_family_indices: Vec<u32>,
    /// The view created for each image of the chain.
    pub image_view: ImageViewDesc,
}

/// Negotiate the full swapchain configuration from the reported capability,
/// format and present-mode lists and the selected queues.  Fails exactly
/// when none of the supported present modes is offered.
pub fn negotiate_swapchain(
    caps: &SurfaceCapabilities,
    available_formats: &Vec<SurfaceFormat>,
    available_present_modes: &Vec<PresentMode>,
    queues: &Queues,
    requested: Extent2D,
) -> (r: Result<SwapchainConfig, RenderError>)
    requires
        caps.wf(),
        caps.min_image_count < u32::MAX,
        available_formats@.len() > 0,
    ensures
        match r {
            Ok(c) => {
                &&& chosen_present_mode(available_present_modes@) == Ok::<
                    PresentMode,
                    RenderError,
                >(c.present_mode)
                &&& c.extent == negotiated_extent(*caps, requested)
                &&& c.format == chosen_surface_format(available_formats@)
                &&& c.image_count == negotiated_image_count(
                    caps.min_image_count,
                    caps.max_image_count,
                )
                &&& c.image_array_layers == 1
                &&& c.image_usage == IMAGE_USAGE_COLOR_ATTACHMENT
                &&& c.sharing_mode is Concurrent <==> queues.graphics != queues.presentation
                &&& queues.graphics == queues.presentation ==> c.queue_family_indices@ == seq![
                    queues.graphics,
                ]
                &&& queues.graphics != queues.presentation ==> c.queue_family_indices@ == seq![
                    queues.graphics,
                    queues.presentation,
                ]
                &&& c.image_view == image_view_description(c.format.format)
            },
            Err(e) => chosen_present_mode(available_present_modes@) == Err::<
                PresentMode,
                RenderError,
            >(e),
        },
{
    let extent = decide_swapchain_extent(caps, requested);
    let format = choose_swapchain_surface_format(available_formats);
    let present_mode = match choose_swapchain_surface_present_mode(available_present_modes) {
        Ok(m) => m,
        Err(e) => {
            return Err(e);
        },
    };
    let image_count = decide_image_count(caps.min_image_count, caps.max_image_count);
    let sharing_mode = decide_sharing_mode(queues);
    let request = build_device_request(queues, true);
    let image_view = crate::image::create_image_view_description(format.format);
    Ok(SwapchainConfig {
        extent,
        format,
        present_mode,
        image_count,
        image_array_layers: 1,
        image_usage: IMAGE_USAGE_COLOR_ATTACHMENT,
        sharing_mode,
        queue_family_indices: request.queue_family_indices,
        image_view,
    })
}

} // verus!
