use game::surface::{
    choose_swapchain_surface_format, choose_swapchain_surface_present_mode,
    decide_swapchain_extent, ColorSpace, Extent2D, PixelFormat, PresentMode, SurfaceCapabilities,
    SurfaceFormat, EXTENT_UNDEFINED,
};
use game::RenderError;

fn caps_with(current: Extent2D, min: Extent2D, max: Extent2D) -> SurfaceCapabilities {
    SurfaceCapabilities {
        min_image_count: 2,
        max_image_count: 8,
        current_extent: current,
        min_image_extent: min,
        max_image_extent: max,
    }
}

#[test]
fn concrete_extent_is_used_verbatim() {
    let caps = caps_with(
        Extent2D { width: 800, height: 600 },
        Extent2D { width: 1, height: 1 },
        Extent2D { width: 4096, height: 4096 },
    );
    let r = decide_swapchain_extent(&caps, Extent2D { width: 1024, height: 768 });
    assert_eq!(r, Extent2D { width: 800, height: 600 });
}

#[test]
fn undefined_extent_clamps_low() {
    let caps = caps_with(
        Extent2D { width: EXTENT_UNDEFINED, height: EXTENT_UNDEFINED },
        Extent2D { width: 200, height: 100 },
        Extent2D { width: 400, height: 300 },
    );
    let r = decide_swapchain_extent(&caps, Extent2D { width: 10, height: 20 });
    assert_eq!(r, Extent2D { width: 200, height: 100 });
}

#[test]
fn undefined_extent_clamps_high() {
    let caps = caps_with(
        Extent2D { width: EXTENT_UNDEFINED, height: EXTENT_UNDEFINED },
        Extent2D { width: 200, height: 100 },
        Extent2D { width: 400, height: 300 },
    );
    let r = decide_swapchain_extent(&caps, Extent2D { width: 5000, height: 6000 });
    assert_eq!(r, Extent2D { width: 400, height: 300 });
}

#[test]
fn undefined_extent_keeps_in_range_request() {
    let caps = caps_with(
        Extent2D { width: EXTENT_UNDEFINED, height: EXTENT_UNDEFINED },
        Extent2D { width: 200, height: 100 },
        Extent2D { width: 400, height: 300 },
    );
    let r = decide_swapchain_extent(&caps, Extent2D { width: 333, height: 222 });
    assert_eq!(r, Extent2D { width: 333, height: 222 });
    assert!(caps.min_image_extent.width <= r.width && r.width <= caps.max_image_extent.width);
    assert!(caps.min_image_extent.height <= r.height && r.height <= caps.max_image_extent.height);
}

fn preferred() -> SurfaceFormat {
    SurfaceFormat { format: PixelFormat::B8G8R8A8Unorm, color_space: ColorSpace::SrgbNonlinear }
}

#[test]
fn single_undefined_format_yields_fixed_default() {
    let formats =
        vec![SurfaceFormat { format: PixelFormat::Undefined, color_space: ColorSpace::Other(7) }];
    let r = choose_swapchain_surface_format(&formats);
    assert_eq!(r, preferred());
}

#[test]
fn preferred_format_found_first() {
    let formats = vec![
        preferred(),
        SurfaceFormat { format: PixelFormat::R8G8B8A8Unorm, color_space: ColorSpace::SrgbNonlinear },
    ];
    assert_eq!(choose_swapchain_surface_format(&formats), preferred());
}

#[test]
fn preferred_format_found_later() {
    let formats = vec![
        SurfaceFormat { format: PixelFormat::Other(44), color_space: ColorSpace::Other(9) },
        SurfaceFormat { format: PixelFormat::R8G8B8A8Unorm, color_space: ColorSpace::SrgbNonlinear },
        preferred(),
    ];
    assert_eq!(choose_swapchain_surface_format(&formats), preferred());
}

#[test]
fn format_falls_back_to_first_entry() {
    let first =
        SurfaceFormat { format: PixelFormat::R8G8B8A8Unorm, color_space: ColorSpace::SrgbNonlinear };
    let formats = vec![
        first,
        SurfaceFormat { format: PixelFormat::B8G8R8A8Unorm, color_space: ColorSpace::Other(3) },
    ];
    assert_eq!(choose_swapchain_surface_format(&formats), first);
}

#[test]
fn mailbox_preferred_wherever_it_stands() {
    let modes = vec![PresentMode::Fifo, PresentMode::Immediate, PresentMode::Mailbox];
    assert_eq!(choose_swapchain_surface_present_mode(&modes), Ok(PresentMode::Mailbox));
}

#[test]
fn fifo_when_no_mailbox() {
    let modes = vec![PresentMode::Immediate, PresentMode::Fifo];
    assert_eq!(choose_swapchain_surface_present_mode(&modes), Ok(PresentMode::Fifo));
}

#[test]
fn immediate_when_nothing_better() {
    let modes = vec![PresentMode::Other(11), PresentMode::Immediate];
    assert_eq!(choose_swapchain_surface_present_mode(&modes), Ok(PresentMode::Immediate));
}

#[test]
fn no_supported_present_mode_is_an_error() {
    let modes = vec![PresentMode::Other(11), PresentMode::Other(12)];
    assert_eq!(
        choose_swapchain_surface_present_mode(&modes),
        Err(RenderError::NoSupportedPresentMode)
    );
    let empty: Vec<PresentMode> = Vec::new();
    assert_eq!(
        choose_swapchain_surface_present_mode(&empty),
        Err(RenderError::NoSupportedPresentMode)
    );
}
