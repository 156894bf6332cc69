use game::image::{
    create_image_view_description, linear_image_desc, optimized_image_desc,
    required_memory_properties, ImageLayout, ImageTiling, LinearImage, IMAGE_USAGE_COLOR_ATTACHMENT,
    IMAGE_USAGE_SAMPLED, IMAGE_USAGE_TRANSFER_DST, IMAGE_USAGE_TRANSFER_SRC,
};
use game::memory::{
    find_memory_type_index, MemoryType, MEMORY_PROPERTY_DEVICE_LOCAL, MEMORY_PROPERTY_HOST_VISIBLE,
};
use game::surface::PixelFormat;
use game::RenderError;

#[test]
fn single_compatible_bit_selects_that_index() {
    let types = vec![
        MemoryType { property_flags: MEMORY_PROPERTY_DEVICE_LOCAL },
        MemoryType { property_flags: MEMORY_PROPERTY_HOST_VISIBLE },
        MemoryType { property_flags: MEMORY_PROPERTY_HOST_VISIBLE },
    ];
    // Only bit 1 is set in the requirement mask.
    let r = find_memory_type_index(&types, 0b010, MEMORY_PROPERTY_HOST_VISIBLE);
    assert_eq!(r, Ok(1));
}

#[test]
fn first_compatible_index_wins() {
    let types = vec![
        MemoryType { property_flags: MEMORY_PROPERTY_HOST_VISIBLE },
        MemoryType { property_flags: MEMORY_PROPERTY_HOST_VISIBLE },
    ];
    let r = find_memory_type_index(&types, 0b11, MEMORY_PROPERTY_HOST_VISIBLE);
    assert_eq!(r, Ok(0));
}

#[test]
fn mask_bit_without_properties_is_not_enough() {
    let types = vec![
        MemoryType { property_flags: MEMORY_PROPERTY_DEVICE_LOCAL },
        MemoryType { property_flags: MEMORY_PROPERTY_DEVICE_LOCAL | MEMORY_PROPERTY_HOST_VISIBLE },
    ];
    let r = find_memory_type_index(&types, 0b11, MEMORY_PROPERTY_HOST_VISIBLE);
    assert_eq!(r, Ok(1));
}

#[test]
fn no_compatible_memory_type_is_an_error() {
    let types = vec![MemoryType { property_flags: MEMORY_PROPERTY_DEVICE_LOCAL }];
    let r = find_memory_type_index(&types, 0b0, MEMORY_PROPERTY_DEVICE_LOCAL);
    assert_eq!(r, Err(RenderError::NoSuitableMemoryType));
    let r2 = find_memory_type_index(&types, 0b1, MEMORY_PROPERTY_HOST_VISIBLE);
    assert_eq!(r2, Err(RenderError::NoSuitableMemoryType));
}

#[test]
fn image_variants_have_their_fixed_shapes() {
    let lin = linear_image_desc(64, 32);
    assert_eq!(lin.width, 64);
    assert_eq!(lin.height, 32);
    assert_eq!(lin.tiling, ImageTiling::Linear);
    assert_eq!(lin.usage, IMAGE_USAGE_SAMPLED | IMAGE_USAGE_TRANSFER_DST);
    assert_eq!(lin.format, PixelFormat::R8G8B8A8Unorm);
    assert_eq!(lin.mip_levels, 1);
    assert_eq!(lin.array_layers, 1);
    assert_eq!(lin.depth, 1);
    assert_eq!(lin.samples, 1);
    assert_eq!(lin.initial_layout, ImageLayout::Undefined);
    assert!(lin.exclusive_sharing);

    let opt = optimized_image_desc(64, 32);
    assert_eq!(opt.tiling, ImageTiling::Optimal);
    assert_eq!(opt.usage, IMAGE_USAGE_COLOR_ATTACHMENT | IMAGE_USAGE_TRANSFER_SRC);
}

#[test]
fn memory_properties_follow_tiling() {
    assert_eq!(required_memory_properties(ImageTiling::Optimal), MEMORY_PROPERTY_DEVICE_LOCAL);
    assert_eq!(required_memory_properties(ImageTiling::Linear), MEMORY_PROPERTY_HOST_VISIBLE);
}

#[test]
fn image_view_covers_single_level_single_layer() {
    let v = create_image_view_description(PixelFormat::R8G8B8A8Unorm);
    assert_eq!(v.format, PixelFormat::R8G8B8A8Unorm);
    assert!(v.two_dimensional);
    assert!(v.identity_swizzle);
    assert!(v.aspect_color);
    assert_eq!(v.base_mip_level, 0);
    assert_eq!(v.level_count, 1);
    assert_eq!(v.base_array_layer, 0);
    assert_eq!(v.layer_count, 1);
}

#[test]
fn pixel_round_trip_drops_only_alpha() {
    let width = 2u32;
    let height = 2u32;
    let rgb: Vec<u8> = vec![
        10, 20, 30, //
        40, 50, 60, //
        70, 80, 90, //
        100, 110, 120,
    ];
    let mut rgba: Vec<u8> = Vec::new();
    for px in rgb.chunks(3) {
        rgba.extend_from_slice(px);
        rgba.push(0xAA);
    }
    let mut img = LinearImage::new(width, height);
    img.write_pixels(&rgba);
    let exported = img.export_rgb();
    assert_eq!(exported, rgb);
}

#[test]
fn fresh_linear_image_is_zeroed() {
    let img = LinearImage::new(3, 1);
    assert_eq!(img.width(), 3);
    assert_eq!(img.height(), 1);
    let out = img.export_rgb();
    assert_eq!(out, vec![0u8; 9]);
}

#[test]
fn export_strips_alpha_positionally() {
    let mut img = LinearImage::new(1, 2);
    img.write_pixels(&vec![1, 2, 3, 4, 5, 6, 7, 8]);
    assert_eq!(img.export_rgb(), vec![1, 2, 3, 5, 6, 7]);
}
