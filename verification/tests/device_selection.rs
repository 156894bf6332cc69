use game::device::{
    build_device_request, find_suitable_queues, select_physical_device,
    supports_swapchain_extension, swapchain_extension_name, DeviceCandidate, Queues,
};
use game::physical_device::{
    try_create_physical_device_with_graphics_queue, DeviceType, PhysicalDevice, trim_at_nul,
};
use game::queue_family::{find_queue_families, is_queue_family_suitable, QueueFamilyData};
use game::queue_family_index::{Graphics, QueueFamilyIndex};
use game::RenderError;

fn graphics_family() -> QueueFamilyData {
    QueueFamilyData { queue_count: 1, supports_graphics: true }
}

fn transfer_family() -> QueueFamilyData {
    QueueFamilyData { queue_count: 1, supports_graphics: false }
}

#[test]
fn suitability_needs_queues_and_graphics() {
    assert!(is_queue_family_suitable(&graphics_family()));
    assert!(!is_queue_family_suitable(&transfer_family()));
    assert!(!is_queue_family_suitable(&QueueFamilyData {
        queue_count: 0,
        supports_graphics: true,
    }));
}

#[test]
fn first_suitable_family_wins() {
    let families = vec![transfer_family(), graphics_family(), graphics_family()];
    assert_eq!(find_queue_families(&families), Some(1));
    let none: Vec<QueueFamilyData> = vec![transfer_family()];
    assert_eq!(find_queue_families(&none), None);
}

#[test]
fn queues_selected_independently() {
    let families = vec![transfer_family(), graphics_family()];
    let support = vec![true, false];
    let q = find_suitable_queues(&families, &support).unwrap();
    assert_eq!(q.graphics, 1);
    assert_eq!(q.presentation, 0);
}

#[test]
fn queue_selection_fails_without_presentation() {
    let families = vec![graphics_family()];
    let support = vec![false];
    assert!(find_suitable_queues(&families, &support).is_none());
}

#[test]
fn extension_name_is_ascii_vk_khr_swapchain() {
    let name = swapchain_extension_name();
    assert_eq!(name, b"VK_KHR_swapchain".to_vec());
}

#[test]
fn extension_membership_is_by_name() {
    let names = vec![b"VK_KHR_surface".to_vec(), b"VK_KHR_swapchain".to_vec()];
    assert!(supports_swapchain_extension(&names));
    let without = vec![b"VK_KHR_surface".to_vec()];
    assert!(!supports_swapchain_extension(&without));
}

fn candidate(raw: u64, with_ext: bool, families: Vec<QueueFamilyData>, support: Vec<bool>)
    -> DeviceCandidate {
    let mut extension_names = vec![b"VK_KHR_surface".to_vec()];
    if with_ext {
        extension_names.push(b"VK_KHR_swapchain".to_vec());
    }
    DeviceCandidate { raw, extension_names, queue_families: families, present_support: support }
}

#[test]
fn device_without_surface_extension_is_skipped() {
    let candidates = vec![
        candidate(100, false, vec![graphics_family()], vec![true]),
        candidate(200, true, vec![graphics_family()], vec![true]),
    ];
    let s = select_physical_device(&candidates).unwrap();
    assert_eq!(s.index, 1);
    assert_eq!(s.raw, 200);
    assert_eq!(s.queues, Queues { graphics: 0, presentation: 0 });
}

#[test]
fn no_eligible_device_is_fatal() {
    let candidates = vec![
        candidate(1, false, vec![graphics_family()], vec![true]),
        candidate(2, true, vec![transfer_family()], vec![true]),
        candidate(3, true, vec![graphics_family()], vec![false]),
    ];
    assert!(matches!(
        select_physical_device(&candidates),
        Err(RenderError::NoSuitableDevice)
    ));
}

#[test]
fn device_request_deduplicates_family_indices() {
    let same = build_device_request(&Queues { graphics: 2, presentation: 2 }, true);
    assert_eq!(same.queue_family_indices, vec![2]);
    assert!(same.enable_swapchain_extension);
    let differ = build_device_request(&Queues { graphics: 0, presentation: 3 }, true);
    assert_eq!(differ.queue_family_indices, vec![0, 3]);
    let graphics_only = build_device_request(&Queues { graphics: 1, presentation: 4 }, false);
    assert_eq!(graphics_only.queue_family_indices, vec![1]);
    assert!(!graphics_only.enable_swapchain_extension);
}

#[test]
fn physical_device_builder_keeps_fields() {
    let device: PhysicalDevice = PhysicalDevice::builder()
        .raw(42)
        .device_type(DeviceType::DiscreteGpu)
        .device_name(String::from("left gpu"))
        .graphics_queue_family(QueueFamilyIndex::<Graphics>::new(5))
        .build();
    assert_eq!(device.raw(), 42);
    assert_eq!(device.graphics_queue_family().raw(), 5);
    assert_eq!(device.device_name().as_str(), "left gpu");
}

#[test]
fn graphics_device_model_picks_first_suitable_family() {
    let families = vec![transfer_family(), graphics_family()];
    let d = try_create_physical_device_with_graphics_queue(
        7,
        DeviceType::IntegratedGpu,
        String::from("gpu"),
        &families,
    )
    .unwrap();
    assert_eq!(d.graphics_queue_family().raw(), 1);
    let unusable = vec![transfer_family()];
    assert!(try_create_physical_device_with_graphics_queue(
        8,
        DeviceType::Cpu,
        String::from("cpu"),
        &unusable,
    )
    .is_none());
}

#[test]
fn name_field_is_cut_at_first_nul() {
    let padded = vec![b'g', b'p', b'u', 0, 0, b'x'];
    assert_eq!(trim_at_nul(&padded), b"gpu".to_vec());
    let unpadded = vec![b'a', b'b'];
    assert_eq!(trim_at_nul(&unpadded), b"ab".to_vec());
    let leading = vec![0u8, b'z'];
    assert_eq!(trim_at_nul(&leading), Vec::<u8>::new());
}
