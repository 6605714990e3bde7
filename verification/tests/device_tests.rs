use gpu_bootstrap::device::{
    device_extensions, device_layers, find_queue_families, is_suitable,
    required_device_extensions, select_device, unique_queue_families, DeviceInfo, DeviceType,
    QueueFamily, QueueFamilyIndices,
};
use gpu_bootstrap::error::BootstrapError;
use gpu_bootstrap::types::{PresentMode, SurfaceFormat};

fn good_device() -> DeviceInfo {
    DeviceInfo {
        device_type: DeviceType::Discrete,
        has_geometry_shader: true,
        queue_families: vec![QueueFamily { supports_graphics: true, supports_present: true }],
        extensions: vec!["VK_KHR_swapchain".to_string()],
        formats: vec![SurfaceFormat { format: 50, color_space: 0 }],
        present_modes: vec![PresentMode::Fifo],
    }
}

#[test]
fn coincident_families_resolve_to_the_same_index() {
    let dev = good_device();
    let qi = find_queue_families(&dev).unwrap();
    assert_eq!(qi.graphics, 0);
    assert_eq!(qi.present, 0);
}

#[test]
fn families_resolve_to_the_first_matching_index() {
    let mut dev = good_device();
    dev.queue_families = vec![
        QueueFamily { supports_graphics: false, supports_present: false },
        QueueFamily { supports_graphics: true, supports_present: false },
        QueueFamily { supports_graphics: true, supports_present: true },
    ];
    let qi = find_queue_families(&dev).unwrap();
    assert_eq!(qi.graphics, 1);
    assert_eq!(qi.present, 2);
}

#[test]
fn missing_present_family_resolves_to_nothing() {
    let mut dev = good_device();
    dev.queue_families = vec![QueueFamily { supports_graphics: true, supports_present: false }];
    assert!(find_queue_families(&dev).is_none());
}

#[test]
fn integrated_devices_are_acceptable() {
    let mut dev = good_device();
    dev.device_type = DeviceType::Integrated;
    assert!(is_suitable(&dev, &required_device_extensions()));
}

#[test]
fn virtual_and_cpu_devices_are_rejected() {
    let req = required_device_extensions();
    let mut dev = good_device();
    dev.device_type = DeviceType::Virtual;
    assert!(!is_suitable(&dev, &req));
    dev.device_type = DeviceType::Cpu;
    assert!(!is_suitable(&dev, &req));
    dev.device_type = DeviceType::Other;
    assert!(!is_suitable(&dev, &req));
}

#[test]
fn missing_geometry_shader_is_rejected() {
    let mut dev = good_device();
    dev.has_geometry_shader = false;
    assert!(!is_suitable(&dev, &required_device_extensions()));
}

#[test]
fn missing_swapchain_extension_is_rejected() {
    let mut dev = good_device();
    dev.extensions = vec!["VK_KHR_maintenance1".to_string()];
    assert!(!is_suitable(&dev, &required_device_extensions()));
}

#[test]
fn missing_formats_or_present_modes_are_rejected() {
    let req = required_device_extensions();
    let mut dev = good_device();
    dev.formats = vec![];
    assert!(!is_suitable(&dev, &req));
    let mut dev2 = good_device();
    dev2.present_modes = vec![];
    assert!(!is_suitable(&dev2, &req));
}

#[test]
fn selection_keeps_the_first_passing_device() {
    let mut bad = good_device();
    bad.has_geometry_shader = false;
    let devices = vec![bad, good_device(), good_device()];
    let req = required_device_extensions();
    assert_eq!(select_device(&devices, &req).unwrap(), 1);
}

#[test]
fn selection_is_deterministic_for_a_fixed_list() {
    let mut bad = good_device();
    bad.device_type = DeviceType::Cpu;
    let devices = vec![bad, good_device()];
    let req = required_device_extensions();
    let first = select_device(&devices, &req).unwrap();
    let second = select_device(&devices, &req).unwrap();
    assert_eq!(first, second);
    assert_eq!(first, 1);
}

#[test]
fn no_passing_device_is_a_fatal_selection_error() {
    let mut bad = good_device();
    bad.formats = vec![];
    let devices = vec![bad];
    let req = required_device_extensions();
    assert!(matches!(
        select_device(&devices, &req),
        Err(BootstrapError::NoSuitableDevice)
    ));
}

#[test]
fn coincident_indices_request_one_queue() {
    let qi = QueueFamilyIndices { graphics: 3, present: 3 };
    assert_eq!(unique_queue_families(&qi), vec![3]);
}

#[test]
fn distinct_indices_request_two_queues() {
    let qi = QueueFamilyIndices { graphics: 0, present: 2 };
    assert_eq!(unique_queue_families(&qi), vec![0, 2]);
}

#[test]
fn device_extension_list_names_the_swapchain() {
    assert_eq!(device_extensions(false), vec!["VK_KHR_swapchain".to_string()]);
    assert_eq!(
        device_extensions(true),
        vec!["VK_KHR_swapchain".to_string(), "VK_KHR_portability_subset".to_string()]
    );
}

#[test]
fn device_layer_list_follows_validation() {
    assert_eq!(device_layers(true), vec!["VK_LAYER_KHRONOS_validation".to_string()]);
    assert!(device_layers(false).is_empty());
}
