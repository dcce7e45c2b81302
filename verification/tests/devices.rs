use engine_lib::renderer::devices::{
    device_type_rank, find_present_family, find_queue_families, get_physical_device,
    physical_device_score, select_physical_device, DeviceCandidate, PhysicalDeviceInfo,
    PhysicalDeviceType, QueueFamilyIndices, QueueFamilyInfo,
};
use engine_lib::renderer::validation_layers::check_validation_layer_support;

fn device(device_type: PhysicalDeviceType, memory: u32, queue_flags: Vec<u32>) -> PhysicalDeviceInfo {
    PhysicalDeviceInfo { device_type, max_compute_shared_memory_size: memory, queue_flags }
}

fn family(queue_flags: u32, surface_support: bool) -> QueueFamilyInfo {
    QueueFamilyInfo { queue_flags, surface_support }
}

fn candidate(
    device_type: PhysicalDeviceType,
    supports_extensions: bool,
    queue_families: Vec<QueueFamilyInfo>,
) -> DeviceCandidate {
    DeviceCandidate { device_type, supports_extensions, queue_families }
}

#[test]
fn queue_family_indices_are_complete_with_a_graphics_family() {
    assert!(!QueueFamilyIndices { graphics_family: None }.is_complete());
    assert!(QueueFamilyIndices { graphics_family: Some(0) }.is_complete());
}

#[test]
fn first_graphics_family_is_found() {
    // 2: compute only; 6: compute and transfer; 7 and 1 take graphics.
    let indices = find_queue_families(&vec![2, 6, 7, 1]);
    assert_eq!(indices.graphics_family, Some(2));
    assert_eq!(find_queue_families(&vec![2, 4, 8]).graphics_family, None);
    assert_eq!(find_queue_families(&vec![]).graphics_family, None);
}

#[test]
fn graphics_flag_is_the_lowest_bit_not_the_value() {
    assert_eq!(find_queue_families(&vec![0, 2, 0xffff_fffe]).graphics_family, None);
    assert_eq!(find_queue_families(&vec![0xffff_ffff]).graphics_family, Some(0));
}

#[test]
fn device_scores() {
    assert_eq!(
        physical_device_score(&device(PhysicalDeviceType::DiscreteGpu, 49152, vec![1])),
        59152
    );
    assert_eq!(
        physical_device_score(&device(PhysicalDeviceType::IntegratedGpu, 32768, vec![2, 1])),
        33268
    );
    assert_eq!(physical_device_score(&device(PhysicalDeviceType::Cpu, 100, vec![1])), 100);
    assert_eq!(
        physical_device_score(&device(PhysicalDeviceType::DiscreteGpu, 49152, vec![2, 4])),
        0
    );
}

#[test]
fn device_that_cannot_be_scored_is_told_apart() {
    assert!(device(PhysicalDeviceType::DiscreteGpu, u32::MAX - 10000, vec![1]).is_scorable());
    assert!(!device(PhysicalDeviceType::DiscreteGpu, u32::MAX - 9999, vec![1]).is_scorable());
    assert!(device(PhysicalDeviceType::Other, u32::MAX, vec![]).is_scorable());
}

#[test]
fn best_device_is_chosen_and_the_last_of_equals() {
    let devices = vec![
        device(PhysicalDeviceType::IntegratedGpu, 1000, vec![1]),
        device(PhysicalDeviceType::DiscreteGpu, 1000, vec![1]),
        device(PhysicalDeviceType::DiscreteGpu, 2000, vec![4]),
        device(PhysicalDeviceType::DiscreteGpu, 1000, vec![3]),
    ];
    assert_eq!(get_physical_device(&devices), Some(3));
    assert_eq!(get_physical_device(&vec![]), None);
    assert_eq!(
        get_physical_device(&vec![device(PhysicalDeviceType::DiscreteGpu, 1, vec![2])]),
        None
    );
}

#[test]
fn validation_layer_is_looked_up_by_name() {
    assert!(!check_validation_layer_support(&vec![]));
    assert!(!check_validation_layer_support(&vec!["VK_LAYER_KHRONOS_validatio".to_string()]));
    assert!(check_validation_layer_support(&vec![
        "VK_LAYER_MESA_overlay".to_string(),
        "VK_LAYER_KHRONOS_validation".to_string(),
    ]));
}

#[test]
fn device_for_a_surface_is_the_first_of_the_best_kind() {
    assert_eq!(device_type_rank(PhysicalDeviceType::DiscreteGpu), 0);
    assert_eq!(device_type_rank(PhysicalDeviceType::IntegratedGpu), 1);
    assert_eq!(device_type_rank(PhysicalDeviceType::VirtualGpu), 2);
    assert_eq!(device_type_rank(PhysicalDeviceType::Cpu), 3);
    assert_eq!(device_type_rank(PhysicalDeviceType::Other), 4);
    assert_eq!(
        find_present_family(&vec![family(1, false), family(2, true), family(3, true)]),
        Some(2)
    );
    assert_eq!(find_present_family(&vec![family(1, false), family(2, true)]), None);
    let candidates = vec![
        candidate(PhysicalDeviceType::DiscreteGpu, false, vec![family(1, true)]),
        candidate(PhysicalDeviceType::IntegratedGpu, true, vec![family(1, true)]),
        candidate(PhysicalDeviceType::DiscreteGpu, true, vec![family(1, false)]),
        candidate(PhysicalDeviceType::DiscreteGpu, true, vec![family(4, true), family(5, true)]),
        candidate(PhysicalDeviceType::DiscreteGpu, true, vec![family(1, true)]),
    ];
    assert_eq!(select_physical_device(&candidates), Some((3, 1)));
    assert_eq!(select_physical_device(&vec![]), None);
    assert_eq!(
        select_physical_device(&vec![candidate(PhysicalDeviceType::Cpu, true, vec![])]),
        None
    );
}
