use pathrs::back::Back;
use pathrs::capabilities::{
    contains_name, debug_instance_extensions, debug_instance_layers, debug_messenger_available,
    is_subset, DeviceCapabilities, InstanceCapabilities,
};
use pathrs::device::{
    find_suitable_device, get_required_device_extensions, is_device_suitable, negotiate,
    DeviceCandidate, DeviceFeature, NegotiationError, QueueFamilyProperties, FULL_PRIORITY,
};
use pathrs::front::{FrontQueueFamilyIndices, TracerFront, TracerSurface};
use pathrs::queue::QueueFamily;

fn family(graphics: bool, compute: bool, timestamp_valid_bits: u32, present_support: bool) -> QueueFamilyProperties {
    QueueFamilyProperties { queue_count: 1, graphics, compute, timestamp_valid_bits, present_support }
}

fn names(list: &[&str]) -> Vec<String> {
    list.iter().map(|s| s.to_string()).collect()
}

fn windowed() -> TracerFront {
    TracerFront::new_windowed(TracerSurface { handle: 7 })
}

fn combined_device(extensions: &[&str]) -> DeviceCandidate {
    DeviceCandidate {
        extensions: names(extensions),
        queue_families: vec![family(true, true, 64, true)],
        surface_format_count: 2,
        present_mode_count: 1,
    }
}

#[test]
fn device_without_swapchain_extension_is_rejected() {
    let front = windowed();
    let device = combined_device(&["VK_EXT_buffer_device_address"]);
    assert!(!is_device_suitable(&front, &device));
    let devices = vec![device];
    assert_eq!(find_suitable_device(&front, &devices), Err(NegotiationError::NoSuitableDevice));
}

#[test]
fn device_without_buffer_device_address_is_rejected() {
    let device = combined_device(&["VK_KHR_swapchain"]);
    assert!(!is_device_suitable(&windowed(), &device));
    assert!(!is_device_suitable(&TracerFront::new_headless(), &device));
}

#[test]
fn first_accepted_device_wins() {
    let front = windowed();
    let devices = vec![
        combined_device(&["VK_KHR_swapchain"]),
        combined_device(&["VK_KHR_swapchain", "VK_EXT_buffer_device_address"]),
        combined_device(&["VK_EXT_buffer_device_address", "VK_KHR_swapchain", "VK_EXT_host_image_copy"]),
    ];
    assert_eq!(find_suitable_device(&front, &devices), Ok(1));
}

#[test]
fn windowed_front_needs_formats_and_modes() {
    let mut device = combined_device(&["VK_KHR_swapchain", "VK_EXT_buffer_device_address"]);
    device.present_mode_count = 0;
    assert!(!is_device_suitable(&windowed(), &device));
    device.present_mode_count = 3;
    device.surface_format_count = 0;
    assert!(!is_device_suitable(&windowed(), &device));
}

#[test]
fn merge_queues_keeps_first_of_each_family() {
    let mut requests = vec![
        QueueFamily { index: 0, priorities: vec![1000] },
        QueueFamily { index: 2, priorities: vec![500] },
        QueueFamily { index: 0, priorities: vec![250] },
        QueueFamily { index: 2, priorities: vec![1000] },
        QueueFamily { index: 1, priorities: vec![1000] },
    ];
    QueueFamily::merge_queues(&mut requests);
    let indices: Vec<u32> = requests.iter().map(|q| q.index).collect();
    assert_eq!(indices, vec![0, 2, 1]);
    assert_eq!(requests[0].priorities, vec![1000]);
    assert_eq!(requests[1].priorities, vec![500]);
}

#[test]
fn merge_queues_twice_changes_nothing() {
    let mut requests = vec![
        QueueFamily { index: 3, priorities: vec![1000] },
        QueueFamily { index: 3, priorities: vec![1000] },
        QueueFamily { index: 4, priorities: vec![1000] },
    ];
    QueueFamily::merge_queues(&mut requests);
    let once: Vec<u32> = requests.iter().map(|q| q.index).collect();
    QueueFamily::merge_queues(&mut requests);
    let twice: Vec<u32> = requests.iter().map(|q| q.index).collect();
    assert_eq!(once, vec![3, 4]);
    assert_eq!(once, twice);
}

#[test]
fn merge_queues_of_empty_list() {
    let mut requests: Vec<QueueFamily> = vec![];
    QueueFamily::merge_queues(&mut requests);
    assert!(requests.is_empty());
}

#[test]
fn single_combined_family_gives_one_queue_request() {
    let front = windowed();
    let devices = vec![combined_device(&["VK_KHR_swapchain", "VK_EXT_buffer_device_address"])];
    let plan = negotiate(&front, &devices).unwrap();
    assert_eq!(plan.physical_device, 0);
    assert_eq!(plan.queue_requests.len(), 1);
    assert_eq!(plan.queue_requests[0].index, 0);
    assert_eq!(plan.queue_requests[0].priorities, vec![FULL_PRIORITY]);
    assert_eq!(plan.back_families.graphics_family, 0);
    assert_eq!(plan.back_families.compute_family, 0);
    match plan.front_families {
        FrontQueueFamilyIndices::Windowed(ix) => {
            assert_eq!(ix.graphics_family, 0);
            assert_eq!(ix.present_family, 0);
        }
        FrontQueueFamilyIndices::Headless(_) => panic!("windowed front expected"),
    }
    assert_eq!(plan.extensions, names(&["VK_KHR_swapchain", "VK_EXT_buffer_device_address"]));
    assert_eq!(plan.features, vec![DeviceFeature::BufferDeviceAddress, DeviceFeature::HostQueryReset]);
}

#[test]
fn separate_families_give_distinct_requests() {
    let front = windowed();
    let device = DeviceCandidate {
        extensions: names(&["VK_KHR_swapchain", "VK_EXT_buffer_device_address"]),
        queue_families: vec![
            family(true, false, 0, true),
            family(false, true, 64, false),
            family(true, true, 0, false),
        ],
        surface_format_count: 1,
        present_mode_count: 1,
    };
    let plan = negotiate(&front, &vec![device]).unwrap();
    assert_eq!(plan.back_families.graphics_family, 2);
    assert_eq!(plan.back_families.compute_family, 1);
    let indices: Vec<u32> = plan.queue_requests.iter().map(|q| q.index).collect();
    assert_eq!(indices, vec![2, 1, 0]);
}

#[test]
fn negotiation_fails_without_devices() {
    let devices: Vec<DeviceCandidate> = vec![];
    assert!(matches!(negotiate(&windowed(), &devices), Err(NegotiationError::NoSuitableDevice)));
}

#[test]
fn headless_front_switches_host_image_copy_on_when_offered() {
    let front = TracerFront::new_headless();
    let devices = vec![combined_device(&["VK_EXT_host_image_copy", "VK_EXT_buffer_device_address"])];
    let plan = negotiate(&front, &devices).unwrap();
    assert!(plan.capabilities.host_image_copy);
    assert_eq!(plan.extensions, names(&["VK_EXT_host_image_copy", "VK_EXT_buffer_device_address"]));
    assert_eq!(
        plan.features,
        vec![DeviceFeature::HostImageCopy, DeviceFeature::BufferDeviceAddress, DeviceFeature::HostQueryReset]
    );
    assert!(plan.front_families.as_families().is_empty());
}

#[test]
fn headless_front_without_host_image_copy() {
    let mut caps = DeviceCapabilities::default();
    let required = get_required_device_extensions(&TracerFront::new_headless(), &names(&["VK_KHR_swapchain"]), &mut caps);
    assert_eq!(required, names(&["VK_EXT_buffer_device_address"]));
    assert!(!caps.host_image_copy);
}

#[test]
fn back_queue_families_take_the_last_match() {
    let families = vec![family(true, true, 64, false), family(true, false, 0, false), family(false, true, 32, false)];
    let ix = Back::find_queue_families(&families).unwrap();
    assert_eq!(ix.graphics_family, 1);
    assert_eq!(ix.compute_family, 2);
}

#[test]
fn back_queue_families_errors() {
    let no_graphics = vec![family(false, true, 64, false)];
    assert_eq!(Back::find_queue_families(&no_graphics).err(), Some(NegotiationError::NoGraphicsQueue));
    let no_timestamps = vec![family(true, true, 0, false)];
    assert_eq!(Back::find_queue_families(&no_timestamps).err(), Some(NegotiationError::NoComputeQueue));
    let mut empty_family = family(true, true, 64, false);
    empty_family.queue_count = 0;
    assert_eq!(Back::find_queue_families(&vec![empty_family]).err(), Some(NegotiationError::NoGraphicsQueue));
}

#[test]
fn windowed_queue_family_needs_present_support() {
    let front = windowed();
    let device = DeviceCandidate {
        extensions: vec![],
        queue_families: vec![family(true, true, 64, false), family(false, false, 0, true)],
        surface_format_count: 1,
        present_mode_count: 1,
    };
    assert_eq!(front.find_queue_families(&device).err(), Some(NegotiationError::NoPresentQueue));
}

#[test]
fn subset_of_names() {
    let available = names(&["a", "b", "c"]);
    assert!(is_subset(&available, &names(&["c", "a"])));
    assert!(is_subset(&available, &names(&[])));
    assert!(!is_subset(&available, &names(&["a", "d"])));
    assert!(contains_name(&available, &"b".to_string()));
    assert!(!contains_name(&available, &"B".to_string()));
}

#[test]
fn debug_extension_and_layer_only_where_offered() {
    let mut caps = InstanceCapabilities::default();
    let ext = debug_instance_extensions(&names(&["VK_KHR_surface", "VK_EXT_debug_utils"]), &mut caps);
    assert_eq!(ext, names(&["VK_EXT_debug_utils"]));
    assert!(caps.debug_utils_ext);
    assert!(!debug_messenger_available(&caps));
    let layers = debug_instance_layers(&names(&["VK_LAYER_KHRONOS_validation"]), &mut caps);
    assert_eq!(layers, names(&["VK_LAYER_KHRONOS_validation"]));
    assert!(debug_messenger_available(&caps));

    let mut none = InstanceCapabilities::default();
    assert!(debug_instance_extensions(&names(&["VK_KHR_surface"]), &mut none).is_empty());
    assert!(debug_instance_layers(&names(&[]), &mut none).is_empty());
    assert!(!none.debug_utils_ext && !none.validation_layer);
}
