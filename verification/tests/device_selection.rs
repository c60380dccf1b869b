use erupt::vk;
use memtest_vulkan::device::{
    find_memory_type, find_queue_family, flags_contain, select_device, DeviceCandidate, DeviceKind,
    MemoryRequest, MemoryType, MEMORY_DEVICE_LOCAL, MEMORY_HOST_COHERENT, MEMORY_HOST_VISIBLE,
    QUEUE_COMPUTE,
};
use memtest_vulkan::window::ConfigurationError;

const COMPUTE: u32 = QUEUE_COMPUTE;
const DEVICE_LOCAL: u32 = MEMORY_DEVICE_LOCAL;
const HOST_VISIBLE: u32 = MEMORY_HOST_VISIBLE;
const HOST_COHERENT: u32 = MEMORY_HOST_COHERENT;

#[test]
fn flag_bits_are_those_of_the_graphics_api() {
    assert_eq!(QUEUE_COMPUTE, vk::QueueFlags::COMPUTE.bits());
    assert_eq!(MEMORY_DEVICE_LOCAL, vk::MemoryPropertyFlags::DEVICE_LOCAL.bits());
    assert_eq!(MEMORY_HOST_VISIBLE, vk::MemoryPropertyFlags::HOST_VISIBLE.bits());
    assert_eq!(MEMORY_HOST_COHERENT, vk::MemoryPropertyFlags::HOST_COHERENT.bits());
}

#[test]
fn containment_agrees_with_the_graphics_api() {
    for required in 0u32..16 {
        for flags in 0u32..16 {
            assert_eq!(
                flags_contain(flags, required),
                vk::MemoryPropertyFlags::from_bits_truncate(flags)
                    .contains(vk::MemoryPropertyFlags::from_bits_truncate(required))
            );
        }
    }
}

#[test]
fn requests_ask_for_the_documented_properties() {
    let control = MemoryRequest::for_control_structure(0b1010);
    assert_eq!(
        control,
        MemoryRequest {
            memory_type_bits: 0b1010,
            required_flags: (vk::MemoryPropertyFlags::DEVICE_LOCAL
                | vk::MemoryPropertyFlags::HOST_VISIBLE
                | vk::MemoryPropertyFlags::HOST_COHERENT)
                .bits(),
            min_heap_size: 0,
        }
    );
    let region = MemoryRequest::for_test_region(0b11, 5 << 30);
    assert_eq!(
        region,
        MemoryRequest {
            memory_type_bits: 0b11,
            required_flags: vk::MemoryPropertyFlags::DEVICE_LOCAL.bits(),
            min_heap_size: 5 << 30,
        }
    );
}

#[test]
fn flags_are_contained_bit_by_bit() {
    assert!(flags_contain(0b111, 0b101));
    assert!(flags_contain(0b101, 0b101));
    assert!(!flags_contain(0b100, 0b101));
    assert!(flags_contain(0, 0));
    assert!(flags_contain(u32::MAX, u32::MAX));
    assert!(!flags_contain(0, 1));
}

#[test]
fn first_compute_queue_family_is_found() {
    assert_eq!(find_queue_family(&vec![0x1, 0x4, 0x7, 0x2], COMPUTE), Some(2));
    assert_eq!(find_queue_family(&vec![0x2], COMPUTE), Some(0));
    assert_eq!(find_queue_family(&vec![0x1, 0x4, 0xC], COMPUTE), None);
    assert_eq!(find_queue_family(&Vec::new(), COMPUTE), None);
}

fn candidate(kind: DeviceKind) -> DeviceCandidate {
    DeviceCandidate { kind, queue_family: 0 }
}

#[test]
fn discrete_devices_are_preferred() {
    let devices = vec![
        candidate(DeviceKind::Integrated),
        candidate(DeviceKind::Discrete),
        candidate(DeviceKind::Other),
    ];
    assert_eq!(select_device(&devices), Ok(1));
    let devices = vec![candidate(DeviceKind::Other), candidate(DeviceKind::Integrated)];
    assert_eq!(select_device(&devices), Ok(1));
    let devices = vec![candidate(DeviceKind::Integrated), candidate(DeviceKind::Other)];
    assert_eq!(select_device(&devices), Ok(0));
    assert_eq!(select_device(&vec![candidate(DeviceKind::Other)]), Ok(0));
}

#[test]
fn among_equal_devices_the_last_is_taken() {
    let devices = vec![
        candidate(DeviceKind::Discrete),
        candidate(DeviceKind::Integrated),
        candidate(DeviceKind::Discrete),
        candidate(DeviceKind::Other),
    ];
    assert_eq!(select_device(&devices), Ok(2));
    assert_eq!(DeviceKind::Discrete.preference(), 2);
    assert_eq!(DeviceKind::Integrated.preference(), 1);
    assert_eq!(DeviceKind::Other.preference(), 0);
}

#[test]
fn no_device_is_a_configuration_error() {
    assert_eq!(select_device(&Vec::new()), Err(ConfigurationError::NoComputeDevice));
}

fn memory_types() -> Vec<MemoryType> {
    vec![
        MemoryType { property_flags: DEVICE_LOCAL, heap_index: 0 },
        MemoryType { property_flags: HOST_VISIBLE | HOST_COHERENT, heap_index: 1 },
        MemoryType { property_flags: DEVICE_LOCAL | HOST_VISIBLE | HOST_COHERENT, heap_index: 2 },
        MemoryType { property_flags: DEVICE_LOCAL, heap_index: 3 },
    ]
}

fn heaps() -> Vec<u64> {
    vec![8 << 30, 16 << 30, 256 << 20, 24 << 30]
}

#[test]
fn control_memory_is_local_visible_and_coherent() {
    let request = MemoryRequest::for_control_structure(0b1111);
    assert_eq!(find_memory_type(&request, &memory_types(), &heaps()), Ok(2));
    let request = MemoryRequest::for_control_structure(0b1011);
    assert_eq!(
        find_memory_type(&request, &memory_types(), &heaps()),
        Err(ConfigurationError::NoSuitableMemoryType)
    );
}

#[test]
fn test_memory_needs_a_heap_that_holds_the_region() {
    let mut request = MemoryRequest::for_test_region(0b1111, 5 << 30);
    assert_eq!(find_memory_type(&request, &memory_types(), &heaps()), Ok(0));
    request.min_heap_size = 8 << 30;
    assert_eq!(find_memory_type(&request, &memory_types(), &heaps()), Ok(0));
    request.min_heap_size = (8 << 30) + 1;
    assert_eq!(find_memory_type(&request, &memory_types(), &heaps()), Ok(3));
    request.min_heap_size = 32 << 30;
    assert_eq!(
        find_memory_type(&request, &memory_types(), &heaps()),
        Err(ConfigurationError::NoSuitableMemoryType)
    );
}

#[test]
fn memory_types_that_the_buffer_rejects_are_skipped() {
    let request =
        MemoryRequest { memory_type_bits: 0b1000, required_flags: DEVICE_LOCAL, min_heap_size: 0 };
    assert_eq!(find_memory_type(&request, &memory_types(), &heaps()), Ok(3));
    let request =
        MemoryRequest { memory_type_bits: 0b0010, required_flags: DEVICE_LOCAL, min_heap_size: 0 };
    assert_eq!(
        find_memory_type(&request, &memory_types(), &heaps()),
        Err(ConfigurationError::NoSuitableMemoryType)
    );
    let request =
        MemoryRequest { memory_type_bits: 0, required_flags: 0, min_heap_size: 0 };
    assert_eq!(
        find_memory_type(&request, &memory_types(), &heaps()),
        Err(ConfigurationError::NoSuitableMemoryType)
    );
}

#[test]
fn a_missing_heap_counts_as_empty() {
    let types = vec![MemoryType { property_flags: DEVICE_LOCAL, heap_index: 9 }];
    let mut request =
        MemoryRequest { memory_type_bits: 1, required_flags: DEVICE_LOCAL, min_heap_size: 1 };
    assert_eq!(
        find_memory_type(&request, &types, &heaps()),
        Err(ConfigurationError::NoSuitableMemoryType)
    );
    request.min_heap_size = 0;
    assert_eq!(find_memory_type(&request, &types, &heaps()), Ok(0));
}

#[test]
fn only_the_first_32_memory_types_are_looked_at() {
    let mut types = vec![MemoryType { property_flags: 0, heap_index: 0 }; 32];
    types.push(MemoryType { property_flags: DEVICE_LOCAL, heap_index: 0 });
    let request = MemoryRequest {
        memory_type_bits: u32::MAX,
        required_flags: DEVICE_LOCAL,
        min_heap_size: 0,
    };
    assert_eq!(
        find_memory_type(&request, &types, &heaps()),
        Err(ConfigurationError::NoSuitableMemoryType)
    );
    types[31].property_flags = DEVICE_LOCAL;
    assert_eq!(find_memory_type(&request, &types, &heaps()), Ok(31));
}
