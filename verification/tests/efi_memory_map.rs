use early_boot::efi::memory_map::INITIAL_CAPACITY;
use early_boot::efi::{
    free_memory, get_memory_map, memory_map_reply, parse_descriptors, register_system_table,
    EfiMapKey, EfiMemoryDescriptor, EfiStatus, FirmwareHandoff, MemoryMapError, MemoryMapReply,
    MemoryMapStep,
};

fn region(typ: u32, physical_start: u64, pages: u64) -> EfiMemoryDescriptor {
    EfiMemoryDescriptor {
        typ,
        physical_start,
        virtual_start: 0,
        number_of_pages: pages,
        attribute: 0xF,
    }
}

fn put(bytes: &mut Vec<u8>, descriptor: &EfiMemoryDescriptor, stride: usize) {
    let start = bytes.len();
    bytes.extend_from_slice(&descriptor.typ.to_le_bytes());
    bytes.extend_from_slice(&[0xCC; 4]);
    bytes.extend_from_slice(&descriptor.physical_start.to_le_bytes());
    bytes.extend_from_slice(&descriptor.virtual_start.to_le_bytes());
    bytes.extend_from_slice(&descriptor.number_of_pages.to_le_bytes());
    bytes.extend_from_slice(&descriptor.attribute.to_le_bytes());
    while bytes.len() < start + stride {
        bytes.push(0xDD);
    }
}

fn map_bytes(descriptors: &[EfiMemoryDescriptor], stride: usize) -> Vec<u8> {
    let mut bytes = Vec::new();
    for descriptor in descriptors {
        put(&mut bytes, descriptor, stride);
    }
    bytes
}

fn reply(status: EfiStatus, size: usize, stride: usize) -> MemoryMapReply {
    MemoryMapReply {
        status,
        size,
        key: EfiMapKey::new(0x51),
        descriptor_size: stride,
        descriptor_version: 1,
    }
}

fn sample() -> Vec<EfiMemoryDescriptor> {
    vec![region(7, 0x0000, 10), region(0, 0xA000, 5), region(4, 0xF000, 2)]
}

#[test]
fn usable_bytes_leave_out_the_reserved_region() {
    // ConventionalMemory 10 pages, ReservedMemoryType 5 pages, BootServicesData 2 pages
    assert_eq!(free_memory(&sample()), Some(49152));
    assert_eq!(free_memory(&sample()), Some((10 + 2) * 4096));
}

#[test]
fn usable_bytes_of_no_region() {
    assert_eq!(free_memory(&[]), Some(0));
}

#[test]
fn usable_bytes_count_the_four_usable_types() {
    let mut all = Vec::new();
    for typ in 0..=20u32 {
        all.push(region(typ, 0, 1));
    }
    assert_eq!(free_memory(&all), Some(4 * 4096));
}

#[test]
fn usable_bytes_do_not_depend_on_unusable_regions() {
    let with = vec![region(7, 0, 3), region(11, 0, u64::MAX), region(14, 0, 4), region(99, 0, 8)];
    let without = vec![region(7, 0, 3), region(14, 0, 4)];
    assert_eq!(free_memory(&with), Some(7 * 4096));
    assert_eq!(free_memory(&with), free_memory(&without));
}

#[test]
fn usable_bytes_that_do_not_fit() {
    let one_too_large = vec![region(7, 0, 1 << 52)];
    assert_eq!(free_memory(&one_too_large), None);
    let largest = vec![region(7, 0, (1 << 52) - 1)];
    assert_eq!(free_memory(&largest), Some(u64::MAX - 4095));
    let together = vec![region(7, 0, (1 << 52) - 1), region(3, 0, 1)];
    assert_eq!(free_memory(&together), None);
    let unusable_large = vec![region(0, 0, u64::MAX), region(7, 0, 1)];
    assert_eq!(free_memory(&unusable_large), Some(4096));
}

#[test]
fn descriptors_are_read_in_strides() {
    let descriptors = sample();
    for &stride in [40usize, 48, 64, 100].iter() {
        let bytes = map_bytes(&descriptors, stride);
        assert_eq!(bytes.len(), 3 * stride);
        let parsed = parse_descriptors(&bytes, bytes.len(), stride);
        assert_eq!(parsed, Ok(descriptors.clone()));
    }
}

#[test]
fn descriptors_beyond_the_reported_size_are_not_read() {
    let descriptors = sample();
    let bytes = map_bytes(&descriptors, 48);
    assert_eq!(parse_descriptors(&bytes, 96, 48), Ok(descriptors[..2].to_vec()));
    assert_eq!(parse_descriptors(&bytes, 48, 48), Ok(descriptors[..1].to_vec()));
    assert_eq!(parse_descriptors(&bytes, 0, 48), Ok(Vec::new()));
}

#[test]
fn last_descriptor_may_end_before_its_stride() {
    let descriptors = sample();
    let bytes = map_bytes(&descriptors, 48);
    // the third descriptor's fields end at 96 + 40
    assert_eq!(parse_descriptors(&bytes, 136, 48), Ok(descriptors.clone()));
    assert_eq!(parse_descriptors(&bytes[..136], 136, 48), Ok(descriptors.clone()));
}

#[test]
fn layout_errors() {
    let bytes = map_bytes(&sample(), 48);
    assert_eq!(parse_descriptors(&bytes, 144, 39), Err(MemoryMapError::StrideTooSmall));
    assert_eq!(parse_descriptors(&bytes, 144, 0), Err(MemoryMapError::StrideTooSmall));
    assert_eq!(parse_descriptors(&bytes, 145, 48), Err(MemoryMapError::SizeExceedsBuffer));
    assert_eq!(parse_descriptors(&bytes, 135, 48), Err(MemoryMapError::TruncatedDescriptor));
    assert_eq!(parse_descriptors(&bytes, 97, 48), Err(MemoryMapError::TruncatedDescriptor));
    assert_eq!(parse_descriptors(&bytes, 1, 48), Err(MemoryMapError::TruncatedDescriptor));
    // the stride is looked at first, then the size
    assert_eq!(parse_descriptors(&bytes, 1000, 8), Err(MemoryMapError::StrideTooSmall));
    assert_eq!(parse_descriptors(&bytes, 1000, 48), Err(MemoryMapError::SizeExceedsBuffer));
}

#[test]
fn request_without_firmware_is_unavailable() {
    let handoff = FirmwareHandoff::new();
    assert!(matches!(get_memory_map(&handoff), MemoryMapStep::Unavailable));
}

#[test]
fn request_starts_with_the_initial_buffer() {
    let mut handoff = FirmwareHandoff::new();
    assert_eq!(register_system_table(&mut handoff, 0x7F00_0000), Ok(()));
    assert_eq!(INITIAL_CAPACITY, 4096);
    match get_memory_map(&handoff) {
        MemoryMapStep::Query { capacity } => assert_eq!(capacity, 4096),
        other => panic!("unexpected step {:?}", other),
    }
}

#[test]
fn success_gives_the_map_and_its_key() {
    let descriptors = sample();
    let mut buffer = map_bytes(&descriptors, 48);
    buffer.resize(4096, 0);
    match memory_map_reply(&reply(EfiStatus::EfiSuccess, 144, 48), &buffer) {
        MemoryMapStep::Done(map) => {
            assert_eq!(map.descriptors, descriptors);
            assert_eq!(map.size, 144);
            assert_eq!(map.descriptor_size, 48);
            assert_eq!(map.descriptor_version, 1);
            assert_eq!(map.key, EfiMapKey::new(0x51));
            assert_eq!(map.key.raw(), 0x51);
            assert_eq!(free_memory(&map.descriptors), Some(49152));
        }
        other => panic!("unexpected step {:?}", other),
    }
}

#[test]
fn empty_map_is_not_unavailable() {
    let buffer = vec![0u8; 4096];
    match memory_map_reply(&reply(EfiStatus::EfiSuccess, 0, 48), &buffer) {
        MemoryMapStep::Done(map) => assert!(map.descriptors.is_empty()),
        other => panic!("unexpected step {:?}", other),
    }
}

#[test]
fn small_buffer_is_retried_and_gives_the_full_map() {
    let mut descriptors = Vec::new();
    for i in 0..100u64 {
        descriptors.push(region((i % 16) as u32, i * 0x10_0000, i + 1));
    }
    let full = map_bytes(&descriptors, 48);
    assert_eq!(full.len(), 4800);

    let mut handoff = FirmwareHandoff::new();
    assert_eq!(register_system_table(&mut handoff, 0x1000), Ok(()));
    let first_capacity = match get_memory_map(&handoff) {
        MemoryMapStep::Query { capacity } => capacity,
        other => panic!("unexpected step {:?}", other),
    };
    assert_eq!(first_capacity, 4096);

    // the firmware finds the buffer too small and names the size it needs
    let first_buffer = vec![0u8; first_capacity];
    let second_capacity =
        match memory_map_reply(&reply(EfiStatus::EfiBufferTooSmall, 4800, 48), &first_buffer) {
            MemoryMapStep::Query { capacity } => capacity,
            other => panic!("unexpected step {:?}", other),
        };
    assert_eq!(second_capacity, 4800);

    let mut second_buffer = vec![0u8; second_capacity];
    second_buffer.copy_from_slice(&full);
    match memory_map_reply(&reply(EfiStatus::EfiSuccess, 4800, 48), &second_buffer) {
        MemoryMapStep::Done(map) => {
            assert_eq!(map.descriptors.len(), 100);
            assert_eq!(map.descriptors, descriptors);
        }
        other => panic!("unexpected step {:?}", other),
    }
}

#[test]
fn small_buffer_without_a_larger_size_is_fatal() {
    let buffer = vec![0u8; 4096];
    for &size in [0usize, 4095, 4096].iter() {
        match memory_map_reply(&reply(EfiStatus::EfiBufferTooSmall, size, 48), &buffer) {
            MemoryMapStep::Fatal(error) => {
                assert_eq!(error, MemoryMapError::Firmware(EfiStatus::EfiBufferTooSmall))
            }
            other => panic!("unexpected step {:?}", other),
        }
    }
}

#[test]
fn other_statuses_are_fatal() {
    let mut buffer = map_bytes(&sample(), 48);
    buffer.resize(4096, 0);
    let statuses = [
        EfiStatus::EfiInvalidParameter,
        EfiStatus::EfiOutOfResources,
        EfiStatus::EfiWarnBufferTooSmall,
        EfiStatus::EfiWarnStaleData,
        EfiStatus::InvalidEfiStatusCode(0x77),
    ];
    for &status in statuses.iter() {
        match memory_map_reply(&reply(status, 144, 48), &buffer) {
            MemoryMapStep::Fatal(error) => assert_eq!(error, MemoryMapError::Firmware(status)),
            other => panic!("unexpected step {:?}", other),
        }
    }
}

#[test]
fn success_with_a_bad_layout_is_fatal() {
    let buffer = vec![0u8; 4096];
    let cases = [
        (4097usize, 48usize, MemoryMapError::SizeExceedsBuffer),
        (144, 24, MemoryMapError::StrideTooSmall),
        (100, 48, MemoryMapError::TruncatedDescriptor),
    ];
    for &(size, stride, expected) in cases.iter() {
        match memory_map_reply(&reply(EfiStatus::EfiSuccess, size, stride), &buffer) {
            MemoryMapStep::Fatal(error) => assert_eq!(error, expected),
            other => panic!("unexpected step {:?}", other),
        }
    }
}
