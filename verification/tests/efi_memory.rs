use early_boot::efi::memory::{DESCRIPTOR_SIZE, PAGE_SIZE};
use early_boot::efi::{EfiMemoryDescriptor, EfiMemoryType};

#[test]
fn memory_type_from_known_codes() {
    let expected = [
        EfiMemoryType::ReservedMemoryType,
        EfiMemoryType::LoaderCode,
        EfiMemoryType::LoaderData,
        EfiMemoryType::BootServicesCode,
        EfiMemoryType::BootServicesData,
        EfiMemoryType::RuntimeServicesCode,
        EfiMemoryType::RuntimeServicesData,
        EfiMemoryType::ConventionalMemory,
        EfiMemoryType::UnusableMemory,
        EfiMemoryType::ACPIReclaimMemory,
        EfiMemoryType::ACPIMemoryNVS,
        EfiMemoryType::MemoryMappedIO,
        EfiMemoryType::MemoryMappedIOPortSpace,
        EfiMemoryType::PalCode,
        EfiMemoryType::PersistentMemory,
    ];
    for (code, typ) in expected.iter().enumerate() {
        assert_eq!(EfiMemoryType::from(code as u32), *typ);
    }
}

#[test]
fn memory_type_from_unknown_codes() {
    let unknown: [u32; 4] = [15, 16, 0x7000_0000, u32::MAX];
    for &code in unknown.iter() {
        assert_eq!(EfiMemoryType::from(code), EfiMemoryType::Invalid);
        assert!(!EfiMemoryType::from(code).avail_post_exit_boot_services());
    }
}

#[test]
fn usable_types_after_the_boot_services() {
    let mut usable = Vec::new();
    for code in 0..=15u32 {
        if EfiMemoryType::from(code).avail_post_exit_boot_services() {
            usable.push(code);
        }
    }
    assert_eq!(usable, vec![3, 4, 7, 14]);
    assert!(EfiMemoryType::BootServicesCode.avail_post_exit_boot_services());
    assert!(EfiMemoryType::BootServicesData.avail_post_exit_boot_services());
    assert!(EfiMemoryType::ConventionalMemory.avail_post_exit_boot_services());
    assert!(EfiMemoryType::PersistentMemory.avail_post_exit_boot_services());
    assert!(!EfiMemoryType::ReservedMemoryType.avail_post_exit_boot_services());
    assert!(!EfiMemoryType::ACPIReclaimMemory.avail_post_exit_boot_services());
    assert!(!EfiMemoryType::LoaderData.avail_post_exit_boot_services());
    assert!(!EfiMemoryType::Invalid.avail_post_exit_boot_services());
}

#[test]
fn descriptor_is_read_from_its_byte_layout() {
    assert_eq!(DESCRIPTOR_SIZE, 40);
    assert_eq!(PAGE_SIZE, 4096);
    let mut bytes: Vec<u8> = vec![0xEE];
    bytes.extend_from_slice(&[0x07, 0x00, 0x00, 0x00]);
    bytes.extend_from_slice(&[0xAA, 0xBB, 0xCC, 0xDD]);
    bytes.extend_from_slice(&[0x00, 0x10, 0x00, 0x00, 0x01, 0x00, 0x00, 0x00]);
    bytes.extend_from_slice(&[0x00, 0x20, 0x00, 0x00, 0x00, 0x00, 0xFF, 0xFF]);
    bytes.extend_from_slice(&[0x0A, 0x00, 0x00, 0x00, 0x00, 0x00, 0x00, 0x00]);
    bytes.extend_from_slice(&[0x0F, 0x00, 0x00, 0x00, 0x00, 0x00, 0x00, 0x80]);
    bytes.push(0xEE);
    let descriptor = EfiMemoryDescriptor::decode(&bytes, 1);
    assert_eq!(
        descriptor,
        EfiMemoryDescriptor {
            typ: 7,
            physical_start: 0x0000_0001_0000_1000,
            virtual_start: 0xFFFF_0000_0000_2000,
            number_of_pages: 10,
            attribute: 0x8000_0000_0000_000F,
        }
    );
    assert_eq!(descriptor.memory_type(), EfiMemoryType::ConventionalMemory);
    assert!(descriptor.is_well_formed());
}

#[test]
fn descriptor_well_formedness() {
    let good = EfiMemoryDescriptor {
        typ: 7,
        physical_start: 0x1000,
        virtual_start: 0,
        number_of_pages: 1,
        attribute: 0,
    };
    assert!(good.is_well_formed());
    assert!(!EfiMemoryDescriptor { physical_start: 0x1001, ..good }.is_well_formed());
    assert!(!EfiMemoryDescriptor { virtual_start: 0x0FFF, ..good }.is_well_formed());
    assert!(!EfiMemoryDescriptor { number_of_pages: 0, ..good }.is_well_formed());
}
