use early_boot::idt::handlers::{breakpoint, default_handler, double_fault, page_fault, FatalTrap};
use early_boot::idt::{idt_init, idt_set_descriptor, HandlerAddresses, Idt, IdtEntry, Idtr};

fn handlers() -> HandlerAddresses {
    HandlerAddresses {
        default_handler: 0xFFFF_8000_0010_2030,
        page_fault: 0xFFFF_8000_0020_4050,
        double_fault: 0xFFFF_8000_0030_6070,
        breakpoint: 0x0000_0000_0040_8090,
    }
}

#[test]
fn new_table_is_unpopulated() {
    let idt = Idt::new();
    assert_eq!(idt.entries.len(), 256);
    for entry in idt.entries.iter() {
        assert_eq!(*entry, IdtEntry::empty());
        assert_eq!(entry.attributes & 0x80, 0);
        assert_eq!(entry.handler(), 0);
    }
}

#[test]
fn set_descriptor_splits_the_address() {
    let mut idt = Idt::new();
    idt_set_descriptor(&mut idt, 0x21, 0x1234_5678_9ABC_DEF0, 0x8E);
    let entry = idt.entries[0x21];
    assert_eq!(entry.isr_low, 0xDEF0);
    assert_eq!(entry.isr_mid, 0x9ABC);
    assert_eq!(entry.isr_high, 0x1234_5678);
    assert_eq!(entry.kernel_cs, 0x8);
    assert_eq!(entry.ist, 0);
    assert_eq!(entry.attributes, 0x8E);
    assert_eq!(entry.reserved, 0);
    assert_eq!(entry.handler(), 0x1234_5678_9ABC_DEF0);
}

#[test]
fn set_descriptor_keeps_flags_verbatim() {
    let mut idt = Idt::new();
    let all_flags: [u8; 5] = [0x00, 0x8E, 0x8F, 0xEE, 0xFF];
    for &flags in all_flags.iter() {
        idt_set_descriptor(&mut idt, 255, 0x1000, flags);
        assert_eq!(idt.entries[255].attributes, flags);
    }
}

#[test]
fn set_descriptor_touches_one_vector() {
    let mut idt = Idt::new();
    idt_set_descriptor(&mut idt, 0, 0xAAAA_BBBB_CCCC_DDDD, 0x8E);
    idt_set_descriptor(&mut idt, 255, 0x1111_2222_3333_4444, 0x8F);
    assert_eq!(idt.entries[0].handler(), 0xAAAA_BBBB_CCCC_DDDD);
    assert_eq!(idt.entries[255].handler(), 0x1111_2222_3333_4444);
    for vector in 1..255usize {
        assert_eq!(idt.entries[vector], IdtEntry::empty());
    }
}

#[test]
fn install_populates_every_vector() {
    let mut idt = Idt::new();
    let h = handlers();
    let idtr = idt_init(&mut idt, 0x0010_0000, &h);
    assert_eq!(idtr, Idtr { limit: 4095, base: 0x0010_0000 });
    let mut populated = 0;
    for vector in 0..256usize {
        let entry = idt.entries[vector];
        assert_eq!(entry.attributes, 0x8E);
        assert_eq!(entry.kernel_cs, 0x8);
        assert_eq!(entry.ist, 0);
        assert_eq!(entry.reserved, 0);
        let expected = match vector {
            0x0E => h.page_fault,
            0x03 => h.breakpoint,
            0x08 => h.double_fault,
            _ => h.default_handler,
        };
        assert_eq!(entry.handler(), expected, "vector {}", vector);
        assert_eq!(entry.handler(), h.handler_for(vector as u8));
        populated += 1;
    }
    assert_eq!(populated, 256);
}

#[test]
fn install_twice_is_install_once() {
    let h = handlers();
    let mut once = Idt::new();
    let first = idt_init(&mut once, 0x2000, &h);
    let mut twice = Idt::new();
    idt_init(&mut twice, 0x2000, &h);
    let second = idt_init(&mut twice, 0x2000, &h);
    assert_eq!(first, second);
    assert_eq!(once.entries.to_vec(), twice.entries.to_vec());
}

#[test]
fn install_overwrites_what_was_there() {
    let h = handlers();
    let mut idt = Idt::new();
    idt_set_descriptor(&mut idt, 0x0E, 0xDEAD_BEEF, 0x00);
    idt_set_descriptor(&mut idt, 0x40, 0xDEAD_BEEF, 0xEE);
    idt_init(&mut idt, 0, &h);
    let mut fresh = Idt::new();
    idt_init(&mut fresh, 0, &h);
    assert_eq!(idt.entries.to_vec(), fresh.entries.to_vec());
}

#[test]
fn descriptor_bytes_follow_the_processor_layout() {
    let entry = IdtEntry {
        isr_low: 0xDEF0,
        kernel_cs: 0x0008,
        ist: 0x03,
        attributes: 0x8E,
        isr_mid: 0x9ABC,
        isr_high: 0x1234_5678,
        reserved: 0xA1B2_C3D4,
    };
    let mut bytes: Vec<u8> = vec![0xEE; 18];
    entry.encode(&mut bytes, 1);
    assert_eq!(
        bytes,
        vec![
            0xEE, 0xF0, 0xDE, 0x08, 0x00, 0x03, 0x8E, 0xBC, 0x9A, 0x78, 0x56, 0x34, 0x12, 0xD4,
            0xC3, 0xB2, 0xA1, 0xEE
        ]
    );
    assert_eq!(IdtEntry::decode(&bytes, 1), entry);
}

#[test]
fn payload_bytes_are_limit_then_base() {
    let idtr = Idtr { limit: 0x0FFF, base: 0x1122_3344_5566_7788 };
    let mut bytes: Vec<u8> = vec![0xEE; 12];
    idtr.encode(&mut bytes, 1);
    assert_eq!(
        bytes,
        vec![0xEE, 0xFF, 0x0F, 0x88, 0x77, 0x66, 0x55, 0x44, 0x33, 0x22, 0x11, 0xEE]
    );
}

#[test]
fn table_image_holds_every_descriptor() {
    let h = handlers();
    let mut idt = Idt::new();
    idt_init(&mut idt, 0x7000, &h);
    let image = idt.image();
    assert_eq!(image.len(), 4096);
    for vector in 0..256usize {
        let entry = IdtEntry::decode(&image, vector * 16);
        assert_eq!(entry, idt.entries[vector]);
    }
    let page_fault_entry = IdtEntry::decode(&image, 0x0E * 16);
    assert_eq!(page_fault_entry.handler(), h.page_fault);
    assert_eq!(IdtEntry::decode(&image, 0x03 * 16).handler(), h.breakpoint);
    assert_eq!(IdtEntry::decode(&image, 0x08 * 16).handler(), h.double_fault);
    assert_eq!(IdtEntry::decode(&image, 0x20 * 16).handler(), h.default_handler);
}

#[test]
fn handlers_end_in_a_fatal_trap() {
    assert_eq!(default_handler(), FatalTrap::UnhandledInterrupt);
    assert_eq!(page_fault(), FatalTrap::PageFault);
    assert_eq!(double_fault(), FatalTrap::DoubleFault);
    assert_eq!(breakpoint(), FatalTrap::Breakpoint);
    assert_eq!(default_handler().message(), "Unhandled interrupt");
    assert_eq!(page_fault().message(), "Page fault");
    assert_eq!(double_fault().message(), "Double fault");
    assert_eq!(breakpoint().message(), "Breakpoint");
}
