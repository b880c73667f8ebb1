//! The trap dispatch table: one descriptor for each of the processor's 256
//! interrupt and exception vectors.

pub mod handlers;

use crate::bytes::{
    lemma_u16_from_le_of_to_le, lemma_u32_from_le_of_to_le, lemma_u64_from_le_of_to_le, load_u16,
    load_u32, overwrite, store_u16, store_u32, store_u64, u16_from_le, u16_to_le,
    u32_from_le, u32_to_le, u64_from_le, u64_to_le,
};
use vstd::prelude::*;

verus! {

/// Number of vectors, and so of descriptors in the table.
pub const VECTORS: usize = 256;

/// Bytes that one descriptor takes up in the table.
pub const DESCRIPTOR_BYTES: usize = 16;

/// Bytes that the register payload takes up.
pub const IDTR_BYTES: usize = 10;

/// Selector of the kernel's code segment, which every handler runs in.
pub const KERNEL_CS: u16 = 0x8;

/// Type and attributes of a present 64-bit interrupt gate at privilege
/// level 0.
pub const INTERRUPT_GATE: u8 = 0x8E;

/// Vector of the breakpoint trap.
pub const BREAKPOINT_VECTOR: u8 = 0x3;

/// Vector of the double fault.
pub const DOUBLE_FAULT_VECTOR: u8 = 0x8;

/// Vector of the page fault.
pub const PAGE_FAULT_VECTOR: u8 = 0xE;

/// One trap descriptor: where the processor goes for one vector.
#[derive(Clone, Copy, Debug, PartialEq, Eq, Structural)]
pub struct IdtEntry {
    /// Bits 0 to 15 of the handler's address.
    pub isr_low: u16,
    /// Code segment selector that the processor loads before it enters the
    /// handler.
    pub kernel_cs: u16,
    /// Index into the interrupt stack table; zero for none.
    pub ist: u8,
    /// Gate type, privilege level and present bit.
    pub attributes: u8,
    /// Bits 16 to 31 of the handler's address.
    pub isr_mid: u16,
    /// Bits 32 to 63 of the handler's address.
    pub isr_high: u32,
    /// Always zero.
    pub reserved: u32,
}

/// What the table-load instruction takes: the table's last valid byte
/// offset and the address of its first byte.
#[derive(Clone, Copy, Debug, PartialEq, Eq, Structural)]
pub struct Idtr {
    /// Size of the table in bytes, less one.
    pub limit: u16,
    /// Address of the table.
    pub base: u64,
}

/// Addresses of the trap handlers that the table dispatches to.
#[derive(Clone, Copy, Debug, PartialEq, Eq, Structural)]
pub struct HandlerAddresses {
    /// Handler of every vector without a handler of its own.
    pub default_handler: u64,
    /// Handler of the page fault.
    pub page_fault: u64,
    /// Handler of the double fault.
    pub double_fault: u64,
    /// Handler of the breakpoint trap.
    pub breakpoint: u64,
}

/// The trap dispatch table.
#[derive(Clone, Copy, Debug)]
pub struct Idt {
    /// The descriptors, by vector.
    pub entries: [IdtEntry; 256],
}

impl IdtEntry {
    /// The descriptor that sends a vector to the handler at `isr`, with
    /// `flags` as its type and attributes.
    pub open spec fn spec_for_handler(isr: u64, flags: u8) -> IdtEntry {
        IdtEntry {
            isr_low: (isr % 0x1_0000) as u16,
            kernel_cs: KERNEL_CS,
            ist: 0,
            attributes: flags,
            isr_mid: (isr / 0x1_0000 % 0x1_0000) as u16,
            isr_high: (isr / 0x1_0000_0000) as u32,
            reserved: 0,
        }
    }

    /// The descriptor that sends a vector to the handler at `isr`, with
    /// `flags` as its type and attributes.
    #[verifier::when_used_as_spec(spec_for_handler)]
    pub fn for_handler(isr: u64, flags: u8) -> (entry: IdtEntry)
        ensures
            entry == Self::spec_for_handler(isr, flags),
    {
        assert(isr & 0xFFFF == isr % 0x1_0000) by (bit_vector);
        assert((isr >> 16) & 0xFFFF == isr / 0x1_0000 % 0x1_0000) by (bit_vector);
        assert((isr >> 32) & 0xFFFF_FFFF == isr / 0x1_0000_0000) by (bit_vector);
        IdtEntry {
            isr_low: (isr & 0xFFFF) as u16,
            kernel_cs: KERNEL_CS,
            ist: 0,
            attributes: flags,
            isr_mid: ((isr >> 16) & 0xFFFF) as u16,
            isr_high: ((isr >> 32) & 0xFFFF_FFFF) as u32,
            reserved: 0,
        }
    }

    /// The descriptor of a vector that nothing has been installed for: all
    /// zero, and so not present.
    pub open spec fn spec_empty() -> IdtEntry {
        IdtEntry {
            isr_low: 0,
            kernel_cs: 0,
            ist: 0,
            attributes: 0,
            isr_mid: 0,
            isr_high: 0,
            reserved: 0,
        }
    }

    /// The descriptor of a vector that nothing has been installed for.
    #[verifier::when_used_as_spec(spec_empty)]
    pub fn empty() -> (entry: IdtEntry)
        ensures
            entry == Self::spec_empty(),
    {
        IdtEntry {
            isr_low: 0,
            kernel_cs: 0,
            ist: 0,
            attributes: 0,
            isr_mid: 0,
            isr_high: 0,
            reserved: 0,
        }
    }

    /// The address of the handler that the descriptor sends its vector to.
    pub open spec fn spec_handler(&self) -> u64 {
        (self.isr_low + self.isr_mid * 0x1_0000 + self.isr_high * 0x1_0000_0000) as u64
    }

    /// The address of the handler that the descriptor sends its vector to.
    #[verifier::when_used_as_spec(spec_handler)]
    pub fn handler(&self) -> (isr: u64)
        ensures
            isr == self.spec_handler(),
    {
        self.isr_low as u64 + self.isr_mid as u64 * 0x1_0000 + self.isr_high as u64
            * 0x1_0000_0000
    }

    /// The sixteen bytes of the descriptor as the processor reads them: the
    /// low address bits, the selector, the stack table index, the type and
    /// attributes, the middle address bits, the high address bits and the
    /// reserved field, with nothing between them and every number least
    /// significant byte first.
    pub open spec fn encoded(&self) -> Seq<u8> {
        u16_to_le(self.isr_low) + u16_to_le(self.kernel_cs) + seq![self.ist, self.attributes]
            + u16_to_le(self.isr_mid) + u32_to_le(self.isr_high) + u32_to_le(self.reserved)
    }

    /// The descriptor that sixteen bytes stand for.
    pub open spec fn decoded(bytes: Seq<u8>) -> IdtEntry
        recommends
            bytes.len() == DESCRIPTOR_BYTES,
    {
        IdtEntry {
            isr_low: u16_from_le(bytes.subrange(0, 2)),
            kernel_cs: u16_from_le(bytes.subrange(2, 4)),
            ist: bytes[4],
            attributes: bytes[5],
            isr_mid: u16_from_le(bytes.subrange(6, 8)),
            isr_high: u32_from_le(bytes.subrange(8, 12)),
            reserved: u32_from_le(bytes.subrange(12, 16)),
        }
    }

    /// A descriptor made for a handler sends its vector to that handler,
    /// through the kernel's code segment and with the flags given.
    pub proof fn lemma_for_handler(isr: u64, flags: u8)
        ensures
            Self::for_handler(isr, flags).handler() == isr,
            Self::for_handler(isr, flags).attributes == flags,
            Self::for_handler(isr, flags).kernel_cs == KERNEL_CS,
    {
        assert(isr % 0x1_0000 + (isr / 0x1_0000 % 0x1_0000) * 0x1_0000 + (isr / 0x1_0000_0000)
            * 0x1_0000_0000 == isr && isr / 0x1_0000_0000 <= 0xFFFF_FFFF) by (bit_vector);
    }

    /// The bytes of a descriptor stand for that descriptor.
    pub proof fn lemma_decoded_encoded(self)
        ensures
            self.encoded().len() == DESCRIPTOR_BYTES,
            Self::decoded(self.encoded()) == self,
    {
        let bytes = self.encoded();
        lemma_u16_from_le_of_to_le(self.isr_low);
        lemma_u16_from_le_of_to_le(self.kernel_cs);
        lemma_u16_from_le_of_to_le(self.isr_mid);
        lemma_u32_from_le_of_to_le(self.isr_high);
        lemma_u32_from_le_of_to_le(self.reserved);
        assert(bytes.subrange(0, 2) =~= u16_to_le(self.isr_low));
        assert(bytes.subrange(2, 4) =~= u16_to_le(self.kernel_cs));
        assert(bytes.subrange(6, 8) =~= u16_to_le(self.isr_mid));
        assert(bytes.subrange(8, 12) =~= u32_to_le(self.isr_high));
        assert(bytes.subrange(12, 16) =~= u32_to_le(self.reserved));
    }

    /// Writes the sixteen bytes of the descriptor at `at`.
    pub fn encode(&self, bytes: &mut [u8], at: usize)
        requires
            at + DESCRIPTOR_BYTES <= old(bytes)@.len(),
        ensures
            final(bytes)@ == overwrite(old(bytes)@, at as int, self.encoded()),
    {
        assert(bytes@.len() == bytes.len());
        store_u16(bytes, at, self.isr_low);
        store_u16(bytes, at + 2, self.kernel_cs);
        bytes[at + 4] = self.ist;
        bytes[at + 5] = self.attributes;
        store_u16(bytes, at + 6, self.isr_mid);
        store_u32(bytes, at + 8, self.isr_high);
        store_u32(bytes, at + 12, self.reserved);
        assert(bytes@ =~= overwrite(old(bytes)@, at as int, self.encoded()));
    }

    /// Reads the descriptor whose sixteen bytes start at `at`.
    pub fn decode(bytes: &[u8], at: usize) -> (entry: IdtEntry)
        requires
            at + DESCRIPTOR_BYTES <= bytes@.len(),
        ensures
            entry == Self::decoded(bytes@.subrange(at as int, at + DESCRIPTOR_BYTES)),
    {
        let ghost fields = bytes@.subrange(at as int, at + DESCRIPTOR_BYTES);
        assert(bytes@.len() == bytes.len());
        assert(fields.subrange(0, 2) =~= bytes@.subrange(at as int, at + 2));
        assert(fields.subrange(2, 4) =~= bytes@.subrange(at + 2, at + 2 + 2));
        assert(fields.subrange(6, 8) =~= bytes@.subrange(at + 6, at + 6 + 2));
        assert(fields.subrange(8, 12) =~= bytes@.subrange(at + 8, at + 8 + 4));
        assert(fields.subrange(12, 16) =~= bytes@.subrange(at + 12, at + 12 + 4));
        IdtEntry {
            isr_low: load_u16(bytes, at),
            kernel_cs: load_u16(bytes, at + 2),
            ist: bytes[at + 4],
            attributes: bytes[at + 5],
            isr_mid: load_u16(bytes, at + 6),
            isr_high: load_u32(bytes, at + 8),
            reserved: load_u32(bytes, at + 12),
        }
    }
}

impl Idtr {
    /// The ten bytes of the payload as the table-load instruction reads
    /// them: the limit, then the base, least significant byte first.
    pub open spec fn encoded(&self) -> Seq<u8> {
        u16_to_le(self.limit) + u64_to_le(self.base)
    }

    /// The payload that ten bytes stand for.
    pub open spec fn decoded(bytes: Seq<u8>) -> Idtr
        recommends
            bytes.len() == IDTR_BYTES,
    {
        Idtr { limit: u16_from_le(bytes.subrange(0, 2)), base: u64_from_le(bytes.subrange(2, 10)) }
    }

    /// The bytes of a payload stand for that payload.
    pub proof fn lemma_decoded_encoded(self)
        ensures
            self.encoded().len() == IDTR_BYTES,
            Self::decoded(self.encoded()) == self,
    {
        let bytes = self.encoded();
        lemma_u16_from_le_of_to_le(self.limit);
        lemma_u64_from_le_of_to_le(self.base);
        assert(bytes.subrange(0, 2) =~= u16_to_le(self.limit));
        assert(bytes.subrange(2, 10) =~= u64_to_le(self.base));
    }

    /// Writes the ten bytes of the payload at `at`.
    pub fn encode(&self, bytes: &mut [u8], at: usize)
        requires
            at + IDTR_BYTES <= old(bytes)@.len(),
        ensures
            final(bytes)@ == overwrite(old(bytes)@, at as int, self.encoded()),
    {
        assert(bytes@.len() == bytes.len());
        store_u16(bytes, at, self.limit);
        store_u64(bytes, at + 2, self.base);
        assert(bytes@ =~= overwrite(old(bytes)@, at as int, self.encoded()));
    }
}

impl HandlerAddresses {
    /// The handler that `vector` is dispatched to: its own for the page
    /// fault, the breakpoint trap and the double fault, the default handler
    /// for every other vector.
    pub open spec fn spec_handler_for(&self, vector: u8) -> u64 {
        if vector == PAGE_FAULT_VECTOR {
            self.page_fault
        } else if vector == BREAKPOINT_VECTOR {
            self.breakpoint
        } else if vector == DOUBLE_FAULT_VECTOR {
            self.double_fault
        } else {
            self.default_handler
        }
    }

    /// The handler that `vector` is dispatched to.
    #[verifier::when_used_as_spec(spec_handler_for)]
    pub fn handler_for(&self, vector: u8) -> (isr: u64)
        ensures
            isr == self.spec_handler_for(vector),
    {
        if vector == PAGE_FAULT_VECTOR {
            self.page_fault
        } else if vector == BREAKPOINT_VECTOR {
            self.breakpoint
        } else if vector == DOUBLE_FAULT_VECTOR {
            self.double_fault
        } else {
            self.default_handler
        }
    }
}

/// The table with the descriptor of `vector` written for the handler at
/// `isr`.
pub open spec fn with_descriptor(table: Seq<IdtEntry>, vector: u8, isr: u64, flags: u8) -> Seq<
    IdtEntry,
> {
    table.update(vector as int, IdtEntry::for_handler(isr, flags))
}

/// The table with the descriptors of all vectors below `upto` written for
/// the handler at `isr`.
pub open spec fn with_descriptors_below(table: Seq<IdtEntry>, upto: int, isr: u64, flags: u8) -> Seq<
    IdtEntry,
> {
    Seq::new(
        table.len(),
        |v: int| if 0 <= v < upto { IdtEntry::for_handler(isr, flags) } else { table[v] },
    )
}

/// The table after an install: every vector is given the default handler,
/// and then the page fault, the breakpoint trap and the double fault are
/// given their own.
pub open spec fn after_install(table: Seq<IdtEntry>, handlers: HandlerAddresses) -> Seq<IdtEntry> {
    let defaults = with_descriptors_below(
        table,
        VECTORS as int,
        handlers.default_handler,
        INTERRUPT_GATE,
    );
    let first = with_descriptor(defaults, PAGE_FAULT_VECTOR, handlers.page_fault, INTERRUPT_GATE);
    let second = with_descriptor(first, BREAKPOINT_VECTOR, handlers.breakpoint, INTERRUPT_GATE);
    with_descriptor(second, DOUBLE_FAULT_VECTOR, handlers.double_fault, INTERRUPT_GATE)
}

/// The installed table: each vector has a present interrupt gate to the
/// handler that it is dispatched to.
pub open spec fn installed(handlers: HandlerAddresses) -> Seq<IdtEntry> {
    Seq::new(
        VECTORS as nat,
        |v: int| IdtEntry::for_handler(handlers.handler_for(v as u8), INTERRUPT_GATE),
    )
}

/// The payload for a table of `VECTORS` descriptors at `base`.
pub open spec fn payload(base: u64) -> Idtr {
    Idtr { limit: (VECTORS * DESCRIPTOR_BYTES - 1) as u16, base }
}

/// Whatever the table held before, an install leaves the installed table.
pub proof fn lemma_install_populates(table: Seq<IdtEntry>, handlers: HandlerAddresses)
    requires
        table.len() == VECTORS,
    ensures
        after_install(table, handlers) == installed(handlers),
{
    assert(after_install(table, handlers) =~= installed(handlers));
}

/// A second install leaves the table as the first left it.
pub proof fn lemma_install_idempotent(table: Seq<IdtEntry>, handlers: HandlerAddresses)
    requires
        table.len() == VECTORS,
    ensures
        after_install(after_install(table, handlers), handlers) == after_install(table, handlers),
{
    lemma_install_populates(table, handlers);
    lemma_install_populates(after_install(table, handlers), handlers);
}

/// In the installed table every vector has a present interrupt gate in the
/// kernel's code segment, and its descriptor gives back the address of the
/// handler that the vector is dispatched to.
pub proof fn lemma_installed_dispatch(handlers: HandlerAddresses, vector: u8)
    ensures
        installed(handlers).len() == VECTORS,
        installed(handlers)[vector as int].handler() == handlers.handler_for(vector),
        installed(handlers)[vector as int].attributes == INTERRUPT_GATE,
        installed(handlers)[vector as int].kernel_cs == KERNEL_CS,
        vector != PAGE_FAULT_VECTOR && vector != BREAKPOINT_VECTOR && vector
            != DOUBLE_FAULT_VECTOR ==> installed(handlers)[vector as int].handler()
            == handlers.default_handler,
        installed(handlers)[PAGE_FAULT_VECTOR as int].handler() == handlers.page_fault,
        installed(handlers)[BREAKPOINT_VECTOR as int].handler() == handlers.breakpoint,
        installed(handlers)[DOUBLE_FAULT_VECTOR as int].handler() == handlers.double_fault,
{
    IdtEntry::lemma_for_handler(handlers.handler_for(vector), INTERRUPT_GATE);
    IdtEntry::lemma_for_handler(handlers.page_fault, INTERRUPT_GATE);
    IdtEntry::lemma_for_handler(handlers.breakpoint, INTERRUPT_GATE);
    IdtEntry::lemma_for_handler(handlers.double_fault, INTERRUPT_GATE);
}

impl Idt {
    /// The descriptors, by vector.
    pub open spec fn view(&self) -> Seq<IdtEntry> {
        self.entries@
    }

    /// The table before any install: no vector has a descriptor.
    pub fn new() -> (idt: Idt)
        ensures
            idt@.len() == VECTORS,
            forall|v: int| 0 <= v < VECTORS ==> idt@[v] == IdtEntry::empty(),
    {
        Idt { entries: [IdtEntry::empty();256] }
    }

    /// The bytes of the whole table, descriptor after descriptor, as they
    /// lie at the table's base address.
    pub fn image(&self) -> (bytes: Vec<u8>)
        ensures
            bytes@.len() == VECTORS * DESCRIPTOR_BYTES,
            forall|v: int|
                0 <= v < VECTORS ==> #[trigger] bytes@.subrange(
                    v * DESCRIPTOR_BYTES as int,
                    v * DESCRIPTOR_BYTES as int + DESCRIPTOR_BYTES as int,
                ) == self@[v].encoded(),
    {
        let mut bytes: Vec<u8> = vec![0u8; 4096];
        let mut v: usize = 0;
        while v < VECTORS
            invariant
                v <= VECTORS,
                bytes@.len() == VECTORS * DESCRIPTOR_BYTES,
                forall|w: int|
                    0 <= w < v ==> #[trigger] bytes@.subrange(
                        w * DESCRIPTOR_BYTES as int,
                        w * DESCRIPTOR_BYTES as int + DESCRIPTOR_BYTES as int,
                    ) == self@[w].encoded(),
            decreases VECTORS - v,
        {
            let ghost before = bytes@;
            let entry = self.entries[v];
            proof {
                entry.lemma_decoded_encoded();
            }
            entry.encode(bytes.as_mut_slice(), v * DESCRIPTOR_BYTES);
            assert forall|w: int| 0 <= w < v + 1 implies #[trigger] bytes@.subrange(
                w * DESCRIPTOR_BYTES as int,
                w * DESCRIPTOR_BYTES as int + DESCRIPTOR_BYTES as int,
            ) == self@[w].encoded() by {
                if w < v {
                    assert(bytes@.subrange(
                        w * DESCRIPTOR_BYTES as int,
                        w * DESCRIPTOR_BYTES as int + DESCRIPTOR_BYTES as int,
                    ) =~= before.subrange(
                        w * DESCRIPTOR_BYTES as int,
                        w * DESCRIPTOR_BYTES as int + DESCRIPTOR_BYTES as int,
                    ));
                } else {
                    assert(bytes@.subrange(
                        w * DESCRIPTOR_BYTES as int,
                        w * DESCRIPTOR_BYTES as int + DESCRIPTOR_BYTES as int,
                    ) =~= entry.encoded());
                }
            }
            v = v + 1;
        }
        bytes
    }
}

/// Writes the descriptor of `vector`: the handler's address split over the
/// three address fields, the kernel's code segment, no interrupt stack, and
/// `flags` as they are for the type and attributes. Every other descriptor
/// stays as it is.
pub fn idt_set_descriptor(idt: &mut Idt, vector: u8, isr: u64, flags: u8)
    ensures
        final(idt)@ == with_descriptor(old(idt)@, vector, isr, flags),
{
    idt.entries[vector as usize] = IdtEntry::for_handler(isr, flags);
    assert(idt@ =~= with_descriptor(old(idt)@, vector, isr, flags));
}

/// Builds the whole table and hands back the payload for the table-load
/// instruction, which the caller issues with it. First every vector is
/// given the default handler; then the page fault, the breakpoint trap and
/// the double fault are given their own; only then is the payload made, for
/// the table at `base`. The table that was there before does not matter.
pub fn idt_init(idt: &mut Idt, base: u64, handlers: &HandlerAddresses) -> (idtr: Idtr)
    ensures
        final(idt)@ == after_install(old(idt)@, *handlers),
        final(idt)@ == installed(*handlers),
        idtr == payload(base),
{
    let mut i: usize = 0;
    while i < VECTORS
        invariant
            i <= VECTORS,
            idt@ == with_descriptors_below(
                old(idt)@,
                i as int,
                handlers.default_handler,
                INTERRUPT_GATE,
            ),
        decreases VECTORS - i,
    {
        idt_set_descriptor(idt, i as u8, handlers.default_handler, INTERRUPT_GATE);
        i = i + 1;
        assert(idt@ =~= with_descriptors_below(
            old(idt)@,
            i as int,
            handlers.default_handler,
            INTERRUPT_GATE,
        ));
    }
    idt_set_descriptor(idt, PAGE_FAULT_VECTOR, handlers.page_fault, INTERRUPT_GATE);
    idt_set_descriptor(idt, BREAKPOINT_VECTOR, handlers.breakpoint, INTERRUPT_GATE);
    idt_set_descriptor(idt, DOUBLE_FAULT_VECTOR, handlers.double_fault, INTERRUPT_GATE);
    proof {
        lemma_install_populates(old(idt)@, *handlers);
    }
    Idtr { limit: (VECTORS * DESCRIPTOR_BYTES - 1) as u16, base }
}

} // verus!
