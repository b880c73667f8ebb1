//! Memory types and memory descriptors as the firmware reports them.

use crate::bytes::{load_u32, load_u64, u32_from_le, u64_from_le};
use vstd::prelude::*;
use vstd::std_specs::convert::FromSpec;

verus! {

/// Bytes in one page of physical memory.
pub const PAGE_SIZE: u64 = 4096;

/// Bytes that the fields of one memory descriptor take up in a memory map.
/// The firmware may leave more room than this between two descriptors.
pub const DESCRIPTOR_SIZE: usize = 40;

/// What a region of physical memory is used for.
#[derive(Clone, Copy, Debug, PartialEq, Eq, Structural)]
pub enum EfiMemoryType {
    ReservedMemoryType,
    LoaderCode,
    LoaderData,
    BootServicesCode,
    BootServicesData,
    RuntimeServicesCode,
    RuntimeServicesData,
    ConventionalMemory,
    UnusableMemory,
    ACPIReclaimMemory,
    ACPIMemoryNVS,
    MemoryMappedIO,
    MemoryMappedIOPortSpace,
    PalCode,
    PersistentMemory,
    /// A type code that the fourteen-odd known types do not cover.
    Invalid,
}

impl EfiMemoryType {
    /// Whether memory of this type is free for the kernel once the boot
    /// services have been left: what the boot services held, ordinary
    /// memory, and persistent memory.
    pub open spec fn spec_avail_post_exit_boot_services(&self) -> bool {
        *self is BootServicesCode || *self is BootServicesData || *self is ConventionalMemory
            || *self is PersistentMemory
    }

    /// Whether memory of this type is free for the kernel once the boot
    /// services have been left.
    #[verifier::when_used_as_spec(spec_avail_post_exit_boot_services)]
    pub fn avail_post_exit_boot_services(&self) -> (avail: bool)
        ensures
            avail == self.spec_avail_post_exit_boot_services(),
    {
        match self {
            EfiMemoryType::BootServicesCode
            | EfiMemoryType::BootServicesData
            | EfiMemoryType::ConventionalMemory
            | EfiMemoryType::PersistentMemory => true,
            _ => false,
        }
    }

    /// The type code of a known memory type; `Invalid` has none.
    pub open spec fn type_code(self) -> Option<u32> {
        match self {
            EfiMemoryType::ReservedMemoryType => Some(0u32),
            EfiMemoryType::LoaderCode => Some(1u32),
            EfiMemoryType::LoaderData => Some(2u32),
            EfiMemoryType::BootServicesCode => Some(3u32),
            EfiMemoryType::BootServicesData => Some(4u32),
            EfiMemoryType::RuntimeServicesCode => Some(5u32),
            EfiMemoryType::RuntimeServicesData => Some(6u32),
            EfiMemoryType::ConventionalMemory => Some(7u32),
            EfiMemoryType::UnusableMemory => Some(8u32),
            EfiMemoryType::ACPIReclaimMemory => Some(9u32),
            EfiMemoryType::ACPIMemoryNVS => Some(10u32),
            EfiMemoryType::MemoryMappedIO => Some(11u32),
            EfiMemoryType::MemoryMappedIOPortSpace => Some(12u32),
            EfiMemoryType::PalCode => Some(13u32),
            EfiMemoryType::PersistentMemory => Some(14u32),
            EfiMemoryType::Invalid => None,
        }
    }

    /// A type code decodes to the one memory type that carries it, and to
    /// `Invalid` exactly when it lies above the last known code.
    pub proof fn lemma_from_type_code(val: u32)
        ensures
            val <= 14 ==> EfiMemoryType::from_spec(val).type_code() == Some(val),
            val > 14 <==> EfiMemoryType::from_spec(val) is Invalid,
    {
    }

    /// Decoding the code of a known memory type gives that type back.
    pub proof fn lemma_type_code_roundtrip(self)
        requires
            !(self is Invalid),
        ensures
            EfiMemoryType::from_spec(self.type_code().unwrap()) == self,
    {
    }

    /// A type code that no known type carries never counts as usable.
    pub proof fn lemma_unknown_type_unusable(val: u32)
        requires
            val > 14,
        ensures
            !EfiMemoryType::from_spec(val).avail_post_exit_boot_services(),
    {
    }
}

impl From<u32> for EfiMemoryType {
    fn from(val: u32) -> (typ: Self) {
        match val {
            0 => EfiMemoryType::ReservedMemoryType,
            1 => EfiMemoryType::LoaderCode,
            2 => EfiMemoryType::LoaderData,
            3 => EfiMemoryType::BootServicesCode,
            4 => EfiMemoryType::BootServicesData,
            5 => EfiMemoryType::RuntimeServicesCode,
            6 => EfiMemoryType::RuntimeServicesData,
            7 => EfiMemoryType::ConventionalMemory,
            8 => EfiMemoryType::UnusableMemory,
            9 => EfiMemoryType::ACPIReclaimMemory,
            10 => EfiMemoryType::ACPIMemoryNVS,
            11 => EfiMemoryType::MemoryMappedIO,
            12 => EfiMemoryType::MemoryMappedIOPortSpace,
            13 => EfiMemoryType::PalCode,
            14 => EfiMemoryType::PersistentMemory,
            _ => EfiMemoryType::Invalid,
        }
    }
}

impl vstd::std_specs::convert::FromSpecImpl<u32> for EfiMemoryType {
    open spec fn obeys_from_spec() -> bool {
        true
    }

    /// The memory type that the type code `val` stands for.
    open spec fn from_spec(val: u32) -> Self {
        match val {
            0 => EfiMemoryType::ReservedMemoryType,
            1 => EfiMemoryType::LoaderCode,
            2 => EfiMemoryType::LoaderData,
            3 => EfiMemoryType::BootServicesCode,
            4 => EfiMemoryType::BootServicesData,
            5 => EfiMemoryType::RuntimeServicesCode,
            6 => EfiMemoryType::RuntimeServicesData,
            7 => EfiMemoryType::ConventionalMemory,
            8 => EfiMemoryType::UnusableMemory,
            9 => EfiMemoryType::ACPIReclaimMemory,
            10 => EfiMemoryType::ACPIMemoryNVS,
            11 => EfiMemoryType::MemoryMappedIO,
            12 => EfiMemoryType::MemoryMappedIOPortSpace,
            13 => EfiMemoryType::PalCode,
            14 => EfiMemoryType::PersistentMemory,
            _ => EfiMemoryType::Invalid,
        }
    }
}

/// One region of physical memory as the firmware reports it.
#[derive(Clone, Copy, Debug, PartialEq, Eq, Structural)]
pub struct EfiMemoryDescriptor {
    /// Type code of the region.
    pub typ: u32,
    /// Physical address of the first byte of the region.
    pub physical_start: u64,
    /// Virtual address of the first byte of the region.
    pub virtual_start: u64,
    /// Number of 4 KiB pages in the region.
    pub number_of_pages: u64,
    /// Bit mask of what the region is capable of.
    pub attribute: u64,
}

impl EfiMemoryDescriptor {
    /// The descriptor that the first `DESCRIPTOR_SIZE` bytes of `bytes` hold:
    /// the type code in four bytes, four bytes that carry nothing, then the
    /// physical start, the virtual start, the page count and the attributes
    /// in eight bytes each, every number least significant byte first.
    pub open spec fn decoded(bytes: Seq<u8>) -> EfiMemoryDescriptor
        recommends
            bytes.len() >= DESCRIPTOR_SIZE,
    {
        EfiMemoryDescriptor {
            typ: u32_from_le(bytes.subrange(0, 4)),
            physical_start: u64_from_le(bytes.subrange(8, 16)),
            virtual_start: u64_from_le(bytes.subrange(16, 24)),
            number_of_pages: u64_from_le(bytes.subrange(24, 32)),
            attribute: u64_from_le(bytes.subrange(32, 40)),
        }
    }

    /// Reads the descriptor whose fields start at `at`.
    pub fn decode(bytes: &[u8], at: usize) -> (desc: EfiMemoryDescriptor)
        requires
            at + DESCRIPTOR_SIZE <= bytes@.len(),
        ensures
            desc == Self::decoded(bytes@.subrange(at as int, at + DESCRIPTOR_SIZE)),
    {
        let ghost fields = bytes@.subrange(at as int, at + DESCRIPTOR_SIZE);
        assert(bytes@.len() == bytes.len());
        assert(fields.subrange(0, 4) =~= bytes@.subrange(at as int, at + 4));
        assert(fields.subrange(8, 16) =~= bytes@.subrange(at + 8, at + 8 + 8));
        assert(fields.subrange(16, 24) =~= bytes@.subrange(at + 16, at + 16 + 8));
        assert(fields.subrange(24, 32) =~= bytes@.subrange(at + 24, at + 24 + 8));
        assert(fields.subrange(32, 40) =~= bytes@.subrange(at + 32, at + 32 + 8));
        EfiMemoryDescriptor {
            typ: load_u32(bytes, at),
            physical_start: load_u64(bytes, at + 8),
            virtual_start: load_u64(bytes, at + 16),
            number_of_pages: load_u64(bytes, at + 24),
            attribute: load_u64(bytes, at + 32),
        }
    }

    /// The memory type that the descriptor's type code stands for.
    pub open spec fn spec_memory_type(&self) -> EfiMemoryType {
        EfiMemoryType::from_spec(self.typ)
    }

    /// The memory type that the descriptor's type code stands for.
    #[verifier::when_used_as_spec(spec_memory_type)]
    pub fn memory_type(&self) -> (typ: EfiMemoryType)
        ensures
            typ == self.spec_memory_type(),
    {
        EfiMemoryType::from(self.typ)
    }

    /// What the firmware promises of every descriptor: the region starts on
    /// a page boundary in both address spaces and holds at least one page.
    pub open spec fn spec_is_well_formed(&self) -> bool {
        &&& self.physical_start % PAGE_SIZE == 0
        &&& self.virtual_start % PAGE_SIZE == 0
        &&& self.number_of_pages != 0
    }

    /// Whether the descriptor is as the firmware promises.
    #[verifier::when_used_as_spec(spec_is_well_formed)]
    pub fn is_well_formed(&self) -> (ok: bool)
        ensures
            ok == self.spec_is_well_formed(),
    {
        self.physical_start % PAGE_SIZE == 0 && self.virtual_start % PAGE_SIZE == 0
            && self.number_of_pages != 0
    }

    /// Bytes of the region that are free for the kernel once the boot
    /// services have been left: all of it, or none.
    pub open spec fn usable_bytes(&self) -> nat {
        if self.spec_memory_type().avail_post_exit_boot_services() {
            (self.number_of_pages * PAGE_SIZE) as nat
        } else {
            0
        }
    }
}

} // verus!
