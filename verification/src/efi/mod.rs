//! The firmware interface: status codes, tables, the handoff state, the
//! console and the memory map.

pub mod console;
pub mod handoff;
pub mod memory;
pub mod memory_map;
pub mod status;
pub mod tables;

pub use console::{output_string, ScreenWriter};
pub use handoff::{register_system_table, AlreadyRegistered, FirmwareHandoff};
pub use memory::{EfiMemoryDescriptor, EfiMemoryType};
pub use memory_map::{
    free_memory, get_memory_map, memory_map_reply, parse_descriptors, MemoryMap, MemoryMapError,
    MemoryMapReply, MemoryMapStep,
};
pub use status::EfiStatus;
pub use tables::{
    EfiBootServices, EfiConfigurationTable, EfiGuid, EfiHandle, EfiInputKey, EfiMapKey,
    EfiSimpleTextInputProtocol, EfiSimpleTextOutputProtocol, EfiSystemTable, EfiTableHeader,
};
