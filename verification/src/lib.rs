//! The earliest-boot core of a bare-metal kernel: byte-range primitives, the
//! trap dispatch table, the firmware handoff state, the firmware console and
//! memory map, and the serial ports.
//!
//! The library decides and computes; it touches no hardware. Whatever needs
//! a processor instruction or a call into the firmware is handed back to the
//! caller as plain values: the bytes of a table, the buffers for the
//! console, the ports to write, the next query to make.

pub mod bytes;
pub mod efi;
pub mod idt;
pub mod mem;
pub mod serial;
