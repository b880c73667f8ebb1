//! The firmware's tables and handles, as plain records. A field that is a
//! pointer or a function pointer on the machine holds its address here.

use vstd::prelude::*;

verus! {

/// The header that every firmware table starts with.
#[derive(Clone, Copy, Debug, PartialEq, Eq, Structural)]
pub struct EfiTableHeader {
    /// Signature that tells which table follows.
    pub signature: u64,
    /// Revision of the firmware interface that the table conforms to: the
    /// major number in the upper sixteen bits, the minor in the lower.
    pub revision: u32,
    /// Size of the whole table in bytes, this header included.
    pub header_size: u32,
    /// Checksum over the whole table, taken with this field at zero.
    pub crc32: u32,
    /// Always zero.
    pub reserved: u32,
}

/// A 128-bit identifier.
#[derive(Clone, Copy, Debug)]
pub struct EfiGuid {
    pub data1: u32,
    pub data2: u16,
    pub data3: u16,
    pub data4: [u8; 8],
}

/// A handle that the firmware gave out for an image or a device.
#[derive(Clone, Copy, Debug, PartialEq, Eq, Structural)]
pub struct EfiHandle(usize);

/// The token that the firmware issues with a memory map. Leaving the boot
/// services takes the key of the map that is current at that moment.
#[derive(Clone, Copy, Debug, PartialEq, Eq, Structural)]
pub struct EfiMapKey(usize);

/// One entry of the firmware's list of configuration tables.
#[derive(Clone, Copy, Debug)]
pub struct EfiConfigurationTable {
    /// Identifier of the table.
    pub guid: EfiGuid,
    /// Address of the table.
    pub table: usize,
}

/// One key press.
#[derive(Clone, Copy, Debug, PartialEq, Eq, Structural)]
pub struct EfiInputKey {
    /// Scan code of the key.
    scan_code: u16,
    /// Character of the key, as one UTF-16 unit.
    unicode_char: u16,
}

/// The firmware's interface to the console input device.
#[derive(Clone, Copy, Debug, PartialEq, Eq, Structural)]
pub struct EfiSimpleTextInputProtocol {
    /// Address of the function that resets the input device.
    pub reset: usize,
    /// Address of the function that reads the next key press.
    pub read_keystroke: usize,
    /// Event to wait on for a key press.
    pub _wait_for_key: usize,
}

/// The firmware's interface to a text output device.
#[derive(Clone, Copy, Debug, PartialEq, Eq, Structural)]
pub struct EfiSimpleTextOutputProtocol {
    /// Address of the function that resets the output device.
    pub reset: usize,
    /// Address of the function that writes a zero-terminated UTF-16 string
    /// to the device.
    pub output_string: usize,
    /// Address of the function that tells whether the device can show all
    /// characters of a string.
    pub test_string: usize,
    pub _query_mode: usize,
    pub _set_mode: usize,
    pub _set_attribute: usize,
    pub _clear_screen: usize,
    pub _set_cursor_position: usize,
    pub _enable_cursor: usize,
    pub _mode: usize,
}

/// The table of the firmware's boot services.
#[derive(Clone, Copy, Debug, PartialEq, Eq, Structural)]
pub struct EfiBootServices {
    /// The table's header.
    pub header: EfiTableHeader,
    pub _raise_tpl: usize,
    pub _restore_tpl: usize,
    pub _allocate_pages: usize,
    pub _free_pages: usize,
    /// Address of the function that reports the current memory map and its
    /// key.
    pub get_memory_map: usize,
    pub _allocate_pool: usize,
    pub _free_pool: usize,
    pub _create_event: usize,
    pub _set_timer: usize,
    pub _wait_for_event: usize,
    pub _signal_event: usize,
    pub _close_event: usize,
    pub _check_event: usize,
    pub _install_protocol_interface: usize,
    pub _reinstall_protocol_interface: usize,
    pub _uninstall_protocol_interface: usize,
    pub _handle_protocol: usize,
    pub _reserved: usize,
    pub _register_protocol_notify: usize,
    pub _locate_handle: usize,
    pub _locate_device_path: usize,
    pub _install_configuration_table: usize,
    pub _load_image: usize,
    pub _start_image: usize,
    pub _exit: usize,
    pub _unload_image: usize,
    /// Address of the function that ends the boot services.
    pub exit_boot_services: usize,
}

/// The firmware's system table, from which every other table is reached.
#[derive(Clone, Copy, Debug, PartialEq, Eq, Structural)]
pub struct EfiSystemTable {
    /// The table's header.
    pub header: EfiTableHeader,
    /// Address of the zero-terminated UTF-16 name of the firmware's vendor.
    pub firmware_vendor: usize,
    /// The vendor's revision number of the firmware.
    pub firmware_revision: u32,
    /// Handle of the console input device.
    pub console_in_handle: EfiHandle,
    /// Address of the input protocol of the console input device.
    pub console_in: usize,
    /// Handle of the console output device.
    pub console_out_handle: EfiHandle,
    /// Address of the output protocol of the console output device.
    pub console_out: usize,
    /// Handle of the console error device.
    pub console_err_handle: EfiHandle,
    /// Address of the output protocol of the console error device.
    pub console_err: usize,
    /// Address of the table of runtime services.
    pub _runtime_services: usize,
    /// Address of the table of boot services.
    pub boot_services: usize,
    /// Number of configuration tables.
    pub number_of_tables: usize,
    /// Address of the first configuration table.
    pub tables: usize,
}

impl EfiHandle {
    /// The handle that carries the number `raw`.
    pub fn new(raw: usize) -> (handle: Self)
        ensures
            handle.raw() == raw,
    {
        EfiHandle(raw)
    }

    /// The number that the firmware gave out.
    pub closed spec fn spec_raw(&self) -> usize {
        self.0
    }

    /// The number that the firmware gave out.
    #[verifier::when_used_as_spec(spec_raw)]
    pub fn raw(&self) -> (raw: usize)
        ensures
            raw == self.spec_raw(),
    {
        self.0
    }
}

impl EfiMapKey {
    /// The key that carries the number `raw`.
    pub fn new(raw: usize) -> (key: Self)
        ensures
            key.raw() == raw,
    {
        EfiMapKey(raw)
    }

    /// The number that the firmware issued.
    pub closed spec fn spec_raw(&self) -> usize {
        self.0
    }

    /// The number that the firmware issued.
    #[verifier::when_used_as_spec(spec_raw)]
    pub fn raw(&self) -> (raw: usize)
        ensures
            raw == self.spec_raw(),
    {
        self.0
    }
}

impl EfiInputKey {
    /// The key press with this scan code and character.
    pub fn new(scan_code: u16, unicode_char: u16) -> (key: Self)
        ensures
            key.scan_code() == scan_code,
            key.unicode_char() == unicode_char,
    {
        EfiInputKey { scan_code, unicode_char }
    }

    /// Scan code of the key.
    pub closed spec fn spec_scan_code(&self) -> u16 {
        self.scan_code
    }

    /// Scan code of the key.
    #[verifier::when_used_as_spec(spec_scan_code)]
    pub fn scan_code(&self) -> (code: u16)
        ensures
            code == self.spec_scan_code(),
    {
        self.scan_code
    }

    /// Character of the key, as one UTF-16 unit.
    pub closed spec fn spec_unicode_char(&self) -> u16 {
        self.unicode_char
    }

    /// Character of the key, as one UTF-16 unit.
    #[verifier::when_used_as_spec(spec_unicode_char)]
    pub fn unicode_char(&self) -> (unit: u16)
        ensures
            unit == self.spec_unicode_char(),
    {
        self.unicode_char
    }
}

} // verus!
