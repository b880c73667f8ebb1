//! Firmware status codes.

use vstd::prelude::*;
use vstd::std_specs::convert::FromSpec;

verus! {

/// What a firmware call reports back, as a 64-bit status word. Errors carry
/// the top bit of the word, warnings are the small numbers from 1, and
/// success is 0.
#[derive(Clone, Copy, Debug, PartialEq, Eq, Structural)]
pub enum EfiStatus {
    EfiSuccess,
    EfiLoadError,
    EfiInvalidParameter,
    EfiUnsupported,
    EfiBadBufferSize,
    EfiBufferTooSmall,
    EfiNotReady,
    EfiDeviceError,
    EfiWriteProtected,
    EfiOutOfResources,
    EfiVolumeCorrupted,
    EfiVolumeFull,
    EfiNoMedia,
    EfiMediaChanged,
    EfiNotFound,
    EfiAccessDenied,
    EfiNoResponse,
    EfiNoMapping,
    EfiTimeout,
    EfiNotStarted,
    EfiAlreadyStarted,
    EfiAborted,
    EfiIcmpError,
    EfiTftpError,
    EfiProtocolError,
    EfiIncompatibleVersion,
    EfiSecurityViolation,
    EfiCrcError,
    EfiEndOfMedia,
    EfiEndOfFile,
    EfiInvalidLanguage,
    EfiCompromisedData,
    EfiHttpError,
    EfiNetworkUnreachable,
    EfiHostUnreachable,
    EfiProtocolUnreachable,
    EfiPortUnreachable,
    EfiConnectioNFin,
    EfiConnectionReset,
    EfiConnectionRefused,
    EfiWarnUnknownGlyph,
    EfiWarnDeleteFailure,
    EfiWarnWriteFailure,
    EfiWarnBufferTooSmall,
    EfiWarnStaleData,
    EfiWarnFileSystem,
    /// A number that the table of known statuses does not hold.
    InvalidEfiStatusCode(u64),
}

impl EfiStatus {
    /// The number that the firmware uses for this status.
    pub open spec fn spec_code(&self) -> u64 {
        match *self {
            EfiStatus::EfiSuccess => 0x0,
            EfiStatus::EfiLoadError => 0x8000000000000001,
            EfiStatus::EfiInvalidParameter => 0x8000000000000002,
            EfiStatus::EfiUnsupported => 0x8000000000000003,
            EfiStatus::EfiBadBufferSize => 0x8000000000000004,
            EfiStatus::EfiBufferTooSmall => 0x8000000000000005,
            EfiStatus::EfiNotReady => 0x8000000000000006,
            EfiStatus::EfiDeviceError => 0x8000000000000007,
            EfiStatus::EfiWriteProtected => 0x8000000000000008,
            EfiStatus::EfiOutOfResources => 0x8000000000000009,
            EfiStatus::EfiVolumeCorrupted => 0x800000000000000a,
            EfiStatus::EfiVolumeFull => 0x800000000000000b,
            EfiStatus::EfiNoMedia => 0x800000000000000c,
            EfiStatus::EfiMediaChanged => 0x800000000000000d,
            EfiStatus::EfiNotFound => 0x800000000000000e,
            EfiStatus::EfiAccessDenied => 0x800000000000000f,
            EfiStatus::EfiNoResponse => 0x8000000000000010,
            EfiStatus::EfiNoMapping => 0x8000000000000011,
            EfiStatus::EfiTimeout => 0x8000000000000012,
            EfiStatus::EfiNotStarted => 0x8000000000000013,
            EfiStatus::EfiAlreadyStarted => 0x8000000000000014,
            EfiStatus::EfiAborted => 0x8000000000000015,
            EfiStatus::EfiIcmpError => 0x8000000000000016,
            EfiStatus::EfiTftpError => 0x8000000000000017,
            EfiStatus::EfiProtocolError => 0x8000000000000018,
            EfiStatus::EfiIncompatibleVersion => 0x8000000000000019,
            EfiStatus::EfiSecurityViolation => 0x800000000000001a,
            EfiStatus::EfiCrcError => 0x800000000000001b,
            EfiStatus::EfiEndOfMedia => 0x800000000000001c,
            EfiStatus::EfiEndOfFile => 0x800000000000001f,
            EfiStatus::EfiInvalidLanguage => 0x8000000000000020,
            EfiStatus::EfiCompromisedData => 0x8000000000000021,
            EfiStatus::EfiHttpError => 0x8000000000000023,
            EfiStatus::EfiNetworkUnreachable => 0x8000000000000064,
            EfiStatus::EfiHostUnreachable => 0x8000000000000065,
            EfiStatus::EfiProtocolUnreachable => 0x8000000000000066,
            EfiStatus::EfiPortUnreachable => 0x8000000000000067,
            EfiStatus::EfiConnectioNFin => 0x8000000000000068,
            EfiStatus::EfiConnectionReset => 0x8000000000000069,
            EfiStatus::EfiConnectionRefused => 0x800000000000006a,
            EfiStatus::EfiWarnUnknownGlyph => 0x1,
            EfiStatus::EfiWarnDeleteFailure => 0x2,
            EfiStatus::EfiWarnWriteFailure => 0x3,
            EfiStatus::EfiWarnBufferTooSmall => 0x4,
            EfiStatus::EfiWarnStaleData => 0x5,
            EfiStatus::EfiWarnFileSystem => 0x6,
            EfiStatus::InvalidEfiStatusCode(val) => val,
        }
    }

    /// Whether `val` is the number of one of the named statuses.
    pub open spec fn is_known_code(val: u64) -> bool {
        exists|s: EfiStatus| !(s is InvalidEfiStatusCode) && #[trigger] s.spec_code() == val
    }

    /// A status is canonical when it is the one that its own number decodes
    /// to: every named status is, and `InvalidEfiStatusCode(val)` is exactly
    /// when no named status has the number `val`.
    pub open spec fn is_canonical(self) -> bool {
        match self {
            EfiStatus::InvalidEfiStatusCode(val) => !Self::is_known_code(val),
            _ => true,
        }
    }

    /// The number that the firmware uses for this status.
    #[verifier::when_used_as_spec(spec_code)]
    pub fn code(&self) -> (val: u64)
        ensures
            val == self.spec_code(),
    {
        match self {
            EfiStatus::EfiSuccess => 0x0,
            EfiStatus::EfiLoadError => 0x8000000000000001,
            EfiStatus::EfiInvalidParameter => 0x8000000000000002,
            EfiStatus::EfiUnsupported => 0x8000000000000003,
            EfiStatus::EfiBadBufferSize => 0x8000000000000004,
            EfiStatus::EfiBufferTooSmall => 0x8000000000000005,
            EfiStatus::EfiNotReady => 0x8000000000000006,
            EfiStatus::EfiDeviceError => 0x8000000000000007,
            EfiStatus::EfiWriteProtected => 0x8000000000000008,
            EfiStatus::EfiOutOfResources => 0x8000000000000009,
            EfiStatus::EfiVolumeCorrupted => 0x800000000000000a,
            EfiStatus::EfiVolumeFull => 0x800000000000000b,
            EfiStatus::EfiNoMedia => 0x800000000000000c,
            EfiStatus::EfiMediaChanged => 0x800000000000000d,
            EfiStatus::EfiNotFound => 0x800000000000000e,
            EfiStatus::EfiAccessDenied => 0x800000000000000f,
            EfiStatus::EfiNoResponse => 0x8000000000000010,
            EfiStatus::EfiNoMapping => 0x8000000000000011,
            EfiStatus::EfiTimeout => 0x8000000000000012,
            EfiStatus::EfiNotStarted => 0x8000000000000013,
            EfiStatus::EfiAlreadyStarted => 0x8000000000000014,
            EfiStatus::EfiAborted => 0x8000000000000015,
            EfiStatus::EfiIcmpError => 0x8000000000000016,
            EfiStatus::EfiTftpError => 0x8000000000000017,
            EfiStatus::EfiProtocolError => 0x8000000000000018,
            EfiStatus::EfiIncompatibleVersion => 0x8000000000000019,
            EfiStatus::EfiSecurityViolation => 0x800000000000001a,
            EfiStatus::EfiCrcError => 0x800000000000001b,
            EfiStatus::EfiEndOfMedia => 0x800000000000001c,
            EfiStatus::EfiEndOfFile => 0x800000000000001f,
            EfiStatus::EfiInvalidLanguage => 0x8000000000000020,
            EfiStatus::EfiCompromisedData => 0x8000000000000021,
            EfiStatus::EfiHttpError => 0x8000000000000023,
            EfiStatus::EfiNetworkUnreachable => 0x8000000000000064,
            EfiStatus::EfiHostUnreachable => 0x8000000000000065,
            EfiStatus::EfiProtocolUnreachable => 0x8000000000000066,
            EfiStatus::EfiPortUnreachable => 0x8000000000000067,
            EfiStatus::EfiConnectioNFin => 0x8000000000000068,
            EfiStatus::EfiConnectionReset => 0x8000000000000069,
            EfiStatus::EfiConnectionRefused => 0x800000000000006a,
            EfiStatus::EfiWarnUnknownGlyph => 0x1,
            EfiStatus::EfiWarnDeleteFailure => 0x2,
            EfiStatus::EfiWarnWriteFailure => 0x3,
            EfiStatus::EfiWarnBufferTooSmall => 0x4,
            EfiStatus::EfiWarnStaleData => 0x5,
            EfiStatus::EfiWarnFileSystem => 0x6,
            EfiStatus::InvalidEfiStatusCode(val) => *val,
        }
    }

    /// Decoding the number of a canonical status gives that status back.
    pub proof fn lemma_from_code_roundtrip(self)
        requires
            self.is_canonical(),
        ensures
            EfiStatus::from_spec(self.spec_code()) == self,
    {
        if let EfiStatus::InvalidEfiStatusCode(val) = self {
            let decoded = EfiStatus::from_spec(val);
            if !(decoded is InvalidEfiStatusCode) {
                assert(decoded.spec_code() == val);
            }
        }
    }

    /// Every number decodes to a canonical status that carries that number:
    /// no number is lost, and none is taken for another.
    pub proof fn lemma_code_from_roundtrip(val: u64)
        ensures
            EfiStatus::from_spec(val).spec_code() == val,
            EfiStatus::from_spec(val).is_canonical(),
            EfiStatus::from_spec(val) is InvalidEfiStatusCode <==> !Self::is_known_code(val),
    {
        let decoded = EfiStatus::from_spec(val);
        if !(decoded is InvalidEfiStatusCode) {
            assert(decoded.spec_code() == val);
        }
    }
}

impl From<u64> for EfiStatus {
    fn from(val: u64) -> (status: Self) {
        match val {
            0x0 => EfiStatus::EfiSuccess,
            0x8000000000000001 => EfiStatus::EfiLoadError,
            0x8000000000000002 => EfiStatus::EfiInvalidParameter,
            0x8000000000000003 => EfiStatus::EfiUnsupported,
            0x8000000000000004 => EfiStatus::EfiBadBufferSize,
            0x8000000000000005 => EfiStatus::EfiBufferTooSmall,
            0x8000000000000006 => EfiStatus::EfiNotReady,
            0x8000000000000007 => EfiStatus::EfiDeviceError,
            0x8000000000000008 => EfiStatus::EfiWriteProtected,
            0x8000000000000009 => EfiStatus::EfiOutOfResources,
            0x800000000000000a => EfiStatus::EfiVolumeCorrupted,
            0x800000000000000b => EfiStatus::EfiVolumeFull,
            0x800000000000000c => EfiStatus::EfiNoMedia,
            0x800000000000000d => EfiStatus::EfiMediaChanged,
            0x800000000000000e => EfiStatus::EfiNotFound,
            0x800000000000000f => EfiStatus::EfiAccessDenied,
            0x8000000000000010 => EfiStatus::EfiNoResponse,
            0x8000000000000011 => EfiStatus::EfiNoMapping,
            0x8000000000000012 => EfiStatus::EfiTimeout,
            0x8000000000000013 => EfiStatus::EfiNotStarted,
            0x8000000000000014 => EfiStatus::EfiAlreadyStarted,
            0x8000000000000015 => EfiStatus::EfiAborted,
            0x8000000000000016 => EfiStatus::EfiIcmpError,
            0x8000000000000017 => EfiStatus::EfiTftpError,
            0x8000000000000018 => EfiStatus::EfiProtocolError,
            0x8000000000000019 => EfiStatus::EfiIncompatibleVersion,
            0x800000000000001a => EfiStatus::EfiSecurityViolation,
            0x800000000000001b => EfiStatus::EfiCrcError,
            0x800000000000001c => EfiStatus::EfiEndOfMedia,
            0x800000000000001f => EfiStatus::EfiEndOfFile,
            0x8000000000000020 => EfiStatus::EfiInvalidLanguage,
            0x8000000000000021 => EfiStatus::EfiCompromisedData,
            0x8000000000000023 => EfiStatus::EfiHttpError,
            0x8000000000000064 => EfiStatus::EfiNetworkUnreachable,
            0x8000000000000065 => EfiStatus::EfiHostUnreachable,
            0x8000000000000066 => EfiStatus::EfiProtocolUnreachable,
            0x8000000000000067 => EfiStatus::EfiPortUnreachable,
            0x8000000000000068 => EfiStatus::EfiConnectioNFin,
            0x8000000000000069 => EfiStatus::EfiConnectionReset,
            0x800000000000006a => EfiStatus::EfiConnectionRefused,
            0x1 => EfiStatus::EfiWarnUnknownGlyph,
            0x2 => EfiStatus::EfiWarnDeleteFailure,
            0x3 => EfiStatus::EfiWarnWriteFailure,
            0x4 => EfiStatus::EfiWarnBufferTooSmall,
            0x5 => EfiStatus::EfiWarnStaleData,
            0x6 => EfiStatus::EfiWarnFileSystem,
            _ => EfiStatus::InvalidEfiStatusCode(val),
        }
    }
}

impl vstd::std_specs::convert::FromSpecImpl<u64> for EfiStatus {
    open spec fn obeys_from_spec() -> bool {
        true
    }

    /// The status that the number `val` stands for.
    open spec fn from_spec(val: u64) -> Self {
        match val {
            0x0 => EfiStatus::EfiSuccess,
            0x8000000000000001 => EfiStatus::EfiLoadError,
            0x8000000000000002 => EfiStatus::EfiInvalidParameter,
            0x8000000000000003 => EfiStatus::EfiUnsupported,
            0x8000000000000004 => EfiStatus::EfiBadBufferSize,
            0x8000000000000005 => EfiStatus::EfiBufferTooSmall,
            0x8000000000000006 => EfiStatus::EfiNotReady,
            0x8000000000000007 => EfiStatus::EfiDeviceError,
            0x8000000000000008 => EfiStatus::EfiWriteProtected,
            0x8000000000000009 => EfiStatus::EfiOutOfResources,
            0x800000000000000a => EfiStatus::EfiVolumeCorrupted,
            0x800000000000000b => EfiStatus::EfiVolumeFull,
            0x800000000000000c => EfiStatus::EfiNoMedia,
            0x800000000000000d => EfiStatus::EfiMediaChanged,
            0x800000000000000e => EfiStatus::EfiNotFound,
            0x800000000000000f => EfiStatus::EfiAccessDenied,
            0x8000000000000010 => EfiStatus::EfiNoResponse,
            0x8000000000000011 => EfiStatus::EfiNoMapping,
            0x8000000000000012 => EfiStatus::EfiTimeout,
            0x8000000000000013 => EfiStatus::EfiNotStarted,
            0x8000000000000014 => EfiStatus::EfiAlreadyStarted,
            0x8000000000000015 => EfiStatus::EfiAborted,
            0x8000000000000016 => EfiStatus::EfiIcmpError,
            0x8000000000000017 => EfiStatus::EfiTftpError,
            0x8000000000000018 => EfiStatus::EfiProtocolError,
            0x8000000000000019 => EfiStatus::EfiIncompatibleVersion,
            0x800000000000001a => EfiStatus::EfiSecurityViolation,
            0x800000000000001b => EfiStatus::EfiCrcError,
            0x800000000000001c => EfiStatus::EfiEndOfMedia,
            0x800000000000001f => EfiStatus::EfiEndOfFile,
            0x8000000000000020 => EfiStatus::EfiInvalidLanguage,
            0x8000000000000021 => EfiStatus::EfiCompromisedData,
            0x8000000000000023 => EfiStatus::EfiHttpError,
            0x8000000000000064 => EfiStatus::EfiNetworkUnreachable,
            0x8000000000000065 => EfiStatus::EfiHostUnreachable,
            0x8000000000000066 => EfiStatus::EfiProtocolUnreachable,
            0x8000000000000067 => EfiStatus::EfiPortUnreachable,
            0x8000000000000068 => EfiStatus::EfiConnectioNFin,
            0x8000000000000069 => EfiStatus::EfiConnectionReset,
            0x800000000000006a => EfiStatus::EfiConnectionRefused,
            0x1 => EfiStatus::EfiWarnUnknownGlyph,
            0x2 => EfiStatus::EfiWarnDeleteFailure,
            0x3 => EfiStatus::EfiWarnWriteFailure,
            0x4 => EfiStatus::EfiWarnBufferTooSmall,
            0x5 => EfiStatus::EfiWarnStaleData,
            0x6 => EfiStatus::EfiWarnFileSystem,
            _ => EfiStatus::InvalidEfiStatusCode(val),
        }
    }
}

} // verus!
