use vstd::prelude::*;

use crate::error::FerroBabeError;

verus! {

/// Lowest class-file major version the disassembler accepts.
pub const MIN_CLASS_MAJOR_VERSION: u16 = 45;
/// Highest class-file major version the disassembler accepts.
pub const MAX_CLASS_MAJOR_VERSION: u16 = 70;
/// The magic number that opens every class file.
pub const CLASS_MAGIC: u32 = 0xCAFEBABE;
/// Length of the magic number and the two version fields.
pub const CLASS_HEADER_LENGTH: usize = 8;

/// The big-endian 16-bit value stored at `at` and `at + 1`.
pub open spec fn be_u16(bytes: Seq<u8>, at: int) -> int {
    bytes[at] * 256 + bytes[at + 1]
}

/// The big-endian 32-bit value stored at `at` through `at + 3`.
pub open spec fn be_u32(bytes: Seq<u8>, at: int) -> int {
    be_u16(bytes, at) * 65536 + be_u16(bytes, at + 2)
}

/// The version numbers of a class file whose header was accepted.
#[derive(Debug, Clone, Copy, PartialEq, Eq, Structural)]
pub struct ClassHeader {
    pub minor_version: u16,
    pub major_version: u16,
}

/// What reading the header of `bytes` gives: the first failed check, in order, or the versions.
pub open spec fn header_of(bytes: Seq<u8>) -> Result<ClassHeader, FerroBabeError> {
    if bytes.len() < CLASS_HEADER_LENGTH {
        Err(FerroBabeError::InputTooShort { required: CLASS_HEADER_LENGTH, actual: bytes.len() as usize })
    } else if be_u32(bytes, 0) != CLASS_MAGIC {
        Err(FerroBabeError::InvalidMagic { found: be_u32(bytes, 0) as u32 })
    } else if !(MIN_CLASS_MAJOR_VERSION <= be_u16(bytes, 6) <= MAX_CLASS_MAJOR_VERSION) {
        Err(
            FerroBabeError::UnsupportedVersion {
                major: be_u16(bytes, 6) as u16,
                minor: be_u16(bytes, 4) as u16,
            },
        )
    } else {
        Ok(ClassHeader { minor_version: be_u16(bytes, 4) as u16, major_version: be_u16(bytes, 6) as u16 })
    }
}

fn read_be_u16(bytes: &[u8], at: usize) -> (value: u16)
    requires
        at + 2 <= bytes@.len(),
    ensures
        value == be_u16(bytes@, at as int),
{
    bytes[at] as u16 * 256 + bytes[at + 1] as u16
}

fn read_be_u32(bytes: &[u8], at: usize) -> (value: u32)
    requires
        at + 4 <= bytes@.len(),
        at <= CLASS_HEADER_LENGTH,
    ensures
        value == be_u32(bytes@, at as int),
{
    let high = read_be_u16(bytes, at);
    let low = read_be_u16(bytes, at + 2);
    high as u32 * 65536 + low as u32
}

impl ClassHeader {
    /// Checks the magic number and the major version, and reads both versions.
    pub fn read(bytes: &[u8]) -> (header: Result<Self, FerroBabeError>)
        ensures
            header == header_of(bytes@),
    {
        if bytes.len() < CLASS_HEADER_LENGTH {
            return Err(FerroBabeError::InputTooShort { required: CLASS_HEADER_LENGTH, actual: bytes.len() });
        }
        let magic = read_be_u32(bytes, 0);
        if magic != CLASS_MAGIC {
            return Err(FerroBabeError::InvalidMagic { found: magic });
        }
        let minor_version = read_be_u16(bytes, 4);
        let major_version = read_be_u16(bytes, 6);
        if !(MIN_CLASS_MAJOR_VERSION <= major_version && major_version <= MAX_CLASS_MAJOR_VERSION) {
            return Err(FerroBabeError::UnsupportedVersion { major: major_version, minor: minor_version });
        }
        Ok(ClassHeader { minor_version, major_version })
    }
}

/// Inputs that are long enough and carry the magic number are accepted exactly when their
/// major version lies in 45 through 70, whatever the minor version; the header then holds the
/// stored versions.
pub proof fn law_supported_versions(bytes: Seq<u8>)
    requires
        bytes.len() >= CLASS_HEADER_LENGTH,
        be_u32(bytes, 0) == CLASS_MAGIC,
    ensures
        header_of(bytes) is Ok <==> 45 <= be_u16(bytes, 6) <= 70,
        header_of(bytes) matches Ok(h) ==> h.major_version == be_u16(bytes, 6)
            && h.minor_version == be_u16(bytes, 4),
{
}

/// An input of at least eight bytes that does not open with `CA FE BA BE` fails with
/// `InvalidMagic` carrying its first four bytes, big-endian, whatever its version bytes hold:
/// the magic number is checked before the version.
pub proof fn law_magic_is_checked_before_version(bytes: Seq<u8>)
    requires
        bytes.len() >= CLASS_HEADER_LENGTH,
        !(bytes[0] == 0xCA && bytes[1] == 0xFE && bytes[2] == 0xBA && bytes[3] == 0xBE),
    ensures
        header_of(bytes) == Err::<ClassHeader, FerroBabeError>(
            FerroBabeError::InvalidMagic {
                found: (bytes[0] * 0x100_0000 + bytes[1] * 0x1_0000 + bytes[2] * 0x100 + bytes[3]) as u32,
            },
        ),
{
    assert(be_u32(bytes, 0) == bytes[0] * 0x100_0000 + bytes[1] * 0x1_0000 + bytes[2] * 0x100 + bytes[3]);
    assert(be_u32(bytes, 0) != CLASS_MAGIC) by {
        if be_u32(bytes, 0) == CLASS_MAGIC {
            assert(bytes[0] == 0xCA && bytes[1] == 0xFE && bytes[2] == 0xBA && bytes[3] == 0xBE)
                by (nonlinear_arith)
                requires
                    bytes[0] * 0x100_0000 + bytes[1] * 0x1_0000 + bytes[2] * 0x100 + bytes[3]
                        == 0xCAFEBABE,
                    0 <= bytes[0] < 256,
                    0 <= bytes[1] < 256,
                    0 <= bytes[2] < 256,
                    0 <= bytes[3] < 256,
            ;
        }
    }
}

/// An input shorter than the header fails as too short, whatever its bytes.
pub proof fn law_short_input_fails_first(bytes: Seq<u8>)
    requires
        bytes.len() < CLASS_HEADER_LENGTH,
    ensures
        header_of(bytes) == Err::<ClassHeader, FerroBabeError>(
            FerroBabeError::InputTooShort { required: 8, actual: bytes.len() as usize },
        ),
{
}

} // verus!
