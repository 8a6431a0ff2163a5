use vstd::prelude::*;

use crate::format::text::{decimal, decimal_text, hex, padded_hex_text, zero_padded};

verus! {

/// What kind of failure the class-file decoder reported.
#[derive(Debug, Clone, Copy, PartialEq, Eq, Structural)]
pub enum DecodeErrorKind {
    /// The input ended in the middle of a structure.
    UnexpectedEof,
    /// The decoder found a magic number other than `0xCAFEBABE`.
    InvalidMagic(u32),
    /// The decoder refused the class major version.
    InvalidClassVersion(u16),
    /// A constant-pool entry has an unknown tag.
    InvalidConstantPoolTag(u8),
    /// A constant-pool index does not name a suitable entry.
    InvalidIndex(u16),
    /// An attribute is malformed.
    InvalidAttribute,
    /// A bytecode instruction has an unknown opcode.
    InvalidOpcode { opcode: u8, offset: usize },
    /// A modified-UTF-8 string could not be decoded.
    Utf8Error,
}

/// A decoding failure: its kind and the decoder's description of it.
#[derive(Debug, Clone, PartialEq, Eq)]
pub struct DecodeError {
    pub kind: DecodeErrorKind,
    pub message: String,
}

/// Errors returned while reading or formatting a class file.
#[derive(Debug, Clone, PartialEq, Eq)]
pub enum FerroBabeError {
    /// The input is shorter than the fixed class-file header.
    InputTooShort { required: usize, actual: usize },
    /// The input does not start with the class-file magic number.
    InvalidMagic { found: u32 },
    /// The header names a major version outside 45 through 70.
    UnsupportedVersion { major: u16, minor: u16 },
    /// Decoding failed after a valid header.
    Decode { source: DecodeError },
    /// Formatted output could not be written.
    Format,
}

impl FerroBabeError {
    /// The description of this error.
    pub open spec fn spec_message(self) -> Seq<char> {
        match self {
            FerroBabeError::InputTooShort { required, actual } => "class input is too short: expected at least "@
                + decimal(required as nat) + " bytes, found "@ + decimal(actual as nat),
            FerroBabeError::InvalidMagic { found } => "input is not a Java class file: found magic 0x"@
                + zero_padded(hex(found as nat), 8),
            FerroBabeError::UnsupportedVersion { major, minor } => "unsupported Java class-file version "@
                + decimal(major as nat) + "."@ + decimal(minor as nat)
                + "; FerroBabe supports 45.0 through 70.65535"@,
            FerroBabeError::Decode { source } => "class-file decoding failed: "@ + source.message@,
            FerroBabeError::Format => "formatted output could not be written"@,
        }
    }

    /// Describes this error in one line.
    pub fn message(&self) -> (text: String)
        ensures
            text@ == self.spec_message(),
    {
        match self {
            FerroBabeError::InputTooShort { required, actual } => {
                let mut text = String::from_str("class input is too short: expected at least ");
                text.append(decimal_text(*required as u64).as_str());
                text.append(" bytes, found ");
                text.append(decimal_text(*actual as u64).as_str());
                text
            },
            FerroBabeError::InvalidMagic { found } => {
                let mut text = String::from_str("input is not a Java class file: found magic 0x");
                text.append(padded_hex_text(*found as u64, 8).as_str());
                text
            },
            FerroBabeError::UnsupportedVersion { major, minor } => {
                let mut text = String::from_str("unsupported Java class-file version ");
                text.append(decimal_text(*major as u64).as_str());
                text.append(".");
                text.append(decimal_text(*minor as u64).as_str());
                text.append("; FerroBabe supports 45.0 through 70.65535");
                text
            },
            FerroBabeError::Decode { source } => {
                let mut text = String::from_str("class-file decoding failed: ");
                text.append(source.message.as_str());
                text
            },
            FerroBabeError::Format => String::from_str("formatted output could not be written"),
        }
    }
}

} // verus!
