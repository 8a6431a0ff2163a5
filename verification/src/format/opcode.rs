//! Instruction mnemonics and the debug rendering of strings.

use vstd::prelude::*;

verus! {

/// The mnemonic the decoder gives to an opcode.
pub uninterp spec fn opcode_name(opcode: u8) -> Seq<char>;

/// The debug rendering of a string: quoted, with escapes.
pub uninterp spec fn debug_quoted(text: Seq<char>) -> Seq<char>;

/// The mnemonic of an opcode.
///
/// Trusted: calls `rust_asm::opcodes::to_name`, a fixed table from opcode to name (with
/// `"UNKNOWN"` for unassigned bytes); the contract names its result.
#[verifier::external_body]
pub(crate) fn mnemonic(opcode: u8) -> (name: &'static str)
    ensures
        name@ == opcode_name(opcode),
{
    rust_asm::opcodes::to_name(opcode)
}

/// The `Debug` rendering of a string: in double quotes, with quotes, backslashes and
/// non-printable characters escaped.
///
/// Trusted: calls `format!("{:?}", text)`; the result depends on the text alone, and the
/// contract names it.
#[verifier::external_body]
pub(crate) fn debug_text(text: &str) -> (quoted: String)
    ensures
        quoted@ == debug_quoted(text@),
{
    format!("{:?}", text)
}

} // verus!
