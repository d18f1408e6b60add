//! Recognizing the firmware tables that hold executable bytecode: only the
//! differentiated and secondary system description tables are handed to
//! the bytecode interpreter, which itself lives outside this core.

use vstd::prelude::*;

verus! {

/// The header of one firmware system description table.
#[derive(Clone, Copy, Debug)]
pub struct Sdt {
    pub signature: [u8; 4],
    pub length: u32,
    pub revision: u8,
    pub checksum: u8,
    pub oem_id: [u8; 6],
    pub oem_table_id: [u8; 8],
    pub oem_revision: u32,
    pub creator_id: u32,
    pub creator_revision: u32,
}

/// Why interpreting a bytecode table failed.
#[derive(Clone, Copy, Debug)]
pub enum AmlError {
    AmlParseError(&'static str),
    AmlInvalidOpCode,
    AmlValueError,
    AmlDeferredLoad,
    AmlFatalError(u8, u16),
}

/// The four-byte signature of a differentiated system description table.
pub open spec fn is_dsdt_signature(sig: Seq<u8>) -> bool {
    sig[0] == 68 && sig[1] == 83 && sig[2] == 68 && sig[3] == 84
}

/// The four-byte signature of a secondary system description table.
pub open spec fn is_ssdt_signature(sig: Seq<u8>) -> bool {
    sig[0] == 83 && sig[1] == 83 && sig[2] == 68 && sig[3] == 84
}

/// Whether the table holds bytecode for the interpreter: its signature
/// reads `DSDT` or `SSDT`.
pub fn is_aml_table(sdt: &Sdt) -> (r: bool)
    ensures
        r == (is_dsdt_signature(sdt.signature@) || is_ssdt_signature(sdt.signature@)),
{
    if (sdt.signature[0] == 68 || sdt.signature[0] == 83) && sdt.signature[1] == 83
        && sdt.signature[2] == 68 && sdt.signature[3] == 84 {
        true
    } else {
        false
    }
}

} // verus!
