//! The Legacy I/O Programmable Interrupt Controller Structure.

use vstd::prelude::*;
use crate::bytes::{le_u16, le_u64, read_u16, read_u64};

verus! {

/// ## Legacy I/O Programmable Interrupt Controller (LIO PIC) Structure
///
/// In early Loongson CPUs, Legacy I/O Programmable Interrupt Controller
/// (LIO PIC) routes interrupts from HT PIC to CORE PIC.
#[derive(Clone, Copy, Debug, PartialEq, Eq)]
pub struct LegacyIOProgrammableInterruptController {
    /// 18 - Legacy I/O Programmable Interrupt Controller Structure
    pub kind: u8,
    /// Length of the Legacy I/O Programmable Interrupt Controller Structure in
    /// bytes.
    pub length: u8,
    /// - **0x00** - Invalid
    /// - **0x01** - LIO PIC v1
    pub version: u8,
    /// The base address of LIO PIC registers.
    pub base_address: u64,
    /// The register space size of LIO PIC.
    pub size: u16,
    /// This field described routed vectors on CORE PIC from LIO PIC vectors.
    pub cascade_vector: u16,
    /// This field described the vectors of LIO PIC routed to the related vector
    /// of parent specified by Cascade vector field.
    pub cascade_vector_mapping: u64,
}

impl LegacyIOProgrammableInterruptController {
    /// Size in bytes of the fixed fields.
    pub const SIZE: usize = 23;

    /// The structure laid out in the first 23 bytes of `s`.
    pub open spec fn laid_out(s: Seq<u8>) -> LegacyIOProgrammableInterruptController {
        LegacyIOProgrammableInterruptController {
            kind: s[0],
            length: s[1],
            version: s[2],
            base_address: le_u64(s, 3) as u64,
            size: le_u16(s, 11) as u16,
            cascade_vector: le_u16(s, 13) as u16,
            cascade_vector_mapping: le_u64(s, 15) as u64,
        }
    }

    /// Reads the structure from the front of `bytes`. Fails only when fewer
    /// than 23 bytes are supplied.
    pub fn decode(bytes: &[u8]) -> (structure: Option<LegacyIOProgrammableInterruptController>)
        ensures
            structure == if bytes@.len() >= 23 {
                Some(Self::laid_out(bytes@))
            } else {
                None
            },
    {
        if bytes.len() < 23 {
            return None;
        }
        Some(
            LegacyIOProgrammableInterruptController {
                kind: bytes[0],
                length: bytes[1],
                version: bytes[2],
                base_address: read_u64(bytes, 3),
                size: read_u16(bytes, 11),
                cascade_vector: read_u16(bytes, 13),
                cascade_vector_mapping: read_u64(bytes, 15),
            },
        )
    }
}

} // verus!
