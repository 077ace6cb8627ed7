//! The LPC Programmable Interrupt Controller Structure.

use vstd::prelude::*;
use crate::bytes::{le_u16, le_u64, read_u16, read_u64};

verus! {

/// ## LPC Programmable Interrupt Controller (LPC PIC) Structure
///
/// LPC PIC (Low Pin Count Programmable Interrupt Controller) is responsible
/// for handling ISA IRQs of old legacy devices such as PS/2 mouse, keyboard
/// and UARTs for Loongarch machines.
#[derive(Clone, Copy, Debug, PartialEq, Eq)]
pub struct LPCProgrammableInterruptController {
    /// 23 - LPC Programmable Interrupt Controller Structure
    pub kind: u8,
    /// Length of the LPC Programmable Interrupt Controller Structure in bytes.
    pub length: u8,
    /// - **0x00** - Invalid
    /// - **0x01** - LPC PIC v1
    pub version: u8,
    /// The base address of LPC PIC registers.
    pub base_address: u64,
    /// The register space size of LPC PIC.
    pub size: u16,
    /// This field described routed vector on BIO PIC from LPC PIC vectors.
    pub cascade_vector: u16,
}

impl LPCProgrammableInterruptController {
    /// Size in bytes of the fixed fields.
    pub const SIZE: usize = 15;

    /// The structure laid out in the first 15 bytes of `s`.
    pub open spec fn laid_out(s: Seq<u8>) -> LPCProgrammableInterruptController {
        LPCProgrammableInterruptController {
            kind: s[0],
            length: s[1],
            version: s[2],
            base_address: le_u64(s, 3) as u64,
            size: le_u16(s, 11) as u16,
            cascade_vector: le_u16(s, 13) as u16,
        }
    }

    /// Reads the structure from the front of `bytes`. Fails only when fewer
    /// than 15 bytes are supplied.
    pub fn decode(bytes: &[u8]) -> (structure: Option<LPCProgrammableInterruptController>)
        ensures
            structure == if bytes@.len() >= 15 {
                Some(Self::laid_out(bytes@))
            } else {
                None
            },
    {
        if bytes.len() < 15 {
            return None;
        }
        Some(
            LPCProgrammableInterruptController {
                kind: bytes[0],
                length: bytes[1],
                version: bytes[2],
                base_address: read_u64(bytes, 3),
                size: read_u16(bytes, 11),
                cascade_vector: read_u16(bytes, 13),
            },
        )
    }
}

} // verus!
