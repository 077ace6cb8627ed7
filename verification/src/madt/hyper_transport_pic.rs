//! The HyperTransport Programmable Interrupt Controller Structure.

use vstd::prelude::*;
use crate::bytes::{le_u16, le_u64, read_u16, read_u64};

verus! {

/// ## HyperTransport Programmable Interrupt Controller (HT PIC) Structure
///
/// In early Loongson CPUs, HT Programmable Interrupt Controller (HT PIC)
/// routes interrupts from BIO PIC and MSI PIC to LIO PIC.
#[derive(Clone, Copy, Debug, PartialEq, Eq)]
pub struct HyperTransportProgrammableInterruptController {
    /// 19 - HT Programmable Interrupt Controller Structure
    pub kind: u8,
    /// Length of the HT Programmable Interrupt Controller Structure in bytes.
    pub length: u8,
    /// - **0x00** - Invalid
    /// - **0x01** - HT PIC v1
    pub version: u8,
    /// The base address of HT PIC registers.
    pub base_address: u64,
    /// The register space size of HT PIC.
    pub size: u16,
    /// This field described routed vector on LIO PIC from HT PIC vectors.
    pub cascade_vector: u64,
}

impl HyperTransportProgrammableInterruptController {
    /// Size in bytes of the fixed fields.
    pub const SIZE: usize = 21;

    /// The structure laid out in the first 21 bytes of `s`.
    pub open spec fn laid_out(s: Seq<u8>) -> HyperTransportProgrammableInterruptController {
        HyperTransportProgrammableInterruptController {
            kind: s[0],
            length: s[1],
            version: s[2],
            base_address: le_u64(s, 3) as u64,
            size: le_u16(s, 11) as u16,
            cascade_vector: le_u64(s, 13) as u64,
        }
    }

    /// Reads the structure from the front of `bytes`. Fails only when fewer
    /// than 21 bytes are supplied.
    pub fn decode(bytes: &[u8]) -> (structure: Option<HyperTransportProgrammableInterruptController>)
        ensures
            structure == if bytes@.len() >= 21 {
                Some(Self::laid_out(bytes@))
            } else {
                None
            },
    {
        if bytes.len() < 21 {
            return None;
        }
        Some(
            HyperTransportProgrammableInterruptController {
                kind: bytes[0],
                length: bytes[1],
                version: bytes[2],
                base_address: read_u64(bytes, 3),
                size: read_u16(bytes, 11),
                cascade_vector: read_u64(bytes, 13),
            },
        )
    }
}

} // verus!
