//! The Bridge I/O Programmable Interrupt Controller Structure.

use vstd::prelude::*;
use crate::bytes::{le_u16, le_u64, read_u16, read_u64};

verus! {

/// ## Bridge I/O Programmable Interrupt Controller (BIO PIC) Structure
///
/// BIO PIC (Bridge I/O Programmable Interrupt Controller) manages legacy
/// IRQs of chipset devices, and routed them to HT PIC or EIO PIC.
#[derive(Clone, Copy, Debug, PartialEq, Eq)]
pub struct BridgeIOProgrammableInterruptController {
    /// 22 - Bridge I/O Programmable Interrupt Controller Structure
    pub kind: u8,
    /// Length of the Bridge I/O Programmable Interrupt Controller Structure in
    /// bytes.
    pub length: u8,
    /// - **0x00** - Invalid
    /// - **0x01** - BIO PIC v1
    pub version: u8,
    /// The base address of BIO PIC registers.
    pub base_address: u64,
    /// The register space size of BIO PIC.
    pub size: u16,
    /// The hardware ID of BIO PIC.
    pub hardware_id: u16,
    /// The global system interrupt number from which this BIO PIC's interrupt
    /// inputs start.
    pub gsi_base: u16,
}

impl BridgeIOProgrammableInterruptController {
    /// Size in bytes of the fixed fields.
    pub const SIZE: usize = 17;

    /// The structure laid out in the first 17 bytes of `s`.
    pub open spec fn laid_out(s: Seq<u8>) -> BridgeIOProgrammableInterruptController {
        BridgeIOProgrammableInterruptController {
            kind: s[0],
            length: s[1],
            version: s[2],
            base_address: le_u64(s, 3) as u64,
            size: le_u16(s, 11) as u16,
            hardware_id: le_u16(s, 13) as u16,
            gsi_base: le_u16(s, 15) as u16,
        }
    }

    /// Reads the structure from the front of `bytes`. Fails only when fewer
    /// than 17 bytes are supplied.
    pub fn decode(bytes: &[u8]) -> (structure: Option<BridgeIOProgrammableInterruptController>)
        ensures
            structure == if bytes@.len() >= 17 {
                Some(Self::laid_out(bytes@))
            } else {
                None
            },
    {
        if bytes.len() < 17 {
            return None;
        }
        Some(
            BridgeIOProgrammableInterruptController {
                kind: bytes[0],
                length: bytes[1],
                version: bytes[2],
                base_address: read_u64(bytes, 3),
                size: read_u16(bytes, 11),
                hardware_id: read_u16(bytes, 13),
                gsi_base: read_u16(bytes, 15),
            },
        )
    }
}

} // verus!
