//! The MSI Programmable Interrupt Controller Structure.

use vstd::prelude::*;
use crate::bytes::{le_u32, le_u64, read_u32, read_u64};

verus! {

/// ## MSI Programmable Interrupt Controller (MSI PIC) Structure
///
/// MSI Programmable Interrupt Controller Structure is defined to support
/// MSI of PCI/PCIE devices in system.
#[derive(Clone, Copy, Debug, PartialEq, Eq)]
pub struct MSIProgrammableInterruptController {
    /// 21 - Message Programmable Interrupt Controller Structure
    pub kind: u8,
    /// Length of the Message Programmable Interrupt Controller Structure in
    /// bytes.
    pub length: u8,
    /// - **0x00** - Invalid
    /// - **0x01** - MSI PIC v1
    pub version: u8,
    /// The physical address for MSI.
    pub message_address: u64,
    /// The start vector allocated for MSI from global vectors of HT PIC or EIO
    /// PIC.
    pub start: u32,
    /// The count of allocated vectors for MSI.
    pub count: u32,
}

impl MSIProgrammableInterruptController {
    /// Size in bytes of the fixed fields.
    pub const SIZE: usize = 19;

    /// The structure laid out in the first 19 bytes of `s`.
    pub open spec fn laid_out(s: Seq<u8>) -> MSIProgrammableInterruptController {
        MSIProgrammableInterruptController {
            kind: s[0],
            length: s[1],
            version: s[2],
            message_address: le_u64(s, 3) as u64,
            start: le_u32(s, 11) as u32,
            count: le_u32(s, 15) as u32,
        }
    }

    /// Reads the structure from the front of `bytes`. Fails only when fewer
    /// than 19 bytes are supplied.
    pub fn decode(bytes: &[u8]) -> (structure: Option<MSIProgrammableInterruptController>)
        ensures
            structure == if bytes@.len() >= 19 {
                Some(Self::laid_out(bytes@))
            } else {
                None
            },
    {
        if bytes.len() < 19 {
            return None;
        }
        Some(
            MSIProgrammableInterruptController {
                kind: bytes[0],
                length: bytes[1],
                version: bytes[2],
                message_address: read_u64(bytes, 3),
                start: read_u32(bytes, 11),
                count: read_u32(bytes, 15),
            },
        )
    }
}

} // verus!
