//! The Extend I/O Programmable Interrupt Controller Structure.

use vstd::prelude::*;
use crate::bytes::{le_u64, read_u64};

verus! {

/// ## Extend I/O Programmable Interrupt Controller (EIO PIC) Structure
///
/// In newer generation Loongson CPUs, Extend I/O Programmable Interrupt
/// Controller (EIO PIC) replaces the combination of HT PIC and part of LIO
/// PIC, and routes interrupts from BIO PIC and MSI PIC to CORE PIC
/// directly.
#[derive(Clone, Copy, Debug, PartialEq, Eq)]
pub struct ExtendIOProgrammableInterruptController {
    /// 20 - Extend I/O Programmable Interrupt Controller Structure
    pub kind: u8,
    /// Length of the Extend I/O Programmable Interrupt Controller Structure in
    /// bytes.
    pub length: u8,
    /// - **0x00** - Invalid
    /// - **0x01** - EIO PIC v1
    pub version: u8,
    /// This field describes routed vector on CORE PIC from EIO PIC vectors.
    pub cascade_vector: u8,
    /// The node ID of the node connected to bridge.
    pub node: u8,
    /// Each bit indicates one node that can receive interrupt routing from the
    /// EIO PIC.
    pub node_map: u64,
}

impl ExtendIOProgrammableInterruptController {
    /// Size in bytes of the fixed fields.
    pub const SIZE: usize = 13;

    /// The structure laid out in the first 13 bytes of `s`.
    pub open spec fn laid_out(s: Seq<u8>) -> ExtendIOProgrammableInterruptController {
        ExtendIOProgrammableInterruptController {
            kind: s[0],
            length: s[1],
            version: s[2],
            cascade_vector: s[3],
            node: s[4],
            node_map: le_u64(s, 5) as u64,
        }
    }

    /// Reads the structure from the front of `bytes`. Fails only when fewer
    /// than 13 bytes are supplied.
    pub fn decode(bytes: &[u8]) -> (structure: Option<ExtendIOProgrammableInterruptController>)
        ensures
            structure == if bytes@.len() >= 13 {
                Some(Self::laid_out(bytes@))
            } else {
                None
            },
    {
        if bytes.len() < 13 {
            return None;
        }
        Some(
            ExtendIOProgrammableInterruptController {
                kind: bytes[0],
                length: bytes[1],
                version: bytes[2],
                cascade_vector: bytes[3],
                node: bytes[4],
                node_map: read_u64(bytes, 5),
            },
        )
    }
}

} // verus!
