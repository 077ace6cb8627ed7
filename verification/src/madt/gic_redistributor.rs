//! The GIC Redistributor Structure.

use vstd::prelude::*;
use crate::bytes::{le_u32, le_u64, read_u32, read_u64};

verus! {

/// ## GIC Redistributor (GICR) Structure
///
/// This structure enables the discovery of GIC Redistributor base addresses
/// by providing the Physical Base Address of a page range containing the GIC
/// Redistributors. More than one GICR Structure may be presented in the MADT.
/// GICR structures should only be used when describing GIC implementations
/// which conform to version 3 or higher of the GIC architecture and which
/// place all Redistributors in the always-on power domain. When a GICR
/// structure is presented, the OSPM must ignore the GICR Base Address field
/// of the GICC structures.
#[derive(Clone, Copy, Debug, PartialEq, Eq)]
pub struct GICRedistributor {
    /// 14 - GICR Structure
    pub kind: u8,
    /// 16
    pub length: u8,
    /// The 64-bit physical address of a page range containing all GIC
    /// Redistributors.
    pub discovery_range_base_address: u64,
    /// Length of the GIC Redistributor Discovery page range.
    pub discovery_range_length: u32,
}

impl GICRedistributor {
    /// Size in bytes of the fixed fields.
    pub const SIZE: usize = 16;

    /// The structure laid out in the first 16 bytes of `s`.
    pub open spec fn laid_out(s: Seq<u8>) -> GICRedistributor {
        GICRedistributor {
            kind: s[0],
            length: s[1],
            discovery_range_base_address: le_u64(s, 4) as u64,
            discovery_range_length: le_u32(s, 12) as u32,
        }
    }

    /// Reads the structure from the front of `bytes`. Fails only when fewer
    /// than 16 bytes are supplied.
    pub fn decode(bytes: &[u8]) -> (structure: Option<GICRedistributor>)
        ensures
            structure == if bytes@.len() >= 16 {
                Some(Self::laid_out(bytes@))
            } else {
                None
            },
    {
        if bytes.len() < 16 {
            return None;
        }
        Some(
            GICRedistributor {
                kind: bytes[0],
                length: bytes[1],
                discovery_range_base_address: read_u64(bytes, 4),
                discovery_range_length: read_u32(bytes, 12),
            },
        )
    }
}

} // verus!
