//! The GIC Distributor Structure.

use vstd::prelude::*;
use crate::bytes::{le_u32, le_u64, read_u32, read_u64};

verus! {

/// ## GIC Distributor (GICD) Structure
///
/// ACPI represents all wired interrupts as "flat" values known as global
/// system interrupts (GSIVs).
#[derive(Clone, Copy, Debug, PartialEq, Eq)]
pub struct GICDistributor {
    /// 12 - GICD Structure
    pub kind: u8,
    /// 24
    pub length: u8,
    /// This GIC Distributor's hardware ID.
    pub gic_id: u32,
    /// The 64-bit physical address for this Distributor.
    pub physical_base_address: u64,
    /// Reserved - Must be zero.
    pub system_vector_base: u32,
    /// - **0x00** - No GIC version is specified, fall back to hardware
    ///   discovery for GIC version
    /// - **0x01** - GICv1
    /// - **0x02** - GICv2
    /// - **0x03** - GICv3
    /// - **0x04** - GICv4
    /// - **0x05-0xFF** -  Reserved for future use.
    pub gic_version: u8,
}

impl GICDistributor {
    /// Size in bytes of the fixed fields.
    pub const SIZE: usize = 24;

    /// The structure laid out in the first 24 bytes of `s`.
    pub open spec fn laid_out(s: Seq<u8>) -> GICDistributor {
        GICDistributor {
            kind: s[0],
            length: s[1],
            gic_id: le_u32(s, 4) as u32,
            physical_base_address: le_u64(s, 8) as u64,
            system_vector_base: le_u32(s, 16) as u32,
            gic_version: s[20],
        }
    }

    /// Reads the structure from the front of `bytes`. Fails only when fewer
    /// than 24 bytes are supplied.
    pub fn decode(bytes: &[u8]) -> (structure: Option<GICDistributor>)
        ensures
            structure == if bytes@.len() >= 24 {
                Some(Self::laid_out(bytes@))
            } else {
                None
            },
    {
        if bytes.len() < 24 {
            return None;
        }
        Some(
            GICDistributor {
                kind: bytes[0],
                length: bytes[1],
                gic_id: read_u32(bytes, 4),
                physical_base_address: read_u64(bytes, 8),
                system_vector_base: read_u32(bytes, 16),
                gic_version: bytes[20],
            },
        )
    }
}

} // verus!
