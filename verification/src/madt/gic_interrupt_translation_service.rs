//! The GIC Interrupt Translation Service Structure.

use vstd::prelude::*;
use crate::bytes::{le_u32, le_u64, read_u32, read_u64};

verus! {

/// ## GIC Interrupt Translation Service (ITS) Structure
///
/// The GIC ITS is optionally supported in GICv3/v4 implementations.
#[derive(Clone, Copy, Debug, PartialEq, Eq)]
pub struct GICInterruptTranslationService {
    /// 15 - GIC ITS Structure
    pub kind: u8,
    /// 20
    pub length: u8,
    /// GIC ITS ID.
    pub gic_its_id: u32,
    /// The 64-bit physical address for the Interrupt Translation Service.
    pub physical_base_address: u64,
}

impl GICInterruptTranslationService {
    /// Size in bytes of the fixed fields.
    pub const SIZE: usize = 20;

    /// The structure laid out in the first 20 bytes of `s`.
    pub open spec fn laid_out(s: Seq<u8>) -> GICInterruptTranslationService {
        GICInterruptTranslationService {
            kind: s[0],
            length: s[1],
            gic_its_id: le_u32(s, 4) as u32,
            physical_base_address: le_u64(s, 8) as u64,
        }
    }

    /// Reads the structure from the front of `bytes`. Fails only when fewer
    /// than 20 bytes are supplied.
    pub fn decode(bytes: &[u8]) -> (structure: Option<GICInterruptTranslationService>)
        ensures
            structure == if bytes@.len() >= 20 {
                Some(Self::laid_out(bytes@))
            } else {
                None
            },
    {
        if bytes.len() < 20 {
            return None;
        }
        Some(
            GICInterruptTranslationService {
                kind: bytes[0],
                length: bytes[1],
                gic_its_id: read_u32(bytes, 4),
                physical_base_address: read_u64(bytes, 8),
            },
        )
    }
}

} // verus!
