//! The GIC Interrupt Translation Service Affinity Structure.

use vstd::prelude::*;
use crate::bytes::{le_u32, read_u32};

verus! {

/// ## GIC Interrupt Translation Service (ITS) Affinity Structure
///
/// The GIC ITS Affinity Structure provides the association between a GIC
/// ITS and a proximity domain. This enables the OSPM to discover the memory
/// that is closest to the ITS, and use that in allocating its management
/// tables and command queue. The ITS is identified using an ID matching a
/// declaration of a GIC ITS in the MADT.
#[derive(Clone, Copy, Debug, PartialEq, Eq)]
pub struct GICInterruptTranslationServiceAffinity {
    /// 4 - GIC ITS Affinity Structure
    pub kind: u8,
    /// 12
    pub length: u8,
    /// Integer that represents the proximity domain to which the GIC ITS
    /// belongs to.
    pub proximity_domain: u32,
    /// ITS ID matching a GIC ITS entry in the MADT.
    pub its_id: u32,
}

impl GICInterruptTranslationServiceAffinity {
    /// Size in bytes of the fixed fields.
    pub const SIZE: usize = 12;

    /// The structure laid out in the first 12 bytes of `s`.
    pub open spec fn laid_out(s: Seq<u8>) -> GICInterruptTranslationServiceAffinity {
        GICInterruptTranslationServiceAffinity {
            kind: s[0],
            length: s[1],
            proximity_domain: le_u32(s, 2) as u32,
            its_id: le_u32(s, 8) as u32,
        }
    }

    /// Reads the structure from the front of `bytes`. Fails only when fewer
    /// than 12 bytes are supplied.
    pub fn decode(bytes: &[u8]) -> (structure: Option<GICInterruptTranslationServiceAffinity>)
        ensures
            structure == if bytes@.len() >= 12 {
                Some(Self::laid_out(bytes@))
            } else {
                None
            },
    {
        if bytes.len() < 12 {
            return None;
        }
        Some(
            GICInterruptTranslationServiceAffinity {
                kind: bytes[0],
                length: bytes[1],
                proximity_domain: read_u32(bytes, 2),
                its_id: read_u32(bytes, 8),
            },
        )
    }
}

} // verus!
