//! The Processor Local x2APIC Affinity Structure.

use vstd::prelude::*;
use crate::bytes::{le_u32, read_u32};
use crate::srat::affinity::ProcessorLocalAPICAffinityFlags;

verus! {

/// ## Processor Local x2APIC Affinity Structure
///
/// The Processor Local x2APIC Affinity structure provides the association
/// between the local x2APIC ID of a processor and the proximity domain to
/// which the processor belongs.
#[derive(Clone, Copy, Debug, PartialEq, Eq)]
pub struct ProcessorLocalx2APICAffinity {
    /// 2 - Processor Local x2APIC Affinity Structure
    pub kind: u8,
    /// 24
    pub length: u8,
    /// The proximity domain to which the logical processor belongs.
    pub proximity_domain: u32,
    /// The processor local x2APIC ID.
    pub x2apic_id: u32,
    /// Same as Processor Local APIC/SAPIC Affinity Structure flags.
    pub flags: ProcessorLocalAPICAffinityFlags,
    /// The clock domain to which the logical processor belongs.
    pub clock_domain: u32,
}

impl ProcessorLocalx2APICAffinity {
    /// Size in bytes of the fixed fields.
    pub const SIZE: usize = 24;

    /// The structure laid out in the first 24 bytes of `s`.
    pub open spec fn laid_out(s: Seq<u8>) -> ProcessorLocalx2APICAffinity {
        ProcessorLocalx2APICAffinity {
            kind: s[0],
            length: s[1],
            proximity_domain: le_u32(s, 4) as u32,
            x2apic_id: le_u32(s, 8) as u32,
            flags: ProcessorLocalAPICAffinityFlags(le_u32(s, 12) as u32),
            clock_domain: le_u32(s, 16) as u32,
        }
    }

    /// Reads the structure from the front of `bytes`. Fails only when fewer
    /// than 24 bytes are supplied.
    pub fn decode(bytes: &[u8]) -> (structure: Option<ProcessorLocalx2APICAffinity>)
        ensures
            structure == if bytes@.len() >= 24 {
                Some(Self::laid_out(bytes@))
            } else {
                None
            },
    {
        if bytes.len() < 24 {
            return None;
        }
        Some(
            ProcessorLocalx2APICAffinity {
                kind: bytes[0],
                length: bytes[1],
                proximity_domain: read_u32(bytes, 4),
                x2apic_id: read_u32(bytes, 8),
                flags: ProcessorLocalAPICAffinityFlags(read_u32(bytes, 12)),
                clock_domain: read_u32(bytes, 16),
            },
        )
    }
}

} // verus!
