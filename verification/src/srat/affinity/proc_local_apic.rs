//! The Processor Local APIC/SAPIC Affinity Structure.

use vstd::prelude::*;
use crate::bytes::{le_u32, read_u32};
use crate::srat::affinity::ProcessorLocalAPICAffinityFlags;

verus! {

/// ## Processor Local APIC/SAPIC Affinity Structure
///
/// The Processor Local APIC/SAPIC Affinity structure provides the
/// association between the APIC ID or SAPIC ID/EID of a processor and the
/// proximity domain to which the processor belongs.
#[derive(Clone, Copy, Debug, PartialEq, Eq)]
pub struct ProcessorLocalAPICAffinity {
    /// 0 - Processor Local APIC/SAPIC Affinity Structure
    pub kind: u8,
    /// 16
    pub length: u8,
    /// Bit [[7:0]] of the proximity domain to which the processor belongs.
    pub proximity_domain_7_0: u8,
    /// The processor local APIC ID.
    pub apic_id: u8,
    /// Flags for the Processor Local APIC/SAPIC Affinity Structure.
    pub flags: ProcessorLocalAPICAffinityFlags,
    /// The processor local SAPIC EID.
    pub local_sapic_eid: u8,
    /// Bit [[31:8]] of the proximity domain to which the processor belongs.
    pub proximity_domain_31_8: [u8; 3],
    /// The clock domain to which the processor belongs.
    pub clock_domain: u32,
}

impl ProcessorLocalAPICAffinity {
    /// Size in bytes of the fixed fields.
    pub const SIZE: usize = 16;

    /// The structure laid out in the first 16 bytes of `s`.
    pub open spec fn laid_out(s: Seq<u8>) -> ProcessorLocalAPICAffinity {
        ProcessorLocalAPICAffinity {
            kind: s[0],
            length: s[1],
            proximity_domain_7_0: s[2],
            apic_id: s[3],
            flags: ProcessorLocalAPICAffinityFlags(le_u32(s, 4) as u32),
            local_sapic_eid: s[8],
            proximity_domain_31_8: [s[9], s[10], s[11]],
            clock_domain: le_u32(s, 12) as u32,
        }
    }

    /// Reads the structure from the front of `bytes`. Fails only when fewer
    /// than 16 bytes are supplied.
    pub fn decode(bytes: &[u8]) -> (structure: Option<ProcessorLocalAPICAffinity>)
        ensures
            structure == if bytes@.len() >= 16 {
                Some(Self::laid_out(bytes@))
            } else {
                None
            },
    {
        if bytes.len() < 16 {
            return None;
        }
        Some(
            ProcessorLocalAPICAffinity {
                kind: bytes[0],
                length: bytes[1],
                proximity_domain_7_0: bytes[2],
                apic_id: bytes[3],
                flags: ProcessorLocalAPICAffinityFlags(read_u32(bytes, 4)),
                local_sapic_eid: bytes[8],
                proximity_domain_31_8: [bytes[9], bytes[10], bytes[11]],
                clock_domain: read_u32(bytes, 12),
            },
        )
    }
}

} // verus!
