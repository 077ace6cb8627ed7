//! The Memory Affinity Structure.

use vstd::prelude::*;
use crate::bits::{bit, bit_at};
use crate::bytes::{le_u32, read_u32};

verus! {

/// ## Flags - Memory Affinity Structure
#[derive(Clone, Copy, Debug, PartialEq, Eq, Structural)]
pub struct MemoryAffinityStructureFlags(pub u32);

impl MemoryAffinityStructureFlags {
    /// If clear, the OSPM ignores the contents of the Memory Affinity
    /// Structure. This allows system firmware to populate the SRAT with a
    /// static number of structures but only enable then as necessary.
    pub fn enabled(&self) -> (set: bool)
        ensures
            set == bit(self.0 as nat, 0),
    {
        bit_at(self.0 as u128, 0)
    }

    /// The information conveyed by this bit depends on the value of the Enabled
    /// bit.
    pub fn hot_pluggable(&self) -> (set: bool)
        ensures
            set == bit(self.0 as nat, 1),
    {
        bit_at(self.0 as u128, 1)
    }

    /// If set, the memory region represents Non-Volatile memory
    pub fn non_volatile(&self) -> (set: bool)
        ensures
            set == bit(self.0 as nat, 2),
    {
        bit_at(self.0 as u128, 2)
    }
}

/// ## Memory Affinity Structure
///
/// The Memory Affinity structure provides the following topology
/// information statically to the operating system:
#[derive(Clone, Copy, Debug, PartialEq, Eq)]
pub struct MemoryAffinity {
    /// 1 - Memory Affinity Structure
    pub kind: u8,
    /// 40
    pub length: u8,
    /// Integer that represents the proximity domain to which the memory range
    /// belongs.
    pub proximity_domain: u32,
    /// Low 32 Bits of the Base Address of the memory range.
    pub base_address_low: u32,
    /// High 32 Bits of the Base Address of the memory range.
    pub base_address_high: u32,
    /// Low 32 Bits of the length of the memory range.
    pub length_low: u32,
    /// High 32 Bits of the length of the memory range.
    pub length_high: u32,
    /// Flags - Memory Affinity Structure.
    pub flags: MemoryAffinityStructureFlags,
}

impl MemoryAffinity {
    /// Size in bytes of the fixed fields.
    pub const SIZE: usize = 40;

    /// The structure laid out in the first 40 bytes of `s`.
    pub open spec fn laid_out(s: Seq<u8>) -> MemoryAffinity {
        MemoryAffinity {
            kind: s[0],
            length: s[1],
            proximity_domain: le_u32(s, 2) as u32,
            base_address_low: le_u32(s, 8) as u32,
            base_address_high: le_u32(s, 12) as u32,
            length_low: le_u32(s, 16) as u32,
            length_high: le_u32(s, 20) as u32,
            flags: MemoryAffinityStructureFlags(le_u32(s, 28) as u32),
        }
    }

    /// Reads the structure from the front of `bytes`. Fails only when fewer
    /// than 40 bytes are supplied.
    pub fn decode(bytes: &[u8]) -> (structure: Option<MemoryAffinity>)
        ensures
            structure == if bytes@.len() >= 40 {
                Some(Self::laid_out(bytes@))
            } else {
                None
            },
    {
        if bytes.len() < 40 {
            return None;
        }
        Some(
            MemoryAffinity {
                kind: bytes[0],
                length: bytes[1],
                proximity_domain: read_u32(bytes, 2),
                base_address_low: read_u32(bytes, 8),
                base_address_high: read_u32(bytes, 12),
                length_low: read_u32(bytes, 16),
                length_high: read_u32(bytes, 20),
                flags: MemoryAffinityStructureFlags(read_u32(bytes, 28)),
            },
        )
    }
}

} // verus!
