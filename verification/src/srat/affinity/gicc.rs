//! The GICC Affinity Structure.

use vstd::prelude::*;
use crate::bits::{bit, bit_at};
use crate::bytes::{le_u32, read_u32};

verus! {

/// ## Flags - GICC Affinity Structure
#[derive(Clone, Copy, Debug, PartialEq, Eq, Structural)]
pub struct GICCAffinityFlags(pub u32);

impl GICCAffinityFlags {
    /// If clear, the OSPM ignores the contents of the GICC Affinity Structure.
    /// This allows system firmware to populate the SRAT with a static number of
    /// structures but only enable them as necessary.
    pub fn enabled(&self) -> (set: bool)
        ensures
            set == bit(self.0 as nat, 0),
    {
        bit_at(self.0 as u128, 0)
    }
}

/// ## GICC Affinity Structure
///
/// The GICC Affinity Structure provides the association between the ACPI
/// Processor UID of a processor and the proximity domain to which the
/// processor belongs.
#[derive(Clone, Copy, Debug, PartialEq, Eq)]
pub struct GICCAffinity {
    /// 3 - GICC Affinity Structure
    pub kind: u8,
    /// 18
    pub length: u8,
    /// The proximity domain to which the logical processor belongs.
    pub proximity_domain: u32,
    /// The ACPI Processor UID of the associated GICC.
    pub acpi_processor_uid: u32,
    /// Flags - GICC Affinity Structure.
    pub flags: GICCAffinityFlags,
    /// The clock domain to which the logical processor belongs.
    pub clock_domain: u32,
}

impl GICCAffinity {
    /// Size in bytes of the fixed fields.
    pub const SIZE: usize = 18;

    /// The structure laid out in the first 18 bytes of `s`.
    pub open spec fn laid_out(s: Seq<u8>) -> GICCAffinity {
        GICCAffinity {
            kind: s[0],
            length: s[1],
            proximity_domain: le_u32(s, 2) as u32,
            acpi_processor_uid: le_u32(s, 6) as u32,
            flags: GICCAffinityFlags(le_u32(s, 10) as u32),
            clock_domain: le_u32(s, 14) as u32,
        }
    }

    /// Reads the structure from the front of `bytes`. Fails only when fewer
    /// than 18 bytes are supplied.
    pub fn decode(bytes: &[u8]) -> (structure: Option<GICCAffinity>)
        ensures
            structure == if bytes@.len() >= 18 {
                Some(Self::laid_out(bytes@))
            } else {
                None
            },
    {
        if bytes.len() < 18 {
            return None;
        }
        Some(
            GICCAffinity {
                kind: bytes[0],
                length: bytes[1],
                proximity_domain: read_u32(bytes, 2),
                acpi_processor_uid: read_u32(bytes, 6),
                flags: GICCAffinityFlags(read_u32(bytes, 10)),
                clock_domain: read_u32(bytes, 14),
            },
        )
    }
}

} // verus!
