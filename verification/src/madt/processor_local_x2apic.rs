//! The Processor Local x2APIC Structure.

use vstd::prelude::*;
use crate::bytes::{le_u32, read_u32};
use crate::madt::LocalAPICFlags;

verus! {

/// ## Processor Local x2APIC Structure
///
/// The Processor X2APIC structure is very similar to the processor local
/// APIC structure. When using the X2APIC interrupt model, logical
/// processors are required to have a processor device object in the DSDT
/// and must convey the processor's APIC information to OSPM using the
/// Processor Local X2APIC structure.
#[derive(Clone, Copy, Debug, PartialEq, Eq)]
pub struct ProcessorLocalx2APIC {
    /// 9 - Processor Local x2APIC Structure
    pub kind: u8,
    /// 16
    pub length: u8,
    /// The processor's local x2APIC ID.
    pub x2apic_id: u32,
    /// Same as Local APIC flags.
    pub flags: LocalAPICFlags,
    /// OSPM associates the X2APIC Structure with a processor object declared in
    /// the namespace using the Device statement, when the _UID child object of
    /// the processor device evaluates to a numeric value, by matching the
    /// numeric value with this field.
    pub acpi_processor_uid: u32,
}

impl ProcessorLocalx2APIC {
    /// Size in bytes of the fixed fields.
    pub const SIZE: usize = 16;

    /// The structure laid out in the first 16 bytes of `s`.
    pub open spec fn laid_out(s: Seq<u8>) -> ProcessorLocalx2APIC {
        ProcessorLocalx2APIC {
            kind: s[0],
            length: s[1],
            x2apic_id: le_u32(s, 4) as u32,
            flags: LocalAPICFlags(le_u32(s, 8) as u32),
            acpi_processor_uid: le_u32(s, 12) as u32,
        }
    }

    /// Reads the structure from the front of `bytes`. Fails only when fewer
    /// than 16 bytes are supplied.
    pub fn decode(bytes: &[u8]) -> (structure: Option<ProcessorLocalx2APIC>)
        ensures
            structure == if bytes@.len() >= 16 {
                Some(Self::laid_out(bytes@))
            } else {
                None
            },
    {
        if bytes.len() < 16 {
            return None;
        }
        Some(
            ProcessorLocalx2APIC {
                kind: bytes[0],
                length: bytes[1],
                x2apic_id: read_u32(bytes, 4),
                flags: LocalAPICFlags(read_u32(bytes, 8)),
                acpi_processor_uid: read_u32(bytes, 12),
            },
        )
    }
}

} // verus!
