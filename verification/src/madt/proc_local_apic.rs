//! The Processor Local APIC Structure.

use vstd::prelude::*;
use crate::bytes::{le_u32, read_u32};
use crate::madt::LocalAPICFlags;

verus! {

/// ## Processor Local APIC Structure
///
/// When using the APIC interrupt model, each processor in the system is
/// required to have a Processor Local APIC record in the MADT, and a
/// processor device object in the DSDT. OSPM does not expect the
/// information provided in this table to be updated if the processor
/// information changes during the lifespan of an OS boot. While in the
/// sleeping state, processors are not allowed to be added, removed, nor can
/// their APIC ID or Flags change. When a processor is not present, the
/// Processor Local APIC information is either not reported or flagged as
/// disabled.
#[derive(Clone, Copy, Debug, PartialEq, Eq)]
pub struct ProcessorLocalAPIC {
    /// 0 - Processor Local APIC structure
    pub kind: u8,
    /// 8
    pub length: u8,
    /// The OS associates this Local APIC Structure with a processor object in
    /// the namespace when the _UID child object of the processor's device
    /// object (or the ProcessorId listed in the Processor declaration operator)
    /// evaluates to a numeric value that matches the numeric value in this
    /// field.
    pub acpi_processor_uid: u8,
    /// The processor's local APIC ID.
    pub acpi_id: u8,
    /// Local APIC flags.
    pub flags: LocalAPICFlags,
}

impl ProcessorLocalAPIC {
    /// Size in bytes of the fixed fields.
    pub const SIZE: usize = 8;

    /// The structure laid out in the first 8 bytes of `s`.
    pub open spec fn laid_out(s: Seq<u8>) -> ProcessorLocalAPIC {
        ProcessorLocalAPIC {
            kind: s[0],
            length: s[1],
            acpi_processor_uid: s[2],
            acpi_id: s[3],
            flags: LocalAPICFlags(le_u32(s, 4) as u32),
        }
    }

    /// Reads the structure from the front of `bytes`. Fails only when fewer
    /// than 8 bytes are supplied.
    pub fn decode(bytes: &[u8]) -> (structure: Option<ProcessorLocalAPIC>)
        ensures
            structure == if bytes@.len() >= 8 {
                Some(Self::laid_out(bytes@))
            } else {
                None
            },
    {
        if bytes.len() < 8 {
            return None;
        }
        Some(
            ProcessorLocalAPIC {
                kind: bytes[0],
                length: bytes[1],
                acpi_processor_uid: bytes[2],
                acpi_id: bytes[3],
                flags: LocalAPICFlags(read_u32(bytes, 4)),
            },
        )
    }
}

} // verus!
