//! The Local SAPIC Structure.

use vstd::prelude::*;
use crate::bytes::{le_u32, read_u32};
use crate::madt::LocalAPICFlags;
use crate::range::{trailer_of, trailer_range, BoundsError, ByteRange};

verus! {

/// ## Local SAPIC Structure
///
/// The Processor local SAPIC structure is very similar to the processor
/// local APIC structure. When using the SAPIC interrupt model, each
/// processor in the system is required to have a Processor Local SAPIC
/// record in the MADT, and a processor device object in the DSDT. OSPM does
/// not expect the information provided in this table to be updated if the
/// processor information changes during the lifespan of an OS boot. While
/// in the sleeping state, processors are not allowed to be added, removed,
/// nor can their SAPIC ID or Flags change. When a processor is not present,
/// the Processor Local SAPIC information is either not reported or flagged
/// as disabled.
#[derive(Clone, Copy, Debug, PartialEq, Eq)]
pub struct LocalSAPIC {
    /// 7 - Processor Local SAPIC Structure
    pub kind: u8,
    /// Length of the Local SAPIC Structure in bytes.
    pub length: u8,
    /// OSPM associates the Local SAPIC Structure with a processor object
    /// declared in the namespace using the Processor statement by matching the
    /// processor object's ProcessorID value with this field.
    pub acpi_processor_id: u8,
    /// The processor's local SAPIC ID
    pub local_sapic_id: u8,
    /// The processor's local SAPIC EID
    pub local_sapic_eid: u8,
    /// Local SAPIC flags.
    pub flags: LocalAPICFlags,
    /// OSPM associates the Local SAPIC Structure with a processor object
    /// declared in the namespace using the Device statement, when the _UID
    /// child object of the processor device evaluates to a numeric value, by
    /// matching the numeric value with this field.
    pub acpi_processor_uid_value: u32,
}

impl LocalSAPIC {
    /// Size in bytes of the fixed fields.
    pub const SIZE: usize = 16;

    /// The structure laid out in the first 16 bytes of `s`.
    pub open spec fn laid_out(s: Seq<u8>) -> LocalSAPIC {
        LocalSAPIC {
            kind: s[0],
            length: s[1],
            acpi_processor_id: s[2],
            local_sapic_id: s[3],
            local_sapic_eid: s[4],
            flags: LocalAPICFlags(le_u32(s, 8) as u32),
            acpi_processor_uid_value: le_u32(s, 12) as u32,
        }
    }

    /// Reads the structure from the front of `bytes`. Fails only when fewer
    /// than 16 bytes are supplied.
    pub fn decode(bytes: &[u8]) -> (structure: Option<LocalSAPIC>)
        ensures
            structure == if bytes@.len() >= 16 {
                Some(Self::laid_out(bytes@))
            } else {
                None
            },
    {
        if bytes.len() < 16 {
            return None;
        }
        Some(
            LocalSAPIC {
                kind: bytes[0],
                length: bytes[1],
                acpi_processor_id: bytes[2],
                local_sapic_id: bytes[3],
                local_sapic_eid: bytes[4],
                flags: LocalAPICFlags(read_u32(bytes, 8)),
                acpi_processor_uid_value: read_u32(bytes, 12),
            },
        )
    }

    /// The bytes of the ACPI Processor UID String of a structure that lies
    /// at address `record_base`.
    pub open spec fn uid_string_range(&self, record_base: u64) -> Result<ByteRange, BoundsError> {
        trailer_range(record_base, 16, self.length as u64)
    }

    /// Where the ACPI Processor UID String lies: what follows the 16 bytes
    /// of fixed fields of a structure at address `record_base`, up to the
    /// length that the structure declares. The string is stored as ASCII
    /// and ends with a null byte, so it is never empty.
    pub fn acpi_processor_uid_string(&self, record_base: u64) -> (string: Result<
        ByteRange,
        BoundsError,
    >)
        ensures
            string == self.uid_string_range(record_base),
    {
        trailer_of(record_base, 16, self.length as u64)
    }
}

} // verus!
