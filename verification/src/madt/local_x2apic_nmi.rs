//! The Local x2APIC NMI Structure.

use vstd::prelude::*;
use crate::bytes::{le_u16, le_u32, read_u16, read_u32};
use crate::madt::interrupt_source_override::MPSINTIFlags;

verus! {

/// ## Local x2APIC NMI Structure
///
/// The Local APIC NMI and Local x2APIC NMI structures describe the
/// interrupt input (LINTn) that NMI is connected to for each of the logical
/// processors in the system where such a connection exists. Each NMI
/// connection to a processor requires a separate NMI structure. This
/// information is needed by OSPM to enable the appropriate APIC entry.
#[derive(Clone, Copy, Debug, PartialEq, Eq)]
pub struct Localx2APICNMI {
    /// 10 - Local x2APIC NMI Structure
    pub kind: u8,
    /// 12
    pub length: u8,
    /// Same as MPS INTI Flags.
    pub flags: MPSINTIFlags,
    /// UID corresponding to the ID listed in the processor Device object. A
    /// value of 0xFFFFFFFF signifies that this applies to all processors in the
    /// machine.
    pub acpi_processor_uid: u32,
    /// Local x2APIC interrupt input LINTn to which NMI is connected.
    pub local_x2apic_lint_num: u8,
}

impl Localx2APICNMI {
    /// Size in bytes of the fixed fields.
    pub const SIZE: usize = 12;

    /// The structure laid out in the first 12 bytes of `s`.
    pub open spec fn laid_out(s: Seq<u8>) -> Localx2APICNMI {
        Localx2APICNMI {
            kind: s[0],
            length: s[1],
            flags: MPSINTIFlags(le_u16(s, 2) as u16),
            acpi_processor_uid: le_u32(s, 4) as u32,
            local_x2apic_lint_num: s[8],
        }
    }

    /// Reads the structure from the front of `bytes`. Fails only when fewer
    /// than 12 bytes are supplied.
    pub fn decode(bytes: &[u8]) -> (structure: Option<Localx2APICNMI>)
        ensures
            structure == if bytes@.len() >= 12 {
                Some(Self::laid_out(bytes@))
            } else {
                None
            },
    {
        if bytes.len() < 12 {
            return None;
        }
        Some(
            Localx2APICNMI {
                kind: bytes[0],
                length: bytes[1],
                flags: MPSINTIFlags(read_u16(bytes, 2)),
                acpi_processor_uid: read_u32(bytes, 4),
                local_x2apic_lint_num: bytes[8],
            },
        )
    }
}

} // verus!
