//! The Local APIC NMI Structure.

use vstd::prelude::*;
use crate::bytes::{le_u16, read_u16};
use crate::madt::interrupt_source_override::MPSINTIFlags;

verus! {

/// ## Local APIC NMI Structure
///
/// This structure describes the Local APIC interrupt input (LINTn) that NMI
/// is connected to for each of the processors in the system where such a
/// connection exists. This information is needed by OSPM to enable the
/// appropriate local APIC entry.
#[derive(Clone, Copy, Debug, PartialEq, Eq)]
pub struct LocalAPICNMI {
    /// 4 - Local APIC NMI Structure
    pub kind: u8,
    /// 6
    pub length: u8,
    /// Value corresponding to the _UID listed in the processor's device object,
    /// or the Processor ID corresponding to the ID listed in the processor
    /// object.
    pub acpi_processor_uid: u8,
    /// MPS INTI flags.
    pub flags: MPSINTIFlags,
    /// Local APIC interrupt input LINTn to which NMI is connected.
    pub local_apic_lint_num: u8,
}

impl LocalAPICNMI {
    /// Size in bytes of the fixed fields.
    pub const SIZE: usize = 6;

    /// The structure laid out in the first 6 bytes of `s`.
    pub open spec fn laid_out(s: Seq<u8>) -> LocalAPICNMI {
        LocalAPICNMI {
            kind: s[0],
            length: s[1],
            acpi_processor_uid: s[2],
            flags: MPSINTIFlags(le_u16(s, 3) as u16),
            local_apic_lint_num: s[5],
        }
    }

    /// Reads the structure from the front of `bytes`. Fails only when fewer
    /// than 6 bytes are supplied.
    pub fn decode(bytes: &[u8]) -> (structure: Option<LocalAPICNMI>)
        ensures
            structure == if bytes@.len() >= 6 {
                Some(Self::laid_out(bytes@))
            } else {
                None
            },
    {
        if bytes.len() < 6 {
            return None;
        }
        Some(
            LocalAPICNMI {
                kind: bytes[0],
                length: bytes[1],
                acpi_processor_uid: bytes[2],
                flags: MPSINTIFlags(read_u16(bytes, 3)),
                local_apic_lint_num: bytes[5],
            },
        )
    }
}

} // verus!
