//! The Local APIC Address Override Structure.

use vstd::prelude::*;
use crate::bytes::{le_u64, read_u64};

verus! {

/// ## Local APIC Address Override Structure
///
/// This optional structure supports 64-bit systems by providing an override
/// of the physical address of the local APIC in the MADT's table header,
/// which is defined as a 32-bit field.
#[derive(Clone, Copy, Debug, PartialEq, Eq)]
pub struct LocalAPICAddressOverride {
    /// 5 - Local APIC Address Override Structure
    pub kind: u8,
    /// 12
    pub length: u8,
    /// Physical address of Local APIC. For Itanium Processor Family (IPF)-based
    /// platforms, this field contains the starting address of the Processor
    /// Interrupt Block.
    pub local_apic_address: u64,
}

impl LocalAPICAddressOverride {
    /// Size in bytes of the fixed fields.
    pub const SIZE: usize = 14;

    /// The structure laid out in the first 14 bytes of `s`.
    pub open spec fn laid_out(s: Seq<u8>) -> LocalAPICAddressOverride {
        LocalAPICAddressOverride {
            kind: s[0],
            length: s[1],
            local_apic_address: le_u64(s, 6) as u64,
        }
    }

    /// Reads the structure from the front of `bytes`. Fails only when fewer
    /// than 14 bytes are supplied.
    pub fn decode(bytes: &[u8]) -> (structure: Option<LocalAPICAddressOverride>)
        ensures
            structure == if bytes@.len() >= 14 {
                Some(Self::laid_out(bytes@))
            } else {
                None
            },
    {
        if bytes.len() < 14 {
            return None;
        }
        Some(
            LocalAPICAddressOverride {
                kind: bytes[0],
                length: bytes[1],
                local_apic_address: read_u64(bytes, 6),
            },
        )
    }
}

} // verus!
