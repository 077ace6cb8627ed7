//! The I/O SAPIC Structure.

use vstd::prelude::*;
use crate::bytes::{le_u32, le_u64, read_u32, read_u64};

verus! {

/// ## I/O SAPIC Structure
///
/// The I/O SAPIC structure is very similar to the I/O APIC structure. If
/// both I/O APIC and I/O SAPIC structures exist for a specific APIC ID, the
/// information in the I/O SAPIC structure must be used.
#[derive(Clone, Copy, Debug, PartialEq, Eq)]
pub struct IOSAPIC {
    /// 6 - I/O SAPIC Structure
    pub kind: u8,
    /// 16
    pub length: u8,
    /// I/O SAPIC ID
    pub io_apic_id: u8,
    /// The global system interrupt number where this I/O SAPIC's interrupt
    /// inputs start. The number of interrupt inputs is determined by the I/O
    /// SAPIC's Max Redir Entry register.
    pub global_system_interrupt_base: u32,
    /// The 64-bit physical address to access this I/O SAPIC. Each I/O SAPIC
    /// resides at a unique address.
    pub io_sapic_address: u64,
}

impl IOSAPIC {
    /// Size in bytes of the fixed fields.
    pub const SIZE: usize = 16;

    /// The structure laid out in the first 16 bytes of `s`.
    pub open spec fn laid_out(s: Seq<u8>) -> IOSAPIC {
        IOSAPIC {
            kind: s[0],
            length: s[1],
            io_apic_id: s[2],
            global_system_interrupt_base: le_u32(s, 4) as u32,
            io_sapic_address: le_u64(s, 8) as u64,
        }
    }

    /// Reads the structure from the front of `bytes`. Fails only when fewer
    /// than 16 bytes are supplied.
    pub fn decode(bytes: &[u8]) -> (structure: Option<IOSAPIC>)
        ensures
            structure == if bytes@.len() >= 16 {
                Some(Self::laid_out(bytes@))
            } else {
                None
            },
    {
        if bytes.len() < 16 {
            return None;
        }
        Some(
            IOSAPIC {
                kind: bytes[0],
                length: bytes[1],
                io_apic_id: bytes[2],
                global_system_interrupt_base: read_u32(bytes, 4),
                io_sapic_address: read_u64(bytes, 8),
            },
        )
    }
}

} // verus!
