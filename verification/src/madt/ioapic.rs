//! The I/O APIC Structure.

use vstd::prelude::*;
use crate::bytes::{le_u32, read_u32};

verus! {

/// ## I/O APIC Structure
///
/// In an APIC implementation, there are one or more I/O APICs. Each I/O APIC
/// has a series of interrupt inputs, referred to as INTIn, where the value of
/// n is from 0 to the number of the last interrupt input on the I/O APIC. The
/// I/O APIC structure declares which global system interrupts are uniquely
/// associated with the I/O APIC interrupt inputs. There is one I/O APIC
/// structure for each I/O APIC in the system.
#[derive(Clone, Copy, Debug, PartialEq, Eq)]
pub struct IOAPIC {
    /// 1 - I/O APIC structure
    pub kind: u8,
    /// 12
    pub length: u8,
    /// The I/O APIC's ID.
    pub io_apic_id: u8,
    /// The 32-bit physical address to access this I/O APIC. Each I/O APIC
    /// resides at a unique address.
    pub io_apic_address: u32,
    /// The global system interrupt number where this I/O APIC's interrupt
    /// inputs start.
    pub global_system_interrupt_base: u32,
}

impl IOAPIC {
    /// Size in bytes of the fixed fields.
    pub const SIZE: usize = 12;

    /// The structure laid out in the first 12 bytes of `s`.
    pub open spec fn laid_out(s: Seq<u8>) -> IOAPIC {
        IOAPIC {
            kind: s[0],
            length: s[1],
            io_apic_id: s[2],
            io_apic_address: le_u32(s, 4) as u32,
            global_system_interrupt_base: le_u32(s, 8) as u32,
        }
    }

    /// Reads the structure from the front of `bytes`. Fails only when fewer
    /// than 12 bytes are supplied.
    pub fn decode(bytes: &[u8]) -> (structure: Option<IOAPIC>)
        ensures
            structure == if bytes@.len() >= 12 {
                Some(Self::laid_out(bytes@))
            } else {
                None
            },
    {
        if bytes.len() < 12 {
            return None;
        }
        Some(
            IOAPIC {
                kind: bytes[0],
                length: bytes[1],
                io_apic_id: bytes[2],
                io_apic_address: read_u32(bytes, 4),
                global_system_interrupt_base: read_u32(bytes, 8),
            },
        )
    }
}

} // verus!
