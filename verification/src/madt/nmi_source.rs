//! The Non-Maskable Interrupt Source Structure.

use vstd::prelude::*;
use crate::bytes::{le_u16, le_u32, read_u16, read_u32};
use crate::madt::interrupt_source_override::MPSINTIFlags;

verus! {

/// ## Non-Maskable Interrupt (NMI) Source Structure
///
/// This structure allows a platform designer to specify which I/O (S)APIC
/// interrupt inputs should be enabled as non-maskable. Any source that is
/// non-maskable will not be available for use by devices.
#[derive(Clone, Copy, Debug, PartialEq, Eq)]
pub struct NMISource {
    /// 3 - NMI Source
    pub kind: u8,
    /// 8
    pub length: u8,
    /// Same as MPS INTI flags.
    pub flags: MPSINTIFlags,
    /// The Global System Interrupt that this NMI will signal.
    pub global_system_interrupt: u32,
}

impl NMISource {
    /// Size in bytes of the fixed fields.
    pub const SIZE: usize = 8;

    /// The structure laid out in the first 8 bytes of `s`.
    pub open spec fn laid_out(s: Seq<u8>) -> NMISource {
        NMISource {
            kind: s[0],
            length: s[1],
            flags: MPSINTIFlags(le_u16(s, 2) as u16),
            global_system_interrupt: le_u32(s, 4) as u32,
        }
    }

    /// Reads the structure from the front of `bytes`. Fails only when fewer
    /// than 8 bytes are supplied.
    pub fn decode(bytes: &[u8]) -> (structure: Option<NMISource>)
        ensures
            structure == if bytes@.len() >= 8 {
                Some(Self::laid_out(bytes@))
            } else {
                None
            },
    {
        if bytes.len() < 8 {
            return None;
        }
        Some(
            NMISource {
                kind: bytes[0],
                length: bytes[1],
                flags: MPSINTIFlags(read_u16(bytes, 2)),
                global_system_interrupt: read_u32(bytes, 4),
            },
        )
    }
}

} // verus!
