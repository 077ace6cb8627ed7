//! The Platform Interrupt Source Structure.

use vstd::prelude::*;
use crate::bits::{bit, bit_at};
use crate::bytes::{le_u16, le_u32, read_u16, read_u32};
use crate::madt::interrupt_source_override::MPSINTIFlags;

verus! {

/// ## Platform Interrupt Source Flags
#[derive(Clone, Copy, Debug, PartialEq, Eq, Structural)]
pub struct PlatformInterruptSourceFlags(pub u32);

impl PlatformInterruptSourceFlags {
    /// When set, indicates that retrieval of error information is allowed from
    /// any processor and OSPM is to use the information provided by the
    /// processor ID, EID fields of the Platform Interrupt Source Structure as a
    /// target processor hint.
    pub fn cpei_processor_override(&self) -> (set: bool)
        ensures
            set == bit(self.0 as nat, 0),
    {
        bit_at(self.0 as u128, 0)
    }
}

/// ## Platform Interrupt Source Structure
///
/// The Platform Interrupt Source structure is used to communicate which I/O
/// SAPIC interrupt inputs are connected to the platform interrupt sources.
#[derive(Clone, Copy, Debug, PartialEq, Eq)]
pub struct PlatformInterruptSource {
    /// 8 - Platform Interrupt Source Structure
    pub kind: u8,
    /// 16
    pub length: u8,
    /// MPS INTI flags.
    pub flags: MPSINTIFlags,
    /// - **0x01** - PMI
    /// - **0x02** - INIT
    /// - **0x03** - Corrected Platform Error Interrupt
    pub interrupt_type: u8,
    /// Processor ID of destination.
    pub processor_id: u8,
    /// Processor EID of destination.
    pub processor_eid: u8,
    /// Value that OSPM must use to program the vector field of the I/O SAPIC
    /// redirection table entry for entries with the PMI interrupt type.
    pub io_sapic_vector: u8,
    /// The Global System Interrupt that this platform interrupt will signal.
    pub global_system_interrupt: u32,
    /// Platform Interrupt Source Flags.
    pub platform_interrupt_source_flags: PlatformInterruptSourceFlags,
}

impl PlatformInterruptSource {
    /// Size in bytes of the fixed fields.
    pub const SIZE: usize = 16;

    /// The structure laid out in the first 16 bytes of `s`.
    pub open spec fn laid_out(s: Seq<u8>) -> PlatformInterruptSource {
        PlatformInterruptSource {
            kind: s[0],
            length: s[1],
            flags: MPSINTIFlags(le_u16(s, 2) as u16),
            interrupt_type: s[4],
            processor_id: s[5],
            processor_eid: s[6],
            io_sapic_vector: s[7],
            global_system_interrupt: le_u32(s, 8) as u32,
            platform_interrupt_source_flags: PlatformInterruptSourceFlags(le_u32(s, 12) as u32),
        }
    }

    /// Reads the structure from the front of `bytes`. Fails only when fewer
    /// than 16 bytes are supplied.
    pub fn decode(bytes: &[u8]) -> (structure: Option<PlatformInterruptSource>)
        ensures
            structure == if bytes@.len() >= 16 {
                Some(Self::laid_out(bytes@))
            } else {
                None
            },
    {
        if bytes.len() < 16 {
            return None;
        }
        Some(
            PlatformInterruptSource {
                kind: bytes[0],
                length: bytes[1],
                flags: MPSINTIFlags(read_u16(bytes, 2)),
                interrupt_type: bytes[4],
                processor_id: bytes[5],
                processor_eid: bytes[6],
                io_sapic_vector: bytes[7],
                global_system_interrupt: read_u32(bytes, 8),
                platform_interrupt_source_flags: PlatformInterruptSourceFlags(read_u32(bytes, 12)),
            },
        )
    }
}

} // verus!
