//! The Core Programmable Interrupt Controller Structure.

use vstd::prelude::*;
use crate::bits::{bit, bit_at};
use crate::bytes::{le_u32, read_u32};

verus! {

/// ## CORE PIC Flags
#[derive(Clone, Copy, Debug, PartialEq, Eq, Structural)]
pub struct COREPICFlags(pub u32);

impl COREPICFlags {
    /// If Physical Processor ID is invalid, OSPM shall ignore this field, and
    /// OSPM shall ignore Core Programmable Interrupt Controller Structure. If
    /// Physical Processor ID is valid and if this Enabled bit is clear, this
    /// processor will be unusable on booting, and can be online during OS
    /// runtime. If Physical Processor ID is valid and if this Enabled bit is
    /// set, this processor is ready for using.
    pub fn enabled(&self) -> (set: bool)
        ensures
            set == bit(self.0 as nat, 0),
    {
        bit_at(self.0 as u128, 0)
    }
}

/// ## Core Programmable Interrupt Controller (CORE PIC) Structure
///
/// Each processor in Loongarch system has a Core Programmable Interrupt
/// Controller record in the MADT, and a processor device object in the
/// DSDT.
#[derive(Clone, Copy, Debug, PartialEq, Eq)]
pub struct CoreProgrammableInterruptController {
    /// 17 - Core Programmable Interrupt Controller Structure
    pub kind: u8,
    /// Length of the Core Programmable Interrupt Controller Structure in bytes.
    pub length: u8,
    /// - **0x00** - Invalid
    /// - **0x01** - CORE PIC v1
    pub version: u8,
    /// The OS associates this CORE PIC Structure with a processor device object
    /// in the namespace when the _UID child object of the processor device
    /// evaluates to a numeric value that matches the numeric value in this
    /// field.
    pub acpi_processor_id: u32,
    /// The processor core physical id.
    pub phsyical_processor_id: u32,
    /// CORE PIC flags.
    pub flags: COREPICFlags,
}

impl CoreProgrammableInterruptController {
    /// Size in bytes of the fixed fields.
    pub const SIZE: usize = 15;

    /// The structure laid out in the first 15 bytes of `s`.
    pub open spec fn laid_out(s: Seq<u8>) -> CoreProgrammableInterruptController {
        CoreProgrammableInterruptController {
            kind: s[0],
            length: s[1],
            version: s[2],
            acpi_processor_id: le_u32(s, 3) as u32,
            phsyical_processor_id: le_u32(s, 7) as u32,
            flags: COREPICFlags(le_u32(s, 11) as u32),
        }
    }

    /// Reads the structure from the front of `bytes`. Fails only when fewer
    /// than 15 bytes are supplied.
    pub fn decode(bytes: &[u8]) -> (structure: Option<CoreProgrammableInterruptController>)
        ensures
            structure == if bytes@.len() >= 15 {
                Some(Self::laid_out(bytes@))
            } else {
                None
            },
    {
        if bytes.len() < 15 {
            return None;
        }
        Some(
            CoreProgrammableInterruptController {
                kind: bytes[0],
                length: bytes[1],
                version: bytes[2],
                acpi_processor_id: read_u32(bytes, 3),
                phsyical_processor_id: read_u32(bytes, 7),
                flags: COREPICFlags(read_u32(bytes, 11)),
            },
        )
    }
}

} // verus!
