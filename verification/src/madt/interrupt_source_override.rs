//! The Interrupt Source Override Structure.

use vstd::prelude::*;
use crate::bits::{field, field_at};
use crate::bytes::{le_u16, le_u32, read_u16, read_u32};

verus! {

/// Polarity of the APIC I/O input signals.
#[derive(Clone, Copy, Debug, PartialEq, Eq, Structural)]
pub enum InterruptSourceOverridePolarity {
    /// Conforms to what the bus defines (value 00b).
    Conform,
    /// Active high (value 01b).
    ActiveHigh,
    /// Active low (value 11b).
    ActiveLow,
    /// The field holds the value 10b, which is reserved.
    Reserved,
}

impl InterruptSourceOverridePolarity {
    /// The polarity that the value of the two-bit field stands for.
    pub open spec fn of_field(value: nat) -> InterruptSourceOverridePolarity {
        if value == 0 {
            InterruptSourceOverridePolarity::Conform
        } else if value == 1 {
            InterruptSourceOverridePolarity::ActiveHigh
        } else if value == 3 {
            InterruptSourceOverridePolarity::ActiveLow
        } else {
            InterruptSourceOverridePolarity::Reserved
        }
    }

    /// The polarity that the value of the two-bit field stands for.
    pub fn from_field(value: u64) -> (polarity: InterruptSourceOverridePolarity)
        ensures
            polarity == Self::of_field(value as nat),
    {
        match value {
            0 => InterruptSourceOverridePolarity::Conform,
            1 => InterruptSourceOverridePolarity::ActiveHigh,
            3 => InterruptSourceOverridePolarity::ActiveLow,
            _ => InterruptSourceOverridePolarity::Reserved,
        }
    }
}

/// Trigger mode of the APIC I/O input signals.
#[derive(Clone, Copy, Debug, PartialEq, Eq, Structural)]
pub enum InterruptSourceOverrideTriggerMode {
    /// Conforms to what the bus defines (value 00b).
    Conform,
    /// Edge-triggered (value 01b).
    EdgeTriggered,
    /// Level-triggered (value 11b).
    LevelTriggered,
    /// The field holds the value 10b, which is reserved.
    Reserved,
}

impl InterruptSourceOverrideTriggerMode {
    /// The trigger mode that the value of the two-bit field stands for.
    pub open spec fn of_field(value: nat) -> InterruptSourceOverrideTriggerMode {
        if value == 0 {
            InterruptSourceOverrideTriggerMode::Conform
        } else if value == 1 {
            InterruptSourceOverrideTriggerMode::EdgeTriggered
        } else if value == 3 {
            InterruptSourceOverrideTriggerMode::LevelTriggered
        } else {
            InterruptSourceOverrideTriggerMode::Reserved
        }
    }

    /// The trigger mode that the value of the two-bit field stands for.
    pub fn from_field(value: u64) -> (mode: InterruptSourceOverrideTriggerMode)
        ensures
            mode == Self::of_field(value as nat),
    {
        match value {
            0 => InterruptSourceOverrideTriggerMode::Conform,
            1 => InterruptSourceOverrideTriggerMode::EdgeTriggered,
            3 => InterruptSourceOverrideTriggerMode::LevelTriggered,
            _ => InterruptSourceOverrideTriggerMode::Reserved,
        }
    }
}

/// ## MPS INTI Flags
///
/// The Polarity flags are the PO bits and the Trigger Mode flags are the EL
/// bits.
#[derive(Clone, Copy, Debug, PartialEq, Eq, Structural)]
pub struct MPSINTIFlags(pub u16);

impl MPSINTIFlags {
    /// Polarity of the APIC I/O input signals: the two bits 0 and 1.
    pub fn polarity(&self) -> (polarity: InterruptSourceOverridePolarity)
        ensures
            polarity == InterruptSourceOverridePolarity::of_field(field(self.0 as nat, 0, 2)),
    {
        InterruptSourceOverridePolarity::from_field(field_at(self.0 as u64, 0, 2))
    }

    /// Trigger mode of the APIC I/O input signals: the two bits 2 and 3.
    pub fn trigger_mode(&self) -> (mode: InterruptSourceOverrideTriggerMode)
        ensures
            mode == InterruptSourceOverrideTriggerMode::of_field(field(self.0 as nat, 2, 2)),
    {
        InterruptSourceOverrideTriggerMode::from_field(field_at(self.0 as u64, 2, 2))
    }
}

/// ## Interrupt Source Override Structure
///
/// Interrupt Source Overrides are necessary to describe variances between
/// the IA-PC standard dual 8259 interrupt definition and the platform's
/// implementation.
#[derive(Clone, Copy, Debug, PartialEq, Eq)]
pub struct InterruptSourceOverride {
    /// 2 - Interrupt Source Override
    pub kind: u8,
    /// 10
    pub length: u8,
    /// 0 - Constant, meaning ISA.
    pub bus: u8,
    /// Bus-relative interrupt source (IRQ)
    pub source: u8,
    /// The Global System Interrupt that this bus-relative interrupt source will
    /// signal.
    pub global_system_interrupt: u32,
    /// MPS INTI flags.
    pub flags: MPSINTIFlags,
}

impl InterruptSourceOverride {
    /// Size in bytes of the fixed fields.
    pub const SIZE: usize = 10;

    /// The structure laid out in the first 10 bytes of `s`.
    pub open spec fn laid_out(s: Seq<u8>) -> InterruptSourceOverride {
        InterruptSourceOverride {
            kind: s[0],
            length: s[1],
            bus: s[2],
            source: s[3],
            global_system_interrupt: le_u32(s, 4) as u32,
            flags: MPSINTIFlags(le_u16(s, 8) as u16),
        }
    }

    /// Reads the structure from the front of `bytes`. Fails only when fewer
    /// than 10 bytes are supplied.
    pub fn decode(bytes: &[u8]) -> (structure: Option<InterruptSourceOverride>)
        ensures
            structure == if bytes@.len() >= 10 {
                Some(Self::laid_out(bytes@))
            } else {
                None
            },
    {
        if bytes.len() < 10 {
            return None;
        }
        Some(
            InterruptSourceOverride {
                kind: bytes[0],
                length: bytes[1],
                bus: bytes[2],
                source: bytes[3],
                global_system_interrupt: read_u32(bytes, 4),
                flags: MPSINTIFlags(read_u16(bytes, 8)),
            },
        )
    }
}

} // verus!
