//! The affinity structures of the System Resource Affinity Table.

pub mod generic_initiator;
pub mod generic_port;
pub mod gic_interrupt_translation_service;
pub mod gicc;
pub mod memory;
pub mod proc_local_apic;
pub mod proc_local_x2apic;

use vstd::prelude::*;
use crate::bits::{bit, bit_at};

verus! {

/// ## Flags - Processor Local APIC/SAPIC Affinity Structure
#[derive(Clone, Copy, Debug, PartialEq, Eq, Structural)]
pub struct ProcessorLocalAPICAffinityFlags(pub u32);

impl ProcessorLocalAPICAffinityFlags {
    /// If clear, the OSPM ignores the contents of the Processor Local
    /// APIC/SAPIC Affinity Structure. This allows system firmware to populate
    /// the SRAT with a static number of structures but only enable them as
    /// necessary.
    pub fn enabled(&self) -> (set: bool)
        ensures
            set == bit(self.0 as nat, 0),
    {
        bit_at(self.0 as u128, 0)
    }
}

/// ## Flags - Generic Initiator/Port Affinity Structure
#[derive(Clone, Copy, Debug, PartialEq, Eq, Structural)]
pub struct GenericInitiatorPortAffinityFlags(pub u32);

impl GenericInitiatorPortAffinityFlags {
    /// If clear, the OSPM ignores the contents of the Generic Initiator/Port
    /// Affinity Structure. This allows system firmware to populate the SRAT
    /// with a static number of structures, but only enable them as necessary.
    pub fn enabled(&self) -> (set: bool)
        ensures
            set == bit(self.0 as nat, 0),
    {
        bit_at(self.0 as u128, 0)
    }

    /// If set, indicates that the Generic Initiator/Port can initiate all
    /// transactions at the same architectural level as the host (e.g. full
    /// atomicOps, cache coherency, virtual memory, etc.)
    pub fn architectural_transactions(&self) -> (set: bool)
        ensures
            set == bit(self.0 as nat, 1),
    {
        bit_at(self.0 as u128, 1)
    }
}

} // verus!
