//! The GIC CPU Interface Structure.

use vstd::prelude::*;
use crate::bits::{bit, bit_at};
use crate::bytes::{le_u16, le_u32, le_u64, read_u16, read_u32, read_u64};

verus! {

/// ## GIC CPU Interface Flags
#[derive(Clone, Copy, Debug, PartialEq, Eq, Structural)]
pub struct GICCPUInterfaceFlags(pub u32);

impl GICCPUInterfaceFlags {
    /// If this bit is set, the processor is ready for use. If this bit is clear
    /// and the Online Capable bit is set, the system supports enabling this
    /// processor during OS runtime. If this bit is clear and the Online Capable
    /// bit is also clear, this processor is unusable, and the operating system
    /// support will not attempt to use it.
    pub fn enabled(&self) -> (set: bool)
        ensures
            set == bit(self.0 as nat, 0),
    {
        bit_at(self.0 as u128, 0)
    }

    /// - 0 - Level-triggered
    /// - 1 - Edge-triggered
    pub fn performance_interrupt_mode(&self) -> (set: bool)
        ensures
            set == bit(self.0 as nat, 1),
    {
        bit_at(self.0 as u128, 1)
    }

    /// - 0 - Level-triggered
    /// - 1 - Edge-triggered
    pub fn vgic_maintenance_interrupt_mode_flags(&self) -> (set: bool)
        ensures
            set == bit(self.0 as nat, 2),
    {
        bit_at(self.0 as u128, 2)
    }

    /// The information conveyed by this bit depends on the value of the Enabled
    /// bit.
    pub fn online_capable(&self) -> (set: bool)
        ensures
            set == bit(self.0 as nat, 3),
    {
        bit_at(self.0 as u128, 3)
    }
}

/// ## GIC CPU Interface (GICC) Structure
///
/// In the GIC interrupt model, logical processors are required to have a
/// Processor Device object in the DSDT, and must convey each processor's
/// GIC information to the OS using the GICC structure.
#[derive(Clone, Copy, Debug, PartialEq, Eq)]
pub struct GICCPUInterface {
    /// 11 - GICC Structure
    pub kind: u8,
    /// 82
    pub length: u8,
    /// GIC's CPU Interface Number.
    pub cpu_interface_number: u32,
    /// The OS associates this GICC Structure with a processor device object in
    /// the namespace when the _UID child object of the processor device
    /// evaluates to a numeric value that matches the numeric value in this
    /// field.
    pub acpi_processor_uid: u32,
    /// GIC CPU Interface Flags.
    pub flags: GICCPUInterfaceFlags,
    /// Version of the ARM-Processor Parking Protocol implemented.
    pub parking_protocol_version: u32,
    /// The GSIV used for Performance Monitoring Interrupts.
    pub performance_interrupt_gsiv: u32,
    /// The 64-bit physical address of the processor's Parking Protocol mailbox.
    pub parked_address: u64,
    /// On GICv1/v2 systems and GICv3/4 systems in GICv2 compatibility mode,
    /// this field holds the 64-bit physical address at which the processor can
    /// access this GIC CPU Interface.
    pub physical_base_address: u64,
    /// Address of the GIC virtual CPU interface registers.
    pub gicv: u64,
    /// Address of the GIC virtual interface control block registers.
    pub gich: u64,
    /// GSIV for Virtual GIC maintenance interrupt.
    pub vgic_maintenance_interrupt: u32,
    /// On systems supporting GICv3 and above, this field holds the 64-bit
    /// physical address of the associated Redistributor.
    pub gicr_base_address: u64,
    /// This fields follows the MPIDR formatting of ARM architecture. If ARMv7
    /// architecture is used then the format must be as follows:
    pub mpidr: u64,
    /// Describes the relative power efficiency of the associated processor.
    pub processor_power_efficiency_class: u8,
    /// Statistical Profiling Extension buffer overflow GSIV.
    pub spe_overflow_interrupt: u16,
    /// Trace Buffer Extension interrupt GSIV.
    pub trbe_interrupt: u16,
}

impl GICCPUInterface {
    /// Size in bytes of the fixed fields.
    pub const SIZE: usize = 82;

    /// The structure laid out in the first 82 bytes of `s`.
    pub open spec fn laid_out(s: Seq<u8>) -> GICCPUInterface {
        GICCPUInterface {
            kind: s[0],
            length: s[1],
            cpu_interface_number: le_u32(s, 4) as u32,
            acpi_processor_uid: le_u32(s, 8) as u32,
            flags: GICCPUInterfaceFlags(le_u32(s, 12) as u32),
            parking_protocol_version: le_u32(s, 16) as u32,
            performance_interrupt_gsiv: le_u32(s, 20) as u32,
            parked_address: le_u64(s, 24) as u64,
            physical_base_address: le_u64(s, 32) as u64,
            gicv: le_u64(s, 40) as u64,
            gich: le_u64(s, 48) as u64,
            vgic_maintenance_interrupt: le_u32(s, 56) as u32,
            gicr_base_address: le_u64(s, 60) as u64,
            mpidr: le_u64(s, 68) as u64,
            processor_power_efficiency_class: s[76],
            spe_overflow_interrupt: le_u16(s, 78) as u16,
            trbe_interrupt: le_u16(s, 80) as u16,
        }
    }

    /// Reads the structure from the front of `bytes`. Fails only when fewer
    /// than 82 bytes are supplied.
    pub fn decode(bytes: &[u8]) -> (structure: Option<GICCPUInterface>)
        ensures
            structure == if bytes@.len() >= 82 {
                Some(Self::laid_out(bytes@))
            } else {
                None
            },
    {
        if bytes.len() < 82 {
            return None;
        }
        Some(
            GICCPUInterface {
                kind: bytes[0],
                length: bytes[1],
                cpu_interface_number: read_u32(bytes, 4),
                acpi_processor_uid: read_u32(bytes, 8),
                flags: GICCPUInterfaceFlags(read_u32(bytes, 12)),
                parking_protocol_version: read_u32(bytes, 16),
                performance_interrupt_gsiv: read_u32(bytes, 20),
                parked_address: read_u64(bytes, 24),
                physical_base_address: read_u64(bytes, 32),
                gicv: read_u64(bytes, 40),
                gich: read_u64(bytes, 48),
                vgic_maintenance_interrupt: read_u32(bytes, 56),
                gicr_base_address: read_u64(bytes, 60),
                mpidr: read_u64(bytes, 68),
                processor_power_efficiency_class: bytes[76],
                spe_overflow_interrupt: read_u16(bytes, 78),
                trbe_interrupt: read_u16(bytes, 80),
            },
        )
    }
}

} // verus!
