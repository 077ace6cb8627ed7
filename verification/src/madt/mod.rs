//! The Multiple APIC Description Table and its interrupt controller
//! structures.

pub mod bridge_io_pic;
pub mod core_pic;
pub mod extend_io_pic;
pub mod gic_distributor;
pub mod gic_interrupt_translation_service;
pub mod gic_msi_frame;
pub mod gic_redistributor;
pub mod giccpu_interface;
pub mod hyper_transport_pic;
pub mod interrupt_source_override;
pub mod ioapic;
pub mod iosapic;
pub mod legacy_io_pic;
pub mod local_api_address_override;
pub mod local_apic_nmi;
pub mod local_sapic;
pub mod local_x2apic_nmi;
pub mod lpc_pic;
pub mod msi_pic;
pub mod multiprocessor_wakeup;
pub mod nmi_source;
pub mod platform_interrupt_source;
pub mod proc_local_apic;
pub mod processor_local_x2apic;

use vstd::prelude::*;
use crate::bits::{bit, bit_at};
use crate::bytes::{le_u32, read_u32};
use crate::header::{validate, validated, HeaderError, SDTHeader};
use crate::range::{optional_trailer_of, optional_trailer_range, BoundsError, ByteRange};

verus! {

/// The signature of the table: the ASCII characters `APIC`.
pub const MADT_SIGNATURE: [u8; 4] = [0x41, 0x50, 0x49, 0x43];

/// ## Local (S)APIC Flags
#[derive(Clone, Copy, Debug, PartialEq, Eq, Structural)]
pub struct LocalAPICFlags(pub u32);

impl LocalAPICFlags {
    /// If this bit is set the processor is ready for use. If this bit is clear
    /// and the Online Capable bit is set, system hardware supports enabling
    /// this processor during OS runtime. If this bit is clear and the Online
    /// Capable bit is also clear, this processor is unusable, and OSPM shall
    /// ignore the contents of the Processor Local APIC Structure.
    pub fn enabled(&self) -> (set: bool)
        ensures
            set == bit(self.0 as nat, 0),
    {
        bit_at(self.0 as u128, 0)
    }

    /// The information conveyed by this bit depends on the value of the Enabled
    /// bit. If the Enabled bit is set, this bit is reserved and must be zero.
    /// Otherwise, if this this bit is set, system hardware supports enabling
    /// this processor during OS runtime.
    pub fn online_capable(&self) -> (set: bool)
        ensures
            set == bit(self.0 as nat, 1),
    {
        bit_at(self.0 as u128, 1)
    }
}

/// ## Multiple APIC Flags
#[derive(Clone, Copy, Debug, PartialEq, Eq, Structural)]
pub struct MADTFlags(pub u32);

impl MADTFlags {
    /// A one indicates that the system also has a PC-AT-compatible dual-8259
    /// setup.
    pub fn pcat_compat(&self) -> (set: bool)
        ensures
            set == bit(self.0 as nat, 0),
    {
        bit_at(self.0 as u128, 0)
    }
}

/// ## Multiple APIC Description Table
///
/// The ACPI interrupt model describes all interrupts for the entire system
/// in a uniform interrupt model implementation. Supported interrupt models
/// include:
#[derive(Clone, Copy, Debug, PartialEq, Eq)]
pub struct MADT {
    /// - **Signature** - "APIC"
    pub header: SDTHeader,
    /// The 32-bit physical address at which each processor can access its local
    /// interrupt controller.
    pub local_interrupt_controller_address: u32,
    /// Multiple APIC flags.
    pub flags: MADTFlags,
}

impl MADT {
    /// Size in bytes of the fixed fields.
    pub const SIZE: usize = 44;

    /// The table whose validated header is `header` and whose fields are
    /// laid out in `s`.
    pub open spec fn laid_out(header: SDTHeader, s: Seq<u8>) -> MADT {
        MADT {
            header,
            local_interrupt_controller_address: le_u32(s, 36) as u32,
            flags: MADTFlags(le_u32(s, 40) as u32),
        }
    }

    /// What decoding the table image `s` yields.
    pub open spec fn decoded(s: Seq<u8>) -> Result<MADT, HeaderError> {
        match validated(s, Some(MADT_SIGNATURE@)) {
            Err(fault) => Err(fault),
            Ok(header) => if header.length < 44 {
                Err(HeaderError::LengthOutOfBounds)
            } else {
                Ok(Self::laid_out(header, s))
            },
        }
    }

    /// Validates the table at the front of `bytes`, which must carry the
    /// signature of this table, and reads its fixed fields.
    ///
    /// Fails with the fault of the header, or with `LengthOutOfBounds` when
    /// the table declares fewer than 44 bytes.
    pub fn decode(bytes: &[u8]) -> (table: Result<MADT, HeaderError>)
        ensures
            table == Self::decoded(bytes@),
    {
        let header = match validate(bytes, Some(MADT_SIGNATURE)) {
            Ok(header) => header,
            Err(fault) => {
                return Err(fault);
            },
        };
        if header.length < 44 {
            return Err(HeaderError::LengthOutOfBounds);
        }
        Ok(
            MADT {
                header,
                local_interrupt_controller_address: read_u32(bytes, 36),
                flags: MADTFlags(read_u32(bytes, 40)),
            },
        )
    }

    /// The bytes of the interrupt controller structures of a table that lies
    /// at address `record_base`.
    pub open spec fn interrupt_controller_range(&self, record_base: u64) -> Result<
        ByteRange,
        BoundsError,
    > {
        optional_trailer_range(record_base, 44, self.header.length as u64)
    }

    /// Where the list of interrupt controller structures lies: what follows
    /// the 44 bytes of fixed fields of a table at address `record_base`, up
    /// to the length that the table declares. The list may be empty.
    ///
    /// The list is one of tagged sub-records; a `RecordWalker` over its
    /// bytes hands them out.
    pub fn interrupt_controller_structure(&self, record_base: u64) -> (list: Result<
        ByteRange,
        BoundsError,
    >)
        ensures
            list == self.interrupt_controller_range(record_base),
    {
        optional_trailer_of(record_base, 44, self.header.length as u64)
    }
}

} // verus!
