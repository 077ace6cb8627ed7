//! The System Resource Affinity Table and its affinity structures.

pub mod affinity;

use vstd::prelude::*;
use crate::bytes::{le_u16, le_u32, le_u64, read_u16, read_u32, read_u64};
use crate::header::{validate, validated, HeaderError, SDTHeader};
use crate::range::{optional_trailer_of, optional_trailer_range, BoundsError, ByteRange};

verus! {

/// The signature of the table: the ASCII characters `SRAT`.
pub const SRAT_SIGNATURE: [u8; 4] = [0x53, 0x52, 0x41, 0x54];

/// ## Device Handle - ACPI
#[derive(Clone, Copy, Debug, PartialEq, Eq)]
pub struct ACPIDeviceHandle {
    /// The _HID value
    pub acpi_hid: u64,
    /// The _UID value
    pub acpi_uid: u32,
}

impl ACPIDeviceHandle {
    /// Size in bytes of the fixed fields.
    pub const SIZE: usize = 16;

    /// The structure laid out in the first 16 bytes of `s`.
    pub open spec fn laid_out(s: Seq<u8>) -> ACPIDeviceHandle {
        ACPIDeviceHandle {
            acpi_hid: le_u64(s, 0) as u64,
            acpi_uid: le_u32(s, 8) as u32,
        }
    }

    /// Reads the structure from the front of `bytes`. Fails only when fewer
    /// than 16 bytes are supplied.
    pub fn decode(bytes: &[u8]) -> (structure: Option<ACPIDeviceHandle>)
        ensures
            structure == if bytes@.len() >= 16 {
                Some(Self::laid_out(bytes@))
            } else {
                None
            },
    {
        if bytes.len() < 16 {
            return None;
        }
        Some(
            ACPIDeviceHandle {
                acpi_hid: read_u64(bytes, 0),
                acpi_uid: read_u32(bytes, 8),
            },
        )
    }
}

/// ## Device Handle - PCI
#[derive(Clone, Copy, Debug, PartialEq, Eq)]
pub struct PCIDeviceHandle {
    /// PCI segment number.
    pub pci_segment: u16,
    /// PCI Bus Number (Bits 7:0 of Byte 2) PCI Device Number (Bits 7:3 of Byte
    /// 3) PCI Function Number (Bits 2:0 of Byte 3)
    pub pci_bdf_number: u16,
}

impl PCIDeviceHandle {
    /// Size in bytes of the fixed fields.
    pub const SIZE: usize = 16;

    /// The structure laid out in the first 16 bytes of `s`.
    pub open spec fn laid_out(s: Seq<u8>) -> PCIDeviceHandle {
        PCIDeviceHandle {
            pci_segment: le_u16(s, 0) as u16,
            pci_bdf_number: le_u16(s, 2) as u16,
        }
    }

    /// Reads the structure from the front of `bytes`. Fails only when fewer
    /// than 16 bytes are supplied.
    pub fn decode(bytes: &[u8]) -> (structure: Option<PCIDeviceHandle>)
        ensures
            structure == if bytes@.len() >= 16 {
                Some(Self::laid_out(bytes@))
            } else {
                None
            },
    {
        if bytes.len() < 16 {
            return None;
        }
        Some(
            PCIDeviceHandle {
                pci_segment: read_u16(bytes, 0),
                pci_bdf_number: read_u16(bytes, 2),
            },
        )
    }
}

/// ## System Resource Affinity Table (SRAT)
///
/// This optional table provides information that allows OSPM to associate
/// the following types of devices with system locality / proximity domains
/// and clock domains:
#[derive(Clone, Copy, Debug, PartialEq, Eq)]
pub struct SRAT {
    /// - **Signature** - "SRAT"
    pub header: SDTHeader,
}

impl SRAT {
    /// Size in bytes of the fixed fields.
    pub const SIZE: usize = 48;

    /// The table whose validated header is `header` and whose fields are
    /// laid out in `s`.
    pub open spec fn laid_out(header: SDTHeader, s: Seq<u8>) -> SRAT {
        SRAT { header }
    }

    /// What decoding the table image `s` yields.
    pub open spec fn decoded(s: Seq<u8>) -> Result<SRAT, HeaderError> {
        match validated(s, Some(SRAT_SIGNATURE@)) {
            Err(fault) => Err(fault),
            Ok(header) => if header.length < 48 {
                Err(HeaderError::LengthOutOfBounds)
            } else {
                Ok(Self::laid_out(header, s))
            },
        }
    }

    /// Validates the table at the front of `bytes`, which must carry the
    /// signature of this table, and reads its fixed fields.
    ///
    /// Fails with the fault of the header, or with `LengthOutOfBounds` when
    /// the table declares fewer than 48 bytes.
    pub fn decode(bytes: &[u8]) -> (table: Result<SRAT, HeaderError>)
        ensures
            table == Self::decoded(bytes@),
    {
        let header = match validate(bytes, Some(SRAT_SIGNATURE)) {
            Ok(header) => header,
            Err(fault) => {
                return Err(fault);
            },
        };
        if header.length < 48 {
            return Err(HeaderError::LengthOutOfBounds);
        }
        Ok(SRAT { header })
    }

    /// The bytes of the affinity structures of a table that lies at address
    /// `record_base`.
    pub open spec fn affinity_range(&self, record_base: u64) -> Result<ByteRange, BoundsError> {
        optional_trailer_range(record_base, 48, self.header.length as u64)
    }

    /// Where the list of static resource allocation structures lies: what
    /// follows the 48 bytes of fixed fields of a table at address
    /// `record_base`, up to the length that the table declares. The list may
    /// be empty.
    ///
    /// The list is one of tagged sub-records; a `RecordWalker` over its
    /// bytes hands them out.
    pub fn static_resource_allocation_structure(&self, record_base: u64) -> (list: Result<
        ByteRange,
        BoundsError,
    >)
        ensures
            list == self.affinity_range(record_base),
    {
        optional_trailer_of(record_base, 48, self.header.length as u64)
    }
}

/// The handle of a device, read according to the handle type that stands
/// beside it.
#[derive(Clone, Copy, Debug, PartialEq, Eq)]
pub enum DeviceHandle {
    /// An ACPI device handle (handle type 0).
    Acpi(ACPIDeviceHandle),
    /// A PCI device handle (handle type 1).
    Pci(PCIDeviceHandle),
    /// The 16 bytes of a handle whose type is neither 0 nor 1.
    Unknown {
        /// The handle type as found.
        handle_type: u8,
        /// The bytes of the handle as found.
        raw: [u8; 16],
    },
}

impl DeviceHandle {
    /// The handle of type `handle_type` laid out in the 16 bytes of `s` from
    /// index `at`.
    pub open spec fn laid_out_at(handle_type: u8, s: Seq<u8>, at: int) -> DeviceHandle {
        if handle_type == 0 {
            DeviceHandle::Acpi(ACPIDeviceHandle::laid_out(s.subrange(at, at + 16)))
        } else if handle_type == 1 {
            DeviceHandle::Pci(PCIDeviceHandle::laid_out(s.subrange(at, at + 16)))
        } else {
            DeviceHandle::Unknown {
                handle_type,
                raw: [
                    s[at],
                    s[at + 1],
                    s[at + 2],
                    s[at + 3],
                    s[at + 4],
                    s[at + 5],
                    s[at + 6],
                    s[at + 7],
                    s[at + 8],
                    s[at + 9],
                    s[at + 10],
                    s[at + 11],
                    s[at + 12],
                    s[at + 13],
                    s[at + 14],
                    s[at + 15],
                ],
            }
        }
    }

    /// Reads the handle of type `handle_type` from the 16 bytes of `bytes`
    /// that start at index `at`. The type is looked at first, and the bytes
    /// are read as the type says.
    pub fn decode_at(handle_type: u8, bytes: &[u8], at: usize) -> (handle: DeviceHandle)
        requires
            at + 16 <= bytes.len(),
        ensures
            handle == Self::laid_out_at(handle_type, bytes@, at as int),
    {
        let window: &[u8] = &bytes[at..at + 16];
        if handle_type == 0 {
            DeviceHandle::Acpi(
                ACPIDeviceHandle {
                    acpi_hid: read_u64(window, 0),
                    acpi_uid: read_u32(window, 8),
                },
            )
        } else if handle_type == 1 {
            DeviceHandle::Pci(
                PCIDeviceHandle {
                    pci_segment: read_u16(window, 0),
                    pci_bdf_number: read_u16(window, 2),
                },
            )
        } else {
            DeviceHandle::Unknown {
                handle_type,
                raw: [
                    bytes[at],
                    bytes[at + 1],
                    bytes[at + 2],
                    bytes[at + 3],
                    bytes[at + 4],
                    bytes[at + 5],
                    bytes[at + 6],
                    bytes[at + 7],
                    bytes[at + 8],
                    bytes[at + 9],
                    bytes[at + 10],
                    bytes[at + 11],
                    bytes[at + 12],
                    bytes[at + 13],
                    bytes[at + 14],
                    bytes[at + 15],
                ],
            }
        }
    }
}

} // verus!
