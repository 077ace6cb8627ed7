//! The Firmware ACPI Control Structure.

use vstd::prelude::*;
use crate::bits::{bit, bit_at};
use crate::bytes::{le_u32, le_u64, read_u32, read_u64};
use crate::header::{has_signature, HeaderError};
use crate::range::{BoundsError, ByteRange};

verus! {

/// The signature of the structure: the ASCII characters `FACS`.
pub const FACS_SIGNATURE: [u8; 4] = [0x46, 0x41, 0x43, 0x53];

/// ## Firmware Control Structure Feature Flags
#[derive(Clone, Copy, Debug, PartialEq, Eq, Structural)]
pub struct FACSFlags(pub u32);

impl FACSFlags {
    /// Indicates whether the platform supports S4BIOS_REQ.
    pub fn s4bios_f(&self) -> (set: bool)
        ensures
            set == bit(self.0 as nat, 0),
    {
        bit_at(self.0 as u128, 0)
    }

    /// Indicates that the platform firmware supports a 64 bit execution
    /// environment for the waking vector.
    pub fn _64bit_wake_supported_f(&self) -> (set: bool)
        ensures
            set == bit(self.0 as nat, 1),
    {
        bit_at(self.0 as u128, 1)
    }
}

/// ## OSPM Enabled Firmware Control Structure Feature Flags
#[derive(Clone, Copy, Debug, PartialEq, Eq, Structural)]
pub struct OEFACSFlags(pub u32);

impl OEFACSFlags {
    /// OSPM sets this bit to indicate to platform firmware that the
    /// X_Firmware_Waking_Vector requires a 64 bit execution environment.
    pub fn _64bit_wake_f(&self) -> (set: bool)
        ensures
            set == bit(self.0 as nat, 0),
    {
        bit_at(self.0 as u128, 0)
    }
}

/// ## Global Lock Structure within the FACS
#[derive(Clone, Copy, Debug, PartialEq, Eq, Structural)]
pub struct FACSGlobalLock(pub u32);

impl FACSGlobalLock {
    /// Non-zero indicates that a request for ownership of the Global Lock is
    /// pending.
    pub fn pending(&self) -> (set: bool)
        ensures
            set == bit(self.0 as nat, 0),
    {
        bit_at(self.0 as u128, 0)
    }

    /// Non-zero indicates that the Global Lock is Owned.
    pub fn owned(&self) -> (set: bool)
        ensures
            set == bit(self.0 as nat, 1),
    {
        bit_at(self.0 as u128, 1)
    }
}

/// The Firmware ACPI Control Structure (FACS) is a structure in read/write
/// memory that the platform boot firmware reserves for ACPI usage.
///
/// This structure is optional if and only if the HARDWARE_REDUCED_ACPI flag
/// in the FADT is set. The FACS is passed to an ACPI-compatible OS using
/// the FADT.
#[derive(Clone, Copy, Debug, PartialEq, Eq)]
pub struct FirmwareACPIControl {
    /// "FACS"
    pub signature: [u8; 4],
    /// Length, in bytes, of the entire Firmware ACPI Control Structure. This
    /// value is 64 bytes or larger.
    pub length: u32,
    /// The value of the system's "hardware signature at current boot." The only
    /// thing that determines the hardware signature is the ACPI tables. If any
    /// content or structure of the ACPI tables has changed, including adding or
    /// removing of tables, then the hardware signature must change.
    pub hardware_signature: [u8; 4],
    /// The 32-bit address field where OSPM puts its waking vector.
    pub firmware_waking_vector: u32,
    /// This field contains the Global Lock used to synchronize access to shared
    /// hardware resources between the OSPM environment and an external
    /// controller environment (for example, the SMI environment).
    pub global_lock: u32,
    /// Firmware control structure feature flags.
    pub flags: FACSFlags,
    /// 64-bit physical address of OSPM's Waking Vector.
    pub x_firmware_waking_vector: u64,
    /// 3-Version of this table.
    pub version: u8,
    /// OSPM enabled firmware control structure flags. Platform firmware must
    /// initialize this field to zero.
    pub ospem_flags: u32,
}

impl FirmwareACPIControl {
    /// Size in bytes of the fixed fields.
    pub const SIZE: usize = 64;

    /// The structure laid out in the first 64 bytes of `s`.
    pub open spec fn laid_out(s: Seq<u8>) -> FirmwareACPIControl {
        FirmwareACPIControl {
            signature: [s[0], s[1], s[2], s[3]],
            length: le_u32(s, 4) as u32,
            hardware_signature: [s[8], s[9], s[10], s[11]],
            firmware_waking_vector: le_u32(s, 12) as u32,
            global_lock: le_u32(s, 16) as u32,
            flags: FACSFlags(le_u32(s, 20) as u32),
            x_firmware_waking_vector: le_u64(s, 24) as u64,
            version: s[32],
            ospem_flags: le_u32(s, 36) as u32,
        }
    }

    /// The first fault found in the structure image `s`, if it has one:
    /// fewer than 64 bytes, another signature than `FACS`, or a declared
    /// length below 64 or above the bytes supplied. The structure carries no
    /// checksum.
    pub open spec fn fault(s: Seq<u8>) -> Option<HeaderError> {
        if s.len() < 64 {
            Some(HeaderError::TooShort)
        } else if s.subrange(0, 4) != FACS_SIGNATURE@ {
            Some(HeaderError::SignatureMismatch)
        } else if le_u32(s, 4) < 64 || le_u32(s, 4) > s.len() {
            Some(HeaderError::LengthOutOfBounds)
        } else {
            None
        }
    }

    /// What decoding the structure image `s` yields.
    pub open spec fn decoded(s: Seq<u8>) -> Result<FirmwareACPIControl, HeaderError> {
        match Self::fault(s) {
            Some(fault) => Err(fault),
            None => Ok(Self::laid_out(s)),
        }
    }

    /// Validates the structure at the front of `bytes` and reads its fields.
    ///
    /// The value of `global_lock` is what the memory held when it was read.
    /// Firmware may change it at any time: see
    /// [`FirmwareACPIControl::atomic_global_lock`].
    pub fn decode(bytes: &[u8]) -> (structure: Result<FirmwareACPIControl, HeaderError>)
        ensures
            structure == Self::decoded(bytes@),
    {
        if bytes.len() < 64 {
            return Err(HeaderError::TooShort);
        }
        if !has_signature(bytes, &FACS_SIGNATURE) {
            return Err(HeaderError::SignatureMismatch);
        }
        let length: u32 = read_u32(bytes, 4);
        if length < 64 || length as u64 > bytes.len() as u64 {
            return Err(HeaderError::LengthOutOfBounds);
        }
        Ok(
            FirmwareACPIControl {
                signature: [bytes[0], bytes[1], bytes[2], bytes[3]],
                length,
                hardware_signature: [bytes[8], bytes[9], bytes[10], bytes[11]],
                firmware_waking_vector: read_u32(bytes, 12),
                global_lock: read_u32(bytes, 16),
                flags: FACSFlags(read_u32(bytes, 20)),
                x_firmware_waking_vector: read_u64(bytes, 24),
                version: bytes[32],
                ospem_flags: read_u32(bytes, 36),
            },
        )
    }

    /// The four bytes of the Global Lock of a structure that lies at
    /// address `record_base`.
    pub open spec fn global_lock_range(record_base: u64) -> Result<ByteRange, BoundsError> {
        if record_base + 20 > u64::MAX {
            Err(BoundsError::AddressOverflow)
        } else {
            Ok(ByteRange { start: (record_base + 16) as u64, end: (record_base + 20) as u64 })
        }
    }

    /// Where the Global Lock lies: the four bytes at offset 16 of a
    /// structure at address `record_base`.
    ///
    /// The lock is shared with firmware, which changes it while the
    /// operating system runs. Whoever takes or releases the lock must read
    /// and write the 32-bit word at this place atomically, and must not rely
    /// on the value that `decode` has read.
    pub fn atomic_global_lock(&self, record_base: u64) -> (word: Result<ByteRange, BoundsError>)
        ensures
            word == Self::global_lock_range(record_base),
    {
        if record_base > u64::MAX - 20 {
            Err(BoundsError::AddressOverflow)
        } else {
            Ok(ByteRange { start: record_base + 16, end: record_base + 20 })
        }
    }

    /// The Global Lock as it was when the structure was read.
    pub fn global_lock_snapshot(&self) -> (lock: FACSGlobalLock)
        ensures
            lock == FACSGlobalLock(self.global_lock),
    {
        FACSGlobalLock(self.global_lock)
    }

    /// The flags that the operating system has set, as a typed value.
    pub fn ospm_flags(&self) -> (flags: OEFACSFlags)
        ensures
            flags == OEFACSFlags(self.ospem_flags),
    {
        OEFACSFlags(self.ospem_flags)
    }
}

} // verus!
