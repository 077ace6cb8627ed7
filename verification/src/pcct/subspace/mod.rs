//! The subspace structures of the Platform Communications Channel Table and
//! the shared memory regions that they describe.

pub mod extended;
pub mod generic;
pub mod hw_reduced;
pub mod hw_reg;

use vstd::prelude::*;
use vstd::arithmetic::power2::lemma2_to64;
use crate::bits::{bit, bit_at, field, field_at};
use crate::bytes::{le_u16, le_u32, read_u16, read_u32};
use crate::range::{at_offset, offset_range, BoundsError, ByteRange};

verus! {

/// ## Generic Communications Channel Command Field
///
/// For channels of type 0 to 2, this 16-bit field is used to select one of
/// the defined commands for the platform to perform. OSPM is responsible
/// for populating this field before each command invocation.
#[derive(Clone, Copy, Debug, PartialEq, Eq, Structural)]
pub struct GenericCommunicationsChannelCommandField(pub u16);

impl GenericCommunicationsChannelCommandField {
    /// Command code to execute.
    pub fn command(&self) -> (command: u8)
        ensures
            command == field(self.0 as nat, 0, 8),
    {
        let low: u64 = field_at(self.0 as u64, 0, 8);
        proof {
            lemma2_to64();
        }
        low as u8
    }

    /// If set, the platform should generate a Doorbell interrupt at the
    /// completion of this command. The interrupt is an SCI for a Type 0
    /// subspace structure, or as described by the Doorbell Interrupt field for
    /// Type 1 and Type 2 subspace structures. If the Doorbell bit is not set in
    /// the PCC global flags, this bit must be cleared.
    pub fn notify_on_completion(&self) -> (set: bool)
        ensures
            set == bit(self.0 as nat, 15),
    {
        bit_at(self.0 as u128, 15)
    }
}

/// ## Generic Communications Channel Status Field
#[derive(Clone, Copy, Debug, PartialEq, Eq, Structural)]
pub struct GenericCommunicationsChannelStatusField(pub u16);

impl GenericCommunicationsChannelStatusField {
    /// If set, the platform has completed processing the last command.
    pub fn command_complete(&self) -> (set: bool)
        ensures
            set == bit(self.0 as nat, 0),
    {
        bit_at(self.0 as u128, 0)
    }

    /// If set, the platform has issued a Platform Interrupt to this subspace.
    pub fn platform_interrupt(&self) -> (set: bool)
        ensures
            set == bit(self.0 as nat, 1),
    {
        bit_at(self.0 as u128, 1)
    }

    /// If set, an error occurred executing the last command.
    pub fn error(&self) -> (set: bool)
        ensures
            set == bit(self.0 as nat, 2),
    {
        bit_at(self.0 as u128, 2)
    }

    /// If set, indicates the platform is issuing an asynchronous notification
    /// to OSPM.
    pub fn platform_notification(&self) -> (set: bool)
        ensures
            set == bit(self.0 as nat, 3),
    {
        bit_at(self.0 as u128, 3)
    }
}

/// ## Generic Communications Channel Shared Memory Region
#[derive(Clone, Copy, Debug, PartialEq, Eq)]
pub struct GenericCommunicationsChannelSMR {
    /// The PCC signature.
    pub signature: u32,
    /// PCC command field.
    pub command: GenericCommunicationsChannelCommandField,
    /// PCC status field.
    pub status: GenericCommunicationsChannelStatusField,
}

impl GenericCommunicationsChannelSMR {
    /// Size in bytes of the fixed fields.
    pub const SIZE: usize = 8;

    /// The structure laid out in the first 8 bytes of `s`.
    pub open spec fn laid_out(s: Seq<u8>) -> GenericCommunicationsChannelSMR {
        GenericCommunicationsChannelSMR {
            signature: le_u32(s, 0) as u32,
            command: GenericCommunicationsChannelCommandField(le_u16(s, 4) as u16),
            status: GenericCommunicationsChannelStatusField(le_u16(s, 6) as u16),
        }
    }

    /// Reads the structure from the front of `bytes`. Fails only when fewer
    /// than 8 bytes are supplied.
    pub fn decode(bytes: &[u8]) -> (structure: Option<GenericCommunicationsChannelSMR>)
        ensures
            structure == if bytes@.len() >= 8 {
                Some(Self::laid_out(bytes@))
            } else {
                None
            },
    {
        if bytes.len() < 8 {
            return None;
        }
        Some(
            GenericCommunicationsChannelSMR {
                signature: read_u32(bytes, 0),
                command: GenericCommunicationsChannelCommandField(read_u16(bytes, 4)),
                status: GenericCommunicationsChannelStatusField(read_u16(bytes, 6)),
            },
        )
    }
}

/// ## Master Slave Communications Channel Flags
#[derive(Clone, Copy, Debug, PartialEq, Eq, Structural)]
pub struct MasterSlaveCommunicationsChannelFlags(pub u32);

impl MasterSlaveCommunicationsChannelFlags {
    /// For master subspaces this field indicates to the platform that it must
    /// generate an interrupt when the command has completed.
    ///
    /// - Setting this bit to 1 when sending a command, requests that
    ///   completion of the command is signaled via the platform interrupt.
    /// - Setting it to 0 when sending a command, requests that no interrupt
    ///   is asserted when the command is completed.
    pub fn notify_on_completion(&self) -> (set: bool)
        ensures
            set == bit(self.0 as nat, 0),
    {
        bit_at(self.0 as u128, 0)
    }
}

/// ## Extended PCC Subspace Shared Memory Region
#[derive(Clone, Copy, Debug, PartialEq, Eq)]
pub struct MasterSlaveCommunicationsChannelSMR {
    /// The PCC signature.
    pub signature: u32,
    /// Master Slave Communications Channel Flags.
    pub flags: MasterSlaveCommunicationsChannelFlags,
    /// Length of payload being transmitted including command field.
    pub length: u32,
    /// Command being sent over the subspace.
    pub command: u32,
}

impl MasterSlaveCommunicationsChannelSMR {
    /// Size in bytes of the fixed fields.
    pub const SIZE: usize = 16;

    /// The structure laid out in the first 16 bytes of `s`.
    pub open spec fn laid_out(s: Seq<u8>) -> MasterSlaveCommunicationsChannelSMR {
        MasterSlaveCommunicationsChannelSMR {
            signature: le_u32(s, 0) as u32,
            flags: MasterSlaveCommunicationsChannelFlags(le_u32(s, 4) as u32),
            length: le_u32(s, 8) as u32,
            command: le_u32(s, 12) as u32,
        }
    }

    /// Reads the structure from the front of `bytes`. Fails only when fewer
    /// than 16 bytes are supplied.
    pub fn decode(bytes: &[u8]) -> (structure: Option<MasterSlaveCommunicationsChannelSMR>)
        ensures
            structure == if bytes@.len() >= 16 {
                Some(Self::laid_out(bytes@))
            } else {
                None
            },
    {
        if bytes.len() < 16 {
            return None;
        }
        Some(
            MasterSlaveCommunicationsChannelSMR {
                signature: read_u32(bytes, 0),
                flags: MasterSlaveCommunicationsChannelFlags(read_u32(bytes, 4)),
                length: read_u32(bytes, 8),
                command: read_u32(bytes, 12),
            },
        )
    }
}

/// ## Reduced PCC Subspace Shared Memory Region
#[derive(Clone, Copy, Debug, PartialEq, Eq)]
pub struct ReducedPCCSubspaceSMR {
    /// The PCC signature.
    pub signature: u32,
}

impl ReducedPCCSubspaceSMR {
    /// Size in bytes of the fixed fields.
    pub const SIZE: usize = 4;

    /// The structure laid out in the first 4 bytes of `s`.
    pub open spec fn laid_out(s: Seq<u8>) -> ReducedPCCSubspaceSMR {
        ReducedPCCSubspaceSMR {
            signature: le_u32(s, 0) as u32,
        }
    }

    /// Reads the structure from the front of `bytes`. Fails only when fewer
    /// than 4 bytes are supplied.
    pub fn decode(bytes: &[u8]) -> (structure: Option<ReducedPCCSubspaceSMR>)
        ensures
            structure == if bytes@.len() >= 4 {
                Some(Self::laid_out(bytes@))
            } else {
                None
            },
    {
        if bytes.len() < 4 {
            return None;
        }
        Some(
            ReducedPCCSubspaceSMR {
                signature: read_u32(bytes, 0),
            },
        )
    }
}

/// The header of a shared memory region of `header_size` bytes, for a
/// region of `memory_length` bytes at address `base_address`.
pub open spec fn region_header_range(base_address: u64, memory_length: u64, header_size: u64) -> Result<
    ByteRange,
    BoundsError,
> {
    match offset_range(base_address, memory_length, header_size, header_size) {
        Ok(_) => Ok(ByteRange { start: base_address, end: (base_address + header_size) as u64 }),
        Err(fault) => Err(fault),
    }
}

/// What follows the header of `header_size` bytes in a shared memory region
/// of `memory_length` bytes at address `base_address`.
pub open spec fn region_subspace_range(
    base_address: u64,
    memory_length: u64,
    header_size: u64,
) -> Result<ByteRange, BoundsError> {
    offset_range(base_address, memory_length, header_size, header_size)
}

/// Where the header of a shared memory region lies: its first `header_size`
/// bytes.
///
/// The address and the length come from a subspace structure, which
/// firmware wrote. Fails with `OffsetBeyondLength` when the region is
/// shorter than its header, and with `AddressOverflow` when the region
/// would run past the top of the address space.
pub fn region_header(base_address: u64, memory_length: u64, header_size: u64) -> (header: Result<
    ByteRange,
    BoundsError,
>)
    ensures
        header == region_header_range(base_address, memory_length, header_size),
{
    match at_offset(base_address, memory_length, header_size, header_size) {
        Ok(rest) => Ok(ByteRange { start: base_address, end: rest.start }),
        Err(fault) => Err(fault),
    }
}

/// Where the communication subspace of a shared memory region lies: what
/// follows its header of `header_size` bytes, up to the length of the
/// region.
///
/// Fails as [`region_header`] does.
pub fn region_subspace(base_address: u64, memory_length: u64, header_size: u64) -> (subspace:
    Result<ByteRange, BoundsError>)
    ensures
        subspace == region_subspace_range(base_address, memory_length, header_size),
{
    at_offset(base_address, memory_length, header_size, header_size)
}

} // verus!
