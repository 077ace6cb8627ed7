//! The HW Registers based Communications Subspace Structure (type 5).

use vstd::prelude::*;
use crate::bytes::{le_u16, le_u32, le_u64, read_u16, read_u32, read_u64};
use crate::gas::GenericAddressStructure;
use crate::pcct::subspace::{region_header, region_header_range, region_subspace, region_subspace_range};
use crate::range::{BoundsError, ByteRange};

verus! {

/// ## HW Registers based Communications Subspace Structure (Type 5)
#[derive(Clone, Copy, Debug, PartialEq, Eq)]
pub struct HWRegistersBasedCommunications {
    /// 5
    pub kind: u8,
    /// Length (includes vendor defined area)
    pub length: u8,
    /// 0x0001 (Version 1 of this PCC definition)
    pub version: u16,
    /// Base Address of the shared memory range.
    pub base_address: u64,
    /// Length of the shared memory range. If this length is zero then based
    /// address is ignored.
    pub shared_memory_range_length: u64,
    /// Contains the processor relative address, represented in Generic Address
    /// Structure format, of the PCC doorbell.
    pub doorbell_register: GenericAddressStructure,
    /// Contains a mask of bits to preserve when writing the doorbell register.
    pub doorbell_preserve: u64,
    /// Contains a mask of bits to set when writing the doorbell register. This
    /// is used to send specific commands to the Platform.
    pub doorbell_write: u64,
    /// Contains the processor relative address, represented in Generic Address
    /// Structure format, of Command complete Check register.
    pub command_complete_check_register: GenericAddressStructure,
    /// Contains a mask of bits to query completion status of the previously
    /// issued command from the Command Complete Status Register.
    pub command_complete_check_mask: u64,
    /// Contains the processor relative address, represented in Generic Address
    /// Structure format, of Error Status register.
    pub error_status_register: GenericAddressStructure,
    /// Contains a mask of bits to get error status of the previous command
    /// request from Error Status Register.
    pub error_status_mask: u64,
    /// Expected latency to process a command, in microseconds.
    pub nominal_latency: u32,
    /// The minimum amount of time that OSPM must wait after the completion of a
    /// command before issuing the next command, in microseconds.
    pub min_request_turnaround_time: u32,
}

impl HWRegistersBasedCommunications {
    /// Size in bytes of the fixed fields.
    pub const SIZE: usize = 96;

    /// The structure laid out in the first 96 bytes of `s`.
    pub open spec fn laid_out(s: Seq<u8>) -> HWRegistersBasedCommunications {
        HWRegistersBasedCommunications {
            kind: s[0],
            length: s[1],
            version: le_u16(s, 2) as u16,
            base_address: le_u64(s, 4) as u64,
            shared_memory_range_length: le_u64(s, 12) as u64,
            doorbell_register: GenericAddressStructure::laid_out_at(s, 20),
            doorbell_preserve: le_u64(s, 32) as u64,
            doorbell_write: le_u64(s, 40) as u64,
            command_complete_check_register: GenericAddressStructure::laid_out_at(s, 48),
            command_complete_check_mask: le_u64(s, 60) as u64,
            error_status_register: GenericAddressStructure::laid_out_at(s, 68),
            error_status_mask: le_u64(s, 80) as u64,
            nominal_latency: le_u32(s, 88) as u32,
            min_request_turnaround_time: le_u32(s, 92) as u32,
        }
    }

    /// Reads the structure from the front of `bytes`. Fails only when fewer
    /// than 96 bytes are supplied.
    pub fn decode(bytes: &[u8]) -> (structure: Option<HWRegistersBasedCommunications>)
        ensures
            structure == if bytes@.len() >= 96 {
                Some(Self::laid_out(bytes@))
            } else {
                None
            },
    {
        if bytes.len() < 96 {
            return None;
        }
        Some(
            HWRegistersBasedCommunications {
                kind: bytes[0],
                length: bytes[1],
                version: read_u16(bytes, 2),
                base_address: read_u64(bytes, 4),
                shared_memory_range_length: read_u64(bytes, 12),
                doorbell_register: GenericAddressStructure::decode_at(bytes, 20),
                doorbell_preserve: read_u64(bytes, 32),
                doorbell_write: read_u64(bytes, 40),
                command_complete_check_register: GenericAddressStructure::decode_at(bytes, 48),
                command_complete_check_mask: read_u64(bytes, 60),
                error_status_register: GenericAddressStructure::decode_at(bytes, 68),
                error_status_mask: read_u64(bytes, 80),
                nominal_latency: read_u32(bytes, 88),
                min_request_turnaround_time: read_u32(bytes, 92),
            },
        )
    }

    /// Where the header of the shared memory region lies: the first
    /// 4 bytes at `base_address`, which hold a
    /// `ReducedPCCSubspaceSMR`.
    ///
    /// Fails with `OffsetBeyondLength` when the region is shorter than its
    /// header, and with `AddressOverflow` when the region would run past the
    /// top of the address space.
    pub fn smr(&self) -> (header: Result<ByteRange, BoundsError>)
        ensures
            header == region_header_range(self.base_address, self.shared_memory_range_length, 4),
    {
        region_header(self.base_address, self.shared_memory_range_length, 4)
    }

    /// Where the communication subspace lies: what follows the 4 bytes
    /// of the header in the shared memory region, up to the length of the
    /// region.
    ///
    /// Fails as [`HWRegistersBasedCommunications::smr`] does.
    pub fn communication_subspace(&self) -> (subspace: Result<ByteRange, BoundsError>)
        ensures
            subspace == region_subspace_range(self.base_address, self.shared_memory_range_length, 4),
    {
        region_subspace(self.base_address, self.shared_memory_range_length, 4)
    }
}

} // verus!
