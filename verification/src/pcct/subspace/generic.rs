//! The Generic Communications Subspace Structure (type 0).

use vstd::prelude::*;
use crate::bytes::{le_u16, le_u32, le_u64, read_u16, read_u32, read_u64};
use crate::gas::GenericAddressStructure;
use crate::pcct::subspace::{region_header, region_header_range, region_subspace, region_subspace_range};
use crate::range::{BoundsError, ByteRange};

verus! {

/// ## Generic Communications Subspace Structure (type 0)
#[derive(Clone, Copy, Debug, PartialEq, Eq)]
pub struct GenericCommunications {
    /// 0 - Generic Communications Subspace
    pub kind: u8,
    /// 62
    pub length: u8,
    /// Base Address of the shared memory range.
    pub base_address: u64,
    /// Length of the memory range. Must be > 8.
    pub memory_length: u64,
    /// Contains the processor relative address, represented in Generic Address
    /// Structure format, of the PCC doorbell.
    pub doorbell_register: GenericAddressStructure,
    /// Contains a mask of bits to preserve when writing the doorbell register.
    pub doorbell_preserve: u64,
    /// Contains a mask of bits to set when writing the doorbell register.
    pub doorbell_write: u64,
    /// Expected latency to process a command, in microseconds.
    pub nominal_latency: u32,
    /// The maximum number of periodic requests that the subspace channel can
    /// support, reported in commands per minute.
    pub max_periodic_access_rate: u32,
    /// The minimum amount of time that OSPM must wait after the completion of a
    /// command before issuing the next command, in microseconds.
    pub min_request_turnaround_time: u16,
}

impl GenericCommunications {
    /// Size in bytes of the fixed fields.
    pub const SIZE: usize = 62;

    /// The structure laid out in the first 62 bytes of `s`.
    pub open spec fn laid_out(s: Seq<u8>) -> GenericCommunications {
        GenericCommunications {
            kind: s[0],
            length: s[1],
            base_address: le_u64(s, 8) as u64,
            memory_length: le_u64(s, 16) as u64,
            doorbell_register: GenericAddressStructure::laid_out_at(s, 24),
            doorbell_preserve: le_u64(s, 36) as u64,
            doorbell_write: le_u64(s, 44) as u64,
            nominal_latency: le_u32(s, 52) as u32,
            max_periodic_access_rate: le_u32(s, 56) as u32,
            min_request_turnaround_time: le_u16(s, 60) as u16,
        }
    }

    /// Reads the structure from the front of `bytes`. Fails only when fewer
    /// than 62 bytes are supplied.
    pub fn decode(bytes: &[u8]) -> (structure: Option<GenericCommunications>)
        ensures
            structure == if bytes@.len() >= 62 {
                Some(Self::laid_out(bytes@))
            } else {
                None
            },
    {
        if bytes.len() < 62 {
            return None;
        }
        Some(
            GenericCommunications {
                kind: bytes[0],
                length: bytes[1],
                base_address: read_u64(bytes, 8),
                memory_length: read_u64(bytes, 16),
                doorbell_register: GenericAddressStructure::decode_at(bytes, 24),
                doorbell_preserve: read_u64(bytes, 36),
                doorbell_write: read_u64(bytes, 44),
                nominal_latency: read_u32(bytes, 52),
                max_periodic_access_rate: read_u32(bytes, 56),
                min_request_turnaround_time: read_u16(bytes, 60),
            },
        )
    }

    /// Where the header of the shared memory region lies: the first
    /// 8 bytes at `base_address`, which hold a
    /// `GenericCommunicationsChannelSMR`.
    ///
    /// Fails with `OffsetBeyondLength` when the region is shorter than its
    /// header, and with `AddressOverflow` when the region would run past the
    /// top of the address space.
    pub fn smr(&self) -> (header: Result<ByteRange, BoundsError>)
        ensures
            header == region_header_range(self.base_address, self.memory_length, 8),
    {
        region_header(self.base_address, self.memory_length, 8)
    }

    /// Where the communication subspace lies: what follows the 8 bytes
    /// of the header in the shared memory region, up to the length of the
    /// region.
    ///
    /// Fails as [`GenericCommunications::smr`] does.
    pub fn comm_space(&self) -> (subspace: Result<ByteRange, BoundsError>)
        ensures
            subspace == region_subspace_range(self.base_address, self.memory_length, 8),
    {
        region_subspace(self.base_address, self.memory_length, 8)
    }
}

} // verus!
