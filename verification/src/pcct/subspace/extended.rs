//! The Extended PCC subspaces (types 3 and 4).

use vstd::prelude::*;
use crate::bytes::{le_u32, le_u64, read_u32, read_u64};
use crate::gas::GenericAddressStructure;
use crate::pcct::subspace::{region_header, region_header_range, region_subspace, region_subspace_range};
use crate::range::{BoundsError, ByteRange};

verus! {

/// ## Extended PCC subspaces (types 3 and 4)
///
/// Extended PCC communication subspaces are of two types:
#[derive(Clone, Copy, Debug, PartialEq, Eq)]
pub struct ExtendedPCC {
    /// - **3** - Master subspace
    /// - **4** - Slave subspace
    pub kind: u8,
    /// 164
    pub length: u8,
    /// GSIV of an interrupt triggered by the platform:
    ///
    /// - For master subspaces (type 3) this is raised when a command is
    ///   completed on this subspace.
    /// - For slave subspaces (type 4) this is raised when platform sends a
    ///   notification.
    pub platform_interrupt: u32,
    /// - **Bit 0** - Platform interrupt polarity
    ///   - 1: Interrupt is Active low
    ///   - 0: Interrupt is Active high
    /// - **Bit 1** - Platform interrupt mode
    ///   - 1: Interrupt is Edge triggered
    ///   - 0: Interrupt is Level triggered
    pub platform_interrupt_flags: u8,
    /// Base Address of the shared memory range.
    pub base_address: u64,
    /// Length of the memory range. Must be >= 16.
    pub memory_length: u32,
    /// Contains the processor relative address, represented in Generic Address
    /// Structure (GAS) format, of the PCC doorbell.
    pub doorbell_register: GenericAddressStructure,
    /// Contains a mask of bits to preserve when writing the doorbell register.
    pub doorbell_preserve: u64,
    /// Contains a mask of bits to set when writing the doorbell register.
    pub doorbell_write: u64,
    /// Expected latency to process a command, in microseconds.
    pub nominal_latency: u32,
    /// The maximum number of periodic requests that the subspace subspace can
    /// support, reported in commands per minute.
    pub max_periodic_access_rate: u32,
    /// The minimum amount of time that OSPM must wait after the completion of a
    /// command before issuing the next command, in microseconds.
    pub min_request_turnaround_time: u32,
    /// Contains the processor relative address, represented in Generic Address
    /// Structure (GAS) format, of the platform interrupt acknowledge register.
    pub platform_interrupt_ack_register: GenericAddressStructure,
    /// Contains a mask of bits to preserve when writing the platform interrupt
    /// ack register.
    pub platform_interrupt_ack_preserve: u64,
    /// Contains a mask of bits to set when writing the platform interrupt ack
    /// register.
    pub platform_interrupt_ack_set: u64,
    /// Contains the processor relative address, represented in Generic Address
    /// Structure (GAS) format, of the Command complete check register.
    pub command_complete_check_register_address: GenericAddressStructure,
    /// Mask to determine whether a command is complete, using the command
    /// complete check register.
    pub command_complete_check_mask: u64,
    /// Contains the processor relative address, represented in Generic Address
    /// Structure (GAS) format, of the command complete update register.
    pub command_complete_update_register: GenericAddressStructure,
    /// Mask of bits to preserve in the command complete update register, when
    /// updating command complete in this subspace.
    pub command_complete_update_preserve_mask: u64,
    /// Mask of bits to set in the command complete update register, when
    /// updating command complete in this subspace.
    pub command_complete_update_set_mask: u64,
    /// Contains the processor relative address, represented in Generic Address
    /// Structure (GAS) format, of the Error status register. This field is
    /// ignored by the OSPM on slave channels.
    pub error_status_register: GenericAddressStructure,
    /// The mask contained here can be combined through a logical AND with
    /// content of the Error status register to ascertain whether an error
    /// occurred in the transmission of the command through the subspace. The
    /// logical NOT of this mask is be used to clear the error. The inverted
    /// mask is combined through a logical AND with the content of the Error
    /// status register, and the result is written back into said register. This
    /// field is ignored for slave channels.
    pub error_status_mask: u64,
}

impl ExtendedPCC {
    /// Size in bytes of the fixed fields.
    pub const SIZE: usize = 164;

    /// The structure laid out in the first 164 bytes of `s`.
    pub open spec fn laid_out(s: Seq<u8>) -> ExtendedPCC {
        ExtendedPCC {
            kind: s[0],
            length: s[1],
            platform_interrupt: le_u32(s, 2) as u32,
            platform_interrupt_flags: s[6],
            base_address: le_u64(s, 8) as u64,
            memory_length: le_u32(s, 16) as u32,
            doorbell_register: GenericAddressStructure::laid_out_at(s, 20),
            doorbell_preserve: le_u64(s, 32) as u64,
            doorbell_write: le_u64(s, 40) as u64,
            nominal_latency: le_u32(s, 48) as u32,
            max_periodic_access_rate: le_u32(s, 52) as u32,
            min_request_turnaround_time: le_u32(s, 56) as u32,
            platform_interrupt_ack_register: GenericAddressStructure::laid_out_at(s, 60),
            platform_interrupt_ack_preserve: le_u64(s, 72) as u64,
            platform_interrupt_ack_set: le_u64(s, 80) as u64,
            command_complete_check_register_address: GenericAddressStructure::laid_out_at(s, 96),
            command_complete_check_mask: le_u64(s, 108) as u64,
            command_complete_update_register: GenericAddressStructure::laid_out_at(s, 116),
            command_complete_update_preserve_mask: le_u64(s, 128) as u64,
            command_complete_update_set_mask: le_u64(s, 136) as u64,
            error_status_register: GenericAddressStructure::laid_out_at(s, 144),
            error_status_mask: le_u64(s, 156) as u64,
        }
    }

    /// Reads the structure from the front of `bytes`. Fails only when fewer
    /// than 164 bytes are supplied.
    pub fn decode(bytes: &[u8]) -> (structure: Option<ExtendedPCC>)
        ensures
            structure == if bytes@.len() >= 164 {
                Some(Self::laid_out(bytes@))
            } else {
                None
            },
    {
        if bytes.len() < 164 {
            return None;
        }
        Some(
            ExtendedPCC {
                kind: bytes[0],
                length: bytes[1],
                platform_interrupt: read_u32(bytes, 2),
                platform_interrupt_flags: bytes[6],
                base_address: read_u64(bytes, 8),
                memory_length: read_u32(bytes, 16),
                doorbell_register: GenericAddressStructure::decode_at(bytes, 20),
                doorbell_preserve: read_u64(bytes, 32),
                doorbell_write: read_u64(bytes, 40),
                nominal_latency: read_u32(bytes, 48),
                max_periodic_access_rate: read_u32(bytes, 52),
                min_request_turnaround_time: read_u32(bytes, 56),
                platform_interrupt_ack_register: GenericAddressStructure::decode_at(bytes, 60),
                platform_interrupt_ack_preserve: read_u64(bytes, 72),
                platform_interrupt_ack_set: read_u64(bytes, 80),
                command_complete_check_register_address: GenericAddressStructure::decode_at(bytes, 96),
                command_complete_check_mask: read_u64(bytes, 108),
                command_complete_update_register: GenericAddressStructure::decode_at(bytes, 116),
                command_complete_update_preserve_mask: read_u64(bytes, 128),
                command_complete_update_set_mask: read_u64(bytes, 136),
                error_status_register: GenericAddressStructure::decode_at(bytes, 144),
                error_status_mask: read_u64(bytes, 156),
            },
        )
    }

    /// Where the header of the shared memory region lies: the first
    /// 16 bytes at `base_address`, which hold a
    /// `MasterSlaveCommunicationsChannelSMR`.
    ///
    /// Fails with `OffsetBeyondLength` when the region is shorter than its
    /// header, and with `AddressOverflow` when the region would run past the
    /// top of the address space.
    pub fn smr(&self) -> (header: Result<ByteRange, BoundsError>)
        ensures
            header == region_header_range(self.base_address, self.memory_length as u64, 16),
    {
        region_header(self.base_address, self.memory_length as u64, 16)
    }

    /// Where the communication subspace lies: what follows the 16 bytes
    /// of the header in the shared memory region, up to the length of the
    /// region.
    ///
    /// Fails as [`ExtendedPCC::smr`] does.
    pub fn communication_subspace(&self) -> (subspace: Result<ByteRange, BoundsError>)
        ensures
            subspace == region_subspace_range(self.base_address, self.memory_length as u64, 16),
    {
        region_subspace(self.base_address, self.memory_length as u64, 16)
    }
}

} // verus!
