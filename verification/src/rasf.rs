//! The ACPI RAS Feature Table and its communication channel.

use vstd::prelude::*;
use crate::bits::{bit, bit_at};
use crate::bytes::{le_u128, le_u16, le_u32, read_u128, read_u16, read_u32};
use crate::header::{validate, validated, HeaderError, SDTHeader};
use crate::pcct::subspace::{
    region_subspace,
    region_subspace_range,
    GenericCommunicationsChannelCommandField,
    GenericCommunicationsChannelStatusField,
};
use crate::range::{BoundsError, ByteRange};

verus! {

/// The signature of the table: the ASCII characters `RASF`.
pub const RASF_SIGNATURE: [u8; 4] = [0x52, 0x41, 0x53, 0x46];

/// ## Platform RAS Capabilities Bitmap
#[derive(Clone, Copy, Debug, PartialEq, Eq, Structural)]
pub struct RASCapabilities(pub u128);

impl RASCapabilities {
    /// Indicates that the platform supports hardware based patrol scrub of DRAM
    /// memory
    pub fn hardware_based_patrol_scrub_support(&self) -> (set: bool)
        ensures
            set == bit(self.0 as nat, 0),
    {
        bit_at(self.0 as u128, 0)
    }

    /// Indicates that the platform supports hardware based patrol scrub of DRAM
    /// memory and platform exposes this capability to software using this RASF
    /// mechanism
    pub fn hardware_based_patrol_scrub_support_and_exposed_to_software(&self) -> (set: bool)
        ensures
            set == bit(self.0 as nat, 1),
    {
        bit_at(self.0 as u128, 1)
    }
}

/// ## RASF Platform Communication Channel Shared Memory Region
#[derive(Clone, Copy, Debug, PartialEq, Eq)]
pub struct RASFCommunicationChannelSMR {
    /// The PCC Signature of 0x52415346 (corresponds to ASCII signature of RASF)
    pub signature: u32,
    /// PCC command field.
    pub command: GenericCommunicationsChannelCommandField,
    /// PCC status field.
    pub status: GenericCommunicationsChannelStatusField,
    /// - **Byte 0** - Minor Version
    /// - **Byte 1** - Major Version
    pub version: u16,
    /// Bit Map describing the platform RAS capabilities as shown in Platform
    /// RAS Capabilities.
    pub ras_capabilites: RASCapabilities,
    /// Bit Map of the RAS features for which the OSPM is invoking the command.
    pub set_ras_capabilities: RASCapabilities,
    /// The Number of parameter blocks will depend on how many RAS Capabilities
    /// the Platform Supports.
    pub rasf_parameter_block_num: u16,
    /// - **0b0000** - Success
    /// - **0b0001** - Not Valid
    /// - **0b0010** - Not Supported
    /// - **0b0011** - Busy
    /// - **0b0100** - FailedF
    /// - **0b0101** - Aborted
    /// - **0b0110** - Invalid Data
    pub set_ras_capabilities_status: u32,
}

impl RASFCommunicationChannelSMR {
    /// Size in bytes of the fixed fields.
    pub const SIZE: usize = 48;

    /// The structure laid out in the first 48 bytes of `s`.
    pub open spec fn laid_out(s: Seq<u8>) -> RASFCommunicationChannelSMR {
        RASFCommunicationChannelSMR {
            signature: le_u32(s, 0) as u32,
            command: GenericCommunicationsChannelCommandField(le_u16(s, 4) as u16),
            status: GenericCommunicationsChannelStatusField(le_u16(s, 6) as u16),
            version: le_u16(s, 8) as u16,
            ras_capabilites: RASCapabilities(le_u128(s, 10) as u128),
            set_ras_capabilities: RASCapabilities(le_u128(s, 26) as u128),
            rasf_parameter_block_num: le_u16(s, 42) as u16,
            set_ras_capabilities_status: le_u32(s, 44) as u32,
        }
    }

    /// Reads the structure from the front of `bytes`. Fails only when fewer
    /// than 48 bytes are supplied.
    pub fn decode(bytes: &[u8]) -> (structure: Option<RASFCommunicationChannelSMR>)
        ensures
            structure == if bytes@.len() >= 48 {
                Some(Self::laid_out(bytes@))
            } else {
                None
            },
    {
        if bytes.len() < 48 {
            return None;
        }
        Some(
            RASFCommunicationChannelSMR {
                signature: read_u32(bytes, 0),
                command: GenericCommunicationsChannelCommandField(read_u16(bytes, 4)),
                status: GenericCommunicationsChannelStatusField(read_u16(bytes, 6)),
                version: read_u16(bytes, 8),
                ras_capabilites: RASCapabilities(read_u128(bytes, 10)),
                set_ras_capabilities: RASCapabilities(read_u128(bytes, 26)),
                rasf_parameter_block_num: read_u16(bytes, 42),
                set_ras_capabilities_status: read_u32(bytes, 44),
            },
        )
    }

    /// Where the parameter blocks lie: what follows the 48 bytes of fixed
    /// fields in the shared memory region of `memory_length` bytes at
    /// `base_address`, which the subspace structure of the channel gives.
    ///
    /// Fails with `OffsetBeyondLength` when the region is shorter than the
    /// fixed fields, and with `AddressOverflow` when the region would run
    /// past the top of the address space.
    pub fn parameter_blocks(&self, base_address: u64, memory_length: u64) -> (blocks: Result<
        ByteRange,
        BoundsError,
    >)
        ensures
            blocks == region_subspace_range(base_address, memory_length, 48),
    {
        region_subspace(base_address, memory_length, 48)
    }
}

/// ## ACPI RAS Feature Table (RASF)
#[derive(Clone, Copy, Debug, PartialEq, Eq)]
pub struct RASF {
    /// - **Signature** - "RASF"
    pub header: SDTHeader,
    /// Identifier of the RASF Platform Communication Channel.
    pub rasf_platform_communication_channel_id: [u8; 12],
}

impl RASF {
    /// Size in bytes of the fixed fields.
    pub const SIZE: usize = 48;

    /// The table whose validated header is `header` and whose fields are
    /// laid out in `s`.
    pub open spec fn laid_out(header: SDTHeader, s: Seq<u8>) -> RASF {
        RASF {
            header,
            rasf_platform_communication_channel_id: [
                s[36],
                s[37],
                s[38],
                s[39],
                s[40],
                s[41],
                s[42],
                s[43],
                s[44],
                s[45],
                s[46],
                s[47],
            ],
        }
    }

    /// What decoding the table image `s` yields.
    pub open spec fn decoded(s: Seq<u8>) -> Result<RASF, HeaderError> {
        match validated(s, Some(RASF_SIGNATURE@)) {
            Err(fault) => Err(fault),
            Ok(header) => if header.length < 48 {
                Err(HeaderError::LengthOutOfBounds)
            } else {
                Ok(Self::laid_out(header, s))
            },
        }
    }

    /// Validates the table at the front of `bytes`, which must carry the
    /// signature of this table, and reads its fixed fields.
    ///
    /// Fails with the fault of the header, or with `LengthOutOfBounds` when
    /// the table declares fewer than 48 bytes.
    pub fn decode(bytes: &[u8]) -> (table: Result<RASF, HeaderError>)
        ensures
            table == Self::decoded(bytes@),
    {
        let header = match validate(bytes, Some(RASF_SIGNATURE)) {
            Ok(header) => header,
            Err(fault) => {
                return Err(fault);
            },
        };
        if header.length < 48 {
            return Err(HeaderError::LengthOutOfBounds);
        }
        Ok(
            RASF {
                header,
                rasf_platform_communication_channel_id: [
                    bytes[36],
                    bytes[37],
                    bytes[38],
                    bytes[39],
                    bytes[40],
                    bytes[41],
                    bytes[42],
                    bytes[43],
                    bytes[44],
                    bytes[45],
                    bytes[46],
                    bytes[47],
                ],
            },
        )
    }
}

} // verus!
