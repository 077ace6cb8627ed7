//! The Platform Communications Channel Table.

pub mod subspace;

use vstd::prelude::*;
use crate::bits::{bit, bit_at};
use crate::bytes::{le_u32, read_u32};
use crate::header::{validate, validated, HeaderError, SDTHeader};
use crate::range::{optional_trailer_of, optional_trailer_range, BoundsError, ByteRange};

verus! {

/// The signature of the table: the ASCII characters `PCCT`.
pub const PCCT_SIGNATURE: [u8; 4] = [0x50, 0x43, 0x43, 0x54];

/// ## Platform Communications Channel Global Flags
#[derive(Clone, Copy, Debug, PartialEq, Eq, Structural)]
pub struct PCCGlobalFlags(pub u32);

impl PCCGlobalFlags {
    /// If set, the platform is capable of generating an interrupt to indicate
    /// completion of a command.
    pub fn platform_interrupt(&self) -> (set: bool)
        ensures
            set == bit(self.0 as nat, 0),
    {
        bit_at(self.0 as u128, 0)
    }
}

/// ## Platform Communications Channel (PCC)
///
/// The platform communication channel (PCC) is a generic mechanism for OSPM
/// to communicate with an entity in the platform (e.g. a platform
/// controller, or a Baseboard Management Controller (BMC)). Neither the
/// entity that OSPM communicates with, nor any aspects of the information
/// passed back and forth is defined in this section. That information is
/// defined by the actual interface that that employs PCC register address
/// space as the communication channel.
#[derive(Clone, Copy, Debug, PartialEq, Eq)]
pub struct PlatformCommunicationsChannel {
    /// - **Signature** - "PCCT"
    pub header: SDTHeader,
    /// Platform Communications Channel Global flags.
    pub flags: PCCGlobalFlags,
}

impl PlatformCommunicationsChannel {
    /// Size in bytes of the fixed fields.
    pub const SIZE: usize = 48;

    /// The table whose validated header is `header` and whose fields are
    /// laid out in `s`.
    pub open spec fn laid_out(header: SDTHeader, s: Seq<u8>) -> PlatformCommunicationsChannel {
        PlatformCommunicationsChannel {
            header,
            flags: PCCGlobalFlags(le_u32(s, 36) as u32),
        }
    }

    /// What decoding the table image `s` yields.
    pub open spec fn decoded(s: Seq<u8>) -> Result<PlatformCommunicationsChannel, HeaderError> {
        match validated(s, Some(PCCT_SIGNATURE@)) {
            Err(fault) => Err(fault),
            Ok(header) => if header.length < 48 {
                Err(HeaderError::LengthOutOfBounds)
            } else {
                Ok(Self::laid_out(header, s))
            },
        }
    }

    /// Validates the table at the front of `bytes`, which must carry the
    /// signature of this table, and reads its fixed fields.
    ///
    /// Fails with the fault of the header, or with `LengthOutOfBounds` when
    /// the table declares fewer than 48 bytes.
    pub fn decode(bytes: &[u8]) -> (table: Result<PlatformCommunicationsChannel, HeaderError>)
        ensures
            table == Self::decoded(bytes@),
    {
        let header = match validate(bytes, Some(PCCT_SIGNATURE)) {
            Ok(header) => header,
            Err(fault) => {
                return Err(fault);
            },
        };
        if header.length < 48 {
            return Err(HeaderError::LengthOutOfBounds);
        }
        Ok(
            PlatformCommunicationsChannel {
                header,
                flags: PCCGlobalFlags(read_u32(bytes, 36)),
            },
        )
    }

    /// The bytes of the subspace structures of a table that lies at address
    /// `record_base`.
    pub open spec fn subspace_range(&self, record_base: u64) -> Result<ByteRange, BoundsError> {
        optional_trailer_range(record_base, 48, self.header.length as u64)
    }

    /// Where the list of PCC subspace structures lies: what follows the 48
    /// bytes of fixed fields of a table at address `record_base`, up to the
    /// length that the table declares. The list may be empty.
    ///
    /// The list is one of tagged sub-records; a `RecordWalker` over its
    /// bytes hands them out.
    pub fn pcc_subspace_structure(&self, record_base: u64) -> (list: Result<
        ByteRange,
        BoundsError,
    >)
        ensures
            list == self.subspace_range(record_base),
    {
        optional_trailer_of(record_base, 48, self.header.length as u64)
    }
}

} // verus!
