//! The System Locality Information Table.

use vstd::prelude::*;
use crate::bytes::{le_u64, read_u64};
use crate::header::{validate, validated, HeaderError, SDTHeader};
use crate::range::{BoundsError, ByteRange};

verus! {

/// The signature of the table: the ASCII characters `SLIT`.
pub const SLIT_SIGNATURE: [u8; 4] = [0x53, 0x4c, 0x49, 0x54];

/// ## System Locality Information Table (SLIT)
///
/// This optional table provides a matrix that describes the relative
/// distance (memory latency) between all System Localities, which are also
/// referred to as Proximity Domains. Systems employing a Non Uniform Memory
/// Access (NUMA) architecture contain collections of hardware resources
/// including for example, processors, memory, and I/O buses, that comprise
/// what is known as a "NUMA node". Processor accesses to memory or I/O
/// resources within the local NUMA node is generally faster than processor
/// accesses to memory or I/O resources outside of the local NUMA node.
#[derive(Clone, Copy, Debug, PartialEq, Eq)]
pub struct SystemLocalityInformationTable {
    /// - **Signature** - "SLIT"
    pub header: SDTHeader,
    /// Indicates the number of System Localities in the system.
    pub system_localities_num: u64,
}

impl SystemLocalityInformationTable {
    /// Size in bytes of the fixed fields.
    pub const SIZE: usize = 44;

    /// The table whose validated header is `header` and whose fields are
    /// laid out in `s`.
    pub open spec fn laid_out(header: SDTHeader, s: Seq<u8>) -> SystemLocalityInformationTable {
        SystemLocalityInformationTable {
            header,
            system_localities_num: le_u64(s, 36) as u64,
        }
    }

    /// What decoding the table image `s` yields.
    pub open spec fn decoded(s: Seq<u8>) -> Result<SystemLocalityInformationTable, HeaderError> {
        match validated(s, Some(SLIT_SIGNATURE@)) {
            Err(fault) => Err(fault),
            Ok(header) => if header.length < 44 {
                Err(HeaderError::LengthOutOfBounds)
            } else {
                Ok(Self::laid_out(header, s))
            },
        }
    }

    /// Validates the table at the front of `bytes`, which must carry the
    /// signature of this table, and reads its fixed fields.
    ///
    /// Fails with the fault of the header, or with `LengthOutOfBounds` when
    /// the table declares fewer than 44 bytes.
    pub fn decode(bytes: &[u8]) -> (table: Result<SystemLocalityInformationTable, HeaderError>)
        ensures
            table == Self::decoded(bytes@),
    {
        let header = match validate(bytes, Some(SLIT_SIGNATURE)) {
            Ok(header) => header,
            Err(fault) => {
                return Err(fault);
            },
        };
        if header.length < 44 {
            return Err(HeaderError::LengthOutOfBounds);
        }
        Ok(
            SystemLocalityInformationTable {
                header,
                system_localities_num: read_u64(bytes, 36),
            },
        )
    }

    /// The bytes of the matrix of a table that lies at address
    /// `record_base`: one byte for each pair of localities, after the 44
    /// bytes of fixed fields.
    pub open spec fn matrix_range(&self, record_base: u64) -> Result<ByteRange, BoundsError> {
        let localities = self.system_localities_num as int;
        if 44 + localities * localities > self.header.length {
            Err(BoundsError::OffsetBeyondLength)
        } else if record_base + self.header.length > u64::MAX {
            Err(BoundsError::AddressOverflow)
        } else {
            Ok(
                ByteRange {
                    start: (record_base + 44) as u64,
                    end: (record_base + 44 + localities * localities) as u64,
                },
            )
        }
    }

    /// Where the matrix of relative distances lies, as one flat run of
    /// bytes: the distance from locality `i` to locality `j` is byte
    /// `i * N + j` of it, where `N` is the number of localities.
    ///
    /// Fails with `OffsetBeyondLength` when the matrix would reach past the
    /// length that the table declares.
    pub fn entries_flat(&self, record_base: u64) -> (matrix: Result<ByteRange, BoundsError>)
        ensures
            matrix == self.matrix_range(record_base),
    {
        let localities: u64 = self.system_localities_num;
        let length: u64 = self.header.length as u64;
        if localities > 0xFFFF {
            proof {
                assert(localities * localities >= 0x1_0000 * 0x1_0000) by (nonlinear_arith)
                    requires
                        localities >= 0x1_0000,
                ;
            }
            return Err(BoundsError::OffsetBeyondLength);
        }
        assert(localities * localities <= 0xFFFF * 0xFFFF) by (nonlinear_arith)
            requires
                localities <= 0xFFFF,
        ;
        let cells: u64 = localities * localities;
        if 44 + cells > length {
            return Err(BoundsError::OffsetBeyondLength);
        }
        if length > u64::MAX - record_base {
            return Err(BoundsError::AddressOverflow);
        }
        Ok(ByteRange { start: record_base + 44, end: record_base + 44 + cells })
    }
}

} // verus!
