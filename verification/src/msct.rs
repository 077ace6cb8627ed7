//! The Maximum System Characteristics Table.

use vstd::prelude::*;
use crate::bytes::{le_u32, le_u64, read_u32, read_u64};
use crate::header::{validate, validated, HeaderError, SDTHeader};
use crate::range::{as_array, as_elements, at_offset, offset_range, BoundsError, ElementArray};

verus! {

/// The signature of the table: the ASCII characters `MSCT`.
pub const MSCT_SIGNATURE: [u8; 4] = [0x4d, 0x53, 0x43, 0x54];

/// ## Maximum Proximity Domain Information Structure
///
/// The Maximum Proximity Domain Information Structure is used to report
/// system maximum characteristics. It is likely that these characteristics
/// may be the same for many proximity domains, but they can vary from one
/// proximity domain to another. This structure optimizes to cover the
/// former case, while allowing the flexibility for the latter as well.
/// These structures must be organized in ascending order of the proximity
/// domain enumerations. All proximity domains within the Maximum Number of
/// Proximity Domains reported in the MSCT must be covered by one of these
/// structures.
#[derive(Clone, Copy, Debug, PartialEq, Eq)]
pub struct MaximumProximityDomainInformation {
    /// Revision of this structure.
    pub revision: u8,
    /// 22
    pub length: u8,
    /// The starting proximity domain for the proximity domain range that this
    /// structure is providing information.
    pub proximity_domain_range_low: u32,
    /// The ending proximity domain for the proximity domain range that this
    /// structure is providing information.
    pub proximity_domain_range_high: u32,
    /// The Maximum Processor Capacity of each of the Proximity Domains
    /// specified in the range.
    pub max_processor_capacity: u32,
    /// The Maximum Memory Capacity (size in bytes) of the Proximity Domains
    /// specified in the range.
    pub max_memory_capacity: u64,
}

impl MaximumProximityDomainInformation {
    /// Size in bytes of the fixed fields.
    pub const SIZE: usize = 22;

    /// The structure laid out in the first 22 bytes of `s`.
    pub open spec fn laid_out(s: Seq<u8>) -> MaximumProximityDomainInformation {
        MaximumProximityDomainInformation {
            revision: s[0],
            length: s[1],
            proximity_domain_range_low: le_u32(s, 2) as u32,
            proximity_domain_range_high: le_u32(s, 6) as u32,
            max_processor_capacity: le_u32(s, 10) as u32,
            max_memory_capacity: le_u64(s, 14) as u64,
        }
    }

    /// Reads the structure from the front of `bytes`. Fails only when fewer
    /// than 22 bytes are supplied.
    pub fn decode(bytes: &[u8]) -> (structure: Option<MaximumProximityDomainInformation>)
        ensures
            structure == if bytes@.len() >= 22 {
                Some(Self::laid_out(bytes@))
            } else {
                None
            },
    {
        if bytes.len() < 22 {
            return None;
        }
        Some(
            MaximumProximityDomainInformation {
                revision: bytes[0],
                length: bytes[1],
                proximity_domain_range_low: read_u32(bytes, 2),
                proximity_domain_range_high: read_u32(bytes, 6),
                max_processor_capacity: read_u32(bytes, 10),
                max_memory_capacity: read_u64(bytes, 14),
            },
        )
    }
}

/// ## Maximum System Characteristics Table (MSCT)
///
/// This section describes the format of the Maximum System Characteristic
/// Table (MSCT), which provides OSPM with information characteristics of a
/// system's maximum topology capabilities. If the system maximum topology
/// is not known up front at boot time, then this table is not present. OSPM
/// will use information provided by the MSCT only when the System Resource
/// Affinity Table (SRAT) exists. The MSCT must contain all proximity and
/// clock domains defined in the SRAT.
#[derive(Clone, Copy, Debug, PartialEq, Eq)]
pub struct MaximumSystemCharacteristicsTable {
    /// - **Signature** - "MSCT"
    pub header: SDTHeader,
    /// Offset in bytes to the Proximity Domain Information Structure table
    /// entry.
    pub offset_prox_dom_info: u32,
    /// Indicates the maximum number of Proximity Domains ever possible in the
    /// system.
    pub max_number_of_proximity_domains: u32,
    /// Indicates the maximum number of Clock Domains ever possible in the
    /// system.
    pub max_number_of_clock_domains: u32,
    /// Indicates the maximum Physical Address ever possible in the system.
    pub max_physical_address: u64,
}

impl MaximumSystemCharacteristicsTable {
    /// Size in bytes of the fixed fields.
    pub const SIZE: usize = 56;

    /// The table whose validated header is `header` and whose fields are
    /// laid out in `s`.
    pub open spec fn laid_out(header: SDTHeader, s: Seq<u8>) -> MaximumSystemCharacteristicsTable {
        MaximumSystemCharacteristicsTable {
            header,
            offset_prox_dom_info: le_u32(s, 36) as u32,
            max_number_of_proximity_domains: le_u32(s, 40) as u32,
            max_number_of_clock_domains: le_u32(s, 44) as u32,
            max_physical_address: le_u64(s, 48) as u64,
        }
    }

    /// What decoding the table image `s` yields.
    pub open spec fn decoded(s: Seq<u8>) -> Result<MaximumSystemCharacteristicsTable, HeaderError> {
        match validated(s, Some(MSCT_SIGNATURE@)) {
            Err(fault) => Err(fault),
            Ok(header) => if header.length < 56 {
                Err(HeaderError::LengthOutOfBounds)
            } else {
                Ok(Self::laid_out(header, s))
            },
        }
    }

    /// Validates the table at the front of `bytes`, which must carry the
    /// signature of this table, and reads its fixed fields.
    ///
    /// Fails with the fault of the header, or with `LengthOutOfBounds` when
    /// the table declares fewer than 56 bytes.
    pub fn decode(bytes: &[u8]) -> (table: Result<MaximumSystemCharacteristicsTable, HeaderError>)
        ensures
            table == Self::decoded(bytes@),
    {
        let header = match validate(bytes, Some(MSCT_SIGNATURE)) {
            Ok(header) => header,
            Err(fault) => {
                return Err(fault);
            },
        };
        if header.length < 56 {
            return Err(HeaderError::LengthOutOfBounds);
        }
        Ok(
            MaximumSystemCharacteristicsTable {
                header,
                offset_prox_dom_info: read_u32(bytes, 36),
                max_number_of_proximity_domains: read_u32(bytes, 40),
                max_number_of_clock_domains: read_u32(bytes, 44),
                max_physical_address: read_u64(bytes, 48),
            },
        )
    }

    /// The array of Maximum Proximity Domain Information structures of a
    /// table that lies at address `record_base`.
    pub open spec fn proximity_domain_array(&self, record_base: u64) -> Result<
        ElementArray,
        BoundsError,
    > {
        match offset_range(
            record_base,
            self.header.length as u64,
            self.offset_prox_dom_info as u64,
            56,
        ) {
            Ok(part) => as_elements(part, 22),
            Err(fault) => Err(fault),
        }
    }

    /// The Maximum Proximity Domain Information structures of a table that
    /// lies at address `record_base`, as an array of elements of 22 bytes.
    ///
    /// The structures do not follow the fixed fields: they start at the
    /// offset that the table declares, and run to the end of the table.
    /// Fails with `OffsetBeyondLength` when the offset exceeds the length of
    /// the table, with `OffsetBeforeHeader` when it points into the first 56
    /// bytes, and with `MisalignedTrailer` when the bytes from the offset on
    /// are not a whole number of structures.
    pub fn proximity_domain_information(&self, record_base: u64) -> (structures: Result<
        ElementArray,
        BoundsError,
    >)
        ensures
            structures == self.proximity_domain_array(record_base),
    {
        match at_offset(
            record_base,
            self.header.length as u64,
            self.offset_prox_dom_info as u64,
            56,
        ) {
            Ok(part) => as_array::<22>(part),
            Err(fault) => Err(fault),
        }
    }
}

} // verus!
