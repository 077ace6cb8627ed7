//! The Corrected Platform Error Polling Table.

use vstd::prelude::*;
use crate::bytes::{le_u32, read_u32};
use crate::header::{validate, validated, HeaderError, SDTHeader};
use crate::range::{as_array, as_elements, optional_trailer_of, optional_trailer_range, BoundsError, ElementArray};

verus! {

/// The signature of the table: the ASCII characters `CPEP`.
pub const CPEP_SIGNATURE: [u8; 4] = [0x43, 0x50, 0x45, 0x50];

/// ## Corrected Platform Error Polling Processor Structure
#[derive(Clone, Copy, Debug, PartialEq, Eq)]
pub struct CorrectedPlatformErrorPollingProcessor {
    /// 0 - Corrected Platform Error Polling Processor structure for APIC/SAPIC
    /// based processors
    pub kind: u8,
    /// 8
    pub length: u8,
    /// Processor ID of destination.
    pub processor_id: u8,
    /// Processor EID of destination.
    pub processor_eid: u8,
    /// Platform-suggested polling interval (in milliseconds).
    pub polling_interval: u32,
}

impl CorrectedPlatformErrorPollingProcessor {
    /// Size in bytes of the fixed fields.
    pub const SIZE: usize = 8;

    /// The structure laid out in the first 8 bytes of `s`.
    pub open spec fn laid_out(s: Seq<u8>) -> CorrectedPlatformErrorPollingProcessor {
        CorrectedPlatformErrorPollingProcessor {
            kind: s[0],
            length: s[1],
            processor_id: s[2],
            processor_eid: s[3],
            polling_interval: le_u32(s, 4) as u32,
        }
    }

    /// Reads the structure from the front of `bytes`. Fails only when fewer
    /// than 8 bytes are supplied.
    pub fn decode(bytes: &[u8]) -> (structure: Option<CorrectedPlatformErrorPollingProcessor>)
        ensures
            structure == if bytes@.len() >= 8 {
                Some(Self::laid_out(bytes@))
            } else {
                None
            },
    {
        if bytes.len() < 8 {
            return None;
        }
        Some(
            CorrectedPlatformErrorPollingProcessor {
                kind: bytes[0],
                length: bytes[1],
                processor_id: bytes[2],
                processor_eid: bytes[3],
                polling_interval: read_u32(bytes, 4),
            },
        )
    }
}

/// ## Corrected Platform Error Polling Table (CPEP)
///
/// Platforms may contain the ability to detect and correct certain
/// operational errors while maintaining platform function. These errors may
/// be logged by the platform for the purpose of retrieval. Depending on the
/// underlying hardware support, the means for retrieving corrected platform
/// error information varies. If the platform hardware supports interrupt-
/// based signaling of corrected platform errors, the MADT Platform
/// Interrupt Source Structure describes the Corrected Platform Error
/// Interrupt (CPEI). Alternatively, OSPM may poll processors for corrected
/// platform error information. Error log information retrieved from a
/// processor may contain information for all processors within an error
/// reporting group. As such, it may not be necessary for OSPM to poll all
/// processors in the system to retrieve complete error information. This
/// optional table provides information that allows OSPM to poll only the
/// processors necessary for a complete report of the platform's corrected
/// platform error information.
#[derive(Clone, Copy, Debug, PartialEq, Eq)]
pub struct CorrectedPlatformErrorPolling {
    /// - **Signature** - "CPEP"
    pub header: SDTHeader,
}

impl CorrectedPlatformErrorPolling {
    /// Size in bytes of the fixed fields.
    pub const SIZE: usize = 44;

    /// The table whose validated header is `header` and whose fields are
    /// laid out in `s`.
    pub open spec fn laid_out(header: SDTHeader, s: Seq<u8>) -> CorrectedPlatformErrorPolling {
        CorrectedPlatformErrorPolling { header }
    }

    /// What decoding the table image `s` yields.
    pub open spec fn decoded(s: Seq<u8>) -> Result<CorrectedPlatformErrorPolling, HeaderError> {
        match validated(s, Some(CPEP_SIGNATURE@)) {
            Err(fault) => Err(fault),
            Ok(header) => if header.length < 44 {
                Err(HeaderError::LengthOutOfBounds)
            } else {
                Ok(Self::laid_out(header, s))
            },
        }
    }

    /// Validates the table at the front of `bytes`, which must carry the
    /// signature of this table, and reads its fixed fields.
    ///
    /// Fails with the fault of the header, or with `LengthOutOfBounds` when
    /// the table declares fewer than 44 bytes.
    pub fn decode(bytes: &[u8]) -> (table: Result<CorrectedPlatformErrorPolling, HeaderError>)
        ensures
            table == Self::decoded(bytes@),
    {
        let header = match validate(bytes, Some(CPEP_SIGNATURE)) {
            Ok(header) => header,
            Err(fault) => {
                return Err(fault);
            },
        };
        if header.length < 44 {
            return Err(HeaderError::LengthOutOfBounds);
        }
        Ok(CorrectedPlatformErrorPolling { header })
    }

    /// The array of processor structures of a table that lies at address
    /// `record_base`.
    pub open spec fn processor_array(&self, record_base: u64) -> Result<ElementArray, BoundsError> {
        match optional_trailer_range(record_base, 44, self.header.length as u64) {
            Ok(trailer) => as_elements(trailer, 8),
            Err(fault) => Err(fault),
        }
    }

    /// The Corrected Platform Error Polling Processor structures of a table
    /// that lies at address `record_base`, as an array of elements of 8
    /// bytes. The array may be empty.
    ///
    /// Fails with `MisalignedTrailer` when the bytes after the fixed fields
    /// are not a whole number of structures.
    pub fn cpep_processor_structures(&self, record_base: u64) -> (structures: Result<
        ElementArray,
        BoundsError,
    >)
        ensures
            structures == self.processor_array(record_base),
    {
        match optional_trailer_of(record_base, 44, self.header.length as u64) {
            Ok(trailer) => as_array::<8>(trailer),
            Err(fault) => Err(fault),
        }
    }
}

} // verus!
