//! The Persistent System Description Table.

use vstd::prelude::*;
use crate::header::{validate, validated, HeaderError, SDTHeader};
use crate::range::{optional_trailer_of, optional_trailer_range, BoundsError, ByteRange};

verus! {

/// The signature of the table: the ASCII characters `PSDT`.
pub const PSDT_SIGNATURE: [u8; 4] = [0x50, 0x53, 0x44, 0x54];

/// ## Persistent System Description Table
///
/// OSPM will evaluate a table with the "PSDT" signature in like manner to the
/// evaluation of an SSDT
#[derive(Clone, Copy, Debug, PartialEq, Eq)]
pub struct PersistentSystemDescriptionTable {
    /// - **Signature** - "PSDT"
    pub header: SDTHeader,
}

impl PersistentSystemDescriptionTable {
    /// Size in bytes of the fixed fields.
    pub const SIZE: usize = 36;

    /// The table whose validated header is `header` and whose fields are
    /// laid out in `s`.
    pub open spec fn laid_out(header: SDTHeader, s: Seq<u8>) -> PersistentSystemDescriptionTable {
        PersistentSystemDescriptionTable { header }
    }

    /// What decoding the table image `s` yields.
    pub open spec fn decoded(s: Seq<u8>) -> Result<PersistentSystemDescriptionTable, HeaderError> {
        match validated(s, Some(PSDT_SIGNATURE@)) {
            Err(fault) => Err(fault),
            Ok(header) => Ok(Self::laid_out(header, s)),
        }
    }

    /// Validates the table at the front of `bytes`, which must carry the
    /// signature of this table, and reads its fixed fields.
    pub fn decode(bytes: &[u8]) -> (table: Result<PersistentSystemDescriptionTable, HeaderError>)
        ensures
            table == Self::decoded(bytes@),
    {
        let header = match validate(bytes, Some(PSDT_SIGNATURE)) {
            Ok(header) => header,
            Err(fault) => {
                return Err(fault);
            },
        };
        Ok(PersistentSystemDescriptionTable { header })
    }

    /// The bytes of the definition block of a table that lies at address
    /// `record_base`.
    pub open spec fn def_block_range(&self, record_base: u64) -> Result<ByteRange, BoundsError> {
        optional_trailer_range(record_base, 36, self.header.length as u64)
    }

    /// Where the bytes of AML code lie: what follows the header of a table
    /// at address `record_base`, up to the length that the table declares.
    /// The block may be empty.
    pub fn def_block(&self, record_base: u64) -> (block: Result<ByteRange, BoundsError>)
        ensures
            block == self.def_block_range(record_base),
    {
        optional_trailer_of(record_base, 36, self.header.length as u64)
    }
}

} // verus!
