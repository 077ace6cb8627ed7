//! The Differentiated System Description Table.

use vstd::prelude::*;
use crate::header::{validate, validated, HeaderError, SDTHeader};
use crate::range::{optional_trailer_of, optional_trailer_range, BoundsError, ByteRange};

verus! {

/// The signature of the table: the ASCII characters `DSDT`.
pub const DSDT_SIGNATURE: [u8; 4] = [0x44, 0x53, 0x44, 0x54];

/// ## Differentiated System Description Table
///
/// The Differentiated System Description Table (DSDT) is part of the system
/// fixed description. The DSDT is comprised of a system description table
/// header followed by data in Definition Block format. During initialization,
/// OSPM finds the pointer to the DSDT in the Fixed ACPI Description Table
/// (using the FADT's `dsdt` or `x_dsdt` fields) and then loads the DSDT to
/// create the ACPI Namespace.
#[derive(Clone, Copy, Debug, PartialEq, Eq)]
pub struct DifferentiatedSystemDescriptionTable {
    /// - **Signature** - "DSDT"
    /// - **Revision** - This field also sets the global integer width for the
    ///   AML interpreter. Values less than two will cause the interpreter to
    ///   use 32-bit integers and math. Values of two and greater will cause the
    ///   interpreter to use full 64-bit integers and math.
    pub header: SDTHeader,
}

impl DifferentiatedSystemDescriptionTable {
    /// Size in bytes of the fixed fields.
    pub const SIZE: usize = 36;

    /// The table whose validated header is `header` and whose fields are
    /// laid out in `s`.
    pub open spec fn laid_out(header: SDTHeader, s: Seq<u8>) -> DifferentiatedSystemDescriptionTable {
        DifferentiatedSystemDescriptionTable { header }
    }

    /// What decoding the table image `s` yields.
    pub open spec fn decoded(s: Seq<u8>) -> Result<DifferentiatedSystemDescriptionTable, HeaderError> {
        match validated(s, Some(DSDT_SIGNATURE@)) {
            Err(fault) => Err(fault),
            Ok(header) => Ok(Self::laid_out(header, s)),
        }
    }

    /// Validates the table at the front of `bytes`, which must carry the
    /// signature of this table, and reads its fixed fields.
    pub fn decode(bytes: &[u8]) -> (table: Result<DifferentiatedSystemDescriptionTable, HeaderError>)
        ensures
            table == Self::decoded(bytes@),
    {
        let header = match validate(bytes, Some(DSDT_SIGNATURE)) {
            Ok(header) => header,
            Err(fault) => {
                return Err(fault);
            },
        };
        Ok(DifferentiatedSystemDescriptionTable { header })
    }

    /// The bytes of the definition block of a table that lies at address
    /// `record_base`.
    pub open spec fn def_block_range(&self, record_base: u64) -> Result<ByteRange, BoundsError> {
        optional_trailer_range(record_base, 36, self.header.length as u64)
    }

    /// Where the bytes of AML code lie: what follows the header of a table
    /// at address `record_base`, up to the length that the table declares.
    /// The block may be empty.
    pub fn def_block(&self, record_base: u64) -> (block: Result<ByteRange, BoundsError>)
        ensures
            block == self.def_block_range(record_base),
    {
        optional_trailer_of(record_base, 36, self.header.length as u64)
    }
}

} // verus!
