//! The Extended System Description Table.

use vstd::prelude::*;
use crate::bytes::{le_u64, read_u64};
use crate::header::{validate, validated, HeaderError, SDTHeader};
use crate::range::{
    as_array,
    as_elements,
    optional_trailer_of,
    optional_trailer_range,
    BoundsError,
    ElementArray,
    Region,
};

verus! {

/// The signature of the table: the ASCII characters `XSDT`.
pub const XSDT_SIGNATURE: [u8; 4] = [0x58, 0x53, 0x44, 0x54];

/// Size in bytes of one entry of the table.
pub const XSDT_ENTRY_SIZE: usize = 8;

/// ## Extended System Description Table structure.
///
/// The header is followed by an array of 64-bit physical addresses that point
/// to other system description tables.
#[derive(Clone, Copy, Debug, PartialEq, Eq)]
pub struct ExtendedSystemDescriptionTable {
    /// - **Signature** - "XSDT"
    /// - **Revision** - 1
    /// - **OEM Table ID** - For the XSDT, the table ID is the manufacture
    ///   model ID.
    pub header: SDTHeader,
}

impl ExtendedSystemDescriptionTable {
    /// What decoding the table image `s` yields.
    pub open spec fn decoded(s: Seq<u8>) -> Result<ExtendedSystemDescriptionTable, HeaderError> {
        match validated(s, Some(XSDT_SIGNATURE@)) {
            Ok(header) => Ok(ExtendedSystemDescriptionTable { header }),
            Err(fault) => Err(fault),
        }
    }

    /// The array of entries of a table that lies at address `record_base`.
    pub open spec fn entry_array(&self, record_base: u64) -> Result<ElementArray, BoundsError> {
        match optional_trailer_range(record_base, 36, self.header.length as u64) {
            Ok(trailer) => as_elements(trailer, 8),
            Err(fault) => Err(fault),
        }
    }

    /// Validates the table at the front of `bytes`, which must carry the
    /// signature `XSDT`.
    pub fn decode(bytes: &[u8]) -> (table: Result<ExtendedSystemDescriptionTable, HeaderError>)
        ensures
            table == Self::decoded(bytes@),
    {
        match validate(bytes, Some(XSDT_SIGNATURE)) {
            Ok(header) => Ok(ExtendedSystemDescriptionTable { header }),
            Err(fault) => Err(fault),
        }
    }

    /// The array of 64-bit entries that follows the header of a table that
    /// lies at address `record_base`.
    ///
    /// The table may hold no entry at all. Fails with `MisalignedTrailer`
    /// when the bytes after the header are not a whole number of entries.
    pub fn entry(&self, record_base: u64) -> (entries: Result<ElementArray, BoundsError>)
        ensures
            entries == self.entry_array(record_base),
    {
        match optional_trailer_of(record_base, 36, self.header.length as u64) {
            Ok(trailer) => as_array::<XSDT_ENTRY_SIZE>(trailer),
            Err(fault) => Err(fault),
        }
    }

    /// The physical address held by entry `index` of a table that lies at
    /// address `record_base` of `region`, or `None` when the table has no
    /// such entry or the region does not hold it.
    pub fn entry_at(&self, region: &Region<'_>, record_base: u64, index: u64) -> (address: Option<
        u64,
    >)
        ensures
            match address {
                Some(value) => {
                    &&& self.entry_array(record_base) matches Ok(array)
                    &&& index < array.spec_count()
                    &&& region@.window(array.spec_element(index as int)) matches Some(bytes)
                    &&& value == le_u64(bytes, 0)
                },
                None => self.entry_array(record_base) matches Ok(array) ==> index
                    >= array.spec_count() || region@.window(array.spec_element(index as int))
                    is None,
            },
    {
        match self.entry(record_base) {
            Ok(array) => match region.element(&array, index) {
                Some(bytes) => Some(read_u64(bytes, 0)),
                None => None,
            },
            Err(_) => None,
        }
    }
}

} // verus!
