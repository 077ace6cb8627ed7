//! The Embedded Controller Boot Resources Table.

use vstd::prelude::*;
use crate::bytes::{le_u32, read_u32};
use crate::gas::GenericAddressStructure;
use crate::header::{validate, validated, HeaderError, SDTHeader};
use crate::range::{trailer_of, trailer_range, BoundsError, ByteRange};

verus! {

/// The signature of the table: the ASCII characters `ECDT`.
pub const ECDT_SIGNATURE: [u8; 4] = [0x45, 0x43, 0x44, 0x54];

/// ## Embedded Controller Boot Resources Table (ECDT)
///
/// This optional table provides the processor-relative, translated
/// resources of an Embedded Controller. The presence of this table allows
/// OSPM to provide Embedded Controller operation region space access before
/// the namespace has been evaluated. If this table is not provided, the
/// Embedded Controller region space will not be available until the
/// Embedded Controller device in the AML namespace has been discovered and
/// enumerated. The availability of the region space can be detected by
/// providing a _REG method object underneath the Embedded Controller
/// device.
#[derive(Clone, Copy, Debug, PartialEq, Eq)]
pub struct EmbeddedControllerBootResourcesTable {
    /// - **Signature** - "ECDT"
    pub header: SDTHeader,
    /// Contains the processor relative address, represented in Generic Address
    /// Structure format, of the Embedded Controller Command/Status register.
    pub ec_control: GenericAddressStructure,
    /// Contains the processor-relative address, represented in Generic Address
    /// Structure format, of the Embedded Controller Data register.
    pub ec_data: GenericAddressStructure,
    /// Unique ID-Same as the value returned by the _UID under the device in the
    /// namespace that represents this embedded controller.
    pub uid: u32,
    /// The bit assignment of the SCI interrupt within the GPEx_STS register of
    /// a GPE block described in the FADT that the embedded controller triggers.
    pub gpe_bit: u8,
}

impl EmbeddedControllerBootResourcesTable {
    /// Size in bytes of the fixed fields.
    pub const SIZE: usize = 65;

    /// The table whose validated header is `header` and whose fields are
    /// laid out in `s`.
    pub open spec fn laid_out(header: SDTHeader, s: Seq<u8>) -> EmbeddedControllerBootResourcesTable {
        EmbeddedControllerBootResourcesTable {
            header,
            ec_control: GenericAddressStructure::laid_out_at(s, 36),
            ec_data: GenericAddressStructure::laid_out_at(s, 48),
            uid: le_u32(s, 60) as u32,
            gpe_bit: s[64],
        }
    }

    /// What decoding the table image `s` yields.
    pub open spec fn decoded(s: Seq<u8>) -> Result<EmbeddedControllerBootResourcesTable, HeaderError> {
        match validated(s, Some(ECDT_SIGNATURE@)) {
            Err(fault) => Err(fault),
            Ok(header) => if header.length < 65 {
                Err(HeaderError::LengthOutOfBounds)
            } else {
                Ok(Self::laid_out(header, s))
            },
        }
    }

    /// Validates the table at the front of `bytes`, which must carry the
    /// signature of this table, and reads its fixed fields.
    ///
    /// Fails with the fault of the header, or with `LengthOutOfBounds` when
    /// the table declares fewer than 65 bytes.
    pub fn decode(bytes: &[u8]) -> (table: Result<EmbeddedControllerBootResourcesTable, HeaderError>)
        ensures
            table == Self::decoded(bytes@),
    {
        let header = match validate(bytes, Some(ECDT_SIGNATURE)) {
            Ok(header) => header,
            Err(fault) => {
                return Err(fault);
            },
        };
        if header.length < 65 {
            return Err(HeaderError::LengthOutOfBounds);
        }
        Ok(
            EmbeddedControllerBootResourcesTable {
                header,
                ec_control: GenericAddressStructure::decode_at(bytes, 36),
                ec_data: GenericAddressStructure::decode_at(bytes, 48),
                uid: read_u32(bytes, 60),
                gpe_bit: bytes[64],
            },
        )
    }

    /// The bytes of the name of the embedded controller of a table that
    /// lies at address `record_base`.
    pub open spec fn ec_id_range(&self, record_base: u64) -> Result<ByteRange, BoundsError> {
        trailer_range(record_base, 65, self.header.length as u64)
    }

    /// Where the name of the embedded controller lies: what follows the 65
    /// bytes of fixed fields of a table at address `record_base`, up to the
    /// length that the table declares. The name is stored as ASCII and ends
    /// with a null byte, so it is never empty.
    pub fn ec_id(&self, record_base: u64) -> (name: Result<ByteRange, BoundsError>)
        ensures
            name == self.ec_id_range(record_base),
    {
        trailer_of(record_base, 65, self.header.length as u64)
    }
}

} // verus!
