//! The preamble shared by every system description table, and its validation.

use vstd::prelude::*;
use crate::bytes::{le_u32, read_u32};
use crate::checksum::{
    balancing_byte,
    lemma_balancing_byte_is_unique,
    lemma_single_change_breaks_sum,
    sums_to_zero,
    verify_sum,
};
use crate::range::{Region, RegionView};

verus! {

/// Number of bytes in the fixed header that starts every table.
pub const SDT_HEADER_SIZE: usize = 36;

/// Why a header was refused.
#[derive(Clone, Copy, Debug, PartialEq, Eq, Structural)]
pub enum HeaderError {
    /// Fewer bytes were supplied than the fixed header occupies.
    TooShort,
    /// The signature is not the one the caller asked for.
    SignatureMismatch,
    /// The bytes of the table do not add up to zero modulo 256.
    ChecksumMismatch,
    /// The declared length is smaller than the header or larger than the
    /// bytes supplied.
    LengthOutOfBounds,
}

/// System Description Table Header structure.
///
/// All system description tables begin with this structure. The signature
/// determines the content of the table that follows it.
#[derive(Clone, Copy, Debug, PartialEq, Eq)]
pub struct SDTHeader {
    /// The ASCII string representation of the table identifier.
    pub signature: [u8; 4],
    /// The length of the table, in bytes, including the header, starting from
    /// offset 0.
    pub length: u32,
    /// The revision of the structure corresponding to the signature field for
    /// this table.
    pub revision: u8,
    /// The entire table, including the checksum field, must add to zero to be
    /// considered valid.
    pub checksum: u8,
    /// An OEM-supplied string that identifies the OEM.
    pub oemid: [u8; 6],
    /// An OEM-supplied string that the OEM uses to identify the particular
    /// data table.
    pub oem_table_id: [u8; 8],
    /// An OEM-supplied revision number.
    pub oem_revision: u32,
    /// Vendor ID of the utility that created the table.
    pub creator_id: u32,
    /// Revision of the utility that created the table.
    pub creator_revision: u32,
}

impl SDTHeader {
    /// The header laid out in the first 36 bytes of `s`.
    pub open spec fn decoded(s: Seq<u8>) -> SDTHeader {
        SDTHeader {
            signature: [s[0], s[1], s[2], s[3]],
            length: le_u32(s, 4) as u32,
            revision: s[8],
            checksum: s[9],
            oemid: [s[10], s[11], s[12], s[13], s[14], s[15]],
            oem_table_id: [s[16], s[17], s[18], s[19], s[20], s[21], s[22], s[23]],
            oem_revision: le_u32(s, 24) as u32,
            creator_id: le_u32(s, 28) as u32,
            creator_revision: le_u32(s, 32) as u32,
        }
    }

    /// Reads the header fields from the front of `bytes` without judging
    /// them. Fails only when fewer than 36 bytes are supplied.
    pub fn decode(bytes: &[u8]) -> (header: Option<SDTHeader>)
        ensures
            header == if bytes@.len() >= 36 {
                Some(SDTHeader::decoded(bytes@))
            } else {
                None
            },
    {
        if bytes.len() < SDT_HEADER_SIZE {
            return None;
        }
        Some(
            SDTHeader {
                signature: [bytes[0], bytes[1], bytes[2], bytes[3]],
                length: read_u32(bytes, 4),
                revision: bytes[8],
                checksum: bytes[9],
                oemid: [bytes[10], bytes[11], bytes[12], bytes[13], bytes[14], bytes[15]],
                oem_table_id: [
                    bytes[16],
                    bytes[17],
                    bytes[18],
                    bytes[19],
                    bytes[20],
                    bytes[21],
                    bytes[22],
                    bytes[23],
                ],
                oem_revision: read_u32(bytes, 24),
                creator_id: read_u32(bytes, 28),
                creator_revision: read_u32(bytes, 32),
            },
        )
    }
}

/// The signature a caller asks for, as a sequence of bytes.
pub open spec fn required_view(required_signature: Option<[u8; 4]>) -> Option<Seq<u8>> {
    match required_signature {
        Some(signature) => Some(signature@),
        None => None,
    }
}

/// The first fault found in a table image `s`, if it has one.
///
/// The checks run in a fixed order: enough bytes for a header, the signature
/// where one is asked for, the declared length against the header size and
/// the bytes supplied, and last the checksum over the declared length.
pub open spec fn header_fault(s: Seq<u8>, required: Option<Seq<u8>>) -> Option<HeaderError> {
    if s.len() < 36 {
        Some(HeaderError::TooShort)
    } else if required is Some && required->0 != s.subrange(0, 4) {
        Some(HeaderError::SignatureMismatch)
    } else if le_u32(s, 4) < 36 || le_u32(s, 4) > s.len() {
        Some(HeaderError::LengthOutOfBounds)
    } else if !sums_to_zero(s.subrange(0, le_u32(s, 4))) {
        Some(HeaderError::ChecksumMismatch)
    } else {
        None
    }
}

/// What validating the table image `s` yields.
pub open spec fn validated(s: Seq<u8>, required: Option<Seq<u8>>) -> Result<
    SDTHeader,
    HeaderError,
> {
    match header_fault(s, required) {
        Some(fault) => Err(fault),
        None => Ok(SDTHeader::decoded(s)),
    }
}

/// Whether the table image starts with the four bytes of `signature`.
pub fn has_signature(bytes: &[u8], signature: &[u8; 4]) -> (same: bool)
    requires
        bytes.len() >= 4,
    ensures
        same == (signature@ == bytes@.subrange(0, 4)),
{
    let same = bytes[0] == signature[0] && bytes[1] == signature[1] && bytes[2] == signature[2]
        && bytes[3] == signature[3];
    proof {
        if same {
            assert(signature@ =~= bytes@.subrange(0, 4));
        }
    }
    same
}

/// Validates the table that starts at the front of `bytes` and returns its
/// header.
///
/// `bytes` may extend past the end of the table; only the first
/// `declared length` bytes are read. With `required_signature` given, a table
/// that carries another signature is refused.
pub fn validate(bytes: &[u8], required_signature: Option<[u8; 4]>) -> (outcome: Result<
    SDTHeader,
    HeaderError,
>)
    ensures
        outcome == validated(bytes@, required_view(required_signature)),
{
    if bytes.len() < SDT_HEADER_SIZE {
        return Err(HeaderError::TooShort);
    }
    match required_signature {
        Some(signature) => {
            if !has_signature(bytes, &signature) {
                return Err(HeaderError::SignatureMismatch);
            }
        },
        None => {},
    }
    let length: u32 = read_u32(bytes, 4);
    if length < 36 || length as u64 > bytes.len() as u64 {
        return Err(HeaderError::LengthOutOfBounds);
    }
    if !verify_sum(bytes, 0, length as usize) {
        return Err(HeaderError::ChecksumMismatch);
    }
    match SDTHeader::decode(bytes) {
        Some(header) => Ok(header),
        None => Err(HeaderError::TooShort),
    }
}

/// What looking for a table at address `address` of `region` yields: the
/// header of the table and the bytes that the table declares.
pub open spec fn table_in(region: RegionView, address: u64, required: Option<Seq<u8>>) -> Result<
    (SDTHeader, Seq<u8>),
    HeaderError,
> {
    match region.tail(address) {
        None => Err(HeaderError::TooShort),
        Some(bytes) => match validated(bytes, required) {
            Err(fault) => Err(fault),
            Ok(header) => Ok((header, bytes.subrange(0, header.length as int))),
        },
    }
}

/// Validates the table that lies at address `address` of `region` and
/// returns its header together with its bytes, from its first byte to the
/// length that it declares.
///
/// Fails with `TooShort` when the region does not hold the address, and
/// else as [`validate`] does on the bytes from the address to the end of the
/// region.
pub fn table_at<'a>(region: &Region<'a>, address: u64, required_signature: Option<[u8; 4]>) -> (found:
    Result<(SDTHeader, &'a [u8]), HeaderError>)
    ensures
        match found {
            Ok((header, bytes)) => table_in(region@, address, required_view(required_signature))
                == Ok::<(SDTHeader, Seq<u8>), HeaderError>((header, bytes@)),
            Err(fault) => table_in(region@, address, required_view(required_signature))
                == Err::<(SDTHeader, Seq<u8>), HeaderError>(fault),
        },
{
    let bytes: &'a [u8] = match region.tail(address) {
        Some(bytes) => bytes,
        None => {
            return Err(HeaderError::TooShort);
        },
    };
    match validate(bytes, required_signature) {
        Ok(header) => {
            let table: &'a [u8] = &bytes[0..header.length as usize];
            Ok((header, table))
        },
        Err(fault) => Err(fault),
    }
}

/// Whether `s` is long enough for a header, carries the signature asked for
/// and declares a length that lies within the bytes supplied. Only the
/// checksum remains to be judged.
pub open spec fn well_framed(s: Seq<u8>, required: Option<Seq<u8>>) -> bool {
    &&& s.len() >= 36
    &&& required is Some ==> required->0 == s.subrange(0, 4)
    &&& 36 <= le_u32(s, 4) <= s.len()
}

/// A well-framed table is accepted exactly when the bytes it declares add up
/// to zero modulo 256, and is refused for its checksum otherwise.
pub proof fn lemma_valid_iff_sum_is_zero(s: Seq<u8>, required: Option<Seq<u8>>)
    requires
        well_framed(s, required),
    ensures
        validated(s, required) is Ok <==> sums_to_zero(s.subrange(0, le_u32(s, 4))),
        validated(s, required) is Err ==> validated(s, required) == Err::<SDTHeader, HeaderError>(
            HeaderError::ChecksumMismatch,
        ),
{
}

/// Changing any single byte of an accepted table, within its declared length,
/// makes validation fail with `ChecksumMismatch`.
///
/// Two kinds of byte are left out, because another check speaks first: the
/// four bytes of the length field, and the signature where the caller asks
/// for one.
pub proof fn lemma_corruption_is_detected(
    s: Seq<u8>,
    required: Option<Seq<u8>>,
    at: int,
    value: u8,
)
    requires
        validated(s, required) is Ok,
        0 <= at < le_u32(s, 4),
        value != s[at],
        !(4 <= at < 8),
        required is Some ==> at >= 4,
    ensures
        validated(s.update(at, value), required) == Err::<SDTHeader, HeaderError>(
            HeaderError::ChecksumMismatch,
        ),
{
    let t = s.update(at, value);
    let length = le_u32(s, 4);
    if at >= 4 {
        assert(t.subrange(0, 4) =~= s.subrange(0, 4));
    }
    assert(t.subrange(0, length) =~= s.subrange(0, length).update(at, value));
    lemma_single_change_breaks_sum(s.subrange(0, length), at, value);
}

/// Validation looks at no byte past the length that the table declares: two
/// images that hold the same well-framed table at their front are judged
/// alike, whatever follows the table in each.
pub proof fn lemma_validation_ignores_what_follows(
    s: Seq<u8>,
    t: Seq<u8>,
    required: Option<Seq<u8>>,
)
    requires
        s.len() >= 36,
        36 <= le_u32(s, 4) <= s.len(),
        le_u32(s, 4) <= t.len(),
        t.subrange(0, le_u32(s, 4)) == s.subrange(0, le_u32(s, 4)),
    ensures
        validated(t, required) == validated(s, required),
{
    let length = le_u32(s, 4);
    assert forall|i: int| 0 <= i < length implies s[i] == t[i] by {
        assert(t[i] == t.subrange(0, length)[i]);
    }
    assert(t.subrange(0, 4) =~= s.subrange(0, 4));
}

/// Storing the balancing byte in the checksum field of a well-framed table
/// makes it valid, and changes no header field but the checksum. Any other
/// value in that field is refused with `ChecksumMismatch`.
pub proof fn lemma_checksum_round_trip(s: Seq<u8>, required: Option<Seq<u8>>, value: u8)
    requires
        well_framed(s, required),
    ensures
        ({
            let balance = balancing_byte(s.subrange(0, le_u32(s, 4)), 9);
            let outcome = validated(s.update(9, value), required);
            &&& 0 <= balance < 256
            &&& value == balance ==> outcome == Ok::<SDTHeader, HeaderError>(
                SDTHeader { checksum: value, ..SDTHeader::decoded(s) },
            )
            &&& value != balance ==> outcome == Err::<SDTHeader, HeaderError>(
                HeaderError::ChecksumMismatch,
            )
        }),
{
    let t = s.update(9, value);
    let length = le_u32(s, 4);
    assert(t.subrange(0, 4) =~= s.subrange(0, 4));
    assert(t.subrange(0, length) =~= s.subrange(0, length).update(9, value));
    lemma_balancing_byte_is_unique(s.subrange(0, length), 9, value);
}

} // verus!
