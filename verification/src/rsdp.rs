//! The Root System Description Pointer, from which all tables are reached.

use vstd::prelude::*;
use crate::bytes::{le_u32, le_u64, read_u32, read_u64};
use crate::checksum::{sums_to_zero, verify_sum};
use crate::header::{has_signature, table_at, validated, HeaderError};
use crate::range::{Region, RegionView};
use crate::rsdt::{RootSystemDescriptionTable, RSDT_SIGNATURE};
use crate::xsdt::{ExtendedSystemDescriptionTable, XSDT_SIGNATURE};

verus! {

/// Size in bytes of the structure that the first version of the standard
/// defines.
pub const RSDP_V1_SIZE: usize = 20;

/// Size in bytes of the structure from the second version on.
pub const RSDP_V2_SIZE: usize = 36;

/// The signature of the structure: the ASCII characters `RSD PTR `, with
/// the trailing blank.
pub const RSDP_SIGNATURE: [u8; 8] = [0x52, 0x53, 0x44, 0x20, 0x50, 0x54, 0x52, 0x20];

/// Why a root pointer could not be resolved.
#[derive(Clone, Copy, Debug, PartialEq, Eq, Structural)]
pub enum RootPointerError {
    /// Fewer bytes were supplied than the structure occupies, or the memory
    /// at the address of the root table holds less than a table header.
    TooShort,
    /// The structure does not start with `RSD PTR `, or the table it points
    /// at is not the root table that its revision calls for.
    SignatureMismatch,
    /// The first 20 bytes, the whole structure, or the root table do not add
    /// up to zero modulo 256.
    ChecksumMismatch,
    /// The structure or the root table declares a length that is too small
    /// or that reaches past the bytes supplied.
    LengthOutOfBounds,
    /// The revision calls for the extended fields, and the bytes supplied
    /// end before them.
    UnsupportedRevision,
}

impl RootPointerError {
    /// The fault of the root pointer that stands for a fault found in the
    /// header of the root table.
    pub open spec fn of_header(fault: HeaderError) -> RootPointerError {
        match fault {
            HeaderError::TooShort => RootPointerError::TooShort,
            HeaderError::SignatureMismatch => RootPointerError::SignatureMismatch,
            HeaderError::ChecksumMismatch => RootPointerError::ChecksumMismatch,
            HeaderError::LengthOutOfBounds => RootPointerError::LengthOutOfBounds,
        }
    }

    /// The fault of the root pointer that stands for a fault found in the
    /// header of the root table.
    pub fn from_header(fault: HeaderError) -> (lifted: RootPointerError)
        ensures
            lifted == Self::of_header(fault),
    {
        match fault {
            HeaderError::TooShort => RootPointerError::TooShort,
            HeaderError::SignatureMismatch => RootPointerError::SignatureMismatch,
            HeaderError::ChecksumMismatch => RootPointerError::ChecksumMismatch,
            HeaderError::LengthOutOfBounds => RootPointerError::LengthOutOfBounds,
        }
    }
}

/// ## Root System Description Pointer structure.
///
/// During initialization the operating system obtains this structure from
/// the platform, and reaches the Root System Description Table or the
/// Extended System Description Table through the address it holds.
///
/// The revision alone tells which layout is in memory. With a revision below
/// 2 the structure ends after `rsdt_address`; the three fields after it are
/// then not read and hold zero.
#[derive(Clone, Copy, Debug, PartialEq, Eq)]
pub struct RootSystemDescriptionPointer {
    /// "RSD PTR ", with the trailing blank character.
    pub signature: [u8; 8],
    /// Checksum of the first 20 bytes of the structure, which must sum to
    /// zero.
    pub checksum: u8,
    /// An OEM-supplied string that identifies the OEM.
    pub oemid: [u8; 6],
    /// The revision of this structure. It is zero in the first version of the
    /// standard. Larger revision numbers are backward compatible to lower
    /// ones.
    pub revision: u8,
    /// 32 bit physical address of the RSDT.
    pub rsdt_address: u32,
    /// The length of the structure in bytes. Only from revision 2 on.
    pub length: u32,
    /// 64 bit physical address of the XSDT. Only from revision 2 on.
    pub xsdt_address: u64,
    /// Checksum of the entire structure, both checksum fields included.
    /// Only from revision 2 on.
    pub extended_checksum: u8,
}

/// The root table that a root pointer leads to, with its address.
#[allow(inconsistent_fields)]
#[derive(Clone, Copy, Debug, PartialEq, Eq)]
pub enum RootTable {
    /// A table whose entries are 32-bit addresses, reached through
    /// `rsdt_address`.
    Rsdt {
        /// Address of the table.
        address: u32,
        /// The validated table.
        table: RootSystemDescriptionTable,
    },
    /// A table whose entries are 64-bit addresses, reached through
    /// `xsdt_address`.
    Xsdt {
        /// Address of the table.
        address: u64,
        /// The validated table.
        table: ExtendedSystemDescriptionTable,
    },
}

/// The first fault found in the root pointer image `s`, if it has one.
///
/// The checks run in a fixed order: 20 bytes at least, the signature, the
/// checksum of the first 20 bytes; then, from revision 2 on, 36 bytes at
/// least, the declared length against 36 and the bytes supplied, and the
/// checksum over the declared length.
pub open spec fn root_pointer_fault(s: Seq<u8>) -> Option<RootPointerError> {
    if s.len() < 20 {
        Some(RootPointerError::TooShort)
    } else if s.subrange(0, 8) != RSDP_SIGNATURE@ {
        Some(RootPointerError::SignatureMismatch)
    } else if !sums_to_zero(s.subrange(0, 20)) {
        Some(RootPointerError::ChecksumMismatch)
    } else if s[15] < 2 {
        None
    } else if s.len() < 36 {
        Some(RootPointerError::UnsupportedRevision)
    } else if le_u32(s, 20) < 36 || le_u32(s, 20) > s.len() {
        Some(RootPointerError::LengthOutOfBounds)
    } else if !sums_to_zero(s.subrange(0, le_u32(s, 20))) {
        Some(RootPointerError::ChecksumMismatch)
    } else {
        None
    }
}

impl RootSystemDescriptionPointer {
    /// The fields laid out in `s`. No byte from index 20 on is looked at
    /// unless the revision at index 15 is 2 or more.
    pub open spec fn laid_out(s: Seq<u8>) -> RootSystemDescriptionPointer {
        RootSystemDescriptionPointer {
            signature: [s[0], s[1], s[2], s[3], s[4], s[5], s[6], s[7]],
            checksum: s[8],
            oemid: [s[9], s[10], s[11], s[12], s[13], s[14]],
            revision: s[15],
            rsdt_address: le_u32(s, 16) as u32,
            length: if s[15] < 2 {
                0
            } else {
                le_u32(s, 20) as u32
            },
            xsdt_address: if s[15] < 2 {
                0
            } else {
                le_u64(s, 24) as u64
            },
            extended_checksum: if s[15] < 2 {
                0
            } else {
                s[32]
            },
        }
    }

    /// What decoding the root pointer image `s` yields.
    pub open spec fn decoded(s: Seq<u8>) -> Result<RootSystemDescriptionPointer, RootPointerError> {
        match root_pointer_fault(s) {
            Some(fault) => Err(fault),
            None => Ok(Self::laid_out(s)),
        }
    }

    /// Whether the structure has the layout of the first version of the
    /// standard, which ends after `rsdt_address`.
    pub open spec fn spec_is_first_version(&self) -> bool {
        self.revision < 2
    }

    /// Whether the structure has the layout of the first version of the
    /// standard, which ends after `rsdt_address`.
    #[verifier::when_used_as_spec(spec_is_first_version)]
    pub fn is_first_version(&self) -> (first: bool)
        ensures
            first == self.spec_is_first_version(),
    {
        self.revision < 2
    }

    /// The address of the root table that the revision selects:
    /// `rsdt_address` below revision 2, `xsdt_address` from revision 2 on.
    pub open spec fn spec_root_table_address(&self) -> u64 {
        if self.revision < 2 {
            self.rsdt_address as u64
        } else {
            self.xsdt_address
        }
    }

    /// The address of the root table that the revision selects:
    /// `rsdt_address` below revision 2, `xsdt_address` from revision 2 on.
    #[verifier::when_used_as_spec(spec_root_table_address)]
    pub fn root_table_address(&self) -> (address: u64)
        ensures
            address == self.spec_root_table_address(),
    {
        if self.revision < 2 {
            self.rsdt_address as u64
        } else {
            self.xsdt_address
        }
    }

    /// The signature that the root table must carry: `RSDT` below revision
    /// 2, `XSDT` from revision 2 on.
    pub open spec fn spec_root_table_signature(&self) -> [u8; 4] {
        if self.revision < 2 {
            RSDT_SIGNATURE
        } else {
            XSDT_SIGNATURE
        }
    }

    /// The signature that the root table must carry: `RSDT` below revision
    /// 2, `XSDT` from revision 2 on.
    #[verifier::when_used_as_spec(spec_root_table_signature)]
    pub fn root_table_signature(&self) -> (signature: [u8; 4])
        ensures
            signature == self.spec_root_table_signature(),
    {
        if self.revision < 2 {
            RSDT_SIGNATURE
        } else {
            XSDT_SIGNATURE
        }
    }

    /// Validates the root pointer at the front of `bytes` and returns its
    /// fields.
    ///
    /// The signature and the revision are always read. The bytes from index
    /// 20 on are read only from revision 2 on.
    pub fn decode(bytes: &[u8]) -> (pointer: Result<RootSystemDescriptionPointer, RootPointerError>)
        ensures
            pointer == Self::decoded(bytes@),
    {
        if bytes.len() < RSDP_V1_SIZE {
            return Err(RootPointerError::TooShort);
        }
        let signature: [u8; 8] = [
            bytes[0],
            bytes[1],
            bytes[2],
            bytes[3],
            bytes[4],
            bytes[5],
            bytes[6],
            bytes[7],
        ];
        let same = signature[0] == RSDP_SIGNATURE[0] && signature[1] == RSDP_SIGNATURE[1]
            && signature[2] == RSDP_SIGNATURE[2] && signature[3] == RSDP_SIGNATURE[3]
            && signature[4] == RSDP_SIGNATURE[4] && signature[5] == RSDP_SIGNATURE[5]
            && signature[6] == RSDP_SIGNATURE[6] && signature[7] == RSDP_SIGNATURE[7];
        proof {
            if same {
                assert(bytes@.subrange(0, 8) =~= RSDP_SIGNATURE@);
            }
        }
        if !same {
            return Err(RootPointerError::SignatureMismatch);
        }
        if !verify_sum(bytes, 0, RSDP_V1_SIZE) {
            return Err(RootPointerError::ChecksumMismatch);
        }
        let checksum: u8 = bytes[8];
        let oemid: [u8; 6] = [bytes[9], bytes[10], bytes[11], bytes[12], bytes[13], bytes[14]];
        let revision: u8 = bytes[15];
        let rsdt_address: u32 = read_u32(bytes, 16);
        if revision < 2 {
            return Ok(
                RootSystemDescriptionPointer {
                    signature,
                    checksum,
                    oemid,
                    revision,
                    rsdt_address,
                    length: 0,
                    xsdt_address: 0,
                    extended_checksum: 0,
                },
            );
        }
        if bytes.len() < RSDP_V2_SIZE {
            return Err(RootPointerError::UnsupportedRevision);
        }
        let length: u32 = read_u32(bytes, 20);
        if length < 36 || length as u64 > bytes.len() as u64 {
            return Err(RootPointerError::LengthOutOfBounds);
        }
        if !verify_sum(bytes, 0, length as usize) {
            return Err(RootPointerError::ChecksumMismatch);
        }
        Ok(
            RootSystemDescriptionPointer {
                signature,
                checksum,
                oemid,
                revision,
                rsdt_address,
                length,
                xsdt_address: read_u64(bytes, 24),
                extended_checksum: bytes[32],
            },
        )
    }

    /// Returns true if the memory at the address of the root table starts
    /// with the signature that the revision calls for: `RSDT` at
    /// `rsdt_address` below revision 2, `XSDT` at `xsdt_address` from
    /// revision 2 on. Nothing else of the table is judged.
    pub fn validate_sdt_signature(&self, region: &Region<'_>) -> (matches: bool)
        ensures
            matches == match region@.tail(self.spec_root_table_address()) {
                Some(table) => table.len() >= 4 && table.subrange(0, 4)
                    == self.spec_root_table_signature()@,
                None => false,
            },
    {
        match region.tail(self.root_table_address()) {
            Some(table) => {
                if table.len() < 4 {
                    false
                } else {
                    let signature = self.root_table_signature();
                    has_signature(table, &signature)
                }
            },
            None => false,
        }
    }

    /// The root table that this pointer leads to in `region`.
    pub open spec fn followed(&self, region: RegionView) -> Result<RootTable, RootPointerError> {
        match region.tail(self.spec_root_table_address()) {
            None => Err(RootPointerError::TooShort),
            Some(table) => match validated(table, Some(self.spec_root_table_signature()@)) {
                Err(fault) => Err(RootPointerError::of_header(fault)),
                Ok(header) => if self.revision < 2 {
                    Ok(
                        RootTable::Rsdt {
                            address: self.rsdt_address,
                            table: RootSystemDescriptionTable { header },
                        },
                    )
                } else {
                    Ok(
                        RootTable::Xsdt {
                            address: self.xsdt_address,
                            table: ExtendedSystemDescriptionTable { header },
                        },
                    )
                },
            },
        }
    }

    /// Follows the pointer: validates the table at the address that the
    /// revision selects, which must carry the signature that the revision
    /// calls for, and returns it with its address.
    ///
    /// Fails with `TooShort` when `region` does not hold the address, and
    /// else with the fault of the table's header.
    pub fn follow(&self, region: &Region<'_>) -> (root: Result<RootTable, RootPointerError>)
        ensures
            root == self.followed(region@),
    {
        let address = self.root_table_address();
        let header = match table_at(region, address, Some(self.root_table_signature())) {
            Ok((header, _)) => header,
            Err(fault) => {
                return Err(RootPointerError::from_header(fault));
            },
        };
        if self.revision < 2 {
            Ok(
                RootTable::Rsdt {
                    address: self.rsdt_address,
                    table: RootSystemDescriptionTable { header },
                },
            )
        } else {
            Ok(
                RootTable::Xsdt {
                    address: self.xsdt_address,
                    table: ExtendedSystemDescriptionTable { header },
                },
            )
        }
    }
}

/// Below revision 2 no byte from index 20 on is looked at: two images that
/// agree on their first 20 bytes decode alike, whatever follows in each.
pub proof fn lemma_first_version_ends_at_byte_20(s: Seq<u8>, t: Seq<u8>)
    requires
        s.len() >= 20,
        t.len() >= 20,
        s.subrange(0, 20) == t.subrange(0, 20),
        s[15] < 2,
    ensures
        RootSystemDescriptionPointer::decoded(t) == RootSystemDescriptionPointer::decoded(s),
{
    assert forall|i: int| 0 <= i < 20 implies s[i] == t[i] by {
        assert(t[i] == t.subrange(0, 20)[i]);
    }
    assert(t.subrange(0, 8) =~= s.subrange(0, 8));
}

/// From revision 2 on the 32-bit address plays no part: two pointers of
/// revision 2 or more that hold the same 64-bit address lead to the same
/// root table.
pub proof fn lemma_extended_pointer_ignores_rsdt_address(
    p: RootSystemDescriptionPointer,
    q: RootSystemDescriptionPointer,
    region: RegionView,
)
    requires
        p.revision >= 2,
        q.revision >= 2,
        p.xsdt_address == q.xsdt_address,
    ensures
        p.followed(region) == q.followed(region),
{
}

/// What resolving the root pointer image `s` against `region` yields.
pub open spec fn resolved(s: Seq<u8>, region: RegionView) -> Result<RootTable, RootPointerError> {
    match RootSystemDescriptionPointer::decoded(s) {
        Err(fault) => Err(fault),
        Ok(pointer) => pointer.followed(region),
    }
}

/// Validates the root pointer at the front of `bytes` and follows it to the
/// root table in `region`.
///
/// Below revision 2 only the first 20 bytes are read, and the 32-bit address
/// must lead to a table with the signature `RSDT`. From revision 2 on the
/// whole structure must sum to zero as well, the 32-bit address is ignored,
/// and the 64-bit address must lead to a table with the signature `XSDT`.
/// A revision above 2 is treated as revision 2.
pub fn resolve(bytes: &[u8], region: &Region<'_>) -> (root: Result<RootTable, RootPointerError>)
    ensures
        root == resolved(bytes@, region@),
{
    match RootSystemDescriptionPointer::decode(bytes) {
        Ok(pointer) => pointer.follow(region),
        Err(fault) => Err(fault),
    }
}

} // verus!
