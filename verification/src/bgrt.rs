//! The Boot Graphics Resource Table.

use vstd::prelude::*;
use crate::bytes::{le_u16, le_u32, le_u64, read_u16, read_u32, read_u64};
use crate::bits::{bit, bit_at};
use crate::header::{validate, validated, HeaderError, SDTHeader};
use crate::range::{BoundsError, ByteRange};

verus! {

/// The signature of the table: the ASCII characters `BGRT`.
pub const BGRT_SIGNATURE: [u8; 4] = [0x42, 0x47, 0x52, 0x54];

/// ## Boot Graphics Resource Table (BGRT)
///
/// The Boot Graphics Resource Table (BGRT) is an optional table that
/// provides a mechanism to indicate that an image was drawn on the screen
/// during boot, and some information about the image.
#[derive(Clone, Copy, Debug, PartialEq, Eq)]
pub struct BootGraphicsResourceTable {
    /// - **Signature** - "BGRT"
    pub header: SDTHeader,
    /// 2-bytes (16 bit) version ID. This value must be 1.
    pub version: u16,
    /// - **Bits [[7:3]]** - Reserved
    /// - **Bits [[2:1]]** - Orientation Offset. These bits describe the
    ///   clockwise degree offset from the image's default orientation.
    ///   - **0b00** - 0, no offset
    ///   - **0b01** - 90
    ///   - **0b10** - 180
    ///   - **0b11** - 270
    /// - **Bit [[0]]** - Displayed. A one indicates the boot image graphic is
    ///   displayed.
    pub status: u8,
    /// - **0x00** - Bitmap
    pub image_type: u8,
    /// 8-byte (64 bit) physical address pointing to the firmware's in-memory
    /// copy of the image bitmap.
    pub image_address: u64,
    /// A 4-byte (32-bit) unsigned long describing the display X-offset of the
    /// boot image.
    pub image_offset_x: u32,
    /// A 4-byte (32-bit) unsigned long describing the display Y-offset of the
    /// boot image.
    pub image_offset_y: u32,
}

impl BootGraphicsResourceTable {
    /// Size in bytes of the fixed fields.
    pub const SIZE: usize = 56;

    /// The table whose validated header is `header` and whose fields are
    /// laid out in `s`.
    pub open spec fn laid_out(header: SDTHeader, s: Seq<u8>) -> BootGraphicsResourceTable {
        BootGraphicsResourceTable {
            header,
            version: le_u16(s, 36) as u16,
            status: s[38],
            image_type: s[39],
            image_address: le_u64(s, 40) as u64,
            image_offset_x: le_u32(s, 48) as u32,
            image_offset_y: le_u32(s, 52) as u32,
        }
    }

    /// What decoding the table image `s` yields.
    pub open spec fn decoded(s: Seq<u8>) -> Result<BootGraphicsResourceTable, HeaderError> {
        match validated(s, Some(BGRT_SIGNATURE@)) {
            Err(fault) => Err(fault),
            Ok(header) => if header.length < 56 {
                Err(HeaderError::LengthOutOfBounds)
            } else {
                Ok(Self::laid_out(header, s))
            },
        }
    }

    /// Validates the table at the front of `bytes`, which must carry the
    /// signature of this table, and reads its fixed fields.
    ///
    /// Fails with the fault of the header, or with `LengthOutOfBounds` when
    /// the table declares fewer than 56 bytes.
    pub fn decode(bytes: &[u8]) -> (table: Result<BootGraphicsResourceTable, HeaderError>)
        ensures
            table == Self::decoded(bytes@),
    {
        let header = match validate(bytes, Some(BGRT_SIGNATURE)) {
            Ok(header) => header,
            Err(fault) => {
                return Err(fault);
            },
        };
        if header.length < 56 {
            return Err(HeaderError::LengthOutOfBounds);
        }
        Ok(
            BootGraphicsResourceTable {
                header,
                version: read_u16(bytes, 36),
                status: bytes[38],
                image_type: bytes[39],
                image_address: read_u64(bytes, 40),
                image_offset_x: read_u32(bytes, 48),
                image_offset_y: read_u32(bytes, 52),
            },
        )
    }

    /// The status byte of a table that lies at address `record_base`.
    pub open spec fn status_range(record_base: u64) -> Result<ByteRange, BoundsError> {
        if record_base + 39 > u64::MAX {
            Err(BoundsError::AddressOverflow)
        } else {
            Ok(ByteRange { start: (record_base + 38) as u64, end: (record_base + 39) as u64 })
        }
    }

    /// Where the status byte lies: the byte at offset 38 of a table at
    /// address `record_base`.
    ///
    /// Firmware clears the Displayed bit when the boot is interrupted, so
    /// the bit as it is now must be read from this place, and not taken
    /// from the value that `decode` has read.
    pub fn status_location(&self, record_base: u64) -> (byte: Result<ByteRange, BoundsError>)
        ensures
            byte == Self::status_range(record_base),
    {
        if record_base > u64::MAX - 39 {
            Err(BoundsError::AddressOverflow)
        } else {
            Ok(ByteRange { start: record_base + 38, end: record_base + 39 })
        }
    }

    /// Whether the Displayed bit, bit 0 of the status, was set when the
    /// table was read.
    pub fn was_displayed(&self) -> (set: bool)
        ensures
            set == bit(self.status as nat, 0),
    {
        bit_at(self.status as u128, 0)
    }
}

} // verus!
