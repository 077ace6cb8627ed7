//! The GIC MSI Frame Structure.

use vstd::prelude::*;
use crate::bits::{bit, bit_at};
use crate::bytes::{le_u16, le_u32, le_u64, read_u16, read_u32, read_u64};

verus! {

/// ## GIC MSI Frame Flags
#[derive(Clone, Copy, Debug, PartialEq, Eq, Structural)]
pub struct GICMSIFrameFlags(pub u32);

impl GICMSIFrameFlags {
    /// - **0** - The SPI Count and Base fields should be ignored, and the
    ///   actual values should be queried from the MSI_TYPER register in the
    ///   associated GIC MSI frame.
    /// - **1** - The SPI Count and Base values override the values specified in
    ///   the MSI_TYPER register in the associated GIC MSI frame.
    pub fn spi_count_base_select(&self) -> (set: bool)
        ensures
            set == bit(self.0 as nat, 0),
    {
        bit_at(self.0 as u128, 0)
    }
}

/// ## GIC MSI Frame Structure
///
/// Each GICv2m MSI frame consists of a 4k page which includes registers to
/// generate message signaled interrupts to an associated GIC distributor.
/// The frame also includes registers to discover the set of distributor
/// lines which may be signaled by MSIs from that frame. A system may have
/// multiple MSI frames, and separate frames may be defined for secure and
/// non-secure access.
#[derive(Clone, Copy, Debug, PartialEq, Eq)]
pub struct GICMSIFrame {
    /// 13 - GIC MSI Frame Structure
    pub kind: u8,
    /// 24
    pub length: u8,
    /// GIC MSI Frame ID.
    pub gic_msi_frame_id: u32,
    /// The 64-bit physical address for this MSI Frame
    pub physical_base_address: u64,
    /// GIC MSI Frame Flags.
    pub flags: GICMSIFrameFlags,
    /// SPI Count used by this frame.
    pub spi_count: u16,
    /// SPI Base used by this frame.
    pub spi_base: u16,
}

impl GICMSIFrame {
    /// Size in bytes of the fixed fields.
    pub const SIZE: usize = 24;

    /// The structure laid out in the first 24 bytes of `s`.
    pub open spec fn laid_out(s: Seq<u8>) -> GICMSIFrame {
        GICMSIFrame {
            kind: s[0],
            length: s[1],
            gic_msi_frame_id: le_u32(s, 4) as u32,
            physical_base_address: le_u64(s, 8) as u64,
            flags: GICMSIFrameFlags(le_u32(s, 16) as u32),
            spi_count: le_u16(s, 20) as u16,
            spi_base: le_u16(s, 22) as u16,
        }
    }

    /// Reads the structure from the front of `bytes`. Fails only when fewer
    /// than 24 bytes are supplied.
    pub fn decode(bytes: &[u8]) -> (structure: Option<GICMSIFrame>)
        ensures
            structure == if bytes@.len() >= 24 {
                Some(Self::laid_out(bytes@))
            } else {
                None
            },
    {
        if bytes.len() < 24 {
            return None;
        }
        Some(
            GICMSIFrame {
                kind: bytes[0],
                length: bytes[1],
                gic_msi_frame_id: read_u32(bytes, 4),
                physical_base_address: read_u64(bytes, 8),
                flags: GICMSIFrameFlags(read_u32(bytes, 16)),
                spi_count: read_u16(bytes, 20),
                spi_base: read_u16(bytes, 22),
            },
        )
    }
}

} // verus!
