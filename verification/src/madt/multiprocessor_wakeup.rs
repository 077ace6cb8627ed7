//! The Multiprocessor Wakeup Structure and its mailbox.

use vstd::prelude::*;
use crate::bytes::{le_u16, le_u32, le_u64, read_u16, read_u32, read_u64};
use crate::range::{BoundsError, ByteRange};

verus! {

/// ## Multiprocessor Wakeup Mailbox Structure
#[derive(Clone, Copy, Debug, PartialEq, Eq)]
pub struct MultiprocessorWakeupMailbox {
    /// - **0x0000** - Noop (no operation).
    /// - **0x0001** - Wakeup (jump to the wakeup vector).
    pub command: u16,
    /// The processor's local APIC ID.
    pub apic_id: u32,
    /// The wakeup address for application processor(s).
    pub wakeup_vector: u64,
}

impl MultiprocessorWakeupMailbox {
    /// Size in bytes of the fixed fields.
    pub const SIZE: usize = 4096;

    /// The structure laid out in the first 4096 bytes of `s`.
    pub open spec fn laid_out(s: Seq<u8>) -> MultiprocessorWakeupMailbox {
        MultiprocessorWakeupMailbox {
            command: le_u16(s, 0) as u16,
            apic_id: le_u32(s, 4) as u32,
            wakeup_vector: le_u64(s, 8) as u64,
        }
    }

    /// Reads the structure from the front of `bytes`. Fails only when fewer
    /// than 4096 bytes are supplied.
    pub fn decode(bytes: &[u8]) -> (structure: Option<MultiprocessorWakeupMailbox>)
        ensures
            structure == if bytes@.len() >= 4096 {
                Some(Self::laid_out(bytes@))
            } else {
                None
            },
    {
        if bytes.len() < 4096 {
            return None;
        }
        Some(
            MultiprocessorWakeupMailbox {
                command: read_u16(bytes, 0),
                apic_id: read_u32(bytes, 4),
                wakeup_vector: read_u64(bytes, 8),
            },
        )
    }
}

/// ## Multiprocessor Wakeup Structure
///
/// The platform firmware publishes a multiprocessor wakeup structure to let
/// the bootstrap processor wake up application processors with a mailbox.
/// The mailbox is memory that the firmware reserves so that each processor
/// can have the OS send a message to them.
#[derive(Clone, Copy, Debug, PartialEq, Eq)]
pub struct MultiprocessorWakeup {
    /// 16 - Multiprocessor Wakeup Structure
    pub kind: u8,
    /// 16
    pub length: u8,
    /// Version of the mailbox.
    pub mailbox_version: u16,
    /// Physical address of the mailbox.
    pub mailbox_address: u64,
}

impl MultiprocessorWakeup {
    /// Size in bytes of the fixed fields.
    pub const SIZE: usize = 16;

    /// The structure laid out in the first 16 bytes of `s`.
    pub open spec fn laid_out(s: Seq<u8>) -> MultiprocessorWakeup {
        MultiprocessorWakeup {
            kind: s[0],
            length: s[1],
            mailbox_version: le_u16(s, 2) as u16,
            mailbox_address: le_u64(s, 8) as u64,
        }
    }

    /// Reads the structure from the front of `bytes`. Fails only when fewer
    /// than 16 bytes are supplied.
    pub fn decode(bytes: &[u8]) -> (structure: Option<MultiprocessorWakeup>)
        ensures
            structure == if bytes@.len() >= 16 {
                Some(Self::laid_out(bytes@))
            } else {
                None
            },
    {
        if bytes.len() < 16 {
            return None;
        }
        Some(
            MultiprocessorWakeup {
                kind: bytes[0],
                length: bytes[1],
                mailbox_version: read_u16(bytes, 2),
                mailbox_address: read_u64(bytes, 8),
            },
        )
    }

    /// The 4096 bytes of the mailbox that `mailbox_address` points at.
    pub open spec fn mailbox_range(&self) -> Result<ByteRange, BoundsError> {
        if self.mailbox_address + 4096 > u64::MAX {
            Err(BoundsError::AddressOverflow)
        } else {
            Ok(
                ByteRange {
                    start: self.mailbox_address,
                    end: (self.mailbox_address + 4096) as u64,
                },
            )
        }
    }

    /// Where the mailbox lies: the 4096 bytes from `mailbox_address` on.
    ///
    /// The address is a reference, not a pointer: the range turns into bytes
    /// only against a region that holds it. Fails with `AddressOverflow`
    /// when the mailbox would run past the top of the address space.
    pub fn mailbox_address(&self) -> (mailbox: Result<ByteRange, BoundsError>)
        ensures
            mailbox == self.mailbox_range(),
    {
        if self.mailbox_address > u64::MAX - 4096 {
            Err(BoundsError::AddressOverflow)
        } else {
            Ok(ByteRange { start: self.mailbox_address, end: self.mailbox_address + 4096 })
        }
    }
}

} // verus!
