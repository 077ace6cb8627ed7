//! The Generic Port Affinity Structure.

use vstd::prelude::*;
use crate::bytes::{le_u32, read_u32};
use crate::srat::DeviceHandle;
use crate::srat::affinity::GenericInitiatorPortAffinityFlags;

verus! {

/// ## Generic Port Affinity Structure
///
/// The Generic Port Affinity Structure provides an association between a
/// proximity domain number and a device handle representing a Generic Port
/// (e.g. CXL Host Bridge, or similar device that hosts a dynamic topology
/// of memory ranges and/or initiators).
#[derive(Clone, Copy, Debug, PartialEq, Eq)]
pub struct GenericPortAffinity {
    /// 6 - Generic Port Structure
    pub kind: u8,
    /// 32
    pub length: u8,
    /// Device Handle Type:
    pub device_handle_type: u8,
    /// The proximity domain to identify the performance of this port in the
    /// HMAT.
    pub proximity_domain: u32,
    /// Device Handle of the Generic Initiator.
    pub device_handle: DeviceHandle,
    /// Flags - Generic Initiator/Port Affinity Structure.
    pub flags: GenericInitiatorPortAffinityFlags,
}

impl GenericPortAffinity {
    /// Size in bytes of the fixed fields.
    pub const SIZE: usize = 32;

    /// The structure laid out in the first 32 bytes of `s`.
    pub open spec fn laid_out(s: Seq<u8>) -> GenericPortAffinity {
        GenericPortAffinity {
            kind: s[0],
            length: s[1],
            device_handle_type: s[3],
            proximity_domain: le_u32(s, 4) as u32,
            device_handle: DeviceHandle::laid_out_at(s[3], s, 8),
            flags: GenericInitiatorPortAffinityFlags(le_u32(s, 24) as u32),
        }
    }

    /// Reads the structure from the front of `bytes`. Fails only when fewer
    /// than 32 bytes are supplied.
    pub fn decode(bytes: &[u8]) -> (structure: Option<GenericPortAffinity>)
        ensures
            structure == if bytes@.len() >= 32 {
                Some(Self::laid_out(bytes@))
            } else {
                None
            },
    {
        if bytes.len() < 32 {
            return None;
        }
        Some(
            GenericPortAffinity {
                kind: bytes[0],
                length: bytes[1],
                device_handle_type: bytes[3],
                proximity_domain: read_u32(bytes, 4),
                device_handle: DeviceHandle::decode_at(bytes[3], bytes, 8),
                flags: GenericInitiatorPortAffinityFlags(read_u32(bytes, 24)),
            },
        )
    }
}

} // verus!
