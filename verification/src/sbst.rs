//! The Smart Battery Table.

use vstd::prelude::*;
use crate::bytes::{le_u32, read_u32};
use crate::header::{validate, validated, HeaderError, SDTHeader};

verus! {

/// The signature of the table: the ASCII characters `SBST`.
pub const SBST_SIGNATURE: [u8; 4] = [0x53, 0x42, 0x53, 0x54];

/// ## Smart Battery Table (SBST)
///
/// This table indicates the energy level trip points that the platform
/// requires for placing the system into the specified sleeping state and the
/// suggested energy levels for warning the user to transition the platform
/// into a sleeping state.
#[derive(Clone, Copy, Debug, PartialEq, Eq)]
pub struct SmartBatteryTable {
    /// - **Signature** - "SBST"
    pub header: SDTHeader,
    /// OEM suggested energy level in milliWatt-hours (mWh) at which OSPM warns
    /// the user.
    pub warning_evergy_level: u32,
    /// OEM suggested platform energy level in mWh at which OSPM will transition
    /// the system to a sleeping state.
    pub low_energy_level: u32,
    /// OEM suggested platform energy level in mWh at which OSPM performs an
    /// emergency shutdown.
    pub critical_energy_level: u32,
}

impl SmartBatteryTable {
    /// Size in bytes of the fixed fields.
    pub const SIZE: usize = 48;

    /// The table whose validated header is `header` and whose fields are
    /// laid out in `s`.
    pub open spec fn laid_out(header: SDTHeader, s: Seq<u8>) -> SmartBatteryTable {
        SmartBatteryTable {
            header,
            warning_evergy_level: le_u32(s, 36) as u32,
            low_energy_level: le_u32(s, 40) as u32,
            critical_energy_level: le_u32(s, 44) as u32,
        }
    }

    /// What decoding the table image `s` yields.
    pub open spec fn decoded(s: Seq<u8>) -> Result<SmartBatteryTable, HeaderError> {
        match validated(s, Some(SBST_SIGNATURE@)) {
            Err(fault) => Err(fault),
            Ok(header) => if header.length < 48 {
                Err(HeaderError::LengthOutOfBounds)
            } else {
                Ok(Self::laid_out(header, s))
            },
        }
    }

    /// Validates the table at the front of `bytes`, which must carry the
    /// signature of this table, and reads its fixed fields.
    ///
    /// Fails with the fault of the header, or with `LengthOutOfBounds` when
    /// the table declares fewer than 48 bytes.
    pub fn decode(bytes: &[u8]) -> (table: Result<SmartBatteryTable, HeaderError>)
        ensures
            table == Self::decoded(bytes@),
    {
        let header = match validate(bytes, Some(SBST_SIGNATURE)) {
            Ok(header) => header,
            Err(fault) => {
                return Err(fault);
            },
        };
        if header.length < 48 {
            return Err(HeaderError::LengthOutOfBounds);
        }
        Ok(
            SmartBatteryTable {
                header,
                warning_evergy_level: read_u32(bytes, 36),
                low_energy_level: read_u32(bytes, 40),
                critical_energy_level: read_u32(bytes, 44),
            },
        )
    }
}

} // verus!
