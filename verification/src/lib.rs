//! Bounds-checked decoding of firmware system description tables.
//!
//! Firmware hands the operating system a blob of memory that holds tables:
//! length-prefixed, checksummed records that describe the hardware. This
//! crate reads them without trusting them. Nothing is reached through a
//! pointer: a table is decoded from a slice of bytes, and whatever a table
//! says about where more data lies becomes a [`range::ByteRange`], a pair of
//! numbers that turns into bytes only when a [`range::Region`] is asked for
//! it and holds all of it.
//!
//! The parts, leaves first:
//!
//! - [`bytes`] gives the value of little-endian fields, [`bits`] the value
//!   of flags, [`checksum`] the byte sum that tables carry;
//! - [`header`] validates the preamble that every table starts with;
//! - [`range`] derives the ranges of trailers and of data placed at a
//!   declared offset, and reads a range as an array of elements;
//! - [`records`] walks lists of tagged sub-records;
//! - [`gas`] reads the descriptor of a register;
//! - [`rsdp`] resolves the root pointer to the root table;
//! - the remaining modules hold one table each, named by its signature.
//!
//! Every function is verified against a contract that states its result for
//! every input, over the plain values that the bytes hold.

use vstd::prelude::*;

pub mod bgrt;
pub mod bits;
pub mod bytes;
pub mod checksum;
pub mod cpep;
pub mod dsdt;
pub mod ecdt;
pub mod facs;
pub mod fadt;
pub mod gas;
pub mod header;
pub mod madt;
pub mod msct;
pub mod pcct;
pub mod psdt;
pub mod range;
pub mod rasf;
pub mod records;
pub mod rsdp;
pub mod rsdt;
pub mod sbst;
pub mod slit;
pub mod srat;
pub mod ssdt;
pub mod xsdt;

pub use crate::fadt::FADTPersistentCPUCacheFeature;
pub use crate::gas::GenericAddressStructure;
pub use crate::header::{SDTHeader, SDT_HEADER_SIZE};

verus! {

/// The Root System Description Pointer structure, under its short name.
pub type RSDP = crate::rsdp::RootSystemDescriptionPointer;

/// The Root System Description Table structure, under its short name.
pub type RSDT = crate::rsdt::RootSystemDescriptionTable;

/// The Extended System Description Table structure, under its short name.
pub type XSDT = crate::xsdt::ExtendedSystemDescriptionTable;

/// The Fixed ACPI Description Table, under its short name.
pub type FADT = crate::fadt::FixedACPIDescriptionTable;

/// The fixed feature flags of the Fixed ACPI Description Table, under their
/// short name.
pub type FADTFeatureFlags = crate::fadt::FADTFixedFeatureFlags;

} // verus!
