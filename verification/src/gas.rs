//! The Generic Address Structure, which tells where a register lives.

use vstd::prelude::*;
use crate::bytes::{le_u64, read_u64};

verus! {

/// The address space that the address of a register is relative to.
///
/// The space of tags is open-ended. A tag that names no space known here is
/// kept as it is, in `Reserved` or `OemDefined`, and never refused.
#[derive(Clone, Copy, Debug, PartialEq, Eq, Structural)]
pub enum AddressSpace {
    /// System memory space (tag 0x00).
    SystemMemory,
    /// System I/O space (tag 0x01).
    SystemIO,
    /// PCI configuration space (tag 0x02).
    PciConfiguration,
    /// Embedded controller (tag 0x03).
    EmbeddedController,
    /// SMBus (tag 0x04).
    SMBus,
    /// System CMOS (tag 0x05).
    SystemCMOS,
    /// PCI BAR target (tag 0x06).
    PciBarTarget,
    /// IPMI (tag 0x07).
    Ipmi,
    /// General purpose I/O (tag 0x08).
    GeneralPurposeIO,
    /// Generic serial bus (tag 0x09).
    GenericSerialBus,
    /// Platform communications channel (tag 0x0A).
    PlatformCommunicationsChannel,
    /// Platform runtime mechanism (tag 0x0B).
    PlatformRuntimeMechanism,
    /// Functional fixed hardware (tag 0x7F).
    FunctionalFixedHardware,
    /// A tag from 0x0C to 0x7E, which names no space yet.
    Reserved(u8),
    /// A tag from 0x80 to 0xFF, which the OEM defines.
    OemDefined(u8),
}

impl AddressSpace {
    /// The address space that the tag `id` names.
    pub open spec fn of_id(id: u8) -> AddressSpace {
        if id == 0x00 {
            AddressSpace::SystemMemory
        } else if id == 0x01 {
            AddressSpace::SystemIO
        } else if id == 0x02 {
            AddressSpace::PciConfiguration
        } else if id == 0x03 {
            AddressSpace::EmbeddedController
        } else if id == 0x04 {
            AddressSpace::SMBus
        } else if id == 0x05 {
            AddressSpace::SystemCMOS
        } else if id == 0x06 {
            AddressSpace::PciBarTarget
        } else if id == 0x07 {
            AddressSpace::Ipmi
        } else if id == 0x08 {
            AddressSpace::GeneralPurposeIO
        } else if id == 0x09 {
            AddressSpace::GenericSerialBus
        } else if id == 0x0A {
            AddressSpace::PlatformCommunicationsChannel
        } else if id == 0x0B {
            AddressSpace::PlatformRuntimeMechanism
        } else if id == 0x7F {
            AddressSpace::FunctionalFixedHardware
        } else if id < 0x80 {
            AddressSpace::Reserved(id)
        } else {
            AddressSpace::OemDefined(id)
        }
    }

    /// The tag that stands for this address space.
    pub open spec fn spec_id(&self) -> u8 {
        match *self {
            AddressSpace::SystemMemory => 0x00,
            AddressSpace::SystemIO => 0x01,
            AddressSpace::PciConfiguration => 0x02,
            AddressSpace::EmbeddedController => 0x03,
            AddressSpace::SMBus => 0x04,
            AddressSpace::SystemCMOS => 0x05,
            AddressSpace::PciBarTarget => 0x06,
            AddressSpace::Ipmi => 0x07,
            AddressSpace::GeneralPurposeIO => 0x08,
            AddressSpace::GenericSerialBus => 0x09,
            AddressSpace::PlatformCommunicationsChannel => 0x0A,
            AddressSpace::PlatformRuntimeMechanism => 0x0B,
            AddressSpace::FunctionalFixedHardware => 0x7F,
            AddressSpace::Reserved(id) => id,
            AddressSpace::OemDefined(id) => id,
        }
    }

    /// The address space that the tag `id` names. Every tag is accepted.
    pub fn from_id(id: u8) -> (space: AddressSpace)
        ensures
            space == Self::of_id(id),
            space.spec_id() == id,
    {
        match id {
            0x00 => AddressSpace::SystemMemory,
            0x01 => AddressSpace::SystemIO,
            0x02 => AddressSpace::PciConfiguration,
            0x03 => AddressSpace::EmbeddedController,
            0x04 => AddressSpace::SMBus,
            0x05 => AddressSpace::SystemCMOS,
            0x06 => AddressSpace::PciBarTarget,
            0x07 => AddressSpace::Ipmi,
            0x08 => AddressSpace::GeneralPurposeIO,
            0x09 => AddressSpace::GenericSerialBus,
            0x0A => AddressSpace::PlatformCommunicationsChannel,
            0x0B => AddressSpace::PlatformRuntimeMechanism,
            0x7F => AddressSpace::FunctionalFixedHardware,
            _ => if id < 0x80 {
                AddressSpace::Reserved(id)
            } else {
                AddressSpace::OemDefined(id)
            },
        }
    }

    /// The tag that stands for this address space.
    #[verifier::when_used_as_spec(spec_id)]
    pub fn id(&self) -> (id: u8)
        ensures
            id == self.spec_id(),
    {
        match *self {
            AddressSpace::SystemMemory => 0x00,
            AddressSpace::SystemIO => 0x01,
            AddressSpace::PciConfiguration => 0x02,
            AddressSpace::EmbeddedController => 0x03,
            AddressSpace::SMBus => 0x04,
            AddressSpace::SystemCMOS => 0x05,
            AddressSpace::PciBarTarget => 0x06,
            AddressSpace::Ipmi => 0x07,
            AddressSpace::GeneralPurposeIO => 0x08,
            AddressSpace::GenericSerialBus => 0x09,
            AddressSpace::PlatformCommunicationsChannel => 0x0A,
            AddressSpace::PlatformRuntimeMechanism => 0x0B,
            AddressSpace::FunctionalFixedHardware => 0x7F,
            AddressSpace::Reserved(id) => id,
            AddressSpace::OemDefined(id) => id,
        }
    }
}

/// How wide an access to a register must be.
#[derive(Clone, Copy, Debug, PartialEq, Eq, Structural)]
pub enum AccessSize {
    /// Undefined (legacy reasons): value 0.
    Undefined,
    /// Byte access: value 1.
    Byte,
    /// Word access: value 2.
    Word,
    /// Dword access: value 3.
    Dword,
    /// Qword access: value 4.
    Qword,
    /// A value above 4, which names no access size yet.
    Reserved(u8),
}

impl AccessSize {
    /// The access size that `value` names.
    pub open spec fn of_value(value: u8) -> AccessSize {
        if value == 0 {
            AccessSize::Undefined
        } else if value == 1 {
            AccessSize::Byte
        } else if value == 2 {
            AccessSize::Word
        } else if value == 3 {
            AccessSize::Dword
        } else if value == 4 {
            AccessSize::Qword
        } else {
            AccessSize::Reserved(value)
        }
    }

    /// The value that stands for this access size.
    pub open spec fn spec_value(&self) -> u8 {
        match *self {
            AccessSize::Undefined => 0,
            AccessSize::Byte => 1,
            AccessSize::Word => 2,
            AccessSize::Dword => 3,
            AccessSize::Qword => 4,
            AccessSize::Reserved(value) => value,
        }
    }

    /// The access size that `value` names. Every value is accepted.
    pub fn from_value(value: u8) -> (size: AccessSize)
        ensures
            size == Self::of_value(value),
            size.spec_value() == value,
    {
        match value {
            0 => AccessSize::Undefined,
            1 => AccessSize::Byte,
            2 => AccessSize::Word,
            3 => AccessSize::Dword,
            4 => AccessSize::Qword,
            _ => AccessSize::Reserved(value),
        }
    }

    /// The value that stands for this access size.
    #[verifier::when_used_as_spec(spec_value)]
    pub fn value(&self) -> (value: u8)
        ensures
            value == self.spec_value(),
    {
        match *self {
            AccessSize::Undefined => 0,
            AccessSize::Byte => 1,
            AccessSize::Word => 2,
            AccessSize::Dword => 3,
            AccessSize::Qword => 4,
            AccessSize::Reserved(value) => value,
        }
    }
}

/// ## Generic Address Structure
///
/// Describes the position of a register in one of several address spaces.
/// It is 12 bytes long wherever it occurs.
#[derive(Clone, Copy, Debug, PartialEq, Eq, Structural)]
pub struct GenericAddressStructure {
    /// The address space where the data structure or register exists.
    pub address_space_id: u8,
    /// The size in bits of the given register. When addressing a data
    /// structure, this field must be zero.
    pub reg_bit_width: u8,
    /// The bit offset of the given register at the given address. When
    /// addressing a data structure, this field must be zero.
    pub reg_bit_offset: u8,
    /// Specifies the access size.
    pub access_size: u8,
    /// The 64-bit address of the data structure or register in the given
    /// address space.
    pub address: u64,
}

impl GenericAddressStructure {
    /// Size in bytes of the structure.
    pub const SIZE: usize = 12;

    /// The structure laid out in the 12 bytes of `s` from index `at`.
    pub open spec fn laid_out_at(s: Seq<u8>, at: int) -> GenericAddressStructure {
        GenericAddressStructure {
            address_space_id: s[at],
            reg_bit_width: s[at + 1],
            reg_bit_offset: s[at + 2],
            access_size: s[at + 3],
            address: le_u64(s, at + 4) as u64,
        }
    }

    /// Reads the structure from exactly 12 bytes. Every value of every field
    /// is accepted.
    pub fn decode(raw: &[u8; 12]) -> (structure: GenericAddressStructure)
        ensures
            structure == Self::laid_out_at(raw@, 0),
    {
        Self::decode_at(raw.as_slice(), 0)
    }

    /// Reads the structure from the 12 bytes of `bytes` that start at index
    /// `at`.
    pub fn decode_at(bytes: &[u8], at: usize) -> (structure: GenericAddressStructure)
        requires
            at + 12 <= bytes.len(),
        ensures
            structure == Self::laid_out_at(bytes@, at as int),
    {
        GenericAddressStructure {
            address_space_id: bytes[at],
            reg_bit_width: bytes[at + 1],
            reg_bit_offset: bytes[at + 2],
            access_size: bytes[at + 3],
            address: read_u64(bytes, at + 4),
        }
    }

    /// The address space that `address` is relative to.
    pub fn address_space(&self) -> (space: AddressSpace)
        ensures
            space == AddressSpace::of_id(self.address_space_id),
            space.spec_id() == self.address_space_id,
    {
        AddressSpace::from_id(self.address_space_id)
    }

    /// The access size as a class.
    pub fn access_size_class(&self) -> (size: AccessSize)
        ensures
            size == AccessSize::of_value(self.access_size),
            size.spec_value() == self.access_size,
    {
        AccessSize::from_value(self.access_size)
    }
}

} // verus!
