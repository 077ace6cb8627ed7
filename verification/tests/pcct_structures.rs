use acpi_tables::checksum::checksum_for;
use acpi_tables::gas::GenericAddressStructure;
use acpi_tables::header::{validate, HeaderError};
use acpi_tables::pcct::{PCCGlobalFlags, PlatformCommunicationsChannel};
use acpi_tables::pcct::subspace::{GenericCommunicationsChannelCommandField, GenericCommunicationsChannelSMR, GenericCommunicationsChannelStatusField, MasterSlaveCommunicationsChannelFlags, MasterSlaveCommunicationsChannelSMR, ReducedPCCSubspaceSMR};
use acpi_tables::pcct::subspace::extended::ExtendedPCC;
use acpi_tables::pcct::subspace::generic::GenericCommunications;
use acpi_tables::pcct::subspace::hw_reduced::{HWReducedCommunicationsType1, HWReducedCommunicationsType2};
use acpi_tables::pcct::subspace::hw_reg::HWRegistersBasedCommunications;
use acpi_tables::rasf::{RASCapabilities, RASF, RASFCommunicationChannelSMR};

/// Bytes that differ from their neighbours, so that a field read from the
/// wrong place shows.
fn pattern(size: usize) -> Vec<u8> {
    (0..size).map(|i| (i as u8).wrapping_mul(7).wrapping_add(3)).collect()
}

/// A table image of `size` bytes with the given signature, patterned fields
/// and a checksum that makes it sum to zero.
fn table(signature: &[u8; 4], size: usize) -> Vec<u8> {
    let mut bytes = pattern(size);
    bytes[0..4].copy_from_slice(signature);
    bytes[4..8].copy_from_slice(&(size as u32).to_le_bytes());
    bytes[9] = checksum_for(&bytes, 9);
    bytes
}

#[test]
fn platform_communications_channel_fields_come_from_their_offsets() {
    let bytes = table(b"PCCT", 48);
    let table = PlatformCommunicationsChannel::decode(&bytes).unwrap();
    assert_eq!(table.header, validate(&bytes, Some(*b"PCCT")).unwrap());
    assert_eq!(table.header.length, 48);
    assert_eq!(table.flags, PCCGlobalFlags(u32::from_le_bytes(bytes[36..40].try_into().unwrap())));
    assert_eq!(PlatformCommunicationsChannel::SIZE, 48);
}

#[test]
fn platform_communications_channel_header_is_validated() {
    let bytes = table(b"PCCT", 51);
    assert!(PlatformCommunicationsChannel::decode(&bytes).is_ok());
    assert_eq!(PlatformCommunicationsChannel::decode(&bytes[..35]), Err(HeaderError::TooShort));
    assert_eq!(PlatformCommunicationsChannel::decode(&bytes[..50]), Err(HeaderError::LengthOutOfBounds));
    let other = table(b"PCC_", 48);
    assert_eq!(PlatformCommunicationsChannel::decode(&other), Err(HeaderError::SignatureMismatch));
    let mut broken = bytes.clone();
    broken[47] ^= 0x10;
    assert_eq!(PlatformCommunicationsChannel::decode(&broken), Err(HeaderError::ChecksumMismatch));
    let short = table(b"PCCT", 47);
    assert_eq!(PlatformCommunicationsChannel::decode(&short), Err(HeaderError::LengthOutOfBounds));
}

#[test]
fn extended_pcc_fields_come_from_their_offsets() {
    let bytes = pattern(166);
    let structure = ExtendedPCC::decode(&bytes).unwrap();
    assert_eq!(structure.kind, bytes[0]);
    assert_eq!(structure.length, bytes[1]);
    assert_eq!(structure.platform_interrupt, u32::from_le_bytes(bytes[2..6].try_into().unwrap()));
    assert_eq!(structure.platform_interrupt_flags, bytes[6]);
    assert_eq!(structure.base_address, u64::from_le_bytes(bytes[8..16].try_into().unwrap()));
    assert_eq!(structure.memory_length, u32::from_le_bytes(bytes[16..20].try_into().unwrap()));
    assert_eq!(structure.doorbell_register, GenericAddressStructure::decode(bytes[20..32].try_into().unwrap()));
    assert_eq!(structure.doorbell_preserve, u64::from_le_bytes(bytes[32..40].try_into().unwrap()));
    assert_eq!(structure.doorbell_write, u64::from_le_bytes(bytes[40..48].try_into().unwrap()));
    assert_eq!(structure.nominal_latency, u32::from_le_bytes(bytes[48..52].try_into().unwrap()));
    assert_eq!(structure.max_periodic_access_rate, u32::from_le_bytes(bytes[52..56].try_into().unwrap()));
    assert_eq!(structure.min_request_turnaround_time, u32::from_le_bytes(bytes[56..60].try_into().unwrap()));
    assert_eq!(structure.platform_interrupt_ack_register, GenericAddressStructure::decode(bytes[60..72].try_into().unwrap()));
    assert_eq!(structure.platform_interrupt_ack_preserve, u64::from_le_bytes(bytes[72..80].try_into().unwrap()));
    assert_eq!(structure.platform_interrupt_ack_set, u64::from_le_bytes(bytes[80..88].try_into().unwrap()));
    assert_eq!(structure.command_complete_check_register_address, GenericAddressStructure::decode(bytes[96..108].try_into().unwrap()));
    assert_eq!(structure.command_complete_check_mask, u64::from_le_bytes(bytes[108..116].try_into().unwrap()));
    assert_eq!(structure.command_complete_update_register, GenericAddressStructure::decode(bytes[116..128].try_into().unwrap()));
    assert_eq!(structure.command_complete_update_preserve_mask, u64::from_le_bytes(bytes[128..136].try_into().unwrap()));
    assert_eq!(structure.command_complete_update_set_mask, u64::from_le_bytes(bytes[136..144].try_into().unwrap()));
    assert_eq!(structure.error_status_register, GenericAddressStructure::decode(bytes[144..156].try_into().unwrap()));
    assert_eq!(structure.error_status_mask, u64::from_le_bytes(bytes[156..164].try_into().unwrap()));
    assert_eq!(ExtendedPCC::decode(&bytes[..164]), Some(structure));
    assert_eq!(ExtendedPCC::decode(&bytes[..163]), None);
    assert_eq!(ExtendedPCC::decode(&[]), None);
    assert_eq!(ExtendedPCC::SIZE, 164);
}

#[test]
fn generic_communications_fields_come_from_their_offsets() {
    let bytes = pattern(64);
    let structure = GenericCommunications::decode(&bytes).unwrap();
    assert_eq!(structure.kind, bytes[0]);
    assert_eq!(structure.length, bytes[1]);
    assert_eq!(structure.base_address, u64::from_le_bytes(bytes[8..16].try_into().unwrap()));
    assert_eq!(structure.memory_length, u64::from_le_bytes(bytes[16..24].try_into().unwrap()));
    assert_eq!(structure.doorbell_register, GenericAddressStructure::decode(bytes[24..36].try_into().unwrap()));
    assert_eq!(structure.doorbell_preserve, u64::from_le_bytes(bytes[36..44].try_into().unwrap()));
    assert_eq!(structure.doorbell_write, u64::from_le_bytes(bytes[44..52].try_into().unwrap()));
    assert_eq!(structure.nominal_latency, u32::from_le_bytes(bytes[52..56].try_into().unwrap()));
    assert_eq!(structure.max_periodic_access_rate, u32::from_le_bytes(bytes[56..60].try_into().unwrap()));
    assert_eq!(structure.min_request_turnaround_time, u16::from_le_bytes(bytes[60..62].try_into().unwrap()));
    assert_eq!(GenericCommunications::decode(&bytes[..62]), Some(structure));
    assert_eq!(GenericCommunications::decode(&bytes[..61]), None);
    assert_eq!(GenericCommunications::decode(&[]), None);
    assert_eq!(GenericCommunications::SIZE, 62);
}

#[test]
fn hw_reduced_communications_type1_fields_come_from_their_offsets() {
    let bytes = pattern(64);
    let structure = HWReducedCommunicationsType1::decode(&bytes).unwrap();
    assert_eq!(structure.kind, bytes[0]);
    assert_eq!(structure.length, bytes[1]);
    assert_eq!(structure.platform_interrupt, u32::from_le_bytes(bytes[2..6].try_into().unwrap()));
    assert_eq!(structure.platform_interrupt_flags, bytes[6]);
    assert_eq!(structure.base_address, u64::from_le_bytes(bytes[8..16].try_into().unwrap()));
    assert_eq!(structure.memory_length, u64::from_le_bytes(bytes[16..24].try_into().unwrap()));
    assert_eq!(structure.doorbell_register, GenericAddressStructure::decode(bytes[24..36].try_into().unwrap()));
    assert_eq!(structure.doorbell_preserve, u64::from_le_bytes(bytes[36..44].try_into().unwrap()));
    assert_eq!(structure.doorbell_write, u64::from_le_bytes(bytes[44..52].try_into().unwrap()));
    assert_eq!(structure.nominal_latency, u32::from_le_bytes(bytes[52..56].try_into().unwrap()));
    assert_eq!(structure.max_periodic_access_rate, u32::from_le_bytes(bytes[56..60].try_into().unwrap()));
    assert_eq!(structure.min_request_turnaround_time, u16::from_le_bytes(bytes[60..62].try_into().unwrap()));
    assert_eq!(HWReducedCommunicationsType1::decode(&bytes[..62]), Some(structure));
    assert_eq!(HWReducedCommunicationsType1::decode(&bytes[..61]), None);
    assert_eq!(HWReducedCommunicationsType1::decode(&[]), None);
    assert_eq!(HWReducedCommunicationsType1::SIZE, 62);
}

#[test]
fn hw_reduced_communications_type2_fields_come_from_their_offsets() {
    let bytes = pattern(92);
    let structure = HWReducedCommunicationsType2::decode(&bytes).unwrap();
    assert_eq!(structure.kind, bytes[0]);
    assert_eq!(structure.length, bytes[1]);
    assert_eq!(structure.platform_interrupt, u32::from_le_bytes(bytes[2..6].try_into().unwrap()));
    assert_eq!(structure.platform_interrupt_flags, bytes[6]);
    assert_eq!(structure.base_address, u64::from_le_bytes(bytes[8..16].try_into().unwrap()));
    assert_eq!(structure.memory_length, u64::from_le_bytes(bytes[16..24].try_into().unwrap()));
    assert_eq!(structure.doorbell_register, GenericAddressStructure::decode(bytes[24..36].try_into().unwrap()));
    assert_eq!(structure.doorbell_preserve, u64::from_le_bytes(bytes[36..44].try_into().unwrap()));
    assert_eq!(structure.doorbell_write, u64::from_le_bytes(bytes[44..52].try_into().unwrap()));
    assert_eq!(structure.nominal_latency, u32::from_le_bytes(bytes[52..56].try_into().unwrap()));
    assert_eq!(structure.max_periodic_access_rate, u32::from_le_bytes(bytes[56..60].try_into().unwrap()));
    assert_eq!(structure.min_request_turnaround_time, u16::from_le_bytes(bytes[60..62].try_into().unwrap()));
    assert_eq!(structure.platform_interrupt_ack_register, GenericAddressStructure::decode(bytes[62..74].try_into().unwrap()));
    assert_eq!(structure.platform_interrupt_ack_preserve, u64::from_le_bytes(bytes[74..82].try_into().unwrap()));
    assert_eq!(structure.platform_interrupt_ack_write, u64::from_le_bytes(bytes[82..90].try_into().unwrap()));
    assert_eq!(HWReducedCommunicationsType2::decode(&bytes[..90]), Some(structure));
    assert_eq!(HWReducedCommunicationsType2::decode(&bytes[..89]), None);
    assert_eq!(HWReducedCommunicationsType2::decode(&[]), None);
    assert_eq!(HWReducedCommunicationsType2::SIZE, 90);
}

#[test]
fn hw_registers_based_communications_fields_come_from_their_offsets() {
    let bytes = pattern(98);
    let structure = HWRegistersBasedCommunications::decode(&bytes).unwrap();
    assert_eq!(structure.kind, bytes[0]);
    assert_eq!(structure.length, bytes[1]);
    assert_eq!(structure.version, u16::from_le_bytes(bytes[2..4].try_into().unwrap()));
    assert_eq!(structure.base_address, u64::from_le_bytes(bytes[4..12].try_into().unwrap()));
    assert_eq!(structure.shared_memory_range_length, u64::from_le_bytes(bytes[12..20].try_into().unwrap()));
    assert_eq!(structure.doorbell_register, GenericAddressStructure::decode(bytes[20..32].try_into().unwrap()));
    assert_eq!(structure.doorbell_preserve, u64::from_le_bytes(bytes[32..40].try_into().unwrap()));
    assert_eq!(structure.doorbell_write, u64::from_le_bytes(bytes[40..48].try_into().unwrap()));
    assert_eq!(structure.command_complete_check_register, GenericAddressStructure::decode(bytes[48..60].try_into().unwrap()));
    assert_eq!(structure.command_complete_check_mask, u64::from_le_bytes(bytes[60..68].try_into().unwrap()));
    assert_eq!(structure.error_status_register, GenericAddressStructure::decode(bytes[68..80].try_into().unwrap()));
    assert_eq!(structure.error_status_mask, u64::from_le_bytes(bytes[80..88].try_into().unwrap()));
    assert_eq!(structure.nominal_latency, u32::from_le_bytes(bytes[88..92].try_into().unwrap()));
    assert_eq!(structure.min_request_turnaround_time, u32::from_le_bytes(bytes[92..96].try_into().unwrap()));
    assert_eq!(HWRegistersBasedCommunications::decode(&bytes[..96]), Some(structure));
    assert_eq!(HWRegistersBasedCommunications::decode(&bytes[..95]), None);
    assert_eq!(HWRegistersBasedCommunications::decode(&[]), None);
    assert_eq!(HWRegistersBasedCommunications::SIZE, 96);
}

#[test]
fn generic_communications_channel_smr_fields_come_from_their_offsets() {
    let bytes = pattern(10);
    let structure = GenericCommunicationsChannelSMR::decode(&bytes).unwrap();
    assert_eq!(structure.signature, u32::from_le_bytes(bytes[0..4].try_into().unwrap()));
    assert_eq!(structure.command, GenericCommunicationsChannelCommandField(u16::from_le_bytes(bytes[4..6].try_into().unwrap())));
    assert_eq!(structure.status, GenericCommunicationsChannelStatusField(u16::from_le_bytes(bytes[6..8].try_into().unwrap())));
    assert_eq!(GenericCommunicationsChannelSMR::decode(&bytes[..8]), Some(structure));
    assert_eq!(GenericCommunicationsChannelSMR::decode(&bytes[..7]), None);
    assert_eq!(GenericCommunicationsChannelSMR::decode(&[]), None);
    assert_eq!(GenericCommunicationsChannelSMR::SIZE, 8);
}

#[test]
fn master_slave_communications_channel_smr_fields_come_from_their_offsets() {
    let bytes = pattern(18);
    let structure = MasterSlaveCommunicationsChannelSMR::decode(&bytes).unwrap();
    assert_eq!(structure.signature, u32::from_le_bytes(bytes[0..4].try_into().unwrap()));
    assert_eq!(structure.flags, MasterSlaveCommunicationsChannelFlags(u32::from_le_bytes(bytes[4..8].try_into().unwrap())));
    assert_eq!(structure.length, u32::from_le_bytes(bytes[8..12].try_into().unwrap()));
    assert_eq!(structure.command, u32::from_le_bytes(bytes[12..16].try_into().unwrap()));
    assert_eq!(MasterSlaveCommunicationsChannelSMR::decode(&bytes[..16]), Some(structure));
    assert_eq!(MasterSlaveCommunicationsChannelSMR::decode(&bytes[..15]), None);
    assert_eq!(MasterSlaveCommunicationsChannelSMR::decode(&[]), None);
    assert_eq!(MasterSlaveCommunicationsChannelSMR::SIZE, 16);
}

#[test]
fn reduced_pcc_subspace_smr_fields_come_from_their_offsets() {
    let bytes = pattern(6);
    let structure = ReducedPCCSubspaceSMR::decode(&bytes).unwrap();
    assert_eq!(structure.signature, u32::from_le_bytes(bytes[0..4].try_into().unwrap()));
    assert_eq!(ReducedPCCSubspaceSMR::decode(&bytes[..4]), Some(structure));
    assert_eq!(ReducedPCCSubspaceSMR::decode(&bytes[..3]), None);
    assert_eq!(ReducedPCCSubspaceSMR::decode(&[]), None);
    assert_eq!(ReducedPCCSubspaceSMR::SIZE, 4);
}

#[test]
fn rasf_communication_channel_smr_fields_come_from_their_offsets() {
    let bytes = pattern(50);
    let structure = RASFCommunicationChannelSMR::decode(&bytes).unwrap();
    assert_eq!(structure.signature, u32::from_le_bytes(bytes[0..4].try_into().unwrap()));
    assert_eq!(structure.command, GenericCommunicationsChannelCommandField(u16::from_le_bytes(bytes[4..6].try_into().unwrap())));
    assert_eq!(structure.status, GenericCommunicationsChannelStatusField(u16::from_le_bytes(bytes[6..8].try_into().unwrap())));
    assert_eq!(structure.version, u16::from_le_bytes(bytes[8..10].try_into().unwrap()));
    assert_eq!(structure.ras_capabilites, RASCapabilities(u128::from_le_bytes(bytes[10..26].try_into().unwrap())));
    assert_eq!(structure.set_ras_capabilities, RASCapabilities(u128::from_le_bytes(bytes[26..42].try_into().unwrap())));
    assert_eq!(structure.rasf_parameter_block_num, u16::from_le_bytes(bytes[42..44].try_into().unwrap()));
    assert_eq!(structure.set_ras_capabilities_status, u32::from_le_bytes(bytes[44..48].try_into().unwrap()));
    assert_eq!(RASFCommunicationChannelSMR::decode(&bytes[..48]), Some(structure));
    assert_eq!(RASFCommunicationChannelSMR::decode(&bytes[..47]), None);
    assert_eq!(RASFCommunicationChannelSMR::decode(&[]), None);
    assert_eq!(RASFCommunicationChannelSMR::SIZE, 48);
}

#[test]
fn rasf_fields_come_from_their_offsets() {
    let bytes = table(b"RASF", 48);
    let table = RASF::decode(&bytes).unwrap();
    assert_eq!(table.header, validate(&bytes, Some(*b"RASF")).unwrap());
    assert_eq!(table.header.length, 48);
    assert_eq!(table.rasf_platform_communication_channel_id, bytes[36..48]);
    assert_eq!(RASF::SIZE, 48);
}

#[test]
fn rasf_header_is_validated() {
    let bytes = table(b"RASF", 51);
    assert!(RASF::decode(&bytes).is_ok());
    assert_eq!(RASF::decode(&bytes[..35]), Err(HeaderError::TooShort));
    assert_eq!(RASF::decode(&bytes[..50]), Err(HeaderError::LengthOutOfBounds));
    let other = table(b"RAS_", 48);
    assert_eq!(RASF::decode(&other), Err(HeaderError::SignatureMismatch));
    let mut broken = bytes.clone();
    broken[47] ^= 0x10;
    assert_eq!(RASF::decode(&broken), Err(HeaderError::ChecksumMismatch));
    let short = table(b"RASF", 47);
    assert_eq!(RASF::decode(&short), Err(HeaderError::LengthOutOfBounds));
}
