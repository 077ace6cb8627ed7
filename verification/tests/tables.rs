use acpi_tables::bgrt::BootGraphicsResourceTable;
use acpi_tables::checksum::checksum_for;
use acpi_tables::cpep::{CorrectedPlatformErrorPolling, CorrectedPlatformErrorPollingProcessor};
use acpi_tables::dsdt::DifferentiatedSystemDescriptionTable;
use acpi_tables::ecdt::EmbeddedControllerBootResourcesTable;
use acpi_tables::fadt::{FADTARMBootArch, FADTFixedFeatureFlags, FADTIAPCBootArch, FixedACPIDescriptionTable};
use acpi_tables::gas::GenericAddressStructure;
use acpi_tables::header::{validate, HeaderError};
use acpi_tables::msct::{MaximumProximityDomainInformation, MaximumSystemCharacteristicsTable};
use acpi_tables::psdt::PersistentSystemDescriptionTable;
use acpi_tables::sbst::SmartBatteryTable;
use acpi_tables::slit::SystemLocalityInformationTable;
use acpi_tables::ssdt::SecondarySystemDescriptionTable;

/// Bytes that differ from their neighbours, so that a field read from the
/// wrong place shows.
fn pattern(size: usize) -> Vec<u8> {
    (0..size).map(|i| (i as u8).wrapping_mul(7).wrapping_add(3)).collect()
}

/// A table image of `size` bytes with the given signature, patterned fields
/// and a checksum that makes it sum to zero.
fn table(signature: &[u8; 4], size: usize) -> Vec<u8> {
    let mut bytes = pattern(size);
    bytes[0..4].copy_from_slice(signature);
    bytes[4..8].copy_from_slice(&(size as u32).to_le_bytes());
    bytes[9] = checksum_for(&bytes, 9);
    bytes
}

#[test]
fn boot_graphics_resource_table_fields_come_from_their_offsets() {
    let bytes = table(b"BGRT", 56);
    let table = BootGraphicsResourceTable::decode(&bytes).unwrap();
    assert_eq!(table.header, validate(&bytes, Some(*b"BGRT")).unwrap());
    assert_eq!(table.header.length, 56);
    assert_eq!(table.version, u16::from_le_bytes(bytes[36..38].try_into().unwrap()));
    assert_eq!(table.status, bytes[38]);
    assert_eq!(table.image_type, bytes[39]);
    assert_eq!(table.image_address, u64::from_le_bytes(bytes[40..48].try_into().unwrap()));
    assert_eq!(table.image_offset_x, u32::from_le_bytes(bytes[48..52].try_into().unwrap()));
    assert_eq!(table.image_offset_y, u32::from_le_bytes(bytes[52..56].try_into().unwrap()));
    assert_eq!(BootGraphicsResourceTable::SIZE, 56);
}

#[test]
fn boot_graphics_resource_table_header_is_validated() {
    let bytes = table(b"BGRT", 59);
    assert!(BootGraphicsResourceTable::decode(&bytes).is_ok());
    assert_eq!(BootGraphicsResourceTable::decode(&bytes[..35]), Err(HeaderError::TooShort));
    assert_eq!(BootGraphicsResourceTable::decode(&bytes[..58]), Err(HeaderError::LengthOutOfBounds));
    let other = table(b"BGR_", 56);
    assert_eq!(BootGraphicsResourceTable::decode(&other), Err(HeaderError::SignatureMismatch));
    let mut broken = bytes.clone();
    broken[55] ^= 0x10;
    assert_eq!(BootGraphicsResourceTable::decode(&broken), Err(HeaderError::ChecksumMismatch));
    let short = table(b"BGRT", 55);
    assert_eq!(BootGraphicsResourceTable::decode(&short), Err(HeaderError::LengthOutOfBounds));
}

#[test]
fn corrected_platform_error_polling_processor_fields_come_from_their_offsets() {
    let bytes = pattern(10);
    let structure = CorrectedPlatformErrorPollingProcessor::decode(&bytes).unwrap();
    assert_eq!(structure.kind, bytes[0]);
    assert_eq!(structure.length, bytes[1]);
    assert_eq!(structure.processor_id, bytes[2]);
    assert_eq!(structure.processor_eid, bytes[3]);
    assert_eq!(structure.polling_interval, u32::from_le_bytes(bytes[4..8].try_into().unwrap()));
    assert_eq!(CorrectedPlatformErrorPollingProcessor::decode(&bytes[..8]), Some(structure));
    assert_eq!(CorrectedPlatformErrorPollingProcessor::decode(&bytes[..7]), None);
    assert_eq!(CorrectedPlatformErrorPollingProcessor::decode(&[]), None);
    assert_eq!(CorrectedPlatformErrorPollingProcessor::SIZE, 8);
}

#[test]
fn corrected_platform_error_polling_fields_come_from_their_offsets() {
    let bytes = table(b"CPEP", 44);
    let table = CorrectedPlatformErrorPolling::decode(&bytes).unwrap();
    assert_eq!(table.header, validate(&bytes, Some(*b"CPEP")).unwrap());
    assert_eq!(table.header.length, 44);
    assert_eq!(CorrectedPlatformErrorPolling::SIZE, 44);
}

#[test]
fn corrected_platform_error_polling_header_is_validated() {
    let bytes = table(b"CPEP", 47);
    assert!(CorrectedPlatformErrorPolling::decode(&bytes).is_ok());
    assert_eq!(CorrectedPlatformErrorPolling::decode(&bytes[..35]), Err(HeaderError::TooShort));
    assert_eq!(CorrectedPlatformErrorPolling::decode(&bytes[..46]), Err(HeaderError::LengthOutOfBounds));
    let other = table(b"CPE_", 44);
    assert_eq!(CorrectedPlatformErrorPolling::decode(&other), Err(HeaderError::SignatureMismatch));
    let mut broken = bytes.clone();
    broken[43] ^= 0x10;
    assert_eq!(CorrectedPlatformErrorPolling::decode(&broken), Err(HeaderError::ChecksumMismatch));
    let short = table(b"CPEP", 43);
    assert_eq!(CorrectedPlatformErrorPolling::decode(&short), Err(HeaderError::LengthOutOfBounds));
}

#[test]
fn differentiated_system_description_table_fields_come_from_their_offsets() {
    let bytes = table(b"DSDT", 36);
    let table = DifferentiatedSystemDescriptionTable::decode(&bytes).unwrap();
    assert_eq!(table.header, validate(&bytes, Some(*b"DSDT")).unwrap());
    assert_eq!(table.header.length, 36);
    assert_eq!(DifferentiatedSystemDescriptionTable::SIZE, 36);
}

#[test]
fn differentiated_system_description_table_header_is_validated() {
    let bytes = table(b"DSDT", 39);
    assert!(DifferentiatedSystemDescriptionTable::decode(&bytes).is_ok());
    assert_eq!(DifferentiatedSystemDescriptionTable::decode(&bytes[..35]), Err(HeaderError::TooShort));
    assert_eq!(DifferentiatedSystemDescriptionTable::decode(&bytes[..38]), Err(HeaderError::LengthOutOfBounds));
    let other = table(b"DSD_", 36);
    assert_eq!(DifferentiatedSystemDescriptionTable::decode(&other), Err(HeaderError::SignatureMismatch));
    let mut broken = bytes.clone();
    broken[35] ^= 0x10;
    assert_eq!(DifferentiatedSystemDescriptionTable::decode(&broken), Err(HeaderError::ChecksumMismatch));
}

#[test]
fn embedded_controller_boot_resources_table_fields_come_from_their_offsets() {
    let bytes = table(b"ECDT", 65);
    let table = EmbeddedControllerBootResourcesTable::decode(&bytes).unwrap();
    assert_eq!(table.header, validate(&bytes, Some(*b"ECDT")).unwrap());
    assert_eq!(table.header.length, 65);
    assert_eq!(table.ec_control, GenericAddressStructure::decode(bytes[36..48].try_into().unwrap()));
    assert_eq!(table.ec_data, GenericAddressStructure::decode(bytes[48..60].try_into().unwrap()));
    assert_eq!(table.uid, u32::from_le_bytes(bytes[60..64].try_into().unwrap()));
    assert_eq!(table.gpe_bit, bytes[64]);
    assert_eq!(EmbeddedControllerBootResourcesTable::SIZE, 65);
}

#[test]
fn embedded_controller_boot_resources_table_header_is_validated() {
    let bytes = table(b"ECDT", 68);
    assert!(EmbeddedControllerBootResourcesTable::decode(&bytes).is_ok());
    assert_eq!(EmbeddedControllerBootResourcesTable::decode(&bytes[..35]), Err(HeaderError::TooShort));
    assert_eq!(EmbeddedControllerBootResourcesTable::decode(&bytes[..67]), Err(HeaderError::LengthOutOfBounds));
    let other = table(b"ECD_", 65);
    assert_eq!(EmbeddedControllerBootResourcesTable::decode(&other), Err(HeaderError::SignatureMismatch));
    let mut broken = bytes.clone();
    broken[64] ^= 0x10;
    assert_eq!(EmbeddedControllerBootResourcesTable::decode(&broken), Err(HeaderError::ChecksumMismatch));
    let short = table(b"ECDT", 64);
    assert_eq!(EmbeddedControllerBootResourcesTable::decode(&short), Err(HeaderError::LengthOutOfBounds));
}

#[test]
fn fixed_acpi_description_table_fields_come_from_their_offsets() {
    let bytes = table(b"FACP", 276);
    let table = FixedACPIDescriptionTable::decode(&bytes).unwrap();
    assert_eq!(table.header, validate(&bytes, Some(*b"FACP")).unwrap());
    assert_eq!(table.header.length, 276);
    assert_eq!(table.firmware_ctrl, u32::from_le_bytes(bytes[36..40].try_into().unwrap()));
    assert_eq!(table.dsdt, u32::from_le_bytes(bytes[40..44].try_into().unwrap()));
    assert_eq!(table.int_model, bytes[44]);
    assert_eq!(table.preferred_pm_profile, bytes[45]);
    assert_eq!(table.sci_int, u16::from_le_bytes(bytes[46..48].try_into().unwrap()));
    assert_eq!(table.smi_cmd, u32::from_le_bytes(bytes[48..52].try_into().unwrap()));
    assert_eq!(table.acpi_enable, bytes[52]);
    assert_eq!(table.acpi_disable, bytes[53]);
    assert_eq!(table.s4bios_req, bytes[54]);
    assert_eq!(table.pstate_cnt, bytes[55]);
    assert_eq!(table.pm1a_evt_blk, u32::from_le_bytes(bytes[56..60].try_into().unwrap()));
    assert_eq!(table.pm1b_evt_blk, u32::from_le_bytes(bytes[60..64].try_into().unwrap()));
    assert_eq!(table.pm1a_cnt_blk, u32::from_le_bytes(bytes[64..68].try_into().unwrap()));
    assert_eq!(table.pm1b_cnt_blk, u32::from_le_bytes(bytes[68..72].try_into().unwrap()));
    assert_eq!(table.pm2_cnt_blk, u32::from_le_bytes(bytes[72..76].try_into().unwrap()));
    assert_eq!(table.pm_tmr_blk, u32::from_le_bytes(bytes[76..80].try_into().unwrap()));
    assert_eq!(table.gpe0_blk, u32::from_le_bytes(bytes[80..84].try_into().unwrap()));
    assert_eq!(table.gpe1_blk, u32::from_le_bytes(bytes[84..88].try_into().unwrap()));
    assert_eq!(table.pm1_evt_len, bytes[88]);
    assert_eq!(table.pm1_cnt_len, bytes[89]);
    assert_eq!(table.pm2_cnt_len, bytes[90]);
    assert_eq!(table.pm_tmr_len, bytes[91]);
    assert_eq!(table.gpe0_blk_len, bytes[92]);
    assert_eq!(table.gpe1_blk_len, bytes[93]);
    assert_eq!(table.gpe1_base, bytes[94]);
    assert_eq!(table.cst_cnt, bytes[95]);
    assert_eq!(table.p_lvl2_lat, u16::from_le_bytes(bytes[96..98].try_into().unwrap()));
    assert_eq!(table.p_lvl3_lat, u16::from_le_bytes(bytes[98..100].try_into().unwrap()));
    assert_eq!(table.flush_size, u16::from_le_bytes(bytes[100..102].try_into().unwrap()));
    assert_eq!(table.flush_stride, u16::from_le_bytes(bytes[102..104].try_into().unwrap()));
    assert_eq!(table.duty_offset, bytes[104]);
    assert_eq!(table.duty_width, bytes[105]);
    assert_eq!(table.day_alrm, bytes[106]);
    assert_eq!(table.mon_alrm, bytes[107]);
    assert_eq!(table.century, bytes[108]);
    assert_eq!(table.iapc_boot_arch, FADTIAPCBootArch(u16::from_le_bytes(bytes[109..111].try_into().unwrap())));
    assert_eq!(table.flags, FADTFixedFeatureFlags(u32::from_le_bytes(bytes[112..116].try_into().unwrap())));
    assert_eq!(table.reset_reg, GenericAddressStructure::decode(bytes[116..128].try_into().unwrap()));
    assert_eq!(table.reset_value, bytes[128]);
    assert_eq!(table.arm_boot_arch, FADTARMBootArch(u16::from_le_bytes(bytes[129..131].try_into().unwrap())));
    assert_eq!(table.minor_version, bytes[131]);
    assert_eq!(table.x_firmware_ctrl, u64::from_le_bytes(bytes[132..140].try_into().unwrap()));
    assert_eq!(table.x_dsdt, u64::from_le_bytes(bytes[140..148].try_into().unwrap()));
    assert_eq!(table.x_pm1a_evt_blk, GenericAddressStructure::decode(bytes[148..160].try_into().unwrap()));
    assert_eq!(table.x_pm1b_evt_blk, GenericAddressStructure::decode(bytes[160..172].try_into().unwrap()));
    assert_eq!(table.x_pm1a_cnt_blk, GenericAddressStructure::decode(bytes[172..184].try_into().unwrap()));
    assert_eq!(table.x_pm1b_cnt_blk, GenericAddressStructure::decode(bytes[184..196].try_into().unwrap()));
    assert_eq!(table.x_pm2_cnt_blk, GenericAddressStructure::decode(bytes[196..208].try_into().unwrap()));
    assert_eq!(table.x_pm_tmr_blk, GenericAddressStructure::decode(bytes[208..220].try_into().unwrap()));
    assert_eq!(table.x_gpe0_blk, GenericAddressStructure::decode(bytes[220..232].try_into().unwrap()));
    assert_eq!(table.x_gpe1_blk, GenericAddressStructure::decode(bytes[232..244].try_into().unwrap()));
    assert_eq!(table.sleep_control_reg, GenericAddressStructure::decode(bytes[244..256].try_into().unwrap()));
    assert_eq!(table.sleep_status_reg, GenericAddressStructure::decode(bytes[256..268].try_into().unwrap()));
    assert_eq!(table.hypervisor_vendor_identity, u64::from_le_bytes(bytes[268..276].try_into().unwrap()));
    assert_eq!(FixedACPIDescriptionTable::SIZE, 276);
}

#[test]
fn fixed_acpi_description_table_header_is_validated() {
    let bytes = table(b"FACP", 279);
    assert!(FixedACPIDescriptionTable::decode(&bytes).is_ok());
    assert_eq!(FixedACPIDescriptionTable::decode(&bytes[..35]), Err(HeaderError::TooShort));
    assert_eq!(FixedACPIDescriptionTable::decode(&bytes[..278]), Err(HeaderError::LengthOutOfBounds));
    let other = table(b"FAC_", 276);
    assert_eq!(FixedACPIDescriptionTable::decode(&other), Err(HeaderError::SignatureMismatch));
    let mut broken = bytes.clone();
    broken[275] ^= 0x10;
    assert_eq!(FixedACPIDescriptionTable::decode(&broken), Err(HeaderError::ChecksumMismatch));
    let short = table(b"FACP", 275);
    assert_eq!(FixedACPIDescriptionTable::decode(&short), Err(HeaderError::LengthOutOfBounds));
}

#[test]
fn maximum_proximity_domain_information_fields_come_from_their_offsets() {
    let bytes = pattern(24);
    let structure = MaximumProximityDomainInformation::decode(&bytes).unwrap();
    assert_eq!(structure.revision, bytes[0]);
    assert_eq!(structure.length, bytes[1]);
    assert_eq!(structure.proximity_domain_range_low, u32::from_le_bytes(bytes[2..6].try_into().unwrap()));
    assert_eq!(structure.proximity_domain_range_high, u32::from_le_bytes(bytes[6..10].try_into().unwrap()));
    assert_eq!(structure.max_processor_capacity, u32::from_le_bytes(bytes[10..14].try_into().unwrap()));
    assert_eq!(structure.max_memory_capacity, u64::from_le_bytes(bytes[14..22].try_into().unwrap()));
    assert_eq!(MaximumProximityDomainInformation::decode(&bytes[..22]), Some(structure));
    assert_eq!(MaximumProximityDomainInformation::decode(&bytes[..21]), None);
    assert_eq!(MaximumProximityDomainInformation::decode(&[]), None);
    assert_eq!(MaximumProximityDomainInformation::SIZE, 22);
}

#[test]
fn maximum_system_characteristics_table_fields_come_from_their_offsets() {
    let bytes = table(b"MSCT", 56);
    let table = MaximumSystemCharacteristicsTable::decode(&bytes).unwrap();
    assert_eq!(table.header, validate(&bytes, Some(*b"MSCT")).unwrap());
    assert_eq!(table.header.length, 56);
    assert_eq!(table.offset_prox_dom_info, u32::from_le_bytes(bytes[36..40].try_into().unwrap()));
    assert_eq!(table.max_number_of_proximity_domains, u32::from_le_bytes(bytes[40..44].try_into().unwrap()));
    assert_eq!(table.max_number_of_clock_domains, u32::from_le_bytes(bytes[44..48].try_into().unwrap()));
    assert_eq!(table.max_physical_address, u64::from_le_bytes(bytes[48..56].try_into().unwrap()));
    assert_eq!(MaximumSystemCharacteristicsTable::SIZE, 56);
}

#[test]
fn maximum_system_characteristics_table_header_is_validated() {
    let bytes = table(b"MSCT", 59);
    assert!(MaximumSystemCharacteristicsTable::decode(&bytes).is_ok());
    assert_eq!(MaximumSystemCharacteristicsTable::decode(&bytes[..35]), Err(HeaderError::TooShort));
    assert_eq!(MaximumSystemCharacteristicsTable::decode(&bytes[..58]), Err(HeaderError::LengthOutOfBounds));
    let other = table(b"MSC_", 56);
    assert_eq!(MaximumSystemCharacteristicsTable::decode(&other), Err(HeaderError::SignatureMismatch));
    let mut broken = bytes.clone();
    broken[55] ^= 0x10;
    assert_eq!(MaximumSystemCharacteristicsTable::decode(&broken), Err(HeaderError::ChecksumMismatch));
    let short = table(b"MSCT", 55);
    assert_eq!(MaximumSystemCharacteristicsTable::decode(&short), Err(HeaderError::LengthOutOfBounds));
}

#[test]
fn persistent_system_description_table_fields_come_from_their_offsets() {
    let bytes = table(b"PSDT", 36);
    let table = PersistentSystemDescriptionTable::decode(&bytes).unwrap();
    assert_eq!(table.header, validate(&bytes, Some(*b"PSDT")).unwrap());
    assert_eq!(table.header.length, 36);
    assert_eq!(PersistentSystemDescriptionTable::SIZE, 36);
}

#[test]
fn persistent_system_description_table_header_is_validated() {
    let bytes = table(b"PSDT", 39);
    assert!(PersistentSystemDescriptionTable::decode(&bytes).is_ok());
    assert_eq!(PersistentSystemDescriptionTable::decode(&bytes[..35]), Err(HeaderError::TooShort));
    assert_eq!(PersistentSystemDescriptionTable::decode(&bytes[..38]), Err(HeaderError::LengthOutOfBounds));
    let other = table(b"PSD_", 36);
    assert_eq!(PersistentSystemDescriptionTable::decode(&other), Err(HeaderError::SignatureMismatch));
    let mut broken = bytes.clone();
    broken[35] ^= 0x10;
    assert_eq!(PersistentSystemDescriptionTable::decode(&broken), Err(HeaderError::ChecksumMismatch));
}

#[test]
fn smart_battery_table_fields_come_from_their_offsets() {
    let bytes = table(b"SBST", 48);
    let table = SmartBatteryTable::decode(&bytes).unwrap();
    assert_eq!(table.header, validate(&bytes, Some(*b"SBST")).unwrap());
    assert_eq!(table.header.length, 48);
    assert_eq!(table.warning_evergy_level, u32::from_le_bytes(bytes[36..40].try_into().unwrap()));
    assert_eq!(table.low_energy_level, u32::from_le_bytes(bytes[40..44].try_into().unwrap()));
    assert_eq!(table.critical_energy_level, u32::from_le_bytes(bytes[44..48].try_into().unwrap()));
    assert_eq!(SmartBatteryTable::SIZE, 48);
}

#[test]
fn smart_battery_table_header_is_validated() {
    let bytes = table(b"SBST", 51);
    assert!(SmartBatteryTable::decode(&bytes).is_ok());
    assert_eq!(SmartBatteryTable::decode(&bytes[..35]), Err(HeaderError::TooShort));
    assert_eq!(SmartBatteryTable::decode(&bytes[..50]), Err(HeaderError::LengthOutOfBounds));
    let other = table(b"SBS_", 48);
    assert_eq!(SmartBatteryTable::decode(&other), Err(HeaderError::SignatureMismatch));
    let mut broken = bytes.clone();
    broken[47] ^= 0x10;
    assert_eq!(SmartBatteryTable::decode(&broken), Err(HeaderError::ChecksumMismatch));
    let short = table(b"SBST", 47);
    assert_eq!(SmartBatteryTable::decode(&short), Err(HeaderError::LengthOutOfBounds));
}

#[test]
fn system_locality_information_table_fields_come_from_their_offsets() {
    let bytes = table(b"SLIT", 44);
    let table = SystemLocalityInformationTable::decode(&bytes).unwrap();
    assert_eq!(table.header, validate(&bytes, Some(*b"SLIT")).unwrap());
    assert_eq!(table.header.length, 44);
    assert_eq!(table.system_localities_num, u64::from_le_bytes(bytes[36..44].try_into().unwrap()));
    assert_eq!(SystemLocalityInformationTable::SIZE, 44);
}

#[test]
fn system_locality_information_table_header_is_validated() {
    let bytes = table(b"SLIT", 47);
    assert!(SystemLocalityInformationTable::decode(&bytes).is_ok());
    assert_eq!(SystemLocalityInformationTable::decode(&bytes[..35]), Err(HeaderError::TooShort));
    assert_eq!(SystemLocalityInformationTable::decode(&bytes[..46]), Err(HeaderError::LengthOutOfBounds));
    let other = table(b"SLI_", 44);
    assert_eq!(SystemLocalityInformationTable::decode(&other), Err(HeaderError::SignatureMismatch));
    let mut broken = bytes.clone();
    broken[43] ^= 0x10;
    assert_eq!(SystemLocalityInformationTable::decode(&broken), Err(HeaderError::ChecksumMismatch));
    let short = table(b"SLIT", 43);
    assert_eq!(SystemLocalityInformationTable::decode(&short), Err(HeaderError::LengthOutOfBounds));
}

#[test]
fn secondary_system_description_table_fields_come_from_their_offsets() {
    let bytes = table(b"SSDT", 36);
    let table = SecondarySystemDescriptionTable::decode(&bytes).unwrap();
    assert_eq!(table.header, validate(&bytes, Some(*b"SSDT")).unwrap());
    assert_eq!(table.header.length, 36);
    assert_eq!(SecondarySystemDescriptionTable::SIZE, 36);
}

#[test]
fn secondary_system_description_table_header_is_validated() {
    let bytes = table(b"SSDT", 39);
    assert!(SecondarySystemDescriptionTable::decode(&bytes).is_ok());
    assert_eq!(SecondarySystemDescriptionTable::decode(&bytes[..35]), Err(HeaderError::TooShort));
    assert_eq!(SecondarySystemDescriptionTable::decode(&bytes[..38]), Err(HeaderError::LengthOutOfBounds));
    let other = table(b"SSD_", 36);
    assert_eq!(SecondarySystemDescriptionTable::decode(&other), Err(HeaderError::SignatureMismatch));
    let mut broken = bytes.clone();
    broken[35] ^= 0x10;
    assert_eq!(SecondarySystemDescriptionTable::decode(&broken), Err(HeaderError::ChecksumMismatch));
}
