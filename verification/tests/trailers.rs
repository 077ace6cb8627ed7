use acpi_tables::bgrt::BootGraphicsResourceTable;
use acpi_tables::checksum::checksum_for;
use acpi_tables::cpep::{CorrectedPlatformErrorPolling, CorrectedPlatformErrorPollingProcessor};
use acpi_tables::dsdt::DifferentiatedSystemDescriptionTable;
use acpi_tables::ecdt::EmbeddedControllerBootResourcesTable;
use acpi_tables::facs::{FACSGlobalLock, FirmwareACPIControl, OEFACSFlags};
use acpi_tables::header::HeaderError;
use acpi_tables::madt::interrupt_source_override::{
    InterruptSourceOverride, InterruptSourceOverridePolarity, InterruptSourceOverrideTriggerMode,
};
use acpi_tables::madt::ioapic::IOAPIC;
use acpi_tables::madt::local_sapic::LocalSAPIC;
use acpi_tables::madt::multiprocessor_wakeup::MultiprocessorWakeup;
use acpi_tables::madt::proc_local_apic::ProcessorLocalAPIC;
use acpi_tables::madt::MADT;
use acpi_tables::msct::{MaximumProximityDomainInformation, MaximumSystemCharacteristicsTable};
use acpi_tables::pcct::subspace::extended::ExtendedPCC;
use acpi_tables::pcct::subspace::generic::GenericCommunications;
use acpi_tables::pcct::subspace::hw_reduced::{
    HWReducedCommunicationsType1, HWReducedCommunicationsType2,
};
use acpi_tables::pcct::subspace::hw_reg::HWRegistersBasedCommunications;
use acpi_tables::pcct::subspace::{
    region_header, region_subspace, GenericCommunicationsChannelSMR,
};
use acpi_tables::pcct::PlatformCommunicationsChannel;
use acpi_tables::psdt::PersistentSystemDescriptionTable;
use acpi_tables::range::{BoundsError, ByteRange, Region};
use acpi_tables::rasf::RASFCommunicationChannelSMR;
use acpi_tables::records::{count_records, RecordWalker};
use acpi_tables::slit::SystemLocalityInformationTable;
use acpi_tables::srat::affinity::generic_initiator::GenericInitiatorAffinity;
use acpi_tables::srat::affinity::generic_port::GenericPortAffinity;
use acpi_tables::srat::affinity::memory::MemoryAffinity;
use acpi_tables::srat::{ACPIDeviceHandle, DeviceHandle, PCIDeviceHandle, SRAT};
use acpi_tables::ssdt::SecondarySystemDescriptionTable;

/// A table image with the given signature, fixed fields and trailer, and a
/// checksum that makes it sum to zero.
fn table(signature: &[u8; 4], fixed: &[u8], trailer: &[u8]) -> Vec<u8> {
    let mut bytes = vec![0u8; 36];
    bytes[0..4].copy_from_slice(signature);
    bytes[8] = 1;
    bytes.extend_from_slice(fixed);
    bytes.extend_from_slice(trailer);
    let length = bytes.len() as u32;
    bytes[4..8].copy_from_slice(&length.to_le_bytes());
    bytes[9] = checksum_for(&bytes, 9);
    bytes
}

#[test]
fn definition_block_follows_the_header() {
    let aml = [0x10u8, 0x20, 0x5C, 0x5F, 0x53, 0x42, 0x5F];
    let bytes = table(b"DSDT", &[], &aml);
    let region = Region::new(0x7000, &bytes).unwrap();
    let dsdt = DifferentiatedSystemDescriptionTable::decode(&bytes).unwrap();
    let block = dsdt.def_block(0x7000).unwrap();
    assert_eq!(block, ByteRange { start: 0x7024, end: 0x702B });
    assert_eq!(region.window(block), Some(&aml[..]));
}

#[test]
fn definition_block_may_be_empty() {
    let bytes = table(b"SSDT", &[], &[]);
    let ssdt = SecondarySystemDescriptionTable::decode(&bytes).unwrap();
    assert_eq!(ssdt.def_block(100), Ok(ByteRange { start: 136, end: 136 }));
    let bytes = table(b"PSDT", &[], &[1]);
    let psdt = PersistentSystemDescriptionTable::decode(&bytes).unwrap();
    assert_eq!(psdt.def_block(0), Ok(ByteRange { start: 36, end: 37 }));
}

#[test]
fn definition_block_of_a_hand_made_header_is_bounds_checked() {
    let bytes = table(b"DSDT", &[], &[]);
    let mut dsdt = DifferentiatedSystemDescriptionTable::decode(&bytes).unwrap();
    dsdt.header.length = 35;
    assert_eq!(dsdt.def_block(0), Err(BoundsError::NegativeOrZeroTrailer));
    dsdt.header.length = 40;
    assert_eq!(dsdt.def_block(u64::MAX - 39), Err(BoundsError::AddressOverflow));
    assert_eq!(
        dsdt.def_block(u64::MAX - 40),
        Ok(ByteRange { start: u64::MAX - 4, end: u64::MAX })
    );
}

#[test]
fn definition_block_tables_check_their_signature() {
    let bytes = table(b"DSDT", &[], &[]);
    assert_eq!(
        SecondarySystemDescriptionTable::decode(&bytes),
        Err(HeaderError::SignatureMismatch)
    );
    assert_eq!(
        PersistentSystemDescriptionTable::decode(&bytes),
        Err(HeaderError::SignatureMismatch)
    );
}

#[test]
fn cpep_processor_structures_are_8_bytes_each() {
    let processors = [0u8, 8, 3, 4, 0x10, 0x27, 0, 0, 0, 8, 5, 6, 0xE8, 0x03, 0, 0];
    let bytes = table(b"CPEP", &[0; 8], &processors);
    let region = Region::new(0x100, &bytes).unwrap();
    let cpep = CorrectedPlatformErrorPolling::decode(&bytes).unwrap();
    let array = cpep.cpep_processor_structures(0x100).unwrap();
    assert_eq!(array.count(), 2);
    assert_eq!(array.element_size, 8);
    assert_eq!(array.range, ByteRange { start: 0x100 + 44, end: 0x100 + 60 });
    let first =
        CorrectedPlatformErrorPollingProcessor::decode(region.element(&array, 0).unwrap()).unwrap();
    assert_eq!(first.processor_id, 3);
    assert_eq!(first.processor_eid, 4);
    assert_eq!(first.polling_interval, 10_000);
    let second =
        CorrectedPlatformErrorPollingProcessor::decode(region.element(&array, 1).unwrap()).unwrap();
    assert_eq!(second.processor_id, 5);
    assert_eq!(second.polling_interval, 1_000);
    assert_eq!(region.element(&array, 2), None);
}

#[test]
fn cpep_processor_structures_must_divide_evenly() {
    let bytes = table(b"CPEP", &[0; 8], &[0; 12]);
    let cpep = CorrectedPlatformErrorPolling::decode(&bytes).unwrap();
    assert_eq!(cpep.cpep_processor_structures(0), Err(BoundsError::MisalignedTrailer));
    let bytes = table(b"CPEP", &[0; 8], &[]);
    let cpep = CorrectedPlatformErrorPolling::decode(&bytes).unwrap();
    assert_eq!(cpep.cpep_processor_structures(0).unwrap().count(), 0);
}

#[test]
fn ec_id_follows_the_fixed_fields() {
    let mut fixed = vec![0u8; 29];
    fixed[24..28].copy_from_slice(&7u32.to_le_bytes());
    fixed[28] = 9;
    let name = b"\\_SB.PCI0.ISA.EC\0";
    let bytes = table(b"ECDT", &fixed, name);
    let region = Region::new(0, &bytes).unwrap();
    let ecdt = EmbeddedControllerBootResourcesTable::decode(&bytes).unwrap();
    assert_eq!(ecdt.uid, 7);
    assert_eq!(ecdt.gpe_bit, 9);
    let range = ecdt.ec_id(0).unwrap();
    assert_eq!(range, ByteRange { start: 0x41, end: 0x41 + name.len() as u64 });
    assert_eq!(region.window(range), Some(&name[..]));
}

#[test]
fn ec_id_is_never_empty() {
    let bytes = table(b"ECDT", &[0; 29], &[]);
    let ecdt = EmbeddedControllerBootResourcesTable::decode(&bytes).unwrap();
    assert_eq!(ecdt.ec_id(0), Err(BoundsError::NegativeOrZeroTrailer));
}

#[test]
fn slit_matrix_is_the_square_of_the_number_of_localities() {
    let mut fixed = vec![0u8; 8];
    fixed[0] = 3;
    let matrix = [10u8, 20, 30, 20, 10, 40, 30, 40, 10];
    let bytes = table(b"SLIT", &fixed, &matrix);
    let region = Region::new(0x500, &bytes).unwrap();
    let slit = SystemLocalityInformationTable::decode(&bytes).unwrap();
    assert_eq!(slit.system_localities_num, 3);
    let range = slit.entries_flat(0x500).unwrap();
    assert_eq!(range, ByteRange { start: 0x500 + 44, end: 0x500 + 53 });
    let cells = region.window(range).unwrap();
    assert_eq!(cells[1 * 3 + 2], 40);
    assert_eq!(cells[2 * 3 + 0], 30);
}

#[test]
fn slit_matrix_must_lie_within_the_table() {
    let mut fixed = vec![0u8; 8];
    fixed[0] = 3;
    let bytes = table(b"SLIT", &fixed, &[0; 8]);
    let slit = SystemLocalityInformationTable::decode(&bytes).unwrap();
    assert_eq!(slit.entries_flat(0), Err(BoundsError::OffsetBeyondLength));
    let huge = table(b"SLIT", &[0xFF; 8], &[]);
    let slit = SystemLocalityInformationTable::decode(&huge).unwrap();
    assert_eq!(slit.system_localities_num, u64::MAX);
    assert_eq!(slit.entries_flat(0), Err(BoundsError::OffsetBeyondLength));
    let mut fixed = vec![0u8; 8];
    fixed[2] = 1;
    let wide = table(b"SLIT", &fixed, &[]);
    let slit = SystemLocalityInformationTable::decode(&wide).unwrap();
    assert_eq!(slit.system_localities_num, 0x1_0000);
    assert_eq!(slit.entries_flat(0), Err(BoundsError::OffsetBeyondLength));
    let none = table(b"SLIT", &[0; 8], &[]);
    let slit = SystemLocalityInformationTable::decode(&none).unwrap();
    assert_eq!(slit.entries_flat(0), Ok(ByteRange { start: 44, end: 44 }));
    assert_eq!(slit.entries_flat(u64::MAX - 43), Err(BoundsError::AddressOverflow));
}

/// An MSCT image whose information structures start at `offset`.
fn msct(offset: u32, trailer: &[u8]) -> Vec<u8> {
    let mut fixed = vec![0u8; 20];
    fixed[0..4].copy_from_slice(&offset.to_le_bytes());
    fixed[4..8].copy_from_slice(&3u32.to_le_bytes());
    fixed[8..12].copy_from_slice(&1u32.to_le_bytes());
    fixed[12..20].copy_from_slice(&0xF_FFFF_FFFFu64.to_le_bytes());
    table(b"MSCT", &fixed, trailer)
}

#[test]
fn msct_structures_start_at_the_declared_offset() {
    let mut trailer = vec![0xEEu8; 4];
    let mut structure = vec![1u8, 22];
    structure.extend_from_slice(&0u32.to_le_bytes());
    structure.extend_from_slice(&3u32.to_le_bytes());
    structure.extend_from_slice(&16u32.to_le_bytes());
    structure.extend_from_slice(&0x4000_0000u64.to_le_bytes());
    trailer.extend_from_slice(&structure);
    trailer.extend_from_slice(&structure);
    let bytes = msct(60, &trailer);
    assert_eq!(bytes.len(), 104);
    let region = Region::new(0x9000, &bytes).unwrap();
    let table = MaximumSystemCharacteristicsTable::decode(&bytes).unwrap();
    assert_eq!(table.offset_prox_dom_info, 60);
    assert_eq!(table.max_number_of_proximity_domains, 3);
    assert_eq!(table.max_number_of_clock_domains, 1);
    assert_eq!(table.max_physical_address, 0xF_FFFF_FFFF);
    let array = table.proximity_domain_information(0x9000).unwrap();
    assert_eq!(array.range, ByteRange { start: 0x9000 + 60, end: 0x9000 + 104 });
    assert_eq!(array.element_size, 22);
    assert_eq!(array.count(), 2);
    let second =
        MaximumProximityDomainInformation::decode(region.element(&array, 1).unwrap()).unwrap();
    assert_eq!(second.revision, 1);
    assert_eq!(second.length, 22);
    assert_eq!(second.proximity_domain_range_low, 0);
    assert_eq!(second.proximity_domain_range_high, 3);
    assert_eq!(second.max_processor_capacity, 16);
    assert_eq!(second.max_memory_capacity, 0x4000_0000);
}

#[test]
fn msct_offset_is_checked_against_length_and_fixed_fields() {
    let bytes = msct(101, &[0; 44]);
    let table = MaximumSystemCharacteristicsTable::decode(&bytes).unwrap();
    assert_eq!(table.proximity_domain_information(0), Err(BoundsError::OffsetBeyondLength));
    let bytes = msct(55, &[0; 44]);
    let table = MaximumSystemCharacteristicsTable::decode(&bytes).unwrap();
    assert_eq!(table.proximity_domain_information(0), Err(BoundsError::OffsetBeforeHeader));
    let bytes = msct(0, &[0; 44]);
    let table = MaximumSystemCharacteristicsTable::decode(&bytes).unwrap();
    assert_eq!(table.proximity_domain_information(0), Err(BoundsError::OffsetBeforeHeader));
    let bytes = msct(57, &[0; 44]);
    let table = MaximumSystemCharacteristicsTable::decode(&bytes).unwrap();
    assert_eq!(table.proximity_domain_information(0), Err(BoundsError::MisalignedTrailer));
    let bytes = msct(56, &[0; 44]);
    let table = MaximumSystemCharacteristicsTable::decode(&bytes).unwrap();
    assert_eq!(table.proximity_domain_information(0).unwrap().count(), 2);
    let bytes = msct(100, &[0; 44]);
    let table = MaximumSystemCharacteristicsTable::decode(&bytes).unwrap();
    assert_eq!(table.proximity_domain_information(0).unwrap().count(), 0);
}

#[test]
fn madt_interrupt_controllers_are_walked_and_decoded() {
    let mut fixed = vec![0u8; 8];
    fixed[0..4].copy_from_slice(&0xFEE0_0000u32.to_le_bytes());
    fixed[4] = 1;
    let list = [
        0u8, 8, 0, 0x10, 1, 0, 0, 0, // processor local APIC
        1, 12, 2, 0, 0x00, 0x00, 0xC0, 0xFE, 0, 0, 0, 0, // I/O APIC
        2, 10, 0, 9, 9, 0, 0, 0, 0x0D, 0x00, // interrupt source override
        0x42, 4, 0xAA, 0xBB, // a kind that is not known
    ];
    let bytes = table(b"APIC", &fixed, &list);
    let region = Region::new(0xE000, &bytes).unwrap();
    let madt = MADT::decode(&bytes).unwrap();
    assert_eq!(madt.local_interrupt_controller_address, 0xFEE0_0000);
    assert!(madt.flags.pcat_compat());
    let range = madt.interrupt_controller_structure(0xE000).unwrap();
    assert_eq!(range, ByteRange { start: 0xE000 + 44, end: 0xE000 + 44 + list.len() as u64 });
    let mut walker = RecordWalker::new(region.window(range).unwrap());

    let record = walker.next().unwrap().unwrap();
    assert_eq!(record.kind, 0);
    let lapic = ProcessorLocalAPIC::decode(record.raw).unwrap();
    assert_eq!(lapic.length, 8);
    assert_eq!(lapic.acpi_processor_uid, 0);
    assert!(lapic.flags.enabled());
    assert!(!lapic.flags.online_capable());

    let record = walker.next().unwrap().unwrap();
    assert_eq!(record.kind, 1);
    let ioapic = IOAPIC::decode(record.raw).unwrap();
    assert_eq!(ioapic.io_apic_id, 2);
    assert_eq!(ioapic.io_apic_address, 0xFEC0_0000);
    assert_eq!(ioapic.global_system_interrupt_base, 0);

    let record = walker.next().unwrap().unwrap();
    assert_eq!(record.kind, 2);
    let iso = InterruptSourceOverride::decode(record.raw).unwrap();
    assert_eq!(iso.bus, 0);
    assert_eq!(iso.source, 9);
    assert_eq!(iso.global_system_interrupt, 9);
    assert_eq!(iso.flags.polarity(), InterruptSourceOverridePolarity::ActiveHigh);
    assert_eq!(iso.flags.trigger_mode(), InterruptSourceOverrideTriggerMode::LevelTriggered);

    let record = walker.next().unwrap().unwrap();
    assert_eq!(record.kind, 0x42);
    assert_eq!(record.payload, &[0xAA, 0xBB]);
    // A structure that is too short for the type asked of it is not decoded.
    assert_eq!(IOAPIC::decode(record.raw), None);

    assert!(walker.next().is_none());
    assert!(walker.is_complete());
}

#[test]
fn madt_list_with_a_record_that_overruns_is_truncated() {
    let list = [0u8, 8, 0, 0x10, 1, 0, 0, 0, 1, 12, 2, 0];
    let bytes = table(b"APIC", &[0; 8], &list);
    let region = Region::new(0, &bytes).unwrap();
    let madt = MADT::decode(&bytes).unwrap();
    let range = madt.interrupt_controller_structure(0).unwrap();
    assert_eq!(count_records(region.window(range).unwrap()), Err(BoundsError::TruncatedRecord));
}

#[test]
fn local_sapic_uid_string_follows_its_fixed_fields() {
    let mut record = vec![7u8, 21, 1, 2, 3, 0, 0, 0, 1, 0, 0, 0, 5, 0, 0, 0];
    record.extend_from_slice(b"CPU0\0");
    let sapic = LocalSAPIC::decode(&record).unwrap();
    assert_eq!(sapic.length, 21);
    assert_eq!(sapic.acpi_processor_uid_value, 5);
    let region = Region::new(0x300, &record).unwrap();
    let range = sapic.acpi_processor_uid_string(0x300).unwrap();
    assert_eq!(range, ByteRange { start: 0x310, end: 0x315 });
    assert_eq!(region.window(range), Some(&b"CPU0\0"[..]));
    record[1] = 16;
    let bare = LocalSAPIC::decode(&record).unwrap();
    assert_eq!(bare.acpi_processor_uid_string(0x300), Err(BoundsError::NegativeOrZeroTrailer));
}

#[test]
fn wakeup_mailbox_is_4096_bytes_at_its_address() {
    let mut record = vec![0x10u8, 16, 0, 0, 0, 0, 0, 0];
    record.extend_from_slice(&0x8_0000u64.to_le_bytes());
    let wakeup = MultiprocessorWakeup::decode(&record).unwrap();
    assert_eq!(wakeup.mailbox_address, 0x8_0000);
    assert_eq!(wakeup.mailbox_address(), Ok(ByteRange { start: 0x8_0000, end: 0x8_1000 }));
    let mut top = wakeup;
    top.mailbox_address = u64::MAX - 4096;
    assert_eq!(top.mailbox_address(), Ok(ByteRange { start: u64::MAX - 4096, end: u64::MAX }));
    top.mailbox_address = u64::MAX - 4095;
    assert_eq!(top.mailbox_address(), Err(BoundsError::AddressOverflow));
}

#[test]
fn pcct_subspaces_are_a_list_after_the_fixed_fields() {
    let mut fixed = vec![0u8; 12];
    fixed[0] = 1;
    let mut subspace = vec![0u8; 62];
    subspace[1] = 62;
    subspace[8..16].copy_from_slice(&0x4000u64.to_le_bytes());
    subspace[16..24].copy_from_slice(&0x100u64.to_le_bytes());
    let bytes = table(b"PCCT", &fixed, &subspace);
    let region = Region::new(0, &bytes).unwrap();
    let pcct = PlatformCommunicationsChannel::decode(&bytes).unwrap();
    assert!(pcct.flags.platform_interrupt());
    let range = pcct.pcc_subspace_structure(0).unwrap();
    assert_eq!(range, ByteRange { start: 48, end: 110 });
    let mut walker = RecordWalker::new(region.window(range).unwrap());
    let record = walker.next().unwrap().unwrap();
    let generic = GenericCommunications::decode(record.raw).unwrap();
    assert_eq!(generic.base_address, 0x4000);
    assert_eq!(generic.memory_length, 0x100);
    assert_eq!(generic.smr(), Ok(ByteRange { start: 0x4000, end: 0x4008 }));
    assert_eq!(generic.comm_space(), Ok(ByteRange { start: 0x4008, end: 0x4100 }));
    assert!(walker.next().is_none());
}

#[test]
fn shared_memory_region_is_read_through_a_region_that_holds_it() {
    let mut shared = vec![0u8; 24];
    shared[0..4].copy_from_slice(&0x5043_4303u32.to_le_bytes());
    shared[4..6].copy_from_slice(&0x8001u16.to_le_bytes());
    shared[6..8].copy_from_slice(&0x0005u16.to_le_bytes());
    shared[8..24].copy_from_slice(&[0x77; 16]);
    let region = Region::new(0x4000, &shared).unwrap();
    let header = region_header(0x4000, 24, 8).unwrap();
    let smr = GenericCommunicationsChannelSMR::decode(region.window(header).unwrap()).unwrap();
    assert_eq!(smr.signature, 0x5043_4303);
    assert_eq!(smr.command.command(), 1);
    assert!(smr.command.notify_on_completion());
    assert!(smr.status.command_complete());
    assert!(!smr.status.platform_interrupt());
    assert!(smr.status.error());
    let subspace = region_subspace(0x4000, 24, 8).unwrap();
    assert_eq!(region.window(subspace), Some(&[0x77u8; 16][..]));
    // A length that firmware overstates gives a range that the region refuses.
    let overstated = region_subspace(0x4000, 25, 8).unwrap();
    assert_eq!(region.window(overstated), None);
}

#[test]
fn shared_memory_region_shorter_than_its_header_is_refused() {
    assert_eq!(region_header(0x4000, 7, 8), Err(BoundsError::OffsetBeyondLength));
    assert_eq!(region_subspace(0x4000, 7, 8), Err(BoundsError::OffsetBeyondLength));
    assert_eq!(region_header(0x4000, 8, 8), Ok(ByteRange { start: 0x4000, end: 0x4008 }));
    assert_eq!(region_subspace(0x4000, 8, 8), Ok(ByteRange { start: 0x4008, end: 0x4008 }));
    assert_eq!(region_header(u64::MAX - 15, 16, 4), Err(BoundsError::AddressOverflow));
    assert_eq!(region_subspace(u64::MAX - 15, 16, 4), Err(BoundsError::AddressOverflow));
    assert_eq!(
        region_subspace(u64::MAX - 16, 16, 4),
        Ok(ByteRange { start: u64::MAX - 12, end: u64::MAX })
    );
}

#[test]
fn each_subspace_kind_uses_its_own_header_size() {
    let mut bytes = vec![0u8; 164];
    bytes[8..16].copy_from_slice(&0x1000u64.to_le_bytes());
    bytes[16..20].copy_from_slice(&0x80u32.to_le_bytes());
    let extended = ExtendedPCC::decode(&bytes).unwrap();
    assert_eq!(extended.base_address, 0x1000);
    assert_eq!(extended.memory_length, 0x80);
    assert_eq!(extended.smr(), Ok(ByteRange { start: 0x1000, end: 0x1010 }));
    assert_eq!(extended.communication_subspace(), Ok(ByteRange { start: 0x1010, end: 0x1080 }));

    let mut bytes = vec![0u8; 90];
    bytes[8..16].copy_from_slice(&0x2000u64.to_le_bytes());
    bytes[16..24].copy_from_slice(&0x40u64.to_le_bytes());
    let type1 = HWReducedCommunicationsType1::decode(&bytes).unwrap();
    assert_eq!(type1.smr(), Ok(ByteRange { start: 0x2000, end: 0x2004 }));
    assert_eq!(type1.communication_subspace(), Ok(ByteRange { start: 0x2004, end: 0x2040 }));
    let type2 = HWReducedCommunicationsType2::decode(&bytes).unwrap();
    assert_eq!(type2.smr(), Ok(ByteRange { start: 0x2000, end: 0x2004 }));
    assert_eq!(type2.communication_subspace(), Ok(ByteRange { start: 0x2004, end: 0x2040 }));

    let mut bytes = vec![0u8; 96];
    bytes[4..12].copy_from_slice(&0x3000u64.to_le_bytes());
    bytes[12..20].copy_from_slice(&3u64.to_le_bytes());
    let registers = HWRegistersBasedCommunications::decode(&bytes).unwrap();
    assert_eq!(registers.base_address, 0x3000);
    assert_eq!(registers.shared_memory_range_length, 3);
    assert_eq!(registers.smr(), Err(BoundsError::OffsetBeyondLength));
    assert_eq!(registers.communication_subspace(), Err(BoundsError::OffsetBeyondLength));
}

#[test]
fn srat_affinity_structures_are_walked_and_decoded() {
    let mut memory = vec![1u8, 40];
    memory.extend_from_slice(&2u32.to_le_bytes());
    memory.extend_from_slice(&[0; 2]);
    memory.extend_from_slice(&0x8000_0000u32.to_le_bytes());
    memory.extend_from_slice(&1u32.to_le_bytes());
    memory.extend_from_slice(&0x4000_0000u32.to_le_bytes());
    memory.extend_from_slice(&0u32.to_le_bytes());
    memory.extend_from_slice(&[0; 4]);
    memory.extend_from_slice(&0b011u32.to_le_bytes());
    memory.extend_from_slice(&[0; 8]);
    assert_eq!(memory.len(), 40);
    let bytes = table(b"SRAT", &[0; 12], &memory);
    let region = Region::new(0, &bytes).unwrap();
    let srat = SRAT::decode(&bytes).unwrap();
    let range = srat.static_resource_allocation_structure(0).unwrap();
    assert_eq!(range, ByteRange { start: 48, end: 88 });
    let mut walker = RecordWalker::new(region.window(range).unwrap());
    let record = walker.next().unwrap().unwrap();
    assert_eq!(record.kind, 1);
    let affinity = MemoryAffinity::decode(record.raw).unwrap();
    assert_eq!(affinity.proximity_domain, 2);
    assert_eq!(affinity.base_address_low, 0x8000_0000);
    assert_eq!(affinity.base_address_high, 1);
    assert_eq!(affinity.length_low, 0x4000_0000);
    assert_eq!(affinity.length_high, 0);
    assert!(affinity.flags.enabled());
    assert!(affinity.flags.hot_pluggable());
    assert!(!affinity.flags.non_volatile());
    assert!(walker.next().is_none());
}

/// A generic initiator affinity structure with the given handle type and
/// handle bytes.
fn initiator(handle_type: u8, handle: &[u8; 16]) -> Vec<u8> {
    let mut bytes = vec![5u8, 32, 0, handle_type];
    bytes.extend_from_slice(&6u32.to_le_bytes());
    bytes.extend_from_slice(handle);
    bytes.extend_from_slice(&0b10u32.to_le_bytes());
    bytes.extend_from_slice(&[0; 4]);
    bytes
}

#[test]
fn device_handle_is_read_as_its_type_says() {
    let mut acpi = [0u8; 16];
    acpi[0..8].copy_from_slice(&0x3030_3030_4943_5041u64.to_le_bytes());
    acpi[8..12].copy_from_slice(&4u32.to_le_bytes());
    let structure = GenericInitiatorAffinity::decode(&initiator(0, &acpi)).unwrap();
    assert_eq!(structure.device_handle_type, 0);
    assert_eq!(structure.proximity_domain, 6);
    assert_eq!(
        structure.device_handle,
        DeviceHandle::Acpi(ACPIDeviceHandle { acpi_hid: 0x3030_3030_4943_5041, acpi_uid: 4 })
    );
    assert!(!structure.flags.enabled());
    assert!(structure.flags.architectural_transactions());

    let mut pci = [0u8; 16];
    pci[0..2].copy_from_slice(&1u16.to_le_bytes());
    pci[2..4].copy_from_slice(&0x00F8u16.to_le_bytes());
    let structure = GenericPortAffinity::decode(&initiator(1, &pci)).unwrap();
    assert_eq!(
        structure.device_handle,
        DeviceHandle::Pci(PCIDeviceHandle { pci_segment: 1, pci_bdf_number: 0x00F8 })
    );
    // The same bytes under the other type give the other reading.
    let structure = GenericPortAffinity::decode(&initiator(0, &pci)).unwrap();
    assert_eq!(
        structure.device_handle,
        DeviceHandle::Acpi(ACPIDeviceHandle { acpi_hid: 0x00F8_0001, acpi_uid: 0 })
    );
}

#[test]
fn device_handle_of_unknown_type_keeps_its_bytes() {
    let raw: [u8; 16] = [1, 2, 3, 4, 5, 6, 7, 8, 9, 10, 11, 12, 13, 14, 15, 16];
    for handle_type in [2u8, 0x7F, 0xFF] {
        let structure = GenericInitiatorAffinity::decode(&initiator(handle_type, &raw)).unwrap();
        assert_eq!(structure.device_handle, DeviceHandle::Unknown { handle_type, raw });
    }
    let mut bytes = vec![0xEEu8; 4];
    bytes.extend_from_slice(&raw);
    assert_eq!(
        DeviceHandle::decode_at(9, &bytes, 4),
        DeviceHandle::Unknown { handle_type: 9, raw }
    );
}

/// A FACS image of `size` bytes.
fn facs(size: usize) -> Vec<u8> {
    let mut bytes = vec![0u8; size];
    bytes[0..4].copy_from_slice(b"FACS");
    bytes[4..8].copy_from_slice(&(size as u32).to_le_bytes());
    bytes[8..12].copy_from_slice(&[0xA1, 0xB2, 0xC3, 0xD4]);
    bytes[12..16].copy_from_slice(&0x0009_F000u32.to_le_bytes());
    bytes[16..20].copy_from_slice(&0b11u32.to_le_bytes());
    bytes[20..24].copy_from_slice(&0b10u32.to_le_bytes());
    bytes[24..32].copy_from_slice(&0x1_0000_0000u64.to_le_bytes());
    bytes[32] = 3;
    bytes[36..40].copy_from_slice(&1u32.to_le_bytes());
    bytes
}

#[test]
fn facs_fields_come_from_their_offsets() {
    let bytes = facs(64);
    let structure = FirmwareACPIControl::decode(&bytes).unwrap();
    assert_eq!(structure.signature, *b"FACS");
    assert_eq!(structure.length, 64);
    assert_eq!(structure.hardware_signature, [0xA1, 0xB2, 0xC3, 0xD4]);
    assert_eq!(structure.firmware_waking_vector, 0x0009_F000);
    assert_eq!(structure.global_lock, 3);
    assert!(!structure.flags.s4bios_f());
    assert!(structure.flags._64bit_wake_supported_f());
    assert_eq!(structure.x_firmware_waking_vector, 0x1_0000_0000);
    assert_eq!(structure.version, 3);
    assert_eq!(structure.ospem_flags, 1);
    assert_eq!(structure.ospm_flags(), OEFACSFlags(1));
    assert!(structure.ospm_flags()._64bit_wake_f());
    assert_eq!(structure.global_lock_snapshot(), FACSGlobalLock(3));
    assert!(structure.global_lock_snapshot().pending());
    assert!(structure.global_lock_snapshot().owned());
    assert_eq!(FirmwareACPIControl::SIZE, 64);
}

#[test]
fn facs_is_framed_by_signature_and_length_without_a_checksum() {
    let bytes = facs(64);
    assert_eq!(FirmwareACPIControl::decode(&bytes[..63]), Err(HeaderError::TooShort));
    let mut other = bytes.clone();
    other[3] = b'T';
    assert_eq!(FirmwareACPIControl::decode(&other), Err(HeaderError::SignatureMismatch));
    let mut short = bytes.clone();
    short[4..8].copy_from_slice(&63u32.to_le_bytes());
    assert_eq!(FirmwareACPIControl::decode(&short), Err(HeaderError::LengthOutOfBounds));
    let mut long = bytes.clone();
    long[4..8].copy_from_slice(&65u32.to_le_bytes());
    assert_eq!(FirmwareACPIControl::decode(&long), Err(HeaderError::LengthOutOfBounds));
    let mut any_sum = bytes.clone();
    any_sum[63] = 0x5A;
    assert!(FirmwareACPIControl::decode(&any_sum).is_ok());
    assert!(FirmwareACPIControl::decode(&facs(128)).is_ok());
}

#[test]
fn global_lock_word_lies_at_offset_16() {
    let bytes = facs(64);
    let region = Region::new(0xF_0000, &bytes).unwrap();
    let structure = FirmwareACPIControl::decode(&bytes).unwrap();
    let word = structure.atomic_global_lock(0xF_0000).unwrap();
    assert_eq!(word, ByteRange { start: 0xF_0010, end: 0xF_0014 });
    assert_eq!(region.window(word), Some(&[3u8, 0, 0, 0][..]));
    assert_eq!(
        structure.atomic_global_lock(u64::MAX - 20),
        Ok(ByteRange { start: u64::MAX - 4, end: u64::MAX })
    );
    assert_eq!(structure.atomic_global_lock(u64::MAX - 19), Err(BoundsError::AddressOverflow));
}

#[test]
fn rasf_parameter_blocks_follow_the_fixed_fields() {
    let mut shared = vec![0u8; 60];
    shared[0..4].copy_from_slice(&0x5041_4353u32.to_le_bytes());
    shared[8..10].copy_from_slice(&1u16.to_le_bytes());
    shared[10] = 0b11;
    shared[42..44].copy_from_slice(&2u16.to_le_bytes());
    let channel = RASFCommunicationChannelSMR::decode(&shared).unwrap();
    assert_eq!(channel.version, 1);
    assert!(channel.ras_capabilites.hardware_based_patrol_scrub_support());
    assert_eq!(channel.rasf_parameter_block_num, 2);
    assert_eq!(
        channel.parameter_blocks(0x6000, 60),
        Ok(ByteRange { start: 0x6030, end: 0x603C })
    );
    assert_eq!(channel.parameter_blocks(0x6000, 48), Ok(ByteRange { start: 0x6030, end: 0x6030 }));
    assert_eq!(channel.parameter_blocks(0x6000, 47), Err(BoundsError::OffsetBeyondLength));
    assert_eq!(channel.parameter_blocks(u64::MAX, 60), Err(BoundsError::AddressOverflow));
}

#[test]
fn bgrt_status_byte_lies_at_offset_38() {
    let mut fixed = vec![0u8; 20];
    fixed[0] = 1;
    fixed[2] = 0b0000_0101;
    let bytes = table(b"BGRT", &fixed, &[]);
    let region = Region::new(0x3000, &bytes).unwrap();
    let bgrt = BootGraphicsResourceTable::decode(&bytes).unwrap();
    assert_eq!(bgrt.version, 1);
    assert_eq!(bgrt.status, 0b101);
    assert!(bgrt.was_displayed());
    let place = bgrt.status_location(0x3000).unwrap();
    assert_eq!(place, ByteRange { start: 0x3026, end: 0x3027 });
    assert_eq!(region.window(place), Some(&[0b101u8][..]));
    let cleared = BootGraphicsResourceTable { status: 0b100, ..bgrt };
    assert!(!cleared.was_displayed());
    assert_eq!(bgrt.status_location(u64::MAX - 38), Err(BoundsError::AddressOverflow));
    assert_eq!(
        bgrt.status_location(u64::MAX - 39),
        Ok(ByteRange { start: u64::MAX - 1, end: u64::MAX })
    );
}
