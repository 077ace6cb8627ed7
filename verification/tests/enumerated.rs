use acpi_tables::fadt::{FADTARMBootArch, FADTFixedFeatureFlags};
use acpi_tables::madt::interrupt_source_override::{
    InterruptSourceOverridePolarity, InterruptSourceOverrideTriggerMode, MPSINTIFlags,
};
use acpi_tables::pcct::subspace::GenericCommunicationsChannelCommandField;
use acpi_tables::{FADTFeatureFlags, FADTPersistentCPUCacheFeature};

#[test]
fn persistent_cpu_caches_reads_bits_22_and_23() {
    assert_eq!(
        FADTFixedFeatureFlags(0).persistent_cpu_caches(),
        FADTPersistentCPUCacheFeature::NotReported
    );
    assert_eq!(
        FADTFixedFeatureFlags(0x0040_0000).persistent_cpu_caches(),
        FADTPersistentCPUCacheFeature::NotPersistent
    );
    assert_eq!(
        FADTFixedFeatureFlags(0x0080_0000).persistent_cpu_caches(),
        FADTPersistentCPUCacheFeature::Persistent
    );
    assert_eq!(
        FADTFixedFeatureFlags(0x00C0_0000).persistent_cpu_caches(),
        FADTPersistentCPUCacheFeature::Reserved
    );
}

#[test]
fn persistent_cpu_caches_ignores_the_other_bits() {
    assert_eq!(
        FADTFixedFeatureFlags(0xFF3F_FFFF).persistent_cpu_caches(),
        FADTPersistentCPUCacheFeature::NotReported
    );
    assert_eq!(
        FADTFixedFeatureFlags(0xFFBF_FFFF).persistent_cpu_caches(),
        FADTPersistentCPUCacheFeature::Persistent
    );
    assert_eq!(
        FADTFixedFeatureFlags(u32::MAX).persistent_cpu_caches(),
        FADTPersistentCPUCacheFeature::Reserved
    );
}

#[test]
fn persistent_cpu_caches_from_field() {
    assert_eq!(FADTPersistentCPUCacheFeature::from_field(0), FADTPersistentCPUCacheFeature::NotReported);
    assert_eq!(FADTPersistentCPUCacheFeature::from_field(1), FADTPersistentCPUCacheFeature::NotPersistent);
    assert_eq!(FADTPersistentCPUCacheFeature::from_field(2), FADTPersistentCPUCacheFeature::Persistent);
    assert_eq!(FADTPersistentCPUCacheFeature::from_field(3), FADTPersistentCPUCacheFeature::Reserved);
}

#[test]
fn short_name_of_the_feature_flags_is_the_same_type() {
    let flags: FADTFeatureFlags = FADTFixedFeatureFlags(0b101);
    assert!(flags.wbinvd());
    assert!(!flags.wbinvd_flush());
    assert!(flags.proc_c1());
    assert!(FADTFeatureFlags::hw_reduced_acpi(&FADTFixedFeatureFlags(1 << 20)));
}

#[test]
fn psci_flags_are_two_different_bits() {
    assert!(FADTARMBootArch(0b01).psci_compliant());
    assert!(!FADTARMBootArch(0b01).psci_use_hvc());
    assert!(!FADTARMBootArch(0b10).psci_compliant());
    assert!(FADTARMBootArch(0b10).psci_use_hvc());
}

#[test]
fn polarity_reads_bits_0_and_1() {
    assert_eq!(MPSINTIFlags(0b00).polarity(), InterruptSourceOverridePolarity::Conform);
    assert_eq!(MPSINTIFlags(0b01).polarity(), InterruptSourceOverridePolarity::ActiveHigh);
    assert_eq!(MPSINTIFlags(0b10).polarity(), InterruptSourceOverridePolarity::Reserved);
    assert_eq!(MPSINTIFlags(0b11).polarity(), InterruptSourceOverridePolarity::ActiveLow);
    assert_eq!(MPSINTIFlags(0xFFFC).polarity(), InterruptSourceOverridePolarity::Conform);
    assert_eq!(MPSINTIFlags(0xFFFF).polarity(), InterruptSourceOverridePolarity::ActiveLow);
}

#[test]
fn trigger_mode_reads_bits_2_and_3() {
    assert_eq!(MPSINTIFlags(0b0000).trigger_mode(), InterruptSourceOverrideTriggerMode::Conform);
    assert_eq!(
        MPSINTIFlags(0b0100).trigger_mode(),
        InterruptSourceOverrideTriggerMode::EdgeTriggered
    );
    assert_eq!(MPSINTIFlags(0b1000).trigger_mode(), InterruptSourceOverrideTriggerMode::Reserved);
    assert_eq!(
        MPSINTIFlags(0b1100).trigger_mode(),
        InterruptSourceOverrideTriggerMode::LevelTriggered
    );
    assert_eq!(MPSINTIFlags(0xFFF3).trigger_mode(), InterruptSourceOverrideTriggerMode::Conform);
    assert_eq!(MPSINTIFlags(0b0011).trigger_mode(), InterruptSourceOverrideTriggerMode::Conform);
}

#[test]
fn reserved_values_are_reported_and_nothing_panics() {
    for raw in 0..=u16::MAX {
        let flags = MPSINTIFlags(raw);
        let _ = flags.polarity();
        let _ = flags.trigger_mode();
    }
}

#[test]
fn command_is_the_low_byte() {
    assert_eq!(GenericCommunicationsChannelCommandField(0x0000).command(), 0);
    assert_eq!(GenericCommunicationsChannelCommandField(0x8001).command(), 1);
    assert_eq!(GenericCommunicationsChannelCommandField(0x12AB).command(), 0xAB);
    assert_eq!(GenericCommunicationsChannelCommandField(0xFFFF).command(), 0xFF);
    assert_eq!(GenericCommunicationsChannelCommandField(0xFF00).command(), 0);
    assert!(GenericCommunicationsChannelCommandField(0x8000).notify_on_completion());
    assert!(!GenericCommunicationsChannelCommandField(0x7FFF).notify_on_completion());
}
