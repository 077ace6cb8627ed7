//! The Fixed ACPI Description Table.

use vstd::prelude::*;
use crate::bits::{bit, bit_at, field, field_at};
use crate::bytes::{le_u16, le_u32, le_u64, read_u16, read_u32, read_u64};
use crate::gas::GenericAddressStructure;
use crate::header::{validate, validated, HeaderError, SDTHeader};

verus! {

/// The signature of the table: the ASCII characters `FACP`.
pub const FADT_SIGNATURE: [u8; 4] = [0x46, 0x41, 0x43, 0x50];

/// What the platform reports of the persistence of cpu caches.
#[derive(Clone, Copy, Debug, PartialEq, Eq, Structural)]
pub enum FADTPersistentCPUCacheFeature {
    /// Not reported by the platform.
    NotReported,
    /// The caches are not persistent.
    NotPersistent,
    /// The caches are persistent.
    Persistent,
    /// The field holds the value 11b, which is reserved.
    Reserved,
}

impl FADTPersistentCPUCacheFeature {
    /// The feature that the value of the two-bit field stands for.
    pub open spec fn of_field(value: nat) -> FADTPersistentCPUCacheFeature {
        if value == 0 {
            FADTPersistentCPUCacheFeature::NotReported
        } else if value == 1 {
            FADTPersistentCPUCacheFeature::NotPersistent
        } else if value == 2 {
            FADTPersistentCPUCacheFeature::Persistent
        } else {
            FADTPersistentCPUCacheFeature::Reserved
        }
    }

    /// The feature that the value of the two-bit field stands for.
    pub fn from_field(value: u64) -> (feature: FADTPersistentCPUCacheFeature)
        ensures
            feature == Self::of_field(value as nat),
    {
        match value {
            0 => FADTPersistentCPUCacheFeature::NotReported,
            1 => FADTPersistentCPUCacheFeature::NotPersistent,
            2 => FADTPersistentCPUCacheFeature::Persistent,
            _ => FADTPersistentCPUCacheFeature::Reserved,
        }
    }
}

/// ## Fixed ACPI Description Table Fixed Feature Flags
#[derive(Clone, Copy, Debug, PartialEq, Eq, Structural)]
pub struct FADTFixedFeatureFlags(pub u32);

impl FADTFixedFeatureFlags {
    /// Processor properly implements a functional equivalent to the WBINVD
    /// IA-32 instruction.
    pub fn wbinvd(&self) -> (set: bool)
        ensures
            set == bit(self.0 as nat, 0),
    {
        bit_at(self.0 as u128, 0)
    }

    /// If set, indicates that the hardware flushes all caches on the WBINVD
    /// instruction and maintains memory coherency, but does not guarantee the
    /// caches are invalidated. This provides the complete semantics of the
    /// WBINVD instruction, and provides enough to support the system sleeping
    /// states.
    pub fn wbinvd_flush(&self) -> (set: bool)
        ensures
            set == bit(self.0 as nat, 1),
    {
        bit_at(self.0 as u128, 1)
    }

    /// A one indicates that the C1 power state is supported on all processors.
    pub fn proc_c1(&self) -> (set: bool)
        ensures
            set == bit(self.0 as nat, 2),
    {
        bit_at(self.0 as u128, 2)
    }

    /// A zero indicates that the C2 power state is configured to only work on a
    /// uniprocessor (UP) system. A one indicates that the C2 power state is
    /// configured to work on a UP or multiprocessor (MP) system.
    pub fn p_lvl2_up(&self) -> (set: bool)
        ensures
            set == bit(self.0 as nat, 3),
    {
        bit_at(self.0 as u128, 3)
    }

    /// A zero indicates the power button is handled as a fixed feature
    /// programming model. A one indicates the power button is handled as a
    /// control method device.
    pub fn pwr_button(&self) -> (set: bool)
        ensures
            set == bit(self.0 as nat, 4),
    {
        bit_at(self.0 as u128, 4)
    }

    /// A zero indicates the sleep button is handled as a fixed feature
    /// programming model. A one indicates the sleep button is handled as a
    /// control method device.
    pub fn slp_button(&self) -> (set: bool)
        ensures
            set == bit(self.0 as nat, 5),
    {
        bit_at(self.0 as u128, 5)
    }

    /// A zero indicates the RTC wake status is supported in fixed register
    /// space. A one indicates the RTC wake status is not supported in fixed
    /// register space.
    pub fn fix_rtc(&self) -> (set: bool)
        ensures
            set == bit(self.0 as nat, 6),
    {
        bit_at(self.0 as u128, 6)
    }

    /// Indicates whether the RTC alarm function can wake the system from the S4
    /// state.
    pub fn rtc_s4(&self) -> (set: bool)
        ensures
            set == bit(self.0 as nat, 7),
    {
        bit_at(self.0 as u128, 7)
    }

    /// A zero indicates TMR_VAL is implemented as a 24-bit value. A one
    /// indicates TMR_VAL is implemented as a 32-bit value.
    pub fn tmr_val_ext(&self) -> (set: bool)
        ensures
            set == bit(self.0 as nat, 8),
    {
        bit_at(self.0 as u128, 8)
    }

    /// A zero indicates that the system cannot support docking. A one indicates
    /// that the system can support docking.
    pub fn dck_cap(&self) -> (set: bool)
        ensures
            set == bit(self.0 as nat, 9),
    {
        bit_at(self.0 as u128, 9)
    }

    /// If set, indicates the system supports system reset via the FADT
    /// RESET_REG.
    pub fn reset_reg_sup(&self) -> (set: bool)
        ensures
            set == bit(self.0 as nat, 10),
    {
        bit_at(self.0 as u128, 10)
    }

    /// System Type Attribute.
    pub fn sealed_case(&self) -> (set: bool)
        ensures
            set == bit(self.0 as nat, 11),
    {
        bit_at(self.0 as u128, 11)
    }

    /// System Type Attribute.
    pub fn headless(&self) -> (set: bool)
        ensures
            set == bit(self.0 as nat, 12),
    {
        bit_at(self.0 as u128, 12)
    }

    /// If set, indicates to OSPM that a processor native instruction must be
    /// executed after writing the SLP_TYPx register.
    pub fn cpu_sw_slp(&self) -> (set: bool)
        ensures
            set == bit(self.0 as nat, 13),
    {
        bit_at(self.0 as u128, 13)
    }

    /// If set, indicates the platform supports the PCIEXP_WAKE_STS bit in the
    /// PM1 Status register and the PCIEXP_WAKE_EN bit in the PM1 Enable
    /// register.
    pub fn pci_exp_wak(&self) -> (set: bool)
        ensures
            set == bit(self.0 as nat, 14),
    {
        bit_at(self.0 as u128, 14)
    }

    /// A value of one indicates that OSPM should use a platform provided timer
    /// to drive any monotonically non-decreasing counters, such as OSPM
    /// performance counter services. Which particular platform timer will be
    /// used is OSPM specific; however, it is recommended that the timer used is
    /// based on the following algorithm:
    pub fn use_platform_clock(&self) -> (set: bool)
        ensures
            set == bit(self.0 as nat, 15),
    {
        bit_at(self.0 as u128, 15)
    }

    /// A one indicates that the contents of the RTC_STS flag is valid when
    /// waking the system from S4.
    pub fn s4_rtc_sts_valid(&self) -> (set: bool)
        ensures
            set == bit(self.0 as nat, 16),
    {
        bit_at(self.0 as u128, 16)
    }

    /// A one indicates that the platform is compatible with remote power-on.
    /// That is, the platform supports OSPM leaving GPE wake events armed prior
    /// to an S5 transition.
    pub fn remote_power_on_capable(&self) -> (set: bool)
        ensures
            set == bit(self.0 as nat, 17),
    {
        bit_at(self.0 as u128, 17)
    }

    /// A one indicates that all local APICs must be configured for the cluster
    /// destination model when delivering interrupts in logical mode.
    pub fn force_apic_cluster_model(&self) -> (set: bool)
        ensures
            set == bit(self.0 as nat, 18),
    {
        bit_at(self.0 as u128, 18)
    }

    /// A one indicates that all local xAPICs must be configured for physical
    /// destination mode.
    pub fn force_apic_physical_destination_mode(&self) -> (set: bool)
        ensures
            set == bit(self.0 as nat, 19),
    {
        bit_at(self.0 as u128, 19)
    }

    /// A one indicates that the Hardware-Reduced ACPI is implemented,
    /// therefore software-only alternatives are used for supported fixed
    /// features.
    pub fn hw_reduced_acpi(&self) -> (set: bool)
        ensures
            set == bit(self.0 as nat, 20),
    {
        bit_at(self.0 as u128, 20)
    }

    /// A one informs OSPM that the platform is able to achieve power savings in
    /// S0 similar to or better than those typically achieved in S3.
    pub fn low_power_s0_idle_capable(&self) -> (set: bool)
        ensures
            set == bit(self.0 as nat, 21),
    {
        bit_at(self.0 as u128, 21)
    }

    /// Whether cpu caches, and any other caches that are coherent with them,
    /// are considered by the platform to be persistent: the two bits 22 and
    /// 23.
    ///
    /// - 00b - Not reported by the platform.
    /// - 01b - The caches are not persistent. Software is responsible for
    ///   flushing data from cpu caches to make stores persistent.
    /// - 10b - The caches are persistent.
    /// - 11b - Reserved.
    pub fn persistent_cpu_caches(&self) -> (feature: FADTPersistentCPUCacheFeature)
        ensures
            feature == FADTPersistentCPUCacheFeature::of_field(field(self.0 as nat, 22, 2)),
    {
        FADTPersistentCPUCacheFeature::from_field(field_at(self.0 as u64, 22, 2))
    }
}

/// ## IA-PC Boot Architecture Flags
///
/// This set of flags is used by an OS to guide the assumptions it can make
/// in initializing hardware on IA-PC platforms. These flags are used by an
/// OS at boot time (before the OS is capable of providing an operating
/// environment suitable for parsing the ACPI namespace) to determine the
/// code paths to take during boot.
#[derive(Clone, Copy, Debug, PartialEq, Eq, Structural)]
pub struct FADTIAPCBootArch(pub u16);

impl FADTIAPCBootArch {
    /// If set, indicates that the motherboard supports user-visible devices on
    /// the LPC or ISA bus. User-visible devices are devices that have end-user
    /// accessible connectors (for example, LPT port), or devices for which the
    /// OS must load a device driver so that an end-user application can use a
    /// device.
    pub fn legacy_devices(&self) -> (set: bool)
        ensures
            set == bit(self.0 as nat, 0),
    {
        bit_at(self.0 as u128, 0)
    }

    /// If set, indicates that the motherboard contains support for a port 60
    /// and 64 based keyboard controller, usually implemented as an 8042 or
    /// equivalent micro-controller.
    pub fn _8042(&self) -> (set: bool)
        ensures
            set == bit(self.0 as nat, 1),
    {
        bit_at(self.0 as u128, 1)
    }

    /// If set, indicates to OSPM that it must not blindly probe the VGA
    /// hardware (that responds to MMIO addresses A0000h-BFFFFh and IO ports
    /// 3B0h-3BBh and 3C0h-3DFh) that may cause machine check on this system.
    pub fn vga_not_present(&self) -> (set: bool)
        ensures
            set == bit(self.0 as nat, 2),
    {
        bit_at(self.0 as u128, 2)
    }

    /// If set, indicates to OSPM that it must not enable Message Signaled
    /// Interrupts (MSI) on this platform.
    pub fn msi_not_supported(&self) -> (set: bool)
        ensures
            set == bit(self.0 as nat, 3),
    {
        bit_at(self.0 as u128, 3)
    }

    /// If set, indicates to OSPM that it must not enable OSPM ASPM control on
    /// this platform.
    pub fn pcie_aspm_controls(&self) -> (set: bool)
        ensures
            set == bit(self.0 as nat, 4),
    {
        bit_at(self.0 as u128, 4)
    }

    /// If set, indicates that the CMOS RTC is either not implemented, or does
    /// not exist at the legacy addresses. OSPM uses the Control Method Time and
    /// Alarm Namespace device instead.
    pub fn cmos_rtc_not_present(&self) -> (set: bool)
        ensures
            set == bit(self.0 as nat, 5),
    {
        bit_at(self.0 as u128, 5)
    }
}

/// ## ARM Architecture Boot Flags
///
/// These flags are used by an OS at boot time (before the OS is capable of
/// providing an operating environment suitable for parsing the ACPI
/// namespace) to determine the code paths to take during boot.
#[derive(Clone, Copy, Debug, PartialEq, Eq, Structural)]
pub struct FADTARMBootArch(pub u16);

impl FADTARMBootArch {
    /// 1 if PSCI is implemented: bit 0.
    pub fn psci_compliant(&self) -> (set: bool)
        ensures
            set == bit(self.0 as nat, 0),
    {
        bit_at(self.0 as u128, 0)
    }

    /// 1 if HVC must be used as the PSCI conduit instead of SMC: bit 1.
    pub fn psci_use_hvc(&self) -> (set: bool)
        ensures
            set == bit(self.0 as nat, 1),
    {
        bit_at(self.0 as u128, 1)
    }
}

/// ## Fixed ACPI Description Table
///
/// The Fixed ACPI Description Table (FADT) defines various fixed hardware
/// ACPI information vital to an ACPI-compatible OS.
#[derive(Clone, Copy, Debug, PartialEq, Eq)]
pub struct FixedACPIDescriptionTable {
    /// - **Signature** - "FACP"
    /// - **Revision** - FADT Major Version.
    /// - **OEM Table ID** - For the FADT, the table ID is the manufacture
    ///   model ID. This field must match the OEM Table ID in the RSDT.
    pub header: SDTHeader,
    /// Physical memory address of the FACS, where OSPM and Firmware exchange
    /// control information.
    pub firmware_ctrl: u32,
    /// Physical memory address of the DSDT. If the `x_dsdt` field contains a
    /// non-zero value which can be used by the OSPM, then this field must be
    /// ignored by the OSPM.
    pub dsdt: u32,
    /// ACPI 1.0 defined this offset as a field named INT_MODEL, which was
    /// eliminated in ACPI 2.0. Platforms should set this field to zero but
    /// field values of one are also allowed to maintain compatibility with ACPI
    /// 1.0.
    pub int_model: u8,
    /// This field is set by the OEM to convey the preferred power management
    /// profile to OSPM. OSPM can use this field to set default power management
    /// policy parameters during OS installation. Field Values:
    pub preferred_pm_profile: u8,
    /// System vector the SCI interrupt is wired to in 8259 mode.
    pub sci_int: u16,
    /// System port address of the SMI Command Port.
    pub smi_cmd: u32,
    /// The value to write to SMI_CMD to disable SMI ownership of the ACPI
    /// hardware registers.
    pub acpi_enable: u8,
    /// The value to write to SMI_CMD to re-enable SMI ownership of the ACPI
    /// hardware registers.
    pub acpi_disable: u8,
    /// The value to write to SMI_CMD to enter the S4BIOS state.
    pub s4bios_req: u8,
    /// If non-zero, this field contains the value OSPM writes to the SMI_CMD
    /// register to assume processor performance state control responsibility.
    pub pstate_cnt: u8,
    /// System port address of the PM1a Event Register Block.
    pub pm1a_evt_blk: u32,
    /// System port address of the PM1b Event Register Block.
    pub pm1b_evt_blk: u32,
    /// System port address of the PM1a Control Register Block.
    pub pm1a_cnt_blk: u32,
    /// System port address of the PM1b Control Register Block.
    pub pm1b_cnt_blk: u32,
    /// System port address of the PM2 Control Register Block.
    pub pm2_cnt_blk: u32,
    /// System port address of the Power Management Timer Control Register
    /// Block.
    pub pm_tmr_blk: u32,
    /// System port address of General-Purpose Event 0 Register Block.
    pub gpe0_blk: u32,
    /// System port address of General-Purpose Event 1 Register Block.
    pub gpe1_blk: u32,
    /// Number of bytes decoded by `pm1a_evt_blk` and, if supported,
    /// `pm1b_evt_blk`. This value is >=4.
    pub pm1_evt_len: u8,
    /// Number of bytes decoded by `pm1a_cnt_blk` and, if supported,
    /// `pm1b_cnt_blk`. This value is >=2.
    pub pm1_cnt_len: u8,
    /// Number of bytes decoded by `pm2_cnt_blk`. Support for the PM2 register
    /// block is optional. If supported, this value is >=1. If not supported,
    /// this field contains zero.
    pub pm2_cnt_len: u8,
    /// Number of bytes decoded by `pm_tmr_blk`. If the PM Timer is supported,
    /// this field's value must be 4. If not supported, this field contains
    /// zero.
    pub pm_tmr_len: u8,
    /// The length of the register whose address is given by `x_gpe0_blk` (if
    /// nonzero) or by `gpe0_blk` (otherwise) in bytes. The value is a non-
    /// negative multiple of 2.
    pub gpe0_blk_len: u8,
    /// The length of the register whose address is given by `x_gpe1_blk` (if
    /// nonzero) or by `gpe1_blk` (otherwise) in bytes. The value is a non-
    /// negative multiple of 2.
    pub gpe1_blk_len: u8,
    /// Offset within the ACPI general-purpose event model where GPE1 based
    /// events start.
    pub gpe1_base: u8,
    /// If non-zero, this field contains the value OSPM writes to the SMI_CMD
    /// register to indicate OS support for the _CST object and C States Changed
    /// notification.
    pub cst_cnt: u8,
    /// The worst-case hardware latency, in microseconds, to enter and exit a C2
    /// state. A value > 100 indicates the system does not support a C2 state.
    pub p_lvl2_lat: u16,
    /// The worst-case hardware latency, in microseconds, to enter and exit a C3
    /// state. A value > 1000 indicates the system does not support a C3 state.
    pub p_lvl3_lat: u16,
    /// - If WBINVD=0, the value of this field is the number of flush strides
    ///   that need to be read (using cacheable addresses) to completely flush
    ///   dirty lines from any processor's memory caches.
    pub flush_size: u16,
    /// - If WBINVD=0, the value of this field is the cache line width, in
    ///   bytes, of the processor's memory caches.
    /// - This value is typically the smallest cache line width on any of the
    ///   processor's caches.
    /// - This value is ignored if WBINVD=1.
    pub flush_stride: u16,
    /// The zero-based index of where the processor's duty cycle setting is
    /// within the processor's P_CNT register.
    pub duty_offset: u8,
    /// The bit width of the processor's duty cycle setting value in the P_CNT
    /// register.
    pub duty_width: u8,
    /// The RTC CMOS RAM index to the day-of-month alarm value.
    pub day_alrm: u8,
    /// The RTC CMOS RAM index to the month of year alarm value.
    pub mon_alrm: u8,
    /// The RTC CMOS RAM index to the century of data value (hundred and
    /// thousand year decimals).
    pub century: u8,
    /// IA-PC Boot Architecture Flags.
    pub iapc_boot_arch: FADTIAPCBootArch,
    /// Fixed feature flags.
    pub flags: FADTFixedFeatureFlags,
    /// The address of the reset register represented in Generic Address
    /// Structure format. Note: Only System I/O space, System Memory space and
    /// PCI Configuration space (bus #0) are valid for values for
    /// `address_space_id`. Also, `reg_bit_width` must be 8 and
    /// `reg_bit_offset` must be 0.
    pub reset_reg: GenericAddressStructure,
    /// Indicates the value to write to the RESET_REG port to reset the
    /// system.
    pub reset_value: u8,
    /// ARM Boot Architecture Flags.
    pub arm_boot_arch: FADTARMBootArch,
    /// Minor Version of this FADT structure, in "Major.Minor" form, where
    /// 'Major' is the value in the Major Version Field (Byte offset 8 in this
    /// table).
    ///
    /// - Bits 0-3 - The minor version. For instance, ACPI 6.3 has a major
    ///   version of 6, and a minor version of 3.
    /// - Bits 4-7 - The errata that this table complies with. A value of 0
    ///   means the base version, 1 means Errata A, 2 means Errata B, and so
    ///   on.
    pub minor_version: u8,
    /// Extended physical address of the FACS.
    pub x_firmware_ctrl: u64,
    /// Extended physical address of the DSDT.
    pub x_dsdt: u64,
    /// Extended address of the PM1a Event Register Block, represented in
    /// Generic Address Structure format.
    pub x_pm1a_evt_blk: GenericAddressStructure,
    /// Extended address of the PM1b Event Register Block, represented in
    /// Generic Address Structure format.
    pub x_pm1b_evt_blk: GenericAddressStructure,
    /// Extended address of the PM1a Control Register Block, represented in
    /// Generic Address Structure format.
    pub x_pm1a_cnt_blk: GenericAddressStructure,
    /// Extended address of the PM1b Control Register Block, represented in
    /// Generic Address Structure format.
    pub x_pm1b_cnt_blk: GenericAddressStructure,
    /// Extended address of the PM2 Control Register Block, represented in
    /// Generic Address Structure format.
    pub x_pm2_cnt_blk: GenericAddressStructure,
    /// Extended address of the Power Management Timer Control Register Block,
    /// represented in Generic Address Structure format.
    pub x_pm_tmr_blk: GenericAddressStructure,
    /// Extended address of the General-Purpose Event 0 Register Block,
    /// represented in Generic Address Structure format.
    pub x_gpe0_blk: GenericAddressStructure,
    /// Extended address of the General-Purpose Event 1 Register Block,
    /// represented in Generic Address Structure format.
    pub x_gpe1_blk: GenericAddressStructure,
    /// The address of the Sleep register, represented in Generic Address
    /// Structure format.
    pub sleep_control_reg: GenericAddressStructure,
    /// The address of the Sleep status register, represented in Generic
    /// Address Structure format.
    pub sleep_status_reg: GenericAddressStructure,
    /// 64-bit identifier of hypervisor vendor.
    pub hypervisor_vendor_identity: u64,
}

impl FixedACPIDescriptionTable {
    /// Size in bytes of the fixed fields.
    pub const SIZE: usize = 276;

    /// The table whose validated header is `header` and whose fields are
    /// laid out in `s`.
    pub open spec fn laid_out(header: SDTHeader, s: Seq<u8>) -> FixedACPIDescriptionTable {
        FixedACPIDescriptionTable {
            header,
            firmware_ctrl: le_u32(s, 36) as u32,
            dsdt: le_u32(s, 40) as u32,
            int_model: s[44],
            preferred_pm_profile: s[45],
            sci_int: le_u16(s, 46) as u16,
            smi_cmd: le_u32(s, 48) as u32,
            acpi_enable: s[52],
            acpi_disable: s[53],
            s4bios_req: s[54],
            pstate_cnt: s[55],
            pm1a_evt_blk: le_u32(s, 56) as u32,
            pm1b_evt_blk: le_u32(s, 60) as u32,
            pm1a_cnt_blk: le_u32(s, 64) as u32,
            pm1b_cnt_blk: le_u32(s, 68) as u32,
            pm2_cnt_blk: le_u32(s, 72) as u32,
            pm_tmr_blk: le_u32(s, 76) as u32,
            gpe0_blk: le_u32(s, 80) as u32,
            gpe1_blk: le_u32(s, 84) as u32,
            pm1_evt_len: s[88],
            pm1_cnt_len: s[89],
            pm2_cnt_len: s[90],
            pm_tmr_len: s[91],
            gpe0_blk_len: s[92],
            gpe1_blk_len: s[93],
            gpe1_base: s[94],
            cst_cnt: s[95],
            p_lvl2_lat: le_u16(s, 96) as u16,
            p_lvl3_lat: le_u16(s, 98) as u16,
            flush_size: le_u16(s, 100) as u16,
            flush_stride: le_u16(s, 102) as u16,
            duty_offset: s[104],
            duty_width: s[105],
            day_alrm: s[106],
            mon_alrm: s[107],
            century: s[108],
            iapc_boot_arch: FADTIAPCBootArch(le_u16(s, 109) as u16),
            flags: FADTFixedFeatureFlags(le_u32(s, 112) as u32),
            reset_reg: GenericAddressStructure::laid_out_at(s, 116),
            reset_value: s[128],
            arm_boot_arch: FADTARMBootArch(le_u16(s, 129) as u16),
            minor_version: s[131],
            x_firmware_ctrl: le_u64(s, 132) as u64,
            x_dsdt: le_u64(s, 140) as u64,
            x_pm1a_evt_blk: GenericAddressStructure::laid_out_at(s, 148),
            x_pm1b_evt_blk: GenericAddressStructure::laid_out_at(s, 160),
            x_pm1a_cnt_blk: GenericAddressStructure::laid_out_at(s, 172),
            x_pm1b_cnt_blk: GenericAddressStructure::laid_out_at(s, 184),
            x_pm2_cnt_blk: GenericAddressStructure::laid_out_at(s, 196),
            x_pm_tmr_blk: GenericAddressStructure::laid_out_at(s, 208),
            x_gpe0_blk: GenericAddressStructure::laid_out_at(s, 220),
            x_gpe1_blk: GenericAddressStructure::laid_out_at(s, 232),
            sleep_control_reg: GenericAddressStructure::laid_out_at(s, 244),
            sleep_status_reg: GenericAddressStructure::laid_out_at(s, 256),
            hypervisor_vendor_identity: le_u64(s, 268) as u64,
        }
    }

    /// What decoding the table image `s` yields.
    pub open spec fn decoded(s: Seq<u8>) -> Result<FixedACPIDescriptionTable, HeaderError> {
        match validated(s, Some(FADT_SIGNATURE@)) {
            Err(fault) => Err(fault),
            Ok(header) => if header.length < 276 {
                Err(HeaderError::LengthOutOfBounds)
            } else {
                Ok(Self::laid_out(header, s))
            },
        }
    }

    /// Validates the table at the front of `bytes`, which must carry the
    /// signature of this table, and reads its fixed fields.
    ///
    /// Fails with the fault of the header, or with `LengthOutOfBounds` when
    /// the table declares fewer than 276 bytes.
    pub fn decode(bytes: &[u8]) -> (table: Result<FixedACPIDescriptionTable, HeaderError>)
        ensures
            table == Self::decoded(bytes@),
    {
        let header = match validate(bytes, Some(FADT_SIGNATURE)) {
            Ok(header) => header,
            Err(fault) => {
                return Err(fault);
            },
        };
        if header.length < 276 {
            return Err(HeaderError::LengthOutOfBounds);
        }
        Ok(
            FixedACPIDescriptionTable {
                header,
                firmware_ctrl: read_u32(bytes, 36),
                dsdt: read_u32(bytes, 40),
                int_model: bytes[44],
                preferred_pm_profile: bytes[45],
                sci_int: read_u16(bytes, 46),
                smi_cmd: read_u32(bytes, 48),
                acpi_enable: bytes[52],
                acpi_disable: bytes[53],
                s4bios_req: bytes[54],
                pstate_cnt: bytes[55],
                pm1a_evt_blk: read_u32(bytes, 56),
                pm1b_evt_blk: read_u32(bytes, 60),
                pm1a_cnt_blk: read_u32(bytes, 64),
                pm1b_cnt_blk: read_u32(bytes, 68),
                pm2_cnt_blk: read_u32(bytes, 72),
                pm_tmr_blk: read_u32(bytes, 76),
                gpe0_blk: read_u32(bytes, 80),
                gpe1_blk: read_u32(bytes, 84),
                pm1_evt_len: bytes[88],
                pm1_cnt_len: bytes[89],
                pm2_cnt_len: bytes[90],
                pm_tmr_len: bytes[91],
                gpe0_blk_len: bytes[92],
                gpe1_blk_len: bytes[93],
                gpe1_base: bytes[94],
                cst_cnt: bytes[95],
                p_lvl2_lat: read_u16(bytes, 96),
                p_lvl3_lat: read_u16(bytes, 98),
                flush_size: read_u16(bytes, 100),
                flush_stride: read_u16(bytes, 102),
                duty_offset: bytes[104],
                duty_width: bytes[105],
                day_alrm: bytes[106],
                mon_alrm: bytes[107],
                century: bytes[108],
                iapc_boot_arch: FADTIAPCBootArch(read_u16(bytes, 109)),
                flags: FADTFixedFeatureFlags(read_u32(bytes, 112)),
                reset_reg: GenericAddressStructure::decode_at(bytes, 116),
                reset_value: bytes[128],
                arm_boot_arch: FADTARMBootArch(read_u16(bytes, 129)),
                minor_version: bytes[131],
                x_firmware_ctrl: read_u64(bytes, 132),
                x_dsdt: read_u64(bytes, 140),
                x_pm1a_evt_blk: GenericAddressStructure::decode_at(bytes, 148),
                x_pm1b_evt_blk: GenericAddressStructure::decode_at(bytes, 160),
                x_pm1a_cnt_blk: GenericAddressStructure::decode_at(bytes, 172),
                x_pm1b_cnt_blk: GenericAddressStructure::decode_at(bytes, 184),
                x_pm2_cnt_blk: GenericAddressStructure::decode_at(bytes, 196),
                x_pm_tmr_blk: GenericAddressStructure::decode_at(bytes, 208),
                x_gpe0_blk: GenericAddressStructure::decode_at(bytes, 220),
                x_gpe1_blk: GenericAddressStructure::decode_at(bytes, 232),
                sleep_control_reg: GenericAddressStructure::decode_at(bytes, 244),
                sleep_status_reg: GenericAddressStructure::decode_at(bytes, 256),
                hypervisor_vendor_identity: read_u64(bytes, 268),
            },
        )
    }
}

} // verus!
