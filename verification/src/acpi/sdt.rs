//! The typed System Description Tables this crate classifies: the fixed
//! hardware table, the interrupt-controller table and the high-precision
//! timer table, each decoded from its packed little-endian byte layout.

use vstd::prelude::*;
use crate::acpi::{le_u16, le_u32, le_u64, read_le_u16, read_le_u32, read_le_u64};
use crate::acpi::{ACPISDTHeader, header_parsed, parse_sdt_header};

verus! {

broadcast use crate::lemma_slice_len_bound;

/// A uniform (space, width, offset, access-size, address) tuple used by
/// ACPI to describe a register location.  Twelve packed bytes.
#[derive(Debug, Clone, Copy)]
pub struct GenericAddressStructure {
    /// 0 is system memory, 1 is system I/O.
    pub address_space: u8,
    pub bit_width: u8,
    pub bit_offset: u8,
    pub access_size: u8,
    pub address: u64,
}

/// `g` holds exactly the twelve bytes at `off`.
pub open spec fn gas_parsed(mem: Seq<u8>, off: int, g: GenericAddressStructure) -> bool {
    &&& g.address_space == mem[off]
    &&& g.bit_width == mem[off + 1]
    &&& g.bit_offset == mem[off + 2]
    &&& g.access_size == mem[off + 3]
    &&& g.address == le_u64(mem, off + 4)
}

/// Decodes a generic address structure from its twelve packed bytes.
pub fn parse_gas(mem: &[u8], off: usize) -> (g: GenericAddressStructure)
    requires
        off + 12 <= mem@.len(),
    ensures
        gas_parsed(mem@, off as int, g),
{
    GenericAddressStructure {
        address_space: mem[off],
        bit_width: mem[off + 1],
        bit_offset: mem[off + 2],
        access_size: mem[off + 3],
        address: read_le_u64(mem, off + 4),
    }
}

/// Fixed ACPI description table (signature `FACP`): fixed hardware feature
/// fields, among them the RTC century-register index consumed by the time
/// service.  244 packed bytes.
#[derive(Debug, Clone, Copy)]
pub struct FADT {
    pub header: ACPISDTHeader,
    pub firmware_ctrl: u32,
    pub dsdt: u32,
    pub reserved: u8,
    pub preferred_power_management_profile: u8,
    pub sci_interrupt: u16,
    pub smi_command_port: u32,
    pub acpi_enable: u8,
    pub acpi_disable: u8,
    pub s4bios_req: u8,
    pub pstate_control: u8,
    pub pm1a_event_block: u32,
    pub pm1b_event_block: u32,
    pub pm1a_control_block: u32,
    pub pm1b_control_block: u32,
    pub pm2_control_block: u32,
    pub pm_timer_block: u32,
    pub gpe0_block: u32,
    pub gpe1_block: u32,
    pub pm1_event_length: u8,
    pub pm1_control_length: u8,
    pub pm2_control_length: u8,
    pub pm_timer_length: u8,
    pub gpe0_length: u8,
    pub gpe1_length: u8,
    pub gpe1_base: u8,
    pub c_state_control: u8,
    pub worst_c2_latency: u16,
    pub worst_c3_latency: u16,
    pub flush_size: u16,
    pub flush_stride: u16,
    pub duty_offset: u8,
    pub duty_width: u8,
    pub day_alarm: u8,
    pub month_alarm: u8,
    pub century: u8,
    pub boot_architecture_flags: u16,
    pub reserved2: u8,
    pub flags: u32,
    pub reset_reg: GenericAddressStructure,
    pub reset_value: u8,
    pub reserved3: [u8; 3],
    pub x_firmware_control: u64,
    pub x_dsdt: u64,
    pub x_pm1a_event_block: GenericAddressStructure,
    pub x_pm1b_event_block: GenericAddressStructure,
    pub x_pm1a_control_block: GenericAddressStructure,
    pub x_pm1b_control_block: GenericAddressStructure,
    pub x_pm2_control_block: GenericAddressStructure,
    pub x_pm_timer_block: GenericAddressStructure,
    pub x_gpe0_block: GenericAddressStructure,
    pub x_gpe1_block: GenericAddressStructure,
}

/// The number of packed bytes of a fixed table.
pub open spec fn fadt_size() -> int {
    244
}

/// `t` holds exactly the 244 packed bytes at `off`.
pub open spec fn fadt_parsed(mem: Seq<u8>, off: int, t: FADT) -> bool {
    &&& header_parsed(mem, off, t.header)
    &&& t.firmware_ctrl == le_u32(mem, off + 36)
    &&& t.dsdt == le_u32(mem, off + 40)
    &&& t.reserved == mem[off + 44]
    &&& t.preferred_power_management_profile == mem[off + 45]
    &&& t.sci_interrupt == le_u16(mem, off + 46)
    &&& t.smi_command_port == le_u32(mem, off + 48)
    &&& t.acpi_enable == mem[off + 52]
    &&& t.acpi_disable == mem[off + 53]
    &&& t.s4bios_req == mem[off + 54]
    &&& t.pstate_control == mem[off + 55]
    &&& t.pm1a_event_block == le_u32(mem, off + 56)
    &&& t.pm1b_event_block == le_u32(mem, off + 60)
    &&& t.pm1a_control_block == le_u32(mem, off + 64)
    &&& t.pm1b_control_block == le_u32(mem, off + 68)
    &&& t.pm2_control_block == le_u32(mem, off + 72)
    &&& t.pm_timer_block == le_u32(mem, off + 76)
    &&& t.gpe0_block == le_u32(mem, off + 80)
    &&& t.gpe1_block == le_u32(mem, off + 84)
    &&& t.pm1_event_length == mem[off + 88]
    &&& t.pm1_control_length == mem[off + 89]
    &&& t.pm2_control_length == mem[off + 90]
    &&& t.pm_timer_length == mem[off + 91]
    &&& t.gpe0_length == mem[off + 92]
    &&& t.gpe1_length == mem[off + 93]
    &&& t.gpe1_base == mem[off + 94]
    &&& t.c_state_control == mem[off + 95]
    &&& t.worst_c2_latency == le_u16(mem, off + 96)
    &&& t.worst_c3_latency == le_u16(mem, off + 98)
    &&& t.flush_size == le_u16(mem, off + 100)
    &&& t.flush_stride == le_u16(mem, off + 102)
    &&& t.duty_offset == mem[off + 104]
    &&& t.duty_width == mem[off + 105]
    &&& t.day_alarm == mem[off + 106]
    &&& t.month_alarm == mem[off + 107]
    &&& t.century == mem[off + 108]
    &&& t.boot_architecture_flags == le_u16(mem, off + 109)
    &&& t.reserved2 == mem[off + 111]
    &&& t.flags == le_u32(mem, off + 112)
    &&& gas_parsed(mem, off + 116, t.reset_reg)
    &&& t.reset_value == mem[off + 128]
    &&& t.reserved3@ == mem.subrange(off + 129, off + 132)
    &&& t.x_firmware_control == le_u64(mem, off + 132)
    &&& t.x_dsdt == le_u64(mem, off + 140)
    &&& gas_parsed(mem, off + 148, t.x_pm1a_event_block)
    &&& gas_parsed(mem, off + 160, t.x_pm1b_event_block)
    &&& gas_parsed(mem, off + 172, t.x_pm1a_control_block)
    &&& gas_parsed(mem, off + 184, t.x_pm1b_control_block)
    &&& gas_parsed(mem, off + 196, t.x_pm2_control_block)
    &&& gas_parsed(mem, off + 208, t.x_pm_timer_block)
    &&& gas_parsed(mem, off + 220, t.x_gpe0_block)
    &&& gas_parsed(mem, off + 232, t.x_gpe1_block)
}

/// Decodes a fixed table from its 244 packed bytes.
pub fn parse_fadt(mem: &[u8], off: usize) -> (t: FADT)
    requires
        off + 244 <= mem@.len(),
    ensures
        fadt_parsed(mem@, off as int, t),
{
    let reserved3: [u8; 3] = [mem[off + 129], mem[off + 130], mem[off + 131]];
    proof {
        assert(reserved3@ =~= mem@.subrange(off + 129, off + 132));
    }
    FADT {
        header: parse_sdt_header(mem, off),
        firmware_ctrl: read_le_u32(mem, off + 36),
        dsdt: read_le_u32(mem, off + 40),
        reserved: mem[off + 44],
        preferred_power_management_profile: mem[off + 45],
        sci_interrupt: read_le_u16(mem, off + 46),
        smi_command_port: read_le_u32(mem, off + 48),
        acpi_enable: mem[off + 52],
        acpi_disable: mem[off + 53],
        s4bios_req: mem[off + 54],
        pstate_control: mem[off + 55],
        pm1a_event_block: read_le_u32(mem, off + 56),
        pm1b_event_block: read_le_u32(mem, off + 60),
        pm1a_control_block: read_le_u32(mem, off + 64),
        pm1b_control_block: read_le_u32(mem, off + 68),
        pm2_control_block: read_le_u32(mem, off + 72),
        pm_timer_block: read_le_u32(mem, off + 76),
        gpe0_block: read_le_u32(mem, off + 80),
        gpe1_block: read_le_u32(mem, off + 84),
        pm1_event_length: mem[off + 88],
        pm1_control_length: mem[off + 89],
        pm2_control_length: mem[off + 90],
        pm_timer_length: mem[off + 91],
        gpe0_length: mem[off + 92],
        gpe1_length: mem[off + 93],
        gpe1_base: mem[off + 94],
        c_state_control: mem[off + 95],
        worst_c2_latency: read_le_u16(mem, off + 96),
        worst_c3_latency: read_le_u16(mem, off + 98),
        flush_size: read_le_u16(mem, off + 100),
        flush_stride: read_le_u16(mem, off + 102),
        duty_offset: mem[off + 104],
        duty_width: mem[off + 105],
        day_alarm: mem[off + 106],
        month_alarm: mem[off + 107],
        century: mem[off + 108],
        boot_architecture_flags: read_le_u16(mem, off + 109),
        reserved2: mem[off + 111],
        flags: read_le_u32(mem, off + 112),
        reset_reg: parse_gas(mem, off + 116),
        reset_value: mem[off + 128],
        reserved3,
        x_firmware_control: read_le_u64(mem, off + 132),
        x_dsdt: read_le_u64(mem, off + 140),
        x_pm1a_event_block: parse_gas(mem, off + 148),
        x_pm1b_event_block: parse_gas(mem, off + 160),
        x_pm1a_control_block: parse_gas(mem, off + 172),
        x_pm1b_control_block: parse_gas(mem, off + 184),
        x_pm2_control_block: parse_gas(mem, off + 196),
        x_pm_timer_block: parse_gas(mem, off + 208),
        x_gpe0_block: parse_gas(mem, off + 220),
        x_gpe1_block: parse_gas(mem, off + 232),
    }
}

/// Multiple APIC description table (signature `APIC`): the
/// interrupt-controller topology.  44 packed bytes.
#[derive(Debug, Clone, Copy)]
pub struct MADT {
    pub header: ACPISDTHeader,
    pub apic_address: u32,
    pub flags: u32,
}

/// The number of packed bytes of a multiple-APIC table.
pub open spec fn madt_size() -> int {
    44
}

/// `t` holds exactly the 44 packed bytes at `off`.
pub open spec fn madt_parsed(mem: Seq<u8>, off: int, t: MADT) -> bool {
    &&& header_parsed(mem, off, t.header)
    &&& t.apic_address == le_u32(mem, off + 36)
    &&& t.flags == le_u32(mem, off + 40)
}

/// Decodes a multiple-APIC table from its 44 packed bytes.
pub fn parse_madt(mem: &[u8], off: usize) -> (t: MADT)
    requires
        off + 44 <= mem@.len(),
    ensures
        madt_parsed(mem@, off as int, t),
{
    MADT {
        header: parse_sdt_header(mem, off),
        apic_address: read_le_u32(mem, off + 36),
        flags: read_le_u32(mem, off + 40),
    }
}

/// High-precision event timer table (signature `HPET`).  56 packed bytes.
#[derive(Debug, Clone, Copy)]
pub struct HPET {
    pub header: ACPISDTHeader,
    pub hardware_rev_id: u8,
    /// Packed capability bits: comparator count in the low five bits, then
    /// counter size, a reserved bit, and legacy replacement in the top bit.
    pub packed_field: u8,
    pub pci_vendor_id: u16,
    pub address: GenericAddressStructure,
    pub hpet_number: u8,
    pub minimum_tick: u16,
    pub page_protection: u8,
}

/// The number of packed bytes of a high-precision-timer table.
pub open spec fn hpet_size() -> int {
    56
}

/// `t` holds exactly the 56 packed bytes at `off`.
pub open spec fn hpet_parsed(mem: Seq<u8>, off: int, t: HPET) -> bool {
    &&& header_parsed(mem, off, t.header)
    &&& t.hardware_rev_id == mem[off + 36]
    &&& t.packed_field == mem[off + 37]
    &&& t.pci_vendor_id == le_u16(mem, off + 38)
    &&& gas_parsed(mem, off + 40, t.address)
    &&& t.hpet_number == mem[off + 52]
    &&& t.minimum_tick == le_u16(mem, off + 53)
    &&& t.page_protection == mem[off + 55]
}

/// Decodes a high-precision-timer table from its 56 packed bytes.
pub fn parse_hpet(mem: &[u8], off: usize) -> (t: HPET)
    requires
        off + 56 <= mem@.len(),
    ensures
        hpet_parsed(mem@, off as int, t),
{
    HPET {
        header: parse_sdt_header(mem, off),
        hardware_rev_id: mem[off + 36],
        packed_field: mem[off + 37],
        pci_vendor_id: read_le_u16(mem, off + 38),
        address: parse_gas(mem, off + 40),
        hpet_number: mem[off + 52],
        minimum_tick: read_le_u16(mem, off + 53),
        page_protection: mem[off + 55],
    }
}

impl HPET {
    /// The comparator count: the low five bits of the packed capability
    /// field.
    pub fn get_comparator_count(&self) -> (c: u8)
        ensures
            c == self.packed_field & 0x1f,
    {
        self.packed_field & 0x1f
    }

    /// The counter-size bit of the packed capability field.
    pub fn get_counter_size(&self) -> (c: u8)
        ensures
            c == (self.packed_field >> 5) & 1,
    {
        (self.packed_field >> 5) & 1
    }

    /// The legacy-replacement bit of the packed capability field.
    pub fn get_legacy_replacement(&self) -> (c: u8)
        ensures
            c == (self.packed_field >> 7) & 1,
    {
        (self.packed_field >> 7) & 1
    }
}

} // verus!
