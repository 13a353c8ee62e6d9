use oxide_os::acpi::cache::Acpi;
use oxide_os::acpi::sdt::parse_hpet;
use oxide_os::acpi::{
    classify_signature, find_rsdp, get_rsdp, parse_rsdp, parse_rsdt, parse_sdt_header,
    rsdp_descriptor_checksum, sdt_checksum, AcpiError, TableKind,
};

fn write_u32_le(mem: &mut [u8], off: usize, v: u32) {
    mem[off] = (v & 0xFF) as u8;
    mem[off + 1] = ((v >> 8) & 0xFF) as u8;
    mem[off + 2] = ((v >> 16) & 0xFF) as u8;
    mem[off + 3] = ((v >> 24) & 0xFF) as u8;
}

/// Sets the byte at `checksum_off` so that the bytes in `off..off + len`
/// sum to a multiple of 256.
fn fix_checksum(mem: &mut [u8], off: usize, len: usize, checksum_off: usize) {
    mem[checksum_off] = 0;
    let sum: u32 = mem[off..off + len].iter().map(|b| *b as u32).sum();
    mem[checksum_off] = ((256 - (sum % 256)) % 256) as u8;
}

const RSDP_SIG: [u8; 8] = [0x52, 0x53, 0x44, 0x20, 0x50, 0x54, 0x52, 0x20];

fn place_rsdp(mem: &mut [u8], off: usize, rsdt_address: u32) {
    mem[off..off + 8].copy_from_slice(&RSDP_SIG);
    write_u32_le(mem, off + 16, rsdt_address);
    fix_checksum(mem, off, 20, off + 8);
}

#[test]
fn checksum_accepts_zero_sum_record() {
    let mut record = [0u8; 20];
    record[0] = 0x80;
    record[7] = 0x80;
    assert!(rsdp_descriptor_checksum(record));
    let mut with_values = [7u8; 20];
    with_values[19] = 256u32.wrapping_sub(19 * 7).wrapping_rem(256) as u8;
    let sum: u32 = with_values.iter().map(|b| *b as u32).sum();
    assert_eq!(sum % 256, 0);
    assert!(rsdp_descriptor_checksum(with_values));
}

#[test]
fn checksum_rejects_any_single_byte_flip() {
    let mut record = [3u8; 20];
    record[19] = (256 - (19 * 3) % 256) as u8;
    assert!(rsdp_descriptor_checksum(record));
    for i in 0..20 {
        for delta in [1u8, 5, 128, 255] {
            let mut flipped = record;
            flipped[i] = record[i].wrapping_add(delta);
            assert!(!rsdp_descriptor_checksum(flipped), "flip at {} by {}", i, delta);
        }
    }
}

#[test]
fn sdt_checksum_sums_every_byte() {
    assert!(sdt_checksum(&[]));
    assert!(sdt_checksum(&[128, 128]));
    assert!(!sdt_checksum(&[128, 127]));
    let table = vec![1u8; 256];
    assert!(sdt_checksum(&table));
}

#[test]
fn find_rsdp_returns_first_valid_offset() {
    let mut mem = vec![0u8; 4096];
    place_rsdp(&mut mem, 32, 0x1234);
    assert_eq!(find_rsdp(&mem), Some(32));
    let descriptor = parse_rsdp(&mem, 32);
    assert_eq!(descriptor.signature, RSDP_SIG);
    assert_eq!(descriptor.rsdt_address, 0x1234);
}

#[test]
fn find_rsdp_skips_matching_record_with_bad_checksum() {
    let mut mem = vec![0u8; 4096];
    mem[16..24].copy_from_slice(&RSDP_SIG);
    // no checksum fix at 16: the record's byte sum is not a multiple of 256
    let sum: u32 = mem[16..36].iter().map(|b| *b as u32).sum();
    assert_ne!(sum % 256, 0);
    place_rsdp(&mut mem, 48, 0x4000);
    assert_eq!(find_rsdp(&mem), Some(48));
}

#[test]
fn find_rsdp_ignores_unaligned_record() {
    let mut mem = vec![0u8; 4096];
    place_rsdp(&mut mem, 8, 0x4000);
    assert_eq!(find_rsdp(&mem), None);
}

#[test]
fn find_rsdp_reports_absence() {
    assert_eq!(find_rsdp(&[]), None);
    let mem = vec![0xAAu8; 4096];
    assert_eq!(find_rsdp(&mem), None);
}

#[test]
fn rsdt_pointer_extraction_round_trips() {
    let pointers = [0x100u32, 0x200, 0x300];
    let mut mem = vec![0u8; 128];
    write_u32_le(&mut mem, 4, 36 + 4 * pointers.len() as u32);
    for (i, p) in pointers.iter().enumerate() {
        write_u32_le(&mut mem, 36 + 4 * i, *p);
    }
    let rsdt = parse_rsdt(&mem, 0);
    assert_eq!(rsdt.get_num_sdt(), 3);
    assert_eq!(rsdt.get_sdt_addresses().as_slice(), &pointers);
}

#[test]
fn signature_classification_is_byte_exact() {
    assert_eq!(classify_signature(b"FACP"), TableKind::Fadt);
    assert_eq!(classify_signature(b"APIC"), TableKind::Madt);
    assert_eq!(classify_signature(b"HPET"), TableKind::Hpet);
    // near misses, one byte off each
    assert_eq!(classify_signature(b"FACp"), TableKind::Unknown);
    assert_eq!(classify_signature(b"FBCP"), TableKind::Unknown);
    assert_eq!(classify_signature(b"APIX"), TableKind::Unknown);
    assert_eq!(classify_signature(b"HPEt"), TableKind::Unknown);
    assert_eq!(classify_signature(b"SSDT"), TableKind::Unknown);
}

#[test]
fn header_fields_decode_from_packed_bytes() {
    let mut mem = vec![0u8; 64];
    mem[0..4].copy_from_slice(b"FACP");
    write_u32_le(&mut mem, 4, 244);
    mem[8] = 3; // revision
    mem[9] = 0x77; // checksum byte as stored
    mem[10..16].copy_from_slice(b"OEMIDX");
    mem[16..24].copy_from_slice(b"OEMTABLE");
    write_u32_le(&mut mem, 24, 0xDEAD_BEEF);
    write_u32_le(&mut mem, 28, 0x1111_2222);
    write_u32_le(&mut mem, 32, 0x3333_4444);
    let h = parse_sdt_header(&mem, 0);
    assert_eq!(&h.signature, b"FACP");
    assert_eq!(h.length, 244);
    assert_eq!(h.revision, 3);
    assert_eq!(h.checksum, 0x77);
    assert_eq!(&h.oem_id, b"OEMIDX");
    assert_eq!(&h.oem_table_id, b"OEMTABLE");
    assert_eq!(h.oem_revision, 0xDEAD_BEEF);
    assert_eq!(h.creator_id, 0x1111_2222);
    assert_eq!(h.creator_revision, 0x3333_4444);
    assert_eq!(h.as_string(), "FACP");
}

#[test]
fn hpet_capability_bits_unpack() {
    let mut mem = vec![0u8; 64];
    mem[0..4].copy_from_slice(b"HPET");
    mem[37] = 0b0010_1010;
    let hpet = parse_hpet(&mem, 0);
    assert_eq!(hpet.get_comparator_count(), 0b01010);
    assert_eq!(hpet.get_counter_size(), 1);
    assert_eq!(hpet.get_legacy_replacement(), 0);
    mem[37] = 0b1011_0111;
    let hpet = parse_hpet(&mem, 0);
    assert_eq!(hpet.get_comparator_count(), 0b1_0111);
    assert_eq!(hpet.get_counter_size(), 1);
    assert_eq!(hpet.get_legacy_replacement(), 1);
}

fn discovery_image() -> Vec<u8> {
    let mut mem = vec![0u8; 4096];
    place_rsdp(&mut mem, 16, 64);
    // root table at 64 with three sub-table pointers
    mem[64..68].copy_from_slice(b"RSDT");
    write_u32_le(&mut mem, 68, 48);
    write_u32_le(&mut mem, 100, 200); // fixed table
    write_u32_le(&mut mem, 104, 500); // high-precision timer
    write_u32_le(&mut mem, 108, 800); // unknown kind
    fix_checksum(&mut mem, 64, 48, 73);
    // fixed table at 200
    mem[200..204].copy_from_slice(b"FACP");
    write_u32_le(&mut mem, 204, 244);
    mem[200 + 108] = 42; // century register index
    // high-precision-timer table at 500
    mem[500..504].copy_from_slice(b"HPET");
    write_u32_le(&mut mem, 504, 56);
    mem[537] = 0b0110_0011;
    // unknown table at 800
    mem[800..804].copy_from_slice(b"SSDT");
    write_u32_le(&mut mem, 804, 36);
    mem
}

#[test]
fn discovery_populates_cache_and_reports() {
    let mem = discovery_image();
    let mut acpi = Acpi::new();
    let report = get_rsdp(&mem, &mut acpi).expect("discovery should succeed");
    assert_eq!(report.rsdp_offset, 16);
    assert_eq!(report.rsdt_address, 64);
    assert!(report.root_checksum_ok);
    assert_eq!(report.unknown_tables, vec![800]);
    assert_eq!(report.skipped_tables, 0);

    let (rsdt_addr, rsdt) = acpi.rsdt_table().expect("root table cached");
    assert_eq!(rsdt_addr, 64);
    assert_eq!(rsdt.get_sdt_addresses().as_slice(), &[200, 500, 800]);

    let (fadt_addr, fadt) = acpi.fadt_table().expect("fixed table cached");
    assert_eq!(fadt_addr, 200);
    assert_eq!(fadt.century, 42);

    let (hpet_addr, hpet) = acpi.hpet_table().expect("timer table cached");
    assert_eq!(hpet_addr, 500);
    assert_eq!(hpet.get_comparator_count(), 0b0_0011);

    assert!(acpi.madt_table().is_none());

    let text = acpi.report();
    assert!(text.starts_with("ACPI table:\n"));
    assert!(text.contains("rsdt: 0x00000040\n"));
    assert!(text.contains("fadt: 0x000000C8\n"));
    assert!(text.contains("hpet: 0x000001F4\n"));
    assert!(!text.contains("madt"));
}

#[test]
fn discovery_with_failed_root_checksum_still_classifies() {
    let mut mem = discovery_image();
    mem[73] = mem[73].wrapping_add(1); // break the root table checksum
    let mut acpi = Acpi::new();
    let report = get_rsdp(&mem, &mut acpi).expect("discovery should succeed");
    assert!(!report.root_checksum_ok);
    assert!(acpi.fadt_table().is_some());
}

#[test]
fn discovery_skips_out_of_range_table() {
    let mut mem = discovery_image();
    write_u32_le(&mut mem, 100, 4090); // fixed-table pointer too close to the end
    let mut acpi = Acpi::new();
    let report = get_rsdp(&mem, &mut acpi).expect("discovery should succeed");
    assert_eq!(report.skipped_tables, 1);
    assert!(acpi.fadt_table().is_none());
}

#[test]
fn discovery_without_root_record_is_an_error() {
    let mem = vec![0u8; 4096];
    let mut acpi = Acpi::new();
    assert_eq!(get_rsdp(&mem, &mut acpi).unwrap_err(), AcpiError::RsdpNotFound);
    assert!(acpi.rsdt_table().is_none());
}

#[test]
fn discovery_with_unreachable_root_table_is_an_error() {
    let mut mem = vec![0u8; 4096];
    place_rsdp(&mut mem, 0, 0x0010_0000);
    let mut acpi = Acpi::new();
    assert_eq!(
        get_rsdp(&mem, &mut acpi).unwrap_err(),
        AcpiError::RootTableOutOfBounds
    );
    assert!(acpi.rsdt_table().is_none());
}

#[test]
fn cache_read_before_write_is_empty_and_reads_agree() {
    let acpi = Acpi::new();
    assert!(acpi.fadt.read().is_none());
    assert!(acpi.rsdt.read().is_none());

    let mem = discovery_image();
    let mut acpi = Acpi::new();
    get_rsdp(&mem, &mut acpi).expect("discovery should succeed");
    // two shared reads of the written slot return identical values
    let first = acpi.fadt_table().expect("fixed table cached");
    let second = acpi.fadt_table().expect("fixed table cached");
    assert_eq!(first.0, second.0);
    assert_eq!(first.1.century, second.1.century);
    assert_eq!(first.1.header.signature, second.1.header.signature);
}
