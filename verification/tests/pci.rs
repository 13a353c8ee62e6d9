use oxide_os::pci::pci_bar::PCIBar;
use oxide_os::pci::pci_class::PCIClass;
use oxide_os::pci::{PCIHeader, ProbeOutcome, PCI};

#[test]
fn bar_words_decode_to_regions() {
    assert_eq!(PCIBar::from(0x0000_0000), PCIBar::Absent);
    assert_eq!(PCIBar::from(0x0000_0001), PCIBar::Absent); // only low bits set
    assert_eq!(
        PCIBar::from(0xFE00_0008),
        PCIBar::Memory((0xFE00_0000, true))
    );
    assert_eq!(
        PCIBar::from(0xFE00_0000),
        PCIBar::Memory((0xFE00_0000, false))
    );
    assert_eq!(PCIBar::from(0xC001), PCIBar::Port(0xC000));
}

#[test]
fn class_bytes_decode_to_categories() {
    assert_eq!(PCIClass::from(0x00), Some(PCIClass::Unclassified));
    assert_eq!(PCIClass::from(0x01), Some(PCIClass::MassStorage));
    assert_eq!(PCIClass::from(0x0C), Some(PCIClass::SerialBus));
    assert_eq!(PCIClass::from(0x13), Some(PCIClass::NonEssential));
    assert_eq!(PCIClass::from(0x40), Some(PCIClass::CoProcessor));
    assert_eq!(PCIClass::from(0x14), None);
    assert_eq!(PCIClass::from(0xFF), None);
    assert_eq!(PCIClass::default(), PCIClass::Unclassified);
}

fn words_with(class: u8, subclass: u8, interface: u8) -> [u32; 16] {
    let mut words = [0u32; 16];
    words[0] = 0x5678_1234; // device 0x5678, vendor 0x1234
    words[2] = ((class as u32) << 24) | ((subclass as u32) << 16) | ((interface as u32) << 8);
    words
}

#[test]
fn header_words_decode_field_by_field() {
    let mut words = words_with(0x01, 0x06, 0x00);
    words[1] = 0x4321_8765;
    words[3] = 0x44332211;
    words[4] = 0xFE00_0008;
    words[5] = 0xC001;
    words[10] = 0xAABBCCDD;
    words[11] = 0x9999_8888;
    words[12] = 0x1234_5678;
    words[13] = 0x0706_05F0;
    words[14] = 0x0B0A_0908;
    words[15] = 0x40302010;
    let h = PCIHeader::from_words(&words).expect("known class");
    assert_eq!(h.vendor_id, 0x1234);
    assert_eq!(h.device_id, 0x5678);
    assert_eq!(h.command, 0x8765);
    assert_eq!(h.status, 0x4321);
    assert_eq!(h.revision, 0x00);
    assert_eq!(h.interface, 0x00);
    assert_eq!(h.subclass, 0x06);
    assert_eq!(h.class, PCIClass::MassStorage);
    assert_eq!(h.cache_line_size, 0x11);
    assert_eq!(h.latency_timer, 0x22);
    assert_eq!(h.header_type, 0x33);
    assert_eq!(h.bist, 0x44);
    assert_eq!(h.base_address_registers, [0xFE00_0008, 0xC001, 0, 0, 0, 0]);
    assert_eq!(h.cardbus_cis_ptr, 0xAABBCCDD);
    assert_eq!(h.subsystem_vendor_id, 0x8888);
    assert_eq!(h.subsystem_id, 0x9999);
    assert_eq!(h.expansion_rom_bar, 0x1234_5678);
    assert_eq!(h.capabilities, 0xF0);
    assert_eq!(h.reserved, [0x05, 0x06, 0x07, 0x08, 0x09, 0x0A, 0x0B]);
    assert_eq!(h.interrupt_line, 0x10);
    assert_eq!(h.interrupt_pin, 0x20);
    assert_eq!(h.min_grant, 0x30);
    assert_eq!(h.max_latency, 0x40);
}

#[test]
fn unknown_class_byte_fails_decoding() {
    let words = words_with(0x77, 0, 0);
    assert!(PCIHeader::from_words(&words).is_none());
}

#[test]
fn summary_names_sata_refinement() {
    let words = words_with(0x01, 0x06, 0x00);
    let h = PCIHeader::from_words(&words).expect("known class");
    let text = h.summary();
    assert!(text.contains("SATA"));
    assert_eq!(text, "MassStorage SATA\nlatency: 0, IRQ:0\n");
}

#[test]
fn summary_renders_bars_and_usb_refinements() {
    let mut words = words_with(0x0C, 0x03, 0x30);
    words[4] = 0xFE00_0008;
    words[5] = 0xC001;
    words[15] = 0x0B00_0005; // IRQ line 5, max latency 11
    let h = PCIHeader::from_words(&words).expect("known class");
    let text = h.summary();
    assert_eq!(
        text,
        "SerialBus XHCI\nlatency: 11, IRQ:5\nBAR[0]:FE000000(memory)\nBAR[1]:C000(port)\n"
    );
}

#[test]
fn config_address_packs_coordinates() {
    let pci = PCI::new();
    assert_eq!(pci.config_address(0, 0, 0, 0), 0x8000_0000);
    assert_eq!(pci.config_address(1, 2, 3, 0x13), 0x8001_1310);
    assert_eq!(pci.config_address(255, 31, 7, 0xFC), 0x80FF_FFFC);
}

#[test]
fn enumeration_covers_the_whole_space_in_order() {
    let pci = PCI::new();
    let mut busses = pci.busses();
    let mut bus_count = 0u32;
    let mut expected_bus = 0u16;
    while let Some(bus) = busses.next() {
        assert_eq!(bus.num as u16, expected_bus);
        expected_bus += 1;
        bus_count += 1;
        if bus.num == 0 {
            let mut devices = bus.devices();
            let mut device_count = 0u32;
            let mut expected_device = 0u8;
            while let Some(device) = devices.next() {
                assert_eq!(device.num, expected_device);
                expected_device += 1;
                device_count += 1;
                if device.num == 0 {
                    let mut functions = device.functions();
                    let mut function_count = 0u32;
                    while let Some(func) = functions.next() {
                        assert_eq!(func.num, function_count as u8);
                        function_count += 1;
                    }
                    assert_eq!(function_count, 8);
                }
            }
            assert_eq!(device_count, 32);
        }
    }
    assert_eq!(bus_count, 256);
}

#[test]
fn absent_probe_skips_function_and_enumeration_goes_on() {
    let pci = PCI::new();
    let mut busses = pci.busses();
    let bus = busses.next().expect("bus 0");
    let mut devices = bus.devices();
    let device = devices.next().expect("device 0");
    // synthetic configuration space: function 0 absent, function 1 present
    let absent = [0xFFFF_FFFFu32; 16];
    let present = words_with(0x02, 0, 0);
    let mut seen = Vec::new();
    let mut functions = device.functions();
    while let Some(func) = functions.next() {
        let words = if func.num == 1 { &present } else { &absent };
        match func.header(words) {
            ProbeOutcome::Absent => {}
            ProbeOutcome::Present(h) => seen.push((func.num, h.class)),
            ProbeOutcome::UnknownClass(_) => panic!("class 0x02 is known"),
        }
    }
    // the absent sentinel at function 0 did not stop the scan
    assert_eq!(seen, vec![(1, PCIClass::Network)]);
}

#[test]
fn present_function_with_unknown_class_is_distinguished_from_absent() {
    let pci = PCI::new();
    let mut busses = pci.busses();
    let bus = busses.next().expect("bus 0");
    let mut devices = bus.devices();
    let device = devices.next().expect("device 0");
    let mut functions = device.functions();
    let func = functions.next().expect("function 0");
    let words = words_with(0x99, 0, 0);
    assert!(matches!(
        func.header(&words),
        ProbeOutcome::UnknownClass(0x99)
    ));
    let absent = [0xFFFF_FFFFu32; 16];
    assert!(matches!(func.header(&absent), ProbeOutcome::Absent));
}
