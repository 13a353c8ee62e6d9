//! PCI configuration-space discovery: the two-port access protocol, the
//! bus/device/function enumeration, and the decoding of raw
//! configuration words into a structured header.
//!
//! The port reads themselves happen outside this crate; every function
//! here computes on the 32-bit words a probe returned.

pub mod pci_bar;
pub mod pci_class;

use vstd::prelude::*;
use vstd::string::StringExecFns;
use crate::pci::pci_bar::{PCIBar, spec_bar};
use crate::pci::pci_class::{PCIClass, spec_class_of};
use crate::render::{dec_u32, hex_u32, spec_dec, spec_hex};

verus! {

/// The low 16 bits of a configuration word.
pub open spec fn word_lo16(w: u32) -> u16 {
    (w % 0x10000) as u16
}

/// The high 16 bits of a configuration word.
pub open spec fn word_hi16(w: u32) -> u16 {
    (w / 0x10000) as u16
}

/// Byte 0 (least significant) of a configuration word.
pub open spec fn word_byte0(w: u32) -> u8 {
    (w % 0x100) as u8
}

/// Byte 1 of a configuration word.
pub open spec fn word_byte1(w: u32) -> u8 {
    (w / 0x100 % 0x100) as u8
}

/// Byte 2 of a configuration word.
pub open spec fn word_byte2(w: u32) -> u8 {
    (w / 0x10000 % 0x100) as u8
}

/// Byte 3 (most significant) of a configuration word.
pub open spec fn word_byte3(w: u32) -> u8 {
    (w / 0x1000000) as u8
}

/// Snapshot of one function's 64-word configuration space, decoded into
/// semantic fields.  Only meaningful when the probe at offset 0 did not
/// return the absent sentinel.
#[derive(Debug, Clone, Copy)]
pub struct PCIHeader {
    pub vendor_id: u16,
    pub device_id: u16,
    pub command: u16,
    pub status: u16,
    pub revision: u8,
    pub interface: u8,
    pub subclass: u8,
    pub class: PCIClass,
    pub cache_line_size: u8,
    pub latency_timer: u8,
    pub header_type: u8,
    pub bist: u8,
    pub base_address_registers: [u32; 6],
    pub cardbus_cis_ptr: u32,
    pub subsystem_vendor_id: u16,
    pub subsystem_id: u16,
    pub expansion_rom_bar: u32,
    pub capabilities: u8,
    pub reserved: [u8; 7],
    pub interrupt_line: u8,
    pub interrupt_pin: u8,
    pub min_grant: u8,
    pub max_latency: u8,
}

/// `h` holds exactly the fields packed into the sixteen configuration
/// words.
pub open spec fn header_decoded(words: Seq<u32>, h: PCIHeader) -> bool {
    &&& h.vendor_id == word_lo16(words[0])
    &&& h.device_id == word_hi16(words[0])
    &&& h.command == word_lo16(words[1])
    &&& h.status == word_hi16(words[1])
    &&& h.revision == word_byte0(words[2])
    &&& h.interface == word_byte1(words[2])
    &&& h.subclass == word_byte2(words[2])
    &&& spec_class_of(word_byte3(words[2])) == Some(h.class)
    &&& h.cache_line_size == word_byte0(words[3])
    &&& h.latency_timer == word_byte1(words[3])
    &&& h.header_type == word_byte2(words[3])
    &&& h.bist == word_byte3(words[3])
    &&& h.base_address_registers@ == words.subrange(4, 10)
    &&& h.cardbus_cis_ptr == words[10]
    &&& h.subsystem_vendor_id == word_lo16(words[11])
    &&& h.subsystem_id == word_hi16(words[11])
    &&& h.expansion_rom_bar == words[12]
    &&& h.capabilities == word_byte0(words[13])
    &&& h.reserved@ == seq![
        word_byte1(words[13]),
        word_byte2(words[13]),
        word_byte3(words[13]),
        word_byte0(words[14]),
        word_byte1(words[14]),
        word_byte2(words[14]),
        word_byte3(words[14]),
    ]
    &&& h.interrupt_line == word_byte0(words[15])
    &&& h.interrupt_pin == word_byte1(words[15])
    &&& h.min_grant == word_byte2(words[15])
    &&& h.max_latency == word_byte3(words[15])
}

impl PCIHeader {
    /// Decodes the sixteen words of a present function's configuration
    /// space.  Yields nothing when the class byte lies outside the known
    /// category table.
    pub fn from_words(words: &[u32; 16]) -> (r: Option<PCIHeader>)
        ensures
            match r {
                Some(h) => header_decoded(words@, h),
                None => spec_class_of(word_byte3(words@[2])) is None,
            },
    {
        let class_byte: u8 = (words[2] / 0x1000000) as u8;
        let class = match PCIClass::from(class_byte) {
            Some(c) => c,
            None => {
                return None;
            },
        };
        let base_address_registers: [u32; 6] = [
            words[4],
            words[5],
            words[6],
            words[7],
            words[8],
            words[9],
        ];
        let reserved: [u8; 7] = [
            (words[13] / 0x100 % 0x100) as u8,
            (words[13] / 0x10000 % 0x100) as u8,
            (words[13] / 0x1000000) as u8,
            (words[14] % 0x100) as u8,
            (words[14] / 0x100 % 0x100) as u8,
            (words[14] / 0x10000 % 0x100) as u8,
            (words[14] / 0x1000000) as u8,
        ];
        proof {
            assert(base_address_registers@ =~= words@.subrange(4, 10));
            assert(reserved@ =~= seq![
                word_byte1(words@[13]),
                word_byte2(words@[13]),
                word_byte3(words@[13]),
                word_byte0(words@[14]),
                word_byte1(words@[14]),
                word_byte2(words@[14]),
                word_byte3(words@[14]),
            ]);
        }
        Some(
            PCIHeader {
                vendor_id: (words[0] % 0x10000) as u16,
                device_id: (words[0] / 0x10000) as u16,
                command: (words[1] % 0x10000) as u16,
                status: (words[1] / 0x10000) as u16,
                revision: (words[2] % 0x100) as u8,
                interface: (words[2] / 0x100 % 0x100) as u8,
                subclass: (words[2] / 0x10000 % 0x100) as u8,
                class,
                cache_line_size: (words[3] % 0x100) as u8,
                latency_timer: (words[3] / 0x100 % 0x100) as u8,
                header_type: (words[3] / 0x10000 % 0x100) as u8,
                bist: (words[3] / 0x1000000) as u8,
                base_address_registers,
                cardbus_cis_ptr: words[10],
                subsystem_vendor_id: (words[11] % 0x10000) as u16,
                subsystem_id: (words[11] / 0x10000) as u16,
                expansion_rom_bar: words[12],
                capabilities: (words[13] % 0x100) as u8,
                reserved,
                interrupt_line: (words[15] % 0x100) as u8,
                interrupt_pin: (words[15] / 0x100 % 0x100) as u8,
                min_grant: (words[15] / 0x10000 % 0x100) as u8,
                max_latency: (words[15] / 0x1000000) as u8,
            },
        )
    }

    /// The subclass/interface refinement of the diagnostic summary, such
    /// as the SATA and XHCI labels, for the known combinations.
    pub open spec fn spec_refinement(&self) -> Seq<char> {
        if self.class is MassStorage {
            if self.subclass == 0x01 {
                " IDE"@
            } else if self.subclass == 0x06 {
                " SATA"@
            } else {
                Seq::<char>::empty()
            }
        } else if self.class is SerialBus {
            if self.subclass == 0x03 {
                if self.interface == 0x00 {
                    " UHCI"@
                } else if self.interface == 0x10 {
                    " OHCI"@
                } else if self.interface == 0x20 {
                    " EHCI"@
                } else if self.interface == 0x30 {
                    " XHCI"@
                } else {
                    Seq::<char>::empty()
                }
            } else {
                Seq::<char>::empty()
            }
        } else {
            Seq::<char>::empty()
        }
    }

    /// One line of the diagnostic summary for the base-address register
    /// `w` at position `i`; an absent region renders nothing.
    pub open spec fn spec_bar_line(w: u32, i: int) -> Seq<char> {
        match spec_bar(w) {
            PCIBar::Absent => Seq::<char>::empty(),
            PCIBar::Memory((a, _prefetchable)) => "BAR["@ + spec_dec(i) + "]:"@ + spec_hex(
                a as int,
                8,
            ) + "(memory)\n"@,
            PCIBar::Port(p) => "BAR["@ + spec_dec(i) + "]:"@ + spec_hex(p as int, 4)
                + "(port)\n"@,
        }
    }

    /// The summary lines of the base-address registers from position `i`
    /// on.
    pub open spec fn spec_bar_lines(bars: Seq<u32>, i: int) -> Seq<char>
        decreases 6 - i,
    {
        if i < 0 || i >= 6 {
            Seq::<char>::empty()
        } else {
            Self::spec_bar_line(bars[i], i) + Self::spec_bar_lines(bars, i + 1)
        }
    }

    /// The whole diagnostic summary: category and refinement, latency
    /// and interrupt line, then one line per populated base-address
    /// register.
    pub open spec fn spec_summary(&self) -> Seq<char> {
        self.class.spec_name() + self.spec_refinement() + "\n"@ + "latency: "@ + spec_dec(
            self.max_latency as int,
        ) + ", IRQ:"@ + spec_dec(self.interrupt_line as int) + "\n"@ + Self::spec_bar_lines(
            self.base_address_registers@,
            0,
        )
    }

    /// Renders the diagnostic summary of this header.
    pub fn summary(&self) -> (s: String)
        ensures
            s@ == self.spec_summary(),
    {
        let mut s = self.class.name();
        match self.class {
            PCIClass::MassStorage => {
                if self.subclass == 0x01 {
                    s.append(" IDE");
                } else if self.subclass == 0x06 {
                    s.append(" SATA");
                }
            },
            PCIClass::SerialBus => {
                if self.subclass == 0x03 {
                    if self.interface == 0x00 {
                        s.append(" UHCI");
                    } else if self.interface == 0x10 {
                        s.append(" OHCI");
                    } else if self.interface == 0x20 {
                        s.append(" EHCI");
                    } else if self.interface == 0x30 {
                        s.append(" XHCI");
                    }
                }
            },
            _ => {},
        }
        s.append("\n");
        s.append("latency: ");
        let latency = dec_u32(self.max_latency as u32);
        s.append(latency.as_str());
        s.append(", IRQ:");
        let irq = dec_u32(self.interrupt_line as u32);
        s.append(irq.as_str());
        s.append("\n");
        proof {
            assert(s@ =~= self.class.spec_name() + self.spec_refinement() + "\n"@ + "latency: "@
                + spec_dec(self.max_latency as int) + ", IRQ:"@ + spec_dec(
                self.interrupt_line as int,
            ) + "\n"@);
        }
        let ghost head = s@;
        let ghost bars = self.base_address_registers@;
        let mut i: usize = 0;
        while i < 6
            invariant
                0 <= i <= 6,
                bars == self.base_address_registers@,
                s@ + Self::spec_bar_lines(bars, i as int) == head + Self::spec_bar_lines(bars, 0),
            decreases 6 - i,
        {
            let ghost olds = s@;
            let w: u32 = self.base_address_registers[i];
            match PCIBar::from(w) {
                PCIBar::Absent => {
                    proof {
                        assert(s@ =~= olds + Self::spec_bar_line(w, i as int));
                    }
                },
                PCIBar::Memory((a, _prefetchable)) => {
                    s.append("BAR[");
                    let idx = dec_u32(i as u32);
                    s.append(idx.as_str());
                    s.append("]:");
                    let base = hex_u32(a, 8);
                    s.append(base.as_str());
                    s.append("(memory)\n");
                    proof {
                        assert(s@ =~= olds + Self::spec_bar_line(w, i as int));
                    }
                },
                PCIBar::Port(p) => {
                    s.append("BAR[");
                    let idx = dec_u32(i as u32);
                    s.append(idx.as_str());
                    s.append("]:");
                    let base = hex_u32(p as u32, 4);
                    s.append(base.as_str());
                    s.append("(port)\n");
                    proof {
                        assert(s@ =~= olds + Self::spec_bar_line(w, i as int));
                    }
                },
            }
            proof {
                assert(Self::spec_bar_lines(bars, i as int) == Self::spec_bar_line(bars[i as int], i as int)
                    + Self::spec_bar_lines(bars, i as int + 1));
                assert(s@ + Self::spec_bar_lines(bars, i as int + 1) =~= head + Self::spec_bar_lines(
                    bars,
                    0,
                ));
            }
            i = i + 1;
        }
        proof {
            assert(Self::spec_bar_lines(bars, 6) =~= Seq::<char>::empty());
            assert(s@ =~= self.spec_summary());
        }
        s
    }
}

/// What probing one function's configuration space yielded.
#[derive(Debug, Clone, Copy)]
pub enum ProbeOutcome {
    /// The probe at offset 0 returned the absent sentinel; the function
    /// does not exist and enumeration goes on with the next one.
    Absent,
    /// The function is present and its header decoded.
    Present(PCIHeader),
    /// The function is present but its class byte lies outside the known
    /// category table.
    UnknownClass(u8),
}

/// The defined all-ones word a probe of an absent function returns.
pub open spec fn absent_sentinel() -> u32 {
    0xFFFF_FFFFu32
}

/// The address word the protocol writes to the address port to select
/// `(bus, device, func, offset)`: the enable flag in the top bit, then
/// the coordinates, with the low two offset bits masked off.
pub open spec fn spec_config_address(bus: u8, device: u8, func: u8, offset: u8) -> u32 {
    0x8000_0000u32 | ((bus as u32) << 16) | ((device as u32) << 11) | ((func as u32) << 8) | (
    (offset as u32) & 0xFC)
}

/// The root handle of the two-port configuration-space protocol.
pub struct PCI;

/// One bus of the configuration space, addressed by its number.
pub struct PCIBus<'pci> {
    pub pci: &'pci PCI,
    pub num: u8,
}

/// One device of a bus, addressed by its number.
pub struct PCIDevice<'pci> {
    pub bus: &'pci PCIBus<'pci>,
    pub num: u8,
}

/// One function of a device, addressed by its number.
pub struct PCIFunc<'pci> {
    pub device: &'pci PCIDevice<'pci>,
    pub num: u8,
}

impl PCI {
    /// A fresh protocol handle.
    pub fn new() -> (r: Self)
        ensures
            r == PCI,
    {
        PCI
    }

    /// Iterates over all 256 busses.
    pub fn busses(&self) -> (r: PCIIter<'_>)
        ensures
            r.pci == self,
            r.count == 0,
    {
        PCIIter::new(self)
    }

    /// Computes the address word for the given coordinates.
    pub fn config_address(&self, bus: u8, device: u8, func: u8, offset: u8) -> (a: u32)
        ensures
            a == spec_config_address(bus, device, func, offset),
    {
        0x8000_0000 | ((bus as u32) << 16) | ((device as u32) << 11) | ((func as u32) << 8) | (
        (offset as u32) & 0xFC)
    }
}

impl<'pci> PCIBus<'pci> {
    /// Iterates over the 32 devices of this bus.
    pub fn devices(&'pci self) -> (r: PCIBusIter<'pci>)
        ensures
            r.bus == self,
            r.count == 0,
    {
        PCIBusIter::new(self)
    }
}

impl<'pci> PCIDevice<'pci> {
    /// Iterates over the 8 functions of this device.
    pub fn functions(&'pci self) -> (r: PCIDeviceIter<'pci>)
        ensures
            r.device == self,
            r.count == 0,
    {
        PCIDeviceIter::new(self)
    }
}

impl<'pci> PCIFunc<'pci> {
    /// Decodes the probe of this function.  A first word equal to the
    /// absent sentinel marks the function absent; otherwise the sixteen
    /// words decode into a header, unless the class byte is unknown.
    pub fn header(&self, words: &[u32; 16]) -> (r: ProbeOutcome)
        ensures
            match r {
                ProbeOutcome::Absent => words@[0] == absent_sentinel(),
                ProbeOutcome::Present(h) => words@[0] != absent_sentinel() && header_decoded(
                    words@,
                    h,
                ),
                ProbeOutcome::UnknownClass(c) => words@[0] != absent_sentinel() && c == word_byte3(
                    words@[2],
                ) && spec_class_of(c) is None,
            },
    {
        if words[0] == 0xFFFF_FFFF {
            ProbeOutcome::Absent
        } else {
            match PCIHeader::from_words(words) {
                Some(h) => ProbeOutcome::Present(h),
                None => ProbeOutcome::UnknownClass((words[2] / 0x1000000) as u8),
            }
        }
    }
}

/// Iterates over the busses of the configuration space, in order.
pub struct PCIIter<'pci> {
    pub pci: &'pci PCI,
    pub count: u16,
}

impl<'pci> PCIIter<'pci> {
    /// Starts at bus 0.
    pub fn new(pci: &'pci PCI) -> (r: Self)
        ensures
            r.pci == pci,
            r.count == 0,
    {
        PCIIter { pci, count: 0 }
    }

    /// The next bus, or nothing once all 256 are exhausted.
    pub fn next(&mut self) -> (r: Option<PCIBus<'pci>>)
        ensures
            final(self).pci == old(self).pci,
            match r {
                Some(bus) => {
                    &&& old(self).count < 256
                    &&& bus.num == old(self).count as u8
                    &&& bus.pci == old(self).pci
                    &&& final(self).count == old(self).count + 1
                },
                None => {
                    &&& old(self).count >= 256
                    &&& final(self).count == old(self).count
                },
            },
    {
        if self.count < 256 {
            let bus = PCIBus { pci: self.pci, num: self.count as u8 };
            self.count = self.count + 1;
            Some(bus)
        } else {
            None
        }
    }
}

/// Iterates over the devices of one bus, in order.
pub struct PCIBusIter<'pci> {
    pub bus: &'pci PCIBus<'pci>,
    pub count: u8,
}

impl<'pci> PCIBusIter<'pci> {
    /// Starts at device 0.
    pub fn new(bus: &'pci PCIBus<'pci>) -> (r: Self)
        ensures
            r.bus == bus,
            r.count == 0,
    {
        PCIBusIter { bus, count: 0 }
    }

    /// The next device, or nothing once all 32 are exhausted.
    pub fn next(&mut self) -> (r: Option<PCIDevice<'pci>>)
        ensures
            final(self).bus == old(self).bus,
            match r {
                Some(device) => {
                    &&& old(self).count < 32
                    &&& device.num == old(self).count
                    &&& device.bus == old(self).bus
                    &&& final(self).count == old(self).count + 1
                },
                None => {
                    &&& old(self).count >= 32
                    &&& final(self).count == old(self).count
                },
            },
    {
        if self.count < 32 {
            let device = PCIDevice { bus: self.bus, num: self.count };
            self.count = self.count + 1;
            Some(device)
        } else {
            None
        }
    }
}

/// Iterates over the functions of one device, in order.
pub struct PCIDeviceIter<'pci> {
    pub device: &'pci PCIDevice<'pci>,
    pub count: u8,
}

impl<'pci> PCIDeviceIter<'pci> {
    /// Starts at function 0.
    pub fn new(device: &'pci PCIDevice<'pci>) -> (r: Self)
        ensures
            r.device == device,
            r.count == 0,
    {
        PCIDeviceIter { device, count: 0 }
    }

    /// The next function, or nothing once all 8 are exhausted.
    pub fn next(&mut self) -> (r: Option<PCIFunc<'pci>>)
        ensures
            final(self).device == old(self).device,
            match r {
                Some(func) => {
                    &&& old(self).count < 8
                    &&& func.num == old(self).count
                    &&& func.device == old(self).device
                    &&& final(self).count == old(self).count + 1
                },
                None => {
                    &&& old(self).count >= 8
                    &&& final(self).count == old(self).count
                },
            },
    {
        if self.count < 8 {
            let func = PCIFunc { device: self.device, num: self.count };
            self.count = self.count + 1;
            Some(func)
        } else {
            None
        }
    }
}

} // verus!
