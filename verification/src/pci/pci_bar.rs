//! Decoded form of one base-address-register word of a PCI function's
//! configuration space.

use vstd::prelude::*;

verus! {

/// A base-address region: absent, memory-mapped (base address and
/// prefetchable flag), or port-mapped (16-bit port base).
#[derive(Debug, Clone, Copy, PartialEq, Eq)]
pub enum PCIBar {
    Absent,
    Memory((u32, bool)),
    Port(u16),
}

/// How a raw base-address-register word decodes: a word whose top thirty
/// bits are all zero marks an absent region; otherwise the low bit
/// selects the space.  A memory base keeps the word's top 28 bits, with
/// bit 3 as the prefetchable flag; a port base keeps bits 2 to 15.
pub open spec fn spec_bar(w: u32) -> PCIBar {
    if w & 0xFFFF_FFFC == 0 {
        PCIBar::Absent
    } else if w & 1 == 0 {
        PCIBar::Memory(((w & 0xFFFF_FFF0), (w & 8) == 8))
    } else {
        PCIBar::Port((w & 0xFFFC) as u16)
    }
}

impl From<u32> for PCIBar {
    /// Decodes a raw base-address-register word.
    fn from(base_address_register: u32) -> (r: Self) {
        proof {
            assert((base_address_register & 0xFFFC) < 0x10000u32) by (bit_vector);
        }
        if base_address_register & 0xFFFF_FFFC == 0 {
            PCIBar::Absent
        } else if base_address_register & 1 == 0 {
            let prefetchable = base_address_register & 0b1000 == 0b1000;
            PCIBar::Memory((base_address_register & 0xFFFF_FFF0, prefetchable))
        } else {
            PCIBar::Port((base_address_register & 0xFFFC) as u16)
        }
    }
}

impl vstd::std_specs::convert::FromSpecImpl<u32> for PCIBar {
    open spec fn obeys_from_spec() -> bool {
        true
    }

    open spec fn from_spec(w: u32) -> Self {
        spec_bar(w)
    }
}

} // verus!
