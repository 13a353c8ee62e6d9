//! Process-wide registry of discovered descriptor tables: one
//! lock-protected optional slot per table kind, written once during
//! discovery and read many times afterwards.
//!
//! Each slot wraps a reader/writer spin lock of the outside `spin` crate.
//! Writing demands exclusive access to the registry, so a populated slot
//! can never change under a shared reader.

use vstd::prelude::*;
use vstd::string::StringExecFns;
use crate::acpi::RSDT;
use crate::acpi::sdt::{FADT, MADT, HPET};
use crate::render::{hex_u32, spec_hex};

verus! {

/// A classified descriptor table together with the physical address it
/// was discovered at.
#[derive(Debug, Clone)]
pub enum SdtTable {
    Rsdt(RSDT),
    Fadt(FADT),
    Madt(MADT),
    Hpet(HPET),
}

/// One optional, independently lockable slot of the registry.
#[verifier::external_body]
pub struct TableSlot {
    lock: spin::RwLock<Option<(u32, SdtTable)>>,
}

/// The table, and the physical address it was found at, that a slot
/// currently holds.
pub uninterp spec fn slot_value(s: TableSlot) -> Option<(u32, SdtTable)>;

impl TableSlot {
    /// An empty slot.
    ///
    /// Relies on `spin::RwLock::new`: the new lock holds exactly the value
    /// it was created with.
    #[verifier::external_body]
    pub fn new() -> (s: TableSlot)
        ensures
            slot_value(s) is None,
    {
        TableSlot { lock: spin::RwLock::new(None) }
    }

    /// The slot's current contents.
    ///
    /// Relies on `spin::RwLock::read`: a shared guard yields the stored
    /// value, and concurrent readers do not block one another.
    #[verifier::external_body]
    pub fn read(&self) -> (r: Option<(u32, SdtTable)>)
        ensures
            r == slot_value(*self),
    {
        self.lock.read().clone()
    }

    /// Stores a classified table and the address it was found at.
    ///
    /// Relies on `spin::RwLock::write`: the exclusive guard replaces the
    /// stored value.
    #[verifier::external_body]
    pub fn write(&mut self, addr: u32, table: SdtTable)
        ensures
            slot_value(*final(self)) == Some((addr, table)),
    {
        *self.lock.write() = Some((addr, table));
    }
}

/// Shared reads of one slot agree: every read yields the slot's one
/// stored value, so two reads between which no exclusive write ran
/// return identical values; before any write, both see the empty state.
pub proof fn lemma_cache_reads_agree(
    s: TableSlot,
    r1: Option<(u32, SdtTable)>,
    r2: Option<(u32, SdtTable)>,
)
    requires
        r1 == slot_value(s),
        r2 == slot_value(s),
    ensures
        r1 == r2,
{
}

/// `v` is empty or holds a root table found at some address.
pub open spec fn is_rsdt_slot(v: Option<(u32, SdtTable)>) -> bool {
    match v {
        None => true,
        Some((_, t)) => t is Rsdt,
    }
}

/// `v` is empty or holds a fixed table found at some address.
pub open spec fn is_fadt_slot(v: Option<(u32, SdtTable)>) -> bool {
    match v {
        None => true,
        Some((_, t)) => t is Fadt,
    }
}

/// `v` is empty or holds a multiple-APIC table found at some address.
pub open spec fn is_madt_slot(v: Option<(u32, SdtTable)>) -> bool {
    match v {
        None => true,
        Some((_, t)) => t is Madt,
    }
}

/// `v` is empty or holds a high-precision-timer table found at some
/// address.
pub open spec fn is_hpet_slot(v: Option<(u32, SdtTable)>) -> bool {
    match v {
        None => true,
        Some((_, t)) => t is Hpet,
    }
}

/// The registry of discovered tables: one slot per known kind.  Absence
/// of a kind is a normal, representable state.
pub struct Acpi {
    pub rsdt: TableSlot,
    pub fadt: TableSlot,
    pub madt: TableSlot,
    pub hpet: TableSlot,
}

impl Acpi {
    /// Each slot holds only a table of its own kind.
    pub open spec fn wf(&self) -> bool {
        &&& is_rsdt_slot(slot_value(self.rsdt))
        &&& is_fadt_slot(slot_value(self.fadt))
        &&& is_madt_slot(slot_value(self.madt))
        &&& is_hpet_slot(slot_value(self.hpet))
    }

    /// A registry with every slot empty.
    pub fn new() -> (a: Acpi)
        ensures
            a.wf(),
            slot_value(a.rsdt) is None,
            slot_value(a.fadt) is None,
            slot_value(a.madt) is None,
            slot_value(a.hpet) is None,
    {
        Acpi {
            rsdt: TableSlot::new(),
            fadt: TableSlot::new(),
            madt: TableSlot::new(),
            hpet: TableSlot::new(),
        }
    }

    /// The cached root table and its address, if one was classified.
    pub fn rsdt_table(&self) -> (r: Option<(u32, RSDT)>)
        requires
            self.wf(),
        ensures
            r == (match slot_value(self.rsdt) {
                Some((a, SdtTable::Rsdt(t))) => Some((a, t)),
                _ => Option::<(u32, RSDT)>::None,
            }),
    {
        match self.rsdt.read() {
            Some((a, SdtTable::Rsdt(t))) => Some((a, t)),
            _ => None,
        }
    }

    /// The cached fixed table and its address, if one was classified.
    pub fn fadt_table(&self) -> (r: Option<(u32, FADT)>)
        requires
            self.wf(),
        ensures
            r == (match slot_value(self.fadt) {
                Some((a, SdtTable::Fadt(t))) => Some((a, t)),
                _ => Option::<(u32, FADT)>::None,
            }),
    {
        match self.fadt.read() {
            Some((a, SdtTable::Fadt(t))) => Some((a, t)),
            _ => None,
        }
    }

    /// The cached multiple-APIC table and its address, if one was
    /// classified.
    pub fn madt_table(&self) -> (r: Option<(u32, MADT)>)
        requires
            self.wf(),
        ensures
            r == (match slot_value(self.madt) {
                Some((a, SdtTable::Madt(t))) => Some((a, t)),
                _ => Option::<(u32, MADT)>::None,
            }),
    {
        match self.madt.read() {
            Some((a, SdtTable::Madt(t))) => Some((a, t)),
            _ => None,
        }
    }

    /// The cached high-precision-timer table and its address, if one was
    /// classified.
    pub fn hpet_table(&self) -> (r: Option<(u32, HPET)>)
        requires
            self.wf(),
        ensures
            r == (match slot_value(self.hpet) {
                Some((a, SdtTable::Hpet(t))) => Some((a, t)),
                _ => Option::<(u32, HPET)>::None,
            }),
    {
        match self.hpet.read() {
            Some((a, SdtTable::Hpet(t))) => Some((a, t)),
            _ => None,
        }
    }

    /// One line of the registry report: the slot's label and the hex
    /// address of its table, or nothing for an empty slot.
    pub open spec fn spec_slot_line(label: Seq<char>, v: Option<(u32, SdtTable)>) -> Seq<char> {
        match v {
            None => Seq::<char>::empty(),
            Some((a, _)) => label + ": 0x"@ + spec_hex(a as int, 8) + "\n"@,
        }
    }

    /// The registry report: a heading, then one line per populated slot
    /// with the table's physical address.
    pub open spec fn spec_report(&self) -> Seq<char> {
        "ACPI table:\n"@ + Self::spec_slot_line("rsdt"@, slot_value(self.rsdt))
            + Self::spec_slot_line("fadt"@, slot_value(self.fadt)) + Self::spec_slot_line(
            "madt"@,
            slot_value(self.madt),
        ) + Self::spec_slot_line("hpet"@, slot_value(self.hpet))
    }

    /// Renders the registry report.
    #[verifier::rlimit(60)]
    pub fn report(&self) -> (s: String)
        ensures
            s@ == self.spec_report(),
    {
        let mut s = "ACPI table:\n".to_owned();
        if let Some((a, _)) = self.rsdt.read() {
            s.append("rsdt");
            s.append(": 0x");
            let addr = hex_u32(a, 8);
            s.append(addr.as_str());
            s.append("\n");
        }
        proof {
            assert(s@ =~= "ACPI table:\n"@ + Self::spec_slot_line("rsdt"@, slot_value(self.rsdt)));
        }
        if let Some((a, _)) = self.fadt.read() {
            s.append("fadt");
            s.append(": 0x");
            let addr = hex_u32(a, 8);
            s.append(addr.as_str());
            s.append("\n");
        }
        proof {
            assert(s@ =~= "ACPI table:\n"@ + Self::spec_slot_line("rsdt"@, slot_value(self.rsdt))
                + Self::spec_slot_line("fadt"@, slot_value(self.fadt)));
        }
        if let Some((a, _)) = self.madt.read() {
            s.append("madt");
            s.append(": 0x");
            let addr = hex_u32(a, 8);
            s.append(addr.as_str());
            s.append("\n");
        }
        proof {
            assert(s@ =~= "ACPI table:\n"@ + Self::spec_slot_line("rsdt"@, slot_value(self.rsdt))
                + Self::spec_slot_line("fadt"@, slot_value(self.fadt)) + Self::spec_slot_line(
                "madt"@,
                slot_value(self.madt),
            ));
        }
        if let Some((a, _)) = self.hpet.read() {
            s.append("hpet");
            s.append(": 0x");
            let addr = hex_u32(a, 8);
            s.append(addr.as_str());
            s.append("\n");
        }
        proof {
            assert(s@ =~= self.spec_report());
        }
        s
    }
}

} // verus!
