//! Hardware-descriptor discovery for a bare-metal kernel.
//!
//! The crate locates and validates the firmware-provided ACPI descriptor
//! tables in a mapped view of low physical memory, classifies the tables a
//! root table points at, caches them in lock-protected slots, and decodes
//! the PCI configuration space (headers, class codes, base-address
//! registers) into semantic values.  All reads of memory and of I/O ports
//! happen outside this crate: every function here works on plain bytes and
//! words handed in by the boot sequence.

pub mod acpi;
pub mod pci;
pub mod render;
pub mod time;
pub mod timer;

use vstd::prelude::*;

verus! {

/// A slice never holds more elements than `usize` can count.
pub broadcast proof fn lemma_slice_len_bound<T>(s: &[T])
    ensures
        #[trigger] s@.len() <= usize::MAX,
{
    assert(vstd::slice::spec_slice_len(s) == s@.len());
}

/// Exit status reported to the emulator's debug-exit device.
#[derive(Debug, Clone, Copy, PartialEq, Eq, Structural)]
pub enum QemuExitCode {
    Success,
    Failed,
}

impl QemuExitCode {
    /// The 32-bit word written to the exit port for this status.
    pub fn code(&self) -> (c: u32)
        ensures
            c == (match *self {
                QemuExitCode::Success => 0x10u32,
                QemuExitCode::Failed => 0x11u32,
            }),
    {
        match *self {
            QemuExitCode::Success => 0x10,
            QemuExitCode::Failed => 0x11,
        }
    }
}

} // verus!
