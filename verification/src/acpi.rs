//! ACPI descriptor discovery: locating the root pointer record in a mapped
//! view of low physical memory, validating checksums, walking the root
//! table's pointer array and classifying the tables it points at.

pub mod cache;
pub mod sdt;

use vstd::prelude::*;
use vstd::arithmetic::div_mod::lemma_add_mod_noop;
use crate::acpi::cache::{Acpi, SdtTable, slot_value};
use crate::acpi::sdt::{
    FADT,
    MADT,
    HPET,
    fadt_parsed,
    madt_parsed,
    hpet_parsed,
    parse_fadt,
    parse_madt,
    parse_hpet,
};

verus! {

broadcast use crate::lemma_slice_len_bound;

/// The 16-bit little-endian value held at byte offset `i`.
pub open spec fn le_u16(s: Seq<u8>, i: int) -> u16
    recommends
        0 <= i,
        i + 2 <= s.len(),
{
    (s[i] + s[i + 1] * 0x100) as u16
}

/// The 32-bit little-endian value held at byte offset `i`.
pub open spec fn le_u32(s: Seq<u8>, i: int) -> u32
    recommends
        0 <= i,
        i + 4 <= s.len(),
{
    (s[i] + s[i + 1] * 0x100 + s[i + 2] * 0x10000 + s[i + 3] * 0x1000000) as u32
}

/// The 64-bit little-endian value held at byte offset `i`.
pub open spec fn le_u64(s: Seq<u8>, i: int) -> u64
    recommends
        0 <= i,
        i + 8 <= s.len(),
{
    (s[i] + s[i + 1] * 0x100 + s[i + 2] * 0x10000 + s[i + 3] * 0x1000000 + s[i + 4] * 0x100000000
        + s[i + 5] * 0x10000000000 + s[i + 6] * 0x1000000000000 + s[i + 7]
        * 0x100000000000000) as u64
}

/// Reads the 16-bit little-endian value at byte offset `off`.
pub fn read_le_u16(mem: &[u8], off: usize) -> (r: u16)
    requires
        off + 2 <= mem@.len(),
    ensures
        r == le_u16(mem@, off as int),
{
    mem[off] as u16 + mem[off + 1] as u16 * 0x100
}

/// Reads the 32-bit little-endian value at byte offset `off`.
pub fn read_le_u32(mem: &[u8], off: usize) -> (r: u32)
    requires
        off + 4 <= mem@.len(),
    ensures
        r == le_u32(mem@, off as int),
{
    mem[off] as u32 + mem[off + 1] as u32 * 0x100 + mem[off + 2] as u32 * 0x10000 + mem[off
        + 3] as u32 * 0x1000000
}

/// Reads the 64-bit little-endian value at byte offset `off`.
pub fn read_le_u64(mem: &[u8], off: usize) -> (r: u64)
    requires
        off + 8 <= mem@.len(),
    ensures
        r == le_u64(mem@, off as int),
{
    mem[off] as u64 + mem[off + 1] as u64 * 0x100 + mem[off + 2] as u64 * 0x10000 + mem[off
        + 3] as u64 * 0x1000000 + mem[off + 4] as u64 * 0x100000000 + mem[off + 5] as u64
        * 0x10000000000 + mem[off + 6] as u64 * 0x1000000000000 + mem[off + 7] as u64
        * 0x100000000000000
}

/// Common prologue of every System Description Table: 36 packed bytes.
#[derive(Debug, Clone, Copy)]
pub struct ACPISDTHeader {
    pub signature: [u8; 4],
    /// Length in bytes of the whole table, header included.
    pub length: u32,
    pub revision: u8,
    pub checksum: u8,
    pub oem_id: [u8; 6],
    pub oem_table_id: [u8; 8],
    pub oem_revision: u32,
    pub creator_id: u32,
    pub creator_revision: u32,
}

/// `h` holds exactly the 36 packed bytes at `off`.
pub open spec fn header_parsed(mem: Seq<u8>, off: int, h: ACPISDTHeader) -> bool {
    &&& h.signature@ == mem.subrange(off, off + 4)
    &&& h.length == le_u32(mem, off + 4)
    &&& h.revision == mem[off + 8]
    &&& h.checksum == mem[off + 9]
    &&& h.oem_id@ == mem.subrange(off + 10, off + 16)
    &&& h.oem_table_id@ == mem.subrange(off + 16, off + 24)
    &&& h.oem_revision == le_u32(mem, off + 24)
    &&& h.creator_id == le_u32(mem, off + 28)
    &&& h.creator_revision == le_u32(mem, off + 32)
}

/// Decodes a table header from its 36 packed bytes.
pub fn parse_sdt_header(mem: &[u8], off: usize) -> (h: ACPISDTHeader)
    requires
        off + 36 <= mem@.len(),
    ensures
        header_parsed(mem@, off as int, h),
{
    let signature: [u8; 4] = [mem[off], mem[off + 1], mem[off + 2], mem[off + 3]];
    let oem_id: [u8; 6] = [
        mem[off + 10],
        mem[off + 11],
        mem[off + 12],
        mem[off + 13],
        mem[off + 14],
        mem[off + 15],
    ];
    let oem_table_id: [u8; 8] = [
        mem[off + 16],
        mem[off + 17],
        mem[off + 18],
        mem[off + 19],
        mem[off + 20],
        mem[off + 21],
        mem[off + 22],
        mem[off + 23],
    ];
    proof {
        assert(signature@ =~= mem@.subrange(off as int, off + 4));
        assert(oem_id@ =~= mem@.subrange(off + 10, off + 16));
        assert(oem_table_id@ =~= mem@.subrange(off + 16, off + 24));
    }
    ACPISDTHeader {
        signature,
        length: read_le_u32(mem, off + 4),
        revision: mem[off + 8],
        checksum: mem[off + 9],
        oem_id,
        oem_table_id,
        oem_revision: read_le_u32(mem, off + 24),
        creator_id: read_le_u32(mem, off + 28),
        creator_revision: read_le_u32(mem, off + 32),
    }
}

/// Decodes ASCII bytes into the equal string of characters.
///
/// Relies on `String::from_utf8`: ASCII bytes are valid UTF-8 and decode to
/// one identical character each.
#[verifier::external_body]
fn ascii_string(bytes: &[u8]) -> (s: String)
    requires
        forall|i: int| 0 <= i < bytes@.len() ==> bytes@[i] < 0x80,
    ensures
        s@.len() == bytes@.len(),
        forall|i: int| 0 <= i < bytes@.len() ==> s@[i] == bytes@[i] as char,
{
    String::from_utf8(bytes.to_vec()).unwrap()
}

impl ACPISDTHeader {
    /// The four signature bytes as text.
    pub fn as_string(&self) -> (s: String)
        requires
            forall|i: int| 0 <= i < 4 ==> self.signature@[i] < 0x80,
        ensures
            s@.len() == 4,
            forall|i: int| 0 <= i < 4 ==> s@[i] == self.signature@[i] as char,
    {
        ascii_string(self.signature.as_slice())
    }
}

/// Legacy ACPI root pointer record: 20 packed bytes locating the root
/// table.
#[derive(Debug, Clone, Copy)]
pub struct RSDPDescriptor {
    /// Must equal the bytes of `"RSD PTR "`, trailing space included.
    pub signature: [u8; 8],
    /// Makes the sum of all twenty record bytes divisible by 256.
    pub checksum: u8,
    pub oem_id: [u8; 6],
    /// 0 for ACPI 1.0; 2 for ACPI 2.0 to 6.1.
    pub revision: u8,
    /// Physical address of the root table.
    pub rsdt_address: u32,
}

/// `d` holds exactly the twenty packed bytes at `off`.
pub open spec fn rsdp_parsed(mem: Seq<u8>, off: int, d: RSDPDescriptor) -> bool {
    &&& d.signature@ == mem.subrange(off, off + 8)
    &&& d.checksum == mem[off + 8]
    &&& d.oem_id@ == mem.subrange(off + 9, off + 15)
    &&& d.revision == mem[off + 15]
    &&& d.rsdt_address == le_u32(mem, off + 16)
}

/// Decodes a root pointer record from its twenty packed bytes.
pub fn parse_rsdp(mem: &[u8], off: usize) -> (d: RSDPDescriptor)
    requires
        off + 20 <= mem@.len(),
    ensures
        rsdp_parsed(mem@, off as int, d),
{
    let signature: [u8; 8] = [
        mem[off],
        mem[off + 1],
        mem[off + 2],
        mem[off + 3],
        mem[off + 4],
        mem[off + 5],
        mem[off + 6],
        mem[off + 7],
    ];
    let oem_id: [u8; 6] = [
        mem[off + 9],
        mem[off + 10],
        mem[off + 11],
        mem[off + 12],
        mem[off + 13],
        mem[off + 14],
    ];
    proof {
        assert(signature@ =~= mem@.subrange(off as int, off + 8));
        assert(oem_id@ =~= mem@.subrange(off + 9, off + 15));
    }
    RSDPDescriptor {
        signature,
        checksum: mem[off + 8],
        oem_id,
        revision: mem[off + 15],
        rsdt_address: read_le_u32(mem, off + 16),
    }
}

/// Array of physical pointers to the other System Description Tables,
/// prefixed by the common header.  The header's declared length fixes the
/// pointer count.
#[derive(Debug, Clone)]
pub struct RSDT {
    pub header: ACPISDTHeader,
    /// The 32-bit physical table addresses, in table order.
    pub pointers: Vec<u32>,
}

impl RSDT {
    /// A root table is well formed when its declared length covers the
    /// header and its pointer list has exactly the declared count.
    pub open spec fn wf(&self) -> bool {
        &&& self.header.length >= 36
        &&& self.pointers@.len() == (self.header.length - 36) / 4
    }

    /// The number of sub-table pointers the header's length declares.
    pub fn get_num_sdt(&self) -> (n: usize)
        requires
            self.wf(),
        ensures
            n == (self.header.length - 36) / 4,
            n == self.pointers@.len(),
    {
        (self.header.length as usize - 36) / 4
    }

    /// The sub-table physical addresses, in table order.
    pub fn get_sdt_addresses(&self) -> (r: &Vec<u32>)
        ensures
            r@ == self.pointers@,
    {
        &self.pointers
    }
}

/// The number of sub-table pointers declared at `off`: the declared table
/// length minus the 36 header bytes, in 4-byte units.
pub open spec fn rsdt_num_sdt(mem: Seq<u8>, off: int) -> int {
    (le_u32(mem, off + 4) - 36) / 4
}

/// The sub-table pointer array declared at `off`, in table order.
pub open spec fn rsdt_ptrs(mem: Seq<u8>, off: int) -> Seq<u32> {
    Seq::new(rsdt_num_sdt(mem, off) as nat, |i: int| le_u32(mem, off + 36 + 4 * i))
}

/// The root table at `off` lies inside the mapped region: its header is
/// readable and its declared length covers the header and stays in bounds.
pub open spec fn rsdt_in_bounds(mem: Seq<u8>, off: int) -> bool {
    &&& 0 <= off
    &&& off + 36 <= mem.len()
    &&& le_u32(mem, off + 4) >= 36
    &&& off + le_u32(mem, off + 4) <= mem.len()
}

/// `t` holds the header at `off` and exactly the pointer array the header
/// declares.
pub open spec fn rsdt_parsed(mem: Seq<u8>, off: int, t: RSDT) -> bool {
    &&& header_parsed(mem, off, t.header)
    &&& t.pointers@ == rsdt_ptrs(mem, off)
}

/// Decodes a root table: its header, then the declared number of 32-bit
/// little-endian sub-table pointers.
pub fn parse_rsdt(mem: &[u8], off: usize) -> (t: RSDT)
    requires
        rsdt_in_bounds(mem@, off as int),
    ensures
        rsdt_parsed(mem@, off as int, t),
        t.wf(),
{
    let header = parse_sdt_header(mem, off);
    let n: usize = (header.length as usize - 36) / 4;
    proof {
        vstd::arithmetic::div_mod::lemma_fundamental_div_mod(header.length - 36, 4);
    }
    let mut pointers: Vec<u32> = Vec::new();
    let mut i: usize = 0;
    while i < n
        invariant
            0 <= i <= n,
            n == rsdt_num_sdt(mem@, off as int),
            4 * n <= header.length - 36,
            header.length == le_u32(mem@, off as int + 4),
            off + header.length <= mem@.len(),
            pointers@.len() == i,
            forall|j: int| 0 <= j < i ==> pointers@[j] == le_u32(mem@, off + 36 + 4 * j),
        decreases n - i,
    {
        let p: u32 = read_le_u32(mem, off + 36 + 4 * i);
        pointers.push(p);
        i = i + 1;
    }
    proof {
        assert(pointers@ =~= rsdt_ptrs(mem@, off as int));
    }
    RSDT { header, pointers }
}

/// The table kinds this crate recognises by signature.
#[derive(Debug, Clone, Copy, PartialEq, Eq, Structural)]
pub enum TableKind {
    Fadt,
    Madt,
    Hpet,
    Unknown,
}

/// The signature bytes of the fixed table: `"FACP"`.
pub open spec fn fadt_signature() -> Seq<u8> {
    seq![0x46u8, 0x41u8, 0x43u8, 0x50u8]
}

/// The signature bytes of the multiple-APIC table: `"APIC"`.
pub open spec fn madt_signature() -> Seq<u8> {
    seq![0x41u8, 0x50u8, 0x49u8, 0x43u8]
}

/// The signature bytes of the high-precision-timer table: `"HPET"`.
pub open spec fn hpet_signature() -> Seq<u8> {
    seq![0x48u8, 0x50u8, 0x45u8, 0x54u8]
}

/// The kind a four-byte signature denotes.  Matching is byte-exact; any
/// other signature is unknown to this crate.
pub open spec fn classify_sig(sig: Seq<u8>) -> TableKind {
    if sig == fadt_signature() {
        TableKind::Fadt
    } else if sig == madt_signature() {
        TableKind::Madt
    } else if sig == hpet_signature() {
        TableKind::Hpet
    } else {
        TableKind::Unknown
    }
}

fn sig_matches(sig: &[u8; 4], b0: u8, b1: u8, b2: u8, b3: u8) -> (r: bool)
    ensures
        r == (sig@ == seq![b0, b1, b2, b3]),
{
    let r = sig[0] == b0 && sig[1] == b1 && sig[2] == b2 && sig[3] == b3;
    proof {
        if r {
            assert(sig@ =~= seq![b0, b1, b2, b3]);
        }
    }
    r
}

/// Classifies a four-byte table signature, byte-exactly.
pub fn classify_signature(sig: &[u8; 4]) -> (k: TableKind)
    ensures
        k == classify_sig(sig@),
{
    if sig_matches(sig, 0x46, 0x41, 0x43, 0x50) {
        TableKind::Fadt
    } else if sig_matches(sig, 0x41, 0x50, 0x49, 0x43) {
        TableKind::Madt
    } else if sig_matches(sig, 0x48, 0x50, 0x45, 0x54) {
        TableKind::Hpet
    } else {
        TableKind::Unknown
    }
}

/// The signature bytes of the root pointer record: `"RSD PTR "`, trailing
/// space included.
pub open spec fn rsdp_signature() -> Seq<u8> {
    seq![0x52u8, 0x53u8, 0x44u8, 0x20u8, 0x50u8, 0x54u8, 0x52u8, 0x20u8]
}

/// A valid root pointer record starts at `off`: the region covers twenty
/// bytes, the signature matches byte-exactly and the checksum is valid.
pub open spec fn rsdp_match_at(mem: Seq<u8>, off: int) -> bool {
    &&& off + 20 <= mem.len()
    &&& mem.subrange(off, off + 8) == rsdp_signature()
    &&& checksum_ok(mem.subrange(off, off + 20))
}

/// The first valid root pointer record at candidate index `k` or beyond;
/// candidate `k` sits at byte offset `16 * k`, and the scan covers the
/// first megabyte (65536 candidates).
pub open spec fn first_rsdp_index(mem: Seq<u8>, k: int) -> Option<int>
    decreases 0x10000 - k,
{
    if k < 0 || k >= 0x10000 {
        None
    } else if rsdp_match_at(mem, 16 * k) {
        Some(16 * k)
    } else {
        first_rsdp_index(mem, k + 1)
    }
}

/// The byte offset of the first valid root pointer record in the scan
/// region, if any.
pub open spec fn first_rsdp(mem: Seq<u8>) -> Option<int> {
    first_rsdp_index(mem, 0)
}

proof fn lemma_no_rsdp_beyond(mem: Seq<u8>, k: int)
    requires
        16 * k + 20 > mem.len(),
    ensures
        first_rsdp_index(mem, k) is None,
    decreases 0x10000 - k,
{
    if 0 <= k < 0x10000 {
        lemma_no_rsdp_beyond(mem, k + 1);
    }
}

/// Scans the first megabyte of the mapped region in 16-byte steps for a
/// root pointer record whose signature matches byte-exactly and whose
/// twenty-byte checksum is valid, and returns the offset of the first one.
/// A record whose signature matches but whose checksum fails is skipped,
/// not terminal.
pub fn find_rsdp(mem: &[u8]) -> (r: Option<usize>)
    ensures
        match r {
            Some(off) => first_rsdp(mem@) == Some(off as int),
            None => first_rsdp(mem@) is None,
        },
{
    let len: usize = mem.len();
    let mut k: usize = 0;
    while k < 0x10000
        invariant
            0 <= k <= 0x10000,
            len == mem@.len(),
            first_rsdp(mem@) == first_rsdp_index(mem@, k as int),
        decreases 0x10000 - k,
    {
        let off: usize = 16 * k;
        if off + 20 > len {
            proof {
                lemma_no_rsdp_beyond(mem@, k as int);
            }
            return None;
        }
        let sig_ok = mem[off] == 0x52 && mem[off + 1] == 0x53 && mem[off + 2] == 0x44 && mem[off
            + 3] == 0x20 && mem[off + 4] == 0x50 && mem[off + 5] == 0x54 && mem[off + 6] == 0x52
            && mem[off + 7] == 0x20;
        proof {
            if sig_ok {
                assert(mem@.subrange(off as int, off + 8) =~= rsdp_signature());
            } else {
                assert(mem@.subrange(off as int, off + 8) != rsdp_signature()) by {
                    if mem@.subrange(off as int, off + 8) == rsdp_signature() {
                        assert(mem@[off as int] == mem@.subrange(off as int, off + 8)[0]);
                        assert(mem@[off + 1] == mem@.subrange(off as int, off + 8)[1]);
                        assert(mem@[off + 2] == mem@.subrange(off as int, off + 8)[2]);
                        assert(mem@[off + 3] == mem@.subrange(off as int, off + 8)[3]);
                        assert(mem@[off + 4] == mem@.subrange(off as int, off + 8)[4]);
                        assert(mem@[off + 5] == mem@.subrange(off as int, off + 8)[5]);
                        assert(mem@[off + 6] == mem@.subrange(off as int, off + 8)[6]);
                        assert(mem@[off + 7] == mem@.subrange(off as int, off + 8)[7]);
                    }
                }
            }
        }
        if sig_ok {
            let record = vstd::slice::slice_subrange(mem, off, off + 20);
            if sdt_checksum(record) {
                proof {
                    assert(rsdp_match_at(mem@, off as int));
                }
                return Some(off);
            }
        }
        k = k + 1;
    }
    None
}

/// Sum of all bytes of a sequence, as an unbounded integer.
pub open spec fn sum_bytes(s: Seq<u8>) -> int
    decreases s.len(),
{
    if s.len() == 0 {
        0
    } else {
        sum_bytes(s.drop_last()) + s.last()
    }
}

/// An ACPI checksum is valid when the byte sum of the covered region is
/// divisible by 256.
pub open spec fn checksum_ok(s: Seq<u8>) -> bool {
    sum_bytes(s) % 256 == 0
}

proof fn lemma_sum_bytes_take_step(s: Seq<u8>, i: int)
    requires
        0 <= i < s.len(),
    ensures
        sum_bytes(s.take(i + 1)) == sum_bytes(s.take(i)) + s[i],
{
    assert(s.take(i + 1).drop_last() =~= s.take(i));
    assert(s.take(i + 1).last() == s[i]);
}

/// Validates the checksum of a System Description Table, given the table's
/// bytes: the unsigned sum of all bytes must have its low eight bits zero.
pub fn sdt_checksum(table_bytes: &[u8]) -> (r: bool)
    ensures
        r == checksum_ok(table_bytes@),
{
    let len: usize = table_bytes.len();
    let mut sum: u32 = 0;
    let mut i: usize = 0;
    while i < len
        invariant
            0 <= i <= len,
            len == table_bytes@.len(),
            sum < 256,
            sum == sum_bytes(table_bytes@.take(i as int)) % 256,
        decreases len - i,
    {
        let b: u8 = table_bytes[i];
        proof {
            lemma_sum_bytes_take_step(table_bytes@, i as int);
            lemma_add_mod_noop(sum_bytes(table_bytes@.take(i as int)), b as int, 256);
        }
        sum = (sum + b as u32) % 256;
        i = i + 1;
    }
    proof {
        assert(table_bytes@.take(len as int) =~= table_bytes@);
    }
    sum == 0
}

/// Validates the 20-byte checksum of a root pointer record: the sum of all
/// twenty bytes, including the checksum byte itself, must be divisible by
/// 256.
pub fn rsdp_descriptor_checksum(table_bytes: [u8; 20]) -> (r: bool)
    ensures
        r == checksum_ok(table_bytes@),
{
    sdt_checksum(table_bytes.as_slice())
}

proof fn lemma_sum_bytes_update(s: Seq<u8>, i: int, b: u8)
    requires
        0 <= i < s.len(),
    ensures
        sum_bytes(s.update(i, b)) == sum_bytes(s) - s[i] + b,
    decreases s.len(),
{
    if i == s.len() - 1 {
        assert(s.update(i, b).drop_last() =~= s.drop_last());
    } else {
        assert(s.update(i, b).drop_last() =~= s.drop_last().update(i, b));
        lemma_sum_bytes_update(s.drop_last(), i, b);
    }
}

/// Flipping any single byte of a record whose checksum is valid makes
/// the checksum invalid: the byte sum moves by less than 256 and so
/// leaves the multiples of 256.
pub proof fn lemma_checksum_byte_flip(record: Seq<u8>, i: int, b: u8)
    requires
        0 <= i < record.len(),
        b != record[i],
        checksum_ok(record),
    ensures
        !checksum_ok(record.update(i, b)),
{
    lemma_sum_bytes_update(record, i, b);
    let s = sum_bytes(record);
    let d = b - record[i];
    assert(s % 256 == 0);
    vstd::arithmetic::div_mod::lemma_fundamental_div_mod(s, 256);
    let k = s / 256;
    assert(sum_bytes(record.update(i, b)) == 256 * k + d);
    vstd::arithmetic::div_mod::lemma_mod_multiples_vanish(k, d, 256);
    assert((256 * k + d) % 256 == d % 256);
    if d > 0 {
        vstd::arithmetic::div_mod::lemma_small_mod(d as nat, 256);
    } else {
        vstd::arithmetic::div_mod::lemma_mod_add_multiples_vanish(d, 256);
        vstd::arithmetic::div_mod::lemma_small_mod((d + 256) as nat, 256);
    }
}

/// The four little-endian bytes of a 32-bit value.
pub open spec fn le32_bytes(v: u32) -> Seq<u8> {
    seq![
        (v % 0x100) as u8,
        (v / 0x100 % 0x100) as u8,
        (v / 0x10000 % 0x100) as u8,
        (v / 0x1000000) as u8,
    ]
}

proof fn lemma_le_u32_of_bytes(s: Seq<u8>, i: int, v: u32)
    requires
        0 <= i,
        i + 4 <= s.len(),
        s[i] == (v % 0x100) as u8,
        s[i + 1] == (v / 0x100 % 0x100) as u8,
        s[i + 2] == (v / 0x10000 % 0x100) as u8,
        s[i + 3] == (v / 0x1000000) as u8,
    ensures
        le_u32(s, i) == v,
{
    let c0 = s[i] as u32;
    let c1 = s[i + 1] as u32;
    let c2 = s[i + 2] as u32;
    let c3 = s[i + 3] as u32;
    assert(c0 == v % 0x100);
    assert(c1 == v / 0x100 % 0x100);
    assert(c2 == v / 0x10000 % 0x100);
    assert(c3 == v / 0x1000000);
    assert(c0 + c1 * 0x100 + c2 * 0x10000 + c3 * 0x1000000 == v) by (bit_vector)
        requires
            c0 == v % 0x100,
            c1 == v / 0x100 % 0x100,
            c2 == v / 0x10000 % 0x100,
            c3 == v / 0x1000000,
    ;
}

/// A synthetic root table over the given pointer array: 36 header bytes
/// that declare the matching length, then the pointers in little-endian
/// byte order.  All header bytes but the length are zero.
pub open spec fn spec_encode_rsdt(ptrs: Seq<u32>) -> Seq<u8> {
    let length = (36 + 4 * ptrs.len()) as u32;
    Seq::new(
        36,
        |i: int|
            if 4 <= i < 8 {
                le32_bytes(length)[i - 4]
            } else {
                0u8
            },
    ) + Seq::new(4 * ptrs.len(), |i: int| le32_bytes(ptrs[i / 4])[i % 4])
}

/// Round trip of the root table's pointer array: a table constructed
/// over any pointer array declares exactly that many pointers, lies in
/// bounds at offset zero, and yields the same addresses in the same
/// order when the pointers are extracted again.
pub proof fn lemma_rsdt_round_trip(ptrs: Seq<u32>)
    requires
        36 + 4 * ptrs.len() <= u32::MAX,
    ensures
        rsdt_in_bounds(spec_encode_rsdt(ptrs), 0),
        rsdt_num_sdt(spec_encode_rsdt(ptrs), 0) == ptrs.len(),
        rsdt_ptrs(spec_encode_rsdt(ptrs), 0) == ptrs,
{
    let enc = spec_encode_rsdt(ptrs);
    let n = ptrs.len() as int;
    let length = (36 + 4 * ptrs.len()) as u32;
    assert(enc.len() == 36 + 4 * n);
    assert(enc[4] == (length % 0x100) as u8);
    assert(enc[5] == (length / 0x100 % 0x100) as u8);
    assert(enc[6] == (length / 0x10000 % 0x100) as u8);
    assert(enc[7] == (length / 0x1000000) as u8);
    lemma_le_u32_of_bytes(enc, 4, length);
    assert(le_u32(enc, 4) == length);
    vstd::arithmetic::div_mod::lemma_div_by_multiple(n, 4);
    assert(rsdt_num_sdt(enc, 0) == n);
    assert forall|j: int| 0 <= j < n implies le_u32(enc, 36 + 4 * j) == ptrs[j] by {
        assert forall|k: int| 0 <= k < 4 implies enc[36 + 4 * j + k] == le32_bytes(ptrs[j])[k] by {
            assert((4 * j + k) / 4 == j && (4 * j + k) % 4 == k) by (nonlinear_arith)
                requires
                    0 <= j,
                    0 <= k < 4,
            ;
            assert(enc[36 + 4 * j + k] == le32_bytes(ptrs[(4 * j + k) / 4])[(4 * j + k) % 4]);
        }
        assert(enc[36 + 4 * j + 0] == le32_bytes(ptrs[j])[0]);
        assert(enc[36 + 4 * j + 1] == le32_bytes(ptrs[j])[1]);
        assert(enc[36 + 4 * j + 2] == le32_bytes(ptrs[j])[2]);
        assert(enc[36 + 4 * j + 3] == le32_bytes(ptrs[j])[3]);
        lemma_le_u32_of_bytes(enc, 36 + 4 * j, ptrs[j]);
    }
    assert(rsdt_ptrs(enc, 0) =~= ptrs);
}

/// Signature matching is byte-exact: a four-byte signature that differs
/// from a known signature in exactly one byte is classified as no known
/// table kind at all.
pub proof fn lemma_near_miss_signature(sig: Seq<u8>, known: Seq<u8>, i: int)
    requires
        sig.len() == 4,
        known == fadt_signature() || known == madt_signature() || known == hpet_signature(),
        0 <= i < 4,
        forall|j: int| 0 <= j < 4 && j != i ==> sig[j] == known[j],
        sig[i] != known[i],
    ensures
        classify_sig(sig) == TableKind::Unknown,
{
    assert(sig[0] == known[0] || i == 0);
    assert(sig[1] == known[1] || i == 1);
    assert(sig[2] == known[2] || i == 2);
    assert(sig[3] == known[3] || i == 3);
    assert(sig != fadt_signature());
    assert(sig != madt_signature());
    assert(sig != hpet_signature());
}

/// A table header (36 bytes) is readable at `p` inside the mapped region.
pub open spec fn header_readable(mem: Seq<u8>, p: int) -> bool {
    0 <= p && p + 36 <= mem.len()
}

/// The number of packed bytes a table of the given kind occupies.
pub open spec fn table_size(k: TableKind) -> int {
    match k {
        TableKind::Fadt => sdt::fadt_size(),
        TableKind::Madt => sdt::madt_size(),
        TableKind::Hpet => sdt::hpet_size(),
        TableKind::Unknown => 36,
    }
}

/// The kind of the table whose header starts at `p`.
pub open spec fn kind_at(mem: Seq<u8>, p: int) -> TableKind
    recommends
        header_readable(mem, p),
{
    classify_sig(mem.subrange(p, p + 4))
}

/// A table of kind `k` can be classified and stored from address `p`: its
/// header is readable, its signature denotes `k`, and its full packed
/// layout lies inside the mapped region.
pub open spec fn stores_kind(mem: Seq<u8>, p: u32, k: TableKind) -> bool {
    &&& header_readable(mem, p as int)
    &&& kind_at(mem, p as int) == k
    &&& p + table_size(k) <= mem.len()
}

/// The address whose table the walk leaves in the slot of kind `k`: the
/// last pointer of `ptrs` that stores kind `k`, if any.  A later match
/// overwrites an earlier one.
pub open spec fn last_match(mem: Seq<u8>, ptrs: Seq<u32>, k: TableKind) -> Option<u32>
    decreases ptrs.len(),
{
    if ptrs.len() == 0 {
        None
    } else if stores_kind(mem, ptrs.last(), k) {
        Some(ptrs.last())
    } else {
        last_match(mem, ptrs.drop_last(), k)
    }
}

/// The pointers of `ptrs`, in order, whose header is readable but whose
/// signature no known kind matches.
pub open spec fn unknown_list(mem: Seq<u8>, ptrs: Seq<u32>) -> Seq<u32>
    decreases ptrs.len(),
{
    if ptrs.len() == 0 {
        Seq::<u32>::empty()
    } else {
        unknown_list(mem, ptrs.drop_last()) + (if header_readable(mem, ptrs.last() as int)
            && kind_at(mem, ptrs.last() as int) is Unknown {
            seq![ptrs.last()]
        } else {
            Seq::<u32>::empty()
        })
    }
}

/// How many pointers of `ptrs` the walk skips because their header, or
/// the full layout of their recognised kind, lies outside the mapped
/// region.
pub open spec fn skipped_count(mem: Seq<u8>, ptrs: Seq<u32>) -> int
    decreases ptrs.len(),
{
    if ptrs.len() == 0 {
        0int
    } else {
        skipped_count(mem, ptrs.drop_last()) + (if !header_readable(mem, ptrs.last() as int) || (
        !(kind_at(mem, ptrs.last() as int) is Unknown) && !stores_kind(
            mem,
            ptrs.last(),
            kind_at(mem, ptrs.last() as int),
        )) {
            1int
        } else {
            0int
        })
    }
}

/// `v` holds the root table parsed from `p`.
pub open spec fn rsdt_stored(mem: Seq<u8>, p: u32, v: Option<(u32, SdtTable)>) -> bool {
    match v {
        Some((a, SdtTable::Rsdt(t))) => a == p && rsdt_parsed(mem, p as int, t) && t.wf(),
        _ => false,
    }
}

/// `v` holds the fixed table parsed from `p`.
pub open spec fn fadt_stored(mem: Seq<u8>, p: u32, v: Option<(u32, SdtTable)>) -> bool {
    match v {
        Some((a, SdtTable::Fadt(t))) => a == p && fadt_parsed(mem, p as int, t),
        _ => false,
    }
}

/// `v` holds the multiple-APIC table parsed from `p`.
pub open spec fn madt_stored(mem: Seq<u8>, p: u32, v: Option<(u32, SdtTable)>) -> bool {
    match v {
        Some((a, SdtTable::Madt(t))) => a == p && madt_parsed(mem, p as int, t),
        _ => false,
    }
}

/// `v` holds the high-precision-timer table parsed from `p`.
pub open spec fn hpet_stored(mem: Seq<u8>, p: u32, v: Option<(u32, SdtTable)>) -> bool {
    match v {
        Some((a, SdtTable::Hpet(t))) => a == p && hpet_parsed(mem, p as int, t),
        _ => false,
    }
}

/// Why discovery could not populate the registry.
#[derive(Debug, Clone, Copy, PartialEq, Eq, Structural)]
pub enum AcpiError {
    /// No valid root pointer record exists in the scan region.  The boot
    /// sequence decides whether this is fatal.
    RsdpNotFound,
    /// The root pointer record points at a root table that lies outside
    /// the mapped region or whose declared length cannot cover its own
    /// header.
    RootTableOutOfBounds,
}

/// What discovery found, for the boot sequence's diagnostic report.
#[derive(Debug, Clone)]
pub struct AcpiReport {
    /// Byte offset of the root pointer record inside the scanned region.
    pub rsdp_offset: usize,
    /// The decoded root pointer record.
    pub rsdp: RSDPDescriptor,
    /// Physical address of the root table.
    pub rsdt_address: u32,
    /// Whether the root table's own checksum is valid.  A failure is
    /// reported, not fatal: the table is still exposed.
    pub root_checksum_ok: bool,
    /// Addresses of tables with readable headers but unrecognised
    /// signatures, in walk order.
    pub unknown_tables: Vec<u32>,
    /// How many pointers were skipped because their table lay outside the
    /// mapped region.
    pub skipped_tables: usize,
}

/// Everything `get_rsdp` promises about the registry and its result.
pub open spec fn walk_outcome(
    mem: Seq<u8>,
    old_acpi: Acpi,
    new_acpi: Acpi,
    r: Result<AcpiReport, AcpiError>,
) -> bool {
    match first_rsdp(mem) {
        None => {
            &&& r == Err::<AcpiReport, AcpiError>(AcpiError::RsdpNotFound)
            &&& slot_value(new_acpi.rsdt) == slot_value(old_acpi.rsdt)
            &&& slot_value(new_acpi.fadt) == slot_value(old_acpi.fadt)
            &&& slot_value(new_acpi.madt) == slot_value(old_acpi.madt)
            &&& slot_value(new_acpi.hpet) == slot_value(old_acpi.hpet)
        },
        Some(off) => {
            let rt = le_u32(mem, off + 16);
            if rsdt_in_bounds(mem, rt as int) {
                let ptrs = rsdt_ptrs(mem, rt as int);
                &&& rsdt_stored(mem, rt, slot_value(new_acpi.rsdt))
                &&& (match last_match(mem, ptrs, TableKind::Fadt) {
                    Some(p) => fadt_stored(mem, p, slot_value(new_acpi.fadt)),
                    None => slot_value(new_acpi.fadt) == slot_value(old_acpi.fadt),
                })
                &&& (match last_match(mem, ptrs, TableKind::Madt) {
                    Some(p) => madt_stored(mem, p, slot_value(new_acpi.madt)),
                    None => slot_value(new_acpi.madt) == slot_value(old_acpi.madt),
                })
                &&& (match last_match(mem, ptrs, TableKind::Hpet) {
                    Some(p) => hpet_stored(mem, p, slot_value(new_acpi.hpet)),
                    None => slot_value(new_acpi.hpet) == slot_value(old_acpi.hpet),
                })
                &&& (match r {
                    Ok(rep) => {
                        &&& rep.rsdp_offset == off
                        &&& rsdp_parsed(mem, off, rep.rsdp)
                        &&& rep.rsdt_address == rt
                        &&& rep.root_checksum_ok == checksum_ok(
                            mem.subrange(rt as int, rt + le_u32(mem, rt + 4)),
                        )
                        &&& rep.unknown_tables@ == unknown_list(mem, ptrs)
                        &&& rep.skipped_tables == skipped_count(mem, ptrs)
                    },
                    Err(_) => false,
                })
            } else {
                &&& r == Err::<AcpiReport, AcpiError>(AcpiError::RootTableOutOfBounds)
                &&& slot_value(new_acpi.rsdt) == slot_value(old_acpi.rsdt)
                &&& slot_value(new_acpi.fadt) == slot_value(old_acpi.fadt)
                &&& slot_value(new_acpi.madt) == slot_value(old_acpi.madt)
                &&& slot_value(new_acpi.hpet) == slot_value(old_acpi.hpet)
            }
        },
    }
}

proof fn lemma_first_rsdp_props(mem: Seq<u8>, k: int, off: int)
    requires
        first_rsdp_index(mem, k) == Some(off),
    ensures
        rsdp_match_at(mem, off),
        0 <= off < 0x100000,
    decreases 0x10000 - k,
{
    if k < 0 || k >= 0x10000 {
    } else if rsdp_match_at(mem, 16 * k) {
    } else {
        lemma_first_rsdp_props(mem, k + 1, off);
    }
}

/// Locates the root pointer record, walks the root table it points at,
/// and populates the registry with every recognised sub-table, the last
/// match of a kind winning.  A failed root checksum or an unrecognised
/// signature is reported, never an error; only a missing root record or
/// an unreachable root table is.
pub fn get_rsdp(mem: &[u8], acpi: &mut Acpi) -> (r: Result<AcpiReport, AcpiError>)
    requires
        old(acpi).wf(),
    ensures
        final(acpi).wf(),
        walk_outcome(mem@, *old(acpi), *final(acpi), r),
{
    let len: usize = mem.len();
    let len64: u64 = len as u64;
    let off: usize = match find_rsdp(mem) {
        Some(o) => o,
        None => {
            return Err(AcpiError::RsdpNotFound);
        },
    };
    proof {
        lemma_first_rsdp_props(mem@, 0, off as int);
    }
    let descriptor = parse_rsdp(mem, off);
    let rt: u32 = descriptor.rsdt_address;
    let rt64: u64 = rt as u64;
    if rt64 + 36 > len64 {
        return Err(AcpiError::RootTableOutOfBounds);
    }
    let length: u32 = read_le_u32(mem, rt as usize + 4);
    if length < 36 || rt64 + length as u64 > len64 {
        return Err(AcpiError::RootTableOutOfBounds);
    }
    proof {
        assert(rsdt_in_bounds(mem@, rt as int));
        vstd::arithmetic::div_mod::lemma_fundamental_div_mod(length - 36, 4);
    }
    let rsdt = parse_rsdt(mem, rt as usize);
    let n: usize = rsdt.get_num_sdt();
    let root_checksum = sdt_checksum(
        vstd::slice::slice_subrange(mem, rt as usize, rt as usize + length as usize),
    );
    acpi.rsdt.write(rt, SdtTable::Rsdt(rsdt));
    let ghost ptrs = rsdt_ptrs(mem@, rt as int);
    let mut unknown_tables: Vec<u32> = Vec::new();
    let mut skipped_tables: usize = 0;
    let mut i: usize = 0;
    while i < n
        invariant
            0 <= i <= n,
            len == mem@.len(),
            len64 == len,
            rt64 == rt,
            n == ptrs.len(),
            ptrs == rsdt_ptrs(mem@, rt as int),
            rsdt_in_bounds(mem@, rt as int),
            length == le_u32(mem@, rt as int + 4),
            4 * n <= length - 36,
            acpi.wf(),
            rsdt_stored(mem@, rt, slot_value(acpi.rsdt)),
            (match last_match(mem@, ptrs.take(i as int), TableKind::Fadt) {
                Some(p) => fadt_stored(mem@, p, slot_value(acpi.fadt)),
                None => slot_value(acpi.fadt) == slot_value(old(acpi).fadt),
            }),
            (match last_match(mem@, ptrs.take(i as int), TableKind::Madt) {
                Some(p) => madt_stored(mem@, p, slot_value(acpi.madt)),
                None => slot_value(acpi.madt) == slot_value(old(acpi).madt),
            }),
            (match last_match(mem@, ptrs.take(i as int), TableKind::Hpet) {
                Some(p) => hpet_stored(mem@, p, slot_value(acpi.hpet)),
                None => slot_value(acpi.hpet) == slot_value(old(acpi).hpet),
            }),
            unknown_tables@ == unknown_list(mem@, ptrs.take(i as int)),
            skipped_tables == skipped_count(mem@, ptrs.take(i as int)),
            skipped_tables <= i,
        decreases n - i,
    {
        let p: u32 = read_le_u32(mem, rt as usize + 36 + 4 * i);
        proof {
            assert(p == ptrs[i as int]);
        }
        let pu: usize = p as usize;
        let p64: u64 = p as u64;
        if p64 + 36 > len64 {
            skipped_tables = skipped_tables + 1;
        } else {
            let sig: [u8; 4] = [mem[pu], mem[pu + 1], mem[pu + 2], mem[pu + 3]];
            proof {
                assert(sig@ =~= mem@.subrange(pu as int, pu as int + 4));
            }
            match classify_signature(&sig) {
                TableKind::Fadt => {
                    if p64 + 244 <= len64 {
                        let t = parse_fadt(mem, pu);
                        acpi.fadt.write(p, SdtTable::Fadt(t));
                    } else {
                        skipped_tables = skipped_tables + 1;
                    }
                },
                TableKind::Madt => {
                    if p64 + 44 <= len64 {
                        let t = parse_madt(mem, pu);
                        acpi.madt.write(p, SdtTable::Madt(t));
                    } else {
                        skipped_tables = skipped_tables + 1;
                    }
                },
                TableKind::Hpet => {
                    if p64 + 56 <= len64 {
                        let t = parse_hpet(mem, pu);
                        acpi.hpet.write(p, SdtTable::Hpet(t));
                    } else {
                        skipped_tables = skipped_tables + 1;
                    }
                },
                TableKind::Unknown => {
                    unknown_tables.push(p);
                },
            }
        }
        proof {
            assert(ptrs.take(i + 1).drop_last() =~= ptrs.take(i as int));
            assert(ptrs.take(i + 1).last() == ptrs[i as int]);
        }
        i = i + 1;
    }
    proof {
        assert(ptrs.take(n as int) =~= ptrs);
    }
    Ok(
        AcpiReport {
            rsdp_offset: off,
            rsdp: descriptor,
            rsdt_address: rt,
            root_checksum_ok: root_checksum,
            unknown_tables,
            skipped_tables,
        },
    )
}

} // verus!
