//! The root system description pointer: reading it, checking it, and finding it in the BIOS
//! memory below one megabyte.

use vstd::prelude::*;
use crate::acpi::{le16, le32, le64, read_u16, read_u32, read_u64, read6, read8, byte_sum, checksum};

verus! {

/// The pointer to the EBDA (Extended Bios Data Area) start segment.
pub const EBDA_START_SEGMENT_PTR: usize = 0x40e;
/// The earliest (lowest) memory address an EBDA can start.
pub const EBDA_EARLIEST_START: usize = 0x80000;
/// The end of the EBDA.
pub const EBDA_END: usize = 0x9ffff;
/// The start of the main bios area below 1mb in which to search for the RSDP.
pub const RSDP_BIOS_AREA_START: usize = 0xe0000;
/// The end of the main bios area below 1mb in which to search for the RSDP.
pub const RSDP_BIOS_AREA_END: usize = 0xfffff;
/// The RSDP's signature, "RSD PTR " (note trailing space).
pub const RSDP_SIGNATURE: [u8; 8] = [0x52, 0x53, 0x44, 0x20, 0x50, 0x54, 0x52, 0x20];
/// The size of an ACPI 1 RSDP.
pub const RSDP_V1_SIZE: usize = 20;
/// The size of an ACPI 2 RSDP.
pub const RSDP_V2_SIZE: usize = 36;
/// The length of the EBDA that is searched.
pub const EBDA_SEARCH_LEN: usize = 1024;
/// The amount of memory the search reads: up to the end of an RSDP at the last address
/// searched in the BIOS area.
pub const SEARCHED_MEMORY: usize = 0x100014;

/// The bytes of a little-endian 32 bit number.
pub open spec fn u32_bytes(x: u32) -> Seq<u8> {
    seq![
        (x % 0x100) as u8,
        (x / 0x100 % 0x100) as u8,
        (x / 0x10000 % 0x100) as u8,
        (x / 0x1000000 % 0x100) as u8,
    ]
}

/// The bytes of a little-endian 64 bit number.
pub open spec fn u64_bytes(x: u64) -> Seq<u8> {
    u32_bytes((x % 0x1_0000_0000) as u32) + u32_bytes((x / 0x1_0000_0000) as u32)
}

fn push_u32(out: &mut Vec<u8>, x: u32)
    ensures
        final(out)@ == old(out)@ + u32_bytes(x),
{
    out.push((x % 0x100) as u8);
    out.push((x / 0x100 % 0x100) as u8);
    out.push((x / 0x10000 % 0x100) as u8);
    out.push((x / 0x1000000 % 0x100) as u8);
    assert(final(out)@ =~= old(out)@ + u32_bytes(x));
}

fn push_bytes(out: &mut Vec<u8>, bytes: &[u8])
    ensures
        final(out)@ == old(out)@ + bytes@,
{
    let mut i: usize = 0;
    while i < bytes.len()
        invariant
            i <= bytes@.len(),
            out@ == old(out)@ + bytes@.take(i as int),
        decreases bytes@.len() - i,
    {
        out.push(bytes[i]);
        i = i + 1;
        assert(out@ =~= old(out)@ + bytes@.take(i as int));
    }
    assert(bytes@.take(bytes@.len() as int) =~= bytes@);
}

/// The root system description pointer in ACPI v1.
#[derive(Clone, Copy, PartialEq, Eq, Debug)]
pub struct RsdpV1 {
    pub signature: [u8; 8],
    pub checksum: u8,
    pub oem_id: [u8; 6],
    /// The ACPI revision. ACPI v1 revision is 0 for RSDP.
    pub revision: u8,
    pub rsdt_address: u32,
}

impl RsdpV1 {
    /// The pointer's bytes as laid out in memory.
    pub open spec fn spec_bytes(self) -> Seq<u8> {
        self.signature@ + seq![self.checksum] + self.oem_id@ + seq![self.revision] + u32_bytes(
            self.rsdt_address,
        )
    }

    pub open spec fn spec_valid(self) -> bool {
        byte_sum(self.spec_bytes()) % 256 == 0
    }

    /// The pointer whose bytes start at `at`.
    pub open spec fn spec_parse(bytes: Seq<u8>, at: int) -> RsdpV1 {
        RsdpV1 {
            signature: [
                bytes[at],
                bytes[at + 1],
                bytes[at + 2],
                bytes[at + 3],
                bytes[at + 4],
                bytes[at + 5],
                bytes[at + 6],
                bytes[at + 7],
            ],
            checksum: bytes[at + 8],
            oem_id: [
                bytes[at + 9],
                bytes[at + 10],
                bytes[at + 11],
                bytes[at + 12],
                bytes[at + 13],
                bytes[at + 14],
            ],
            revision: bytes[at + 15],
            rsdt_address: le32(bytes, at + 16) as u32,
        }
    }

    /// Reads the pointer at `at`.
    pub fn parse(bytes: &[u8], at: usize) -> (rsdp: RsdpV1)
        requires
            at + RSDP_V1_SIZE <= bytes@.len(),
        ensures
            rsdp == Self::spec_parse(bytes@, at as int),
    {
        let _ = bytes.len();
        let rsdp = RsdpV1 {
            signature: read8(bytes, at),
            checksum: bytes[at + 8],
            oem_id: read6(bytes, at + 9),
            revision: bytes[at + 15],
            rsdt_address: read_u32(bytes, at + 16),
        };
        let ghost expected = Self::spec_parse(bytes@, at as int);
        assert(rsdp.signature =~= expected.signature);
        assert(rsdp.oem_id =~= expected.oem_id);
        rsdp
    }

    /// The pointer's bytes as laid out in memory.
    pub fn to_bytes(&self) -> (bytes: Vec<u8>)
        ensures
            bytes@ == self.spec_bytes(),
    {
        let mut bytes = Vec::new();
        push_bytes(&mut bytes, &self.signature);
        bytes.push(self.checksum);
        push_bytes(&mut bytes, &self.oem_id);
        bytes.push(self.revision);
        push_u32(&mut bytes, self.rsdt_address);
        bytes
    }

    /// Validates the RSDP by summing all its bytes together and checking that the lowest byte
    /// of the sum is 0.
    pub fn validate(&self) -> (valid: bool)
        ensures
            valid == self.spec_valid(),
    {
        let bytes = self.to_bytes();
        assert(bytes@.take(bytes@.len() as int) =~= bytes@);
        checksum(bytes.as_slice(), bytes.len()) == 0
    }
}

/// The root system description pointer in ACPI v2 and above, which also points to the XSDT.
#[derive(Clone, Copy, PartialEq, Eq, Debug)]
pub struct RsdpV2 {
    pub v1: RsdpV1,
    pub len: u32,
    pub xsdt_address: u64,
    pub extended_checksum: u8,
    pub reserved: [u8; 3],
}

impl RsdpV2 {
    pub open spec fn spec_bytes(self) -> Seq<u8> {
        self.v1.spec_bytes() + u32_bytes(self.len) + u64_bytes(self.xsdt_address) + seq![
            self.extended_checksum,
        ] + self.reserved@
    }

    pub open spec fn spec_valid(self) -> bool {
        byte_sum(self.spec_bytes()) % 256 == 0
    }

    /// The pointer whose bytes start at `at`.
    pub open spec fn spec_parse(bytes: Seq<u8>, at: int) -> RsdpV2 {
        RsdpV2 {
            v1: RsdpV1::spec_parse(bytes, at),
            len: le32(bytes, at + 20) as u32,
            xsdt_address: le64(bytes, at + 24) as u64,
            extended_checksum: bytes[at + 32],
            reserved: [bytes[at + 33], bytes[at + 34], bytes[at + 35]],
        }
    }

    /// Reads the pointer at `at`.
    pub fn parse(bytes: &[u8], at: usize) -> (rsdp: RsdpV2)
        requires
            at + RSDP_V2_SIZE <= bytes@.len(),
        ensures
            rsdp == Self::spec_parse(bytes@, at as int),
    {
        let _ = bytes.len();
        let reserved = [bytes[at + 33], bytes[at + 34], bytes[at + 35]];
        RsdpV2 {
            v1: RsdpV1::parse(bytes, at),
            len: read_u32(bytes, at + 20),
            xsdt_address: read_u64(bytes, at + 24),
            extended_checksum: bytes[at + 32],
            reserved,
        }
    }

    /// The pointer's bytes as laid out in memory.
    pub fn to_bytes(&self) -> (bytes: Vec<u8>)
        ensures
            bytes@ == self.spec_bytes(),
    {
        let mut bytes = self.v1.to_bytes();
        push_u32(&mut bytes, self.len);
        push_u32(&mut bytes, (self.xsdt_address % 0x1_0000_0000) as u32);
        push_u32(&mut bytes, (self.xsdt_address / 0x1_0000_0000) as u32);
        bytes.push(self.extended_checksum);
        push_bytes(&mut bytes, &self.reserved);
        assert(bytes@ =~= self.spec_bytes());
        bytes
    }

    /// Validates the RSDP by summing all its bytes together and checking that the lowest byte
    /// of the sum is 0.
    pub fn validate(&self) -> (valid: bool)
        ensures
            valid == self.spec_valid(),
    {
        let bytes = self.to_bytes();
        assert(bytes@.take(bytes@.len() as int) =~= bytes@);
        checksum(bytes.as_slice(), bytes.len()) == 0
    }
}

/// An RSDP of either ACPI version.
#[derive(Clone, Copy, PartialEq, Eq, Debug)]
pub enum Rsdp {
    V1(RsdpV1),
    V2(RsdpV2),
}

pub open spec fn spec_ebda_start(segment: u16) -> int {
    let base = segment * 16;
    if EBDA_EARLIEST_START <= base < EBDA_END {
        base
    } else {
        EBDA_EARLIEST_START as int
    }
}

/// The beginning of the EBDA, from the segment stored at `EBDA_START_SEGMENT_PTR`; the BIOS does
/// not always give one, so an address out of range falls back to the earliest start.
pub fn find_ebda_start(segment: u16) -> (start: usize)
    ensures
        start == spec_ebda_start(segment),
{
    let base = segment as usize * 16;
    if EBDA_EARLIEST_START <= base && base < EBDA_END {
        base
    } else {
        EBDA_EARLIEST_START
    }
}

/// The length of the BIOS search area.
pub open spec fn bios_area_len() -> int {
    RSDP_BIOS_AREA_END - RSDP_BIOS_AREA_START
}

/// How many addresses of the BIOS area are searched: those on a 16 byte boundary.
pub open spec fn bios_candidate_count() -> int {
    (bios_area_len() + 15) / 16
}

/// How many addresses are searched: every sixteenth of the BIOS area, then every sixteenth of
/// the first kilobyte of the EBDA.
pub open spec fn candidate_count() -> int {
    bios_candidate_count() + EBDA_SEARCH_LEN / 16
}

/// The `k`-th address searched: the 16 byte boundaries of the BIOS area first, then those of
/// the EBDA, counted from its start.
pub open spec fn candidate(ebda_start: int, k: int) -> int {
    if k < bios_candidate_count() {
        RSDP_BIOS_AREA_START + 16 * k
    } else {
        ebda_start + 16 * (k - bios_candidate_count())
    }
}

/// The RSDP at `at`, if its signature is there and it is valid: an ACPI 1 pointer (revision 0)
/// or, for a later revision, a valid ACPI 2 pointer.
#[verifier::opaque]
pub open spec fn rsdp_at(memory: Seq<u8>, at: int) -> Option<Rsdp> {
    let v1 = RsdpV1::spec_parse(memory, at);
    let v2 = RsdpV2::spec_parse(memory, at);
    if memory.subrange(at, at + 8) != RSDP_SIGNATURE@ || !v1.spec_valid() {
        None
    } else if v1.revision == 0 {
        Some(Rsdp::V1(v1))
    } else if v2.spec_valid() {
        Some(Rsdp::V2(v2))
    } else {
        None
    }
}

/// The first RSDP found at the searched addresses from the `k`-th on, with its address.
pub open spec fn search_from(memory: Seq<u8>, ebda_start: int, k: int) -> Option<(Rsdp, usize)>
    decreases candidate_count() - k,
{
    if k >= candidate_count() || k < 0 {
        None
    } else {
        match rsdp_at(memory, candidate(ebda_start, k)) {
            Some(rsdp) => Some((rsdp, candidate(ebda_start, k) as usize)),
            None => search_from(memory, ebda_start, k + 1),
        }
    }
}

/// Whether `address` is one of the searched addresses: on a 16 byte boundary, in the BIOS area
/// or in the first kilobyte of the EBDA.
pub open spec fn searched_address(ebda_start: int, address: int) -> bool {
    &&& address % 16 == 0
    &&& (RSDP_BIOS_AREA_START <= address < RSDP_BIOS_AREA_END || ebda_start <= address
        < ebda_start + EBDA_SEARCH_LEN)
}

/// What the search finds lies at one of the searched addresses.
proof fn lemma_search_from_address(memory: Seq<u8>, ebda_start: int, k: int)
    requires
        ebda_start % 16 == 0,
        0 <= ebda_start < EBDA_END,
    ensures
        search_from(memory, ebda_start, k) matches Some((_, address)) ==> searched_address(
            ebda_start,
            address as int,
        ),
    decreases candidate_count() - k,
{
    if 0 <= k < candidate_count() {
        lemma_search_from_address(memory, ebda_start, k + 1);
        let c = candidate(ebda_start, k);
        assert(c % 16 == 0);
        assert(0 <= c <= usize::MAX);
    }
}

/// The RSDP at `at`, if there is a valid one.
pub fn rsdp_candidate(memory: &[u8], at: usize) -> (found: Option<Rsdp>)
    requires
        at + RSDP_V2_SIZE <= memory@.len(),
    ensures
        found == rsdp_at(memory@, at as int),
{
    let signature = read8(memory, at);
    let expected = RSDP_SIGNATURE;
    let mut matches = true;
    let mut i: usize = 0;
    while i < 8
        invariant
            i <= 8,
            signature@ == memory@.subrange(at as int, at + 8),
            expected@ == RSDP_SIGNATURE@,
            matches == (forall|j: int| 0 <= j < i ==> signature@[j] == expected@[j]),
        decreases 8 - i,
    {
        matches = matches && signature[i] == expected[i];
        i = i + 1;
    }
    if matches {
        assert(signature@ =~= RSDP_SIGNATURE@);
    }
    proof {
        reveal(rsdp_at);
    }
    if !matches {
        return None;
    }
    let v1 = RsdpV1::parse(memory, at);
    if !v1.validate() {
        return None;
    }
    if v1.revision == 0 {
        Some(Rsdp::V1(v1))
    } else {
        let v2 = RsdpV2::parse(memory, at);
        if v2.validate() {
            Some(Rsdp::V2(v2))
        } else {
            None
        }
    }
}

/// Searches for the RSDP in the memory below one megabyte, returning the ACPI 1 or ACPI 2
/// pointer along with the address where it was found, or `None` when there is none. The
/// signature is always on a 16 byte boundary, so only every sixteenth address is looked at:
/// the main BIOS area first (where it is more often found), then the first kilobyte of the
/// EBDA, whose segment is read from `EBDA_START_SEGMENT_PTR`. Invalid pointers are skipped.
pub fn search_for_rsdp(memory: &[u8]) -> (found: Option<(Rsdp, usize)>)
    requires
        memory@.len() >= SEARCHED_MEMORY,
    ensures
        found == search_from(
            memory@,
            spec_ebda_start(le16(memory@, EBDA_START_SEGMENT_PTR as int) as u16),
            0,
        ),
        found matches Some((_, address)) ==> searched_address(
            spec_ebda_start(le16(memory@, EBDA_START_SEGMENT_PTR as int) as u16),
            address as int,
        ),
{
    let segment = read_u16(memory, EBDA_START_SEGMENT_PTR);
    let ebda_start = find_ebda_start(segment);
    let area_len: usize = RSDP_BIOS_AREA_END - RSDP_BIOS_AREA_START;
    let bios_count: usize = (area_len + 15) / 16;
    let count: usize = bios_count + EBDA_SEARCH_LEN / 16;
    let ghost e = ebda_start as int;
    proof {
        lemma_search_from_address(memory@, e, 0);
    }
    let mut k: usize = 0;
    while k < count
        invariant
            k <= count,
            count == candidate_count(),
            area_len == bios_area_len(),
            bios_count == bios_candidate_count(),
            memory@.len() >= SEARCHED_MEMORY,
            EBDA_EARLIEST_START <= e < EBDA_END,
            e == ebda_start,
            e == spec_ebda_start(le16(memory@, EBDA_START_SEGMENT_PTR as int) as u16),
            search_from(memory@, e, 0) == search_from(memory@, e, k as int),
        decreases count - k,
    {
        let address = if k < bios_count {
            RSDP_BIOS_AREA_START + 16 * k
        } else {
            ebda_start + 16 * (k - bios_count)
        };
        assert(address == candidate(e, k as int));
        match rsdp_candidate(memory, address) {
            Some(rsdp) => {
                return Some((rsdp, address));
            },
            None => {},
        }
        k = k + 1;
    }
    None
}

} // verus!
