//! Pages, page table entries and page tables of x86_64 four-level paging.

use vstd::prelude::*;
use core::marker::PhantomData;

verus! {

/// Number of entries in one page table.
pub const PAGE_TABLE_ENTRIES: usize = 512;

/// The bits of a page table entry that hold the physical address of a frame or a table.
pub const ADDRESS_MASK: u64 = 0x000f_ffff_ffff_f000;

/// Whether the page is present in memory.
pub const PRESENT: u64 = 1;
/// Whether the page is writable or read only.
pub const WRITABLE: u64 = 2;
/// Whether ring 3 processes can access this page.
pub const USER_ACCESSIBLE: u64 = 4;
/// If this bit is set, writes to this page go directly to memory.
pub const WRITE_DIRECT: u64 = 8;
/// Do not use cache for this page.
pub const NO_CACHE: u64 = 16;
/// Set by the CPU when this page has been accessed.
pub const ACCESSED: u64 = 32;
/// Set by the CPU when this page is written to.
pub const DIRTY: u64 = 64;
/// Whether this page is a huge page: a 1GiB page in P3 and a 2MiB page in P2.
pub const HUGE_PAGE: u64 = 128;
/// If set, this page will not be flushed in the TLB.
pub const GLOBAL: u64 = 256;
/// Do not allow executing code from this page.
pub const NO_EXECUTE: u64 = 0x8000_0000_0000_0000;
/// All flags together.
pub const ALL_FLAGS: u64 = 0x8000_0000_0000_01ff;

#[derive(Clone, Copy, PartialEq, Eq, Structural)]
pub struct PhysicalAddress(pub usize);

#[derive(Clone, Copy, PartialEq, Eq, Structural)]
pub struct VirtualAddress(pub usize);

/// The size of a page.
#[derive(Clone, Copy, PartialEq, Eq, Structural)]
pub enum PageSize {
    Kib4,
    Mib2,
}

impl PageSize {
    pub open spec fn spec_bytes(self) -> nat {
        match self {
            PageSize::Kib4 => 4096,
            PageSize::Mib2 => 0x20_0000,
        }
    }

    /// The number of bytes in a page of this size.
    pub fn bytes(self) -> (bytes: usize)
        ensures
            bytes == self.spec_bytes(),
    {
        match self {
            PageSize::Kib4 => 4 * 1024,
            PageSize::Mib2 => 2 * 1024 * 1024,
        }
    }
}

/// A virtual page: its number and, where known, its size.
#[derive(Clone, Copy)]
pub struct Page {
    number: usize,
    size: Option<PageSize>,
}

impl Page {
    pub closed spec fn spec_number(self) -> nat {
        self.number as nat
    }

    pub closed spec fn spec_size(self) -> Option<PageSize> {
        self.size
    }

    /// The page's start address, defined when its size is known.
    pub open spec fn spec_start_address(self) -> Option<nat> {
        match self.spec_size() {
            Some(size) => Some(self.spec_number() * size.spec_bytes()),
            None => None,
        }
    }

    pub fn p4_index(&self) -> (index: usize)
        ensures
            index == self.spec_number() / 0x800_0000 % 512,
            index < 512,
    {
        let n = self.number;
        assert((n >> 27usize) & 0o777 == n / 0x800_0000 % 512) by (bit_vector);
        assert((n >> 27usize) & 0o777 < 512) by (bit_vector);
        (n >> 27usize) & 0o777
    }

    pub fn p3_index(&self) -> (index: usize)
        ensures
            index == self.spec_number() / 0x4_0000 % 512,
            index < 512,
    {
        let n = self.number;
        assert((n >> 18usize) & 0o777 == n / 0x4_0000 % 512) by (bit_vector);
        assert((n >> 18usize) & 0o777 < 512) by (bit_vector);
        (n >> 18usize) & 0o777
    }

    pub fn p2_index(&self) -> (index: usize)
        ensures
            index == self.spec_number() / 512 % 512,
            index < 512,
    {
        let n = self.number;
        assert((n >> 9usize) & 0o777 == n / 512 % 512) by (bit_vector);
        assert((n >> 9usize) & 0o777 < 512) by (bit_vector);
        (n >> 9usize) & 0o777
    }

    pub fn p1_index(&self) -> (index: usize)
        ensures
            index == self.spec_number() % 512,
            index < 512,
    {
        let n = self.number;
        assert(n & 0o777 == n % 512) by (bit_vector);
        assert(n & 0o777 < 512) by (bit_vector);
        n & 0o777
    }

    pub fn number(&self) -> (number: usize)
        ensures
            number == self.spec_number(),
    {
        self.number
    }

    /// The start address of the page, if its size is known.
    pub fn start_address(&self) -> (address: Option<usize>)
        requires
            self.spec_start_address() matches Some(a) ==> a <= usize::MAX,
        ensures
            address matches Some(a) ==> self.spec_start_address() == Some(a as nat),
            address is None ==> self.spec_start_address() is None,
    {
        match self.size {
            Some(size) => Some(self.number * size.bytes()),
            None => None,
        }
    }

    pub fn page_size(&self) -> (size: Option<PageSize>)
        ensures
            size == self.spec_size(),
    {
        self.size
    }

    /// The page of `size` that contains `addr`.
    pub closed spec fn spec_containing(addr: usize, size: PageSize) -> Page {
        Page { number: (addr as nat / size.spec_bytes()) as usize, size: Some(size) }
    }

    /// The page of `size` that contains `addr`.
    pub fn containing_address(addr: usize, size: PageSize) -> (page: Page)
        ensures
            page == Page::spec_containing(addr, size),
            page.spec_number() == addr as nat / size.spec_bytes(),
            page.spec_size() == Some(size),
            page.spec_start_address() matches Some(a) && a <= addr,
    {
        let bytes = size.bytes();
        let page = Page { number: addr / bytes, size: Some(size) };
        proof {
            vstd::arithmetic::div_mod::lemma_fundamental_div_mod(addr as int, bytes as int);
            vstd::arithmetic::mul::lemma_mul_is_commutative(bytes as int, (addr / bytes) as int);
        }
        page
    }

    /// The page `other` pages after this one.
    pub fn add(self, other: usize) -> (page: Page)
        requires
            self.spec_number() + other <= usize::MAX,
        ensures
            page.spec_number() == self.spec_number() + other,
            page.spec_size() == self.spec_size(),
    {
        Page { number: self.number + other, size: self.size }
    }

    /// The page `other` pages before this one.
    pub fn sub(self, other: usize) -> (page: Page)
        requires
            self.spec_number() >= other,
        ensures
            page.spec_number() == self.spec_number() - other,
            page.spec_size() == self.spec_size(),
    {
        Page { number: self.number - other, size: self.size }
    }
}

/// The flags of a page table entry.
#[derive(Clone, Copy, PartialEq, Eq, Structural)]
pub struct EntryFlags {
    bits: u64,
}

impl EntryFlags {
    pub closed spec fn spec_bits(self) -> u64 {
        self.bits
    }

    /// Only bits that name a flag are ever set.
    #[verifier::type_invariant]
    spec fn only_flags(self) -> bool {
        self.bits & !ALL_FLAGS == 0
    }

    /// Masking with `ALL_FLAGS` leaves only bits that name a flag; the present bit is either set
    /// or clear.
    proof fn lemma_masked(bits: u64)
        by (bit_vector)
        ensures
            (bits & ALL_FLAGS) & !ALL_FLAGS == 0,
            0u64 & !ALL_FLAGS == 0,
            bits & PRESENT == PRESENT || bits & PRESENT == 0,
    {
    }

    /// The flags set in `bits`, ignoring bits that name no flag.
    pub fn from_bits_truncate(bits: u64) -> (flags: EntryFlags)
        ensures
            flags.spec_bits() == bits & ALL_FLAGS,
    {
        proof {
            EntryFlags::lemma_masked(bits);
        }
        EntryFlags { bits: bits & ALL_FLAGS }
    }

    pub fn empty() -> (flags: EntryFlags)
        ensures
            flags.spec_bits() == 0,
    {
        proof {
            EntryFlags::lemma_masked(0);
        }
        EntryFlags { bits: 0 }
    }

    /// The flags' bits; only bits that name a flag are set.
    pub fn bits(&self) -> (bits: u64)
        ensures
            bits == self.spec_bits(),
            bits & !ALL_FLAGS == 0,
    {
        proof {
            use_type_invariant(self);
        }
        self.bits
    }

    /// Whether every flag of `other` is set here.
    pub fn contains(&self, other: u64) -> (result: bool)
        ensures
            result == (self.spec_bits() & other == other),
    {
        self.bits & other == other
    }

    /// These flags together with `other`.
    pub fn union(self, other: u64) -> (flags: EntryFlags)
        ensures
            flags.spec_bits() == (self.spec_bits() | other) & ALL_FLAGS,
    {
        proof {
            EntryFlags::lemma_masked(self.bits | other);
        }
        EntryFlags { bits: (self.bits | other) & ALL_FLAGS }
    }
}

/// An entry in a page table.
#[derive(Clone, Copy, PartialEq, Eq, Structural)]
pub struct PageTableEntry(u64);

/// The physical address held in a present entry.
pub open spec fn spec_entry_address(bits: u64) -> Option<PhysicalAddress> {
    if bits & PRESENT == PRESENT {
        Some(PhysicalAddress((bits & ADDRESS_MASK) as usize))
    } else {
        None
    }
}

/// A frame address that fits an entry: page aligned and below 2^52.
pub open spec fn frame_address_ok(address: usize) -> bool {
    address as u64 & !ADDRESS_MASK == 0
}

impl PageTableEntry {
    pub closed spec fn spec_bits(self) -> u64 {
        self.0
    }

    /// The entry holding `bits`.
    pub closed spec fn from_bits(bits: u64) -> PageTableEntry {
        PageTableEntry(bits)
    }

    /// An entry is the entry holding its bits.
    pub proof fn lemma_from_bits(entry: PageTableEntry, bits: u64)
        ensures
            PageTableEntry::from_bits(bits).spec_bits() == bits,
            PageTableEntry::from_bits(entry.spec_bits()) == entry,
    {
    }

    pub fn new() -> (entry: PageTableEntry)
        ensures
            entry.spec_bits() == 0,
    {
        PageTableEntry(0)
    }

    pub fn is_unused(&self) -> (unused: bool)
        ensures
            unused == (self.spec_bits() == 0),
    {
        self.0 == 0
    }

    pub fn set_unused(&mut self)
        ensures
            final(self).spec_bits() == 0,
    {
        self.0 = 0;
    }

    pub fn flags(&self) -> (flags: EntryFlags)
        ensures
            flags.spec_bits() == self.spec_bits() & ALL_FLAGS,
    {
        EntryFlags::from_bits_truncate(self.0)
    }

    /// The physical address of the frame or table the entry points to, if it is present.
    pub fn physical_address(&self) -> (address: Option<PhysicalAddress>)
        ensures
            address == spec_entry_address(self.spec_bits()),
            address matches Some(a) ==> a.0 % 4096 == 0,
    {
        let bits = self.0;
        if self.flags().contains(PRESENT) {
            assert(bits & ALL_FLAGS & PRESENT == PRESENT <==> bits & PRESENT == PRESENT) by (bit_vector);
            assert(((bits & ADDRESS_MASK) as usize) % 4096 == 0) by (bit_vector);
            Some(PhysicalAddress((bits & ADDRESS_MASK) as usize))
        } else {
            assert(bits & ALL_FLAGS & PRESENT == PRESENT <==> bits & PRESENT == PRESENT) by (bit_vector);
            None
        }
    }

    /// Point the entry at `physical_address` with `flags`. Where the address fits an entry
    /// (below 2^52), reading the entry back gives `flags`, and the address when `flags` has
    /// `PRESENT`.
    pub fn set(&mut self, physical_address: PhysicalAddress, flags: EntryFlags)
        requires
            physical_address.0 % 4096 == 0,
        ensures
            final(self).spec_bits() == physical_address.0 as u64 | flags.spec_bits(),
            frame_address_ok(physical_address.0) ==> {
                &&& final(self).spec_bits() & ALL_FLAGS == flags.spec_bits()
                &&& spec_entry_address(final(self).spec_bits()) == (if flags.spec_bits() & PRESENT
                    == PRESENT {
                    Some(physical_address)
                } else {
                    None
                })
            },
    {
        let bits = flags.bits();
        if physical_address.0 as u64 & !ADDRESS_MASK == 0 {
            proof {
                assert(bits & ALL_FLAGS == bits) by (bit_vector)
                    requires
                        bits & !ALL_FLAGS == 0,
                ;
                law_entry_set_then_read(physical_address.0, bits);
                EntryFlags::lemma_masked(bits);
            }
        }
        self.0 = (physical_address.0 as u64) | bits;
    }
}

/// Setting an entry to an aligned frame below 2^52 and then reading it gives back the frame
/// and the flags.
pub proof fn law_entry_set_then_read(address: usize, flag_bits: u64)
    requires
        frame_address_ok(address),
        flag_bits & ALL_FLAGS == flag_bits,
    ensures
        (address as u64 | flag_bits) & ALL_FLAGS == flag_bits,
        flag_bits & PRESENT == PRESENT ==> spec_entry_address(address as u64 | flag_bits) == Some(
            PhysicalAddress(address),
        ),
        flag_bits & PRESENT == 0 ==> spec_entry_address(address as u64 | flag_bits) is None,
{
    let a = address as u64;
    assert((a | flag_bits) & ALL_FLAGS == flag_bits) by (bit_vector)
        requires
            a & !ADDRESS_MASK == 0,
            flag_bits & ALL_FLAGS == flag_bits,
    ;
    assert((a | flag_bits) & ADDRESS_MASK == a) by (bit_vector)
        requires
            a & !ADDRESS_MASK == 0,
            flag_bits & ALL_FLAGS == flag_bits,
    ;
    assert(flag_bits & PRESENT == PRESENT ==> (a | flag_bits) & PRESENT == PRESENT) by (bit_vector);
    assert(flag_bits & PRESENT == 0 ==> (a | flag_bits) & PRESENT == 0) by (bit_vector)
        requires
            a & !ADDRESS_MASK == 0,
    ;
}

/// A trait that indicates a type represents a page table level.
pub trait TableLevel {}

/// Marks tables of level 4.
pub enum Level4 {
    Marker,
}

/// Marks tables of level 3.
pub enum Level3 {
    Marker,
}

/// Marks tables of level 2.
pub enum Level2 {
    Marker,
}

/// Marks tables of level 1.
pub enum Level1 {
    Marker,
}

impl TableLevel for Level4 {}

impl TableLevel for Level3 {}

impl TableLevel for Level2 {}

impl TableLevel for Level1 {}

/// A page table level that is not P1: its entries point to tables of the next level.
pub trait HierarchicalLevel: TableLevel {
    type NextLevel: TableLevel;

    /// Whether an entry of this level may map a huge page.
    fn can_be_huge() -> bool;
}

impl HierarchicalLevel for Level4 {
    type NextLevel = Level3;

    fn can_be_huge() -> (huge: bool)
        ensures
            !huge,
    {
        false
    }
}

impl HierarchicalLevel for Level3 {
    type NextLevel = Level2;

    fn can_be_huge() -> (huge: bool)
        ensures
            huge,
    {
        true
    }
}

impl HierarchicalLevel for Level2 {
    type NextLevel = Level1;

    fn can_be_huge() -> (huge: bool)
        ensures
            huge,
    {
        true
    }
}

/// A page table consisting of 512 entries.
pub struct PageTable<L: TableLevel> {
    entries: [PageTableEntry; 512],
    _level: PhantomData<L>,
}

impl<L: TableLevel> PageTable<L> {
    pub closed spec fn view(&self) -> Seq<PageTableEntry> {
        self.entries@
    }

    /// A table whose entries are all unused.
    pub fn new() -> (table: PageTable<L>)
        ensures
            table@.len() == 512,
            forall|i: int| 0 <= i < 512 ==> #[trigger] table@[i].spec_bits() == 0,
    {
        PageTable { entries: [PageTableEntry(0); 512], _level: PhantomData }
    }

    /// Mark every entry unused.
    pub fn zero(&mut self)
        ensures
            final(self)@.len() == 512,
            forall|i: int| 0 <= i < 512 ==> #[trigger] final(self)@[i].spec_bits() == 0,
    {
        let mut i: usize = 0;
        while i < PAGE_TABLE_ENTRIES
            invariant
                i <= 512,
                self@.len() == 512,
                forall|j: int| 0 <= j < i ==> #[trigger] self@[j].spec_bits() == 0,
            decreases 512 - i,
        {
            self.entries[i].set_unused();
            i = i + 1;
        }
    }

    /// The entry at `index`.
    pub fn entry(&self, index: usize) -> (entry: PageTableEntry)
        requires
            index < 512,
        ensures
            entry == self@[index as int],
    {
        self.entries[index]
    }

    /// Replace the entry at `index`.
    pub fn set_entry(&mut self, index: usize, entry: PageTableEntry)
        requires
            index < 512,
        ensures
            final(self)@ == old(self)@.update(index as int, entry),
    {
        self.entries[index] = entry;
    }
}

} // verus!
