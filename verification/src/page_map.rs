//! Walking a four-level page table hierarchy held as a set of tables, each at its physical
//! frame: translating a page into the entry that maps it.

use vstd::prelude::*;
use crate::util::round_up_divide;
use crate::process::InactivePageMap;
use crate::physical_allocator::{PhysicalAllocator, allocated_from, slot_can_allocate, TREE_COUNT};
use crate::paging::{
    EntryFlags, Page, PageSize, PageTableEntry, PhysicalAddress, VirtualAddress, frame_address_ok,
    NO_EXECUTE,
    spec_entry_address, ALL_FLAGS, ADDRESS_MASK, PRESENT, HUGE_PAGE, WRITABLE, USER_ACCESSIBLE,
    PAGE_TABLE_ENTRIES,
};

verus! {

/// A page table at a physical frame.
pub struct FrameTable {
    pub frame: u64,
    pub entries: Vec<PageTableEntry>,
}

/// A page table hierarchy: the frame of its top level table, and the tables it reaches.
pub struct Mapper {
    pub p4_frame: u64,
    pub tables: Vec<FrameTable>,
}

/// Whether an entry has all the flags `flag`.
pub open spec fn entry_flag(entry: PageTableEntry, flag: u64) -> bool {
    (entry.spec_bits() & ALL_FLAGS) & flag == flag
}

/// The frame an entry points to (meaningful when it is present).
pub open spec fn entry_frame(entry: PageTableEntry) -> u64 {
    match spec_entry_address(entry.spec_bits()) {
        Some(address) => address.0 as u64,
        None => 0,
    }
}

/// The position of the first table at `frame`, looking from `from` on. A table is given as
/// its frame and its entries.
pub open spec fn find_table(tables: Seq<(u64, Seq<PageTableEntry>)>, frame: u64, from: int) -> Option<int>
    decreases tables.len() - from,
{
    if from < 0 || from >= tables.len() {
        None
    } else if tables[from].0 == frame {
        Some(from)
    } else {
        find_table(tables, frame, from + 1)
    }
}

/// The entries of the table at `frame`, if the hierarchy has one.
pub open spec fn table_at(tables: Seq<(u64, Seq<PageTableEntry>)>, frame: u64) -> Option<Seq<PageTableEntry>> {
    match find_table(tables, frame, 0) {
        Some(i) => Some(tables[i].1),
        None => None,
    }
}

/// The table that entry `index` of `entries` points to: the entry must be present and not map
/// a huge page.
pub open spec fn next_table(tables: Seq<(u64, Seq<PageTableEntry>)>, entries: Seq<PageTableEntry>, index: int) -> Option<
    Seq<PageTableEntry>,
> {
    let entry = entries[index];
    if entry_flag(entry, PRESENT) && !entry_flag(entry, HUGE_PAGE) {
        table_at(tables, entry_frame(entry))
    } else {
        None
    }
}

/// The position of the table that entry `index` of the table at `position` points to: the
/// entry must be present and not map a huge page.
pub open spec fn next_position(tables: Seq<(u64, Seq<PageTableEntry>)>, position: int, index: int) -> Option<
    int,
> {
    let entry = tables[position].1[index];
    if entry_flag(entry, PRESENT) && !entry_flag(entry, HUGE_PAGE) {
        find_table(tables, entry_frame(entry), 0)
    } else {
        None
    }
}

/// Frames that new tables can be placed at: page aligned, addressable, distinct, and holding no
/// table yet. New tables take them from the end.
pub open spec fn fresh_frames(tables: Seq<(u64, Seq<PageTableEntry>)>, frames: Seq<u64>) -> bool {
    &&& forall|i: int| 0 <= i < frames.len() ==> #[trigger] frames[i] <= usize::MAX && frame_address_ok(
        frames[i] as usize,
    )
    &&& forall|i: int, j: int| 0 <= i < j < frames.len() ==> frames[i] != frames[j]
    &&& forall|i: int| 0 <= i < frames.len() ==> find_table(tables, #[trigger] frames[i], 0) is None
}

/// The bits of the entry that links in a new table at `frame`: present, writable and open to
/// user mode.
pub open spec fn link_bits(frame: u64) -> u64 {
    frame | (PRESENT | WRITABLE | USER_ACCESSIBLE)
}

/// The bits of an entry mapping `address` with `flags`, made present.
pub open spec fn mapping_bits(address: PhysicalAddress, flags: EntryFlags) -> u64 {
    address.0 as u64 | ((flags.spec_bits() | PRESENT) & ALL_FLAGS)
}

/// One step down with table creation from `a` to `b`, at entry `index` of the table at
/// `position`, arriving at the table at `next`: an entry that leads to a table is followed;
/// otherwise an empty table is added at the end and the entry is set to link it in.
pub open spec fn create_step(
    a: Seq<(u64, Seq<PageTableEntry>)>,
    b: Seq<(u64, Seq<PageTableEntry>)>,
    position: int,
    index: int,
    next: int,
) -> bool {
    &&& next_position(b, position, index) == Some(next)
    &&& 0 <= next < b.len()
    &&& match next_position(a, position, index) {
        Some(p) => next == p && b == a,
        None => {
            &&& next == a.len()
            &&& b.len() == a.len() + 1
            &&& b[next].1.len() == 512
            &&& forall|k: int| 0 <= k < 512 ==> #[trigger] b[next].1[k].spec_bits() == 0
            &&& forall|i: int| 0 <= i < a.len() && i != position ==> #[trigger] b[i] == a[i]
            &&& b[position].0 == a[position].0
            &&& b[position].1 == a[position].1.update(index, b[position].1[index])
        },
    }
}

/// The entries of a new table: all unused.
pub open spec fn empty_entries() -> Seq<PageTableEntry> {
    Seq::new(512, |k: int| PageTableEntry::from_bits(0))
}

/// One step down with table creation, as values: the tables, the position reached and the
/// frames left. An entry that leads to a table is followed; otherwise an empty table at the last
/// frame is added at the end and the entry is set to link it in.
pub open spec fn spec_create(
    tables: Seq<(u64, Seq<PageTableEntry>)>,
    position: int,
    index: int,
    frames: Seq<u64>,
) -> (Seq<(u64, Seq<PageTableEntry>)>, int, Seq<u64>) {
    match next_position(tables, position, index) {
        Some(p) => (tables, p, frames),
        None => {
            let frame = frames.last();
            let linked = tables.update(
                position,
                (
                    tables[position].0,
                    tables[position].1.update(index, PageTableEntry::from_bits(link_bits(frame))),
                ),
            );
            (linked.push((frame, empty_entries())), tables.len() as int, frames.drop_last())
        },
    }
}

/// A 4KiB mapping of `page` to `address` with `flags`, as values: the tables and the frames left
/// after the three steps down and the write of the level 1 entry.
pub open spec fn spec_map_to(
    tables: Seq<(u64, Seq<PageTableEntry>)>,
    p4_frame: u64,
    page: Page,
    address: PhysicalAddress,
    flags: EntryFlags,
    frames: Seq<u64>,
) -> (Seq<(u64, Seq<PageTableEntry>)>, Seq<u64>) {
    let t4 = find_table(tables, p4_frame, 0)->0;
    let (s1, t3, f1) = spec_create(tables, t4, p4_index(page), frames);
    let (s2, t2, f2) = spec_create(s1, t3, p3_index(page), f1);
    let (s3, t1, f3) = spec_create(s2, t2, p2_index(page), f2);
    (
        s3.update(
            t1,
            (
                s3[t1].0,
                s3[t1].1.update(p1_index(page), PageTableEntry::from_bits(mapping_bits(address, flags))),
            ),
        ),
        f3,
    )
}

/// Whether `page` can be given a 4KiB mapping in `tables`: no entry on its way to a level 1
/// table marks a huge page, unless it leads to a table.
pub open spec fn can_map_in(tables: Seq<(u64, Seq<PageTableEntry>)>, p4_frame: u64, page: Page) -> bool {
    let t4 = find_table(tables, p4_frame, 0)->0;
    match next_position(tables, t4, p4_index(page)) {
        None => !entry_flag(tables[t4].1[p4_index(page)], HUGE_PAGE),
        Some(t3) => match next_position(tables, t3, p3_index(page)) {
            None => !entry_flag(tables[t3].1[p3_index(page)], HUGE_PAGE),
            Some(t2) => next_position(tables, t2, p2_index(page)) is Some || !entry_flag(
                tables[t2].1[p2_index(page)],
                HUGE_PAGE,
            ),
        },
    }
}

/// Mapping the 4KiB pages of `pairs` one after another, each to its address (see
/// `spec_map_to`), stopping at the first whose page cannot be mapped or for which fewer than
/// three frames are left: the tables, the frames left, and where it stopped.
pub open spec fn spec_map_all(
    tables: Seq<(u64, Seq<PageTableEntry>)>,
    p4_frame: u64,
    pairs: Seq<(Page, PhysicalAddress)>,
    flags: EntryFlags,
    frames: Seq<u64>,
) -> (Seq<(u64, Seq<PageTableEntry>)>, Seq<u64>, Option<int>)
    decreases pairs.len(),
{
    if pairs.len() == 0 {
        (tables, frames, None)
    } else {
        let (mapped, left, stopped) = spec_map_all(tables, p4_frame, pairs.drop_last(), flags, frames);
        if stopped is Some {
            (mapped, left, stopped)
        } else if left.len() >= 3 && can_map_in(mapped, p4_frame, pairs.last().0) {
            let (next, rest) = spec_map_to(mapped, p4_frame, pairs.last().0, pairs.last().1, flags, left);
            (next, rest, None)
        } else {
            (mapped, left, Some(pairs.len() - 1))
        }
    }
}

/// The pages of numbers `first` to `first + count - 1`, each with the frame that `mapper` maps
/// it to (the start of a 2MiB page for a page in one).
pub open spec fn remap_pairs(mapper: Mapper, first: nat, count: nat) -> Seq<(Page, PhysicalAddress)> {
    Seq::new(
        count,
        |i: int|
            {
                let page = Page::spec_containing(((first + i) * 4096) as usize, PageSize::Kib4);
                let frame = match mapper.spec_walk(page) {
                    Some((entry, _)) => spec_entry_address(entry.spec_bits())->0,
                    None => PhysicalAddress(0),
                };
                (page, frame)
            },
    )
}

/// The pages and frames of an identity mapping: page `n` to frame `n` for `n` from `first` to
/// `last`.
pub open spec fn identity_pairs(first: nat, last: nat) -> Seq<(Page, PhysicalAddress)> {
    Seq::new(
        (last + 1 - first) as nat,
        |i: int|
            (
                Page::spec_containing(((first + i) * 4096) as usize, PageSize::Kib4),
                PhysicalAddress(((first + i) * 4096) as usize),
            ),
    )
}

/// The pages of numbers `first` to `last`, each mapped to its address less `offset`.
pub open spec fn offset_pairs(first: nat, last: nat, offset: nat) -> Seq<(Page, PhysicalAddress)> {
    Seq::new(
        (last + 1 - first) as nat,
        |i: int|
            (
                Page::spec_containing(((first + i) * 4096) as usize, PageSize::Kib4),
                PhysicalAddress(((first + i) * 4096 - offset) as usize),
            ),
    )
}

/// The pages of a page range mapping with their frames: page `first + i` to frame
/// `start_frame + i`.
pub open spec fn range_pairs(mapping: PageRangeMapping) -> Seq<(Page, PhysicalAddress)> {
    Seq::new(
        (mapping.last_page + 1 - mapping.first_page) as nat,
        |i: int|
            (
                Page::spec_containing(((mapping.first_page + i) * 4096) as usize, PageSize::Kib4),
                PhysicalAddress(((mapping.start_frame + i) * 4096) as usize),
            ),
    )
}

pub open spec fn p4_index(page: Page) -> int {
    (page.spec_number() / 0x800_0000 % 512) as int
}

pub open spec fn p3_index(page: Page) -> int {
    (page.spec_number() / 0x4_0000 % 512) as int
}

pub open spec fn p2_index(page: Page) -> int {
    (page.spec_number() / 512 % 512) as int
}

pub open spec fn p1_index(page: Page) -> int {
    (page.spec_number() % 512) as int
}

impl Mapper {
    /// The tables as values: each one's frame and entries.
    pub open spec fn view(&self) -> Seq<(u64, Seq<PageTableEntry>)> {
        Seq::new(self.tables@.len(), |i: int| (self.tables@[i].frame, self.tables@[i].entries@))
    }

    /// Every table has its 512 entries, and the top level table is there.
    pub open spec fn wf(&self) -> bool {
        &&& forall|i: int| 0 <= i < self@.len() ==> #[trigger] self@[i].1.len() == 512
        &&& table_at(self@, self.p4_frame) is Some
    }

    pub open spec fn spec_p3(&self, page: Page) -> Option<Seq<PageTableEntry>> {
        next_table(self@, table_at(self@, self.p4_frame)->0, p4_index(page))
    }

    /// The 2MiB page that the walk falls back to.
    pub open spec fn spec_huge(&self, page: Page) -> Option<(PageTableEntry, PageSize)> {
        match self.spec_p3(page) {
            None => None,
            Some(p3) => match next_table(self@, p3, p3_index(page)) {
                None => None,
                Some(p2) => {
                    let entry = p2[p2_index(page)];
                    if spec_entry_address(entry.spec_bits()) is Some && entry_flag(
                        entry,
                        PRESENT | HUGE_PAGE,
                    ) {
                        Some((entry, PageSize::Mib2))
                    } else {
                        None
                    }
                },
            },
        }
    }

    /// The entry that maps `page`: a present entry of its level 1 table as a 4KiB page, or else
    /// a present huge entry of its level 2 table as a 2MiB page.
    pub open spec fn spec_walk(&self, page: Page) -> Option<(PageTableEntry, PageSize)> {
        let p1 = match self.spec_p3(page) {
            None => None,
            Some(p3) => match next_table(self@, p3, p3_index(page)) {
                None => None,
                Some(p2) => next_table(self@, p2, p2_index(page)),
            },
        };
        match p1 {
            Some(p1) if entry_flag(p1[p1_index(page)], PRESENT) => Some(
                (p1[p1_index(page)], PageSize::Kib4),
            ),
            _ => self.spec_huge(page),
        }
    }

    /// The walk stops on what it does not support: a 1GiB page, or a 2MiB page whose frame is
    /// not 2MiB aligned.
    pub open spec fn walk_supported(&self, page: Page) -> bool {
        match self.spec_p3(page) {
            None => true,
            Some(p3) => {
                let entry = p3[p3_index(page)];
                &&& !(spec_entry_address(entry.spec_bits()) is Some && entry_flag(entry, HUGE_PAGE))
                &&& (self.spec_walk(page) matches Some((e, PageSize::Mib2)) ==> (entry_frame(e)
                    / 4096) % 512 == 0)
            },
        }
    }

    /// The positions of the tables that the walk of `page` passes through: levels 4 to 1.
    pub open spec fn spec_positions(&self, page: Page) -> Option<(int, int, int, int)> {
        match find_table(self@, self.p4_frame, 0) {
            None => None,
            Some(t4) => match next_position(self@, t4, p4_index(page)) {
                None => None,
                Some(t3) => match next_position(self@, t3, p3_index(page)) {
                    None => None,
                    Some(t2) => match next_position(self@, t2, p2_index(page)) {
                        None => None,
                        Some(t1) => Some((t4, t3, t2, t1)),
                    },
                },
            },
        }
    }

    /// Whether the level 1 entry of `page` is itself one of the entries its walk passes
    /// through, as happens where a table maps itself.
    pub open spec fn spec_p1_entry_on_path(&self, page: Page) -> bool {
        match self.spec_positions(page) {
            Some((t4, t3, t2, t1)) => (t1 == t4 && p1_index(page) == p4_index(page)) || (t1 == t3
                && p1_index(page) == p3_index(page)) || (t1 == t2 && p1_index(page) == p2_index(page)),
            None => false,
        }
    }

    /// The table position and index of the entry that maps `page`: its level 1 entry where the
    /// walk reaches a level 1 table, else its level 2 entry.
    pub open spec fn spec_mapping_slot(&self, page: Page) -> Option<(int, int)> {
        match find_table(self@, self.p4_frame, 0) {
            None => None,
            Some(t4) => match next_position(self@, t4, p4_index(page)) {
                None => None,
                Some(t3) => match next_position(self@, t3, p3_index(page)) {
                    None => None,
                    Some(t2) => match next_position(self@, t2, p2_index(page)) {
                        Some(t1) => Some((t1, p1_index(page))),
                        None => Some((t2, p2_index(page))),
                    },
                },
            },
        }
    }

    /// Whether the entry that maps `page` is itself one of the entries that lead its walk to a
    /// table.
    pub open spec fn spec_mapping_slot_on_path(&self, page: Page) -> bool {
        match find_table(self@, self.p4_frame, 0) {
            None => false,
            Some(t4) => match next_position(self@, t4, p4_index(page)) {
                None => false,
                Some(t3) => match next_position(self@, t3, p3_index(page)) {
                    None => false,
                    Some(t2) => {
                        let slot = self.spec_mapping_slot(page)->0;
                        slot == (t4, p4_index(page)) || slot == (t3, p3_index(page)) || (
                        next_position(self@, t2, p2_index(page)) is Some && slot == (t2, p2_index(page)))
                    },
                },
            },
        }
    }

    /// Whether `page` can be given a 4KiB mapping: no entry on its way to a level 1 table marks
    /// a huge page, unless it leads to a table.
    pub open spec fn spec_can_map(&self, page: Page) -> bool {
        can_map_in(self@, self.p4_frame, page)
    }

    /// The position of the table at `frame`.
    pub fn lookup(&self, frame: u64) -> (position: Option<usize>)
        ensures
            position matches Some(i) ==> find_table(self@, frame, 0) == Some(i as int),
            position is None ==> find_table(self@, frame, 0) is None,
    {
        let mut i: usize = 0;
        while i < self.tables.len()
            invariant
                i <= self.tables@.len(),
                find_table(self@, frame, 0) == find_table(self@, frame, i as int),
            decreases self.tables@.len() - i,
        {
            if self.tables[i].frame == frame {
                return Some(i);
            }
            i = i + 1;
        }
        None
    }

    /// The position of the table that entry `index` of the table at `position` points to.
    fn next_table(&self, position: usize, index: usize) -> (next: Option<usize>)
        requires
            self.wf(),
            position < self@.len(),
            index < 512,
        ensures
            next matches Some(i) ==> i < self@.len() && next_table(
                self@,
                self@[position as int].1,
                index as int,
            ) == Some(self@[i as int].1),
            next is None ==> next_table(self@, self@[position as int].1, index as int) is None,
            next matches Some(i) ==> next_position(self@, position as int, index as int) == Some(i as int),
            next is None ==> next_position(self@, position as int, index as int) is None,
    {
        let entry = self.tables[position].entries[index];
        let flags = entry.flags();
        if flags.contains(PRESENT) && !flags.contains(HUGE_PAGE) {
            match entry.physical_address() {
                Some(address) => {
                    proof {
                        lemma_find_table_bound(self@, address.0 as u64, 0);
                    }
                    self.lookup(address.0 as u64)
                },
                None => {
                    proof {
                        lemma_present_bits(entry.spec_bits());
                    }
                    None
                },
            }
        } else {
            None
        }
    }

    /// The position of the table that entry `index` of the table at `position` points to,
    /// first linking in a new empty table at the last of `frames` when there is none. An entry
    /// marked huge gets no table: the result is then `None`, with nothing changed. Only a table
    /// whose level `can_be_huge` may hold such an entry.
    fn next_table_create(&mut self, position: usize, index: usize, frames: &mut Vec<u64>, can_be_huge: bool) -> (next:
        Option<usize>)
        requires
            old(self).wf(),
            position < old(self)@.len(),
            index < 512,
            next_position(old(self)@, position as int, index as int) is None ==> (if entry_flag(
                old(self)@[position as int].1[index as int],
                HUGE_PAGE,
            ) {
                can_be_huge
            } else {
                old(frames)@.len() > 0
            }),
            fresh_frames(old(self)@, old(frames)@),
        ensures
            final(self).wf(),
            final(self).p4_frame == old(self).p4_frame,
            fresh_frames(final(self)@, final(frames)@),
            next is None <==> (next_position(old(self)@, position as int, index as int) is None && entry_flag(
                old(self)@[position as int].1[index as int],
                HUGE_PAGE,
            )),
            next is None ==> final(self)@ == old(self)@ && final(frames)@ == old(frames)@,
            next matches Some(next) ==> {
                &&& next_position(final(self)@, position as int, index as int) == Some(next as int)
                &&& next < final(self)@.len()
                &&& (final(self)@, next as int, final(frames)@) == spec_create(
                    old(self)@,
                    position as int,
                    index as int,
                    old(frames)@,
                )
                &&& match next_position(old(self)@, position as int, index as int) {
                    Some(p) => next == p && final(self)@ == old(self)@ && final(frames)@ == old(frames)@,
                    None => {
                        let frame = old(frames)@.last();
                        &&& final(frames)@ == old(frames)@.drop_last()
                        &&& next == old(self)@.len()
                        &&& final(self)@.len() == old(self)@.len() + 1
                        &&& final(self)@[next as int].0 == frame
                        &&& final(self)@[next as int].1.len() == 512
                        &&& forall|k: int| 0 <= k < 512 ==> #[trigger] final(self)@[next as int].1[k].spec_bits() == 0
                        &&& forall|i: int| 0 <= i < old(self)@.len() && i != position ==> #[trigger] final(self)@[i] == old(self)@[i]
                        &&& final(self)@[position as int].0 == old(self)@[position as int].0
                        &&& final(self)@[position as int].1 == old(self)@[position as int].1.update(
                            index as int,
                            final(self)@[position as int].1[index as int],
                        )
                        &&& final(self)@[position as int].1[index as int].spec_bits() == link_bits(frame)
                    },
                }
            },
    {
        match self.next_table(position, index) {
            Some(next) => Some(next),
            None => {
                if self.tables[position].entries[index].flags().contains(HUGE_PAGE) {
                    return None;
                }
                let ghost before = self@;
                let frame = frames.pop().unwrap();
                proof {
                    assert(old(frames)@[old(frames)@.len() - 1] == frame);
                    let a = frame as usize;
                    assert(a as u64 == frame);
                    lemma_link_bits(frame);
                }
                let mut link = PageTableEntry::new();
                link.set(
                    PhysicalAddress(frame as usize),
                    EntryFlags::from_bits_truncate(PRESENT | WRITABLE | USER_ACCESSIBLE),
                );
                proof {
                    let f = frame;
                    assert(frame_address_ok(f as usize));
                    assert((f as usize) as u64 == f);
                    assert(link.spec_bits() == f | ((PRESENT | WRITABLE | USER_ACCESSIBLE) & ALL_FLAGS));
                }
                self.tables[position].entries.set(index, link);
                let mut entries: Vec<PageTableEntry> = Vec::new();
                while entries.len() < PAGE_TABLE_ENTRIES
                    invariant
                        entries@.len() <= 512,
                        forall|k: int| 0 <= k < entries@.len() ==> #[trigger] entries@[k].spec_bits() == 0,
                    decreases 512 - entries@.len(),
                {
                    entries.push(PageTableEntry::new());
                }
                self.tables.push(FrameTable { frame, entries });
                let next = self.tables.len() - 1;
                let ghost after = self@;
                proof {
                    assert(after.len() == before.len() + 1);
                    assert forall|i: int| 0 <= i < before.len() implies #[trigger] before[i].0 == after[i].0 by {}
                    // The new table is found at its frame.
                    lemma_find_table_push(before, after, frame, 0);
                    assert(find_table(before, frame, 0) is None);
                    assert(find_table(after, frame, 0) == Some(next as int));
                    let b = link_bits(frame);
                    assert(((b & ADDRESS_MASK) as usize) as u64 == frame);
                    assert forall|i: int| 0 <= i < after.len() implies #[trigger] after[i].1.len() == 512 by {
                        if i < before.len() {
                            assert(before[i].1.len() == 512);
                        }
                    }
                    assert(entry_frame(after[position as int].1[index as int]) == frame);
                    // The tables as the step describes them.
                    let spec = spec_create(before, position as int, index as int, old(frames)@);
                    PageTableEntry::lemma_from_bits(link, link_bits(frame));
                    assert(after[position as int].1 =~= spec.0[position as int].1);
                    assert forall|k: int| 0 <= k < 512 implies #[trigger] after[next as int].1[k]
                        == empty_entries()[k] by {
                        PageTableEntry::lemma_from_bits(after[next as int].1[k], 0);
                    }
                    assert(after[next as int].1 =~= empty_entries());
                    assert(after =~= spec.0);
                    assert(frames@ =~= old(frames)@.drop_last());
                    // The top level table is still found.
                    lemma_find_table_push(before, after, self.p4_frame, 0);
                    // The remaining frames are still fresh.
                    assert forall|i: int| 0 <= i < frames@.len() implies find_table(after, #[trigger] frames@[i], 0) is None by {
                        assert(frames@[i] == old(frames)@[i]);
                        lemma_find_table_push(before, after, frames@[i], 0);
                    }
                }
                Some(next)
            },
        }
    }

    /// Whether `page` can be given a 4KiB mapping (see `spec_can_map`).
    pub fn can_map(&self, page: &Page) -> (can: bool)
        requires
            self.wf(),
        ensures
            can == self.spec_can_map(*page),
    {
        let t4 = self.lookup(self.p4_frame).unwrap();
        proof {
            lemma_find_table_bound(self@, self.p4_frame, 0);
        }
        match self.next_table(t4, page.p4_index()) {
            None => !self.tables[t4].entries[page.p4_index()].flags().contains(HUGE_PAGE),
            Some(t3) => match self.next_table(t3, page.p3_index()) {
                None => !self.tables[t3].entries[page.p3_index()].flags().contains(HUGE_PAGE),
                Some(t2) => self.next_table(t2, page.p2_index()).is_some()
                    || !self.tables[t2].entries[page.p2_index()].flags().contains(HUGE_PAGE),
            },
        }
    }

    /// Maps the 4KiB `page` to the frame at `physical_address` with `flags` (made present),
    /// linking in new tables at frames taken from the end of `frames` where the way down has
    /// none. The walk of `page` then gives the new entry, unless that entry is itself on the
    /// walk's way down.
    pub fn map_to(
        &mut self,
        page: &Page,
        physical_address: PhysicalAddress,
        flags: EntryFlags,
        frames: &mut Vec<u64>,
    )
        requires
            old(self).wf(),
            page.spec_size() == Some(PageSize::Kib4),
            old(self).spec_can_map(*page),
            fresh_frames(old(self)@, old(frames)@),
            old(frames)@.len() >= 3,
            physical_address.0 % 4096 == 0,
        ensures
            final(self).wf(),
            final(self).p4_frame == old(self).p4_frame,
            fresh_frames(final(self)@, final(frames)@),
            final(frames)@.len() + 3 >= old(frames)@.len(),
            final(frames)@ == old(frames)@.subrange(0, final(frames)@.len() as int),
            (final(self)@, final(frames)@) == spec_map_to(
                old(self)@,
                old(self).p4_frame,
                *page,
                physical_address,
                flags,
                old(frames)@,
            ),
            old(self)@.len() <= final(self)@.len(),
            forall|i: int| 0 <= i < old(self)@.len() ==> #[trigger] final(self)@[i].0 == old(self)@[i].0,
            !old(self).spec_p1_entry_on_path(*page) ==> (final(self).spec_walk(*page) matches Some(
                (e, size),
            ) && size == PageSize::Kib4 && e.spec_bits() == mapping_bits(physical_address, flags)),
    {
        let ghost s0 = self@;
        let ghost f0 = frames@;
        let i4 = page.p4_index();
        let i3 = page.p3_index();
        let i2 = page.p2_index();
        let i1 = page.p1_index();
        let t4 = self.lookup(self.p4_frame).unwrap();
        proof {
            lemma_find_table_bound(self@, self.p4_frame, 0);
        }
        let t3 = self.next_table_create(t4, i4, frames, false).unwrap();
        let ghost s1 = self@;
        proof {
            lemma_zero_entry();
            if next_position(s0, t4 as int, i4 as int) is None {
                assert(s1[t3 as int].1[i3 as int].spec_bits() == 0);
            }
        }
        let t2 = self.next_table_create(t3, i3, frames, true).unwrap();
        let ghost s2 = self@;
        proof {
            if next_position(s1, t3 as int, i3 as int) is None {
                assert(s2[t2 as int].1[i2 as int].spec_bits() == 0);
            } else if next_position(s0, t4 as int, i4 as int) is None {
                assert(s1[t3 as int].1[i3 as int].spec_bits() == 0);
            }
        }
        let t1 = self.next_table_create(t2, i2, frames, true).unwrap();
        let ghost s3 = self@;
        assert(s3[t1 as int].1.len() == 512);
        let mut entry = PageTableEntry::new();
        entry.set(physical_address, flags.union(PRESENT));
        self.tables[t1].entries.set(i1, entry);
        let ghost s4 = self@;
        proof {
            assert(s4 == s3.update(t1 as int, (s3[t1 as int].0, s3[t1 as int].1.update(i1 as int, entry))));
            assert forall|i: int| 0 <= i < s4.len() implies #[trigger] s4[i].1.len() == 512 by {
                assert(s3[i].1.len() == 512);
            }
            assert forall|i: int| 0 <= i < s3.len() implies #[trigger] s3[i].0 == s4[i].0 by {}
            lemma_find_table_same_frames(s3, s4, self.p4_frame, 0);
            assert forall|i: int| 0 <= i < frames@.len() implies find_table(s4, #[trigger] frames@[i], 0) is None by {
                lemma_find_table_same_frames(s3, s4, frames@[i], 0);
            }
            let a = physical_address.0 as u64;
            let fb = flags.spec_bits();
            assert(((a | ((fb | PRESENT) & ALL_FLAGS)) & ALL_FLAGS) & PRESENT == PRESENT) by (bit_vector);
            assert(entry.spec_bits() == mapping_bits(physical_address, flags));
            PageTableEntry::lemma_from_bits(entry, mapping_bits(physical_address, flags));
            assert(create_step(s0, s1, t4 as int, i4 as int, t3 as int));
            assert(create_step(s1, s2, t3 as int, i3 as int, t2 as int));
            assert(create_step(s2, s3, t2 as int, i2 as int, t1 as int));
            lemma_step_frames(s0, s1, t4 as int, i4 as int, t3 as int);
            lemma_step_frames(s1, s2, t3 as int, i3 as int, t2 as int);
            lemma_step_frames(s2, s3, t2 as int, i2 as int, t1 as int);
            if !old(self).spec_p1_entry_on_path(*page) {
                lemma_map_to_walk(
                    s0, s1, s2, s3, s4, self.p4_frame,
                    i4 as int, i3 as int, i2 as int, i1 as int,
                    t4 as int, t3 as int, t2 as int, t1 as int, entry,
                );
            }
        }
    }

    /// Maps the 4KiB `page` to a frame of its own, taken from `allocator`, linking in tables
    /// from `frames` as `map_to` does, and returns the frame. The frame is not cleared here: the
    /// caller zeroes the page through its new mapping. Where no tree of the allocator has a free
    /// frame, nothing changes and the result is `None`.
    pub fn map(
        &mut self,
        page: &Page,
        flags: EntryFlags,
        allocator: &mut PhysicalAllocator,
        frames: &mut Vec<u64>,
    ) -> (frame: Option<PhysicalAddress>)
        requires
            old(self).wf(),
            page.spec_size() == Some(PageSize::Kib4),
            old(self).spec_can_map(*page),
            fresh_frames(old(self)@, old(frames)@),
            old(frames)@.len() >= 3,
            old(allocator).wf(),
            old(allocator).initialized(),
        ensures
            final(allocator).wf(),
            final(allocator).initialized(),
            final(self).wf(),
            final(self).p4_frame == old(self).p4_frame,
            fresh_frames(final(self)@, final(frames)@),
            frame is None ==> {
                &&& final(self)@ == old(self)@
                &&& final(frames)@ == old(frames)@
                &&& final(allocator)@ == old(allocator)@
                &&& forall|j: int|
                    0 <= j < TREE_COUNT ==> !slot_can_allocate(#[trigger] old(allocator)@[j], 0)
            },
            frame matches Some(address) ==> {
                &&& allocated_from(old(allocator)@, final(allocator)@, 0, address.0)
                &&& address.0 % 4096 == 0
                &&& (final(self)@, final(frames)@) == spec_map_to(
                    old(self)@,
                    old(self).p4_frame,
                    *page,
                    address,
                    flags,
                    old(frames)@,
                )
                &&& !old(self).spec_p1_entry_on_path(*page) ==> (final(self).spec_walk(*page) matches Some(
                    (e, size),
                ) && size == PageSize::Kib4 && e.spec_bits() == mapping_bits(address, flags))
            },
    {
        match allocator.allocate(0) {
            Some(address) => {
                let frame = PhysicalAddress(address);
                self.map_to(page, frame, flags, frames);
                Some(frame)
            },
            None => None,
        }
    }

    /// Maps the 4KiB pages of `pairs` one after another, each to its address, with `flags`
    /// (see `map_to`); stops with the position of the first pair whose page cannot be mapped
    /// or for which fewer than three frames are left.
    pub fn map_all(&mut self, pairs: &Vec<(Page, PhysicalAddress)>, flags: EntryFlags, frames: &mut Vec<u64>) -> (result:
        Result<(), usize>)
        requires
            old(self).wf(),
            fresh_frames(old(self)@, old(frames)@),
            forall|k: int|
                0 <= k < pairs@.len() ==> (#[trigger] pairs@[k]).0.spec_size() == Some(PageSize::Kib4)
                    && pairs@[k].1.0 % 4096 == 0,
        ensures
            final(self).wf(),
            final(self).p4_frame == old(self).p4_frame,
            fresh_frames(final(self)@, final(frames)@),
            old(self)@.len() <= final(self)@.len(),
            forall|i: int| 0 <= i < old(self)@.len() ==> #[trigger] final(self)@[i].0 == old(self)@[i].0,
            ({
                let (mapped, left, stopped) = spec_map_all(old(self)@, old(self).p4_frame, pairs@, flags, old(frames)@);
                &&& final(self)@ == mapped
                &&& final(frames)@ == left
                &&& result == (match stopped {
                    None => Ok::<(), usize>(()),
                    Some(k) => Err(k as usize),
                })
            }),
    {
        let mut i: usize = 0;
        while i < pairs.len()
            invariant
                self.wf(),
                self.p4_frame == old(self).p4_frame,
                fresh_frames(self@, frames@),
                i <= pairs@.len(),
                old(self)@.len() <= self@.len(),
                forall|k: int| 0 <= k < old(self)@.len() ==> #[trigger] self@[k].0 == old(self)@[k].0,
                forall|k: int|
                    0 <= k < pairs@.len() ==> (#[trigger] pairs@[k]).0.spec_size() == Some(PageSize::Kib4)
                        && pairs@[k].1.0 % 4096 == 0,
                (self@, frames@, None::<int>) == spec_map_all(
                    old(self)@,
                    old(self).p4_frame,
                    pairs@.take(i as int),
                    flags,
                    old(frames)@,
                ),
            decreases pairs@.len() - i,
        {
            proof {
                assert(pairs@.take(i + 1).drop_last() =~= pairs@.take(i as int));
            }
            let (page, address) = pairs[i];
            if frames.len() < 3 || !self.can_map(&page) {
                proof {
                    lemma_map_all_stop(old(self)@, old(self).p4_frame, pairs@, flags, old(frames)@, (i + 1) as nat);
                }
                return Err(i);
            }
            self.map_to(&page, address, flags, frames);
            i = i + 1;
        }
        proof {
            assert(pairs@.take(i as int) =~= pairs@);
        }
        Ok(())
    }

    /// Identity maps the 4KiB pages of the addresses from `start` to `end` (both included),
    /// with `flags` (see `map_all`).
    pub fn id_map_range(&mut self, start: usize, end: usize, flags: EntryFlags, frames: &mut Vec<u64>) -> (result:
        Result<(), usize>)
        requires
            old(self).wf(),
            fresh_frames(old(self)@, old(frames)@),
        ensures
            final(self).wf(),
            final(self).p4_frame == old(self).p4_frame,
            fresh_frames(final(self)@, final(frames)@),
            ({
                let pairs = if start / 4096 <= end / 4096 {
                    identity_pairs((start / 4096) as nat, (end / 4096) as nat)
                } else {
                    Seq::empty()
                };
                let (mapped, left, stopped) = spec_map_all(old(self)@, old(self).p4_frame, pairs, flags, old(frames)@);
                &&& final(self)@ == mapped
                &&& final(frames)@ == left
                &&& result == (match stopped {
                    None => Ok::<(), usize>(()),
                    Some(k) => Err(k as usize),
                })
            }),
    {
        let first = start / 4096;
        let last = end / 4096;
        let mut pairs: Vec<(Page, PhysicalAddress)> = Vec::new();
        if first <= last {
            let count = last - first + 1;
            let mut i: usize = 0;
            while i < count
                invariant
                    first <= last,
                    last == end / 4096,
                    count == last - first + 1,
                    i <= count,
                    pairs@ == identity_pairs(first as nat, last as nat).take(i as int),
                    forall|k: int|
                        0 <= k < pairs@.len() ==> (#[trigger] pairs@[k]).0.spec_size() == Some(PageSize::Kib4)
                            && pairs@[k].1.0 % 4096 == 0,
                decreases count - i,
            {
                let address = (first + i) * 4096;
                assert(address % 4096 == 0) by (nonlinear_arith)
                    requires
                        address == (first + i) * 4096,
                ;
                pairs.push((Page::containing_address(address, PageSize::Kib4), PhysicalAddress(address)));
                assert(pairs@ =~= identity_pairs(first as nat, last as nat).take(i + 1));
                i = i + 1;
            }
            assert(pairs@ =~= identity_pairs(first as nat, last as nat));
        }
        assert(forall|k: int| 0 <= k < pairs@.len() ==> (#[trigger] pairs@[k]).0.spec_size() == Some(PageSize::Kib4)
            && pairs@[k].1.0 % 4096 == 0);
        self.map_all(&pairs, flags, frames)
    }

    /// Maps the 4KiB pages of the addresses from `start` to `end`, and the page after, each to
    /// its address less `offset` (the start of the higher half), with `flags` (see `map_all`).
    pub fn higher_half_map_range(
        &mut self,
        start: usize,
        end: usize,
        offset: usize,
        flags: EntryFlags,
        frames: &mut Vec<u64>,
    ) -> (result: Result<(), usize>)
        requires
            old(self).wf(),
            fresh_frames(old(self)@, old(frames)@),
            (end + 4095) / 4096 * 4096 <= usize::MAX,
            start / 4096 <= (end + 4095) / 4096 ==> start / 4096 * 4096 >= offset && offset % 4096 == 0,
        ensures
            final(self).wf(),
            final(self).p4_frame == old(self).p4_frame,
            fresh_frames(final(self)@, final(frames)@),
            ({
                let first = (start / 4096) as nat;
                let last = ((end + 4095) / 4096) as nat;
                let pairs = if first <= last {
                    offset_pairs(first, last, offset as nat)
                } else {
                    Seq::empty()
                };
                let (mapped, left, stopped) = spec_map_all(old(self)@, old(self).p4_frame, pairs, flags, old(frames)@);
                &&& final(self)@ == mapped
                &&& final(frames)@ == left
                &&& result == (match stopped {
                    None => Ok::<(), usize>(()),
                    Some(k) => Err(k as usize),
                })
            }),
    {
        let first = start / 4096;
        let last = round_up_divide(end as u64, 4096) as usize;
        let mut pairs: Vec<(Page, PhysicalAddress)> = Vec::new();
        if first <= last {
            let count = last - first + 1;
            let mut i: usize = 0;
            while i < count
                invariant
                    first <= last,
                    first * 4096 >= offset,
                    offset % 4096 == 0,
                    last * 4096 <= usize::MAX,
                    count == last - first + 1,
                    i <= count,
                    pairs@ == offset_pairs(first as nat, last as nat, offset as nat).take(i as int),
                    forall|k: int|
                        0 <= k < pairs@.len() ==> (#[trigger] pairs@[k]).0.spec_size() == Some(PageSize::Kib4)
                            && pairs@[k].1.0 % 4096 == 0,
                decreases count - i,
            {
                let address = (first + i) * 4096;
                let frame = address - offset;
                assert(frame % 4096 == 0) by (nonlinear_arith)
                    requires
                        address == (first + i) * 4096,
                        frame == address - offset,
                        offset % 4096 == 0,
                        address >= offset,
                ;
                pairs.push((Page::containing_address(address, PageSize::Kib4), PhysicalAddress(frame)));
                assert(pairs@ =~= offset_pairs(first as nat, last as nat, offset as nat).take(i + 1));
                i = i + 1;
            }
            assert(pairs@ =~= offset_pairs(first as nat, last as nat, offset as nat));
        }
        self.map_all(&pairs, flags, frames)
    }

    /// Maps the pages of `mapping`, page `first + i` to frame `start_frame + i`, with `flags`
    /// (see `map_all`).
    pub fn map_page_range(&mut self, mapping: PageRangeMapping, flags: EntryFlags, frames: &mut Vec<u64>) -> (result:
        Result<(), usize>)
        requires
            old(self).wf(),
            fresh_frames(old(self)@, old(frames)@),
            mapping.first_page <= mapping.last_page,
            mapping.last_page * 4096 <= usize::MAX,
            (mapping.start_frame + mapping.last_page - mapping.first_page + 1) * 4096 <= usize::MAX,
        ensures
            final(self).wf(),
            final(self).p4_frame == old(self).p4_frame,
            fresh_frames(final(self)@, final(frames)@),
            ({
                let (mapped, left, stopped) = spec_map_all(
                    old(self)@,
                    old(self).p4_frame,
                    range_pairs(mapping),
                    flags,
                    old(frames)@,
                );
                &&& final(self)@ == mapped
                &&& final(frames)@ == left
                &&& result == (match stopped {
                    None => Ok::<(), usize>(()),
                    Some(k) => Err(k as usize),
                })
            }),
    {
        let count = mapping.last_page - mapping.first_page + 1;
        let mut pairs: Vec<(Page, PhysicalAddress)> = Vec::new();
        let mut i: usize = 0;
        while i < count
            invariant
                mapping.first_page <= mapping.last_page,
                mapping.last_page * 4096 <= usize::MAX,
                (mapping.start_frame + mapping.last_page - mapping.first_page + 1) * 4096 <= usize::MAX,
                count == mapping.last_page - mapping.first_page + 1,
                i <= count,
                pairs@ == range_pairs(mapping).take(i as int),
                forall|k: int|
                    0 <= k < pairs@.len() ==> (#[trigger] pairs@[k]).0.spec_size() == Some(PageSize::Kib4)
                        && pairs@[k].1.0 % 4096 == 0,
            decreases count - i,
        {
            let virtual_address = (mapping.first_page + i) * 4096;
            let physical_address = (mapping.start_frame + i) * 4096;
            assert(physical_address % 4096 == 0) by (nonlinear_arith)
                requires
                    physical_address == (mapping.start_frame + i) * 4096,
            ;
            pairs.push(
                (Page::containing_address(virtual_address, PageSize::Kib4), PhysicalAddress(physical_address)),
            );
            assert(pairs@ =~= range_pairs(mapping).take(i + 1));
            i = i + 1;
        }
        assert(pairs@ =~= range_pairs(mapping));
        self.map_all(&pairs, flags, frames)
    }

    /// Makes the hierarchy of `new_table` the active one and gives back the one that was.
    pub fn switch(&mut self, new_table: InactivePageMap) -> (old_table: InactivePageMap)
        requires
            old(self).wf(),
            table_at(old(self)@, new_table.p4_frame) is Some,
        ensures
            final(self).wf(),
            old_table.p4_frame == old(self).p4_frame,
            final(self).p4_frame == new_table.p4_frame,
            final(self)@ == old(self)@,
    {
        let old_table = InactivePageMap { p4_frame: self.p4_frame };
        self.p4_frame = new_table.p4_frame;
        old_table
    }

    /// Maps the 4KiB pages `first` to `last` in the hierarchy of `new_table` to the frames
    /// they map to in the active one, with `flags` (see `map_all`). The active hierarchy stays
    /// active.
    pub fn remap_range(
        &mut self,
        new_table: &InactivePageMap,
        first: usize,
        last: usize,
        flags: EntryFlags,
        frames: &mut Vec<u64>,
    ) -> (result: Result<(), usize>)
        requires
            old(self).wf(),
            table_at(old(self)@, new_table.p4_frame) is Some,
            fresh_frames(old(self)@, old(frames)@),
            first <= last,
            last * 4096 <= usize::MAX,
            forall|i: int|
                0 <= i <= last - first ==> {
                    let page = #[trigger] Page::spec_containing(((first + i) * 4096) as usize, PageSize::Kib4);
                    &&& old(self).walk_supported(page)
                    &&& old(self).spec_walk(page) is Some
                },
        ensures
            final(self).wf(),
            final(self).p4_frame == old(self).p4_frame,
            fresh_frames(final(self)@, final(frames)@),
            ({
                let pairs = remap_pairs(*old(self), first as nat, (last - first + 1) as nat);
                let (mapped, left, stopped) = spec_map_all(old(self)@, new_table.p4_frame, pairs, flags, old(frames)@);
                &&& final(self)@ == mapped
                &&& final(frames)@ == left
                &&& result == (match stopped {
                    None => Ok::<(), usize>(()),
                    Some(k) => Err(k as usize),
                })
            }),
    {
        let count = last - first + 1;
        let mut pairs: Vec<(Page, PhysicalAddress)> = Vec::new();
        let mut i: usize = 0;
        while i < count
            invariant
                self.wf(),
                *self == *old(self),
                first <= last,
                last * 4096 <= usize::MAX,
                count == last - first + 1,
                i <= count,
                forall|k: int|
                    0 <= k <= last - first ==> {
                        let page = #[trigger] Page::spec_containing(((first + k) * 4096) as usize, PageSize::Kib4);
                        &&& self.walk_supported(page)
                        &&& self.spec_walk(page) is Some
                    },
                pairs@ == remap_pairs(*old(self), first as nat, count as nat).take(i as int),
                forall|k: int|
                    0 <= k < pairs@.len() ==> (#[trigger] pairs@[k]).0.spec_size() == Some(PageSize::Kib4)
                        && pairs@[k].1.0 % 4096 == 0,
            decreases count - i,
        {
            let page = Page::containing_address((first + i) * 4096, PageSize::Kib4);
            assert(page == Page::spec_containing(((first + i as int) * 4096) as usize, PageSize::Kib4));
            let (entry, _) = self.walk_page_table(&page).unwrap();
            proof {
                lemma_present_bits(entry.spec_bits());
            }
            let frame = entry.physical_address().unwrap();
            pairs.push((page, frame));
            assert(pairs@ =~= remap_pairs(*old(self), first as nat, count as nat).take(i + 1));
            i = i + 1;
        }
        assert(pairs@ =~= remap_pairs(*old(self), first as nat, count as nat));
        let active = self.p4_frame;
        self.p4_frame = new_table.p4_frame;
        let result = self.map_all(&pairs, flags, frames);
        self.p4_frame = active;
        proof {
            lemma_find_table_keep(old(self)@, self@, active, 0);
        }
        result
    }

    /// Removes the mapping of `page`: the entry that maps it becomes unused. Where
    /// `free_physical_memory` is set, gives back the frame it mapped and the order of its size
    /// (0 for 4KiB, 9 for 2MiB) for the caller to free. The walk of `page` then gives nothing,
    /// unless that entry was itself on the walk's way down.
    pub fn unmap(&mut self, page: &Page, free_physical_memory: bool) -> (freed: Option<(PhysicalAddress, u8)>)
        requires
            old(self).wf(),
            page.spec_size() is Some,
            old(self).walk_supported(*page),
            old(self).spec_walk(*page) is Some,
        ensures
            final(self).wf(),
            final(self).p4_frame == old(self).p4_frame,
            match old(self).spec_walk(*page) {
                Some((e, size)) => freed == (if free_physical_memory {
                    Some(
                        (
                            spec_entry_address(e.spec_bits())->0,
                            if size == PageSize::Kib4 {
                                0u8
                            } else {
                                9u8
                            },
                        ),
                    )
                } else {
                    None
                }),
                None => false,
            },
            old(self).spec_mapping_slot(*page) matches Some((t, k)) && final(self)@ == old(self)@.update(
                t,
                (old(self)@[t].0, old(self)@[t].1.update(k, final(self)@[t].1[k])),
            ) && final(self)@[t].1[k].spec_bits() == 0,
            !old(self).spec_mapping_slot_on_path(*page) ==> final(self).spec_walk(*page) is None,
    {
        let ghost s0 = self@;
        let i4 = page.p4_index();
        let i3 = page.p3_index();
        let i2 = page.p2_index();
        let i1 = page.p1_index();
        let t4 = self.lookup(self.p4_frame).unwrap();
        proof {
            lemma_find_table_bound(self@, self.p4_frame, 0);
        }
        let t3 = self.next_table(t4, i4).unwrap();
        let t2 = self.next_table(t3, i3).unwrap();
        let (t, k, order) = match self.next_table(t2, i2) {
            Some(t1) => (t1, i1, 0u8),
            None => (t2, i2, 9u8),
        };
        assert(self@[t as int].1.len() == 512);
        let entry = self.tables[t].entries[k];
        proof {
            assert(self.spec_p3(*page) == Some(s0[t3 as int].1));
            assert(next_table(s0, s0[t3 as int].1, i3 as int) == Some(s0[t2 as int].1));
            let b = entry.spec_bits();
            let b2 = s0[t2 as int].1[i2 as int].spec_bits();
            assert((b2 & ALL_FLAGS & HUGE_PAGE != HUGE_PAGE ==> b2 & ALL_FLAGS & (PRESENT | HUGE_PAGE)
                != PRESENT | HUGE_PAGE) && (b & ALL_FLAGS & (PRESENT | HUGE_PAGE) == PRESENT | HUGE_PAGE
                ==> b & PRESENT == PRESENT) && (b & ALL_FLAGS & PRESENT == PRESENT ==> b & PRESENT
                == PRESENT)) by (bit_vector);
        }
        let frame = entry.physical_address().unwrap();
        self.tables[t].entries.set(k, PageTableEntry::new());
        let ghost s1 = self@;
        proof {
            assert(s1 == s0.update(t as int, (s0[t as int].0, s0[t as int].1.update(k as int, s1[t as int].1[k as int]))));
            assert forall|i: int| 0 <= i < s1.len() implies #[trigger] s1[i].1.len() == 512 by {
                assert(s0[i].1.len() == 512);
            }
            assert forall|i: int| 0 <= i < s0.len() implies #[trigger] s0[i].0 == s1[i].0 by {}
            lemma_find_table_same_frames(s0, s1, self.p4_frame, 0);
            if !old(self).spec_mapping_slot_on_path(*page) {
                lemma_zero_entry();
                let e4 = s0[t4 as int].1[i4 as int];
                let e3 = s0[t3 as int].1[i3 as int];
                lemma_find_table_same_frames(s0, s1, entry_frame(e4), 0);
                lemma_find_table_same_frames(s0, s1, entry_frame(e3), 0);
                assert(next_position(s1, t4 as int, i4 as int) == Some(t3 as int));
                assert(next_position(s1, t3 as int, i3 as int) == Some(t2 as int));
                assert(self.spec_p3(*page) == Some(s1[t3 as int].1));
                assert(next_table(s1, s1[t3 as int].1, i3 as int) == Some(s1[t2 as int].1));
                if order == 0 {
                    let e2 = s0[t2 as int].1[i2 as int];
                    lemma_find_table_same_frames(s0, s1, entry_frame(e2), 0);
                    assert(next_position(s1, t2 as int, i2 as int) == Some(t as int));
                    assert(next_table(s1, s1[t2 as int].1, i2 as int) == Some(s1[t as int].1));
                    assert(s1[t2 as int].1[i2 as int] == e2);
                    assert(!entry_flag(s1[t as int].1[k as int], PRESENT));
                    assert(self.spec_huge(*page) is None);
                } else {
                    assert(next_position(s1, t2 as int, i2 as int) is None);
                    assert(next_table(s1, s1[t2 as int].1, i2 as int) is None);
                    assert(s1[t2 as int].1[i2 as int].spec_bits() == 0);
                    assert(spec_entry_address(0u64) is None);
                    assert(self.spec_huge(*page) is None);
                }
            }
        }
        if free_physical_memory {
            Some((frame, order))
        } else {
            None
        }
    }

    /// Walks the page tables and finds the entry that maps `page`, with the size of page it
    /// maps.
    pub fn walk_page_table(&self, page: &Page) -> (mapping: Option<(PageTableEntry, PageSize)>)
        requires
            self.wf(),
            self.walk_supported(*page),
        ensures
            mapping == self.spec_walk(*page),
    {
        let p4 = self.lookup(self.p4_frame).unwrap();
        proof {
            lemma_find_table_bound(self@, self.p4_frame, 0);
        }
        let p3 = match self.next_table(p4, page.p4_index()) {
            Some(p3) => p3,
            None => {
                return None;
            },
        };
        let p2 = self.next_table(p3, page.p3_index());
        let p1 = match p2 {
            Some(p2) => self.next_table(p2, page.p2_index()),
            None => None,
        };
        match p1 {
            Some(p1) => {
                let entry = self.tables[p1].entries[page.p1_index()];
                if entry.flags().contains(PRESENT) {
                    return Some((entry, PageSize::Kib4));
                }
            },
            None => {},
        }
        match p2 {
            None => None,
            Some(p2) => {
                let entry = self.tables[p2].entries[page.p2_index()];
                if entry.physical_address().is_some() && entry.flags().contains(PRESENT | HUGE_PAGE) {
                    Some((entry, PageSize::Mib2))
                } else {
                    None
                }
            },
        }
    }
}

/// The entries of a new top level table at `frame`: all unused but entry 510, which points at
/// the table itself (present, writable, not executable), the entry through which a hierarchy
/// reaches its own tables.
pub open spec fn recursive_table(frame: u64) -> Seq<PageTableEntry> {
    empty_entries().update(510, PageTableEntry::from_bits(frame | ((PRESENT | WRITABLE | NO_EXECUTE) & ALL_FLAGS)))
}

impl InactivePageMap {
    /// A new hierarchy whose top level table is at `frame` (see `recursive_table`); a table
    /// already there is overwritten.
    pub fn new(frame: u64, active_table: &mut Mapper) -> (table: InactivePageMap)
        requires
            old(active_table).wf(),
            frame <= usize::MAX,
            (frame as usize) % 4096 == 0,
        ensures
            table.p4_frame == frame,
            final(active_table).wf(),
            final(active_table).p4_frame == old(active_table).p4_frame,
            match find_table(old(active_table)@, frame, 0) {
                Some(i) => final(active_table)@ == old(active_table)@.update(i, (frame, recursive_table(frame))),
                None => final(active_table)@ == old(active_table)@.push((frame, recursive_table(frame))),
            },
    {
        let mut entries: Vec<PageTableEntry> = Vec::new();
        while entries.len() < PAGE_TABLE_ENTRIES
            invariant
                entries@.len() <= 512,
                forall|k: int| 0 <= k < entries@.len() ==> #[trigger] entries@[k].spec_bits() == 0,
            decreases 512 - entries@.len(),
        {
            entries.push(PageTableEntry::new());
        }
        let mut recursive = PageTableEntry::new();
        recursive.set(
            PhysicalAddress(frame as usize),
            EntryFlags::from_bits_truncate(PRESENT | WRITABLE | NO_EXECUTE),
        );
        entries.set(510, recursive);
        proof {
            PageTableEntry::lemma_from_bits(recursive, 0);
            assert forall|k: int| 0 <= k < 512 implies #[trigger] entries@[k] == recursive_table(frame)[k] by {
                if k != 510 {
                    PageTableEntry::lemma_from_bits(entries@[k], 0);
                } else {
                    PageTableEntry::lemma_from_bits(recursive, 0);
                }
            }
            assert(entries@ =~= recursive_table(frame));
        }
        let ghost before = active_table@;
        match active_table.lookup(frame) {
            Some(position) => {
                proof {
                    lemma_find_table_bound(before, frame, 0);
                }
                active_table.tables.set(position, FrameTable { frame, entries });
                proof {
                    assert(active_table@ =~= before.update(position as int, (frame, recursive_table(frame))));
                    assert forall|i: int| 0 <= i < before.len() implies #[trigger] before[i].0 == active_table@[i].0 by {}
                    lemma_find_table_same_frames(before, active_table@, active_table.p4_frame, 0);
                    assert forall|i: int| 0 <= i < active_table@.len() implies #[trigger] active_table@[i].1.len() == 512 by {
                        if i != position {
                            assert(before[i].1.len() == 512);
                        }
                    }
                }
            },
            None => {
                active_table.tables.push(FrameTable { frame, entries });
                proof {
                    assert(active_table@ =~= before.push((frame, recursive_table(frame))));
                    assert forall|i: int| 0 <= i < before.len() implies #[trigger] before[i].0 == active_table@[i].0 by {}
                    lemma_find_table_push(before, active_table@, active_table.p4_frame, 0);
                    assert forall|i: int| 0 <= i < active_table@.len() implies #[trigger] active_table@[i].1.len() == 512 by {
                        if i < before.len() {
                            assert(before[i].1.len() == 512);
                        }
                    }
                }
            },
        }
        InactivePageMap { p4_frame: frame }
    }
}

/// The page tables of a new process, at `frame`, which holds no table yet: a new hierarchy (see
/// `InactivePageMap::new`) that shares the kernel's mappings, entry 511 of the active top level
/// table.
pub fn new_process_page_tables(active_table: &mut Mapper, frame: u64) -> (table: InactivePageMap)
    requires
        old(active_table).wf(),
        frame <= usize::MAX,
        (frame as usize) % 4096 == 0,
        find_table(old(active_table)@, frame, 0) is None,
    ensures
        table.p4_frame == frame,
        final(active_table).wf(),
        final(active_table).p4_frame == old(active_table).p4_frame,
        final(active_table)@ == old(active_table)@.push(
            (
                frame,
                recursive_table(frame).update(
                    511,
                    table_at(old(active_table)@, old(active_table).p4_frame)->0[511],
                ),
            ),
        ),
{
    let new_table = InactivePageMap::new(frame, active_table);
    let ghost created = active_table@;
    let p4 = active_table.lookup(active_table.p4_frame).unwrap();
    proof {
        lemma_find_table_bound(created, active_table.p4_frame, 0);
        lemma_find_table_keep(old(active_table)@, created, active_table.p4_frame, 0);
        assert(created[p4 as int].1.len() == 512);
    }
    let kernel_entry = active_table.tables[p4].entries[511];
    let position = active_table.tables.len() - 1;
    proof {
        assert(created[position as int].1.len() == 512);
        assert(created == old(active_table)@.push((frame, recursive_table(frame))));
        assert(find_table(old(active_table)@, active_table.p4_frame, 0) == Some(p4 as int));
        assert(kernel_entry == table_at(old(active_table)@, old(active_table).p4_frame)->0[511]);
        assert(position == old(active_table)@.len());
    }
    active_table.tables[position].entries.set(511, kernel_entry);
    proof {
        let after = active_table@;
        assert(after[position as int].1 =~= recursive_table(frame).update(511, kernel_entry));
        assert(after.len() == created.len());
        assert(after[position as int].0 == frame);
        assert forall|i: int| 0 <= i < position implies #[trigger] after[i] == old(active_table)@[i] by {
            assert(created[i] == old(active_table)@[i]);
        }
        assert(after =~= old(active_table)@.push(
            (
                frame,
                recursive_table(frame).update(
                    511,
                    table_at(old(active_table)@, old(active_table).p4_frame)->0[511],
                ),
            ),
        ));
        assert forall|i: int| 0 <= i < created.len() implies #[trigger] created[i].0 == after[i].0 by {}
        lemma_find_table_same_frames(created, after, active_table.p4_frame, 0);
        assert forall|i: int| 0 <= i < after.len() implies #[trigger] after[i].1.len() == 512 by {
            assert(created[i].1.len() == 512);
        }
    }
    new_table
}

/// A page set aside for mapping one frame at a time, such as a page table that is not active.
pub struct TemporaryPage {
    pub page: Page,
}

impl TemporaryPage {
    pub fn new(page: Page) -> (temporary: TemporaryPage)
        ensures
            temporary.page == page,
    {
        TemporaryPage { page }
    }

    /// Maps the temporary page, writable, to the frame at `frame` in `active_table`, and gives
    /// its start address. The page must not be mapped yet.
    pub fn map(&mut self, frame: PhysicalAddress, active_table: &mut Mapper, frames: &mut Vec<u64>) -> (address:
        VirtualAddress)
        requires
            old(active_table).wf(),
            old(self).page.spec_size() == Some(PageSize::Kib4),
            old(self).page.spec_number() * 4096 <= usize::MAX,
            old(active_table).walk_supported(old(self).page),
            old(active_table).spec_walk(old(self).page) is None,
            old(active_table).spec_can_map(old(self).page),
            fresh_frames(old(active_table)@, old(frames)@),
            old(frames)@.len() >= 3,
            frame.0 % 4096 == 0,
        ensures
            final(self).page == old(self).page,
            address.0 == old(self).page.spec_number() * 4096,
            final(active_table).wf(),
            final(active_table).p4_frame == old(active_table).p4_frame,
            fresh_frames(final(active_table)@, final(frames)@),
            final(frames)@.len() + 3 >= old(frames)@.len(),
            final(frames)@ == old(frames)@.subrange(0, final(frames)@.len() as int),
            !old(active_table).spec_p1_entry_on_path(old(self).page) ==> (final(active_table).spec_walk(
                old(self).page,
            ) matches Some((e, size)) && size == PageSize::Kib4 && e.spec_bits() == frame.0 as u64 | (
            WRITABLE | PRESENT)),
    {
        let address = self.page.start_address().unwrap();
        let flags = EntryFlags::from_bits_truncate(WRITABLE);
        active_table.map_to(&self.page, frame, flags, frames);
        proof {
            let a = frame.0 as u64;
            assert(a | ((WRITABLE & ALL_FLAGS | PRESENT) & ALL_FLAGS) == a | (WRITABLE | PRESENT))
                by (bit_vector);
        }
        VirtualAddress(address)
    }

    /// Unmaps the temporary page in `active_table`, keeping the frame it mapped.
    pub fn unmap(&mut self, active_table: &mut Mapper)
        requires
            old(active_table).wf(),
            old(self).page.spec_size() is Some,
            old(active_table).walk_supported(old(self).page),
            old(active_table).spec_walk(old(self).page) is Some,
        ensures
            final(self).page == old(self).page,
            final(active_table).wf(),
            final(active_table).p4_frame == old(active_table).p4_frame,
            old(active_table).spec_mapping_slot(old(self).page) matches Some((t, k))
                && final(active_table)@ == old(active_table)@.update(
                t,
                (old(active_table)@[t].0, old(active_table)@[t].1.update(k, final(active_table)@[t].1[k])),
            ) && final(active_table)@[t].1[k].spec_bits() == 0,
            !old(active_table).spec_mapping_slot_on_path(old(self).page) ==> final(active_table).spec_walk(
                old(self).page,
            ) is None,
    {
        let _ = active_table.unmap(&self.page, false);
    }
}

/// A range of 4KiB pages mapped to a range of frames of the same length, page by page, not
/// necessarily at the same addresses: the numbers of its first and last page, and the number of
/// its first frame.
pub struct PageRangeMapping {
    pub first_page: usize,
    pub last_page: usize,
    pub start_frame: usize,
}

impl PageRangeMapping {
    /// The pages from `start_page` on, `pages` pages further, starting at frame `start_frame`.
    pub fn new(start_page: Page, start_frame: usize, pages: usize) -> (mapping: PageRangeMapping)
        requires
            start_page.spec_size() == Some(PageSize::Kib4),
            start_page.spec_number() * 4096 <= usize::MAX,
            start_page.spec_number() + pages <= usize::MAX,
        ensures
            mapping.first_page == start_page.spec_number(),
            mapping.last_page == start_page.spec_number() + pages,
            mapping.start_frame == start_frame,
    {
        let page_number = start_page.start_address().unwrap() / 4096;
        assert(page_number == start_page.spec_number()) by (nonlinear_arith)
            requires
                page_number == start_page.spec_number() * 4096 / 4096,
        ;
        PageRangeMapping { first_page: page_number, last_page: page_number + pages, start_frame }
    }
}

proof fn lemma_find_table_bound(tables: Seq<(u64, Seq<PageTableEntry>)>, frame: u64, from: int)
    ensures
        find_table(tables, frame, from) matches Some(i) ==> from <= i < tables.len() && tables[i].0 == frame,
    decreases tables.len() - from,
{
    if 0 <= from < tables.len() && tables[from].0 != frame {
        lemma_find_table_bound(tables, frame, from + 1);
    }
}

proof fn lemma_find_table_same_frames(
    a: Seq<(u64, Seq<PageTableEntry>)>,
    b: Seq<(u64, Seq<PageTableEntry>)>,
    frame: u64,
    from: int,
)
    requires
        a.len() == b.len(),
        forall|i: int| 0 <= i < a.len() ==> #[trigger] a[i].0 == b[i].0,
    ensures
        find_table(a, frame, from) == find_table(b, frame, from),
    decreases a.len() - from,
{
    if 0 <= from < a.len() {
        lemma_find_table_same_frames(a, b, frame, from + 1);
    }
}

proof fn lemma_find_table_push(
    a: Seq<(u64, Seq<PageTableEntry>)>,
    b: Seq<(u64, Seq<PageTableEntry>)>,
    frame: u64,
    from: int,
)
    requires
        b.len() == a.len() + 1,
        forall|i: int| 0 <= i < a.len() ==> #[trigger] a[i].0 == b[i].0,
        0 <= from <= a.len(),
    ensures
        find_table(b, frame, from) == (if find_table(a, frame, from) is Some {
            find_table(a, frame, from)
        } else if b[a.len() as int].0 == frame {
            Some(a.len() as int)
        } else {
            None
        }),
    decreases a.len() - from,
{
    if from < a.len() {
        lemma_find_table_push(a, b, frame, from + 1);
    } else {
        assert(find_table(b, frame, from + 1) is None);
    }
}

/// The entry linking in a table at an aligned frame is present, marks no huge page, and holds
/// the frame; the frame is page aligned.
proof fn lemma_link_bits(frame: u64)
    requires
        frame & !ADDRESS_MASK == 0,
    ensures
        frame % 4096 == 0,
        frame | ((PRESENT | WRITABLE | USER_ACCESSIBLE) & ALL_FLAGS) == link_bits(frame),
        link_bits(frame) & ALL_FLAGS & PRESENT == PRESENT,
        link_bits(frame) & ALL_FLAGS & HUGE_PAGE != HUGE_PAGE,
        link_bits(frame) & ADDRESS_MASK == frame,
        link_bits(frame) & PRESENT == PRESENT,
{
    let b = frame | (PRESENT | WRITABLE | USER_ACCESSIBLE);
    assert(frame % 4096 == 0 && frame | ((PRESENT | WRITABLE | USER_ACCESSIBLE) & ALL_FLAGS) == b && b
        & ALL_FLAGS & PRESENT == PRESENT && b & ALL_FLAGS & HUGE_PAGE != HUGE_PAGE && b & ADDRESS_MASK
        == frame && b & PRESENT == PRESENT) by (bit_vector)
        requires
            frame & !ADDRESS_MASK == 0,
            b == frame | (PRESENT | WRITABLE | USER_ACCESSIBLE),
    ;
}

/// An unused entry is not present and marks no huge page.
proof fn lemma_zero_entry()
    ensures
        (0u64 & ALL_FLAGS) & PRESENT != PRESENT,
        (0u64 & ALL_FLAGS) & HUGE_PAGE != HUGE_PAGE,
        0u64 & PRESENT != PRESENT,
{
    assert((0u64 & ALL_FLAGS) & PRESENT != PRESENT && (0u64 & ALL_FLAGS) & HUGE_PAGE != HUGE_PAGE
        && 0u64 & PRESENT != PRESENT) by (bit_vector);
}

proof fn lemma_find_table_keep(
    a: Seq<(u64, Seq<PageTableEntry>)>,
    b: Seq<(u64, Seq<PageTableEntry>)>,
    frame: u64,
    from: int,
)
    requires
        a.len() <= b.len(),
        forall|i: int| 0 <= i < a.len() ==> #[trigger] a[i].0 == b[i].0,
        find_table(a, frame, from) is Some,
    ensures
        find_table(b, frame, from) == find_table(a, frame, from),
    decreases a.len() - from,
{
    if 0 <= from < a.len() && a[from].0 != frame {
        lemma_find_table_keep(a, b, frame, from + 1);
    }
}

/// A step keeps every table's frame, and every entry but the one it links a new table at.
proof fn lemma_step_keeps(
    a: Seq<(u64, Seq<PageTableEntry>)>,
    b: Seq<(u64, Seq<PageTableEntry>)>,
    position: int,
    index: int,
    next: int,
    u: int,
    k: int,
)
    requires
        create_step(a, b, position, index, next),
        0 <= position < a.len(),
        0 <= index < a[position].1.len(),
        0 <= u < a.len(),
        0 <= k < a[u].1.len(),
        (u, k) != (position, index) || next_position(a, position, index) is Some,
    ensures
        b[u].1[k] == a[u].1[k],
        b[u].0 == a[u].0,
        a.len() <= b.len(),
{
}

/// An entry marked present in its flags is present.
proof fn lemma_present_bits(bits: u64)
    ensures
        (bits & ALL_FLAGS) & PRESENT == PRESENT ==> bits & PRESENT == PRESENT,
{
    assert((bits & ALL_FLAGS) & PRESENT == PRESENT ==> bits & PRESENT == PRESENT) by (bit_vector);
}

/// A step keeps the tables there were at their frames.
proof fn lemma_step_frames(
    a: Seq<(u64, Seq<PageTableEntry>)>,
    b: Seq<(u64, Seq<PageTableEntry>)>,
    position: int,
    index: int,
    next: int,
)
    requires
        create_step(a, b, position, index, next),
        0 <= position < a.len(),
    ensures
        a.len() <= b.len(),
        forall|i: int| 0 <= i < a.len() ==> #[trigger] b[i].0 == a[i].0,
{
    assert forall|i: int| 0 <= i < a.len() implies #[trigger] b[i].0 == a[i].0 by {
        if next_position(a, position, index) is None && i != position {
            assert(b[i] == a[i]);
        }
    }
}

/// The frames of a step's tables stay put, so every table found before is found at the same
/// position after.
proof fn lemma_step_finds(
    a: Seq<(u64, Seq<PageTableEntry>)>,
    b: Seq<(u64, Seq<PageTableEntry>)>,
    position: int,
    index: int,
    next: int,
    frame: u64,
)
    requires
        create_step(a, b, position, index, next),
        0 <= position < a.len(),
        find_table(a, frame, 0) is Some,
    ensures
        find_table(b, frame, 0) == find_table(a, frame, 0),
{
    assert forall|i: int| 0 <= i < a.len() implies #[trigger] a[i].0 == b[i].0 by {
        if next_position(a, position, index) is None && i != position {
            assert(b[i] == a[i]);
        }
    }
    lemma_find_table_keep(a, b, frame, 0);
}

/// After the three steps down and the write of the level 1 entry, the walk arrives at the
/// written entry, unless it is itself one of the entries passed on the way.
proof fn lemma_map_to_walk(
    s0: Seq<(u64, Seq<PageTableEntry>)>,
    s1: Seq<(u64, Seq<PageTableEntry>)>,
    s2: Seq<(u64, Seq<PageTableEntry>)>,
    s3: Seq<(u64, Seq<PageTableEntry>)>,
    s4: Seq<(u64, Seq<PageTableEntry>)>,
    p4_frame: u64,
    i4: int,
    i3: int,
    i2: int,
    i1: int,
    t4: int,
    t3: int,
    t2: int,
    t1: int,
    entry: PageTableEntry,
)
    requires
        0 <= i4 < 512,
        0 <= i3 < 512,
        0 <= i2 < 512,
        0 <= i1 < 512,
        forall|i: int| 0 <= i < s0.len() ==> #[trigger] s0[i].1.len() == 512,
        forall|i: int| 0 <= i < s1.len() ==> #[trigger] s1[i].1.len() == 512,
        forall|i: int| 0 <= i < s2.len() ==> #[trigger] s2[i].1.len() == 512,
        forall|i: int| 0 <= i < s3.len() ==> #[trigger] s3[i].1.len() == 512,
        find_table(s0, p4_frame, 0) == Some(t4),
        0 <= t4 < s0.len(),
        create_step(s0, s1, t4, i4, t3),
        create_step(s1, s2, t3, i3, t2),
        create_step(s2, s3, t2, i2, t1),
        s4 == s3.update(t1, (s3[t1].0, s3[t1].1.update(i1, entry))),
        !(next_position(s0, t4, i4) == Some(t3) && next_position(s0, t3, i3) == Some(t2)
            && next_position(s0, t2, i2) == Some(t1) && ((t1 == t4 && i1 == i4) || (t1 == t3
            && i1 == i3) || (t1 == t2 && i1 == i2))),
    ensures
        find_table(s4, p4_frame, 0) == Some(t4),
        next_position(s4, t4, i4) == Some(t3),
        next_position(s4, t3, i3) == Some(t2),
        next_position(s4, t2, i2) == Some(t1),
        s4[t1].1[i1] == entry,
{
    lemma_zero_entry();
    assert forall|i: int| 0 <= i < s3.len() implies #[trigger] s3[i].0 == s4[i].0 by {}
    // Positions found stay found.
    lemma_step_finds(s0, s1, t4, i4, t3, p4_frame);
    lemma_step_finds(s1, s2, t3, i3, t2, p4_frame);
    lemma_step_finds(s2, s3, t2, i2, t1, p4_frame);
    lemma_find_table_keep(s3, s4, p4_frame, 0);
    // The written entry is none of the links: a new level 1 table is new to every step, and
    // with no new table the walk is that of the old tables.
    let fresh1 = next_position(s2, t2, i2) is None;
    if !fresh1 {
        if next_position(s1, t3, i3) is None {
            assert(s2[t2].1[i2].spec_bits() == 0);
        }
        if next_position(s0, t4, i4) is None {
            assert(s1[t3].1[i3].spec_bits() == 0);
        }
    }
    assert((t1, i1) != (t4, i4) && (t1, i1) != (t3, i3) && (t1, i1) != (t2, i2));
    // The link at level 4.
    let e4 = s1[t4].1[i4];
    if next_position(s1, t3, i3) is None {
        assert((t3, i3) != (t4, i4));
    }
    lemma_step_keeps(s1, s2, t3, i3, t2, t4, i4);
    assert(next_position(s2, t4, i4) == Some(t3)) by {
        lemma_step_finds(s1, s2, t3, i3, t2, entry_frame(e4));
    }
    if next_position(s2, t2, i2) is None {
        assert((t2, i2) != (t4, i4));
    }
    lemma_step_keeps(s2, s3, t2, i2, t1, t4, i4);
    lemma_step_finds(s1, s2, t3, i3, t2, entry_frame(e4));
    lemma_step_finds(s2, s3, t2, i2, t1, entry_frame(e4));
    lemma_find_table_keep(s3, s4, entry_frame(e4), 0);
    // The link at level 3.
    let e3 = s2[t3].1[i3];
    if next_position(s2, t2, i2) is None {
        assert((t2, i2) != (t3, i3));
    }
    lemma_step_keeps(s2, s3, t2, i2, t1, t3, i3);
    lemma_step_finds(s2, s3, t2, i2, t1, entry_frame(e3));
    lemma_find_table_keep(s3, s4, entry_frame(e3), 0);
    // The link at level 2.
    let e2 = s3[t2].1[i2];
    lemma_find_table_keep(s3, s4, entry_frame(e2), 0);
}

/// Once mapping a list of pages has stopped, the pairs after change nothing.
proof fn lemma_map_all_stop(
    tables: Seq<(u64, Seq<PageTableEntry>)>,
    p4_frame: u64,
    pairs: Seq<(Page, PhysicalAddress)>,
    flags: EntryFlags,
    frames: Seq<u64>,
    stop: nat,
)
    requires
        stop <= pairs.len(),
        spec_map_all(tables, p4_frame, pairs.take(stop as int), flags, frames).2 is Some || stop == pairs.len(),
    ensures
        spec_map_all(tables, p4_frame, pairs, flags, frames) == spec_map_all(
            tables,
            p4_frame,
            pairs.take(stop as int),
            flags,
            frames,
        ),
    decreases pairs.len() - stop,
{
    if stop == pairs.len() {
        assert(pairs.take(stop as int) =~= pairs);
    } else {
        assert(pairs.take((stop + 1) as int).drop_last() =~= pairs.take(stop as int));
        lemma_map_all_stop(tables, p4_frame, pairs, flags, frames, stop + 1);
    }
}

/// The virtual address of the top level table through its recursive entry 511.
pub const RECURSIVE_P4_ADDRESS: u64 = 0xffff_ffff_ffff_f000;

/// The virtual address, through the recursive entry, of the table that entry `index` of the
/// table at virtual address `address` points to: the address moves up one level and the index
/// comes in below it.
pub open spec fn recursive_next_address(address: u64, index: u64) -> u64 {
    (0xffffu64 << 48u64) | (address << 9u64) | (index << 12u64)
}

/// The table index that an address selects at the level whose index starts at bit `shift`
/// (39 for level 4, 30, 21, and 12 for level 1).
pub open spec fn address_index(address: u64, shift: u64) -> u64 {
    (address >> shift) & 511
}

/// The virtual address of the table that `entry`, entry `index` of the table at virtual
/// address `table_address`, points to, reached through the recursive entry: the entry must be
/// present and not map a huge page.
pub fn next_table_address(table_address: u64, entry: PageTableEntry, index: usize) -> (address: Option<u64>)
    requires
        index < 512,
    ensures
        address == (if entry_flag(entry, PRESENT) && !entry_flag(entry, HUGE_PAGE) {
            Some(recursive_next_address(table_address, index as u64))
        } else {
            None
        }),
{
    let flags = entry.flags();
    if flags.contains(PRESENT) && !flags.contains(HUGE_PAGE) {
        Some((0xffffu64 << 48u64) | (table_address << 9u64) | ((index as u64) << 12u64))
    } else {
        None
    }
}

/// **Law: recursive table addresses.** For a table at a page aligned address, the address of
/// the table that its entry `index` points to selects, at each level, the index that the table's own address selects one level lower, and
/// `index` at level 1; it is page aligned and in the higher half.
pub proof fn law_recursive_next_address(address: u64, index: u64)
    by (bit_vector)
    requires
        address & 0xfff == 0,
        index < 512,
    ensures
        address_index(recursive_next_address(address, index), 39) == address_index(address, 30),
        address_index(recursive_next_address(address, index), 30) == address_index(address, 21),
        address_index(recursive_next_address(address, index), 21) == address_index(address, 12),
        address_index(recursive_next_address(address, index), 12) == index,
        recursive_next_address(address, index) & 0xfff == 0,
        recursive_next_address(address, index) >> 48 == 0xffff,
{
}

/// The recursive address of the top level table selects entry 511 at every level.
pub proof fn lemma_recursive_p4_address()
    by (bit_vector)
    ensures
        address_index(RECURSIVE_P4_ADDRESS, 39) == 511,
        address_index(RECURSIVE_P4_ADDRESS, 30) == 511,
        address_index(RECURSIVE_P4_ADDRESS, 21) == 511,
        address_index(RECURSIVE_P4_ADDRESS, 12) == 511,
        RECURSIVE_P4_ADDRESS & 0xfff == 0,
{
}

/// The recursive address of the level 1 table reached through entries `i4`, `i3` and `i2`
/// selects entry 511 at level 4, then `i4`, `i3` and `i2`.
pub proof fn law_recursive_p1_address(i4: u64, i3: u64, i2: u64)
    requires
        i4 < 512,
        i3 < 512,
        i2 < 512,
    ensures
        ({
            let p3 = recursive_next_address(RECURSIVE_P4_ADDRESS, i4);
            let p2 = recursive_next_address(p3, i3);
            let p1 = recursive_next_address(p2, i2);
            &&& address_index(p1, 39) == 511
            &&& address_index(p1, 30) == i4
            &&& address_index(p1, 21) == i3
            &&& address_index(p1, 12) == i2
        }),
{
    let p3 = recursive_next_address(RECURSIVE_P4_ADDRESS, i4);
    let p2 = recursive_next_address(p3, i3);
    lemma_recursive_p4_address();
    law_recursive_next_address(RECURSIVE_P4_ADDRESS, i4);
    law_recursive_next_address(p3, i3);
    law_recursive_next_address(p2, i2);
}

/// **Law: a recursive address reaches its table.** In a hierarchy whose top table maps itself
/// at entry 511, the walk of a page that selects 511 at level 4 and then the indices of a path
/// down to a level 2 table ends on that table's entry: the entry that points to the level 1
/// table, which the page therefore maps.
pub proof fn law_recursive_address_reaches_table(
    m: Mapper,
    page: Page,
    p3: Seq<PageTableEntry>,
    p2: Seq<PageTableEntry>,
)
    requires
        m.wf(),
        next_table(m@, table_at(m@, m.p4_frame)->0, 511) == Some(table_at(m@, m.p4_frame)->0),
        p4_index(page) == 511,
        next_table(m@, table_at(m@, m.p4_frame)->0, p3_index(page)) == Some(p3),
        next_table(m@, p3, p2_index(page)) == Some(p2),
        entry_flag(p2[p1_index(page)], PRESENT),
    ensures
        m.spec_walk(page) == Some((p2[p1_index(page)], PageSize::Kib4)),
{
}

} // verus!
