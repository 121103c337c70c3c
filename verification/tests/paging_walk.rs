use flower::physical_allocator::PhysicalAllocator;
use std::collections::HashMap;
use flower::userspace::{Process, STACK_TOP, INITIAL_STACK_SIZE_PAGES};
use flower::process::ProcessId;
use flower::page_map::{next_table_address, FrameTable, Mapper, PageRangeMapping, TemporaryPage, RECURSIVE_P4_ADDRESS};
use flower::process::InactivePageMap;
use flower::paging::{EntryFlags, Page, PageSize, PageTableEntry, PhysicalAddress, HUGE_PAGE, PRESENT, WRITABLE};

fn entry(address: usize, flags: u64) -> PageTableEntry {
    let mut entry = PageTableEntry::new();
    entry.set(PhysicalAddress(address), EntryFlags::from_bits_truncate(flags));
    entry
}

fn table(frame: u64, at: &[(usize, PageTableEntry)]) -> FrameTable {
    let mut entries = vec![PageTableEntry::new(); 512];
    for (index, e) in at {
        entries[*index] = *e;
    }
    FrameTable { frame, entries }
}

fn mapper() -> Mapper {
    // 0x40_1000 lies in p4 0, p3 0, p2 2, p1 1; 0x60_0000 in p2 3 as a 2MiB page
    Mapper {
        p4_frame: 0x1000,
        tables: vec![
            table(0x1000, &[(0, entry(0x2000, PRESENT | WRITABLE))]),
            table(0x2000, &[(0, entry(0x3000, PRESENT | WRITABLE))]),
            table(
                0x3000,
                &[(2, entry(0x4000, PRESENT | WRITABLE)), (3, entry(0x20_0000, PRESENT | HUGE_PAGE))],
            ),
            table(0x4000, &[(1, entry(0x9000, PRESENT | WRITABLE))]),
        ],
    }
}

#[test]
fn four_kib_pages_are_found_in_level_one() {
    let mapper = mapper();
    let page = Page::containing_address(0x40_1000, PageSize::Kib4);
    let (found, size) = mapper.walk_page_table(&page).unwrap();
    assert!(size == PageSize::Kib4);
    assert_eq!(found.physical_address().unwrap().0, 0x9000);
    assert!(mapper.walk_page_table(&Page::containing_address(0x40_2000, PageSize::Kib4)).is_none());
}

#[test]
fn huge_pages_are_found_in_level_two() {
    let mapper = mapper();
    let page = Page::containing_address(0x60_5000, PageSize::Kib4);
    let (found, size) = mapper.walk_page_table(&page).unwrap();
    assert!(size == PageSize::Mib2);
    assert_eq!(found.physical_address().unwrap().0, 0x20_0000);
}

#[test]
fn unmapped_tables_end_the_walk() {
    let mapper = mapper();
    assert!(mapper.walk_page_table(&Page::containing_address(0x8000_0000, PageSize::Kib4)).is_none());
    assert_eq!(mapper.lookup(0x3000), Some(2));
    assert_eq!(mapper.lookup(0x5000), None);
}

#[test]
fn mapping_on_an_existing_path_uses_no_new_table() {
    let mut mapper = mapper();
    let page = Page::containing_address(0x40_2000, PageSize::Kib4);
    let mut frames = vec![0x10_0000, 0x11_0000, 0x12_0000];
    assert!(mapper.can_map(&page));
    mapper.map_to(&page, PhysicalAddress(0xa000), EntryFlags::from_bits_truncate(WRITABLE), &mut frames);
    assert_eq!(frames.len(), 3);
    assert_eq!(mapper.tables.len(), 4);
    let (found, size) = mapper.walk_page_table(&page).unwrap();
    assert!(size == PageSize::Kib4);
    assert_eq!(found.physical_address().unwrap().0, 0xa000);
    assert!(found.flags().contains(PRESENT | WRITABLE));
}

#[test]
fn mapping_links_in_new_tables_where_needed() {
    let mut mapper = mapper();
    // p4 0, p3 2, p2 0, p1 0: level 3 leads nowhere yet.
    let page = Page::containing_address(0x8000_0000, PageSize::Kib4);
    let mut frames = vec![0x10_0000, 0x11_0000, 0x12_0000];
    mapper.map_to(&page, PhysicalAddress(0xb000), EntryFlags::empty(), &mut frames);
    assert_eq!(frames, vec![0x10_0000]);
    assert_eq!(mapper.tables.len(), 6);
    assert_eq!(mapper.lookup(0x12_0000), Some(4));
    assert_eq!(mapper.lookup(0x11_0000), Some(5));
    let (found, size) = mapper.walk_page_table(&page).unwrap();
    assert!(size == PageSize::Kib4);
    assert_eq!(found.physical_address().unwrap().0, 0xb000);
    // The earlier mapping is untouched.
    let old = Page::containing_address(0x40_1000, PageSize::Kib4);
    assert_eq!(mapper.walk_page_table(&old).unwrap().0.physical_address().unwrap().0, 0x9000);
}

#[test]
fn huge_pages_block_new_mappings() {
    let mapper = mapper();
    assert!(!mapper.can_map(&Page::containing_address(0x60_5000, PageSize::Kib4)));
    assert!(mapper.can_map(&Page::containing_address(0x1_0000_0000, PageSize::Kib4)));
}

#[test]
fn unmapping_clears_the_entry_and_gives_back_the_frame() {
    let mut mapper = mapper();
    let page = Page::containing_address(0x40_1000, PageSize::Kib4);
    assert_eq!(mapper.unmap(&page, true).map(|(a, order)| (a.0, order)), Some((0x9000, 0)));
    assert!(mapper.walk_page_table(&page).is_none());
    let huge = Page::containing_address(0x60_0000, PageSize::Kib4);
    assert_eq!(mapper.unmap(&huge, true).map(|(a, order)| (a.0, order)), Some((0x20_0000, 9)));
    assert!(mapper.walk_page_table(&huge).is_none());
    let mut mapper = self::mapper();
    assert!(mapper.unmap(&page, false).is_none());
    assert!(mapper.walk_page_table(&page).is_none());
}

#[test]
fn temporary_page_maps_and_unmaps() {
    let mut mapper = mapper();
    let mut temporary = TemporaryPage::new(Page::containing_address(0x40_3000, PageSize::Kib4));
    let mut frames = vec![0x10_0000, 0x11_0000, 0x12_0000];
    let address = temporary.map(PhysicalAddress(0x7000), &mut mapper, &mut frames);
    assert_eq!(address.0, 0x40_3000);
    let (found, _) = mapper.walk_page_table(&temporary.page).unwrap();
    assert_eq!(found.physical_address().unwrap().0, 0x7000);
    assert!(found.flags().contains(WRITABLE));
    temporary.unmap(&mut mapper);
    assert!(mapper.walk_page_table(&temporary.page).is_none());
}

#[test]
fn page_range_mapping_counts_from_the_start_page() {
    let mapping = PageRangeMapping::new(Page::containing_address(0x5000, PageSize::Kib4), 7, 3);
    assert_eq!((mapping.first_page, mapping.last_page, mapping.start_frame), (5, 8, 7));
}

fn frame_of(mapper: &Mapper, address: usize) -> Option<usize> {
    mapper
        .walk_page_table(&Page::containing_address(address, PageSize::Kib4))
        .map(|(entry, _)| entry.physical_address().unwrap().0)
}

#[test]
fn identity_mapping_a_range() {
    let mut mapper = mapper();
    let mut frames = vec![0x10_0000, 0x11_0000, 0x12_0000];
    assert_eq!(mapper.id_map_range(0x40_5000, 0x40_6fff, EntryFlags::empty(), &mut frames), Ok(()));
    assert_eq!(frame_of(&mapper, 0x40_5000), Some(0x40_5000));
    assert_eq!(frame_of(&mapper, 0x40_6000), Some(0x40_6000));
    assert_eq!(frame_of(&mapper, 0x40_7000), None);
    assert_eq!(frames.len(), 3);
}

#[test]
fn mapping_a_page_range_and_the_higher_half() {
    let mut mapper = mapper();
    let mut frames = vec![0x10_0000, 0x11_0000, 0x12_0000];
    let range = PageRangeMapping::new(Page::containing_address(0x40_8000, PageSize::Kib4), 0x50, 1);
    assert_eq!(mapper.map_page_range(range, EntryFlags::empty(), &mut frames), Ok(()));
    assert_eq!(frame_of(&mapper, 0x40_8000), Some(0x5_0000));
    assert_eq!(frame_of(&mapper, 0x40_9000), Some(0x5_1000));
    assert_eq!(
        mapper.higher_half_map_range(0x40_a000, 0x40_b000, 0x40_0000, EntryFlags::empty(), &mut frames),
        Ok(())
    );
    assert_eq!(frame_of(&mapper, 0x40_a000), Some(0xa000));
    assert_eq!(frame_of(&mapper, 0x40_b000), Some(0xb000));
    assert_eq!(frame_of(&mapper, 0x40_c000), None);
}

#[test]
fn mapping_stops_where_it_cannot_go_on() {
    let mut mapper = mapper();
    let mut frames = vec![0x10_0000, 0x11_0000];
    // Too few frames for the worst case: nothing is mapped.
    assert_eq!(mapper.id_map_range(0x40_5000, 0x40_5000, EntryFlags::empty(), &mut frames), Err(0));
    assert_eq!(frame_of(&mapper, 0x40_5000), None);
    // The second page lies in the 2MiB page at 0x60_0000.
    let mut frames = vec![0x10_0000, 0x11_0000, 0x12_0000];
    assert_eq!(mapper.id_map_range(0x5f_f000, 0x60_0000, EntryFlags::empty(), &mut frames), Err(1));
    assert_eq!(frame_of(&mapper, 0x5f_f000), Some(0x5f_f000));
}

#[test]
fn remapping_into_another_hierarchy() {
    let mut mapper = mapper();
    let new_table = InactivePageMap::new(0x8000, &mut mapper);
    assert_eq!(mapper.lookup(0x8000), Some(4));
    let recursive = mapper.tables[4].entries[510];
    assert_eq!(recursive.physical_address().unwrap().0, 0x8000);
    assert!(recursive.flags().contains(PRESENT | WRITABLE));
    assert!(mapper.tables[4].entries[0].is_unused());
    let mut frames = vec![0x10_0000, 0x11_0000, 0x12_0000];
    assert_eq!(mapper.remap_range(&new_table, 0x401, 0x401, EntryFlags::empty(), &mut frames), Ok(()));
    assert_eq!(mapper.p4_frame, 0x1000);
    let old = mapper.switch(new_table);
    assert_eq!(old.p4_frame, 0x1000);
    assert_eq!(frame_of(&mapper, 0x40_1000), Some(0x9000));
    assert_eq!(frame_of(&mapper, 0x60_0000), None);
    mapper.switch(old);
    assert_eq!(frame_of(&mapper, 0x60_0000), Some(0x20_0000));
}

#[test]
fn new_process_tables_share_the_kernel_entry() {
    let mut mapper = mapper();
    mapper.tables[0].entries[511] = entry(0x2000, PRESENT | WRITABLE);
    let tables = flower::page_map::new_process_page_tables(&mut mapper, 0x9_0000);
    assert_eq!(tables.p4_frame, 0x9_0000);
    let new = &mapper.tables[4];
    assert_eq!(new.frame, 0x9_0000);
    assert!(new.entries[511] == entry(0x2000, PRESENT | WRITABLE));
    assert_eq!(new.entries[510].physical_address().unwrap().0, 0x9_0000);
    assert!(new.entries[3].is_unused());
}

#[test]
fn spawned_processes_get_fresh_ids_and_tables() {
    let mut mapper = mapper();
    let mut next_pid: u64 = 7;
    let mut processes: HashMap<u64, Process> = HashMap::new();
    let first = Process::spawn(0x40_1000, &mut mapper, 0x9_0000, &mut next_pid, &mut processes);
    let second = Process::spawn(0x40_2000, &mut mapper, 0xa_0000, &mut next_pid, &mut processes);
    assert_eq!(first, ProcessId(7));
    assert_eq!(second, ProcessId(8));
    assert_eq!(next_pid, 9);
    assert_eq!(processes.len(), 2);
    let process = processes[&7];
    assert_eq!(process.page_tables.p4_frame, 0x9_0000);
    assert_eq!(process.stack_ptr, STACK_TOP);
    assert_eq!(process.stack_ptr, 0x7fff_ffff_f000);
    assert_eq!(process.instruction_ptr, 0x40_1000);
    assert!(process.new);
    assert_eq!(processes[&8].page_tables.p4_frame, 0xa_0000);
    assert_eq!(mapper.lookup(0x9_0000), Some(4));
    assert_eq!(mapper.lookup(0xa_0000), Some(5));
    assert_eq!(INITIAL_STACK_SIZE_PAGES, 16);
}

#[test]
fn mapping_a_page_takes_a_frame_from_the_allocator() {
    let mut mapper = mapper();
    let mut allocator = PhysicalAllocator::new(1, &[0..(1 << 30) + 1]);
    let mut frames = vec![0x10_0000, 0x11_0000, 0x12_0000];
    let page = Page::containing_address(0x40_2000, PageSize::Kib4);
    let frame = mapper.map(&page, EntryFlags::empty(), &mut allocator, &mut frames).unwrap();
    assert_eq!(frame.0, 0);
    assert_eq!(frame_of(&mapper, 0x40_2000), Some(0));
    assert_eq!(frames.len(), 3);
    let next = Page::containing_address(0x40_3000, PageSize::Kib4);
    let second = mapper.map(&next, EntryFlags::empty(), &mut allocator, &mut frames).unwrap();
    assert_eq!(second.0, 0x1000);
    assert_eq!(frame_of(&mapper, 0x40_3000), Some(0x1000));
}

#[test]
fn mapping_a_page_without_free_frames_changes_nothing() {
    let mut mapper = mapper();
    let mut allocator = PhysicalAllocator::new(1, &[0..(1 << 30) + 1]);
    assert_eq!(allocator.allocate(18), Some(0));
    let mut frames = vec![0x10_0000, 0x11_0000, 0x12_0000];
    let page = Page::containing_address(0x40_2000, PageSize::Kib4);
    assert!(mapper.map(&page, EntryFlags::empty(), &mut allocator, &mut frames).is_none());
    assert_eq!(frame_of(&mapper, 0x40_2000), None);
    assert_eq!(frames.len(), 3);
}

#[test]
fn recursive_addresses_move_the_indices_up() {
    let link = entry(0x2000, PRESENT | WRITABLE);
    let p3 = next_table_address(RECURSIVE_P4_ADDRESS, link, 3).unwrap();
    assert_eq!(p3, 0xffff_ffff_ffe0_3000);
    let p2 = next_table_address(p3, link, 5).unwrap();
    assert_eq!(p2, 0xffff_ffff_c060_5000);
    let p1 = next_table_address(p2, link, 7).unwrap();
    assert_eq!(p1, 0xffff_ff80_c0a0_7000);
    assert_eq!((p1 >> 39) & 511, 511);
    assert_eq!((p1 >> 30) & 511, 3);
    assert_eq!((p1 >> 21) & 511, 5);
    assert_eq!((p1 >> 12) & 511, 7);
    assert!(next_table_address(p1, entry(0x2000, PRESENT | HUGE_PAGE), 1).is_none());
    assert!(next_table_address(p1, PageTableEntry::new(), 1).is_none());
}
