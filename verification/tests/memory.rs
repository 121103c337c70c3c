use std::ops::Range;

use flower::heap::{log2_ceil, log2_floor, order, Heap, HEAP_START};
use flower::memory::{
    highest_address, kernel_area, map_physical_region, physical_tree_count, range_sub,
    usable_areas, PhysicalMapping,
};
use flower::process::{InactivePageMap, Process, ProcessId};

fn sub(main: Range<usize>, hole: Range<usize>) -> [Option<Range<usize>>; 2] {
    range_sub(&main, &hole)
}

#[test]
fn range_sub_cuts_holes() {
    assert_eq!(sub(0..100, 20..30), [Some(0..20), Some(30..100)]);
    assert_eq!(sub(0..100, 0..30), [None, Some(30..100)]);
    assert_eq!(sub(0..100, 50..150), [Some(0..50), None]);
    assert_eq!(sub(0..100, 0..100), [None, None]);
    assert_eq!(sub(0..100, 200..300), [Some(0..100), None]);
    assert_eq!(sub(10..100, 0..10), [None, Some(10..100)]);
}

#[test]
fn range_sub_takes_out_holes_that_start_below_the_range() {
    assert_eq!(sub(10..20, 5..15), [None, Some(15..20)]);
    assert_eq!(sub(5..10, 0..7), [None, Some(7..10)]);
    assert_eq!(sub(5..10, 0..20), [None, None]);
}

#[test]
fn usable_memory_avoids_the_kernel_and_the_first_megabyte() {
    let areas = [0..0x9f000, 0x10_0000..0x800_0000];
    let kernel = 0x10_0000..0x40_0000;
    assert_eq!(usable_areas(&areas, &kernel).to_vec(), vec![0x40_0000..0x800_0000]);
}

#[test]
fn an_area_that_starts_inside_the_first_megabyte_loses_that_part() {
    let areas = [0x8_0000..0x20_0000];
    assert_eq!(usable_areas(&areas, &(0x30_0000..0x40_0000)).to_vec(), vec![0x10_0000..0x20_0000]);
}

#[test]
fn only_the_first_256_usable_areas_are_kept() {
    let areas: Vec<Range<usize>> = (0..300usize)
        .map(|i| 0x100_0000 + i * 0x2000..0x100_0000 + i * 0x2000 + 0x1000)
        .collect();
    let usable = usable_areas(&areas, &(0x10_0000..0x20_0000));
    assert_eq!(usable.len(), 256);
    assert_eq!(usable[0], 0x100_0000..0x100_1000);
    assert_eq!(usable[255], 0x100_0000 + 255 * 0x2000..0x100_0000 + 255 * 0x2000 + 0x1000);
}

#[test]
fn kernel_area_spans_sections_and_modules() {
    let area = kernel_area(&[(0x10_0000, 0x10_0fff), (0x10_1000, 0x10_4fff)], &[(0x20_0000, 0x20_1000)]);
    assert_eq!(area, 0x10_0000..0x20_1001);
    let area = kernel_area(&[(0x10_0000, 0x10_0fff)], &[]);
    assert_eq!(area, 0x10_0000..0x10_1001);
}

#[test]
fn trees_cover_the_highest_address() {
    assert_eq!(highest_address(&[0x9f000, 0x800_0000, 0x100_0000]), 0x7ff_ffff);
    assert_eq!(physical_tree_count(0x7ff_ffff), 1);
    assert_eq!(physical_tree_count(0x4000_0000), 1);
    assert_eq!(physical_tree_count(0x4000_0001), 2);
}

#[test]
fn block_orders() {
    assert_eq!(log2_floor(0), 0);
    assert_eq!(log2_floor(1), 0);
    assert_eq!(log2_floor(4095), 11);
    assert_eq!(log2_floor(4096), 12);
    assert_eq!(log2_ceil(4096), 12);
    assert_eq!(log2_ceil(4097), 13);
    assert_eq!(log2_ceil(u64::MAX), 64);
    assert_eq!(order(0), 0);
    assert_eq!(order(1), 0);
    assert_eq!(order(32), 0);
    assert_eq!(order(33), 1);
    assert_eq!(order(64), 1);
    assert_eq!(order(4096), 7);
}

#[test]
fn a_request_fits_its_block() {
    for size in [1usize, 2, 63, 64, 65, 4095, 4096, 4097, 1 << 20] {
        assert!(size <= 1 << (order(size) as u32 + 6));
    }
}

#[test]
fn heap_allocates_and_frees() {
    let mut heap = Heap::new();
    let (tree_start, pages) = heap.init(0x1234);
    assert_eq!(tree_start, 0x2000);
    assert_eq!(pages, ((1u64 << 25) - 1 + 4095) / 4096);
    assert_eq!(Heap::tree_size(), (1 << 25) - 1);
    let (first, first_pages) = heap.allocate(64).unwrap();
    assert_eq!(first, HEAP_START);
    assert_eq!(first_pages, vec![HEAP_START]);
    let (second, _) = heap.allocate(64).unwrap();
    assert_ne!(first, second);
    let (big, big_pages) = heap.allocate(0x4000).unwrap();
    assert_eq!(big_pages.len(), 4);
    assert_eq!(big_pages[1], big + 4096);
    assert_eq!(heap.dealloc(big, 0x4000).len(), 4);
    // the first page still holds the second block
    assert_eq!(heap.dealloc(first, 64), Vec::<u64>::new());
    assert_eq!(heap.dealloc(second, 64), vec![HEAP_START]);
    assert_eq!(heap.dealloc(0, 64), Vec::<u64>::new());
    assert!(heap.allocate(1 << 31).is_none());
}

#[test]
fn heap_maps_physical_regions() {
    let mut heap = Heap::new();
    heap.init(0);
    let (ptr, mappings) = heap.alloc_specific(0x100, 2).unwrap();
    assert_eq!(mappings.len(), 4);
    assert_eq!(mappings[0], (ptr, 0x100 * 4096));
    assert_eq!(mappings[3], (ptr + 3 * 4096, 0x103 * 4096));
    assert_eq!(heap.dealloc_specific(ptr, 2), vec![ptr, ptr + 4096, ptr + 2 * 4096, ptr + 3 * 4096]);
    assert_eq!(heap.dealloc_specific(0, 2), Vec::<u64>::new());
    let (mapping, frames) = map_physical_region(&mut heap, 0xFEE0_0010, 0x400, true).unwrap();
    assert_eq!(mapping.physical_start, 0xFEE0_0000);
    assert_eq!(mapping.mapped_length, 4096);
    assert_eq!(mapping.virtual_start % 4096, 0x10);
    assert_eq!(frames[0].1, 0xFEE0_0000);
    assert_eq!(mapping.deref_mut(), Some(mapping.virtual_start));
    let read_only = PhysicalMapping { mutable: false, ..mapping };
    assert_eq!(read_only.deref_mut(), None);
}

#[test]
fn process_ids_count_up() {
    let mut next = 0u64;
    assert_eq!(ProcessId::next(&mut next), ProcessId(0));
    assert_eq!(ProcessId::next(&mut next), ProcessId(1));
    assert_eq!(next, 2);
    let process = Process::new(InactivePageMap { p4_frame: 0x5000 });
    assert_eq!(process.page_tables.p4_frame, 0x5000);
}

#[test]
fn bootstrap_heap_starts_aligned_after_the_kernel_and_boot_information() {
    assert_eq!(flower::memory::bootstrap_heap_start(0x20_0010, 0x10_0000, 8), 0x20_0010);
    assert_eq!(flower::memory::bootstrap_heap_start(0x20_0011, 0x10_0000, 8), 0x20_0018);
    assert_eq!(flower::memory::bootstrap_heap_start(0x10_0000, 0x30_0001, 0x1000), 0x30_1000);
}
