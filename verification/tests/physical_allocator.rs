use flower::physical_allocator::{localize, PhysicalAllocator};

#[test]
fn test_dealloc_physical_allocator() {
    let mut allocator = PhysicalAllocator::new(2, &[0..(2 << 30) + 1]);

    allocator.allocate(0).unwrap();
    allocator.deallocate(0x0, 0);
    assert_eq!(allocator.allocate(5).unwrap(), 0x0);
}

#[test]
fn test_init() {
    let mut allocator = PhysicalAllocator::uninitialized();

    allocator.init_prelim(9, &[0..(9 << 30) + 1]);

    assert!(!allocator.is_tree_initialized(8));
    assert!(allocator.is_tree_initialized(7));

    allocator.init_rest(9, &[0..(9 << 30) + 1]);

    assert!(allocator.is_tree_initialized(8));
}

#[test]
fn allocation_moves_to_the_next_gib_when_one_is_full() {
    let mut allocator = PhysicalAllocator::new(2, &[0..(2 << 30) + 1]);
    assert_eq!(allocator.allocate(18), Some(0));
    assert_eq!(allocator.allocate(18), Some(1 << 30));
    assert_eq!(allocator.allocate(0), None);
}

#[test]
fn localize_keeps_ranges_of_the_gib_relative_to_it() {
    let local = localize(1, &[0..0x1000, (1 << 30) + 0x2000..(1 << 30) + 0x5000, 0..(3 << 30)]);
    assert_eq!(local, vec![0x2000..0x5000, 0..(2 << 30)]);
}
