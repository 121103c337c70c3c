use flower::paging::{Page, PageSize};
use flower::stack_allocator::StackAllocator;

#[test]
fn test_stack_alloc() {
    let mut allocator = StackAllocator::new(Page::containing_address(0, PageSize::Kib4), 10, 1);

    assert_eq!(allocator.allocate(), Some(0));
    assert!(allocator.allocate() != allocator.allocate());
    assert_eq!(allocator.allocate(), Some(3 << 12));
}

#[test]
fn test_stack_alloc_runs_out() {
    let mut allocator = StackAllocator::new(Page::containing_address(0, PageSize::Kib4), 10, 1);

    for _ in 0..10 {
        allocator.allocate();
    }

    assert_eq!(allocator.allocate(), None);
}

#[test]
fn stacks_are_spaced_by_their_size() {
    let base = Page::containing_address(0x10_0000, PageSize::Kib4);
    let mut allocator = StackAllocator::new(base, 3, 4);
    assert_eq!(allocator.allocate(), Some(0x10_0000));
    assert_eq!(allocator.allocate(), Some(0x10_0000 + 4 * 4096));
    assert_eq!(allocator.allocate(), Some(0x10_0000 + 8 * 4096));
    assert_eq!(allocator.allocate(), None);
}
