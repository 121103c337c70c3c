use flower::bootstrap_heap::{BootstrapAllocator, BootstrapHeap, OBJECTS8_NUMBER};

const START: usize = 0x10_0000;

#[test]
fn test_bitmap_dealloc() {
    let mut bitmap = BootstrapAllocator::<u8>::new_unchecked(START);

    let heap_box = bitmap.allocate_zeroed().unwrap();
    let old_ptr = heap_box.ptr;
    bitmap.deallocate(&heap_box);
    assert_eq!(bitmap.allocate_zeroed().unwrap().ptr, old_ptr);
}

#[test]
fn bootstrap_heap_test_bitmap_allocate_with_free() {
    let mut bitmap = BootstrapAllocator::<u8>::new_unchecked(START);

    assert_eq!(bitmap.allocate_zeroed().unwrap().ptr, START);
}

#[test]
fn bootstrap_heap_test_bitmap_allocate_runs_out() {
    let mut bitmap = BootstrapAllocator::<u8>::new_unchecked(START);
    let mut v = Vec::with_capacity(OBJECTS8_NUMBER * 8);

    for _ in 0..(OBJECTS8_NUMBER * 8) {
        let addr = bitmap.allocate_zeroed().unwrap();
        v.push(addr);
    }

    assert!(bitmap.allocate_zeroed().is_none());
}

#[test]
fn bootstrap_objects_are_handed_out_in_order_of_their_size() {
    let mut bitmap = BootstrapAllocator::<u32>::new_unchecked(START);
    for i in 0..(OBJECTS8_NUMBER * 8) {
        assert_eq!(bitmap.allocate_zeroed().unwrap().ptr, START + 4 * i);
    }
    assert_eq!(BootstrapAllocator::<u32>::space_taken(), 256);
    assert_eq!(bitmap.start(), START);
    // Freeing one in the middle makes it the next one given out.
    let middle = flower::bootstrap_heap::BootstrapHeapBox::<u32> { ptr: START + 4 * 9, _phantom: core::marker::PhantomData };
    bitmap.deallocate(&middle);
    assert_eq!(bitmap.allocate_zeroed().unwrap().ptr, START + 36);
}

#[test]
fn bootstrap_heap_starts_once() {
    let mut heap = BootstrapHeap::<[u8; 16]>::new();
    heap.init_unchecked(0x2000);
    heap.init_unchecked(0x9000);
    assert_eq!(heap.end(), 0x2000 + 16 * 64);
    assert_eq!(heap.allocate_zeroed().unwrap().ptr, 0x2000);
    assert_eq!(heap.allocate_zeroed().unwrap().ptr, 0x2010);
}
