use std::collections::BTreeSet;

use flower::buddy::{blocks_in_level, blocks_in_tree, left_child, parent, Block, Tree};

const LEVEL_COUNT: u8 = 19;
const BASE_ORDER: u8 = 12;
const MAX_ORDER: u8 = LEVEL_COUNT - 1;
const MAX_ORDER_SIZE: u8 = BASE_ORDER + MAX_ORDER;

fn tree_over(usable: &[std::ops::Range<usize>]) -> Tree {
    Tree::new(usable, LEVEL_COUNT, BASE_ORDER)
}

#[test]
fn test_usable() {
    let mut tree = tree_over(&[0x1000..0x2001]);
    assert_eq!(tree.allocate(0), Some(1 << 12));
    assert_eq!(tree.allocate(0), None);
}

#[test]
fn test_flat_tree_fns() {
    //    1
    //  2   3
    // 4 5 6 7
    assert_eq!(left_child(1), 2);
    assert_eq!(parent(2), 1);
}

#[test]
fn test_blocks_in_tree() {
    assert_eq!(blocks_in_tree(3), 1 + 2 + 4);
    assert_eq!(blocks_in_tree(1), 1);
}

#[test]
fn test_blocks_in_level() {
    assert_eq!(blocks_in_level(2), 4);
    assert_eq!(blocks_in_level(0), 1);
}

#[test]
fn test_tree_runs_out_of_blocks() {
    let mut tree = tree_over(&[0..(1 << 30 + 1)]);
    let max_blocks = blocks_in_level(MAX_ORDER);

    for _ in 0..max_blocks {
        assert_ne!(tree.allocate(0), None);
    }
    assert_eq!(tree.allocate(0), None);
}

#[test]
fn test_init_tree() {
    let tree = tree_over(&[0..(1 << 30 + 1)]);

    // Highest level has 1 block, next has 2, next 4
    assert_eq!(tree.block(0).order_free, 19);

    assert_eq!(tree.block(1).order_free, 18);
    assert_eq!(tree.block(2).order_free, 18);

    assert_eq!(tree.block(3).order_free, 17);
    assert_eq!(tree.block(4).order_free, 17);
    assert_eq!(tree.block(5).order_free, 17);
    assert_eq!(tree.block(6).order_free, 17);
}

#[test]
fn test_allocate_exact() {
    let mut tree = tree_over(&[0..(1 << 30 + 1)]);
    tree.allocate(3).unwrap();

    tree = tree_over(&[0..(1 << 30 + 1)]);
    assert_eq!(tree.allocate(MAX_ORDER - 1), Some(0x0));
    assert_eq!(
        tree.allocate(MAX_ORDER - 1),
        Some(2usize.pow(MAX_ORDER_SIZE as u32) / 2)
    );
    assert_eq!(tree.allocate(0), None);
    assert_eq!(tree.allocate(MAX_ORDER - 1), None);

    tree = tree_over(&[0..(1 << 30 + 1)]);
    assert_eq!(tree.allocate(MAX_ORDER), Some(0x0));
    assert_eq!(tree.allocate(MAX_ORDER), None);
}

#[test]
fn test_free() {
    let mut tree = tree_over(&[0..(1 << 30 + 1)]);
    let ptr = tree.allocate(3).unwrap();
    tree.deallocate(ptr, 3);

    let ptr2 = tree.allocate(3).unwrap();
    assert_eq!(ptr2, ptr);
    tree.deallocate(ptr2, 3);

    let ptr = tree.allocate(1).unwrap();
    tree.deallocate(ptr, 1);

    let ptr = tree.allocate(0).unwrap();
    let ptr2 = tree.allocate(0).unwrap();

    tree.deallocate(ptr, 0);
    assert_eq!(tree.allocate(0).unwrap(), ptr);
    tree.deallocate(ptr2, 0);
    tree.deallocate(ptr, 0);

    assert_eq!(tree.allocate(5).unwrap(), 0x0);
}

#[test]
fn test_alloc_unique_addresses() {
    let max_blocks = blocks_in_level(MAX_ORDER);
    let mut seen = BTreeSet::new();
    let mut tree = tree_over(&[0..(1 << 30 + 1)]);

    for _ in 0..max_blocks {
        let addr = tree.allocate(0).unwrap();

        if seen.contains(&addr) {
            panic!("Allocator must return addresses never been allocated before!");
        } else {
            seen.insert(addr);
        }
    }
}

#[test]
fn block_constructors_record_free_orders() {
    assert_eq!(Block::new_free(0).order_free, 1);
    assert_eq!(Block::new_free(5).order_free, 6);
    assert_eq!(Block::new_used().order_free, 0);
}

#[test]
fn allocate_then_deallocate_restores_the_tree() {
    let mut tree = tree_over(&[0..(1 << 30 + 1)]);
    let first = tree.allocate(4).unwrap();
    let before: Vec<u8> = (0..blocks_in_tree(LEVEL_COUNT)).map(|i| tree.block(i).order_free).collect();
    let ptr = tree.allocate(7).unwrap();
    tree.deallocate(ptr, 7);
    let after: Vec<u8> = (0..blocks_in_tree(LEVEL_COUNT)).map(|i| tree.block(i).order_free).collect();
    assert_eq!(before, after);
    assert_eq!(first, 0);
}

#[test]
fn successive_allocations_of_an_order_differ() {
    let mut tree = tree_over(&[0..(1 << 30 + 1)]);
    let a = tree.allocate(2).unwrap();
    let b = tree.allocate(2).unwrap();
    assert_ne!(a, b);
    assert_eq!(b - a, 1 << (2 + 12));
}

#[test]
fn blocks_partly_outside_usable_areas_are_used() {
    // Only the leaf starting at 0x2000 lies completely inside the area.
    let mut tree = tree_over(&[0x1800..0x3000]);
    assert_eq!(tree.block(blocks_in_tree(MAX_ORDER)).order_free, 0);
    assert_eq!(tree.block(blocks_in_tree(MAX_ORDER) + 2).order_free, 1);
    assert_eq!(tree.allocate(1), None);
    assert_eq!(tree.allocate(0), Some(0x2000));
}
