//! The kernel heap: a buddy tree over a gigabyte of virtual memory, the order of block each
//! request takes, and which pages each allocation and deallocation maps or unmaps.

use vstd::prelude::*;
use vstd::arithmetic::power2::*;
use vstd::bits::*;
use core::ops::Range;
use crate::buddy::{
    Tree, blocks_in_tree, spec_blocks_in_tree, can_allocate, alloc_node, node_address,
    allocated_tree, can_deallocate, freed_tree, tree_wf, law_allocate_then_deallocate,
    initial_tree, law_allocations_distinct, can_allocate_times, allocation_node,
};
use crate::util::{round_up_divide, spec_round_up_divide};

verus! {

/// The base heap address.
pub const HEAP_START: u64 = 0xffffffff40000000;
/// The size of the heap, as a power of two.
pub const HEAP_SIZE_ORDER: u64 = 30;
/// The order of the smallest block, as a power of two of bytes.
pub const BASE_ORDER: u8 = 6;
/// The levels of the heap's tree.
pub const LEVEL_COUNT: u8 = 25;
/// The largest order a block can have.
pub const MAX_ORDER: u8 = 24;
/// The order of a block that is one page.
pub const PAGE_ORDER: u8 = 6;

proof fn lemma_pow2_increases(a: nat, b: nat)
    requires
        a <= b,
    ensures
        pow2(a) <= pow2(b),
{
    if a < b {
        lemma_pow2_strictly_increases(a, b);
    }
}

/// The floor of the base 2 logarithm (0 for 0 and 1).
pub open spec fn spec_log2_floor(value: nat) -> nat
    decreases value,
{
    if value <= 1 {
        0
    } else {
        1 + spec_log2_floor(value / 2)
    }
}

/// The ceiling of the base 2 logarithm of a positive value.
pub open spec fn spec_log2_ceil(value: nat) -> nat {
    if value == pow2(spec_log2_floor(value)) {
        spec_log2_floor(value)
    } else {
        spec_log2_floor(value) + 1
    }
}

/// The order of the block that a request of `value` bytes takes: one more than the ceiling of
/// its logarithm, less the base order.
pub open spec fn spec_order(value: nat) -> nat {
    if value == 0 {
        0
    } else if spec_log2_ceil(value) + 1 > BASE_ORDER {
        (spec_log2_ceil(value) + 1 - BASE_ORDER) as nat
    } else {
        0
    }
}

proof fn lemma_log2_floor_bounds(value: nat)
    requires
        value >= 1,
    ensures
        pow2(spec_log2_floor(value)) <= value < pow2(spec_log2_floor(value) + 1),
    decreases value,
{
    if value <= 1 {
        lemma2_to64();
    } else {
        lemma_log2_floor_bounds(value / 2);
        lemma_pow2_unfold(spec_log2_floor(value));
        lemma_pow2_unfold(spec_log2_floor(value) + 1);
    }
}

proof fn lemma_log2_floor_below(value: nat, bits: nat)
    requires
        1 <= value < pow2(bits),
    ensures
        spec_log2_floor(value) < bits,
{
    lemma_log2_floor_bounds(value);
    if spec_log2_floor(value) >= bits {
        lemma_pow2_increases(bits, spec_log2_floor(value));
    }
}

/// A request fits in the block it takes: the block of its order holds at least as many bytes.
pub proof fn law_order_fits(value: nat)
    requires
        value > 0,
    ensures
        value <= pow2(spec_order(value) + BASE_ORDER as nat),
{
    lemma_log2_floor_bounds(value);
    let floor = spec_log2_floor(value);
    let ceil = spec_log2_ceil(value);
    assert(value <= pow2(ceil));
    lemma_pow2_increases(ceil, spec_order(value) + BASE_ORDER as nat);
}

/// The floor of the base 2 logarithm of `value`.
pub fn log2_floor(value: u64) -> (log2: u8)
    ensures
        log2 == spec_log2_floor(value as nat),
        value >= 1 ==> log2 < 64,
{
    let mut val = value;
    let mut log2: u8 = 0;
    proof {
        if value >= 1 {
            lemma2_to64();
            lemma_log2_floor_below(value as nat, 64);
        }
    }
    while val > 1
        invariant
            log2 + spec_log2_floor(val as nat) == spec_log2_floor(value as nat),
            value >= 1 ==> spec_log2_floor(value as nat) < 64,
            value == 0 ==> val == 0,
        decreases val,
    {
        val = val / 2;
        log2 = log2 + 1;
    }
    log2
}

/// The ceiling of the base 2 logarithm of a positive `value`.
pub fn log2_ceil(value: u64) -> (log2: u8)
    requires
        value >= 1,
    ensures
        log2 == spec_log2_ceil(value as nat),
        log2 <= 64,
{
    let log2 = log2_floor(value);
    proof {
        lemma_u64_pow2_no_overflow(log2 as nat);
        lemma_u64_shl_is_mul(1, log2 as u64);
    }
    if value != (1u64 << log2 as u64) {
        log2 + 1
    } else {
        log2
    }
}

/// The order of the block that a request of `value` bytes takes.
pub fn order(value: usize) -> (order: u8)
    ensures
        order == spec_order(value as nat),
{
    if value == 0 {
        return 0;
    }
    let log2 = log2_ceil(value as u64) + 1;
    if log2 > BASE_ORDER {
        log2 - BASE_ORDER
    } else {
        0
    }
}

/// The `count` page addresses starting at `start`, one page apart.
pub open spec fn pages_from(start: int, count: nat) -> Seq<u64> {
    Seq::new(count, |i: int| (start + i * 4096) as u64)
}

fn push_pages(out: &mut Vec<u64>, start: u64, count: u64)
    requires
        start + count * 4096 <= u64::MAX,
    ensures
        final(out)@ == old(out)@ + pages_from(start as int, count as nat),
{
    let mut page: u64 = 0;
    while page < count
        invariant
            page <= count,
            start + count * 4096 <= u64::MAX,
            out@ == old(out)@ + pages_from(start as int, page as nat),
        decreases count - page,
    {
        assert(start + page * 4096 <= start + count * 4096) by (nonlinear_arith)
            requires
                page < count,
        ;
        out.push(start + page * 4096);
        page = page + 1;
        assert(out@ =~= old(out)@ + pages_from(start as int, page as nat));
    }
}

/// The pages spanned by a block of order `order` as the heap counts them for allocation and
/// deallocation: half the block, rounded up to whole pages.
pub open spec fn block_pages(order: nat) -> nat {
    spec_round_up_divide(pow2((order + BASE_ORDER - 1) as nat), 4096)
}

/// The pages spanned by a block of order `order`, as mapped for a specific physical region.
pub open spec fn specific_pages(order: nat) -> nat {
    spec_round_up_divide(pow2(order + BASE_ORDER as nat), 4096)
}

fn count_pages(shift: u8) -> (count: u64)
    requires
        shift <= 30,
    ensures
        count == spec_round_up_divide(pow2(shift as nat), 4096),
        count <= 0x40000,
{
    proof {
        lemma_u64_pow2_no_overflow(shift as nat);
        lemma_u64_shl_is_mul(1, shift as u64);
        lemma_pow2_increases(shift as nat, 30);
        lemma2_to64();
    }
    let count = round_up_divide(1u64 << shift as u64, 4096);
    assert(count <= 0x40000) by (nonlinear_arith)
        requires
            count > 0 ==> (count - 1) * 4096 < pow2(shift as nat),
            pow2(shift as nat) <= 0x40000000,
    ;
    count
}

/// The kernel heap. It must be initialized before use.
pub struct Heap {
    tree: Option<Tree>,
}

impl Heap {
    pub closed spec fn spec_tree(&self) -> Option<Tree> {
        self.tree
    }

    /// Once made, the heap's tree is well formed and has the heap's shape.
    #[verifier::type_invariant]
    closed spec fn tree_shape(&self) -> bool {
        self.tree matches Some(tree) ==> {
            &&& tree.wf()
            &&& tree.levels() == LEVEL_COUNT
            &&& tree.base() == BASE_ORDER
        }
    }

    /// The heap has been initialized.
    pub open spec fn ready(&self) -> bool {
        self.spec_tree() is Some
    }

    /// Whether the heap has been initialized.
    pub fn is_initialized(&self) -> (initialized: bool)
        ensures
            initialized == self.ready(),
    {
        self.tree.is_some()
    }

    /// Whether the block that a request of `size` bytes took at `ptr` can be freed: the
    /// pointer lies in the heap and the block of its order there is in use.
    pub fn can_dealloc(&self, ptr: u64, size: usize) -> (ok: bool)
        requires
            self.ready(),
        ensures
            ok == (HEAP_START <= ptr < HEAP_START + 0x4000_0000 && can_deallocate(
                self.spec_tree()->0@,
                LEVEL_COUNT as nat,
                BASE_ORDER as nat,
                (ptr - HEAP_START) as nat,
                spec_order(size as nat),
            )),
    {
        proof {
            use_type_invariant(self);
        }
        if ptr < HEAP_START || ptr >= HEAP_START + 0x4000_0000 {
            return false;
        }
        let o = order(size);
        match &self.tree {
            Some(tree) => tree.can_deallocate((ptr - HEAP_START) as usize, o),
            None => false,
        }
    }

    /// An uninitialized heap.
    pub fn new() -> (heap: Heap)
        ensures
            heap.spec_tree() is None,
    {
        Heap { tree: None }
    }

    /// The size in bytes of the heap's tree: one byte per block.
    pub fn tree_size() -> (size: usize)
        ensures
            size == spec_blocks_in_tree(LEVEL_COUNT as nat),
    {
        blocks_in_tree(LEVEL_COUNT)
    }

    /// Initializes the heap (only the first time) over its whole gigabyte. Returns where the
    /// tree's accounting goes: the page after `heap_tree_start`, and how many pages it takes
    /// there, which must be mapped.
    pub fn init(&mut self, heap_tree_start: u64) -> (placement: (u64, u64))
        requires
            heap_tree_start < 0xffff_ffff_ffff_e000,
        ensures
            placement.0 == (heap_tree_start / 4096 + 1) * 4096,
            placement.1 == spec_round_up_divide(spec_blocks_in_tree(LEVEL_COUNT as nat), 4096),
            final(self).ready(),
            old(self).spec_tree() is Some ==> final(self).spec_tree() == old(self).spec_tree(),
            old(self).spec_tree() is None ==> initial_tree(
                final(self).spec_tree()->0@,
                seq![0usize..0x8000_0000usize],
                LEVEL_COUNT as nat,
                BASE_ORDER as nat,
            ),
    {
        if self.tree.is_none() {
            let areas = [0usize..0x8000_0000usize];
            proof {
                assert(areas@ =~= seq![0usize..0x8000_0000usize]);
            }
            self.tree = Some(Tree::new(&areas, LEVEL_COUNT, BASE_ORDER));
        }
        let size = Self::tree_size();
        let pages = round_up_divide(size as u64, 4096);
        ((heap_tree_start / 4096 + 1) * 4096, pages)
    }

    /// Allocates a block for a request of `size` bytes: returns its address and the pages it
    /// spans, which must be mapped if they are not yet. No block is handed out when the order is
    /// larger than the heap or when no block of the order is free.
    pub fn allocate(&mut self, size: usize) -> (result: Option<(u64, Vec<u64>)>)
        requires
            old(self).ready(),
        ensures
            final(self).ready(),
            ({
                let b = old(self).spec_tree()->0@;
                let o = spec_order(size as nat);
                if o > MAX_ORDER || !can_allocate(b, o) {
                    result is None && final(self).spec_tree() == old(self).spec_tree()
                } else {
                    let ptr = HEAP_START + node_address(
                        LEVEL_COUNT as nat,
                        BASE_ORDER as nat,
                        alloc_node(b, LEVEL_COUNT as nat, o),
                    );
                    &&& result matches Some(found)
                    &&& found.0 == ptr
                    &&& ptr < HEAP_START + 0x4000_0000
                    &&& found.1@ == pages_from(ptr, block_pages(o))
                    &&& final(self).spec_tree()->0@ == allocated_tree(b, LEVEL_COUNT as nat, o)
                }
            }),
    {
        proof {
            use_type_invariant(&*self);
        }
        let o = order(size);
        if o > MAX_ORDER {
            return None;
        }
        let mut slot: Option<Tree> = None;
        std::mem::swap(&mut slot, &mut self.tree);
        let mut tree = slot.unwrap();
        let offset = tree.allocate(o);
        self.tree = Some(tree);
        match offset {
            None => None,
            Some(offset) => {
                proof {
                    lemma2_to64();
                }
                let ptr = offset as u64 + HEAP_START;
                let count = count_pages(o + BASE_ORDER - 1);
                let mut pages = Vec::new();
                push_pages(&mut pages, ptr, count);
                Some((ptr, pages))
            },
        }
    }

    /// Frees the block of a request of `size` bytes at `ptr` (nothing for a null pointer), and
    /// returns the pages to unmap and free. A block smaller than a page only gives back its page
    /// when the whole page is free again; a larger block gives back the pages it spans.
    pub fn dealloc(&mut self, ptr: u64, size: usize) -> (pages: Vec<u64>)
        requires
            old(self).ready(),
            ptr != 0 ==> HEAP_START <= ptr < HEAP_START + 0x4000_0000,
            ptr != 0 ==> can_deallocate(
                old(self).spec_tree()->0@,
                LEVEL_COUNT as nat,
                BASE_ORDER as nat,
                (ptr - HEAP_START) as nat,
                spec_order(size as nat),
            ),
        ensures
            final(self).ready(),
            ptr == 0 ==> pages@.len() == 0 && final(self).spec_tree() == old(self).spec_tree(),
            ptr != 0 ==> ({
                let offset = (ptr - HEAP_START) as nat;
                let o = spec_order(size as nat);
                let after = freed_tree(
                    old(self).spec_tree()->0@,
                    LEVEL_COUNT as nat,
                    BASE_ORDER as nat,
                    offset,
                    o,
                );
                &&& final(self).spec_tree()->0@ == after
                &&& pages@ == (if o < PAGE_ORDER {
                    if after[0x3ffff + offset as int / 4096] == PAGE_ORDER + 1 {
                        seq![(HEAP_START + offset / 4096 * 4096) as u64]
                    } else {
                        Seq::<u64>::empty()
                    }
                } else {
                    pages_from(ptr as int, block_pages(o))
                })
            }),
    {
        proof {
            use_type_invariant(&*self);
        }
        let mut pages = Vec::new();
        if ptr == 0 {
            return pages;
        }
        let o = order(size);
        let offset = (ptr - HEAP_START) as usize;
        let mut slot: Option<Tree> = None;
        std::mem::swap(&mut slot, &mut self.tree);
        let mut tree = slot.unwrap();
        tree.deallocate(offset, o);
        proof {
            tree.lemma_wf_shape();
            lemma2_to64();
            lemma2_to64_rest();
        }
        if o < PAGE_ORDER {
            let page_base = offset / 4096 * 4096;
            let level = MAX_ORDER - PAGE_ORDER;
            let level_offset = blocks_in_tree(level);
            let index = level_offset + page_base / 4096 + 1;
            let order_free = tree.block(index - 1).order_free;
            if order_free == PAGE_ORDER + 1 {
                pages.push(page_base as u64 + HEAP_START);
            }
        } else {
            let count = count_pages(o + BASE_ORDER - 1);
            push_pages(&mut pages, ptr, count);
        }
        self.tree = Some(tree);
        pages
    }

    /// Allocates a block of at least `frames` pages for the physical frames from
    /// `physical_begin_frame` on: returns its address and the page to frame mappings to make.
    pub fn alloc_specific(&mut self, physical_begin_frame: u64, frames: usize) -> (result: Option<
        (u64, Vec<(u64, u64)>),
    >)
        requires
            old(self).ready(),
            frames * 4096 <= usize::MAX,
            physical_begin_frame + 0x40000 <= u64::MAX / 4096,
        ensures
            final(self).ready(),
            ({
                let b = old(self).spec_tree()->0@;
                let o = spec_order((frames * 4096) as nat);
                if o > MAX_ORDER || !can_allocate(b, o) {
                    result is None && final(self).spec_tree() == old(self).spec_tree()
                } else {
                    let ptr = HEAP_START + node_address(
                        LEVEL_COUNT as nat,
                        BASE_ORDER as nat,
                        alloc_node(b, LEVEL_COUNT as nat, o),
                    );
                    &&& result matches Some(found)
                    &&& found.0 == ptr
                    &&& ptr < HEAP_START + 0x4000_0000
                    &&& found.1@.len() == specific_pages(o)
                    &&& forall|i: int|
                        0 <= i < specific_pages(o) ==> #[trigger] found.1@[i] == (
                            (ptr + i * 4096) as u64,
                            ((physical_begin_frame + i) * 4096) as u64,
                        )
                    &&& final(self).spec_tree()->0@ == allocated_tree(b, LEVEL_COUNT as nat, o)
                }
            }),
    {
        proof {
            use_type_invariant(&*self);
        }
        let o = order(frames * 4096);
        if o > MAX_ORDER {
            return None;
        }
        let mut slot: Option<Tree> = None;
        std::mem::swap(&mut slot, &mut self.tree);
        let mut tree = slot.unwrap();
        let offset = tree.allocate(o);
        self.tree = Some(tree);
        match offset {
            None => None,
            Some(offset) => {
                proof {
                    lemma2_to64();
                }
                let ptr = offset as u64 + HEAP_START;
                let count = count_pages(o + BASE_ORDER);
                let mut mappings: Vec<(u64, u64)> = Vec::new();
                let mut page: u64 = 0;
                while page < count
                    invariant
                        page <= count,
                        count <= 0x40000,
                        ptr < HEAP_START + 0x4000_0000,
                        physical_begin_frame + 0x40000 <= u64::MAX / 4096,
                        mappings@.len() == page,
                        forall|i: int|
                            0 <= i < page ==> #[trigger] mappings@[i] == (
                                (ptr + i * 4096) as u64,
                                ((physical_begin_frame + i) * 4096) as u64,
                            ),
                    decreases count - page,
                {
                    mappings.push((ptr + page * 4096, (physical_begin_frame + page) * 4096));
                    page = page + 1;
                }
                Some((ptr, mappings))
            },
        }
    }

    /// Frees a block made by `alloc_specific` at `ptr` for `frames` frames (nothing for a null
    /// pointer or no frames): returns the pages to unmap, whose physical memory is not freed.
    pub fn dealloc_specific(&mut self, ptr: u64, frames: usize) -> (pages: Vec<u64>)
        requires
            old(self).ready(),
            frames * 4096 <= usize::MAX,
            ptr != 0 && frames != 0 ==> HEAP_START <= ptr < HEAP_START + 0x4000_0000,
            ptr != 0 && frames != 0 ==> can_deallocate(
                old(self).spec_tree()->0@,
                LEVEL_COUNT as nat,
                BASE_ORDER as nat,
                (ptr - HEAP_START) as nat,
                spec_order((frames * 4096) as nat),
            ),
        ensures
            final(self).ready(),
            ptr == 0 || frames == 0 ==> pages@.len() == 0 && final(self).spec_tree() == old(
                self,
            ).spec_tree(),
            ptr != 0 && frames != 0 ==> ({
                let o = spec_order((frames * 4096) as nat);
                &&& final(self).spec_tree()->0@ == freed_tree(
                    old(self).spec_tree()->0@,
                    LEVEL_COUNT as nat,
                    BASE_ORDER as nat,
                    (ptr - HEAP_START) as nat,
                    o,
                )
                &&& pages@ == pages_from(ptr as int, specific_pages(o))
            }),
    {
        proof {
            use_type_invariant(&*self);
        }
        let mut pages = Vec::new();
        if ptr == 0 || frames == 0 {
            return pages;
        }
        let o = order(frames * 4096);
        let offset = (ptr - HEAP_START) as usize;
        let mut slot: Option<Tree> = None;
        std::mem::swap(&mut slot, &mut self.tree);
        let mut tree = slot.unwrap();
        tree.deallocate(offset, o);
        self.tree = Some(tree);
        let count = count_pages(o + BASE_ORDER);
        push_pages(&mut pages, ptr, count);
        pages
    }
}

/// Freeing what the heap handed out for a request puts the heap back as it was: the block at
/// the address `allocate` gave can be handed back with the same size, and the tree is then the
/// tree from before the allocation.
pub proof fn law_heap_dealloc_undoes_allocate(tree: Seq<u8>, size: nat)
    requires
        tree_wf(tree, LEVEL_COUNT as nat),
        spec_order(size) <= MAX_ORDER,
        can_allocate(tree, spec_order(size)),
    ensures
        ({
            let o = spec_order(size);
            let offset = node_address(
                LEVEL_COUNT as nat,
                BASE_ORDER as nat,
                alloc_node(tree, LEVEL_COUNT as nat, o),
            );
            let after = allocated_tree(tree, LEVEL_COUNT as nat, o);
            &&& can_deallocate(after, LEVEL_COUNT as nat, BASE_ORDER as nat, offset, o)
            &&& freed_tree(after, LEVEL_COUNT as nat, BASE_ORDER as nat, offset, o) == tree
        }),
{
    law_allocate_then_deallocate(tree, LEVEL_COUNT as nat, BASE_ORDER as nat, spec_order(size));
}

/// Successive requests of one size get blocks at different addresses: however many
/// allocations of `size` bytes follow one another, no two hand out the same address.
pub proof fn law_heap_allocations_distinct(tree: Seq<u8>, size: nat, k: nat)
    requires
        tree_wf(tree, LEVEL_COUNT as nat),
        spec_order(size) <= MAX_ORDER,
        can_allocate_times(tree, LEVEL_COUNT as nat, spec_order(size), k),
    ensures
        forall|i: nat, j: nat|
            i < j < k ==> HEAP_START + node_address(
                LEVEL_COUNT as nat,
                BASE_ORDER as nat,
                #[trigger] allocation_node(tree, LEVEL_COUNT as nat, spec_order(size), i),
            ) != HEAP_START + node_address(
                LEVEL_COUNT as nat,
                BASE_ORDER as nat,
                #[trigger] allocation_node(tree, LEVEL_COUNT as nat, spec_order(size), j),
            ),
{
    law_allocations_distinct(tree, LEVEL_COUNT as nat, BASE_ORDER as nat, spec_order(size), k);
}

} // verus!
