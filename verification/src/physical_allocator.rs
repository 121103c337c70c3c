//! The physical frame allocator: one buddy tree per GiB of physical memory.

use vstd::prelude::*;
use vstd::arithmetic::power2::*;
use core::ops::Range;
use crate::buddy::{
    Tree, can_allocate, alloc_node, node_address, allocated_tree, can_deallocate, freed_tree, initial_tree,
    descend, level_of, alloc_level, node_order, lemma_on_level_of, dealloc_node, lemma_allocation,
    law_used_stays_used, lemma_offset_bound,
};

verus! {

/// Number of levels of each tree.
pub const LEVEL_COUNT: u8 = 19;
/// The base order size: a block of order `k` spans `2^(k + BASE_ORDER)` bytes.
pub const BASE_ORDER: u8 = 12;
/// The largest order a tree hands out.
pub const MAX_ORDER: u8 = 18;
/// The number of GiB (and so of trees) the allocator can manage.
pub const TREE_COUNT: usize = 256;
/// The number of GiB set up by the first stage of initialisation.
pub const PRELIM_GIBIBYTES: usize = 8;

/// Whether a usable range reaches into GiB `gib`.
pub open spec fn overlaps_gib(gib: nat, r: Range<usize>) -> bool {
    !(r.start > (gib + 1) * pow2(30) + 1) && !(r.end < gib * pow2(30))
}

/// A usable range made local to GiB `gib`.
pub open spec fn localize_range(gib: nat, r: Range<usize>) -> Range<usize> {
    Range {
        start: if r.start >= gib * pow2(30) {
            (r.start - gib * pow2(30)) as usize
        } else {
            0
        },
        end: (r.end - gib * pow2(30)) as usize,
    }
}

/// The usable ranges that apply to GiB `gib`, made local to it.
pub open spec fn localized(gib: nat, usable: Seq<Range<usize>>) -> Seq<Range<usize>>
    decreases usable.len(),
{
    if usable.len() == 0 {
        Seq::empty()
    } else {
        let rest = localized(gib, usable.drop_last());
        if overlaps_gib(gib, usable.last()) {
            rest.push(localize_range(gib, usable.last()))
        } else {
            rest
        }
    }
}

/// Whether tree slot `slot` can hand out a block of `order`.
pub open spec fn slot_can_allocate(slot: Option<Tree>, order: nat) -> bool {
    slot matches Some(tree) && can_allocate(tree@, order)
}

/// Whether a tree is a well-formed tree of one GiB.
pub open spec fn gib_tree(tree: Tree) -> bool {
    &&& tree.wf()
    &&& tree.levels() == LEVEL_COUNT
    &&& tree.base() == BASE_ORDER
}

/// The tree for GiB `gib` built from the allocator's usable ranges.
pub open spec fn gib_tree_from(tree: Tree, gib: nat, usable: Seq<Range<usize>>) -> bool {
    &&& gib_tree(tree)
    &&& initial_tree(tree@, localized(gib, usable), LEVEL_COUNT as nat, BASE_ORDER as nat)
}

/// Filter out the ranges that apply to GiB `gib` and make them local to it.
pub fn localize(gib: u8, usable: &[Range<usize>]) -> (local: Vec<Range<usize>>)
    ensures
        local@ == localized(gib as nat, usable@),
{
    proof {
        lemma2_to64();
        vstd::bits::lemma_u64_shl_is_mul(gib as u64, 30);
        vstd::bits::lemma_u64_shl_is_mul((gib + 1) as u64, 30);
    }
    let gib_start: u64 = (gib as u64) << 30u64;
    let gib_end: u64 = ((gib as u64 + 1) << 30u64) + 1;
    let mut local: Vec<Range<usize>> = Vec::new();
    let mut i: usize = 0;
    while i < usable.len()
        invariant
            i <= usable@.len(),
            gib_start == gib * pow2(30),
            gib_end == (gib + 1) * pow2(30) + 1,
            local@ == localized(gib as nat, usable@.take(i as int)),
        decreases usable@.len() - i,
    {
        let range = &usable[i];
        assert(usable@.take(i + 1).drop_last() =~= usable@.take(i as int));
        assert(usable@.take(i + 1).last() == usable@[i as int]);
        if !(range.start as u64 > gib_end) && !((range.end as u64) < gib_start) {
            let end = (range.end as u64 - gib_start) as usize;
            let begin = if range.start as u64 >= gib_start {
                (range.start as u64 - gib_start) as usize
            } else {
                0
            };
            local.push(Range { start: begin, end });
        }
        i = i + 1;
    }
    assert(usable@.take(usable@.len() as int) =~= usable@);
    local
}

/// The trees `after` are the trees `before` once a block of `order` at `address` was taken
/// from the first tree that had one: that tree is `allocated_tree` of itself, the block is the
/// one `alloc_node` picks in it, and the other trees stay as they were.
pub open spec fn allocated_from(
    before: Seq<Option<Tree>>,
    after: Seq<Option<Tree>>,
    order: nat,
    address: usize,
) -> bool {
    &&& after.len() == before.len()
    &&& exists|j: int|
        0 <= j < TREE_COUNT && #[trigger] slot_can_allocate(before[j], order) && (forall|k: int|
            0 <= k < j ==> !slot_can_allocate(#[trigger] before[k], order)) && ({
            let tree = before[j]->Some_0;
            let n = alloc_node(tree@, LEVEL_COUNT as nat, order);
            &&& address == j * pow2(30) + node_address(LEVEL_COUNT as nat, BASE_ORDER as nat, n)
            &&& after[j] matches Some(t) && t@ == allocated_tree(tree@, LEVEL_COUNT as nat, order)
                && gib_tree(t)
            &&& forall|k: int| 0 <= k < TREE_COUNT && k != j ==> #[trigger] after[k] == before[k]
        })
}

proof fn lemma_descend_at_least(b: Seq<u8>, d: nat, n: nat, k: nat)
    requires
        n >= 1,
    ensures
        descend(b, d, n, k) >= n,
    decreases k,
{
    if k > 0 {
        lemma_descend_at_least(b, d, 2 * n, (k - 1) as nat);
        lemma_descend_at_least(b, d, 2 * n + 1, (k - 1) as nat);
    }
}

/// A block of order `order` that a tree hands out, at GiB `gib`, starts on a page boundary.
proof fn lemma_block_page_aligned(b: Seq<u8>, order: nat, gib: nat, offset: nat)
    requires
        order <= MAX_ORDER,
        level_of(alloc_node(b, LEVEL_COUNT as nat, order)) == alloc_level(LEVEL_COUNT as nat, order),
        offset == node_address(LEVEL_COUNT as nat, BASE_ORDER as nat, alloc_node(b, LEVEL_COUNT as nat, order)),
    ensures
        (gib * pow2(30) + offset) % 4096 == 0,
{
    let n = alloc_node(b, LEVEL_COUNT as nat, order);
    lemma_descend_at_least(b, order, 1, alloc_level(LEVEL_COUNT as nat, order));
    lemma_on_level_of(n);
    let m: int = n - pow2(level_of(n));
    assert(m >= 0);
    assert(node_order(LEVEL_COUNT as nat, n) == order);
    lemma_pow2_adds(12, order);
    lemma_pow2_adds(12, 18);
    lemma2_to64();
    let p = pow2(order);
    assert(offset == m * (4096 * p));
    let q: int = m * p + gib * pow2(18);
    assert(gib * pow2(30) + offset == 4096 * q) by (nonlinear_arith)
        requires
            offset == m * (4096 * p),
            pow2(30) == 4096 * pow2(18),
            q == m * p + gib * pow2(18),
    ;
    vstd::arithmetic::div_mod::lemma_mod_multiples_basic(q, 4096);
}


/// The physical frame allocator.
pub struct PhysicalAllocator {
    trees: Vec<Option<Tree>>,
}

impl PhysicalAllocator {
    pub closed spec fn view(&self) -> Seq<Option<Tree>> {
        self.trees@
    }

    /// Whether the first stage of initialisation has run.
    pub open spec fn initialized(&self) -> bool {
        self@.len() == TREE_COUNT
    }

    pub open spec fn wf(&self) -> bool {
        &&& self@.len() == 0 || self.initialized()
        &&& forall|i: int|
            0 <= i < self@.len() && #[trigger] self@[i] is Some ==> gib_tree(self@[i]->Some_0) && (
            i + 1) * pow2(30) <= usize::MAX + 1
    }

    /// An allocator that is not yet initialised.
    pub fn uninitialized() -> (allocator: PhysicalAllocator)
        ensures
            allocator.wf(),
            allocator@.len() == 0,
    {
        PhysicalAllocator { trees: Vec::new() }
    }

    /// Create a new, initialised allocator over `gibibytes` GiB.
    pub fn new(gibibytes: u8, usable: &[Range<usize>]) -> (allocator: PhysicalAllocator)
        requires
            (gibibytes + 1) * pow2(30) <= usize::MAX + 1,
        ensures
            allocator.wf(),
            allocator.initialized(),
            forall|i: int|
                0 <= i < TREE_COUNT ==> (#[trigger] allocator@[i] is Some <==> (i < gibibytes || (
                PRELIM_GIBIBYTES <= i <= gibibytes))),
            forall|i: int|
                0 <= i < TREE_COUNT && #[trigger] allocator@[i] is Some ==> gib_tree_from(
                    allocator@[i]->Some_0,
                    i as nat,
                    usable@,
                ),
    {
        let mut allocator = PhysicalAllocator::uninitialized();
        proof {
            vstd::arithmetic::mul::lemma_mul_inequality(
                gibibytes as int,
                (gibibytes + 1) as int,
                pow2(30) as int,
            );
        }
        allocator.init_prelim(gibibytes, usable);
        allocator.init_rest(gibibytes, usable);
        allocator
    }

    /// Initialise the allocator's first 8 GiB (the first stage of initialisation). Has no effect
    /// if the allocator is already initialised.
    pub fn init_prelim(&mut self, gibibytes: u8, usable: &[Range<usize>])
        requires
            old(self).wf(),
            gibibytes * pow2(30) <= usize::MAX + 1,
        ensures
            final(self).wf(),
            final(self).initialized(),
            old(self).initialized() ==> final(self)@ == old(self)@,
            !old(self).initialized() ==> forall|i: int|
                0 <= i < TREE_COUNT ==> (#[trigger] final(self)@[i] is Some <==> (i < gibibytes
                    && i < PRELIM_GIBIBYTES)),
            !old(self).initialized() ==> forall|i: int|
                0 <= i < TREE_COUNT && #[trigger] final(self)@[i] is Some ==> gib_tree_from(
                    final(self)@[i]->Some_0,
                    i as nat,
                    usable@,
                ),
    {
        if self.trees.len() == TREE_COUNT {
            return;
        }
        let mut trees: Vec<Option<Tree>> = Vec::new();
        let mut i: usize = 0;
        while i < TREE_COUNT
            invariant
                i <= TREE_COUNT,
                trees@.len() == i,
                gibibytes * pow2(30) <= usize::MAX + 1,
                forall|j: int| 0 <= j < i ==> (#[trigger] trees@[j] is Some <==> (j < gibibytes
                    && j < PRELIM_GIBIBYTES)),
                forall|j: int|
                    0 <= j < i && #[trigger] trees@[j] is Some ==> gib_tree_from(
                        trees@[j]->Some_0,
                        j as nat,
                        usable@,
                    ) && (j + 1) * pow2(30) <= usize::MAX + 1,
            decreases TREE_COUNT - i,
        {
            if i >= gibibytes as usize || i >= PRELIM_GIBIBYTES {
                trees.push(None);
            } else {
                let local = localize(i as u8, usable);
                let tree = Tree::new(local.as_slice(), LEVEL_COUNT, BASE_ORDER);
                proof {
                    vstd::arithmetic::mul::lemma_mul_inequality(
                        (i + 1) as int,
                        gibibytes as int,
                        pow2(30) as int,
                    );
                }
                trees.push(Some(tree));
            }
            i = i + 1;
        }
        self.trees = trees;
    }

    /// Initialise the rest of the allocator's GiB, from GiB 8 up to and including GiB
    /// `gibibytes` (the second stage of initialisation).
    pub fn init_rest(&mut self, gibibytes: u8, usable: &[Range<usize>])
        requires
            old(self).wf(),
            old(self).initialized(),
            (gibibytes + 1) * pow2(30) <= usize::MAX + 1,
        ensures
            final(self).wf(),
            final(self).initialized(),
            forall|i: int|
                0 <= i < TREE_COUNT ==> #[trigger] final(self)@[i] == if PRELIM_GIBIBYTES <= i
                    <= gibibytes {
                    final(self)@[i]
                } else {
                    old(self)@[i]
                },
            forall|i: int|
                PRELIM_GIBIBYTES <= i <= gibibytes ==> #[trigger] final(self)@[i] is Some
                    && gib_tree_from(final(self)@[i]->Some_0, i as nat, usable@),
    {
        let mut i: usize = PRELIM_GIBIBYTES;
        while i <= gibibytes as usize
            invariant
                PRELIM_GIBIBYTES <= i,
                i <= gibibytes + 1 || i == PRELIM_GIBIBYTES,
                self.wf(),
                self.initialized(),
                (gibibytes + 1) * pow2(30) <= usize::MAX + 1,
                forall|j: int|
                    0 <= j < TREE_COUNT ==> #[trigger] self@[j] == if PRELIM_GIBIBYTES <= j < i {
                        self@[j]
                    } else {
                        old(self)@[j]
                    },
                forall|j: int|
                    PRELIM_GIBIBYTES <= j < i ==> #[trigger] self@[j] is Some && gib_tree_from(
                        self@[j]->Some_0,
                        j as nat,
                        usable@,
                    ),
            decreases gibibytes + 1 - i,
        {
            let local = localize(i as u8, usable);
            let tree = Tree::new(local.as_slice(), LEVEL_COUNT, BASE_ORDER);
            proof {
                vstd::arithmetic::mul::lemma_mul_inequality(
                    (i + 1) as int,
                    (gibibytes + 1) as int,
                    pow2(30) as int,
                );
            }
            self.trees.set(i, Some(tree));
            i = i + 1;
        }
    }

    /// Whether the tree for GiB `gib` is set up.
    pub fn is_tree_initialized(&self, gib: usize) -> (initialized: bool)
        requires
            gib < self@.len(),
        ensures
            initialized == self@[gib as int] is Some,
    {
        self.trees[gib].is_some()
    }

    /// Allocate a frame of order `order`, trying the trees in order. Does __not__ zero the
    /// memory.
    pub fn allocate(&mut self, order: u8) -> (frame: Option<usize>)
        requires
            old(self).wf(),
            old(self).initialized(),
            order <= MAX_ORDER,
        ensures
            final(self).wf(),
            final(self).initialized(),
            frame is None ==> final(self)@ == old(self)@ && forall|j: int|
                0 <= j < TREE_COUNT ==> !slot_can_allocate(#[trigger] old(self)@[j], order as nat),
            frame matches Some(address) ==> allocated_from(old(self)@, final(self)@, order as nat, address)
                && address % 4096 == 0,
    {
        let mut index: usize = 0;
        while index < TREE_COUNT
            invariant
                index <= TREE_COUNT,
                self@ == old(self)@,
                self.wf(),
                self.initialized(),
                order <= MAX_ORDER,
                forall|k: int| 0 <= k < index ==> !slot_can_allocate(#[trigger] self@[k], order as nat),
            decreases TREE_COUNT - index,
        {
            let ghost before = self@;
            proof {
                lemma2_to64();
                vstd::bits::lemma_usize_shl_is_mul(1, 30);
                if before[index as int] is Some {
                    assert((index + 1) * pow2(30) <= usize::MAX + 1);
                    vstd::arithmetic::mul::lemma_mul_is_distributive_add_other_way(
                        pow2(30) as int,
                        index as int,
                        1,
                    );
                }
            }
            match &mut self.trees[index] {
                Some(tree) => {
                    proof {
                        assert(before[index as int] is Some);
                        assert(gib_tree(before[index as int]->Some_0));
                    }
                    match tree.allocate(order) {
                        Some(b) => {
                            assert(slot_can_allocate(before[index as int], order as nat));
                            assert(slot_can_allocate(old(self)@[index as int], order as nat));
                            proof {
                                lemma_block_page_aligned(
                                    before[index as int]->Some_0@,
                                    order as nat,
                                    index as nat,
                                    b as nat,
                                );
                            }
                            return Some(b + index * (1usize << 30usize));
                        },
                        None => {},
                    }
                },
                None => {},
            }
            index = index + 1;
        }
        None
    }

    /// Deallocate the block of `order` at `ptr`.
    pub fn deallocate(&mut self, ptr: usize, order: u8)
        requires
            old(self).wf(),
            old(self).initialized(),
            ptr as nat / pow2(30) < TREE_COUNT,
            old(self)@[(ptr as nat / pow2(30)) as int] matches Some(tree) && can_deallocate(
                tree@,
                LEVEL_COUNT as nat,
                BASE_ORDER as nat,
                ptr as nat % pow2(30),
                order as nat,
            ),
        ensures
            final(self).wf(),
            final(self).initialized(),
            ({
                let j = ptr as nat / pow2(30);
                let tree = old(self)@[j as int]->Some_0;
                &&& final(self)@[j as int] matches Some(t) && t@ == freed_tree(
                    tree@,
                    LEVEL_COUNT as nat,
                    BASE_ORDER as nat,
                    ptr as nat % pow2(30),
                    order as nat,
                ) && gib_tree(t)
                &&& forall|k: int|
                    0 <= k < TREE_COUNT && k != j ==> #[trigger] final(self)@[k] == old(self)@[k]
            }),
    {
        proof {
            lemma2_to64();
            vstd::bits::lemma_usize_shr_is_div(ptr, 30);
            vstd::bits::lemma_usize_shl_is_mul(1, 30);
        }
        let tree_index = ptr >> 30usize;
        let local = ptr % (1usize << 30usize);
        match &mut self.trees[tree_index] {
            Some(tree) => {
                tree.deallocate(local, order);
            },
            None => {},
        }
    }
}

/// Every slot holds nothing or a well-formed tree of one GiB.
pub open spec fn gib_slots(slots: Seq<Option<Tree>>) -> bool {
    &&& slots.len() == TREE_COUNT
    &&& forall|j: int| 0 <= j < TREE_COUNT && #[trigger] slots[j] is Some ==> gib_tree(slots[j]->Some_0)
}

/// The block of `order` at physical `address` is in use: its GiB has a tree, and the tree's node
/// for that block is used.
pub open spec fn frame_used(slots: Seq<Option<Tree>>, order: nat, address: nat) -> bool {
    let j = address / pow2(30);
    let n = dealloc_node(LEVEL_COUNT as nat, BASE_ORDER as nat, address % pow2(30), order);
    &&& 0 <= j < slots.len()
    &&& slots[j as int] matches Some(t) && 1 <= n <= t@.len() && t@[n - 1] == 0
}

/// One allocation: the block it hands out was free and is used after it, every block that was
/// used stays used, and the trees stay well formed.
proof fn lemma_allocation_step(before: Seq<Option<Tree>>, after: Seq<Option<Tree>>, order: nat, address: usize)
    requires
        gib_slots(before),
        order <= MAX_ORDER,
        allocated_from(before, after, order, address),
    ensures
        gib_slots(after),
        !frame_used(before, order, address as nat),
        frame_used(after, order, address as nat),
        forall|other: nat| #[trigger] frame_used(before, order, other) ==> frame_used(after, order, other),
{
    let j = choose|j: int|
        0 <= j < TREE_COUNT && #[trigger] slot_can_allocate(before[j], order) && (forall|k: int|
            0 <= k < j ==> !slot_can_allocate(#[trigger] before[k], order)) && ({
            let tree = before[j]->Some_0;
            let n = alloc_node(tree@, LEVEL_COUNT as nat, order);
            &&& address == j * pow2(30) + node_address(LEVEL_COUNT as nat, BASE_ORDER as nat, n)
            &&& after[j] matches Some(t) && t@ == allocated_tree(tree@, LEVEL_COUNT as nat, order)
                && gib_tree(t)
            &&& forall|k: int| 0 <= k < TREE_COUNT && k != j ==> #[trigger] after[k] == before[k]
        });
    let tree = before[j]->Some_0;
    let b = tree@;
    assert(before[j] is Some);
    assert(gib_tree(tree));
    tree.lemma_wf_shape();
    let levels = LEVEL_COUNT as nat;
    let l = alloc_level(levels, order);
    let n = alloc_node(b, levels, order);
    lemma_allocation(b, levels, order);
    let e = (order + BASE_ORDER) as nat;
    let offset = node_address(levels, BASE_ORDER as nat, n);
    lemma_on_level_of(n);
    assert(node_order(levels, n) == order);
    lemma_offset_bound(n, l, e);
    assert(l + e == 30);
    lemma_pow2_pos(e);
    lemma_pow2_pos(30);
    let q = n - pow2(l);
    assert(offset == q * pow2(e));
    vstd::arithmetic::div_mod::lemma_div_multiples_vanish(q, pow2(e) as int);
    vstd::arithmetic::mul::lemma_mul_is_commutative(q, pow2(e) as int);
    assert(offset / pow2(e) == q);
    vstd::arithmetic::div_mod::lemma_fundamental_div_mod_converse(
        address as int,
        pow2(30) as int,
        j,
        offset as int,
    );
    assert(address as nat / pow2(30) == j);
    assert(address as nat % pow2(30) == offset);
    assert(dealloc_node(levels, BASE_ORDER as nat, offset, order) == n);
    assert forall|k: int| 0 <= k < TREE_COUNT && #[trigger] after[k] is Some implies gib_tree(after[k]->Some_0) by {
        if k != j {
            assert(after[k] == before[k]);
        }
    }
    assert forall|other: nat| #[trigger] frame_used(before, order, other) implies frame_used(after, order, other) by {
        let jj = other / pow2(30);
        let nn = dealloc_node(levels, BASE_ORDER as nat, other % pow2(30), order);
        if jj != j {
            assert(after[jj as int] == before[jj as int]);
        } else {
            law_used_stays_used(b, levels, order, nn);
        }
    }
}

/// **Law: the physical allocator never hands out a frame twice.** Along any run of
/// allocations of one order (each as `allocate` makes it), the addresses handed out are all
/// different.
pub proof fn law_physical_allocations_distinct(
    states: Seq<Seq<Option<Tree>>>,
    addresses: Seq<usize>,
    order: nat,
)
    requires
        states.len() == addresses.len() + 1,
        gib_slots(states[0]),
        order <= MAX_ORDER,
        forall|i: int|
            0 <= i < addresses.len() ==> #[trigger] allocated_from(states[i], states[i + 1], order, addresses[i]),
    ensures
        forall|i: int, j: int| 0 <= i < j < addresses.len() ==> #[trigger] addresses[i] != #[trigger] addresses[j],
{
    assert forall|i: int, j: int| 0 <= i < j < addresses.len() implies #[trigger] addresses[i]
        != #[trigger] addresses[j] by {
        lemma_frames_stay_used(states, addresses, order, j as nat);
        assert(allocated_from(states[j], states[j + 1], order, addresses[j]));
        lemma_allocation_step(states[j], states[j + 1], order, addresses[j]);
    }
}

/// After the first `q` allocations of a run, every frame they handed out is used, and the trees
/// are well formed.
proof fn lemma_frames_stay_used(
    states: Seq<Seq<Option<Tree>>>,
    addresses: Seq<usize>,
    order: nat,
    q: nat,
)
    requires
        states.len() == addresses.len() + 1,
        gib_slots(states[0]),
        order <= MAX_ORDER,
        forall|i: int|
            0 <= i < addresses.len() ==> #[trigger] allocated_from(states[i], states[i + 1], order, addresses[i]),
        q <= addresses.len(),
    ensures
        gib_slots(states[q as int]),
        forall|i: int| 0 <= i < q ==> frame_used(states[q as int], order, #[trigger] addresses[i] as nat),
    decreases q,
{
    if q > 0 {
        let p = (q - 1) as nat;
        lemma_frames_stay_used(states, addresses, order, p);
        assert(allocated_from(states[p as int], states[p as int + 1], order, addresses[p as int]));
        lemma_allocation_step(states[p as int], states[q as int], order, addresses[p as int]);
        assert forall|i: int| 0 <= i < q implies frame_used(states[q as int], order, #[trigger] addresses[i] as nat) by {
            if i < p {
                assert(frame_used(states[p as int], order, addresses[i] as nat));
            }
        }
    }
}

} // verus!
