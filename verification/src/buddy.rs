//! The bitmap buddy allocator tree shared by the kernel heap and the physical frame allocator.
//!
//! The tree is stored flat and is **1 indexed**: node `n` has children `2n` and `2n + 1` and
//! parent `n / 2`; the node lives at array index `n - 1`.

use vstd::prelude::*;
use vstd::arithmetic::power2::*;
use vstd::bits::*;
use core::ops::Range;

verus! {

/// A block in the bitmap: the order of the biggest free block under this block, plus one.
/// `0` denotes used.
#[derive(Clone, Copy)]
pub struct Block {
    pub order_free: u8,
}

impl Block {
    pub fn new_free(order: u8) -> (block: Block)
        requires
            order < 255,
        ensures
            block.order_free == order + 1,
    {
        Block { order_free: order + 1 }
    }

    pub fn new_used() -> (block: Block)
        ensures
            block.order_free == 0,
    {
        Block { order_free: 0 }
    }
}

/// Number of blocks in a complete tree of `levels` levels.
pub open spec fn spec_blocks_in_tree(levels: nat) -> nat {
    (pow2(levels) - 1) as nat
}

pub fn blocks_in_tree(levels: u8) -> (count: usize)
    requires
        levels <= 31,
    ensures
        count == spec_blocks_in_tree(levels as nat),
{
    proof {
        lemma_usize_pow2_no_overflow(levels as nat);
        lemma_usize_shl_is_mul(1, levels as usize);
    }
    (1usize << (levels as usize)) - 1
}

/// Number of blocks on level `level` (the root is level 0).
pub fn blocks_in_level(level: u8) -> (count: usize)
    requires
        level <= 30,
    ensures
        count == pow2(level as nat),
{
    let all = blocks_in_tree(level + 1);
    let above = blocks_in_tree(level);
    proof {
        lemma_pow2_unfold((level + 1) as nat);
        lemma_pow2_pos(level as nat);
    }
    all - above
}

/// Index of the left child of a node (1 indexed).
pub fn left_child(index: usize) -> (child: usize)
    requires
        2 * index <= usize::MAX,
    ensures
        child == 2 * index,
{
    proof {
        lemma2_to64();
        lemma_usize_shl_is_mul(index, 1);
    }
    index << 1usize
}

/// Index of the parent of a node (1 indexed).
pub fn parent(index: usize) -> (up: usize)
    ensures
        up == index / 2,
{
    proof {
        lemma2_to64();
        lemma_usize_shr_is_div(index, 1);
    }
    index >> 1usize
}


/// The tree level of node `n` (the root, node 1, is level 0).
pub open spec fn level_of(n: nat) -> nat
    decreases n,
{
    if n <= 1 {
        0
    } else {
        1 + level_of(n / 2)
    }
}

/// The order of node `n` in a tree of `levels` levels: leaves have order 0.
pub open spec fn node_order(levels: nat, n: nat) -> int {
    levels - 1 - level_of(n)
}

/// The value a node takes from its children: when both children are entirely free the two
/// buddies merge into a free block of the node's own order, otherwise the node records the larger
/// of the children's free orders.
pub open spec fn combine(left: u8, right: u8, order: int) -> int {
    if left == order && right == order {
        order + 1
    } else if left >= right {
        left as int
    } else {
        right as int
    }
}

/// Node `n` records no more than its own order (plus one) as free.
pub open spec fn bound_ok(b: Seq<u8>, levels: nat, n: nat) -> bool {
    b[n - 1] <= node_order(levels, n) + 1
}

/// Internal node `n` is either used (0) or summarises its two children.
pub open spec fn merge_ok(b: Seq<u8>, levels: nat, n: nat) -> bool {
    b[n - 1] == 0 || b[n - 1] == combine(b[2 * n - 1], b[(2 * n) as int], node_order(levels, n))
}

/// Well-formedness of a flat tree of `levels` levels, except possibly the merge rule at node
/// `x` (`x == 0` names no node, so the whole tree is well formed).
pub open spec fn tree_wf_except(b: Seq<u8>, levels: nat, x: nat) -> bool {
    &&& 2 <= levels <= 31
    &&& b.len() == spec_blocks_in_tree(levels)
    &&& forall|n: nat| 1 <= n < pow2(levels) ==> #[trigger] bound_ok(b, levels, n)
    &&& forall|n: nat|
        1 <= n < pow2((levels - 1) as nat) && n != x ==> #[trigger] merge_ok(b, levels, n)
}

pub open spec fn tree_wf(b: Seq<u8>, levels: nat) -> bool {
    tree_wf_except(b, levels, 0)
}

/// `n` lies on level `l`.
pub open spec fn on_level(n: nat, l: nat) -> bool {
    pow2(l) <= n < pow2(l + 1)
}

pub proof fn lemma_level_of(n: nat, l: nat)
    requires
        on_level(n, l),
    ensures
        level_of(n) == l,
    decreases l,
{
    lemma_pow2_pos(l);
    if l == 0 {
        lemma2_to64();
    } else {
        lemma_pow2_unfold(l);
        lemma_pow2_unfold(l + 1);
        lemma_level_of(n / 2, (l - 1) as nat);
    }
}

pub proof fn lemma_children_level(n: nat)
    requires
        n >= 1,
    ensures
        level_of(2 * n) == level_of(n) + 1,
        level_of(2 * n + 1) == level_of(n) + 1,
{
    assert((2 * n) / 2 == n);
    assert((2 * n + 1) / 2 == n);
}

/// Every node below `pow2(l)` lies on a level above `l`; nodes at or beyond `pow2(l)` lie on
/// level `l` or deeper.
pub proof fn lemma_level_bounds(n: nat, l: nat)
    requires
        n >= 1,
    ensures
        n < pow2(l) ==> level_of(n) < l,
        n >= pow2(l) ==> level_of(n) >= l,
    decreases n,
{
    lemma_pow2_pos(l);
    if n <= 1 {
        if l > 0 {
            lemma_pow2_strictly_increases(0, l);
        }
        lemma2_to64();
    } else {
        if l > 0 {
            lemma_pow2_unfold(l);
            lemma_level_bounds(n / 2, (l - 1) as nat);
        } else {
            lemma2_to64();
        }
    }
}

pub proof fn lemma_on_level_of(n: nat)
    requires
        n >= 1,
    ensures
        on_level(n, level_of(n)),
{
    let l = level_of(n);
    lemma_level_bounds(n, l);
    lemma_level_bounds(n, l + 1);
}


/// Node `p` recomputed from its children.
pub open spec fn recompute(b: Seq<u8>, levels: nat, p: nat) -> Seq<u8> {
    b.update(p - 1, combine(b[2 * p - 1], b[(2 * p) as int], node_order(levels, p)) as u8)
}

/// The first `k` ancestors of node `n`, recomputed bottom-up.
pub open spec fn update_above(b: Seq<u8>, levels: nat, n: nat, k: nat) -> Seq<u8>
    decreases k,
{
    if k == 0 {
        b
    } else {
        update_above(recompute(b, levels, n / 2), levels, n / 2, (k - 1) as nat)
    }
}

/// A value that node `n` may take without breaking its own rules.
pub open spec fn value_ok(b: Seq<u8>, levels: nat, n: nat, v: u8) -> bool {
    &&& v <= node_order(levels, n) + 1
    &&& n < pow2((levels - 1) as nat) ==> (v == 0 || v == combine(
        b[2 * n - 1],
        b[(2 * n) as int],
        node_order(levels, n),
    ))
}

/// Setting one node to an acceptable value leaves at most its parent to be fixed.
pub proof fn lemma_set_node(b: Seq<u8>, levels: nat, n: nat, v: u8)
    requires
        tree_wf(b, levels),
        1 <= n < pow2(levels),
        value_ok(b, levels, n, v),
    ensures
        tree_wf_except(b.update(n - 1, v), levels, n / 2),
{
    let b2 = b.update(n - 1, v);
    lemma_pow2_unfold(levels);
    assert forall|m: nat| 1 <= m < pow2(levels) implies #[trigger] bound_ok(b2, levels, m) by {
        assert(bound_ok(b, levels, m));
    }
    assert forall|m: nat|
        1 <= m < pow2((levels - 1) as nat) && m != n / 2 implies #[trigger] merge_ok(
        b2,
        levels,
        m,
    ) by {
        if m == n {
            assert(b2[2 * n - 1] == b[2 * n - 1]);
            assert(b2[(2 * n) as int] == b[(2 * n) as int]);
        } else {
            assert(merge_ok(b, levels, m));
            assert(2 * m != n && 2 * m + 1 != n);
        }
    }
}

/// Recomputing the node that breaks the merge rule moves the fault to its parent.
pub proof fn lemma_recompute_wf(b: Seq<u8>, levels: nat, p: nat)
    requires
        tree_wf_except(b, levels, p),
        1 <= p < pow2((levels - 1) as nat),
    ensures
        tree_wf_except(recompute(b, levels, p), levels, p / 2),
{
    let b2 = recompute(b, levels, p);
    lemma_pow2_unfold(levels);
    lemma_children_level(p);
    assert(bound_ok(b, levels, 2 * p));
    assert(bound_ok(b, levels, 2 * p + 1));
    assert forall|m: nat| 1 <= m < pow2(levels) implies #[trigger] bound_ok(b2, levels, m) by {
        assert(bound_ok(b, levels, m));
    }
    assert forall|m: nat|
        1 <= m < pow2((levels - 1) as nat) && m != p / 2 implies #[trigger] merge_ok(
        b2,
        levels,
        m,
    ) by {
        if m != p {
            assert(merge_ok(b, levels, m));
            assert(2 * m != p && 2 * m + 1 != p);
        }
    }
}

/// Recomputing all ancestors of a changed node restores well-formedness.
pub proof fn lemma_update_above_wf(b: Seq<u8>, levels: nat, n: nat, k: nat)
    requires
        tree_wf_except(b, levels, n / 2),
        1 <= n < pow2(levels),
        level_of(n) == k,
    ensures
        tree_wf(update_above(b, levels, n, k), levels),
        update_above(b, levels, n, k).len() == b.len(),
    decreases k,
{
    if k > 0 {
        let p = n / 2;
        lemma_on_level_of(n);
        lemma_on_level_of(p);
        assert(level_of(p) == k - 1);
        lemma_pow2_unfold(levels);
        lemma_pow2_unfold(k);
        if k < levels {
            lemma_pow2_strictly_increases(k, levels);
        }
        assert(p < pow2((levels - 1) as nat)) by {
            lemma_level_bounds(n, levels);
            if levels - 1 > k {
                lemma_pow2_strictly_increases(k, (levels - 1) as nat);
            }
        }
        lemma_recompute_wf(b, levels, p);
        lemma_update_above_wf(recompute(b, levels, p), levels, p, (k - 1) as nat);
    } else {
        assert(n == 1) by {
            lemma_on_level_of(n);
            lemma2_to64();
        }
    }
}


/// The node that the search for a free block of order `d` reaches from node `n` after `k` more
/// steps down: it prefers the left child whenever that child has a block of order `d` free.
pub open spec fn descend(b: Seq<u8>, d: nat, n: nat, k: nat) -> nat
    decreases k,
{
    if k == 0 {
        n
    } else if b[2 * n - 1] > d {
        descend(b, d, 2 * n, (k - 1) as nat)
    } else {
        descend(b, d, 2 * n + 1, (k - 1) as nat)
    }
}

/// The level holding blocks of order `d`.
pub open spec fn alloc_level(levels: nat, d: nat) -> nat {
    (levels - 1 - d) as nat
}

/// Whether the tree has a free block of order `d`.
pub open spec fn can_allocate(b: Seq<u8>, d: nat) -> bool {
    b[0] > d
}

/// The node an allocation of order `d` takes.
pub open spec fn alloc_node(b: Seq<u8>, levels: nat, d: nat) -> nat {
    descend(b, d, 1, alloc_level(levels, d))
}

/// Byte offset, from the start of the tree's memory, of the block at node `n`.
pub open spec fn node_address(levels: nat, base: nat, n: nat) -> nat {
    ((n - pow2(level_of(n))) * pow2((base + node_order(levels, n)) as nat)) as nat
}

/// The tree after the block at node `n`, on level `l`, is marked used.
pub open spec fn mark_used(b: Seq<u8>, levels: nat, n: nat, l: nat) -> Seq<u8> {
    update_above(b.update(n - 1, 0), levels, n, l)
}

/// The tree after an allocation of order `d`.
pub open spec fn allocated_tree(b: Seq<u8>, levels: nat, d: nat) -> Seq<u8> {
    mark_used(b, levels, alloc_node(b, levels, d), alloc_level(levels, d))
}

/// A node with a block of order `d` free above the level of such blocks has a child that also
/// has one.
pub proof fn lemma_descend_step(b: Seq<u8>, levels: nat, d: nat, n: nat, l: nat)
    requires
        tree_wf(b, levels),
        on_level(n, l),
        l < alloc_level(levels, d),
        d < levels,
        b[n - 1] > d,
    ensures
        b[2 * n - 1] > d || b[(2 * n) as int] > d,
        on_level(2 * n, l + 1),
        on_level(2 * n + 1, l + 1),
        level_of(2 * n) == l + 1,
        level_of(2 * n + 1) == l + 1,
{
    lemma_pow2_pos(l);
    lemma_level_of(n, l);
    lemma_children_level(n);
    lemma_pow2_unfold(l + 1);
    lemma_pow2_unfold(l + 2);
    if l + 1 < levels - 1 {
        lemma_pow2_strictly_increases(l + 1, (levels - 1) as nat);
    }
    assert(merge_ok(b, levels, n));
}

/// Offsets of the two children of a node, given the offset of the node.
pub proof fn lemma_child_offsets(n: int, pl: int, ps: int, addr: int)
    requires
        addr == (n - pl) * (2 * ps),
    ensures
        addr == (2 * n - 2 * pl) * ps,
        addr + ps == (2 * n + 1 - 2 * pl) * ps,
{
    assert(addr == (2 * n - 2 * pl) * ps) by (nonlinear_arith)
        requires
            addr == (n - pl) * (2 * ps),
    ;
    assert(addr + ps == (2 * n + 1 - 2 * pl) * ps) by (nonlinear_arith)
        requires
            addr == (2 * n - 2 * pl) * ps,
    ;
}

/// Offsets of blocks on a level stay within the tree's memory.
pub proof fn lemma_offset_bound(n: nat, l: nat, e: nat)
    requires
        on_level(n, l),
    ensures
        (n - pow2(l)) * pow2(e) < pow2(l + e),
{
    lemma_pow2_unfold(l + 1);
    lemma_pow2_pos(e);
    lemma_pow2_adds(l, e);
    vstd::arithmetic::mul::lemma_mul_strict_inequality(n - pow2(l), pow2(l) as int, pow2(e) as int);
}


/// The node that holds the block of order `order` at offset `ptr`.
pub open spec fn dealloc_node(levels: nat, base: nat, ptr: nat, order: nat) -> nat {
    pow2(alloc_level(levels, order)) + ptr / pow2(order + base)
}

/// The value a freed node takes: a freed leaf is a free block of order 0, a freed internal node
/// summarises its children again.
pub open spec fn freed_value(b: Seq<u8>, n: nat, order: nat) -> u8 {
    if order == 0 {
        1
    } else {
        combine(b[2 * n - 1], b[(2 * n) as int], order as int) as u8
    }
}

/// Whether the block of order `order` at offset `ptr` can be handed back: it lies inside the
/// tree's memory, it is used, and (for blocks with children) its halves are not used.
pub open spec fn can_deallocate(b: Seq<u8>, levels: nat, base: nat, ptr: nat, order: nat) -> bool {
    let n = dealloc_node(levels, base, ptr, order);
    &&& order < levels
    &&& ptr / pow2(order + base) < pow2(alloc_level(levels, order))
    &&& b[n - 1] == 0
    &&& order != 0 ==> b[2 * n - 1] != 0 && b[(2 * n) as int] != 0
}

/// The tree after the block of order `order` at offset `ptr` is freed.
pub open spec fn freed_tree(b: Seq<u8>, levels: nat, base: nat, ptr: nat, order: nat) -> Seq<u8> {
    let n = dealloc_node(levels, base, ptr, order);
    update_above(b.update(n - 1, freed_value(b, n, order)), levels, n, alloc_level(levels, order))
}

pub proof fn lemma_wf_weaken(b: Seq<u8>, levels: nat, x: nat)
    requires
        tree_wf(b, levels),
    ensures
        tree_wf_except(b, levels, x),
{
    assert forall|n: nat| 1 <= n < pow2((levels - 1) as nat) && n != x implies #[trigger] merge_ok(
        b,
        levels,
        n,
    ) by {
        assert(n != 0);
    }
}

/// A fault at a used node is no fault.
pub proof fn lemma_wf_fix(b: Seq<u8>, levels: nat, x: nat)
    requires
        tree_wf_except(b, levels, x),
        x == 0 || b[x - 1] == 0,
    ensures
        tree_wf(b, levels),
{
    assert forall|n: nat| 1 <= n < pow2((levels - 1) as nat) && n != 0 implies #[trigger] merge_ok(
        b,
        levels,
        n,
    ) by {
        if n != x {
            assert(merge_ok(b, levels, n));
        }
    }
}

/// The offset of a block of memory, `begin`, lies in one of the usable ranges together with the
/// block's last byte, `end`.
pub open spec fn block_usable(usable: Seq<Range<usize>>, begin: int, end: int) -> bool {
    exists|i: int|
        0 <= i < usable.len() && #[trigger] usable[i].start <= begin < usable[i].end
            && usable[i].start <= end < usable[i].end
}

/// Offset of the first byte of leaf `n`.
pub open spec fn leaf_begin(levels: nat, base: nat, n: nat) -> int {
    (n - pow2((levels - 1) as nat)) * pow2(base)
}

/// The state a fresh tree gives leaf `n`: free exactly when the whole leaf lies in one usable
/// range.
pub open spec fn initial_leaf(usable: Seq<Range<usize>>, levels: nat, base: nat, n: nat) -> u8 {
    if block_usable(
        usable,
        leaf_begin(levels, base, n),
        leaf_begin(levels, base, n) + pow2(base) - 1,
    ) {
        1
    } else {
        0
    }
}

/// Every leaf holds its initial state.
pub open spec fn leaves_initial(b: Seq<u8>, usable: Seq<Range<usize>>, levels: nat, base: nat) -> bool {
    forall|n: nat|
        pow2((levels - 1) as nat) <= n < pow2(levels) ==> #[trigger] b[n - 1] == initial_leaf(
            usable,
            levels,
            base,
            n,
        )
}

/// Every node in `lo..hi` summarises its children.
pub open spec fn summarised(b: Seq<u8>, levels: nat, lo: nat, hi: nat) -> bool {
    forall|n: nat|
        lo <= n < hi ==> #[trigger] b[n - 1] == combine(
            b[2 * n - 1],
            b[(2 * n) as int],
            node_order(levels, n),
        )
}

/// A fresh tree: leaves as `initial_leaf`, internal nodes summarising their children.
pub open spec fn initial_tree(b: Seq<u8>, usable: Seq<Range<usize>>, levels: nat, base: nat) -> bool {
    &&& leaves_initial(b, usable, levels, base)
    &&& summarised(b, levels, 1, pow2((levels - 1) as nat))
}

/// Every node in `lo..hi` is 0.
pub open spec fn zeroed(b: Seq<u8>, lo: nat, hi: nat) -> bool {
    forall|n: nat| 1 <= n && lo <= n < hi ==> #[trigger] b[n - 1] == 0
}

/// One step of building the internal levels: node `cur` of level `l` is summarised.
proof fn lemma_build_step(b: Seq<u8>, leaves: Seq<u8>, levels: nat, l: nat, cur: nat)
    requires
        tree_wf(b, levels),
        l < levels - 1,
        pow2(l) <= cur < pow2(l + 1),
        forall|n: nat|
            pow2((levels - 1) as nat) <= n < pow2(levels) ==> #[trigger] b[n - 1] == leaves[n - 1],
        summarised(b, levels, pow2(l + 1), pow2((levels - 1) as nat)),
        summarised(b, levels, pow2(l), cur),
        zeroed(b, 1, pow2(l)),
        zeroed(b, cur, pow2(l + 1)),
    ensures
        ({
            let b2 = recompute(b, levels, cur);
            &&& tree_wf(b2, levels)
            &&& forall|n: nat|
                pow2((levels - 1) as nat) <= n < pow2(levels) ==> #[trigger] b2[n - 1] == leaves[n
                    - 1]
            &&& summarised(b2, levels, pow2(l + 1), pow2((levels - 1) as nat))
            &&& summarised(b2, levels, pow2(l), cur + 1)
            &&& zeroed(b2, 1, pow2(l))
            &&& zeroed(b2, cur + 1, pow2(l + 1))
        }),
{
    let b2 = recompute(b, levels, cur);
    lemma_pow2_pos(l);
    lemma_pow2_unfold(l + 1);
    lemma_pow2_unfold(levels);
    if l + 1 < levels - 1 {
        lemma_pow2_strictly_increases(l + 1, (levels - 1) as nat);
    }
    lemma_wf_weaken(b, levels, cur);
    lemma_recompute_wf(b, levels, cur);
    if cur / 2 >= 1 {
        assert(b[cur / 2 - 1] == 0);
    }
    lemma_wf_fix(b2, levels, cur / 2);
    assert forall|n: nat| pow2(l + 1) <= n < pow2((levels - 1) as nat) implies #[trigger] b2[n - 1]
        == combine(b2[2 * n - 1], b2[(2 * n) as int], node_order(levels, n)) by {
        assert(b[n - 1] == combine(b[2 * n - 1], b[(2 * n) as int], node_order(levels, n)));
    }
    assert forall|n: nat| pow2(l) <= n < cur + 1 implies #[trigger] b2[n - 1] == combine(
        b2[2 * n - 1],
        b2[(2 * n) as int],
        node_order(levels, n),
    ) by {
        if n != cur {
            assert(b[n - 1] == combine(b[2 * n - 1], b[(2 * n) as int], node_order(levels, n)));
        }
    }
    assert forall|n: nat| pow2((levels - 1) as nat) <= n < pow2(levels) implies #[trigger] b2[n - 1]
        == leaves[n - 1] by {
        assert(b[n - 1] == leaves[n - 1]);
    }
    assert forall|n: nat| 1 <= n && 1 <= n < pow2(l) implies #[trigger] b2[n - 1] == 0 by {
        assert(b[n - 1] == 0);
    }
    assert forall|n: nat| 1 <= n && cur + 1 <= n < pow2(l + 1) implies #[trigger] b2[n - 1] == 0 by {
        assert(b[n - 1] == 0);
    }
}

/// Whether one of `usable` contains both `begin` and `end`.
fn any_range_contains(usable: &[Range<usize>], begin: usize, end: usize) -> (found: bool)
    ensures
        found == block_usable(usable@, begin as int, end as int),
{
    let mut i: usize = 0;
    while i < usable.len()
        invariant
            i <= usable@.len(),
            forall|j: int|
                0 <= j < i ==> !(#[trigger] usable@[j].start <= begin < usable@[j].end && usable@[j].start
                    <= end < usable@[j].end),
        decreases usable@.len() - i,
    {
        let area = &usable[i];
        if area.start <= begin && begin < area.end && area.start <= end && end < area.end {
            return true;
        }
        i = i + 1;
    }
    false
}


/// The ancestor `j` levels above node `n`.
pub open spec fn anc(n: nat, j: nat) -> nat
    decreases j,
{
    if j == 0 {
        n
    } else {
        anc(n / 2, (j - 1) as nat)
    }
}

/// `m` is one of the first `k` ancestors of `n`.
pub open spec fn is_anc(m: nat, n: nat, k: nat) -> bool {
    exists|j: nat| 1 <= j <= k && m == #[trigger] anc(n, j)
}

proof fn lemma_anc_step(n: nat, j: nat)
    ensures
        anc(n, j + 1) == anc(n, j) / 2,
    decreases j,
{
    reveal_with_fuel(anc, 2);
    if j > 0 {
        lemma_anc_step(n / 2, (j - 1) as nat);
    }
}

proof fn lemma_anc_below(n: nat, j: nat)
    requires
        j >= 1,
    ensures
        anc(n, j) <= n / 2,
    decreases j,
{
    reveal_with_fuel(anc, 2);
    if j > 1 {
        lemma_anc_below(n / 2, (j - 1) as nat);
    }
}

/// Recomputing the ancestors of `n` leaves `n` and every node after it untouched.
proof fn lemma_update_above_keeps(x: Seq<u8>, levels: nat, n: nat, k: nat, m: nat)
    requires
        1 <= n,
        level_of(n) == k,
        n <= m,
        1 <= m <= x.len(),
    ensures
        update_above(x, levels, n, k)[m - 1] == x[m - 1],
        update_above(x, levels, n, k).len() == x.len(),
    decreases k,
{
    if k > 0 {
        let p = n / 2;
        lemma_update_above_keeps(recompute(x, levels, p), levels, p, (k - 1) as nat, m);
    }
}

/// The first `k` ancestors of `n` all hold more than `d`.
pub open spec fn path_above(t: Seq<u8>, n: nat, k: nat, d: nat) -> bool {
    forall|j: nat| 1 <= j <= k ==> t[#[trigger] anc(n, j) - 1] > d
}

/// Recomputing the ancestors of `n` in a tree that differs from a well-formed tree `t` only
/// on those ancestors, which are not used in `t`, gives back `t`.
proof fn lemma_restore(x: Seq<u8>, t: Seq<u8>, levels: nat, n: nat, k: nat)
    requires
        tree_wf(t, levels),
        1 <= n < pow2(levels),
        level_of(n) == k,
        x.len() == t.len(),
        forall|i: int| 0 <= i < t.len() && !is_anc((i + 1) as nat, n, k) ==> #[trigger] x[i] == t[i],
        path_above(t, n, k, 0),
    ensures
        update_above(x, levels, n, k) == t,
    decreases k,
{
    reveal_with_fuel(anc, 2);
    if k == 0 {
        assert forall|i: int| 0 <= i < t.len() implies #[trigger] x[i] == t[i] by {
            assert(!is_anc((i + 1) as nat, n, k));
        }
        assert(x =~= t);
    } else {
        let p = n / 2;
        let x2 = recompute(x, levels, p);
        lemma_on_level_of(n);
        lemma_on_level_of(p);
        assert(level_of(p) == k - 1);
        lemma_pow2_unfold(k);
        lemma_pow2_unfold(levels);
        lemma_level_bounds(n, levels);
        if k < levels - 1 {
            lemma_pow2_strictly_increases(k, (levels - 1) as nat);
        }
        assert(p < pow2((levels - 1) as nat));
        assert(anc(n, 1) == p);
        assert(t[p - 1] > 0);
        assert(merge_ok(t, levels, p));
        // The children of p are not ancestors of n.
        assert forall|j: nat| 1 <= j <= k implies #[trigger] anc(n, j) <= p by {
            lemma_anc_below(n, j);
        }
        assert(x[2 * p - 1] == t[2 * p - 1]) by {
            assert(((2 * p - 1) + 1) as nat == 2 * p);
            if is_anc(2 * p, n, k) {
                let j = choose|j: nat| 1 <= j <= k && 2 * p == #[trigger] anc(n, j);
                assert(anc(n, j) <= p);
            }
        }
        assert(x[(2 * p) as int] == t[(2 * p) as int]) by {
            assert(((2 * p) + 1) as nat == 2 * p + 1);
            if is_anc(2 * p + 1, n, k) {
                let j = choose|j: nat| 1 <= j <= k && 2 * p + 1 == #[trigger] anc(n, j);
                assert(anc(n, j) <= p);
            }
        }
        assert forall|i: int| 0 <= i < t.len() && !is_anc((i + 1) as nat, p, (k - 1) as nat) implies #[trigger] x2[i]
            == t[i] by {
            let m = (i + 1) as nat;
            if m != p {
                if is_anc(m, n, k) {
                    let j = choose|j: nat| 1 <= j <= k && m == #[trigger] anc(n, j);
                    assert(j != 1);
                    assert(anc(n, j) == anc(p, (j - 1) as nat));
                    assert(is_anc(m, p, (k - 1) as nat));
                }
            }
        }
        assert forall|j: nat| 1 <= j <= k - 1 implies t[#[trigger] anc(p, j) - 1] > 0 by {
            assert(anc(n, j + 1) == anc(p, j));
            assert(t[anc(n, j + 1) - 1] > 0);
        }
        lemma_restore(x2, t, levels, p, (k - 1) as nat);
    }
}

/// The search for a free block of order `d` only passes nodes holding more than `d`, and it
/// ends on a free block of order `d`.
proof fn lemma_descend_path(b: Seq<u8>, levels: nat, d: nat, m: nat, l: nat, k: nat)
    requires
        tree_wf(b, levels),
        d < levels,
        on_level(m, l),
        l + k == alloc_level(levels, d),
        b[m - 1] > d,
    ensures
        on_level(descend(b, d, m, k), l + k),
        level_of(descend(b, d, m, k)) == l + k,
        anc(descend(b, d, m, k), k) == m,
        path_above(b, descend(b, d, m, k), k, d),
        b[descend(b, d, m, k) - 1] == d + 1,
    decreases k,
{
    let r = descend(b, d, m, k);
    lemma_pow2_pos(l);
    if k == 0 {
        lemma_level_of(m, l);
        lemma_pow2_unfold(levels);
        lemma_level_bounds(m, levels);
        assert(bound_ok(b, levels, m));
    } else {
        lemma_descend_step(b, levels, d, m, l);
        let c = if b[2 * m - 1] > d {
            2 * m
        } else {
            2 * m + 1
        };
        lemma_descend_path(b, levels, d, c, l + 1, (k - 1) as nat);
        assert(r == descend(b, d, c, (k - 1) as nat));
        lemma_anc_step(r, (k - 1) as nat);
        assert(anc(r, k) == m);
        assert forall|j: nat| 1 <= j <= k implies b[#[trigger] anc(r, j) - 1] > d by {
            if j == k {
                assert(anc(r, j) == m);
            }
        }
    }
}

/// **Law: freeing a block undoes its allocation.** Allocating a block of order `d` and then
/// handing that block back leaves the tree exactly as it was before the allocation.
pub proof fn law_allocate_then_deallocate(b: Seq<u8>, levels: nat, base: nat, d: nat)
    requires
        tree_wf(b, levels),
        levels + base <= 32,
        d < levels,
        can_allocate(b, d),
    ensures
        ({
            let n = alloc_node(b, levels, d);
            let a = node_address(levels, base, n);
            let b1 = allocated_tree(b, levels, d);
            &&& can_deallocate(b1, levels, base, a, d)
            &&& freed_tree(b1, levels, base, a, d) == b
        }),
{
    let l = alloc_level(levels, d);
    let n = alloc_node(b, levels, d);
    let a = node_address(levels, base, n);
    let b0 = b.update(n - 1, 0);
    let b1 = allocated_tree(b, levels, d);
    lemma2_to64();
    lemma_pow2_pos(levels);
    lemma_pow2_strictly_increases(0, levels);
    lemma_descend_path(b, levels, d, 1, 0, l);
    lemma_pow2_unfold(levels);
    lemma_level_bounds(n, levels);
    if l + 1 < levels {
        lemma_pow2_strictly_increases(l + 1, levels);
    }
    // The block's offset names the block again.
    assert(node_order(levels, n) == d);
    assert((base + node_order(levels, n)) as nat == d + base);
    lemma_pow2_pos(d + base);
    vstd::arithmetic::div_mod::lemma_div_multiples_vanish(
        (n - pow2(l)) as int,
        pow2(d + base) as int,
    );
    vstd::arithmetic::mul::lemma_mul_is_commutative((n - pow2(l)) as int, pow2(d + base) as int);
    assert(a / pow2(d + base) == n - pow2(l));
    assert(dealloc_node(levels, base, a, d) == n);
    // The block and its halves are untouched by the recomputation above it.
    lemma_update_above_keeps(b0, levels, n, l, n);
    assert(b1[n - 1] == 0);
    if d != 0 {
        lemma_children_level(n);
        if l + 1 < levels - 1 {
            lemma_pow2_strictly_increases(l + 1, (levels - 1) as nat);
        }
        lemma_pow2_unfold(l + 1);
        lemma_pow2_unfold(l + 2);
        if l + 2 < levels {
            lemma_pow2_strictly_increases(l + 2, levels);
        }
        assert(merge_ok(b, levels, n));
        assert(bound_ok(b, levels, 2 * n));
        assert(bound_ok(b, levels, 2 * n + 1));
        lemma_update_above_keeps(b0, levels, n, l, 2 * n);
        lemma_update_above_keeps(b0, levels, n, l, 2 * n + 1);
        assert(b1[2 * n - 1] == b[2 * n - 1]);
        assert(b1[(2 * n) as int] == b[(2 * n) as int]);
    }
    assert(freed_value(b1, n, d) == b[n - 1]);
    // Restoring the block and recomputing its ancestors gives back the original tree.
    let x = b1.update(n - 1, b[n - 1]);
    assert forall|i: int| 0 <= i < b.len() && !is_anc((i + 1) as nat, n, l) implies #[trigger] x[i] == b[i] by {
        let m = (i + 1) as nat;
        if m != n {
            if m > n {
                lemma_update_above_keeps(b0, levels, n, l, m);
            } else {
                lemma_update_above_agrees(b0, levels, n, l, m);
            }
        }
    }
    assert forall|j: nat| 1 <= j <= l implies b[#[trigger] anc(n, j) - 1] > 0 by {
        assert(b[anc(n, j) - 1] > d);
    }
    lemma_restore(x, b, levels, n, l);
}

/// Recomputing the ancestors of `n` changes nothing but those ancestors.
proof fn lemma_update_above_agrees(x: Seq<u8>, levels: nat, n: nat, k: nat, m: nat)
    requires
        1 <= n,
        level_of(n) == k,
        1 <= m <= x.len(),
        n <= x.len(),
        m != n,
        !is_anc(m, n, k),
    ensures
        update_above(x, levels, n, k)[m - 1] == x[m - 1],
    decreases k,
{
    reveal_with_fuel(anc, 2);
    if k > 0 {
        let p = n / 2;
        assert(anc(n, 1) == p);
        assert(m != p);
        assert(!is_anc(m, p, (k - 1) as nat)) by {
            if is_anc(m, p, (k - 1) as nat) {
                let j = choose|j: nat| 1 <= j <= k - 1 && m == #[trigger] anc(p, j);
                assert(anc(n, j + 1) == anc(p, j));
                assert(is_anc(m, n, k));
            }
        }
        lemma_update_above_agrees(recompute(x, levels, p), levels, p, (k - 1) as nat, m);
    }
}

/// Two successive allocations of order `d` yield two different blocks at two different offsets
/// (see `law_allocations_distinct` for any number of allocations).
pub proof fn law_successive_allocations_distinct(b: Seq<u8>, levels: nat, base: nat, d: nat)
    requires
        tree_wf(b, levels),
        levels + base <= 32,
        d < levels,
        can_allocate(b, d),
        can_allocate(allocated_tree(b, levels, d), d),
    ensures
        alloc_node(allocated_tree(b, levels, d), levels, d) != alloc_node(b, levels, d),
        node_address(levels, base, alloc_node(allocated_tree(b, levels, d), levels, d))
            != node_address(levels, base, alloc_node(b, levels, d)),
{
    let l = alloc_level(levels, d);
    let n = alloc_node(b, levels, d);
    let b0 = b.update(n - 1, 0);
    let b1 = allocated_tree(b, levels, d);
    lemma2_to64();
    lemma_pow2_strictly_increases(0, levels);
    lemma_descend_path(b, levels, d, 1, 0, l);
    lemma_pow2_unfold(levels);
    lemma_level_bounds(n, levels);
    assert(bound_ok(b, levels, n));
    lemma_set_node(b, levels, n, 0);
    lemma_update_above_wf(b0, levels, n, l);
    lemma_update_above_keeps(b0, levels, n, l, n);
    assert(b1[n - 1] == 0);
    let n2 = alloc_node(b1, levels, d);
    lemma_descend_path(b1, levels, d, 1, 0, l);
    assert(b1[n2 - 1] == d + 1);
    assert(n2 != n);
    let e = (base + node_order(levels, n)) as nat;
    assert(level_of(n2) == level_of(n));
    lemma_pow2_pos(e);
    let x = n - pow2(l);
    let y = n2 - pow2(l);
    assert(x * pow2(e) != y * pow2(e)) by (nonlinear_arith)
        requires
            x != y,
            pow2(e) > 0,
    ;
}

/// An allocation of order `d` from a well-formed tree: the block it takes is free, on the level
/// of such blocks, marked used afterwards, and the tree stays well formed.
pub proof fn lemma_allocation(b: Seq<u8>, levels: nat, d: nat)
    requires
        tree_wf(b, levels),
        d < levels,
        can_allocate(b, d),
    ensures
        ({
            let n = alloc_node(b, levels, d);
            &&& 1 <= n < pow2(levels)
            &&& n <= b.len()
            &&& level_of(n) == alloc_level(levels, d)
            &&& b[n - 1] == d + 1
            &&& allocated_tree(b, levels, d)[n - 1] == 0
            &&& tree_wf(allocated_tree(b, levels, d), levels)
            &&& path_above(b, n, alloc_level(levels, d), d)
        }),
{
    let l = alloc_level(levels, d);
    let n = alloc_node(b, levels, d);
    let b0 = b.update(n - 1, 0);
    lemma2_to64();
    lemma_pow2_strictly_increases(0, levels);
    lemma_descend_path(b, levels, d, 1, 0, l);
    lemma_pow2_unfold(levels);
    lemma_level_bounds(n, levels);
    assert(bound_ok(b, levels, n));
    lemma_set_node(b, levels, n, 0);
    lemma_update_above_wf(b0, levels, n, l);
    lemma_update_above_keeps(b0, levels, n, l, n);
}

/// **Law: a used block stays used.** An allocation never hands out, or frees, a node that is
/// used: what was used before it is used after it.
pub proof fn law_used_stays_used(b: Seq<u8>, levels: nat, d: nat, m: nat)
    requires
        tree_wf(b, levels),
        d < levels,
        can_allocate(b, d),
        1 <= m <= b.len(),
        b[m - 1] == 0,
    ensures
        allocated_tree(b, levels, d)[m - 1] == 0,
{
    let l = alloc_level(levels, d);
    let n = alloc_node(b, levels, d);
    let b0 = b.update(n - 1, 0);
    lemma_allocation(b, levels, d);
    if m == n {
    } else if m > n {
        lemma_update_above_keeps(b0, levels, n, l, m);
    } else {
        if is_anc(m, n, l) {
            let j = choose|j: nat| 1 <= j <= l && m == #[trigger] anc(n, j);
            assert(b[anc(n, j) - 1] > d);
        }
        lemma_update_above_agrees(b0, levels, n, l, m);
    }
}

/// The tree after `k` successive allocations of order `d`.
pub open spec fn after_allocations(b: Seq<u8>, levels: nat, d: nat, k: nat) -> Seq<u8>
    decreases k,
{
    if k == 0 {
        b
    } else {
        allocated_tree(after_allocations(b, levels, d, (k - 1) as nat), levels, d)
    }
}

/// The node that the `i`-th of successive allocations of order `d` takes (counting from 0).
pub open spec fn allocation_node(b: Seq<u8>, levels: nat, d: nat, i: nat) -> nat {
    alloc_node(after_allocations(b, levels, d, i), levels, d)
}

/// Each of the first `k` successive allocations of order `d` finds a free block.
pub open spec fn can_allocate_times(b: Seq<u8>, levels: nat, d: nat, k: nat) -> bool {
    forall|i: nat| i < k ==> can_allocate(#[trigger] after_allocations(b, levels, d, i), d)
}

/// The tree stays well formed through successive allocations.
proof fn lemma_after_allocations_wf(b: Seq<u8>, levels: nat, d: nat, k: nat)
    requires
        tree_wf(b, levels),
        d < levels,
        can_allocate_times(b, levels, d, k),
    ensures
        tree_wf(after_allocations(b, levels, d, k), levels),
    decreases k,
{
    if k > 0 {
        let p = (k - 1) as nat;
        lemma_after_allocations_wf(b, levels, d, p);
        assert(can_allocate(after_allocations(b, levels, d, p), d));
        lemma_allocation(after_allocations(b, levels, d, p), levels, d);
    }
}

/// The block taken by the `i`-th allocation is still used after the `j`-th one, for `i < j`.
proof fn lemma_allocation_stays_used(b: Seq<u8>, levels: nat, d: nat, i: nat, j: nat)
    requires
        tree_wf(b, levels),
        d < levels,
        i < j,
        can_allocate_times(b, levels, d, j),
    ensures
        1 <= allocation_node(b, levels, d, i) <= after_allocations(b, levels, d, j).len(),
        after_allocations(b, levels, d, j)[allocation_node(b, levels, d, i) - 1] == 0,
    decreases j,
{
    let p = (j - 1) as nat;
    lemma_after_allocations_wf(b, levels, d, p);
    assert(can_allocate(after_allocations(b, levels, d, p), d));
    lemma_allocation(after_allocations(b, levels, d, p), levels, d);
    if i < p {
        lemma_allocation_stays_used(b, levels, d, i, p);
        law_used_stays_used(after_allocations(b, levels, d, p), levels, d, allocation_node(b, levels, d, i));
    } else {
        assert(i == p);
    }
}

/// **Law: the allocator never hands out a block twice.** However many allocations of order
/// `d` follow one another, each takes a different block, at a different offset.
pub proof fn law_allocations_distinct(b: Seq<u8>, levels: nat, base: nat, d: nat, k: nat)
    requires
        tree_wf(b, levels),
        levels + base <= 32,
        d < levels,
        can_allocate_times(b, levels, d, k),
    ensures
        forall|i: nat, j: nat|
            i < j < k ==> #[trigger] allocation_node(b, levels, d, i) != #[trigger] allocation_node(
                b,
                levels,
                d,
                j,
            ) && node_address(levels, base, allocation_node(b, levels, d, i)) != node_address(
                levels,
                base,
                allocation_node(b, levels, d, j),
            ),
{
    assert forall|i: nat, j: nat|
        i < j < k implies #[trigger] allocation_node(b, levels, d, i) != #[trigger] allocation_node(
        b,
        levels,
        d,
        j,
    ) && node_address(levels, base, allocation_node(b, levels, d, i)) != node_address(
        levels,
        base,
        allocation_node(b, levels, d, j),
    ) by {
        let ni = allocation_node(b, levels, d, i);
        let nj = allocation_node(b, levels, d, j);
        lemma_allocation_stays_used(b, levels, d, i, j);
        lemma_after_allocations_wf(b, levels, d, j);
        lemma_after_allocations_wf(b, levels, d, i);
        assert(can_allocate(after_allocations(b, levels, d, j), d));
        assert(can_allocate(after_allocations(b, levels, d, i), d));
        lemma_allocation(after_allocations(b, levels, d, j), levels, d);
        lemma_allocation(after_allocations(b, levels, d, i), levels, d);
        assert(after_allocations(b, levels, d, j)[nj - 1] == d + 1);
        assert(ni != nj);
        let l = alloc_level(levels, d);
        assert(level_of(ni) == l);
        assert(level_of(nj) == l);
        lemma_on_level_of(ni);
        lemma_on_level_of(nj);
        let e = (base + node_order(levels, ni)) as nat;
        assert(node_order(levels, nj) == node_order(levels, ni));
        lemma_pow2_pos(e);
        let x = ni - pow2(l);
        let y = nj - pow2(l);
        assert(x * pow2(e) != y * pow2(e)) by (nonlinear_arith)
            requires
                x != y,
                pow2(e) > 0,
        ;
        assert(node_address(levels, base, ni) == x * pow2(e));
        assert(node_address(levels, base, nj) == y * pow2(e));
    }
}

/// Sequence of free orders of a flat block array.
pub open spec fn orders(blocks: Seq<Block>) -> Seq<u8> {
    Seq::new(blocks.len(), |i: int| blocks[i].order_free)
}

/// A tree of blocks, stored flat. Allocations are addressed relative to the start of the memory
/// the tree manages, in units of bytes; a block of order `k` spans `2^(k + base_order)` bytes.
pub struct Tree {
    level_count: u8,
    base_order: u8,
    flat_blocks: Vec<Block>,
}

impl Tree {
    /// The free orders of the nodes; node `n` is at index `n - 1`.
    pub closed spec fn view(&self) -> Seq<u8> {
        orders(self.flat_blocks@)
    }

    pub closed spec fn levels(&self) -> nat {
        self.level_count as nat
    }

    pub closed spec fn base(&self) -> nat {
        self.base_order as nat
    }

    /// The size, as a power of two, of the memory the tree manages.
    pub open spec fn size_order(&self) -> nat {
        (self.levels() + self.base() - 1) as nat
    }

    pub closed spec fn shape_ok(&self) -> bool {
        &&& 2 <= self.level_count <= 31
        &&& self.level_count + self.base_order <= 32
        &&& self.flat_blocks.len() == spec_blocks_in_tree(self.level_count as nat)
    }

    pub closed spec fn wf(&self) -> bool {
        &&& self.shape_ok()
        &&& tree_wf(self@, self.levels())
    }

    /// A well formed tree holds one free order per node, and follows the tree rules.
    pub proof fn lemma_wf_shape(&self)
        requires
            self.wf(),
        ensures
            tree_wf(self@, self.levels()),
            self@.len() == spec_blocks_in_tree(self.levels()),
            self.levels() + self.base() <= 32,
    {
    }


    /// Build a tree over `2^(level_count - 1 + base_order)` bytes of memory. A smallest block is
    /// free exactly when it falls completely within one of the `usable` areas; every other node
    /// summarises its children.
    pub fn new(usable: &[Range<usize>], level_count: u8, base_order: u8) -> (tree: Tree)
        requires
            2 <= level_count <= 31,
            level_count + base_order <= 32,
        ensures
            tree.wf(),
            tree.levels() == level_count,
            tree.base() == base_order,
            initial_tree(tree@, usable@, level_count as nat, base_order as nat),
    {
        let count = blocks_in_tree(level_count);
        let mut flat_blocks: Vec<Block> = Vec::new();
        while flat_blocks.len() < count
            invariant
                flat_blocks.len() <= count,
                forall|i: int| 0 <= i < flat_blocks.len() ==> #[trigger] flat_blocks@[i].order_free
                    == 0,
            decreases count - flat_blocks.len(),
        {
            flat_blocks.push(Block::new_used());
        }
        let mut tree = Tree { level_count, base_order, flat_blocks };
        proof {
            let levels = level_count as nat;
            lemma_pow2_unfold(levels);
            assert forall|n: nat| 1 <= n < pow2(levels) implies #[trigger] bound_ok(
                tree@,
                levels,
                n,
            ) by {
                lemma_level_bounds(n, levels);
            }
            assert forall|n: nat| 1 <= n < pow2((levels - 1) as nat) && n != 0 implies #[trigger] merge_ok(
                tree@,
                levels,
                n,
            ) by {}
        }
        tree.init_leaves(usable);
        tree.init_parents();
        tree
    }

    /// Set the leaves (blocks of order 0): a leaf that does not lie completely inside a usable
    /// area is used, the others are free.
    fn init_leaves(&mut self, usable: &[Range<usize>])
        requires
            old(self).wf(),
            zeroed(old(self)@, 1, pow2(old(self).levels())),
        ensures
            final(self).wf(),
            final(self).levels() == old(self).levels(),
            final(self).base() == old(self).base(),
            leaves_initial(final(self)@, usable@, final(self).levels(), final(self).base()),
            zeroed(final(self)@, 1, pow2((final(self).levels() - 1) as nat)),
    {
        let ghost levels = self.levels();
        let ghost base = self.base();
        let max_order = self.level_count - 1;
        let level_count = self.level_count;
        let base_order = self.base_order;
        proof {
            lemma_usize_pow2_no_overflow(levels);
            lemma_usize_pow2_no_overflow(max_order as nat);
            lemma_usize_pow2_no_overflow(base);
            lemma_usize_shl_is_mul(1, max_order as usize);
            lemma_usize_shl_is_mul(1, level_count as usize);
            lemma_usize_shl_is_mul(1, base_order as usize);
            lemma_pow2_unfold(levels);
            lemma_pow2_pos(base);
            lemma_pow2_pos(max_order as nat);
            lemma_pow2_adds(max_order as nat, base);
            lemma_usize_pow2_no_overflow((max_order + base) as nat);
        }
        let first_leaf: usize = 1usize << (max_order as usize);
        let end_leaf: usize = 1usize << (level_count as usize);
        let block_size: usize = 1usize << (base_order as usize);
        let mut block_begin: usize = 0;
        let mut block_index: usize = first_leaf;
        while block_index < end_leaf
            invariant
                self.wf(),
                self.levels() == levels,
                self.base() == base,
                levels == old(self).levels(),
                base == old(self).base(),
                first_leaf == pow2(max_order as nat),
                end_leaf == pow2(levels),
                end_leaf == 2 * first_leaf,
                block_size == pow2(base),
                block_size >= 1,
                max_order == levels - 1,
                first_leaf <= block_index <= end_leaf,
                block_begin == (block_index - first_leaf) * block_size,
                first_leaf * block_size <= usize::MAX,
                forall|n: nat|
                    first_leaf <= n < block_index ==> #[trigger] self@[n - 1] == initial_leaf(
                        usable@,
                        levels,
                        base,
                        n,
                    ),
                zeroed(self@, 1, first_leaf as nat),
            decreases end_leaf - block_index,
        {
            proof {
                let k = (block_index - first_leaf) as int;
                vstd::arithmetic::mul::lemma_mul_inequality(k + 1, first_leaf as int, block_size as int);
                assert((k + 1) * block_size == k * block_size + block_size) by (nonlinear_arith);
            }
            let block_end = block_begin + block_size - 1;
            let ghost b = self@;
            let ghost n = block_index as nat;
            proof {
                lemma_level_bounds(n, max_order as nat);
                lemma_level_bounds(n, levels);
            }
            if !any_range_contains(usable, block_begin, block_end) {
                proof {
                    lemma_set_node(b, levels, n, 0);
                    lemma_wf_fix(b.update(n - 1, 0), levels, n / 2);
                }
                self.flat_blocks.set(block_index - 1, Block::new_used());
            } else {
                proof {
                    lemma_set_node(b, levels, n, 1);
                    lemma_pow2_unfold(max_order as nat);
                    lemma_wf_fix(b.update(n - 1, 1), levels, n / 2);
                }
                self.flat_blocks.set(block_index - 1, Block::new_free(0));
            }
            assert(self@ =~= b.update(n - 1, initial_leaf(usable@, levels, base, n)));
            block_begin = block_begin + block_size;
            block_index = block_index + 1;
        }
    }

    /// Set the parents of every level from their children, from the bottom up.
    fn init_parents(&mut self)
        requires
            old(self).wf(),
            zeroed(old(self)@, 1, pow2((old(self).levels() - 1) as nat)),
        ensures
            final(self).wf(),
            final(self).levels() == old(self).levels(),
            final(self).base() == old(self).base(),
            final(self)@.len() == old(self)@.len(),
            forall|n: nat|
                pow2((old(self).levels() - 1) as nat) <= n < pow2(old(self).levels())
                    ==> #[trigger] final(self)@[n - 1] == old(self)@[n - 1],
            summarised(final(self)@, final(self).levels(), 1, pow2((final(self).levels() - 1) as nat)),
    {
        let ghost levels = self.levels();
        let ghost base = self.base();
        let ghost leaves = self@;
        let max_order = self.level_count - 1;
        proof {
            lemma_usize_pow2_no_overflow((max_order - 1) as nat);
            lemma_usize_pow2_no_overflow(max_order as nat);
            lemma_usize_shl_is_mul(1, (max_order - 1) as usize);
            lemma_pow2_unfold(max_order as nat);
        }
        let mut start: usize = 1usize << ((max_order - 1) as usize);
        let mut level: u8 = max_order;
        while level > 0
            invariant
                self.wf(),
                self.levels() == levels,
                self.base() == base,
                levels == old(self).levels(),
                base == old(self).base(),
                self@.len() == leaves.len(),
                leaves == old(self)@,
                max_order == levels - 1,
                level <= max_order,
                pow2(max_order as nat) <= usize::MAX,
                level > 0 ==> start == pow2((level - 1) as nat),
                forall|n: nat|
                    pow2((levels - 1) as nat) <= n < pow2(levels) ==> #[trigger] self@[n - 1]
                        == leaves[n - 1],
                summarised(self@, levels, pow2(level as nat), pow2((levels - 1) as nat)),
                zeroed(self@, 1, pow2(level as nat)),
            decreases level,
        {
            level = level - 1;
            let count = blocks_in_level(level);
            proof {
                lemma_pow2_unfold((level + 1) as nat);
                lemma_pow2_pos(level as nat);
                if level + 1 < max_order {
                    lemma_pow2_strictly_increases((level + 1) as nat, max_order as nat);
                }
            }
            let end = start + count;
            let mut node_index = start;
            while node_index < end
                invariant
                    self.wf(),
                    self.levels() == levels,
                    self.base() == base,
                    self@.len() == leaves.len(),
                    max_order == levels - 1,
                    level < max_order,
                    start == pow2(level as nat),
                    end == pow2((level + 1) as nat),
                    start <= node_index <= end,
                    forall|n: nat|
                        pow2((levels - 1) as nat) <= n < pow2(levels) ==> #[trigger] self@[n - 1]
                            == leaves[n - 1],
                    summarised(self@, levels, pow2((level + 1) as nat), pow2((levels - 1) as nat)),
                    summarised(self@, levels, start as nat, node_index as nat),
                    zeroed(self@, 1, start as nat),
                    zeroed(self@, node_index as nat, end as nat),
                decreases end - node_index,
            {
                proof {
                    lemma_build_step(self@, leaves, levels, level as nat, node_index as nat);
                }
                self.update_block(node_index, level);
                node_index = node_index + 1;
            }
            proof {
                if level > 0 {
                    lemma_pow2_unfold(level as nat);
                    lemma2_to64();
                    lemma_usize_shr_is_div(start, 1);
                }
            }
            start = start >> 1usize;
        }
        proof {
            lemma2_to64();
        }
    }

    pub fn max_order(&self) -> (order: u8)
        requires
            self.wf(),
        ensures
            order == self.levels() - 1,
    {
        self.level_count - 1
    }

    /// Whether the block of order `order` at offset `ptr` can be handed back (see
    /// `can_deallocate`).
    pub fn can_deallocate(&self, ptr: usize, order: u8) -> (ok: bool)
        requires
            self.wf(),
        ensures
            ok == can_deallocate(self@, self.levels(), self.base(), ptr as nat, order as nat),
    {
        proof {
            self.lemma_wf_shape();
        }
        let ghost levels = self.levels();
        if order >= self.level_count {
            return false;
        }
        let level = self.level_count - 1 - order;
        let shift = (order + self.base_order) as usize;
        proof {
            lemma_usize_shr_is_div(ptr, shift);
            lemma_pow2_pos(level as nat);
        }
        let position = ptr >> shift;
        if position >= blocks_in_level(level) {
            return false;
        }
        let level_offset = blocks_in_tree(level);
        proof {
            lemma_pow2_unfold((level + 1) as nat);
            if level + 1 < levels {
                lemma_pow2_strictly_increases((level + 1) as nat, levels);
            }
        }
        let index = level_offset + position + 1;
        assert(index as nat == dealloc_node(levels, self.base(), ptr as nat, order as nat));
        if self.flat_blocks[index - 1].order_free != 0 {
            return false;
        }
        if order == 0 {
            return true;
        }
        proof {
            lemma_pow2_unfold((level + 2) as nat);
            if level + 2 < levels {
                lemma_pow2_strictly_increases((level + 2) as nat, levels);
            }
        }
        self.flat_blocks[2 * index - 1].order_free != 0 && self.flat_blocks[2 * index].order_free
            != 0
    }

    /// The block at a flat (0 indexed) position.
    pub fn block(&self, index: usize) -> (block: &Block)
        requires
            index < self@.len(),
        ensures
            block.order_free == self@[index as int],
    {
        &self.flat_blocks[index]
    }


    /// Allocate a block of `desired_order` if one is available, returning its offset relative
    /// to the tree (i.e. `0` is the beginning of the tree's memory).
    pub fn allocate(&mut self, desired_order: u8) -> (ptr: Option<usize>)
        requires
            old(self).wf(),
            desired_order < old(self).levels(),
        ensures
            final(self).wf(),
            final(self).levels() == old(self).levels(),
            final(self).base() == old(self).base(),
            !can_allocate(old(self)@, desired_order as nat) ==> ptr is None && *final(self)
                == *old(self),
            can_allocate(old(self)@, desired_order as nat) ==> {
                let n = alloc_node(old(self)@, old(self).levels(), desired_order as nat);
                &&& ptr == Some(node_address(old(self).levels(), old(self).base(), n) as usize)
                &&& node_address(old(self).levels(), old(self).base(), n) < pow2(
                    old(self).size_order(),
                )
                &&& level_of(n) == alloc_level(old(self).levels(), desired_order as nat)
                &&& old(self)@[n - 1] == desired_order + 1
                &&& final(self)@ == allocated_tree(
                    old(self)@,
                    old(self).levels(),
                    desired_order as nat,
                )
            },
    {
        let ghost b = self@;
        let ghost levels = self.levels();
        let ghost d = desired_order as nat;
        let max_order = self.level_count - 1;
        proof {
            lemma2_to64();
            lemma_pow2_strictly_increases(1, self.level_count as nat);
            assert(b[0] == self.flat_blocks@[0].order_free);
        }
        let root = self.flat_blocks[0].order_free;
        if root == 0 || (root - 1) < desired_order {
            return None;
        }
        let size_order = self.base_order + max_order;
        let max_level = max_order - desired_order;
        let mut addr: usize = 0;
        let mut node_index: usize = 1;
        let mut level: u8 = 0;
        proof {
            lemma2_to64();
            lemma_pow2_unfold(1);
        }
        while level < max_level
            invariant
                self@ == b,
                self.wf(),
                self.levels() == levels,
                levels == max_order + 1,
                d == desired_order,
                d < levels,
                max_level == alloc_level(levels, d),
                max_level <= max_order,
                (node_index as nat) < pow2(levels),
                size_order == self.base() + max_order,
                size_order <= 31,
                level <= max_level,
                on_level(node_index as nat, level as nat),
                level_of(node_index as nat) == level,
                b[node_index - 1] > d,
                descend(b, d, node_index as nat, (max_level - level) as nat) == alloc_node(
                    b,
                    levels,
                    d,
                ),
                addr == (node_index - pow2(level as nat)) * pow2((size_order - level) as nat),
            decreases max_level - level,
        {
            proof {
                lemma_descend_step(b, levels, d, node_index as nat, level as nat);
                if level + 2 < levels {
                    lemma_pow2_strictly_increases((level + 2) as nat, levels);
                }
                lemma_pow2_unfold((level + 2) as nat);
                lemma_pow2_unfold((size_order - level) as nat);
                lemma_pow2_unfold((level + 1) as nat);
                lemma_child_offsets(
                    node_index as int,
                    pow2(level as nat) as int,
                    pow2((size_order - level - 1) as nat) as int,
                    addr as int,
                );
                lemma_offset_bound(
                    (2 * node_index + 1) as nat,
                    (level + 1) as nat,
                    (size_order - level - 1) as nat,
                );
                lemma_usize_pow2_no_overflow(size_order as nat);
                lemma_usize_shl_is_mul(1, (size_order - level - 1) as usize);
                assert((level + 1) + (size_order - level - 1) == size_order);
            }
            let left_child_index = left_child(node_index);
            let o = self.flat_blocks[left_child_index - 1].order_free;
            if o != 0 && o > desired_order {
                node_index = left_child_index;
            } else {
                addr = addr + (1usize << ((size_order - level - 1) as usize));
                node_index = left_child_index + 1;
            }
            level = level + 1;
        }
        proof {
            lemma_level_of(node_index as nat, level as nat);
            assert(bound_ok(b, levels, node_index as nat));
            lemma_set_node(b, levels, node_index as nat, 0);
            lemma_update_above_wf(b.update(node_index - 1, 0), levels, node_index as nat, max_level as nat);
            lemma_offset_bound(node_index as nat, level as nat, (size_order - level) as nat);
            assert(level + (size_order - level) == size_order);
        }
        self.flat_blocks.set(node_index - 1, Block::new_used());
        assert(self@ =~= b.update(node_index - 1, 0));
        self.update_blocks_above(node_index, max_level);
        Some(addr)
    }


    /// Deallocate a block of memory from an offset relative to the tree (e.g. `0` is the
    /// beginning of the tree's memory) and the order of the block.
    pub fn deallocate(&mut self, ptr: usize, order: u8)
        requires
            old(self).wf(),
            can_deallocate(old(self)@, old(self).levels(), old(self).base(), ptr as nat, order as nat),
        ensures
            final(self).wf(),
            final(self).levels() == old(self).levels(),
            final(self).base() == old(self).base(),
            final(self)@ == freed_tree(
                old(self)@,
                old(self).levels(),
                old(self).base(),
                ptr as nat,
                order as nat,
            ),
    {
        let ghost b = self@;
        let ghost levels = self.levels();
        let max_order = self.level_count - 1;
        let level = max_order - order;
        let level_offset = blocks_in_tree(level);
        let shift = (order + self.base_order) as usize;
        proof {
            lemma_usize_shr_is_div(ptr, shift);
            lemma_pow2_pos(level as nat);
            lemma_pow2_unfold((level + 1) as nat);
            if level + 1 < levels {
                lemma_pow2_strictly_increases((level + 1) as nat, levels);
            }
        }
        let index = level_offset + (ptr >> shift) + 1;
        let ghost n = index as nat;
        assert(n == dealloc_node(levels, self.base(), ptr as nat, order as nat));
        assert(on_level(n, level as nat));
        proof {
            lemma_level_of(n, level as nat);
            lemma_pow2_unfold(levels);
            if order != 0 {
                lemma_children_level(n);
                if level + 1 < levels - 1 {
                    lemma_pow2_strictly_increases((level + 1) as nat, (levels - 1) as nat);
                }
                lemma_pow2_unfold((level + 2) as nat);
                if level + 2 < levels {
                    lemma_pow2_strictly_increases((level + 2) as nat, levels);
                }
                assert(bound_ok(b, levels, 2 * n));
                assert(bound_ok(b, levels, 2 * n + 1));
            } else {
                lemma_level_bounds(n, (levels - 1) as nat);
            }
        }
        if order != 0 {
            let right_child = left_child(index);
            let left = self.flat_blocks[right_child - 1].order_free;
            let right = self.flat_blocks[right_child].order_free;
            let value = if left == order && right == order {
                order + 1
            } else if left >= right {
                left
            } else {
                right
            };
            proof {
                lemma_set_node(b, levels, n, value);
            }
            self.flat_blocks.set(index - 1, Block { order_free: value });
        } else {
            proof {
                lemma_set_node(b, levels, n, 1);
            }
            self.flat_blocks.set(index - 1, Block::new_free(0));
        }
        assert(self@ =~= b.update(n - 1, freed_value(b, n, order as nat)));
        proof {
            lemma_update_above_wf(self@, levels, n, level as nat);
        }
        self.update_blocks_above(index, level);
    }

    /// Update a block from its children.
    fn update_block(&mut self, node_index: usize, level: u8)
        requires
            old(self).shape_ok(),
            on_level(node_index as nat, level as nat),
            level < old(self).levels() - 1,
        ensures
            final(self).shape_ok(),
            final(self).levels() == old(self).levels(),
            final(self).base() == old(self).base(),
            final(self)@ == recompute(old(self)@, old(self).levels(), node_index as nat),
    {
        proof {
            lemma_level_of(node_index as nat, level as nat);
            lemma_pow2_pos(level as nat);
            lemma_pow2_strictly_increases((level + 1) as nat, self.level_count as nat);
            lemma_pow2_unfold(self.level_count as nat);
            if (level + 1) < self.level_count - 1 {
                lemma_pow2_strictly_increases((level + 1) as nat, (self.level_count - 1) as nat);
            }
        }
        let left_index = left_child(node_index) - 1;
        let left = self.flat_blocks[left_index].order_free;
        let right = self.flat_blocks[left_index + 1].order_free;
        let order = self.level_count - 1 - level;
        let value = if left == order && right == order {
            order + 1
        } else if left >= right {
            left
        } else {
            right
        };
        self.flat_blocks.set(node_index - 1, Block { order_free: value });
        assert(self@ =~= recompute(old(self)@, old(self).levels(), node_index as nat));
    }

    /// Recompute the `max_level` ancestors of node `index`, which sits on level `max_level`.
    fn update_blocks_above(&mut self, index: usize, max_level: u8)
        requires
            old(self).shape_ok(),
            1 <= index,
            level_of(index as nat) == max_level,
            max_level < old(self).levels(),
        ensures
            final(self).shape_ok(),
            final(self).levels() == old(self).levels(),
            final(self).base() == old(self).base(),
            final(self)@ == update_above(old(self)@, old(self).levels(), index as nat, max_level as nat),
    {
        let mut node_index = index;
        let mut level = max_level;
        while level > 0
            invariant
                self.shape_ok(),
                self.levels() == old(self).levels(),
                self.base() == old(self).base(),
                1 <= node_index,
                level_of(node_index as nat) == level,
                level <= max_level < self.levels(),
                update_above(self@, self.levels(), node_index as nat, level as nat) == update_above(
                    old(self)@,
                    old(self).levels(),
                    index as nat,
                    max_level as nat,
                ),
            decreases level,
        {
            let ghost before = self@;
            let ghost child = node_index as nat;
            node_index = parent(node_index);
            level = level - 1;
            proof {
                assert(child >= 2);
                lemma_on_level_of(node_index as nat);
            }
            self.update_block(node_index, level);
            assert(update_above(before, self.levels(), child, (level + 1) as nat) == update_above(
                self@,
                self.levels(),
                node_index as nat,
                level as nat,
            ));
        }
    }
}

} // verus!
