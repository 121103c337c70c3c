//! Physical memory bookkeeping: removing reserved ranges from the usable memory areas, the
//! area the kernel occupies, and mappings of physical regions into the heap.

use vstd::prelude::*;
use core::ops::Range;
use arrayvec::ArrayVec;
use vstd::arithmetic::power2::*;
use crate::util::{round_up_divide, spec_round_up_divide};
use crate::heap::{Heap, spec_order, specific_pages, MAX_ORDER, HEAP_START, LEVEL_COUNT, BASE_ORDER};
use crate::buddy::{can_allocate, node_address, alloc_node, allocated_tree};

verus! {

/// The hole that `sub` makes in `main`: where it starts and ends. A `sub` that starts inside
/// `main`, or starts below it and reaches up to or into it, makes one.
pub open spec fn spec_hole(main: Range<usize>, sub: Range<usize>) -> Option<(usize, usize)> {
    let hole_start = if sub.start >= main.start && sub.start < main.end {
        Some(sub.start)
    } else if sub.start < main.start && sub.end >= main.start {
        Some(main.start)
    } else {
        None
    };
    match hole_start {
        None => None,
        Some(start) => Some(
            (
                start,
                if main.end > sub.end {
                    sub.end
                } else {
                    main.end
                },
            ),
        ),
    }
}

/// `main` with `sub` taken out: the part below the hole and the part above it.
pub open spec fn spec_range_sub(main: Range<usize>, sub: Range<usize>) -> Seq<Option<Range<usize>>> {
    match spec_hole(main, sub) {
        Some((start, end)) => seq![
            if main.start != start {
                Some(main.start..start)
            } else {
                None
            },
            if main.end != end {
                Some(end..main.end)
            } else {
                None
            },
        ],
        None => seq![Some(main), None],
    }
}

/// Subtracts a range from another one: the parts of `main` below and above the hole that `sub`
/// makes in it, or `main` whole when `sub` makes none.
pub fn range_sub(main: &Range<usize>, sub: &Range<usize>) -> (parts: [Option<Range<usize>>; 2])
    ensures
        parts@ == spec_range_sub(*main, *sub),
{
    let hole_start = if sub.start >= main.start && sub.start < main.end {
        Some(sub.start)
    } else if sub.start < main.start && sub.end >= main.start {
        Some(main.start)
    } else {
        None
    };
    let hole_end = if main.end > sub.end && hole_start.is_some() {
        Some(sub.end)
    } else if hole_start.is_some() {
        Some(main.end)
    } else {
        None
    };
    let hole = match (hole_start, hole_end) {
        (Some(start), Some(end)) => Some((start, end)),
        _ => None,
    };
    let parts = match hole {
        Some((start, end)) => {
            let lower_half = if main.start != start {
                Some(main.start..start)
            } else {
                None
            };
            let higher_half = if main.end != end {
                Some(end..main.end)
            } else {
                None
            };
            [lower_half, higher_half]
        },
        None => [Some(main.start..main.end), None],
    };
    assert(parts@ =~= spec_range_sub(*main, *sub));
    parts
}

/// Whether `x` lies in a part.
pub open spec fn part_has(part: Option<Range<usize>>, x: int) -> bool {
    match part {
        Some(r) => r.start <= x < r.end,
        None => false,
    }
}

/// Whether `x` lies in one of the two parts.
pub open spec fn in_parts(parts: Seq<Option<Range<usize>>>, x: int) -> bool {
    part_has(parts[0], x) || part_has(parts[1], x)
}

/// Taking a range out of another leaves exactly the addresses of the first that are not in the
/// second.
pub proof fn law_range_sub_removes(main: Range<usize>, sub: Range<usize>, x: int)
    requires
        sub.start <= sub.end,
    ensures
        in_parts(spec_range_sub(main, sub), x) <==> (main.start <= x < main.end && !(sub.start
            <= x < sub.end)),
{
}

/// The area the kernel occupies: from the lowest start to one past the highest end of the ELF
/// sections (each `(start, end)` covers its end) and the boot modules (each `(start, end)`
/// ends before its end).
pub open spec fn spec_kernel_area(sections: Seq<(u64, u64)>, modules: Seq<(u32, u32)>) -> (int, int)
    recommends
        sections.len() + modules.len() > 0,
{
    let starts = sections.map_values(|s: (u64, u64)| s.0 as int) + modules.map_values(
        |m: (u32, u32)| m.0 as int,
    );
    let ends = sections.map_values(|s: (u64, u64)| s.1 + 1) + modules.map_values(
        |m: (u32, u32)| m.1 as int,
    );
    (min_of(starts), max_of(ends) + 1)
}

/// The smallest of some numbers.
pub open spec fn min_of(values: Seq<int>) -> int
    decreases values.len(),
{
    if values.len() <= 1 {
        values[0]
    } else {
        let rest = min_of(values.drop_last());
        if values.last() < rest {
            values.last()
        } else {
            rest
        }
    }
}

/// The largest of some numbers.
pub open spec fn max_of(values: Seq<int>) -> int
    decreases values.len(),
{
    if values.len() <= 1 {
        values[0]
    } else {
        let rest = max_of(values.drop_last());
        if values.last() > rest {
            values.last()
        } else {
            rest
        }
    }
}

/// The area the kernel occupies.
pub fn kernel_area(sections: &[(u64, u64)], modules: &[(u32, u32)]) -> (area: Range<u64>)
    requires
        sections@.len() + modules@.len() > 0,
        sections@.len() + modules@.len() <= usize::MAX,
        forall|i: int| 0 <= i < sections@.len() ==> #[trigger] sections@[i].1 < u64::MAX - 1,
    ensures
        (area.start as int, area.end as int) == spec_kernel_area(sections@, modules@),
{
    let ghost starts = sections@.map_values(|s: (u64, u64)| s.0 as int) + modules@.map_values(
        |m: (u32, u32)| m.0 as int,
    );
    let ghost ends = sections@.map_values(|s: (u64, u64)| s.1 + 1) + modules@.map_values(
        |m: (u32, u32)| m.1 as int,
    );
    let mut begin: u64 = 0;
    let mut end: u64 = 0;
    let mut i: usize = 0;
    let total = sections.len() + modules.len();
    while i < total
        invariant
            i <= total,
            total == sections@.len() + modules@.len(),
            total == starts.len(),
            total == ends.len(),
            starts == sections@.map_values(|s: (u64, u64)| s.0 as int) + modules@.map_values(
                |m: (u32, u32)| m.0 as int,
            ),
            ends == sections@.map_values(|s: (u64, u64)| s.1 + 1) + modules@.map_values(
                |m: (u32, u32)| m.1 as int,
            ),
            forall|j: int| 0 <= j < sections@.len() ==> #[trigger] sections@[j].1 < u64::MAX - 1,
            i > 0 ==> begin == min_of(starts.take(i as int)),
            i > 0 ==> end == max_of(ends.take(i as int)),
            end < u64::MAX,
        decreases total - i,
    {
        let (start, stop) = if i < sections.len() {
            (sections[i].0, sections[i].1 + 1)
        } else {
            (modules[i - sections.len()].0 as u64, modules[i - sections.len()].1 as u64)
        };
        assert(starts[i as int] == start);
        assert(ends[i as int] == stop);
        assert(starts.take(i + 1int).drop_last() =~= starts.take(i as int));
        assert(ends.take(i + 1int).drop_last() =~= ends.take(i as int));
        if i == 0 || start < begin {
            begin = start;
        }
        if i == 0 || stop > end {
            end = stop;
        }
        i = i + 1;
    }
    assert(starts.take(total as int) =~= starts);
    assert(ends.take(total as int) =~= ends);
    begin..end + 1
}

/// The first megabyte, which is never handed out.
pub const LOW_MEMORY_END: usize = 0x10_0000;

/// The parts that are there.
pub open spec fn present(parts: Seq<Option<Range<usize>>>) -> Seq<Range<usize>> {
    (if parts[0] is Some {
        seq![parts[0]->0]
    } else {
        Seq::empty()
    }) + (if parts[1] is Some {
        seq![parts[1]->0]
    } else {
        Seq::empty()
    })
}

/// The usable parts of one memory area: without the kernel, and then without the first
/// megabyte.
pub open spec fn usable_of(area: Range<usize>, kernel: Range<usize>) -> Seq<Range<usize>> {
    let outside = present(spec_range_sub(area, kernel));
    (if outside.len() > 0 {
        present(spec_range_sub(outside[0], 0..LOW_MEMORY_END))
    } else {
        Seq::empty()
    }) + (if outside.len() > 1 {
        present(spec_range_sub(outside[1], 0..LOW_MEMORY_END))
    } else {
        Seq::empty()
    })
}

/// The usable parts of all memory areas, in order.
pub open spec fn spec_usable_areas(areas: Seq<Range<usize>>, kernel: Range<usize>) -> Seq<
    Range<usize>,
>
    decreases areas.len(),
{
    if areas.len() == 0 {
        Seq::empty()
    } else {
        spec_usable_areas(areas.drop_last(), kernel) + usable_of(areas.last(), kernel)
    }
}

fn push_present(out: &mut Vec<Range<usize>>, parts: [Option<Range<usize>>; 2])
    ensures
        final(out)@ == old(out)@ + present(parts@),
{
    match &parts[0] {
        Some(r) => out.push(r.start..r.end),
        None => {},
    }
    match &parts[1] {
        Some(r) => out.push(r.start..r.end),
        None => {},
    }
    assert(final(out)@ =~= old(out)@ + present(parts@));
}

/// How many usable areas are kept.
pub const USABLE_AREA_CAPACITY: usize = 256;

#[verifier::external_type_specification]
#[verifier::external_body]
#[verifier::reject_recursive_types(Item)]
pub struct ExArrayVec<Item, const CAP: usize>(ArrayVec<Item, CAP>);

/// The ranges an `ArrayVec` of usable areas holds, in order.
pub uninterp spec fn area_list(list: ArrayVec<Range<usize>, 256>) -> Seq<Range<usize>>;

/// `ArrayVec::new` of the arrayvec crate: an empty vector. (It panics only for capacities
/// above `u32::MAX`, which 256 is not.)
#[verifier::external_body]
fn area_list_new() -> (list: ArrayVec<Range<usize>, 256>)
    ensures
        area_list(list) == Seq::<Range<usize>>::empty(),
{
    ArrayVec::new()
}

/// `ArrayVec::len` of the arrayvec crate: how many ranges the vector holds.
#[verifier::external_body]
fn area_list_len(list: &ArrayVec<Range<usize>, 256>) -> (len: usize)
    ensures
        len == area_list(*list).len(),
{
    list.len()
}

/// `ArrayVec::push` of the arrayvec crate: appends `area` at the end. It panics on a full
/// vector, which `requires` leaves out.
#[verifier::external_body]
fn area_list_push(list: &mut ArrayVec<Range<usize>, 256>, area: Range<usize>)
    requires
        area_list(*old(list)).len() < 256,
    ensures
        area_list(*final(list)) == area_list(*old(list)).push(area),
{
    list.push(area)
}

/// The usable areas that are kept: the first `USABLE_AREA_CAPACITY` of them.
pub open spec fn kept_areas(all: Seq<Range<usize>>) -> Seq<Range<usize>> {
    if all.len() <= USABLE_AREA_CAPACITY {
        all
    } else {
        all.take(USABLE_AREA_CAPACITY as int)
    }
}

/// The memory that can be handed out: each area of the memory map without the kernel's area
/// and without the first megabyte, collected into an `ArrayVec` of 256 areas. Areas beyond
/// the 256th are left out.
pub fn usable_areas(areas: &[Range<usize>], kernel: &Range<usize>) -> (usable: ArrayVec<Range<usize>, 256>)
    ensures
        area_list(usable) == kept_areas(spec_usable_areas(areas@, *kernel)),
{
    let all = all_usable_areas(areas, kernel);
    let mut usable = area_list_new();
    let mut i: usize = 0;
    while i < all.len()
        invariant
            i <= all@.len(),
            area_list(usable) == kept_areas(all@.take(i as int)),
        decreases all@.len() - i,
    {
        if area_list_len(&usable) < USABLE_AREA_CAPACITY {
            let area = &all[i];
            area_list_push(&mut usable, area.start..area.end);
        }
        assert(kept_areas(all@.take(i + 1int)) =~= if all@.take(i as int).len() < USABLE_AREA_CAPACITY {
            kept_areas(all@.take(i as int)).push(all@[i as int])
        } else {
            kept_areas(all@.take(i as int))
        });
        i = i + 1;
    }
    assert(all@.take(all@.len() as int) =~= all@);
    usable
}

/// Every usable part of the areas, in order (see `usable_areas`).
fn all_usable_areas(areas: &[Range<usize>], kernel: &Range<usize>) -> (usable: Vec<Range<usize>>)
    ensures
        usable@ == spec_usable_areas(areas@, *kernel),
{
    let mut usable: Vec<Range<usize>> = Vec::new();
    let low = 0..LOW_MEMORY_END;
    let mut i: usize = 0;
    while i < areas.len()
        invariant
            i <= areas@.len(),
            low == (0..LOW_MEMORY_END),
            usable@ == spec_usable_areas(areas@.take(i as int), *kernel),
        decreases areas@.len() - i,
    {
        let area = &areas[i];
        let outside = range_sub(area, kernel);
        let mut outside_parts: Vec<Range<usize>> = Vec::new();
        push_present(&mut outside_parts, outside);
        let ghost before = usable@;
        let mut j: usize = 0;
        while j < outside_parts.len()
            invariant
                j <= outside_parts@.len(),
                outside_parts@.len() <= 2,
                outside_parts@ == present(spec_range_sub(*area, *kernel)),
                low == (0..LOW_MEMORY_END),
                usable@ == before + (if j > 0 {
                    present(spec_range_sub(outside_parts@[0], 0..LOW_MEMORY_END))
                } else {
                    Seq::empty()
                }) + (if j > 1 {
                    present(spec_range_sub(outside_parts@[1], 0..LOW_MEMORY_END))
                } else {
                    Seq::empty()
                }),
            decreases outside_parts@.len() - j,
        {
            let parts = range_sub(&outside_parts[j], &low);
            push_present(&mut usable, parts);
            j = j + 1;
            assert(usable@ =~= before + (if j > 0 {
                present(spec_range_sub(outside_parts@[0], 0..LOW_MEMORY_END))
            } else {
                Seq::empty()
            }) + (if j > 1 {
                present(spec_range_sub(outside_parts@[1], 0..LOW_MEMORY_END))
            } else {
                Seq::empty()
            }));
        }
        assert(areas@.take(i + 1int).drop_last() =~= areas@.take(i as int));
        assert(usable@ =~= spec_usable_areas(areas@.take(i as int), *kernel) + usable_of(
            areas@[i as int],
            *kernel,
        ));
        i = i + 1;
    }
    assert(areas@.take(areas@.len() as int) =~= areas@);
    usable
}

/// Where the bootstrap heap starts: after both the kernel and the boot information, at the
/// first address aligned to `align`.
pub fn bootstrap_heap_start(kernel_end: usize, boot_info_end: usize, align: usize) -> (start: usize)
    requires
        align > 0,
        kernel_end + align - 1 <= usize::MAX,
        boot_info_end + align - 1 <= usize::MAX,
    ensures
        ({
            let end = if kernel_end > boot_info_end {
                kernel_end
            } else {
                boot_info_end
            };
            &&& start % align == 0
            &&& end <= start < end + align
        }),
{
    let end = if kernel_end > boot_info_end {
        kernel_end
    } else {
        boot_info_end
    };
    let rounded = end + (align - 1);
    let quotient = rounded / align;
    proof {
        vstd::arithmetic::div_mod::lemma_fundamental_div_mod(rounded as int, align as int);
        assert(quotient * align == align * quotient) by (nonlinear_arith);
        assert(0 <= rounded % align < align);
    }
    let start = quotient * align;
    proof {
        vstd::arithmetic::div_mod::lemma_mod_multiples_basic(quotient as int, align as int);
        assert(start % align == 0);
    }
    start
}

/// The number of gibibyte trees the physical allocator needs for memory up to the highest
/// address `highest` (truncated to a byte, as the allocator counts trees).
pub fn physical_tree_count(highest: u64) -> (trees: u8)
    ensures
        trees == spec_round_up_divide(highest as nat, 0x4000_0000) as u8,
{
    round_up_divide(highest, 0x4000_0000) as u8
}

/// The highest address of the memory map: one below the largest end of its areas.
pub fn highest_address(ends: &[u64]) -> (highest: u64)
    requires
        ends@.len() > 0,
        forall|i: int| 0 <= i < ends@.len() ==> #[trigger] ends@[i] > 0,
    ensures
        exists|i: int| 0 <= i < ends@.len() && highest == ends@[i] - 1,
        forall|i: int| 0 <= i < ends@.len() ==> highest >= #[trigger] ends@[i] - 1,
{
    let mut highest = ends[0] - 1;
    let mut i: usize = 1;
    while i < ends.len()
        invariant
            1 <= i <= ends@.len(),
            forall|k: int| 0 <= k < ends@.len() ==> #[trigger] ends@[k] > 0,
            exists|k: int| 0 <= k < i && highest == ends@[k] - 1,
            forall|k: int| 0 <= k < i ==> highest >= #[trigger] ends@[k] - 1,
        decreases ends@.len() - i,
    {
        if ends[i] - 1 > highest {
            highest = ends[i] - 1;
        }
        i = i + 1;
    }
    highest
}

/// A physical region mapped into the heap.
#[derive(Clone, Copy, PartialEq, Eq, Structural, Debug)]
pub struct PhysicalMapping {
    pub physical_start: u64,
    pub virtual_start: u64,
    pub mapped_length: u64,
    pub mutable: bool,
}

impl PhysicalMapping {
    /// The address of the mapped data, if the mapping may be written to.
    pub fn deref_mut(&self) -> (address: Option<u64>)
        ensures
            address == (if self.mutable {
                Some(self.virtual_start)
            } else {
                None
            }),
    {
        if self.mutable {
            Some(self.virtual_start)
        } else {
            None
        }
    }
}

/// Maps the physical region of `size` bytes at `physical_address` into the heap: returns the
/// mapping and the page to frame mappings to make, or `None` when the heap has no block for it.
/// The region is mapped in whole frames, and the mapping points at the address itself within
/// its first frame.
pub fn map_physical_region(heap: &mut Heap, physical_address: u64, size: u64, mutable: bool) -> (result: Option<(PhysicalMapping, Vec<(u64, u64)>)>)
    requires
        old(heap).ready(),
        spec_round_up_divide(size as nat, 4096) * 4096 <= usize::MAX,
        physical_address / 4096 + 0x40000 <= u64::MAX / 4096,
    ensures
        final(heap).ready(),
        ({
            let frames = spec_round_up_divide(size as nat, 4096);
            let begin = physical_address / 4096;
            let b = old(heap).spec_tree()->0@;
            let o = spec_order(frames * 4096);
            if o > MAX_ORDER || !can_allocate(b, o) {
                result is None && final(heap).spec_tree() == old(heap).spec_tree()
            } else {
                let ptr = HEAP_START + node_address(
                    LEVEL_COUNT as nat,
                    BASE_ORDER as nat,
                    alloc_node(b, LEVEL_COUNT as nat, o),
                );
                &&& result matches Some(found)
                &&& found.0 == (PhysicalMapping {
                    physical_start: (begin * 4096) as u64,
                    virtual_start: (ptr + physical_address - begin * 4096) as u64,
                    mapped_length: (frames * 4096) as u64,
                    mutable,
                })
                &&& found.1@.len() == specific_pages(o)
                &&& forall|i: int|
                    0 <= i < specific_pages(o) ==> #[trigger] found.1@[i] == (
                        (ptr + i * 4096) as u64,
                        ((begin + i) * 4096) as u64,
                    )
                &&& final(heap).spec_tree()->0@ == allocated_tree(b, LEVEL_COUNT as nat, o)
            }
        }),
{
    let frames = round_up_divide(size, 4096);
    let physical_begin_frame = physical_address / 4096;
    match heap.alloc_specific(physical_begin_frame, frames as usize) {
        None => None,
        Some((ptr, mappings)) => {
            proof {
                lemma2_to64();
            }
            let offset = physical_address - physical_begin_frame * 4096;
            let mapping = PhysicalMapping {
                physical_start: physical_begin_frame * 4096,
                virtual_start: ptr + offset,
                mapped_length: frames * 4096,
                mutable,
            };
            Some((mapping, mappings))
        },
    }
}

} // verus!
