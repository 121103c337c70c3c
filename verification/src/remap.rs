//! Remapping the kernel into fresh page tables: which pages each part of the kernel takes and
//! with which flags.

use vstd::prelude::*;
use crate::paging::{USER_ACCESSIBLE, WRITABLE, NO_EXECUTE};
use crate::util::{round_up_divide, spec_round_up_divide};
use crate::heap::Heap;
use crate::buddy::spec_blocks_in_tree;
use crate::heap::LEVEL_COUNT;

verus! {

/// The physical address of the VGA text buffer.
pub const VGA_BUFFER: u64 = 0xb8000;

/// An ELF section of the kernel image, as the boot information describes it.
#[derive(Clone, Copy, PartialEq, Eq, Structural, Debug)]
pub struct ElfSection {
    pub start: u64,
    pub end: u64,
    pub allocated: bool,
    pub writable: bool,
    pub executable: bool,
}

/// The pages from `first` to `last` (inclusive), mapped with the entry flags `flags`.
#[derive(Clone, Copy, PartialEq, Eq, Structural, Debug)]
pub struct PageRange {
    pub first: u64,
    pub last: u64,
    pub flags: u64,
}

/// What the kernel's new page tables map: each allocated section in the higher half, the VGA
/// buffer, the bootstrap heap, and the heap's tree.
#[derive(PartialEq, Eq, Debug)]
pub struct KernelRemap {
    pub sections: Vec<PageRange>,
    pub vga_flags: u64,
    pub bootstrap_heap_pages: (u64, u64),
    pub heap_tree_pages: (u64, u64),
}

/// The flags of a section's pages: accessible from user mode, writable if the section is, and
/// not executable unless the section is.
pub open spec fn section_flag_bits(section: ElfSection) -> u64 {
    (USER_ACCESSIBLE | (if section.writable {
        WRITABLE
    } else {
        0
    })) | (if !section.executable {
        NO_EXECUTE
    } else {
        0
    })
}

/// The pages of a range of addresses: from the page holding `start` to the one at the end
/// rounded up to a page.
pub open spec fn page_span(start: u64, end: u64) -> (u64, u64) {
    ((start / 4096) as u64, spec_round_up_divide(end as nat, 4096) as u64)
}

/// The allocated sections, in order, as page ranges.
pub open spec fn section_ranges(sections: Seq<ElfSection>) -> Seq<PageRange>
    decreases sections.len(),
{
    if sections.len() == 0 {
        Seq::empty()
    } else {
        let last = sections.last();
        section_ranges(sections.drop_last()) + if last.allocated {
            seq![
                PageRange {
                    first: page_span(last.start, last.end).0,
                    last: page_span(last.start, last.end).1,
                    flags: section_flag_bits(last),
                },
            ]
        } else {
            Seq::empty()
        }
    }
}

/// The pages of an address range.
pub fn page_range(start: u64, end: u64) -> (span: (u64, u64))
    ensures
        span == page_span(start, end),
{
    (start / 4096, round_up_divide(end, 4096))
}

/// The plan for remapping the kernel. Every allocated section must start on a page.
pub fn remap_kernel(sections: &[ElfSection], bootstrap_start: u64, bootstrap_end: u64, heap_tree_start_virt: u64) -> (plan: KernelRemap)
    requires
        forall|i: int| 0 <= i < sections@.len() && #[trigger] sections@[i].allocated ==> sections@[i].start % 4096 == 0,
        heap_tree_start_virt + spec_blocks_in_tree(LEVEL_COUNT as nat) <= u64::MAX,
    ensures
        plan.sections@ == section_ranges(sections@),
        plan.vga_flags == WRITABLE | NO_EXECUTE | USER_ACCESSIBLE,
        plan.bootstrap_heap_pages == page_span(bootstrap_start, bootstrap_end),
        plan.heap_tree_pages == page_span(
            heap_tree_start_virt,
            (heap_tree_start_virt + spec_blocks_in_tree(LEVEL_COUNT as nat)) as u64,
        ),
{
    let mut ranges: Vec<PageRange> = Vec::new();
    let mut i: usize = 0;
    while i < sections.len()
        invariant
            i <= sections@.len(),
            ranges@ == section_ranges(sections@.take(i as int)),
        decreases sections@.len() - i,
    {
        let section = sections[i];
        assert(sections@.take(i + 1int).drop_last() =~= sections@.take(i as int));
        if section.allocated {
            let writable: u64 = if section.writable {
                WRITABLE
            } else {
                0
            };
            let no_execute: u64 = if !section.executable {
                NO_EXECUTE
            } else {
                0
            };
            let (first, last) = page_range(section.start, section.end);
            ranges.push(
                PageRange {
                    first,
                    last,
                    flags: (USER_ACCESSIBLE | writable) | no_execute,
                },
            );
        }
        i = i + 1;
        assert(ranges@ =~= section_ranges(sections@.take(i as int)));
    }
    assert(sections@.take(sections@.len() as int) =~= sections@);
    let tree_size = Heap::tree_size() as u64;
    KernelRemap {
        sections: ranges,
        vga_flags: WRITABLE | NO_EXECUTE | USER_ACCESSIBLE,
        bootstrap_heap_pages: page_range(bootstrap_start, bootstrap_end),
        heap_tree_pages: page_range(heap_tree_start_virt, heap_tree_start_virt + tree_size),
    }
}

} // verus!
