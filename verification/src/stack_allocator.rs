//! A bump allocator for kernel stacks.

use vstd::prelude::*;
use crate::paging::Page;

verus! {

/// A bump allocator for kernel stacks. There is no guard page.
pub struct StackAllocator {
    base: Page,
    capacity: usize,
    /// Stack size in 4KiB pages.
    stack_size_pages: usize,
    current: usize,
}

impl StackAllocator {
    pub closed spec fn spec_base(&self) -> nat {
        self.base.spec_start_address()->Some_0
    }

    pub closed spec fn spec_capacity(&self) -> nat {
        self.capacity as nat
    }

    /// Bytes in one stack.
    pub closed spec fn spec_stack_bytes(&self) -> nat {
        self.stack_size_pages as nat * 4096
    }

    /// How many stacks have been handed out.
    pub closed spec fn spec_current(&self) -> nat {
        self.current as nat
    }

    pub closed spec fn wf(&self) -> bool {
        &&& self.base.spec_start_address() is Some
        &&& self.base.spec_start_address()->Some_0 <= usize::MAX
        &&& self.stack_size_pages * 4096 <= usize::MAX
    }

    /// The address of the next stack, if that address fits the address space.
    pub open spec fn next_address_fits(&self) -> bool {
        self.spec_current() < self.spec_capacity() ==> self.spec_base() + self.spec_current()
            * self.spec_stack_bytes() <= usize::MAX
    }

    /// An allocator of `capacity` stacks of `stack_size` pages each, starting at `base`.
    pub fn new(base: Page, capacity: usize, stack_size: usize) -> (allocator: StackAllocator)
        requires
            base.spec_start_address() is Some,
            base.spec_start_address()->Some_0 <= usize::MAX,
            stack_size * 4096 <= usize::MAX,
        ensures
            allocator.wf(),
            allocator.spec_base() == base.spec_start_address()->Some_0,
            allocator.spec_capacity() == capacity,
            allocator.spec_stack_bytes() == stack_size * 4096,
            allocator.spec_current() == 0,
    {
        StackAllocator { base, capacity, stack_size_pages: stack_size, current: 0 }
    }

    /// Hand out the next stack, or `None` once `capacity` stacks have been handed out.
    pub fn allocate(&mut self) -> (stack: Option<usize>)
        requires
            old(self).wf(),
            old(self).next_address_fits(),
        ensures
            final(self).wf(),
            final(self).spec_base() == old(self).spec_base(),
            final(self).spec_capacity() == old(self).spec_capacity(),
            final(self).spec_stack_bytes() == old(self).spec_stack_bytes(),
            old(self).spec_current() >= old(self).spec_capacity() ==> stack is None
                && final(self).spec_current() == old(self).spec_current(),
            old(self).spec_current() < old(self).spec_capacity() ==> stack == Some(
                (old(self).spec_base() + old(self).spec_current() * old(self).spec_stack_bytes())
                    as usize,
            ) && final(self).spec_current() == old(self).spec_current() + 1,
    {
        if self.current >= self.capacity {
            return None;
        }
        let start = match self.base.start_address() {
            Some(start) => start,
            None => 0,
        };
        let pages = self.stack_size_pages;
        proof {
            vstd::arithmetic::power2::lemma2_to64();
            vstd::bits::lemma_usize_shl_is_mul(pages, 12);
            assert(self.current * self.spec_stack_bytes() <= usize::MAX);
        }
        let addr = start + (self.current * (pages << 12usize));
        self.current = self.current + 1;
        Some(addr)
    }
}

} // verus!
