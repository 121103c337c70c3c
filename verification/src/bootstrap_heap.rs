//! A bitmap allocator of a fixed number of objects of one type, placed one after another from a
//! start address: it hands out the addresses that the buddy allocator's trees are kept at before
//! there is a heap. Writing the objects at those addresses is up to its user.

use vstd::prelude::*;
use core::marker::PhantomData;
use crate::bits::{bit_set, get_bit, set_bit, lemma_set_bit, lemma_zero_byte};

verus! {

/// How many bytes of eight objects the bitmap has.
pub const OBJECTS8_NUMBER: usize = 8;

/// Whether object `index` is in use in `bitmap`: bit `index % 8` of byte `index / 8`.
pub open spec fn slot_used(bitmap: Seq<u8>, index: int) -> bool {
    bit_set(bitmap[index / 8], (index % 8) as u8)
}

/// The first object from `from` on that is not in use.
pub open spec fn first_free(bitmap: Seq<u8>, from: int) -> Option<int>
    decreases 64 - from,
{
    if from < 0 || from >= 64 {
        None
    } else if !slot_used(bitmap, from) {
        Some(from)
    } else {
        first_free(bitmap, from + 1)
    }
}

/// A bitmap allocator of 64 objects of type `T` from a start address.
pub struct BootstrapAllocator<T> {
    start_addr: usize,
    bitmap: Vec<u8>,
    _phantom: PhantomData<T>,
}

/// An object handed out by a bootstrap allocator: its address.
pub struct BootstrapHeapBox<T> {
    pub ptr: usize,
    pub _phantom: PhantomData<T>,
}

impl<T> BootstrapAllocator<T> {
    pub closed spec fn spec_start(&self) -> usize {
        self.start_addr
    }

    pub closed spec fn spec_bitmap(&self) -> Seq<u8> {
        self.bitmap@
    }

    pub open spec fn spec_used(&self, index: int) -> bool {
        slot_used(self.spec_bitmap(), index)
    }

    pub open spec fn wf(&self) -> bool {
        self.spec_bitmap().len() == OBJECTS8_NUMBER
    }

    /// The bytes the objects take.
    pub fn space_taken() -> (space: usize)
        requires
            vstd::layout::size_of::<T>() * 64 <= usize::MAX,
        ensures
            space == vstd::layout::size_of::<T>() * 64,
    {
        core::mem::size_of::<T>() * OBJECTS8_NUMBER * 8
    }

    /// The address of the first object.
    pub fn start(&self) -> (start: usize)
        ensures
            start == self.spec_start(),
    {
        self.start_addr
    }

    /// An allocator with every object free, its first object at `start`. The space from
    /// `start` on is its user's to provide.
    pub fn new_unchecked(start: usize) -> (allocator: BootstrapAllocator<T>)
        ensures
            allocator.wf(),
            allocator.spec_start() == start,
            forall|i: int| 0 <= i < 64 ==> !#[trigger] allocator.spec_used(i),
    {
        let mut bitmap: Vec<u8> = Vec::new();
        while bitmap.len() < OBJECTS8_NUMBER
            invariant
                bitmap@.len() <= 8,
                forall|i: int| 0 <= i < bitmap@.len() ==> bitmap@[i] == 0,
            decreases 8 - bitmap@.len(),
        {
            bitmap.push(0);
        }
        let allocator = BootstrapAllocator { start_addr: start, bitmap, _phantom: PhantomData };
        assert forall|i: int| 0 <= i < 64 implies !#[trigger] allocator.spec_used(i) by {
            lemma_zero_byte((i % 8) as u8);
        }
        allocator
    }

    /// Marks object `index` used or free.
    fn set_used(&mut self, index: usize, used: bool)
        requires
            old(self).wf(),
            index < 64,
        ensures
            final(self).wf(),
            final(self).spec_start() == old(self).spec_start(),
            final(self).spec_used(index as int) == used,
            forall|j: int| 0 <= j < 64 && j != index ==> #[trigger] final(self).spec_used(j) == old(self).spec_used(j),
    {
        let byte_index = index / 8;
        let bit = index % 8;
        set_bit(&mut self.bitmap[byte_index], bit, used);
        proof {
            let old_byte = old(self).spec_bitmap()[byte_index as int];
            assert forall|j: int| 0 <= j < 64 && j != index implies #[trigger] self.spec_used(j) == old(self).spec_used(j) by {
                if j / 8 == byte_index {
                    lemma_set_bit(old_byte, bit as u8, used, (j % 8) as u8);
                }
            }
            lemma_set_bit(old_byte, bit as u8, used, bit as u8);
        }
    }

    /// Takes the first free object and gives its address, offset from the start by its index
    /// times the object size; none when every object is in use. The object is to be zeroed at
    /// that address.
    pub fn allocate_zeroed(&mut self) -> (object: Option<BootstrapHeapBox<T>>)
        requires
            old(self).wf(),
            old(self).spec_start() + vstd::layout::size_of::<T>() * 64 <= usize::MAX,
        ensures
            final(self).wf(),
            final(self).spec_start() == old(self).spec_start(),
            match first_free(old(self).spec_bitmap(), 0) {
                None => object is None && final(self).spec_bitmap() == old(self).spec_bitmap(),
                Some(i) => object matches Some(b) && b.ptr == old(self).spec_start() + i
                    * vstd::layout::size_of::<T>() && final(self).spec_used(i) && forall|j: int|
                    0 <= j < 64 && j != i ==> #[trigger] final(self).spec_used(j) == old(self).spec_used(j),
            },
    {
        let mut byte_index: usize = 0;
        while byte_index < OBJECTS8_NUMBER
            invariant
                self.wf(),
                *self == *old(self),
                byte_index <= 8,
                self.spec_start() + vstd::layout::size_of::<T>() * 64 <= usize::MAX,
                first_free(self.spec_bitmap(), 0) == first_free(self.spec_bitmap(), byte_index * 8),
            decreases 8 - byte_index,
        {
            let mut bit: usize = 0;
            while bit < 8
                invariant
                    self.wf(),
                    *self == *old(self),
                    byte_index < 8,
                    bit <= 8,
                    self.spec_start() + vstd::layout::size_of::<T>() * 64 <= usize::MAX,
                    first_free(self.spec_bitmap(), 0) == first_free(self.spec_bitmap(), byte_index * 8 + bit),
                decreases 8 - bit,
            {
                let index = byte_index * 8 + bit;
                assert(index / 8 == byte_index && index % 8 == bit);
                if !get_bit(self.bitmap[byte_index], bit) {
                    self.set_used(index, true);
                    let size = core::mem::size_of::<T>();
                    assert(index * size <= 64 * size) by (nonlinear_arith)
                        requires
                            index < 64,
                    ;
                    return Some(BootstrapHeapBox { ptr: self.start_addr + index * size, _phantom: PhantomData });
                }
                bit = bit + 1;
            }
            byte_index = byte_index + 1;
        }
        None
    }

    /// Frees the object `object`.
    pub fn deallocate(&mut self, object: &BootstrapHeapBox<T>)
        requires
            old(self).wf(),
            vstd::layout::size_of::<T>() > 0,
            object.ptr >= old(self).spec_start(),
            (object.ptr - old(self).spec_start()) / (vstd::layout::size_of::<T>() as int) < 64,
        ensures
            final(self).wf(),
            final(self).spec_start() == old(self).spec_start(),
            ({
                let index = (object.ptr - old(self).spec_start()) / (vstd::layout::size_of::<T>() as int);
                &&& !final(self).spec_used(index)
                &&& forall|j: int| 0 <= j < 64 && j != index ==> #[trigger] final(self).spec_used(j) == old(
                    self,
                ).spec_used(j)
            }),
    {
        let address_in_heap = object.ptr - self.start_addr;
        let index = address_in_heap / core::mem::size_of::<T>();
        self.set_used(index, false);
    }
}

/// The bootstrap heap: an allocator once it is given its start address.
pub struct BootstrapHeap<T>(pub Option<BootstrapAllocator<T>>);

impl<T> BootstrapHeap<T> {
    /// A heap that is not started yet.
    pub fn new() -> (heap: BootstrapHeap<T>)
        ensures
            heap.0 is None,
    {
        BootstrapHeap(None)
    }

    /// Takes an object from the heap (see `BootstrapAllocator::allocate_zeroed`).
    pub fn allocate_zeroed(&mut self) -> (object: Option<BootstrapHeapBox<T>>)
        requires
            old(self).0 matches Some(a) && a.wf() && a.spec_start() + vstd::layout::size_of::<T>() * 64
                <= usize::MAX,
        ensures
            final(self).0 matches Some(a) && a.wf() && a.spec_start() == old(self).0->0.spec_start(),
            ({
                let before = old(self).0->0;
                let after = final(self).0->0;
                match first_free(before.spec_bitmap(), 0) {
                    None => object is None && after.spec_bitmap() == before.spec_bitmap(),
                    Some(i) => object matches Some(b) && b.ptr == before.spec_start() + i
                        * vstd::layout::size_of::<T>() && after.spec_used(i) && forall|j: int|
                        0 <= j < 64 && j != i ==> #[trigger] after.spec_used(j) == before.spec_used(j),
                }
            }),
    {
        let mut allocator = self.0.take().unwrap();
        let object = allocator.allocate_zeroed();
        self.0 = Some(allocator);
        object
    }

    /// Starts the heap at `address`, unless it is started already.
    pub fn init_unchecked(&mut self, address: usize)
        ensures
            old(self).0 is Some ==> *final(self) == *old(self),
            old(self).0 is None ==> (final(self).0 matches Some(a) && a.wf() && a.spec_start() == address
                && forall|i: int| 0 <= i < 64 ==> !#[trigger] a.spec_used(i)),
    {
        if self.0.is_none() {
            self.0 = Some(BootstrapAllocator::new_unchecked(address));
        }
    }

    /// The address where the heap's objects end.
    pub fn end(&self) -> (end: usize)
        requires
            self.0 matches Some(a) && a.spec_start() + vstd::layout::size_of::<T>() * 64 <= usize::MAX,
        ensures
            end == self.0->0.spec_start() + vstd::layout::size_of::<T>() * 64,
    {
        match &self.0 {
            Some(allocator) => allocator.start() + BootstrapAllocator::<T>::space_taken(),
            None => 0,
        }
    }
}

/// Freeing an object right after allocating it leaves every object as it was before, so the
/// next allocation gives the same object again.
pub proof fn law_deallocate_undoes_allocate<T>(
    before: BootstrapAllocator<T>,
    allocated: BootstrapAllocator<T>,
    freed: BootstrapAllocator<T>,
    index: int,
)
    requires
        before.wf(),
        freed.wf(),
        first_free(before.spec_bitmap(), 0) == Some(index),
        allocated.spec_used(index),
        forall|j: int| 0 <= j < 64 && j != index ==> #[trigger] allocated.spec_used(j) == before.spec_used(j),
        !freed.spec_used(index),
        forall|j: int| 0 <= j < 64 && j != index ==> #[trigger] freed.spec_used(j) == allocated.spec_used(j),
    ensures
        forall|j: int| 0 <= j < 64 ==> #[trigger] freed.spec_used(j) == before.spec_used(j),
        first_free(freed.spec_bitmap(), 0) == Some(index),
{
    lemma_first_free_bound(before.spec_bitmap(), 0);
    assert forall|j: int| 0 <= j < 64 implies #[trigger] freed.spec_used(j) == before.spec_used(j) by {
        if j == index {
            lemma_first_free_bound(before.spec_bitmap(), 0);
        }
    }
    assert forall|j: int| 0 <= j < 64 implies #[trigger] slot_used(before.spec_bitmap(), j) == slot_used(
        freed.spec_bitmap(),
        j,
    ) by {
        assert(freed.spec_used(j) == before.spec_used(j));
    }
    lemma_first_free_same(before.spec_bitmap(), freed.spec_bitmap(), 0);
}

proof fn lemma_first_free_bound(bitmap: Seq<u8>, from: int)
    ensures
        first_free(bitmap, from) matches Some(i) ==> from <= i < 64 && !slot_used(bitmap, i),
    decreases 64 - from,
{
    if 0 <= from < 64 && slot_used(bitmap, from) {
        lemma_first_free_bound(bitmap, from + 1);
    }
}

/// Bitmaps with the same objects in use have the same first free object.
proof fn lemma_first_free_same(a: Seq<u8>, b: Seq<u8>, from: int)
    requires
        forall|j: int| 0 <= j < 64 ==> #[trigger] slot_used(a, j) == slot_used(b, j),
    ensures
        first_free(a, from) == first_free(b, from),
    decreases 64 - from,
{
    if 0 <= from < 64 {
        assert(slot_used(a, from) == slot_used(b, from));
        lemma_first_free_same(a, b, from + 1);
    }
}

} // verus!
