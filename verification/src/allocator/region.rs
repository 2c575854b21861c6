//! The fallback region: a first-fit heap over one contiguous window, provided
//! by `linked_list_allocator::Heap`, with its size, its start and its free
//! extents as the allocator's contracts speak of them.

use core::alloc::Layout;
use core::mem::MaybeUninit;
use linked_list_allocator::Heap;
use vstd::prelude::*;

verus! {

#[verifier::external_type_specification]
#[verifier::external_body]
pub struct ExHeap(linked_list_allocator::Heap);

/// Number of bytes the heap manages, as `Heap::size` reports it: zero until
/// the heap is bound to memory, and fixed from then on.
pub uninterp spec fn region_size(heap: Heap) -> nat;

/// Address at which the memory that the heap manages begins, as
/// `Heap::bottom` reports it.
pub uninterp spec fn region_bottom(heap: Heap) -> nat;

/// The free extents of the heap in the order of its hole list, each by its
/// start address and its size in bytes.
pub uninterp spec fn region_holes(heap: Heap) -> Seq<(nat, nat)>;

/// What `Heap::allocate_first_fit` answers on the given free extents for a
/// request of `size` bytes aligned to `align`: the start of the block that
/// it carves out of the first extent that can hold the request, or none.
pub uninterp spec fn first_fit(holes: Seq<(nat, nat)>, size: usize, align: usize) -> Option<usize>;

/// Smallest window the region accepts, whatever the alignment of its start.
pub const MIN_REGION_BYTES: usize = 24;

/// Most bytes of a window that alignment to the machine word can take away:
/// up to seven at its start and up to seven at its end.
pub const MAX_REGION_LOSS: usize = 14;

/// `n` is a power of two.
pub open spec fn is_power_of_two(n: usize) -> bool {
    n > 0 && n & ((n - 1) as usize) == 0
}

/// The pairs `(size, align)` that make a memory layout: the alignment is a
/// power of two, and the size rounded up to it still fits in `isize`.
pub open spec fn valid_layout(size: usize, align: usize) -> bool {
    is_power_of_two(align) && size + align - 1 <= isize::MAX
}

/// The `len` bytes from `start` on lie within one of the extents.
pub open spec fn within_hole(holes: Seq<(nat, nat)>, start: nat, len: nat) -> bool {
    exists|i: int|
        0 <= i < holes.len() && (#[trigger] holes[i]).0 <= start && start + len <= holes[i].0
            + holes[i].1
}

/// The extents `after` are what is left of the extents `before` once the
/// `len` bytes from `start` on were taken: each lies within an extent of
/// `before` and is apart from the bytes taken.
pub open spec fn holes_without(
    before: Seq<(nat, nat)>,
    after: Seq<(nat, nat)>,
    start: nat,
    len: nat,
) -> bool {
    forall|j: int|
        0 <= j < after.len() ==> within_hole(before, (#[trigger] after[j]).0, after[j].1) && (
        after[j].0 + after[j].1 <= start || start + len <= after[j].0)
}

/// `Heap::empty`: a heap bound to no memory. Its size is zero and it has no
/// free extent.
#[verifier::external_body]
pub(crate) fn region_empty() -> (heap: Heap)
    ensures
        region_size(heap) == 0,
        region_holes(heap).len() == 0,
{
    Heap::empty()
}

/// `Heap::size`: the number of bytes that the heap manages.
#[verifier::external_body]
pub(crate) fn region_len(heap: &Heap) -> (len: usize)
    ensures
        len == region_size(*heap),
{
    heap.size()
}

/// `Heap::init_from_slice`: binds a heap that was never bound to `mem`. The
/// heap then manages the window, less at most seven bytes at either end that
/// alignment to the machine word takes away; at least sixteen bytes remain,
/// and all of them are one free extent.
#[verifier::external_body]
pub(crate) fn region_init(heap: &mut Heap, mem: &'static mut [MaybeUninit<u8>])
    requires
        region_size(*old(heap)) == 0,
        old(mem)@.len() >= MIN_REGION_BYTES,
    ensures
        16 <= region_size(*final(heap)) <= old(mem)@.len(),
        old(mem)@.len() - MAX_REGION_LOSS <= region_size(*final(heap)),
        region_holes(*final(heap)) == seq![
            (region_bottom(*final(heap)), region_size(*final(heap))),
        ],
{
    heap.init_from_slice(mem)
}

/// `Heap::allocate_first_fit`: asks the heap for `size` bytes aligned to
/// `align`. The answer is that of first fit on the heap's free extents. A
/// refusal leaves the heap as it was. A block that is handed out starts at
/// a non-null address that is a multiple of `align`; its `size` bytes lie
/// within the memory that the heap manages and within one of the extents
/// that were free, and the extents that are free afterwards are what is
/// left of those. Where the managed memory begins and how large it is does
/// not change.
#[verifier::external_body]
pub(crate) fn region_allocate(heap: &mut Heap, size: usize, align: usize) -> (block: Option<usize>)
    requires
        valid_layout(size, align),
    ensures
        block == first_fit(region_holes(*old(heap)), size, align),
        region_size(*final(heap)) == region_size(*old(heap)),
        region_bottom(*final(heap)) == region_bottom(*old(heap)),
        match block {
            Some(addr) => {
                &&& addr != 0
                &&& addr % align == 0
                &&& region_bottom(*old(heap)) <= addr
                &&& addr + size <= region_bottom(*old(heap)) + region_size(*old(heap))
                &&& within_hole(region_holes(*old(heap)), addr as nat, size as nat)
                &&& holes_without(
                    region_holes(*old(heap)),
                    region_holes(*final(heap)),
                    addr as nat,
                    size as nat,
                )
            },
            None => *final(heap) == *old(heap),
        },
{
    let layout = Layout::from_size_align(size, align).unwrap();
    match heap.allocate_first_fit(layout) {
        Ok(ptr) => Some(ptr.as_ptr() as usize),
        Err(_) => None,
    }
}

} // verus!
