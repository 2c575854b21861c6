//! The segregated free-list allocator: one list of free blocks per size
//! class, over a first-fit fallback region that serves list misses and
//! requests larger than the largest class.
//!
//! Addresses are plain integers; `0` is the exhausted sentinel.

use super::region::{
    first_fit, holes_without, is_power_of_two, region_allocate, region_bottom, region_empty,
    region_holes, region_init, region_len, region_size, valid_layout, within_hole,
    MAX_REGION_LOSS, MIN_REGION_BYTES,
};
use core::mem::MaybeUninit;
use linked_list_allocator::Heap;
use vstd::prelude::*;

verus! {

/// Number of size classes.
pub const CLASS_COUNT: usize = 9;

/// Block size of the largest class.
pub const MAX_BLOCK_SIZE: usize = 2048;

/// The address that says that no memory is left.
pub const EXHAUSTED: usize = 0;

/// Bytes, and alignment, that the link of a free block takes up.
pub const NODE_SIZE: usize = 8;

/// The size-class table: block size, and alignment, of class `index`.
pub open spec fn block_size_spec(index: int) -> int {
    if index == 0 {
        8
    } else if index == 1 {
        16
    } else if index == 2 {
        32
    } else if index == 3 {
        64
    } else if index == 4 {
        128
    } else if index == 5 {
        256
    } else if index == 6 {
        512
    } else if index == 7 {
        1024
    } else {
        2048
    }
}

/// The block size that a request needs: the larger of its size and its
/// alignment.
pub open spec fn required_block_size(size: usize, align: usize) -> int {
    if size >= align {
        size as int
    } else {
        align as int
    }
}

/// The class that serves a request: the first whose blocks are large enough,
/// or none where even the largest is too small.
pub open spec fn list_index_spec(size: usize, align: usize) -> Option<usize> {
    let required = required_block_size(size, align);
    if required <= 8 {
        Some(0)
    } else if required <= 16 {
        Some(1)
    } else if required <= 32 {
        Some(2)
    } else if required <= 64 {
        Some(3)
    } else if required <= 128 {
        Some(4)
    } else if required <= 256 {
        Some(5)
    } else if required <= 512 {
        Some(6)
    } else if required <= 1024 {
        Some(7)
    } else if required <= 2048 {
        Some(8)
    } else {
        None
    }
}

/// Block size of class `index`.
pub fn block_size(index: usize) -> (size: usize)
    requires
        index < CLASS_COUNT,
    ensures
        size == block_size_spec(index as int),
        is_power_of_two(size),
        NODE_SIZE <= size <= MAX_BLOCK_SIZE,
{
    proof {
        lemma_table_is_powers_of_two();
        assert(is_power_of_two(block_size_spec(index as int) as usize));
    }
    if index == 0 {
        8
    } else if index == 1 {
        16
    } else if index == 2 {
        32
    } else if index == 3 {
        64
    } else if index == 4 {
        128
    } else if index == 5 {
        256
    } else if index == 6 {
        512
    } else if index == 7 {
        1024
    } else {
        2048
    }
}

/// Every entry of the table is a power of two that can hold the link of a
/// free block, and the table ascends.
pub proof fn lemma_table_is_powers_of_two()
    ensures
        forall|i: int|
            0 <= i < CLASS_COUNT ==> is_power_of_two(#[trigger] block_size_spec(i) as usize)
                && NODE_SIZE <= block_size_spec(i) <= MAX_BLOCK_SIZE,
        forall|i: int, j: int|
            0 <= i < j < CLASS_COUNT ==> #[trigger] block_size_spec(i) < #[trigger] block_size_spec(
                j,
            ),
{
    assert(is_power_of_two(8usize) && is_power_of_two(16usize) && is_power_of_two(32usize)
        && is_power_of_two(64usize) && is_power_of_two(128usize) && is_power_of_two(256usize)
        && is_power_of_two(512usize) && is_power_of_two(1024usize) && is_power_of_two(2048usize))
        by (bit_vector);
}

/// The class chosen for a request is the smallest that fits it, and a class
/// is chosen exactly when the request is no larger than the largest block.
pub proof fn lemma_list_index(size: usize, align: usize)
    ensures
        match list_index_spec(size, align) {
            Some(i) => i < CLASS_COUNT && block_size_spec(i as int) >= required_block_size(
                size,
                align,
            ) && forall|j: int| 0 <= j < i ==> block_size_spec(j) < required_block_size(size, align),
            None => required_block_size(size, align) > MAX_BLOCK_SIZE,
        },
        list_index_spec(size, align).is_some() <==> size <= MAX_BLOCK_SIZE && align
            <= MAX_BLOCK_SIZE,
{
}

/// Chooses the size class for a request of `size` bytes aligned to `align`.
pub fn list_index(size: usize, align: usize) -> (index: Option<usize>)
    ensures
        index == list_index_spec(size, align),
        match index {
            Some(i) => i < CLASS_COUNT && block_size_spec(i as int) >= required_block_size(
                size,
                align,
            ) && forall|j: int| 0 <= j < i ==> block_size_spec(j) < required_block_size(size, align),
            None => required_block_size(size, align) > MAX_BLOCK_SIZE,
        },
{
    let required: usize = if size >= align {
        size
    } else {
        align
    };
    proof {
        lemma_list_index(size, align);
    }
    let mut i: usize = 0;
    while i < CLASS_COUNT
        invariant
            i <= CLASS_COUNT,
            required == required_block_size(size, align),
            forall|j: int| 0 <= j < i ==> block_size_spec(j) < required,
        decreases CLASS_COUNT - i,
    {
        if block_size(i) >= required {
            proof {
                if i > 0 {
                    assert(block_size_spec(i - 1) < required);
                }
            }
            return Some(i);
        }
        i = i + 1;
    }
    proof {
        assert(block_size_spec(8) < required);
    }
    None
}

/// An address that is a multiple of a class's block size is a multiple of
/// every power of two up to that size.
pub proof fn lemma_block_alignment(addr: usize, align: usize, index: int)
    requires
        0 <= index < CLASS_COUNT,
        is_power_of_two(align),
        align <= block_size_spec(index),
        addr % (block_size_spec(index) as usize) == 0,
    ensures
        addr % align == 0,
{
    let a = align;
    assert(is_power_of_two(a) && a <= 2048 ==> a == 1 || a == 2 || a == 4 || a == 8 || a == 16
        || a == 32 || a == 64 || a == 128 || a == 256 || a == 512 || a == 1024 || a == 2048)
        by (bit_vector);
    let block = block_size_spec(index);
    let k = block / (a as int);
    assert(block == a * k);
    assert(addr as int % (a * k) == 0);
    vstd::arithmetic::div_mod::lemma_mod_mod(addr as int, a as int, k);
}

/// The free lists of all classes: per class, the free blocks in the order in
/// which they were linked, the head of the list last.
pub type FreeLists = Seq<Seq<usize>>;

/// The lists after a block was freed with the given layout: it becomes the
/// head of its class's list; a block of no class leaves the lists alone.
pub open spec fn lists_after_free(lists: FreeLists, ptr: usize, size: usize, align: usize)
    -> FreeLists {
    match list_index_spec(size, align) {
        Some(i) => lists.update(i as int, lists[i as int].push(ptr)),
        None => lists,
    }
}

/// The block that a request takes from the lists: the head of its class's
/// list, where it has a class and that list is not empty.
pub open spec fn reused_block(lists: FreeLists, size: usize, align: usize) -> Option<usize> {
    match list_index_spec(size, align) {
        Some(i) => if lists[i as int].len() > 0 {
            Some(lists[i as int].last())
        } else {
            None
        },
        None => None,
    }
}

/// The lists after a request was served: the head of its class's list is
/// gone where there was one, and nothing else changes.
pub open spec fn lists_after_alloc(lists: FreeLists, size: usize, align: usize) -> FreeLists {
    match list_index_spec(size, align) {
        Some(i) => if lists[i as int].len() > 0 {
            lists.update(i as int, lists[i as int].drop_last())
        } else {
            lists
        },
        None => lists,
    }
}

/// The layout that is handed to the fallback region for a request that the
/// lists cannot serve: a whole block of the class, aligned to its own size,
/// or the request itself where it has no class.
pub open spec fn fallback_layout(size: usize, align: usize) -> (usize, usize) {
    match list_index_spec(size, align) {
        Some(i) => (block_size_spec(i as int) as usize, block_size_spec(i as int) as usize),
        None => (size, align),
    }
}

/// The address that answers a request, given what the fallback region came
/// back with: the start of the block, or the exhausted sentinel.
pub fn address_or_exhausted(block: Option<usize>) -> (addr: usize)
    ensures
        addr == match block {
            Some(start) => start,
            None => EXHAUSTED,
        },
{
    match block {
        Some(start) => start,
        None => EXHAUSTED,
    }
}

/// One list head per size class, and the fallback region.
pub struct FixedSizeBlockAllocator {
    list_heads: Vec<Vec<usize>>,
    /// The first-fit region behind the lists.
    pub fallback_allocator: Heap,
}

impl FixedSizeBlockAllocator {
    /// The free lists, class by class.
    pub closed spec fn view(&self) -> FreeLists {
        Seq::new(self.list_heads@.len(), |i: int| self.list_heads@[i]@)
    }

    /// There is one list per class, and every block on the list of a class
    /// starts at a non-null multiple of the class's block size.
    pub open spec fn wf(&self) -> bool {
        &&& self@.len() == CLASS_COUNT
        &&& forall|i: int, k: int|
            0 <= i < CLASS_COUNT && 0 <= k < self@[i].len() ==> (#[trigger] self@[i][k]) != 0
                && self@[i][k] as int % block_size_spec(i) == 0
    }

    /// The fallback region, as a value.
    pub closed spec fn region(&self) -> Heap {
        self.fallback_allocator
    }

    /// The fallback region has been bound to memory.
    pub open spec fn is_bound(&self) -> bool {
        region_size(self.region()) > 0
    }

    /// Address at which the memory of the fallback region begins.
    pub open spec fn region_start(&self) -> nat {
        region_bottom(self.region())
    }

    /// Address just behind the memory of the fallback region.
    pub open spec fn region_end(&self) -> nat {
        region_bottom(self.region()) + region_size(self.region())
    }

    /// The free extents of the fallback region, each by its start address
    /// and its size.
    pub open spec fn free_extents(&self) -> Seq<(nat, nat)> {
        region_holes(self.region())
    }

    /// What the fallback region answers to a request of the given layout:
    /// the start of the block that first fit finds among its free extents,
    /// or the exhausted sentinel.
    pub open spec fn region_answer(&self, size: usize, align: usize) -> usize {
        match first_fit(self.free_extents(), size, align) {
            Some(start) => start,
            None => EXHAUSTED,
        }
    }

    /// An allocator with empty lists over a region that is bound to nothing.
    pub fn new() -> (allocator: Self)
        ensures
            allocator.wf(),
            !allocator.is_bound(),
            allocator.free_extents().len() == 0,
            forall|i: int| 0 <= i < CLASS_COUNT ==> (#[trigger] allocator@[i]).len() == 0,
    {
        let mut list_heads: Vec<Vec<usize>> = Vec::new();
        let mut i: usize = 0;
        while i < CLASS_COUNT
            invariant
                i <= CLASS_COUNT,
                list_heads@.len() == i,
                forall|j: int| 0 <= j < i ==> (#[trigger] list_heads@[j])@.len() == 0,
            decreases CLASS_COUNT - i,
        {
            list_heads.push(Vec::new());
            i = i + 1;
        }
        FixedSizeBlockAllocator { list_heads, fallback_allocator: region_empty() }
    }

    /// Binds the fallback region to the memory of the heap window. To be
    /// called once, before the first request.
    pub fn init(&mut self, mem: &'static mut [MaybeUninit<u8>])
        requires
            old(self).wf(),
            !old(self).is_bound(),
            old(mem)@.len() >= MIN_REGION_BYTES,
        ensures
            final(self).wf(),
            final(self).is_bound(),
            16 <= final(self).region_end() - final(self).region_start() <= old(mem)@.len(),
            final(self).region_end() - final(self).region_start() >= old(mem)@.len()
                - MAX_REGION_LOSS,
            final(self).free_extents() == seq![
                (
                    final(self).region_start(),
                    (final(self).region_end() - final(self).region_start()) as nat,
                ),
            ],
            final(self)@ == old(self)@,
    {
        region_init(&mut self.fallback_allocator, mem);
    }

    /// Whether the fallback region has been bound to memory.
    pub fn is_initialized(&self) -> (bound: bool)
        ensures
            bound == self.is_bound(),
    {
        region_len(&self.fallback_allocator) > 0
    }

    /// Number of free blocks on the list of class `index`.
    pub fn free_count(&self, index: usize) -> (count: usize)
        requires
            self.wf(),
            index < CLASS_COUNT,
        ensures
            count == self@[index as int].len(),
    {
        self.list_heads[index].len()
    }

    /// Asks the fallback region for a block of the given layout and
    /// returns the region's answer: the start of the block that first fit
    /// carves out of the free extents, or the exhausted sentinel, in which
    /// case the region is as it was. The lists are not touched.
    fn fallback_alloc(&mut self, size: usize, align: usize) -> (addr: usize)
        requires
            valid_layout(size, align),
        ensures
            addr == old(self).region_answer(size, align),
            final(self)@ == old(self)@,
            final(self).region_start() == old(self).region_start(),
            final(self).region_end() == old(self).region_end(),
            addr == EXHAUSTED ==> final(self).region() == old(self).region(),
            addr != EXHAUSTED ==> {
                &&& addr % align == 0
                &&& old(self).region_start() <= addr
                &&& addr + size <= old(self).region_end()
                &&& within_hole(old(self).free_extents(), addr as nat, size as nat)
                &&& holes_without(
                    old(self).free_extents(),
                    final(self).free_extents(),
                    addr as nat,
                    size as nat,
                )
            },
    {
        let block = region_allocate(&mut self.fallback_allocator, size, align);
        address_or_exhausted(block)
    }

    /// Serves a request for `size` bytes aligned to `align`; the exhausted
    /// sentinel says that no memory is left. The region must have been
    /// bound before.
    ///
    /// A request that has a class takes the head of that class's list. Where
    /// the list is empty it gets a fresh block of the class's size from the
    /// fallback region, and a request without a class is handed to the
    /// region as it is. The result is then the region's answer to that
    /// layout; the lists stay as they were; a block lies within the region,
    /// in memory that was free, and what is free afterwards is apart from
    /// it; after a refusal the region is as it was. Whatever path is taken,
    /// an address that is returned is a multiple of `align`.
    pub fn allocate(&mut self, size: usize, align: usize) -> (addr: usize)
        requires
            old(self).wf(),
            old(self).is_bound(),
            valid_layout(size, align),
        ensures
            final(self).wf(),
            final(self)@ == lists_after_alloc(old(self)@, size, align),
            final(self).region_start() == old(self).region_start(),
            final(self).region_end() == old(self).region_end(),
            match reused_block(old(self)@, size, align) {
                Some(block) => addr == block && addr != EXHAUSTED && final(self).region() == old(
                    self,
                ).region(),
                None => {
                    &&& addr == old(self).region_answer(
                        fallback_layout(size, align).0,
                        fallback_layout(size, align).1,
                    )
                    &&& addr == EXHAUSTED ==> final(self).region() == old(self).region()
                    &&& addr != EXHAUSTED ==> {
                        &&& addr % fallback_layout(size, align).1 == 0
                        &&& old(self).region_start() <= addr
                        &&& addr + fallback_layout(size, align).0 <= old(self).region_end()
                        &&& within_hole(
                            old(self).free_extents(),
                            addr as nat,
                            fallback_layout(size, align).0 as nat,
                        )
                        &&& holes_without(
                            old(self).free_extents(),
                            final(self).free_extents(),
                            addr as nat,
                            fallback_layout(size, align).0 as nat,
                        )
                    }
                },
            },
            addr != EXHAUSTED ==> addr % align == 0,
    {
        proof {
            lemma_list_index(size, align);
            lemma_table_is_powers_of_two();
        }
        match list_index(size, align) {
            Some(index) => {
                let popped = self.list_heads[index].pop();
                match popped {
                    Some(block) => {
                        proof {
                            assert(block == old(self)@[index as int].last());
                            assert(self@ =~= lists_after_alloc(old(self)@, size, align));
                            lemma_block_alignment(block, align, index as int);
                        }
                        block
                    },
                    None => {
                        proof {
                            assert(self@ =~= old(self)@);
                        }
                        let class_size = block_size(index);
                        let addr = self.fallback_alloc(class_size, class_size);
                        proof {
                            if addr != 0 {
                                lemma_block_alignment(addr, align, index as int);
                            }
                        }
                        addr
                    },
                }
            },
            None => self.fallback_alloc(size, align),
        }
    }

    /// Takes back the block at `ptr` that was handed out for the given
    /// layout, and says whether it was linked into a class list. The region
    /// must have been bound before.
    ///
    /// A block that has a class becomes the head of that class's list: it is
    /// never returned to the fallback region. For a block without a class
    /// the answer is `false` and nothing changes: the block belongs to the
    /// fallback region, which alone can take it back.
    pub fn deallocate(&mut self, ptr: usize, size: usize, align: usize) -> (linked: bool)
        requires
            old(self).wf(),
            old(self).is_bound(),
            ptr != 0,
            match list_index_spec(size, align) {
                Some(i) => ptr as int % block_size_spec(i as int) == 0,
                None => true,
            },
        ensures
            final(self).wf(),
            linked == list_index_spec(size, align).is_some(),
            final(self)@ == lists_after_free(old(self)@, ptr, size, align),
            final(self).region() == old(self).region(),
    {
        proof {
            lemma_list_index(size, align);
        }
        match list_index(size, align) {
            Some(index) => {
                let class_size = block_size(index);
                assert(NODE_SIZE <= class_size);
                self.list_heads[index].push(ptr);
                proof {
                    assert(self@ =~= lists_after_free(old(self)@, ptr, size, align));
                }
                true
            },
            None => false,
        }
    }
}

/// A block that is freed and asked for again with the same layout comes back
/// at once: right after the free its class's list holds one block more, the
/// next request of that layout takes exactly that block off the list, and
/// the lists are then what they were before the free.
pub proof fn lemma_free_then_allocate_reuses(
    lists: FreeLists,
    ptr: usize,
    size: usize,
    align: usize,
)
    requires
        lists.len() == CLASS_COUNT,
        list_index_spec(size, align).is_some(),
    ensures
        lists_after_free(lists, ptr, size, align)[list_index_spec(size, align).unwrap() as int].len()
            == lists[list_index_spec(size, align).unwrap() as int].len() + 1,
        reused_block(lists_after_free(lists, ptr, size, align), size, align) == Some(ptr),
        lists_after_alloc(lists_after_free(lists, ptr, size, align), size, align) == lists,
{
    lemma_list_index(size, align);
    let i = list_index_spec(size, align).unwrap() as int;
    let freed = lists_after_free(lists, ptr, size, align);
    assert(freed[i].drop_last() =~= lists[i]);
    assert(lists_after_alloc(freed, size, align) =~= lists);
}

/// A request is served by a class exactly when neither its size nor its
/// alignment exceeds the largest block, and whatever lies between the last
/// two block sizes goes to the largest class. A larger request never
/// touches a list: it takes nothing from the lists, and neither serving it
/// nor freeing its block changes them.
pub proof fn lemma_oversized_requests_bypass_lists(
    lists: FreeLists,
    ptr: usize,
    size: usize,
    align: usize,
)
    ensures
        size <= MAX_BLOCK_SIZE && align <= MAX_BLOCK_SIZE <==> list_index_spec(
            size,
            align,
        ).is_some(),
        1024 < required_block_size(size, align) <= MAX_BLOCK_SIZE ==> list_index_spec(size, align)
            == Some(8usize),
        size > MAX_BLOCK_SIZE || align > MAX_BLOCK_SIZE ==> {
            &&& reused_block(lists, size, align).is_none()
            &&& lists_after_alloc(lists, size, align) == lists
            &&& lists_after_free(lists, ptr, size, align) == lists
            &&& fallback_layout(size, align) == (size, align)
        },
{
    lemma_list_index(size, align);
    if 1024 < required_block_size(size, align) <= MAX_BLOCK_SIZE {
        let i = list_index_spec(size, align).unwrap();
        if i < 8 {
            assert(block_size_spec(i as int) <= 1024);
        }
    }
}

/// The lists of different classes are strictly apart. Freeing a block of one
/// class leaves the list of every other class as it was, so a request of
/// another class is served as if the free had not happened, and never with
/// the freed block unless that class's own list already held it. Serving a
/// request of one class leaves the lists of the others alone.
pub proof fn lemma_class_lists_partitioned(
    lists: FreeLists,
    ptr: usize,
    free_size: usize,
    free_align: usize,
    size: usize,
    align: usize,
)
    requires
        lists.len() == CLASS_COUNT,
        list_index_spec(free_size, free_align).is_some(),
        list_index_spec(size, align).is_some(),
        list_index_spec(free_size, free_align) != list_index_spec(size, align),
    ensures
        forall|j: int|
            0 <= j < CLASS_COUNT && j != list_index_spec(free_size, free_align).unwrap()
                ==> #[trigger] lists_after_free(lists, ptr, free_size, free_align)[j] == lists[j],
        reused_block(lists_after_free(lists, ptr, free_size, free_align), size, align)
            == reused_block(lists, size, align),
        !lists[list_index_spec(size, align).unwrap() as int].contains(ptr) ==> reused_block(
            lists_after_free(lists, ptr, free_size, free_align),
            size,
            align,
        ) != Some(ptr),
        forall|j: int|
            0 <= j < CLASS_COUNT && j != list_index_spec(size, align).unwrap()
                ==> #[trigger] lists_after_alloc(lists, size, align)[j] == lists[j],
{
    lemma_list_index(size, align);
    lemma_list_index(free_size, free_align);
    let j = list_index_spec(size, align).unwrap() as int;
    if lists[j].len() > 0 {
        assert(lists[j].contains(lists[j].last())) by {
            assert(lists[j][lists[j].len() - 1] == lists[j].last());
        }
    }
}

/// Two blocks that the fallback region hands out one after the other are
/// apart: the second lies in memory that was still free after the first was
/// taken, and none of that memory touches the first.
pub proof fn lemma_fresh_blocks_apart(
    before: Seq<(nat, nat)>,
    between: Seq<(nat, nat)>,
    first: nat,
    first_len: nat,
    second: nat,
    second_len: nat,
)
    requires
        holes_without(before, between, first, first_len),
        within_hole(between, second, second_len),
    ensures
        first + first_len <= second || second + second_len <= first,
        within_hole(before, second, second_len),
{
    let j = choose|j: int|
        0 <= j < between.len() && (#[trigger] between[j]).0 <= second && second + second_len
            <= between[j].0 + between[j].1;
    assert(within_hole(before, between[j].0, between[j].1));
    let i = choose|i: int|
        0 <= i < before.len() && (#[trigger] before[i]).0 <= between[j].0 && between[j].0
            + between[j].1 <= before[i].0 + before[i].1;
    assert(before[i].0 <= second && second + second_len <= before[i].0 + before[i].1);
}

} // verus!
