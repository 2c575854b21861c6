//! Kernel heap: configuration, the size-class allocator and the start-up
//! mapping of the heap window.

use vstd::prelude::*;

pub mod fixed_size_block;
pub mod heap_init;
pub mod region;

verus! {

/// Virtual address at which the kernel heap begins.
pub const HEAP_START: u64 = 0x4444_4444_0000;

/// Size of the kernel heap in bytes.
pub const HEAP_SIZE: u64 = 100 * 1024;

/// `addr` rounded up to the next multiple of `align`.
pub open spec fn align_up_spec(addr: int, align: int) -> int
    recommends
        align > 0,
{
    if addr % align == 0 {
        addr
    } else {
        addr - addr % align + align
    }
}

/// Rounds `addr` up to the next multiple of `align`.
pub fn align_up(addr: usize, align: usize) -> (aligned: usize)
    requires
        align > 0,
        align_up_spec(addr as int, align as int) <= usize::MAX,
    ensures
        aligned == align_up_spec(addr as int, align as int),
        aligned % align == 0,
        addr <= aligned < addr + align,
        forall|m: int| addr <= m && #[trigger] (m % (align as int)) == 0 ==> aligned <= m,
{
    let remainder: usize = addr % align;
    proof {
        lemma_align_up_is_least(addr as int, align as int);
        vstd::arithmetic::div_mod::lemma_mod_decreases(addr as nat, align as nat);
    }
    if remainder == 0 {
        addr
    } else {
        addr - remainder + align
    }
}

/// The rounded-up value is a multiple of `align`, lies less than `align`
/// above `addr`, and no smaller multiple reaches `addr`.
pub proof fn lemma_align_up_is_least(addr: int, align: int)
    requires
        addr >= 0,
        align > 0,
    ensures
        align_up_spec(addr, align) % align == 0,
        addr <= align_up_spec(addr, align) < addr + align,
        forall|m: int| addr <= m && #[trigger] (m % align) == 0 ==> align_up_spec(addr, align) <= m,
{
    let q = addr / align;
    let r = addr % align;
    assert(addr == align * q + r) by {
        vstd::arithmetic::div_mod::lemma_fundamental_div_mod(addr, align);
    }
    if r != 0 {
        assert(align_up_spec(addr, align) == align * (q + 1)) by (nonlinear_arith)
            requires
                align_up_spec(addr, align) == addr - r + align,
                addr == align * q + r,
        ;
        assert((align * (q + 1)) % align == 0) by {
            vstd::arithmetic::div_mod::lemma_mod_multiples_basic(q + 1, align);
            assert(align * (q + 1) == (q + 1) * align) by (nonlinear_arith);
        }
    }
    assert forall|m: int| addr <= m && #[trigger] (m % align) == 0 implies align_up_spec(addr, align) <= m by {
        if r != 0 {
            let k = m / align;
            vstd::arithmetic::div_mod::lemma_fundamental_div_mod(m, align);
            assert(m == align * k);
            assert(k > q) by (nonlinear_arith)
                requires
                    align * k >= align * q + r,
                    r > 0,
                    align > 0,
            ;
            assert(align * k >= align * (q + 1)) by (nonlinear_arith)
                requires
                    k >= q + 1,
                    align > 0,
            ;
        }
    }
}

/// An allocator that never has memory: every request is answered with the
/// exhausted sentinel.
pub struct Dummy;

impl Dummy {
    /// Always returns the exhausted sentinel.
    pub fn allocate(&self, size: usize, align: usize) -> (addr: usize)
        ensures
            addr == fixed_size_block::EXHAUSTED,
    {
        fixed_size_block::EXHAUSTED
    }
}

} // verus!
