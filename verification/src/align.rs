//! Rounding of addresses and sizes to a boundary.

use vstd::arithmetic::power2::pow2;
use vstd::prelude::*;

verus! {

/// Whether `x` is a power of two.
pub open spec fn is_power_of_two(x: int) -> bool {
    exists|n: nat| x == #[trigger] pow2(n)
}

/// A power of two is not zero.
pub proof fn lemma_power_of_two_positive(x: int)
    requires
        is_power_of_two(x),
    ensures
        x >= 1,
{
    let n = choose|n: nat| x == #[trigger] pow2(n);
    vstd::arithmetic::power2::lemma_pow2_pos(n);
}

/// `x` with the bits below `align` cleared.
pub fn mask_down(x: u64, align: u64) -> (y: u64)
    requires
        align >= 1,
    ensures
        y == x & !((align - 1) as u64),
        y <= x,
        is_power_of_two(align as int) ==> y == x - x % align,
{
    proof {
        lemma_mask_down(x, align);
    }
    x & !(align - 1)
}

/// Clearing the bits below a power of two leaves the next lower multiple.
pub proof fn lemma_mask_down(x: u64, align: u64)
    requires
        align >= 1,
    ensures
        x & !((align - 1) as u64) <= x,
        is_power_of_two(align as int) ==> x & !((align - 1) as u64) == x - x % align,
        (x - x % align) % (align as int) == 0,
{
    vstd::arithmetic::div_mod::lemma_fundamental_div_mod(x as int, align as int);
    vstd::arithmetic::div_mod::lemma_mod_multiples_basic(
        x as int / align as int,
        align as int,
    );
    assert(align as int * (x as int / align as int) == x as int / align as int * align as int)
        by (nonlinear_arith);
    let mask = (align - 1) as u64;
    assert(x & !mask == x - (x & mask) && x & mask <= x) by (bit_vector);
    if is_power_of_two(align as int) {
        let n = choose|n: nat| align as int == #[trigger] pow2(n);
        if n >= 64 {
            vstd::arithmetic::power2::lemma2_to64();
            if n > 64 {
                vstd::arithmetic::power2::lemma_pow2_strictly_increases(64, n);
            }
        }
        vstd::bits::lemma_u64_low_bits_mask_is_mod(x, n);
    }
}

/// `size` rounded up to a multiple of `page_size`, a power of two.
pub fn round_up(size: usize, page_size: usize) -> (y: usize)
    requires
        is_power_of_two(page_size as int),
        size + page_size - 1 <= usize::MAX,
    ensures
        y == rounded_up(size as int, page_size as int),
        y % page_size == 0,
        size <= y < size + page_size,
{
    proof {
        let x = (size + page_size - 1) as usize;
        let mask = (page_size - 1) as usize;
        let n = choose|n: nat| page_size as int == #[trigger] pow2(n);
        vstd::arithmetic::power2::lemma_pow2_pos(n);
        if n >= usize::BITS {
            vstd::arithmetic::power2::lemma2_to64();
            if n > usize::BITS {
                vstd::arithmetic::power2::lemma_pow2_strictly_increases(usize::BITS as nat, n);
            }
        }
        vstd::bits::lemma_usize_low_bits_mask_is_mod(x, n);
        assert(x & !mask == x - (x & mask) && x & mask <= x) by (bit_vector);
        vstd::arithmetic::div_mod::lemma_fundamental_div_mod(x as int, page_size as int);
        let q = x as int / page_size as int;
        assert(page_size as int * q == q * page_size as int) by (nonlinear_arith);
        vstd::arithmetic::div_mod::lemma_mod_multiples_basic(q, page_size as int);
        vstd::arithmetic::div_mod::lemma_mod_bound(x as int, page_size as int);
    }
    (size + (page_size - 1)) & !(page_size - 1)
}

/// The least multiple of `page_size` that is no less than `size`.
pub open spec fn rounded_up(size: int, page_size: int) -> int {
    (size + page_size - 1) / page_size * page_size
}

} // verus!
