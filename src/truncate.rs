//! Truncation of a canonical field value to its low bits.

use vstd::arithmetic::power2::{lemma2_to64, lemma_pow2_strictly_increases, pow2};
use vstd::bits::{lemma_u64_low_bits_mask_is_mod, lemma_u64_shl_is_mul, low_bits_mask};
use vstd::prelude::*;

verus! {

/// The low `bits` bits of `c`, that is `c` modulo `2^bits`.
pub fn low_bits(c: u64, bits: usize) -> (r: usize)
    requires
        bits < usize::BITS,
        pow2(bits as nat) <= u64::MAX,
    ensures
        r as nat == c as nat % pow2(bits as nat),
        (r as nat) < pow2(bits as nat),
{
    proof {
        if bits >= 64 {
            lemma_pow2_strictly_increases(64, bits as nat);
            lemma2_to64();
        }
    }
    let b = bits as u64;
    proof {
        lemma_u64_shl_is_mul(1u64, b);
    }
    assert(1u64 << b >= 1) by (bit_vector)
        requires
            b < 64,
    ;
    let modulus: u64 = 1u64 << b;
    let mask: u64 = modulus - 1;
    let low = c & mask;
    proof {
        lemma_u64_low_bits_mask_is_mod(c, b as nat);
        assert(low_bits_mask(b as nat) == pow2(b as nat) - 1);
    }
    proof {
        if bits < usize::BITS {
            lemma_pow2_strictly_increases(bits as nat, usize::BITS as nat);
            lemma2_to64();
        }
    }
    low as usize
}

} // verus!
