//! The input pattern of the benchmark: the value at index `k` is `k` itself,
//! as a single-precision number.
use vstd::prelude::*;
use vstd::arithmetic::power2::{
    lemma2_to64,
    lemma2_to64_rest,
    lemma_pow2_adds,
    lemma_pow2_pos,
    lemma_pow2_strictly_increases,
    lemma_pow2_unfold,
    pow2,
};

verus! {

/// The position of the highest set bit of `k`: the `e` with
/// `2^e <= k < 2^(e+1)`. Zero for `k == 0`.
pub open spec fn floor_log2(k: nat) -> nat
    decreases k,
{
    if k <= 1 {
        0
    } else {
        1 + floor_log2(k / 2)
    }
}

/// `k / d` rounded to the nearest integer, a tie going to the even one.
pub open spec fn round_half_even(k: nat, d: nat) -> nat {
    let q = k / d;
    let r = k % d;
    if 2 * r > d || (2 * r == d && q % 2 == 1) {
        q + 1
    } else {
        q
    }
}

/// The binary32 bit pattern of the single-precision number nearest to `k`,
/// a tie going to the even significand, for `k` below `2^64`.
///
/// With `e = floor_log2(k)`, the significand `m` is `k` scaled to 24 bits,
/// `k * 2^(23 - e)` exactly or `k / 2^(e - 23)` rounded. The exponent field
/// holds `e + 127`, and the fraction field holds `m` without its leading
/// bit. A significand that rounds up to `2^24` carries into the exponent
/// field, which is what the sum below does.
pub open spec fn f32_bits(k: nat) -> nat {
    if k == 0 {
        0
    } else {
        let e = floor_log2(k);
        let m = if e <= 23 {
            k * pow2((23 - e) as nat)
        } else {
            round_half_even(k, pow2((e - 23) as nat))
        };
        ((e + 127) * 0x80_0000 + m - 0x80_0000) as nat
    }
}

/// The first `n` values of the pattern.
pub open spec fn ramp(n: nat) -> Seq<u32> {
    Seq::new(n, |k: int| f32_bits(k as nat) as u32)
}

/// The pattern of dimension `dim`: its first `dim * dim` values.
pub open spec fn pattern(dim: usize) -> Seq<u32> {
    ramp((dim * dim) as nat)
}

/// `floor_log2(k)` is the one `e` with `2^e <= k < 2^(e+1)`.
pub proof fn lemma_floor_log2(k: nat, e: nat)
    requires
        pow2(e) <= k < 2 * pow2(e),
    ensures
        floor_log2(k) == e,
    decreases e,
{
    lemma2_to64();
    if e == 0 {
    } else {
        lemma_pow2_unfold(e);
        lemma_pow2_pos((e - 1) as nat);
        lemma_floor_log2(k / 2, (e - 1) as nat);
    }
}

/// The bit pattern of `k` as a single-precision number.
pub fn index_to_f32(k: usize) -> (bits: u32)
    ensures
        bits == f32_bits(k as nat),
{
    let k: u64 = k as u64;
    if k == 0 {
        return 0;
    }
    proof {
        lemma2_to64();
        lemma2_to64_rest();
    }
    if k < 0x100_0000 {
        // `k` has at most 24 bits and is held exactly: shift it up until
        // its highest bit is bit 23.
        let mut m: u64 = k;
        let mut e: u64 = 23;
        assert(k * pow2(0) == k) by (nonlinear_arith)
            requires
                pow2(0) == 1,
        ;
        while m < 0x80_0000
            invariant
                1 <= k,
                1 <= m < 0x100_0000,
                e <= 23,
                m == k * pow2((23 - e) as nat),
                pow2(23) == 0x80_0000,
            decreases 0x100_0000 - m,
        {
            proof {
                let s = pow2((23 - e) as nat);
                if e == 0 {
                    // Then `m` would be `k * 2^23`, which is no less than `2^23`.
                    assert(k * s >= s) by (nonlinear_arith)
                        requires
                            k >= 1,
                            s >= 0,
                    ;
                }
                lemma_pow2_unfold((24 - e) as nat);
                assert(k * (2 * s) == 2 * (k * s)) by (nonlinear_arith);
            }
            m = m * 2;
            e = e - 1;
        }
        proof {
            // `2^23 <= k * 2^(23 - e) < 2^24` gives `2^e <= k < 2^(e + 1)`.
            let s = pow2((23 - e) as nat);
            let p = pow2(e as nat);
            lemma_pow2_adds(e as nat, (23 - e) as nat);
            lemma_pow2_pos((23 - e) as nat);
            assert(p <= k) by (nonlinear_arith)
                requires
                    p * s <= k * s,
                    s > 0,
            ;
            assert(k < 2 * p) by (nonlinear_arith)
                requires
                    k * s < 2 * (p * s),
                    s > 0,
            ;
            lemma_floor_log2(k as nat, e as nat);
        }
        ((e + 127) * 0x80_0000 + (m - 0x80_0000)) as u32
    } else {
        // `k` has more than 24 bits: find the power of two `d` that leaves
        // 24 of them in `k / d`, and round on what `d` cuts off.
        let mut d: u64 = 1;
        let mut e: u64 = 23;
        while k / d >= 0x100_0000
            invariant
                23 <= e <= 63,
                1 <= d <= 0x100_0000_0000,
                d == pow2((e - 23) as nat),
                k / d >= 0x80_0000,
                pow2(40) == 0x100_0000_0000,
            decreases k / d,
        {
            proof {
                vstd::arithmetic::div_mod::lemma_div_denominator(k as int, d as int, 2);
                // `d * 2^24 <= k < 2^64`, so `d` is below `2^40`.
                assert(d * 0x100_0000 <= k) by (nonlinear_arith)
                    requires
                        k / d >= 0x100_0000,
                        d >= 1,
                ;
                if e - 23 > 40 {
                    lemma_pow2_strictly_increases(40, (e - 23) as nat);
                }
                lemma_pow2_unfold((e - 22) as nat);
                if e - 22 < 40 {
                    lemma_pow2_strictly_increases((e - 22) as nat, 40);
                }
            }
            d = d * 2;
            e = e + 1;
        }
        let q: u64 = k / d;
        let r: u64 = k % d;
        let up: bool = 2 * r > d || (2 * r == d && q % 2 == 1);
        let m: u64 = if up {
            q + 1
        } else {
            q
        };
        proof {
            // `2^23 <= k / d < 2^24` with `d == 2^(e - 23)` gives `2^e <= k < 2^(e + 1)`.
            let p = pow2(e as nat);
            lemma_pow2_adds(23, (e - 23) as nat);
            vstd::arithmetic::div_mod::lemma_fundamental_div_mod(k as int, d as int);
            assert(p <= k && k < 2 * p) by (nonlinear_arith)
                requires
                    0x80_0000 <= k / d < 0x100_0000,
                    d >= 1,
                    p == 0x80_0000 * d,
                    k == d * (k / d) + k % d,
                    0 <= k % d < d,
            ;
            lemma_floor_log2(k as nat, e as nat);
        }
        ((e + 127) * 0x80_0000 + (m - 0x80_0000)) as u32
    }
}

/// An operand of a run before any packing: `dim * dim` values, the one at
/// index `k` being `k` as a single-precision number.
pub fn build_vec(dim: usize) -> (v: Vec<u32>)
    requires
        dim * dim <= usize::MAX,
    ensures
        v@ == pattern(dim),
{
    let n: usize = dim * dim;
    let mut v: Vec<u32> = Vec::with_capacity(n);
    let mut k: usize = 0;
    while k < n
        invariant
            k <= n,
            v.len() == k,
            forall|i: int| 0 <= i < k ==> v@[i] == #[trigger] ramp(n as nat)[i],
        decreases n - k,
    {
        v.push(index_to_f32(k));
        k += 1;
    }
    v
}

} // verus!
