//! Exact IEEE-754 binary32 encoding of integer counts.
//!
//! Simulation parameters travel through the library as the bit patterns of
//! binary32 values, so the packed uniform record is assembled with integer
//! arithmetic only. The one genuine conversion the record needs is the
//! particle count: an integer encoded as a binary32 value. This module
//! defines that encoding (round to nearest, ties to even) as a specification
//! and proves the executable conversion against it.

use vstd::prelude::*;
use vstd::arithmetic::power2::{
    pow2, lemma_pow2_adds, lemma_pow2_subtracts, lemma_pow2_strictly_increases, lemma2_to64,
    lemma2_to64_rest,
};
use vstd::arithmetic::div_mod::lemma_fundamental_div_mod;
use vstd::arithmetic::mul::lemma_mul_inequality;

verus! {

/// Largest exponent `e` with `2^e <= n` (for `n >= 1`).
pub open spec fn floor_log2(n: nat) -> nat
    recommends
        n >= 1,
    decreases n,
{
    if n < 2 {
        0
    } else {
        1 + floor_log2(n / 2)
    }
}

/// The binary32 bit pattern that converting the integer `n` yields: sign 0,
/// biased exponent `floor_log2(n) + 127`, and the leading 24 bits of `n` as
/// the significand, rounded to nearest with ties to even.
pub open spec fn binary32_of_u32(n: u32) -> u32 {
    if n == 0 {
        0u32
    } else {
        let e = floor_log2(n as nat);
        if e <= 23 {
            ((e + 127) * pow2(23) + (n - pow2(e)) * pow2((23 - e) as nat)) as u32
        } else {
            let s = (e - 23) as nat;
            let q = n as nat / pow2(s);
            let r = n as nat % pow2(s);
            let half = pow2((s - 1) as nat);
            let q2: nat = if r > half || (r == half && q % 2 == 1) {
                q + 1
            } else {
                q
            };
            if q2 == pow2(24) {
                ((e + 128) * pow2(23)) as u32
            } else {
                ((e + 127) * pow2(23) + (q2 - pow2(23))) as u32
            }
        }
    }
}

/// `floor_log2` is characterised by the enclosing pair of powers of two.
proof fn lemma_floor_log2_bounds(n: nat, e: nat)
    requires
        pow2(e) <= n,
        n < pow2(e + 1),
    ensures
        floor_log2(n) == e,
    decreases e,
{
    if e == 0 {
        assert(pow2(0) == 1 && pow2(1) == 2) by {
            lemma2_to64();
        }
    } else {
        lemma_pow2_adds((e - 1) as nat, 1);
        lemma_pow2_adds(e, 1);
        assert(pow2(1) == 2) by {
            lemma2_to64();
        }
        // 2 * pow2(e - 1) <= n  and  n < 2 * pow2(e), hence the bounds halve.
        assert(pow2((e - 1) as nat) <= n / 2 && n / 2 < pow2(e)) by {
            lemma_fundamental_div_mod(n as int, 2);
        }
        lemma_floor_log2_bounds(n / 2, (e - 1) as nat);
        assert(n >= 2) by {
            lemma_pow2_strictly_increases(0, e);
            lemma2_to64();
        }
    }
}

/// Encode the integer `n` as a binary32 value, as converting `n` to that
/// type does: round to nearest, ties to even.
pub fn encode_u32_as_binary32(n: u32) -> (r: u32)
    ensures
        r == binary32_of_u32(n),
{
    if n == 0 {
        return 0;
    }
    proof {
        lemma2_to64();
        lemma2_to64_rest();
    }
    let mut e: u32 = 0;
    let mut p: u32 = 1;
    while p <= n / 2
        invariant
            1 <= n,
            e <= 31,
            p == pow2(e as nat),
            p <= n,
        decreases 32 - e,
    {
        proof {
            lemma_fundamental_div_mod(n as int, 2);
            lemma_pow2_adds(e as nat, 1);
            lemma2_to64();
            if e + 1 >= 32 {
                lemma_pow2_strictly_increases(32, (e + 1) as nat);
                lemma2_to64_rest();
            }
        }
        p = p * 2;
        e = e + 1;
    }
    proof {
        lemma_fundamental_div_mod(n as int, 2);
        assert(n < 2 * p);
        lemma_pow2_adds(e as nat, 1);
        lemma_floor_log2_bounds(n as nat, e as nat);
    }
    if e <= 23 {
        // 2^23 is an exact multiple of p == 2^e.
        let mult: u32 = 0x0080_0000 / p;
        proof {
            lemma_pow2_subtracts(e as nat, 23);
            lemma_pow2_adds(e as nat, (23 - e) as nat);
            assert(mult == pow2((23 - e) as nat));
            lemma_mul_inequality((n - p) as int, p - 1, mult as int);
            assert((p - 1) * (mult as int) == p * (mult as int) - mult) by (nonlinear_arith);
            assert(p * (mult as int) == pow2(23)) by {
                assert(pow2(e as nat) * pow2((23 - e) as nat) == pow2(23));
            }
        }
        (e + 127) * 0x0080_0000 + (n - p) * mult
    } else {
        // The e - 23 lowest bits are shifted out of the 24-bit significand.
        let ps: u32 = p / 0x0080_0000;
        proof {
            lemma_pow2_subtracts(23, e as nat);
            lemma_pow2_adds((e - 23) as nat, 23);
            lemma_pow2_adds((e - 23) as nat, 24);
            lemma_pow2_adds(((e - 23) - 1) as nat, 1);
            assert(((n as nat) / (ps as nat) >= pow2(23)) && ((n as nat) / (ps as nat) < pow2(24))) by {
                lemma_fundamental_div_mod(n as int, ps as int);
                assert((n as nat / ps as nat) * ps as nat + n as nat % ps as nat == n as nat);
                if ((n as nat) / (ps as nat)) < pow2(23) {
                    lemma_mul_inequality(n as int / ps as int, pow2(23) as int - 1, ps as int);
                }
                if ((n as nat) / (ps as nat)) >= pow2(24) {
                    lemma_mul_inequality(pow2(24) as int, n as int / ps as int, ps as int);
                }
            }
        }
        let q: u32 = n / ps;
        let r: u32 = n % ps;
        let half: u32 = ps / 2;
        let round_up: bool = r > half || (r == half && q % 2 == 1);
        let q2: u32 = if round_up {
            q + 1
        } else {
            q
        };
        if q2 == 0x0100_0000 {
            (e + 128) * 0x0080_0000
        } else {
            (e + 127) * 0x0080_0000 + (q2 - 0x0080_0000)
        }
    }
}

} // verus!
