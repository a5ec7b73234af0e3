//! Powers of two: trace heights are powers of two, and shorter traces are
//! padded up to the next one.

use vstd::arithmetic::power2::{lemma_pow2_pos, lemma_pow2_strictly_increases, lemma_pow2_unfold, pow2};
use vstd::prelude::*;

verus! {

/// Whether `n` is `2^k` for some `k`.
pub open spec fn is_power_of_two(n: nat) -> bool {
    exists|k: nat| pow2(k) == n
}

/// A power of two is at least one.
pub proof fn lemma_power_of_two_positive(n: nat)
    requires
        is_power_of_two(n),
    ensures
        n >= 1,
{
    let k = choose|k: nat| pow2(k) == n;
    lemma_pow2_pos(k);
}

/// The least power of two that is at least `n`.
pub open spec fn next_power_of_two_spec(n: nat) -> nat {
    pow2(ceil_log2(n))
}

/// The least `k` with `n <= 2^k`.
pub open spec fn ceil_log2(n: nat) -> nat
    decreases n,
{
    if n <= 1 {
        0
    } else {
        1 + ceil_log2((n + 1) / 2)
    }
}

/// `ceil_log2(n)` is the least exponent whose power of two reaches `n`.
pub proof fn lemma_ceil_log2(n: nat)
    ensures
        n <= pow2(ceil_log2(n)),
        n > 1 ==> ceil_log2(n) > 0 && pow2((ceil_log2(n) - 1) as nat) < n,
    decreases n,
{
    vstd::arithmetic::power2::lemma2_to64();
    if n > 1 {
        let h = (n + 1) / 2;
        lemma_ceil_log2(h);
        lemma_pow2_unfold(ceil_log2(n));
        if h > 1 {
            lemma_pow2_unfold(ceil_log2(h));
        }
    }
}

/// The next power of two is less than twice the number, from 1 on.
pub proof fn lemma_next_power_of_two_bound(n: nat)
    ensures
        n <= 1 ==> next_power_of_two_spec(n) == 1,
        n > 1 ==> next_power_of_two_spec(n) < 2 * n,
{
    lemma_ceil_log2(n);
    vstd::arithmetic::power2::lemma2_to64();
    if n > 1 {
        lemma_pow2_unfold(ceil_log2(n));
    }
}

/// The next power of two does not shrink when the number grows.
pub proof fn lemma_next_power_of_two_monotonic(m: nat, n: nat)
    requires
        m <= n,
    ensures
        next_power_of_two_spec(m) <= next_power_of_two_spec(n),
{
    lemma_ceil_log2(n);
    lemma_next_power_of_two_is_least(m, next_power_of_two_spec(n));
}

/// No power of two lies strictly between `2^k` and `2^(k + 1)`, so a power
/// of two that reaches `n` is at least `next_power_of_two_spec(n)`.
pub proof fn lemma_next_power_of_two_is_least(n: nat, m: nat)
    requires
        is_power_of_two(m),
        n <= m,
    ensures
        next_power_of_two_spec(n) <= m,
        is_power_of_two(next_power_of_two_spec(n)),
        n <= next_power_of_two_spec(n),
{
    lemma_ceil_log2(n);
    let c = ceil_log2(n);
    let k = choose|k: nat| pow2(k) == m;
    if k < c {
        if k < c - 1 {
            lemma_pow2_strictly_increases(k, (c - 1) as nat);
        }
        assert(false);
    } else if k > c {
        lemma_pow2_strictly_increases(c, k);
    }
}

/// A power of two is its own next power of two.
pub proof fn lemma_next_power_of_two_fixed(n: nat)
    requires
        is_power_of_two(n),
    ensures
        next_power_of_two_spec(n) == n,
{
    lemma_next_power_of_two_is_least(n, n);
}

/// Tells whether `n` is a power of two.
pub fn is_power_of_two_usize(n: usize) -> (yes: bool)
    ensures
        yes == is_power_of_two(n as nat),
{
    if n == 0 {
        proof {
            assert forall|k: nat| pow2(k) != 0 by {
                lemma_pow2_pos(k);
            }
        }
        return false;
    }
    let mut p: usize = 1;
    let ghost mut e: nat = 0;
    proof {
        vstd::arithmetic::power2::lemma2_to64();
    }
    while p < n && p <= usize::MAX / 2
        invariant
            p >= 1,
            p == pow2(e),
            n > 0,
            e == 0 || pow2((e - 1) as nat) < n,
        decreases usize::MAX - p,
    {
        proof {
            lemma_pow2_unfold(e + 1);
        }
        p = p * 2;
        proof {
            e = e + 1;
        }
    }
    proof {
        if p != n {
            // n lies strictly between two neighbouring powers of two, or
            // above the largest one that the machine word holds
            assert forall|k: nat| pow2(k) != n by {
                if k < e {
                    if e >= 1 && k < e - 1 {
                        lemma_pow2_strictly_increases(k, (e - 1) as nat);
                    }
                } else if k > e {
                    lemma_pow2_strictly_increases(e, k);
                    if p < n {
                        lemma_pow2_unfold(e + 1);
                        if k > e + 1 {
                            lemma_pow2_strictly_increases(e + 1, k);
                        }
                    }
                }
            }
        }
    }
    p == n
}

/// The least power of two that is at least `n`; 1 for `n = 0`.
///
/// The result must fit in a machine word.
pub fn next_power_of_two(n: usize) -> (r: usize)
    requires
        next_power_of_two_spec(n as nat) <= usize::MAX,
    ensures
        r == next_power_of_two_spec(n as nat),
        is_power_of_two(r as nat),
        n <= r,
{
    let mut p: usize = 1;
    let ghost mut e: nat = 0;
    let ghost c = ceil_log2(n as nat);
    proof {
        vstd::arithmetic::power2::lemma2_to64();
        lemma_ceil_log2(n as nat);
    }
    while p < n
        invariant
            p >= 1,
            p == pow2(e),
            e == 0 || pow2((e - 1) as nat) < n,
            c == ceil_log2(n as nat),
            n <= pow2(c) <= usize::MAX,
            n > 1 ==> c > 0 && pow2((c - 1) as nat) < n,
        decreases usize::MAX - p,
    {
        proof {
            if e >= c {
                if e > c {
                    lemma_pow2_strictly_increases(c, e);
                }
                assert(false);
            }
            lemma_pow2_unfold(e + 1);
            if e + 1 < c {
                lemma_pow2_strictly_increases(e + 1, c);
            }
        }
        p = p * 2;
        proof {
            e = e + 1;
        }
    }
    proof {
        if e < c {
            if e < c - 1 {
                lemma_pow2_strictly_increases(e, (c - 1) as nat);
            }
            assert(false);
        } else if e > c {
            if e - 1 > c {
                lemma_pow2_strictly_increases(c, (e - 1) as nat);
            }
            assert(false);
        }
    }
    p
}

} // verus!
