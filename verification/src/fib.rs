//! The Fibonacci numbers, as a mathematical function and as machine code.

use vstd::prelude::*;

verus! {

/// The Fibonacci numbers: `fib(0) = 0`, `fib(1) = 1`, and each later one is
/// the sum of the two before it.
pub open spec fn fib(n: nat) -> nat
    decreases n,
{
    if n == 0 {
        0
    } else if n == 1 {
        1
    } else {
        fib((n - 1) as nat) + fib((n - 2) as nat)
    }
}

/// The Fibonacci numbers never decrease.
pub proof fn lemma_fib_monotonic(i: nat, j: nat)
    requires
        i <= j,
    ensures
        fib(i) <= fib(j),
    decreases j,
{
    if i < j {
        if j >= 2 {
            lemma_fib_monotonic(i, (j - 1) as nat);
        }
    }
}

/// Each Fibonacci number from the second on is the sum of the two before it.
pub proof fn lemma_fib_step(n: nat)
    ensures
        fib(n + 2) == fib(n) + fib(n + 1),
{
    assert(fib(n + 2) == fib(((n + 2) - 1) as nat) + fib(((n + 2) - 2) as nat));
}

/// Computes the `n`-th Fibonacci number, counting from `fib(1) = fib(2) = 1`.
///
/// The result must fit in 64 bits, which holds up to `n = 93`.
pub fn calculate_fibonacci(n: usize) -> (result: u64)
    requires
        fib(n as nat) <= u64::MAX,
    ensures
        result == fib(n as nat),
{
    if n == 0 {
        return 0;
    }
    if n <= 2 {
        assert(fib(1) == 1 && fib(2) == 1) by {
            lemma_fib_step(0);
        }
        return 1;
    }
    let mut a: u64 = 1;
    let mut b: u64 = 1;
    let mut i: usize = 2;
    proof {
        lemma_fib_step(0);
    }
    while i < n
        invariant
            2 <= i <= n,
            a == fib((i - 1) as nat),
            b == fib(i as nat),
            fib(n as nat) <= u64::MAX,
        decreases n - i,
    {
        proof {
            lemma_fib_step((i - 1) as nat);
            lemma_fib_monotonic((i + 1) as nat, n as nat);
        }
        let next: u64 = a + b;
        a = b;
        b = next;
        i = i + 1;
    }
    b
}

/// Computes the `n`-th Fibonacci number modulo 2^32, counting from
/// `fib(0) = 0`: sums wrap around instead of overflowing.
pub fn fibonacci(n: u32) -> (result: u32)
    ensures
        result == fib(n as nat) % 0x1_0000_0000,
{
    if n <= 1 {
        return n;
    }
    let mut a: u32 = 0;
    let mut b: u32 = 1;
    let mut i: u32 = 1;
    while i < n
        invariant
            1 <= i <= n,
            a == fib((i - 1) as nat) % 0x1_0000_0000,
            b == fib(i as nat) % 0x1_0000_0000,
        decreases n - i,
    {
        proof {
            lemma_fib_step((i - 1) as nat);
            vstd::arithmetic::div_mod::lemma_add_mod_noop(
                fib((i - 1) as nat) as int,
                fib(i as nat) as int,
                0x1_0000_0000,
            );
        }
        let next: u32 = a.wrapping_add(b);
        a = b;
        b = next;
        i = i + 1;
    }
    b
}

/// The Fibonacci numbers up to the 93rd fit in 64 bits.
pub proof fn lemma_fib_fits_u64(n: nat)
    requires
        n <= 93,
    ensures
        fib(n) <= u64::MAX,
{
    lemma_fib_pair(93);
    lemma_fib_pair_ten_steps(0);
    assert(fib_pair(10) == (55nat, 89nat));
    lemma_fib_pair_ten_steps(10);
    assert(fib_pair(20) == (6765nat, 10946nat));
    lemma_fib_pair_ten_steps(20);
    assert(fib_pair(30) == (832040nat, 1346269nat));
    lemma_fib_pair_ten_steps(30);
    assert(fib_pair(40) == (102334155nat, 165580141nat));
    lemma_fib_pair_ten_steps(40);
    assert(fib_pair(50) == (12586269025nat, 20365011074nat));
    lemma_fib_pair_ten_steps(50);
    assert(fib_pair(60) == (1548008755920nat, 2504730781961nat));
    lemma_fib_pair_ten_steps(60);
    assert(fib_pair(70) == (190392490709135nat, 308061521170129nat));
    lemma_fib_pair_ten_steps(70);
    assert(fib_pair(80) == (23416728348467685nat, 37889062373143906nat));
    lemma_fib_pair_ten_steps(80);
    assert(fib_pair(90) == (2880067194370816120nat, 4660046610375530309nat));
    assert(fib_pair(93).0 == 12200160415121876738) by {
        reveal_with_fuel(fib_pair, 4);
    }
    lemma_fib_monotonic(n, 93);
}

/// The pair `(fib(n), fib(n + 1))`, built by one addition per step.
pub open spec fn fib_pair(n: nat) -> (nat, nat)
    decreases n,
{
    if n == 0 {
        (0, 1)
    } else {
        let prev = fib_pair((n - 1) as nat);
        (prev.1, prev.0 + prev.1)
    }
}

/// Ten steps of `fib_pair` at once.
proof fn lemma_fib_pair_ten_steps(n: nat)
    ensures
        fib_pair(n + 10) == (
            34 * fib_pair(n).0 + 55 * fib_pair(n).1,
            55 * fib_pair(n).0 + 89 * fib_pair(n).1,
        ),
{
    reveal_with_fuel(fib_pair, 11);
}

/// `fib_pair` holds two neighbouring Fibonacci numbers.
pub proof fn lemma_fib_pair(n: nat)
    ensures
        fib_pair(n) == (fib(n), fib(n + 1)),
    decreases n,
{
    if n > 0 {
        lemma_fib_pair((n - 1) as nat);
        lemma_fib_step((n - 1) as nat);
    }
}

} // verus!
