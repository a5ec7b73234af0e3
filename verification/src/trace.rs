//! Fibonacci traces: each row holds two neighbouring numbers of a sequence
//! that starts from two given values and is summed in a prime field.

use crate::air::{FibonacciAir, NUM_FIBONACCI_COLS};
use crate::fib::{fib, lemma_fib_step};
use crate::field::TraceField;
use crate::matrix::TraceMatrix;
use crate::power::{is_power_of_two, lemma_power_of_two_positive};
use vstd::arithmetic::div_mod::{lemma_add_mod_noop, lemma_mod_bound, lemma_mod_twice};
use vstd::prelude::*;

verus! {

/// Row `i` of the Fibonacci trace over the field of order `p` that starts
/// from `(a, b)`: row 0 is `(a, b)` reduced, and each later row is
/// `(right, left + right)` of the row before it.
pub open spec fn fibonacci_row(p: nat, a: nat, b: nat, i: nat) -> (nat, nat)
    decreases i,
{
    if i == 0 {
        (a % p, b % p)
    } else {
        let prev = fibonacci_row(p, a, b, (i - 1) as nat);
        (prev.1, (prev.0 + prev.1) % p)
    }
}

/// The Fibonacci trace of `n` rows over the field of order `p` that starts
/// from `(a, b)`.
pub open spec fn fibonacci_trace(p: nat, a: nat, b: nat, n: nat) -> Seq<Seq<u64>> {
    Seq::new(
        n,
        |i: int| seq![fibonacci_row(p, a, b, i as nat).0 as u64, fibonacci_row(p, a, b, i as nat).1 as u64],
    )
}

/// Both cells of every row are canonical.
pub proof fn lemma_fibonacci_row_canonical(p: nat, a: nat, b: nat, i: nat)
    requires
        p > 0,
    ensures
        fibonacci_row(p, a, b, i).0 < p,
        fibonacci_row(p, a, b, i).1 < p,
    decreases i,
{
    if i == 0 {
        lemma_mod_bound(a as int, p as int);
        lemma_mod_bound(b as int, p as int);
    } else {
        lemma_fibonacci_row_canonical(p, a, b, (i - 1) as nat);
        let prev = fibonacci_row(p, a, b, (i - 1) as nat);
        lemma_mod_bound((prev.0 + prev.1) as int, p as int);
    }
}

/// Started from `(1, 1)`, row `i` holds the Fibonacci numbers `fib(i + 1)`
/// and `fib(i + 2)`, reduced in the field.
pub proof fn lemma_fibonacci_row_is_fib(p: nat, i: nat)
    requires
        p > 0,
    ensures
        fibonacci_row(p, 1, 1, i) == (fib(i + 1) % p, fib(i + 2) % p),
    decreases i,
{
    lemma_fib_step(0);
    if i > 0 {
        lemma_fibonacci_row_is_fib(p, (i - 1) as nat);
        lemma_fib_step(i);
        lemma_add_mod_noop(fib(i) as int, fib(i + 1) as int, p as int);
    }
}

/// Started from `(1, 1)`, and as long as the numbers stay below the field's
/// order, row `i` holds `fib(i + 1)` and `fib(i + 2)` themselves.
pub proof fn lemma_fibonacci_row_small(p: nat, i: nat)
    requires
        fib(i + 2) < p,
    ensures
        fibonacci_row(p, 1, 1, i) == (fib(i + 1), fib(i + 2)),
{
    lemma_fibonacci_row_is_fib(p, i);
    crate::fib::lemma_fib_monotonic(i + 1, i + 2);
    vstd::arithmetic::div_mod::lemma_small_mod(fib(i + 1), p);
    vstd::arithmetic::div_mod::lemma_small_mod(fib(i + 2), p);
}

/// A Fibonacci trace satisfies the Fibonacci constraint system at every row,
/// whatever its height, exactly for the public values `(a, b, x)` whose `x`
/// is the right cell of the last row.
pub proof fn lemma_fibonacci_trace_satisfies_air(p: nat, a: u64, b: u64, x: u64, n: nat)
    requires
        0 < p <= u64::MAX,
        n >= 1,
    ensures
        FibonacciAir::satisfied(p, fibonacci_trace(p, a as nat, b as nat, n), seq![a, b, x]) <==> x as nat
            % p == fibonacci_row(p, a as nat, b as nat, (n - 1) as nat).1,
{
    let trace = fibonacci_trace(p, a as nat, b as nat, n);
    let pv = seq![a, b, x];
    let last = fibonacci_row(p, a as nat, b as nat, (n - 1) as nat);
    lemma_fibonacci_row_canonical(p, a as nat, b as nat, (n - 1) as nat);
    vstd::arithmetic::div_mod::lemma_small_mod(last.1, p);
    assert(trace[n - 1][1] == last.1);
    if x as nat % p == last.1 {
        assert forall|i: int| 0 <= i < trace.len() implies FibonacciAir::row_holds(p, trace, pv, i) by {
            let row = fibonacci_row(p, a as nat, b as nat, i as nat);
            lemma_fibonacci_row_canonical(p, a as nat, b as nat, i as nat);
            if i == 0 {
                lemma_mod_twice(a as int, p as int);
                lemma_mod_twice(b as int, p as int);
            }
            if i + 1 < trace.len() {
                let next = fibonacci_row(p, a as nat, b as nat, (i + 1) as nat);
                lemma_fibonacci_row_canonical(p, a as nat, b as nat, (i + 1) as nat);
                assert(next == (row.1, (row.0 + row.1) % p));
                lemma_mod_twice((row.0 + row.1) as int, p as int);
            }
        }
    } else {
        assert(!FibonacciAir::row_holds(p, trace, pv, n - 1));
    }
}

/// Builds the Fibonacci trace of `num_steps` rows over `field`, starting
/// from `(a, b)`.
pub fn fibonacci_trace_over(field: TraceField, a: u64, b: u64, num_steps: usize) -> (trace:
    TraceMatrix)
    requires
        num_steps >= 1,
    ensures
        trace.wf(),
        trace.width == NUM_FIBONACCI_COLS,
        trace@ == fibonacci_trace(field.modulus(), a as nat, b as nat, num_steps as nat),
{
    let ghost p = field.modulus();
    let mut rows: Vec<Vec<u64>> = Vec::new();
    let mut left: u64 = field.from_u64(a);
    let mut right: u64 = field.from_u64(b);
    rows.push(vec![left, right]);
    let mut i: usize = 1;
    while i < num_steps
        invariant
            1 <= i <= num_steps,
            p == field.modulus(),
            rows@.len() == i,
            left == fibonacci_row(p, a as nat, b as nat, (i - 1) as nat).0,
            right == fibonacci_row(p, a as nat, b as nat, (i - 1) as nat).1,
            forall|j: int|
                0 <= j < i ==> (#[trigger] rows@[j])@ == seq![
                    fibonacci_row(p, a as nat, b as nat, j as nat).0 as u64,
                    fibonacci_row(p, a as nat, b as nat, j as nat).1 as u64,
                ],
        decreases num_steps - i,
    {
        let next: u64 = field.add(left, right);
        left = right;
        right = next;
        rows.push(vec![left, right]);
        i = i + 1;
    }
    let trace = TraceMatrix { rows, width: NUM_FIBONACCI_COLS };
    assert(trace@ =~= fibonacci_trace(p, a as nat, b as nat, num_steps as nat));
    trace
}

/// Builds the Fibonacci trace of `num_steps` rows over BabyBear, starting
/// from `(a, b)`. The number of rows must be a power of two.
pub fn generate_fibonacci_trace(a: u64, b: u64, num_steps: usize) -> (trace: TraceMatrix)
    requires
        is_power_of_two(num_steps as nat),
    ensures
        trace.wf(),
        trace.width == NUM_FIBONACCI_COLS,
        trace@ == fibonacci_trace(TraceField::BabyBear.modulus(), a as nat, b as nat, num_steps as nat),
{
    proof {
        lemma_power_of_two_positive(num_steps as nat);
    }
    fibonacci_trace_over(TraceField::BabyBear, a, b, num_steps)
}

/// Builds the trace as `generate_fibonacci_trace` does, and also returns the
/// right cell of its last row: the value that the trace proves.
pub fn generate_fibonacci_trace_with_result(a: u64, b: u64, num_steps: usize) -> (out: (
    TraceMatrix,
    u64,
))
    requires
        is_power_of_two(num_steps as nat),
    ensures
        out.0.wf(),
        out.0.width == NUM_FIBONACCI_COLS,
        out.0@ == fibonacci_trace(TraceField::BabyBear.modulus(), a as nat, b as nat, num_steps as nat),
        out.1 == fibonacci_row(
            TraceField::BabyBear.modulus(),
            a as nat,
            b as nat,
            (num_steps - 1) as nat,
        ).1,
        FibonacciAir::satisfied(TraceField::BabyBear.modulus(), out.0@, seq![a, b, out.1]),
{
    let trace = generate_fibonacci_trace(a, b, num_steps);
    proof {
        lemma_power_of_two_positive(num_steps as nat);
    }
    let final_result: u64 = trace.get(num_steps - 1, 1);
    proof {
        let p = TraceField::BabyBear.modulus();
        lemma_fibonacci_row_canonical(p, a as nat, b as nat, (num_steps - 1) as nat);
        vstd::arithmetic::div_mod::lemma_small_mod(final_result as nat, p);
        lemma_fibonacci_trace_satisfies_air(p, a, b, final_result, num_steps as nat);
    }
    (trace, final_result)
}

/// Builds the Fibonacci trace of `n` rows over Goldilocks, starting from
/// `(a, b)`. The number of rows must be a power of two.
pub fn generate_trace_rows(a: u64, b: u64, n: usize) -> (trace: TraceMatrix)
    requires
        is_power_of_two(n as nat),
    ensures
        trace.wf(),
        trace.width == NUM_FIBONACCI_COLS,
        trace@ == fibonacci_trace(TraceField::Goldilocks.modulus(), a as nat, b as nat, n as nat),
{
    proof {
        lemma_power_of_two_positive(n as nat);
    }
    fibonacci_trace_over(TraceField::Goldilocks, a, b, n)
}

} // verus!
