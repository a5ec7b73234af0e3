//! Checks of a claimed Fibonacci number without a proof, for hosts that
//! cannot afford the prover.

use crate::fib::{fib, fibonacci, lemma_fib_step};
use vstd::prelude::*;

verus! {

/// The largest index that the minimal check accepts.
pub const MINIMAL_MAX_N: u32 = 4;

/// The largest index that the full check accepts.
pub const FULL_MAX_N: u32 = 6;

/// The largest index for which a trace is generated as a trial.
pub const TRIAL_MAX_N: u32 = 3;

/// Why a claim was turned down.
#[derive(Clone, Copy, Debug, PartialEq, Eq, Structural)]
pub enum ValidationError {
    /// The index lies outside `min ..= max`.
    OutOfRange { min: u32, max: u32 },
    /// The Fibonacci number at index `n` is `actual`, not `expected`.
    WrongResult { n: u32, actual: u32, expected: u32 },
}

/// The claim that the Fibonacci number at index `n` is `value`.
#[derive(Clone, Copy, Debug, PartialEq, Eq, Structural)]
pub struct FibonacciClaim {
    pub n: u32,
    pub value: u32,
}

/// What the check of the claim `fib(n) = expected` owes for an index range
/// of `1 ..= max`.
pub open spec fn validate_spec(n: u32, expected: u32, max: u32) -> Result<
    FibonacciClaim,
    ValidationError,
> {
    if n == 0 || n > max {
        Err(ValidationError::OutOfRange { min: 1, max })
    } else if fib(n as nat) % 0x1_0000_0000 != expected {
        Err(
            ValidationError::WrongResult {
                n,
                actual: (fib(n as nat) % 0x1_0000_0000) as u32,
                expected,
            },
        )
    } else {
        Ok(FibonacciClaim { n, value: expected })
    }
}

/// A fixed answer that shows that the library can be called.
pub fn test_simple_proof() -> (text: String)
    ensures
        text@ == "Simple test works!"@,
{
    "Simple test works!".to_owned()
}

/// The Fibonacci number at index `n`, modulo 2^32, as a claim.
pub fn prove_fibonacci_simple(n: u32) -> (claim: FibonacciClaim)
    ensures
        claim.n == n,
        claim.value == fib(n as nat) % 0x1_0000_0000,
{
    FibonacciClaim { n, value: fibonacci(n) }
}

/// Checks the claim `fib(n) = expected_result` for an index from 1 to 4.
pub fn prove_fibonacci_minimal(n: u32, expected_result: u32) -> (result: Result<
    FibonacciClaim,
    ValidationError,
>)
    ensures
        result == validate_spec(n, expected_result, MINIMAL_MAX_N),
{
    if n == 0 || n > MINIMAL_MAX_N {
        return Err(ValidationError::OutOfRange { min: 1, max: MINIMAL_MAX_N });
    }
    let actual: u32 = fibonacci(n);
    if actual != expected_result {
        return Err(ValidationError::WrongResult { n, actual, expected: expected_result });
    }
    Ok(FibonacciClaim { n, value: expected_result })
}

/// Checks the claim `fib(n) = expected_result` for an index from 1 to 6:
/// up to 4 as the minimal check does, and above it in the same way.
pub fn prove_fibonacci(n: u32, expected_result: u32) -> (result: Result<
    FibonacciClaim,
    ValidationError,
>)
    ensures
        result == if n <= MINIMAL_MAX_N {
            validate_spec(n, expected_result, MINIMAL_MAX_N)
        } else {
            validate_spec(n, expected_result, FULL_MAX_N)
        },
{
    if n <= MINIMAL_MAX_N {
        return prove_fibonacci_minimal(n, expected_result);
    }
    if n > FULL_MAX_N {
        return Err(ValidationError::OutOfRange { min: 1, max: FULL_MAX_N });
    }
    let actual: u32 = fibonacci(n);
    if actual != expected_result {
        return Err(ValidationError::WrongResult { n, actual, expected: expected_result });
    }
    Ok(FibonacciClaim { n, value: expected_result })
}

/// Generates the pairs `(fib(i), fib(i + 1))` for `i` from 0 to `n`, for an
/// index up to 3.
pub fn test_trace_generation(n: u32) -> (result: Result<Vec<(u64, u64)>, ValidationError>)
    ensures
        n > TRIAL_MAX_N ==> result == Err::<Vec<(u64, u64)>, ValidationError>(
            ValidationError::OutOfRange { min: 0, max: TRIAL_MAX_N },
        ),
        n <= TRIAL_MAX_N ==> result is Ok && result->Ok_0@.len() == n + 1 && forall|i: int|
            0 <= i <= n ==> (#[trigger] result->Ok_0@[i]) == (fib(i as nat) as u64, fib((i + 1) as nat) as u64),
{
    if n > TRIAL_MAX_N {
        return Err(ValidationError::OutOfRange { min: 0, max: TRIAL_MAX_N });
    }
    let mut values: Vec<(u64, u64)> = Vec::new();
    let mut a: u64 = 0;
    let mut b: u64 = 1;
    let mut i: u32 = 0;
    while i <= n
        invariant
            i <= n + 1,
            n <= 3,
            values@.len() == i,
            a == fib(i as nat),
            b == fib((i + 1) as nat),
            b <= 8,
            forall|j: int|
                0 <= j < i ==> (#[trigger] values@[j]) == (fib(j as nat) as u64, fib((j + 1) as nat) as u64),
        decreases n + 1 - i,
    {
        values.push((a, b));
        proof {
            lemma_fib_step(i as nat);
            reveal_with_fuel(fib, 8);
        }
        let next: u64 = a + b;
        a = b;
        b = next;
        i = i + 1;
    }
    Ok(values)
}

/// A description of the prover that the full check stands in for.
pub fn get_prover_info() -> (text: String)
    ensures
        text@
            == "Plonky3 Fibonacci Prover\nField: Goldilocks (64-bit prime field)\nHash: Keccak-256\nPCS: FRI (Fast Reed-Solomon Interactive Oracle Proof)"@,
{
    "Plonky3 Fibonacci Prover\nField: Goldilocks (64-bit prime field)\nHash: Keccak-256\nPCS: FRI (Fast Reed-Solomon Interactive Oracle Proof)".to_owned()
}

} // verus!
