use fib_stark::validation::{
    get_prover_info, prove_fibonacci, prove_fibonacci_minimal, prove_fibonacci_simple,
    test_simple_proof, test_trace_generation, FibonacciClaim, ValidationError,
};

#[test]
fn simple_answers() {
    assert_eq!(test_simple_proof(), "Simple test works!");
    assert_eq!(prove_fibonacci_simple(10), FibonacciClaim { n: 10, value: 55 });
    assert_eq!(prove_fibonacci_simple(48), FibonacciClaim { n: 48, value: 512559680 });
    assert!(get_prover_info().starts_with("Plonky3 Fibonacci Prover\nField: Goldilocks"));
    assert!(get_prover_info().ends_with("PCS: FRI (Fast Reed-Solomon Interactive Oracle Proof)"));
}

#[test]
fn minimal_check() {
    assert_eq!(prove_fibonacci_minimal(4, 3), Ok(FibonacciClaim { n: 4, value: 3 }));
    assert_eq!(prove_fibonacci_minimal(1, 1), Ok(FibonacciClaim { n: 1, value: 1 }));
    assert_eq!(
        prove_fibonacci_minimal(0, 0),
        Err(ValidationError::OutOfRange { min: 1, max: 4 })
    );
    assert_eq!(
        prove_fibonacci_minimal(5, 5),
        Err(ValidationError::OutOfRange { min: 1, max: 4 })
    );
    assert_eq!(
        prove_fibonacci_minimal(3, 3),
        Err(ValidationError::WrongResult { n: 3, actual: 2, expected: 3 })
    );
}

#[test]
fn full_check() {
    assert_eq!(prove_fibonacci(6, 8), Ok(FibonacciClaim { n: 6, value: 8 }));
    assert_eq!(prove_fibonacci(5, 5), Ok(FibonacciClaim { n: 5, value: 5 }));
    assert_eq!(prove_fibonacci(2, 1), Ok(FibonacciClaim { n: 2, value: 1 }));
    assert_eq!(prove_fibonacci(0, 0), Err(ValidationError::OutOfRange { min: 1, max: 4 }));
    assert_eq!(prove_fibonacci(7, 13), Err(ValidationError::OutOfRange { min: 1, max: 6 }));
    assert_eq!(
        prove_fibonacci(6, 9),
        Err(ValidationError::WrongResult { n: 6, actual: 8, expected: 9 })
    );
}

#[test]
fn trial_trace() {
    assert_eq!(test_trace_generation(0), Ok(vec![(0, 1)]));
    assert_eq!(test_trace_generation(3), Ok(vec![(0, 1), (1, 1), (1, 2), (2, 3)]));
    assert_eq!(
        test_trace_generation(4),
        Err(ValidationError::OutOfRange { min: 0, max: 3 })
    );
}
