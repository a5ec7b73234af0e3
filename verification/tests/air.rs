use fib_stark::air::{ConstraintViolation, FibonacciAir, IncrementAir};
use fib_stark::objective::ProofObjective;
use fib_stark::field::TraceField;
use fib_stark::matrix::TraceMatrix;
use fib_stark::trace::generate_fibonacci_trace;

#[test]
fn fibonacci_check_accepts_generated_traces() {
    let air = FibonacciAir::default();
    let mut height: usize = 1;
    while height <= 256 {
        let trace = generate_fibonacci_trace(1, 1, height);
        let result = trace.rows[height - 1][1];
        assert_eq!(air.check(TraceField::BabyBear, &trace, &vec![1, 1, result]), Ok(()));
        height *= 2;
    }
}

#[test]
fn fibonacci_check_finds_the_first_broken_row() {
    let air = FibonacciAir::new();
    let field = TraceField::BabyBear;
    let good = generate_fibonacci_trace(1, 1, 8);
    assert_eq!(air.check(field, &good, &vec![1, 1, 34]), Ok(()));
    // wrong result
    assert_eq!(
        air.check(field, &good, &vec![1, 1, 99]),
        Err(ConstraintViolation { row: 7 })
    );
    // wrong start
    assert_eq!(
        air.check(field, &good, &vec![2, 1, 34]),
        Err(ConstraintViolation { row: 0 })
    );
    // a broken sum in the middle: row 3 is followed by a row that is not its successor
    let mut bad = generate_fibonacci_trace(1, 1, 8);
    bad.rows[4][1] = 9;
    assert_eq!(
        air.check(field, &bad, &vec![1, 1, 34]),
        Err(ConstraintViolation { row: 3 })
    );
    // a broken shift
    let mut shifted = generate_fibonacci_trace(1, 1, 8);
    shifted.rows[2][0] = 5;
    assert_eq!(
        air.check(field, &shifted, &vec![1, 1, 34]),
        Err(ConstraintViolation { row: 1 })
    );
}

#[test]
fn fibonacci_check_compares_in_the_field() {
    let p: u64 = 2013265921;
    let air = FibonacciAir::new();
    // cells and public values that are not reduced stand for the same elements
    let trace = TraceMatrix::new(vec![vec![p + 1, 1], vec![1, p + 2]], 2).unwrap();
    assert_eq!(air.check(TraceField::BabyBear, &trace, &vec![1, p + 1, 2]), Ok(()));
    // over another field they do not
    assert_eq!(
        air.check(TraceField::Goldilocks, &trace, &vec![1, p + 1, 2]),
        Err(ConstraintViolation { row: 0 })
    );
}

#[test]
fn empty_and_single_row_traces() {
    let air = FibonacciAir::new();
    let empty = TraceMatrix::new(Vec::new(), 2).unwrap();
    assert_eq!(air.check(TraceField::BabyBear, &empty, &vec![1, 1, 1]), Ok(()));
    let one = TraceMatrix::new(vec![vec![5, 8]], 2).unwrap();
    assert_eq!(air.check(TraceField::BabyBear, &one, &vec![5, 8, 8]), Ok(()));
    assert_eq!(
        air.check(TraceField::BabyBear, &one, &vec![5, 8, 13]),
        Err(ConstraintViolation { row: 0 })
    );
}

#[test]
fn objectives_dispatch() {
    let fibonacci = ProofObjective::Fibonacci(FibonacciAir::new());
    let increment = ProofObjective::Increment(IncrementAir::new(3));
    assert_eq!(fibonacci.width(), 2);
    assert_eq!(increment.width(), 3);
    assert_eq!(fibonacci.num_public_values(), 3);
    assert_eq!(increment.num_public_values(), 0);

    let trace = generate_fibonacci_trace(1, 1, 4);
    assert_eq!(fibonacci.check(TraceField::BabyBear, &trace, &vec![1, 1, 5]), Ok(()));
    assert_eq!(
        fibonacci.check(TraceField::BabyBear, &trace, &vec![1, 1, 4]),
        Err(ConstraintViolation { row: 3 })
    );

    let counting =
        TraceMatrix::new(vec![vec![3, 0, 0], vec![4, 9, 9], vec![5, 1, 2], vec![7, 0, 0]], 3)
            .unwrap();
    assert_eq!(
        increment.check(TraceField::Goldilocks, &counting, &Vec::new()),
        Err(ConstraintViolation { row: 2 })
    );
}

#[test]
fn objectives_generate_traces_that_satisfy_them() {
    let fibonacci = ProofObjective::Fibonacci(FibonacciAir::new());
    let (trace, public_values) = fibonacci.generate_trace_rows(TraceField::BabyBear, 5);
    assert_eq!(trace.height(), 8);
    assert_eq!(public_values, vec![1, 1, 34]);
    assert_eq!(fibonacci.check(TraceField::BabyBear, &trace, &public_values), Ok(()));

    let increment = ProofObjective::Increment(IncrementAir::new(4));
    let (trace, public_values) = increment.generate_trace_rows(TraceField::Goldilocks, 64);
    assert_eq!(trace.height(), 64);
    assert_eq!(trace.width(), 4);
    assert_eq!(trace.rows[63], vec![63, 0, 0, 0]);
    assert!(public_values.is_empty());
    assert_eq!(increment.check(TraceField::Goldilocks, &trace, &public_values), Ok(()));
}
