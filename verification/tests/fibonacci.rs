use fib_stark::air::{FibonacciAir, FibonacciRow, NUM_FIBONACCI_COLS};
use fib_stark::fib::{calculate_fibonacci, fibonacci};
use fib_stark::field::TraceField;
use fib_stark::trace::{
    generate_fibonacci_trace, generate_fibonacci_trace_with_result, generate_trace_rows,
};

fn fibonacci_row(trace: &fib_stark::matrix::TraceMatrix, i: usize) -> FibonacciRow<u64> {
    let row = trace.row_slice(i).unwrap();
    FibonacciRow::from_slice(row.as_slice())
}

#[test]
fn test_fibonacci_calculation() {
    assert_eq!(calculate_fibonacci(1), 1);
    assert_eq!(calculate_fibonacci(2), 1);
    assert_eq!(calculate_fibonacci(3), 2);
    assert_eq!(calculate_fibonacci(4), 3);
    assert_eq!(calculate_fibonacci(5), 5);
    assert_eq!(calculate_fibonacci(8), 21);
    assert_eq!(calculate_fibonacci(10), 55);
}

#[test]
fn calculate_fibonacci_edges() {
    assert_eq!(calculate_fibonacci(0), 0);
    assert_eq!(calculate_fibonacci(93), 12200160415121876738);
}

#[test]
fn fibonacci_wraps_at_32_bits() {
    assert_eq!(fibonacci(0), 0);
    assert_eq!(fibonacci(1), 1);
    assert_eq!(fibonacci(2), 1);
    assert_eq!(fibonacci(10), 55);
    assert_eq!(fibonacci(47), 2971215073);
    // fib(48) = 4807526976 = 2^32 + 512559680
    assert_eq!(fibonacci(48), 512559680);
}

#[test]
fn test_fibonacci_air_properties() {
    let air = FibonacciAir::new();
    assert_eq!(air.width(), NUM_FIBONACCI_COLS);
}

#[test]
fn test_fibonacci_row_borrow() {
    let values = vec![1u64, 1u64];
    let row: FibonacciRow<u64> = FibonacciRow::from_slice(values.as_slice());
    assert_eq!(row.left, 1);
    assert_eq!(row.right, 1);
}

#[test]
fn test_trace_generation() {
    let trace = generate_fibonacci_trace(1, 1, 8);

    assert_eq!(trace.height(), 8);
    assert_eq!(trace.width(), NUM_FIBONACCI_COLS);

    let first_fib_row = fibonacci_row(&trace, 0);
    assert_eq!(first_fib_row.left, 1);
    assert_eq!(first_fib_row.right, 1);

    let second_fib_row = fibonacci_row(&trace, 1);
    assert_eq!(second_fib_row.left, 1);
    assert_eq!(second_fib_row.right, 2);

    let third_fib_row = fibonacci_row(&trace, 2);
    assert_eq!(third_fib_row.left, 2);
    assert_eq!(third_fib_row.right, 3);

    let last_fib_row = fibonacci_row(&trace, 7);
    assert_eq!(last_fib_row.right, 34);
}

#[test]
fn test_trace_with_result() {
    let (trace, result) = generate_fibonacci_trace_with_result(1, 1, 8);

    assert_eq!(result, 34);
    assert_eq!(trace.height(), 8);

    let last_fib_row = fibonacci_row(&trace, 7);
    assert_eq!(last_fib_row.right, result);
}

#[test]
fn trace_test_different_starting_values() {
    let trace = generate_fibonacci_trace(2, 3, 4);

    let first_fib_row = fibonacci_row(&trace, 0);
    assert_eq!(first_fib_row.left, 2);
    assert_eq!(first_fib_row.right, 3);

    let second_fib_row = fibonacci_row(&trace, 1);
    assert_eq!(second_fib_row.left, 3);
    assert_eq!(second_fib_row.right, 5);

    let third_fib_row = fibonacci_row(&trace, 2);
    assert_eq!(third_fib_row.left, 5);
    assert_eq!(third_fib_row.right, 8);
}

#[test]
fn fibonacci_small_rows() {
    let trace = generate_fibonacci_trace(1, 1, 8);
    let expected: Vec<Vec<u64>> = vec![
        vec![1, 1],
        vec![1, 2],
        vec![2, 3],
        vec![3, 5],
        vec![5, 8],
        vec![8, 13],
        vec![13, 21],
        vec![21, 34],
    ];
    assert_eq!(trace.rows, expected);
}

#[test]
fn trace_reduces_in_baby_bear() {
    // the start values are reduced, and sums wrap at the prime 2013265921
    let p: u64 = 2013265921;
    let trace = generate_fibonacci_trace(p + 5, p - 1, 4);
    assert_eq!(trace.rows, vec![vec![5, p - 1], vec![p - 1, 4], vec![4, 3], vec![3, 7]]);
}

#[test]
fn trace_reduces_in_goldilocks() {
    let p: u64 = 18446744069414584321;
    let trace = generate_trace_rows(p - 1, 2, 2);
    assert_eq!(trace.rows, vec![vec![p - 1, 2], vec![2, 1]]);
    let big = generate_trace_rows(u64::MAX, 0, 1);
    assert_eq!(big.rows, vec![vec![u64::MAX - p, 0]]);
}

#[test]
fn field_arithmetic_is_modular() {
    let bb = TraceField::BabyBear;
    assert_eq!(bb.order(), 2013265921);
    assert_eq!(bb.from_u64(2013265921), 0);
    assert_eq!(bb.from_u64(u64::MAX), u64::MAX % 2013265921);
    assert_eq!(bb.add(2013265920, 1), 0);
    assert_eq!(bb.add(u64::MAX, u64::MAX), ((u64::MAX as u128 * 2) % 2013265921) as u64);
    assert_eq!(bb.successor(7), 8);
    let gl = TraceField::Goldilocks;
    assert_eq!(gl.order(), 18446744069414584321);
    assert_eq!(gl.from_u64(18446744069414584321), 0);
    assert_eq!(gl.add(18446744069414584320, 1), 0);
    assert_eq!(
        gl.add(u64::MAX, u64::MAX),
        ((u64::MAX as u128 * 2) % 18446744069414584321u128) as u64
    );
    assert!(gl.is_canonical(5));
    assert!(!bb.is_canonical(2013265921));
}

#[test]
fn test_baby_bear_creation() {
    assert_eq!(TraceField::BabyBear.from_u64(42), 42);
}
