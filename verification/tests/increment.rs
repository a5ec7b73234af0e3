use fib_stark::air::{ConstraintViolation, IncrementAir, NUM_COLS};
use fib_stark::field::TraceField;
use fib_stark::increment::{generate_increment_trace, pad_increment_trace};
use fib_stark::increment_prover::{
    generate_proof, p3_generate_proof, prove_increment, IncrementHash, ProofOfWork,
};
use fib_stark::matrix::{TraceMatrix, TraceShapeError};
use fib_stark::prover::ProofError;

fn counting_trace(height: usize, width: usize) -> TraceMatrix {
    let mut rows: Vec<Vec<u64>> = Vec::new();
    for i in 0..height {
        let mut row: Vec<u64> = vec![i as u64];
        for c in 1..width {
            row.push((1000 * c + 7 * i) as u64);
        }
        rows.push(row);
    }
    TraceMatrix::new(rows, width).unwrap()
}

#[test]
fn increment_air_width() {
    assert_eq!(IncrementAir::new(NUM_COLS).width(), 73);
    assert_eq!(IncrementAir::new(4).width(), 4);
}

#[test]
fn increment_synthetic_64_by_4() {
    assert_eq!(p3_generate_proof(counting_trace(64, 4), true), Ok(()));
    assert_eq!(p3_generate_proof(counting_trace(64, 4), false), Ok(()));
}

#[test]
fn increment_perturbed_column_is_rejected() {
    for row in [0usize, 1, 31, 63] {
        let mut trace = counting_trace(64, 4);
        trace.rows[row][0] += 5;
        let expected = if row == 0 { 0 } else { row - 1 };
        assert_eq!(
            p3_generate_proof(trace, true),
            Err(ProofError::ConstraintViolation(ConstraintViolation { row: expected }))
        );
    }
}

#[test]
fn increment_check_finds_the_first_broken_row() {
    let air = IncrementAir::new(2);
    let good = counting_trace(8, 2);
    assert_eq!(air.check(TraceField::Goldilocks, &good), Ok(()));
    let mut bad = counting_trace(8, 2);
    bad.rows[5][0] = 9;
    bad.rows[6][0] = 11;
    assert_eq!(
        air.check(TraceField::Goldilocks, &bad),
        Err(ConstraintViolation { row: 4 })
    );
    // the count wraps at the field's order
    let p: u64 = 18446744069414584321;
    let wrap = TraceMatrix::new(vec![vec![p - 1], vec![0], vec![p + 1]], 1).unwrap();
    assert_eq!(air.check(TraceField::Goldilocks, &wrap), Ok(()));
}

#[test]
fn increment_shape_errors() {
    let no_columns = TraceMatrix::new(vec![Vec::new(), Vec::new()], 0).unwrap();
    assert_eq!(
        p3_generate_proof(no_columns, true),
        Err(ProofError::TraceShape(TraceShapeError::WidthMismatch { expected: 1, found: 0 }))
    );
    assert_eq!(
        p3_generate_proof(counting_trace(6, 3), false),
        Err(ProofError::TraceShape(TraceShapeError::HeightNotPowerOfTwo { height: 6 }))
    );
    assert_eq!(
        p3_generate_proof(counting_trace(0, 3), true),
        Err(ProofError::TraceShape(TraceShapeError::HeightNotPowerOfTwo { height: 0 }))
    );
}

#[test]
fn padding_drops_the_last_row_and_counts_on() {
    let mut loaded = counting_trace(6, 3);
    // the trailing row breaks the count
    loaded.rows[5][0] = 77;
    let padded = pad_increment_trace(TraceField::Goldilocks, loaded);
    assert_eq!(padded.height(), 8);
    assert_eq!(padded.width(), 3);
    let kept = counting_trace(5, 3);
    assert_eq!(&padded.rows[..5], &kept.rows[..]);
    assert_eq!(padded.rows[5], vec![5, 1028, 2028]);
    assert_eq!(padded.rows[6], vec![6, 1028, 2028]);
    assert_eq!(padded.rows[7], vec![7, 1028, 2028]);
    assert_eq!(IncrementAir::new(3).check(TraceField::Goldilocks, &padded), Ok(()));
}

#[test]
fn padding_continues_from_the_last_kept_cell() {
    let loaded = TraceMatrix::new(vec![vec![40, 1], vec![41, 2], vec![42, 3], vec![0, 0]], 2).unwrap();
    let padded = pad_increment_trace(TraceField::Goldilocks, loaded);
    assert_eq!(padded.rows, vec![vec![40, 1], vec![41, 2], vec![42, 3], vec![43, 3]]);
}

#[test]
fn padding_leaves_short_traces_alone() {
    let empty = pad_increment_trace(TraceField::Goldilocks, counting_trace(0, 2));
    assert_eq!(empty.height(), 0);
    let one = pad_increment_trace(TraceField::Goldilocks, counting_trace(1, 2));
    assert_eq!(one.rows, vec![vec![0, 1000]]);
    // rows that count up are all kept
    let two = pad_increment_trace(TraceField::Goldilocks, counting_trace(2, 2));
    assert_eq!(two.rows, counting_trace(2, 2).rows);
    let full = pad_increment_trace(TraceField::Goldilocks, counting_trace(8, 2));
    assert_eq!(full.rows, counting_trace(8, 2).rows);
    let nine = pad_increment_trace(TraceField::Goldilocks, counting_trace(9, 2));
    assert_eq!(nine.height(), 16);
    assert_eq!(&nine.rows[..9], &counting_trace(9, 2).rows[..]);
    assert_eq!(nine.rows[15], vec![15, 1056]);
    // a second row that breaks the count is dropped
    let broken = TraceMatrix::new(vec![vec![4, 1], vec![9, 2]], 2).unwrap();
    let one = pad_increment_trace(TraceField::Goldilocks, broken);
    assert_eq!(one.rows, vec![vec![4, 1]]);
    // only the trailing row is looked at
    let early = TraceMatrix::new(vec![vec![4, 1], vec![9, 2], vec![10, 3]], 2).unwrap();
    let kept = pad_increment_trace(TraceField::Goldilocks, early);
    assert_eq!(kept.rows, vec![vec![4, 1], vec![9, 2], vec![10, 3], vec![11, 3]]);
}

#[test]
fn padding_does_not_change_verifiability() {
    // kept rows that break the count still break it after padding, at the same row
    let mut loaded = counting_trace(6, 2);
    loaded.rows[2][0] = 50;
    let air = IncrementAir::new(2);
    let padded = pad_increment_trace(TraceField::Goldilocks, loaded);
    assert_eq!(
        air.check(TraceField::Goldilocks, &padded),
        Err(ConstraintViolation { row: 1 })
    );
}

fn trace_text(height: usize, width: usize) -> String {
    let mut text = String::new();
    for row in counting_trace(height, width).rows {
        let cells: Vec<String> = row.iter().map(|x| format!("{}", x)).collect();
        text.push_str(&format!("[{}]\n", cells.join(", ")));
    }
    text
}

#[test]
fn generate_proof_pads_and_proves() {
    // 12 rows that count up: all are kept and padded to 16
    assert_eq!(generate_proof(&trace_text(12, NUM_COLS)), Ok(()));
    assert_eq!(generate_proof(&trace_text(2, NUM_COLS)), Ok(()));
    // 121 rows: padded to 128
    assert_eq!(generate_proof(&trace_text(121, NUM_COLS)), Ok(()));
    // no row of 73 columns
    assert_eq!(
        generate_proof(&trace_text(4, 5)),
        Err(ProofError::TraceShape(TraceShapeError::HeightNotPowerOfTwo { height: 0 }))
    );
    assert_eq!(
        generate_proof(""),
        Err(ProofError::TraceShape(TraceShapeError::HeightNotPowerOfTwo { height: 0 }))
    );
}

#[test]
fn generate_proof_reports_a_broken_count() {
    let mut text = trace_text(3, NUM_COLS);
    // rows 0, 1, 2, then 7 and a trailing row: row 2 is followed by 7
    text.push_str(&trace_text(9, NUM_COLS).lines().nth(7).unwrap().to_string());
    text.push_str("\n");
    text.push_str(&trace_text(1, NUM_COLS));
    assert_eq!(
        generate_proof(&text),
        Err(ProofError::ConstraintViolation(ConstraintViolation { row: 2 }))
    );
}

#[test]
fn matrix_rejects_rows_of_other_widths() {
    let result = TraceMatrix::new(vec![vec![1, 2], vec![3]], 2);
    assert!(matches!(
        result,
        Err(TraceShapeError::WidthMismatch { expected: 2, found: 1 })
    ));
    let matrix = counting_trace(4, 3);
    assert_eq!(matrix.get(2, 1), 1014);
    assert!(matrix.row_slice(4).is_none());
    assert_eq!(matrix.validate_shape(3), Ok(()));
    assert_eq!(
        matrix.validate_shape(2),
        Err(TraceShapeError::WidthMismatch { expected: 2, found: 3 })
    );
    assert_eq!(
        counting_trace(3, 3).validate_shape(3),
        Err(TraceShapeError::HeightNotPowerOfTwo { height: 3 })
    );
}

#[test]
fn generated_increment_traces_prove_at_every_height() {
    let trace = generate_increment_trace(TraceField::Goldilocks, 5, 3);
    assert_eq!(trace.height(), 8);
    assert_eq!(trace.rows[6], vec![6, 0, 0]);
    for rows in [1usize, 2, 3, 16, 33] {
        let trace = generate_increment_trace(TraceField::Goldilocks, rows, 2);
        assert_eq!(IncrementAir::new(2).check(TraceField::Goldilocks, &trace), Ok(()));
        assert_eq!(p3_generate_proof(trace, rows % 2 == 0), Ok(()));
    }
    let empty = generate_increment_trace(TraceField::BabyBear, 0, 1);
    assert_eq!(empty.rows, vec![vec![0]]);
}

#[test]
fn increment_hashes_and_efforts() {
    let trace = counting_trace(16, 3);
    assert_eq!(ProofOfWork::Quick.bits(), 1);
    assert_eq!(ProofOfWork::Benchmark.bits(), 16);
    for hash in [IncrementHash::Keccak, IncrementHash::Poseidon2] {
        for work in [ProofOfWork::Quick, ProofOfWork::Benchmark] {
            assert_eq!(prove_increment(&trace, hash, work), Ok(()));
        }
    }
}
