use fib_stark::convert::{convert_miden_trace, ConversionError, TraceConverter, TraceStats};
use fib_stark::field::TraceField;
use fib_stark::power::{is_power_of_two_usize, next_power_of_two};

#[test]
fn test_conversion_error_empty_trace() {
    let error = ConversionError::EmptyTrace;
    assert!(error.message().contains("empty"));
}

#[test]
fn test_trace_stats_calculation() {
    let original_height: usize = 100;
    let padded_height = next_power_of_two(original_height);
    let width: usize = 50;

    let stats = TraceConverter::trace_stats(original_height, width);
    assert_eq!(
        stats,
        TraceStats {
            original_height,
            padded_height,
            width,
            padding_rows: padded_height - original_height,
            log_height: 7,
        }
    );

    assert_eq!(stats.padded_height, 128);
    assert_eq!(stats.padding_rows, 28);
    assert_eq!(stats.log_height, 7);
}

#[test]
fn test_power_of_two_padding() {
    let original_sizes: [usize; 6] = [10, 64, 100, 127, 128, 200];
    let expected_padded: [usize; 6] = [16, 64, 128, 128, 128, 256];

    for (original, expected) in original_sizes.iter().zip(expected_padded.iter()) {
        let padded = next_power_of_two(*original);
        assert_eq!(
            padded, *expected,
            "Original size {} should pad to {}, got {}",
            original, expected, padded
        );
        assert!(
            is_power_of_two_usize(padded),
            "Padded size {} should be power of 2",
            padded
        );
    }
}

#[test]
fn power_of_two_edges() {
    assert_eq!(next_power_of_two(0), 1);
    assert_eq!(next_power_of_two(1), 1);
    assert_eq!(next_power_of_two(2), 2);
    assert_eq!(next_power_of_two(3), 4);
    assert!(!is_power_of_two_usize(0));
    assert!(is_power_of_two_usize(1));
    assert!(!is_power_of_two_usize(6));
    assert!(is_power_of_two_usize(1 << 20));
    assert!(!is_power_of_two_usize(usize::MAX));
    assert!(is_power_of_two_usize(usize::MAX / 2 + 1));
}

#[test]
fn trace_stats_of_a_power_of_two() {
    let stats = TraceConverter::trace_stats(64, 3);
    assert_eq!(stats.padded_height, 64);
    assert_eq!(stats.padding_rows, 0);
    assert_eq!(stats.log_height, 6);
    let one = TraceConverter::trace_stats(1, 1);
    assert_eq!(one.padded_height, 1);
    assert_eq!(one.log_height, 0);
}

#[test]
fn convert_rejects_empty_traces() {
    let none: Vec<Vec<u64>> = Vec::new();
    assert!(matches!(
        TraceConverter::convert(TraceField::Goldilocks, &none),
        Err(ConversionError::EmptyTrace)
    ));
    let no_rows: Vec<Vec<u64>> = vec![Vec::new(), Vec::new()];
    assert!(matches!(
        convert_miden_trace(TraceField::Goldilocks, &no_rows),
        Err(ConversionError::EmptyTrace)
    ));
}

#[test]
fn convert_rejects_ragged_columns() {
    let columns: Vec<Vec<u64>> = vec![vec![1, 2, 3], vec![4, 5]];
    assert!(matches!(
        TraceConverter::convert(TraceField::Goldilocks, &columns),
        Err(ConversionError::InvalidDimensions { rows: 3, cols: 2 })
    ));
}

#[test]
fn convert_transposes_and_pads() {
    // three rows in two columns; the last row's first cell becomes its index
    let columns: Vec<Vec<u64>> = vec![vec![10, 11, 99], vec![20, 21, 22]];
    let trace = TraceConverter::convert(TraceField::Goldilocks, &columns).unwrap();
    assert_eq!(trace.width(), 2);
    assert_eq!(trace.height(), 4);
    assert_eq!(trace.rows, vec![vec![10, 20], vec![11, 21], vec![2, 22], vec![0, 0]]);
}

#[test]
fn convert_reduces_in_the_field() {
    let p: u64 = 2013265921;
    let columns: Vec<Vec<u64>> = vec![vec![p + 3, 7], vec![p, u64::MAX]];
    let trace = TraceConverter::convert(TraceField::BabyBear, &columns).unwrap();
    assert_eq!(trace.rows, vec![vec![3, 0], vec![1, u64::MAX % p]]);
}

#[test]
fn conversion_error_messages() {
    let dims = ConversionError::InvalidDimensions { rows: 3, cols: 20 };
    assert_eq!(dims.message(), "Invalid trace dimensions: 3×20");
    let padding = ConversionError::PowerOfTwoPadding { current: 0, required: 1024 };
    assert_eq!(padding.message(), "Power of 2 padding error: current=0, required=1024");
    let largest = ConversionError::PowerOfTwoPadding { current: 9, required: usize::MAX };
    assert_eq!(
        largest.message(),
        format!("Power of 2 padding error: current=9, required={}", usize::MAX)
    );
    let field = ConversionError::FieldConversion("too big".to_string());
    assert_eq!(field.message(), "Field conversion error: too big");
    assert_eq!(ConversionError::EmptyTrace.message(), "Trace is empty");
}
