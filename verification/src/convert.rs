//! Conversion of an execution trace that is held column by column into a
//! row-major trace matrix of power-of-two height.

use crate::field::TraceField;
use crate::matrix::TraceMatrix;
use crate::power::{
    ceil_log2, is_power_of_two, lemma_ceil_log2, next_power_of_two, next_power_of_two_spec,
};
use vstd::arithmetic::power2::{lemma_pow2_strictly_increases, pow2};
use vstd::prelude::*;
use vstd::string::StringExecFns;

verus! {

/// Why a trace could not be converted.
#[derive(Debug)]
pub enum ConversionError {
    /// The columns do not all have the same length.
    InvalidDimensions { rows: usize, cols: usize },
    /// The trace has no rows or no columns.
    EmptyTrace,
    /// A value has no counterpart in the target field.
    FieldConversion(String),
    /// The trace cannot be padded to the required height.
    PowerOfTwoPadding { current: usize, required: usize },
}

/// The character that writes the decimal digit `d`.
pub open spec fn digit_char(d: nat) -> char {
    if d == 0 {
        '0'
    } else if d == 1 {
        '1'
    } else if d == 2 {
        '2'
    } else if d == 3 {
        '3'
    } else if d == 4 {
        '4'
    } else if d == 5 {
        '5'
    } else if d == 6 {
        '6'
    } else if d == 7 {
        '7'
    } else if d == 8 {
        '8'
    } else {
        '9'
    }
}

/// The decimal digits of `n`, without leading zeros.
pub open spec fn decimal_text(n: nat) -> Seq<char>
    decreases n,
{
    if n < 10 {
        seq![digit_char(n)]
    } else {
        decimal_text(n / 10).push(digit_char(n % 10))
    }
}

/// The text of one decimal digit.
fn digit_str(d: usize) -> (text: &'static str)
    requires
        d < 10,
    ensures
        text@ == seq![digit_char(d as nat)],
{
    proof {
        reveal_strlit("0");
        reveal_strlit("1");
        reveal_strlit("2");
        reveal_strlit("3");
        reveal_strlit("4");
        reveal_strlit("5");
        reveal_strlit("6");
        reveal_strlit("7");
        reveal_strlit("8");
        reveal_strlit("9");
    }
    let text = if d == 0 {
        "0"
    } else if d == 1 {
        "1"
    } else if d == 2 {
        "2"
    } else if d == 3 {
        "3"
    } else if d == 4 {
        "4"
    } else if d == 5 {
        "5"
    } else if d == 6 {
        "6"
    } else if d == 7 {
        "7"
    } else if d == 8 {
        "8"
    } else {
        "9"
    };
    assert(text@ =~= seq![digit_char(d as nat)]);
    text
}

/// Writes `n` in decimal at the end of `text`.
fn append_decimal(text: &mut String, n: usize)
    ensures
        final(text)@ == old(text)@ + decimal_text(n as nat),
    decreases n,
{
    if n >= 10 {
        append_decimal(text, n / 10);
    }
    text.append(digit_str(n % 10));
    assert(text@ =~= old(text)@ + decimal_text(n as nat));
}

impl ConversionError {
    /// The description of the error.
    pub open spec fn message_spec(self) -> Seq<char> {
        match self {
            ConversionError::InvalidDimensions { rows, cols } => "Invalid trace dimensions: "@
                + decimal_text(rows as nat) + "×"@ + decimal_text(cols as nat),
            ConversionError::EmptyTrace => "Trace is empty"@,
            ConversionError::FieldConversion(msg) => "Field conversion error: "@ + msg@,
            ConversionError::PowerOfTwoPadding { current, required } =>
                "Power of 2 padding error: current="@ + decimal_text(current as nat)
                    + ", required="@ + decimal_text(required as nat),
        }
    }

    /// A description of the error for people to read.
    pub fn message(&self) -> (text: String)
        ensures
            text@ == self.message_spec(),
    {
        match self {
            ConversionError::InvalidDimensions { rows, cols } => {
                let mut text = "Invalid trace dimensions: ".to_owned();
                append_decimal(&mut text, *rows);
                text.append("×");
                append_decimal(&mut text, *cols);
                text
            },
            ConversionError::EmptyTrace => "Trace is empty".to_owned(),
            ConversionError::FieldConversion(msg) => {
                let mut text = "Field conversion error: ".to_owned();
                text.append(msg.as_str());
                text
            },
            ConversionError::PowerOfTwoPadding { current, required } => {
                let mut text = "Power of 2 padding error: current=".to_owned();
                append_decimal(&mut text, *current);
                text.append(", required=");
                append_decimal(&mut text, *required);
                text
            },
        }
    }
}

/// The sizes of a trace before and after padding.
#[derive(Clone, Copy, Debug, PartialEq, Eq, Structural)]
pub struct TraceStats {
    pub original_height: usize,
    pub padded_height: usize,
    pub width: usize,
    pub padding_rows: usize,
    pub log_height: usize,
}

/// Calls `p3_util::log2_strict_usize`, which panics unless its argument is
/// a power of two. Trusted: for a power of two it returns the exponent.
#[verifier::external_body]
fn log2_strict(n: usize) -> (k: usize)
    requires
        is_power_of_two(n as nat),
    ensures
        pow2(k as nat) == n,
{
    p3_util::log2_strict_usize(n)
}

/// The cell in row `row` and column `col` of the converted trace, for a
/// source of `height` rows over the field of order `p`. Rows before the last
/// source row are taken over; in the last source row the first cell is
/// replaced by the row's index, cut to 32 bits; rows after it are zero.
pub open spec fn converted_cell(p: nat, columns: Seq<Seq<u64>>, height: nat, row: nat, col: nat) -> u64 {
    if row + 1 < height || (row + 1 == height && col != 0) {
        (columns[col as int][row as int] as nat % p) as u64
    } else if row + 1 == height {
        ((row % 0x1_0000_0000) % p) as u64
    } else {
        0
    }
}

/// The converted trace: as many rows as the next power of two from the
/// source's height on, and one column for each source column.
pub open spec fn converted_trace(p: nat, columns: Seq<Seq<u64>>) -> Seq<Seq<u64>> {
    Seq::new(
        next_power_of_two_spec(columns[0].len()),
        |r: int|
            Seq::new(
                columns.len(),
                |c: int| converted_cell(p, columns, columns[0].len(), r as nat, c as nat),
            ),
    )
}

/// Whether a column-major trace has neither rows nor columns to convert.
pub open spec fn is_empty_trace(columns: Seq<Seq<u64>>) -> bool {
    columns.len() == 0 || columns[0].len() == 0
}

/// Whether all columns are as long as the first.
pub open spec fn columns_aligned(columns: Seq<Seq<u64>>) -> bool {
    forall|c: int| 0 <= c < columns.len() ==> (#[trigger] columns[c]).len() == columns[0].len()
}

/// The view of a column-major trace: one sequence for each column.
pub open spec fn columns_view(columns: &Vec<Vec<u64>>) -> Seq<Seq<u64>> {
    Seq::new(columns@.len(), |c: int| columns@[c]@)
}

/// Converts column-major execution traces to row-major trace matrices.
pub struct TraceConverter;

impl TraceConverter {
    /// Converts a trace held column by column into a trace matrix over
    /// `field`, padded with zero rows to the next power of two.
    ///
    /// Fails with `EmptyTrace` when there is no column or no row, and with
    /// `InvalidDimensions`, carrying the first column's length and the number
    /// of columns, when the columns differ in length. The padded height must
    /// fit in a machine word.
    pub fn convert(field: TraceField, columns: &Vec<Vec<u64>>) -> (result: Result<
        TraceMatrix,
        ConversionError,
    >)
        requires
            columns@.len() > 0 ==> next_power_of_two_spec(columns@[0]@.len()) <= usize::MAX,
        ensures
            is_empty_trace(columns_view(columns)) ==> result == Err::<TraceMatrix, ConversionError>(
                ConversionError::EmptyTrace,
            ),
            !is_empty_trace(columns_view(columns)) && !columns_aligned(columns_view(columns))
                ==> result == Err::<TraceMatrix, ConversionError>(
                ConversionError::InvalidDimensions {
                    rows: columns@[0]@.len() as usize,
                    cols: columns@.len() as usize,
                },
            ),
            !is_empty_trace(columns_view(columns)) && columns_aligned(columns_view(columns)) ==> {
                &&& result is Ok
                &&& result->Ok_0.wf()
                &&& result->Ok_0.width == columns@.len()
                &&& result->Ok_0@ == converted_trace(field.modulus(), columns_view(columns))
            },
    {
        let ghost cols = columns_view(columns);
        let ghost p = field.modulus();
        let width: usize = columns.len();
        if width == 0 {
            return Err(ConversionError::EmptyTrace);
        }
        let height: usize = columns[0].len();
        assert(cols[0] == columns@[0]@);
        if height == 0 {
            return Err(ConversionError::EmptyTrace);
        }
        let mut c: usize = 0;
        while c < width
            invariant
                c <= width,
                width == columns@.len(),
                width >= 1,
                height >= 1,
                height == columns@[0]@.len(),
                cols == columns_view(columns),
                forall|j: int| 0 <= j < c ==> (#[trigger] cols[j]).len() == height,
            decreases width - c,
        {
            if columns[c].len() != height {
                assert(cols[c as int].len() != cols[0].len());
                return Err(ConversionError::InvalidDimensions { rows: height, cols: width });
            }
            c = c + 1;
        }
        assert(columns_aligned(cols));
        let padded_height: usize = next_power_of_two(height);
        let mut rows: Vec<Vec<u64>> = Vec::new();
        let mut r: usize = 0;
        while r < padded_height
            invariant
                r <= padded_height,
                rows@.len() == r,
                width == columns@.len(),
                width >= 1,
                height == columns@[0]@.len(),
                height >= 1,
                cols == columns_view(columns),
                columns_aligned(cols),
                p == field.modulus(),
                forall|i: int|
                    0 <= i < r ==> (#[trigger] rows@[i])@ == Seq::new(
                        width as nat,
                        |c: int| converted_cell(p, cols, height as nat, i as nat, c as nat),
                    ),
            decreases padded_height - r,
        {
            let mut row: Vec<u64> = Vec::new();
            let mut c: usize = 0;
            while c < width
                invariant
                    c <= width,
                    row@.len() == c,
                    r < padded_height,
                    width == columns@.len(),
                    width >= 1,
                    height == columns@[0]@.len(),
                    height >= 1,
                    cols == columns_view(columns),
                    columns_aligned(cols),
                    p == field.modulus(),
                    forall|j: int|
                        0 <= j < c ==> #[trigger] row@[j] == converted_cell(
                            p,
                            cols,
                            height as nat,
                            r as nat,
                            j as nat,
                        ),
                decreases width - c,
            {
                assert(cols[c as int].len() == height);
                let cell: u64 = if r < height - 1 || (r == height - 1 && c != 0) {
                    field.from_u64(columns[c][r])
                } else if r == height - 1 {
                    field.from_u64((r as u64) % 0x1_0000_0000)
                } else {
                    0
                };
                row.push(cell);
                c = c + 1;
            }
            assert(row@ =~= Seq::new(
                width as nat,
                |c: int| converted_cell(p, cols, height as nat, r as nat, c as nat),
            ));
            rows.push(row);
            r = r + 1;
        }
        let trace = TraceMatrix { rows, width };
        assert(trace@ =~= converted_trace(p, cols));
        Ok(trace)
    }

    /// The sizes of a trace of `height` rows and `width` columns before and
    /// after padding to the next power of two. The padded height must fit
    /// in a machine word.
    pub fn trace_stats(height: usize, width: usize) -> (stats: TraceStats)
        requires
            next_power_of_two_spec(height as nat) <= usize::MAX,
        ensures
            stats.original_height == height,
            stats.width == width,
            stats.padded_height == next_power_of_two_spec(height as nat),
            stats.padding_rows == stats.padded_height - height,
            stats.log_height == ceil_log2(height as nat),
            pow2(stats.log_height as nat) == stats.padded_height,
    {
        let padded_height: usize = next_power_of_two(height);
        let log_height: usize = log2_strict(padded_height);
        proof {
            let c = ceil_log2(height as nat);
            if (log_height as nat) < c {
                lemma_pow2_strictly_increases(log_height as nat, c);
            } else if (log_height as nat) > c {
                lemma_pow2_strictly_increases(c, log_height as nat);
            }
        }
        TraceStats {
            original_height: height,
            padded_height,
            width,
            padding_rows: padded_height - height,
            log_height,
        }
    }
}

/// Converts a trace held column by column into a trace matrix over `field`,
/// as `TraceConverter::convert` does.
pub fn convert_miden_trace(field: TraceField, columns: &Vec<Vec<u64>>) -> (result: Result<
    TraceMatrix,
    ConversionError,
>)
    requires
        columns@.len() > 0 ==> next_power_of_two_spec(columns@[0]@.len()) <= usize::MAX,
    ensures
        is_empty_trace(columns_view(columns)) ==> result == Err::<TraceMatrix, ConversionError>(
            ConversionError::EmptyTrace,
        ),
        !is_empty_trace(columns_view(columns)) && !columns_aligned(columns_view(columns))
            ==> result == Err::<TraceMatrix, ConversionError>(
            ConversionError::InvalidDimensions {
                rows: columns@[0]@.len() as usize,
                cols: columns@.len() as usize,
            },
        ),
        !is_empty_trace(columns_view(columns)) && columns_aligned(columns_view(columns)) ==> {
            &&& result is Ok
            &&& result->Ok_0.wf()
            &&& result->Ok_0.width == columns@.len()
            &&& result->Ok_0@ == converted_trace(field.modulus(), columns_view(columns))
        },
{
    TraceConverter::convert(field, columns)
}

} // verus!
