//! The trace matrix: rows of field elements, all of one width.

use crate::power::{is_power_of_two, is_power_of_two_usize};
use vstd::prelude::*;

verus! {

/// Why a matrix cannot serve as the trace of a constraint system.
#[derive(Clone, Copy, Debug, PartialEq, Eq, Structural)]
pub enum TraceShapeError {
    /// The number of rows is not a power of two.
    HeightNotPowerOfTwo { height: usize },
    /// There are more rows than the prover takes.
    HeightTooLarge { height: usize, max: usize },
    /// A row, or the matrix as a whole, has another width than expected.
    WidthMismatch { expected: usize, found: usize },
}

/// The largest height of a trace that is handed to the prover: `2^24`. The
/// blown-up domain of a longer trace would not fit in the two-adic subgroups
/// of the 31-bit fields.
pub const MAX_TRACE_HEIGHT: usize = 16777216;

/// A dense matrix of field elements in row-major order. Each cell holds the
/// canonical representative of its element.
#[derive(Debug)]
pub struct TraceMatrix {
    pub rows: Vec<Vec<u64>>,
    pub width: usize,
}

impl View for TraceMatrix {
    type V = Seq<Seq<u64>>;

    /// The matrix as a sequence of rows.
    open spec fn view(&self) -> Seq<Seq<u64>> {
        Seq::new(self.rows@.len(), |i: int| self.rows@[i]@)
    }
}

/// Whether every row of `rows` has `width` cells.
pub open spec fn rows_have_width(rows: Seq<Seq<u64>>, width: nat) -> bool {
    forall|i: int| 0 <= i < rows.len() ==> (#[trigger] rows[i]).len() == width
}

impl TraceMatrix {
    /// The invariant of the type: every row has `width` cells.
    pub open spec fn wf(&self) -> bool {
        rows_have_width(self@, self.width as nat)
    }

    /// Builds a matrix from its rows. Fails with `WidthMismatch` for the
    /// first row whose length is not `width`.
    pub fn new(rows: Vec<Vec<u64>>, width: usize) -> (result: Result<TraceMatrix, TraceShapeError>)
        ensures
            match result {
                Ok(m) => rows_have_width(m@, width as nat) && m.wf() && m.width == width
                    && m.rows == rows,
                Err(e) => exists|i: int|
                    0 <= i < rows@.len() && (#[trigger] rows@[i])@.len() != width
                        && e == (TraceShapeError::WidthMismatch {
                        expected: width,
                        found: rows@[i]@.len() as usize,
                    }) && forall|j: int| 0 <= j < i ==> (#[trigger] rows@[j])@.len() == width,
            },
    {
        let mut i: usize = 0;
        while i < rows.len()
            invariant
                i <= rows@.len(),
                forall|j: int| 0 <= j < i ==> (#[trigger] rows@[j])@.len() == width,
            decreases rows@.len() - i,
        {
            let found: usize = rows[i].len();
            if found != width {
                return Err(TraceShapeError::WidthMismatch { expected: width, found });
            }
            i = i + 1;
        }
        let m = TraceMatrix { rows, width };
        assert(rows_have_width(m@, width as nat));
        Ok(m)
    }

    /// The number of rows.
    pub fn height(&self) -> (h: usize)
        ensures
            h == self@.len(),
    {
        self.rows.len()
    }

    /// The number of cells in each row.
    pub fn width(&self) -> (w: usize)
        ensures
            w == self.width,
    {
        self.width
    }

    /// The row at index `i`, or `None` past the last row.
    pub fn row_slice(&self, i: usize) -> (row: Option<&Vec<u64>>)
        ensures
            i < self@.len() ==> row.is_some() && row.unwrap()@ == self@[i as int],
            i >= self@.len() ==> row.is_none(),
    {
        if i < self.rows.len() {
            Some(&self.rows[i])
        } else {
            None
        }
    }

    /// The cell in row `r` and column `c`.
    pub fn get(&self, r: usize, c: usize) -> (x: u64)
        requires
            self.wf(),
            r < self@.len(),
            c < self.width,
        ensures
            x == self@[r as int][c as int],
    {
        assert(self@[r as int].len() == self.width);
        self.rows[r][c]
    }

    /// Checks that the matrix can be the trace of a constraint system of
    /// width `air_width`: the widths agree and the height is a power of two.
    /// The width is checked first.
    pub fn validate_shape(&self, air_width: usize) -> (result: Result<(), TraceShapeError>)
        ensures
            result == if self.width != air_width {
                Err::<(), TraceShapeError>(
                    TraceShapeError::WidthMismatch { expected: air_width, found: self.width },
                )
            } else if !is_power_of_two(self@.len()) {
                Err(TraceShapeError::HeightNotPowerOfTwo { height: self@.len() as usize })
            } else {
                Ok(())
            },
    {
        if self.width != air_width {
            return Err(TraceShapeError::WidthMismatch { expected: air_width, found: self.width });
        }
        let height: usize = self.rows.len();
        if !is_power_of_two_usize(height) {
            return Err(TraceShapeError::HeightNotPowerOfTwo { height });
        }
        Ok(())
    }
}

} // verus!
