//! The two constraint systems of this library, stated over trace rows: the
//! Fibonacci recurrence on two columns, and a first column that counts up.
//!
//! Cells and public values stand for field elements, so constraints compare
//! them modulo the field's order.

use crate::field::TraceField;
use crate::matrix::TraceMatrix;
use p3_air::{Air, AirBuilder, BaseAir, WindowAccess};
use vstd::prelude::*;

verus! {

/// Number of columns of a Fibonacci trace.
pub const NUM_FIBONACCI_COLS: usize = 2;

/// Number of columns of the increment trace that the trace loader reads.
pub const NUM_COLS: usize = 73;

/// One row of a Fibonacci trace: two neighbouring numbers of the sequence.
#[derive(Clone, Copy, Debug)]
pub struct FibonacciRow<F> {
    pub left: F,
    pub right: F,
}

impl<F> FibonacciRow<F> {
    pub fn new(left: F, right: F) -> (row: Self)
        ensures
            row.left == left,
            row.right == right,
    {
        FibonacciRow { left, right }
    }
}

impl<F: Copy> FibonacciRow<F> {
    /// Reads a slice of two cells as a row.
    pub fn from_slice(values: &[F]) -> (row: Self)
        requires
            values@.len() == NUM_FIBONACCI_COLS,
        ensures
            row.left == values@[0],
            row.right == values@[1],
    {
        FibonacciRow { left: values[0], right: values[1] }
    }
}

/// The first row at which a trace breaks a constraint.
#[derive(Clone, Copy, Debug, PartialEq, Eq, Structural)]
pub struct ConstraintViolation {
    pub row: usize,
}

/// The Fibonacci constraint system.
///
/// Public values are `(a, b, x)`. The first row is `(a, b)`; each row but the
/// last is followed by `(right, left + right)`; the last row's right cell is
/// `x`.
#[derive(Clone, Copy, Debug)]
pub struct FibonacciAir {}

impl FibonacciAir {
    pub fn new() -> (air: Self) {
        FibonacciAir {  }
    }

    /// The width of the traces that this system constrains.
    pub fn width(&self) -> (w: usize)
        ensures
            w == NUM_FIBONACCI_COLS,
    {
        NUM_FIBONACCI_COLS
    }

    /// The number of public values that this system reads: the two start
    /// values and the result.
    pub fn num_public_values(&self) -> (n: usize)
        ensures
            n == 3,
    {
        3
    }

    /// The boundary constraint on the first row.
    pub open spec fn first_row_holds(p: nat, row: Seq<u64>, public_values: Seq<u64>) -> bool {
        &&& row[0] as nat % p == public_values[0] as nat % p
        &&& row[1] as nat % p == public_values[1] as nat % p
    }

    /// The transition constraint between a row and the one after it.
    pub open spec fn transition_holds(p: nat, current: Seq<u64>, next: Seq<u64>) -> bool {
        &&& next[0] as nat % p == current[1] as nat % p
        &&& next[1] as nat % p == (current[0] as nat + current[1] as nat) % p
    }

    /// The boundary constraint on the last row.
    pub open spec fn last_row_holds(p: nat, row: Seq<u64>, public_values: Seq<u64>) -> bool {
        row[1] as nat % p == public_values[2] as nat % p
    }

    /// Every constraint that applies at row `i` holds there.
    pub open spec fn row_holds(p: nat, trace: Seq<Seq<u64>>, public_values: Seq<u64>, i: int) -> bool {
        &&& i == 0 ==> Self::first_row_holds(p, trace[i], public_values)
        &&& i + 1 < trace.len() ==> Self::transition_holds(p, trace[i], trace[i + 1])
        &&& i + 1 == trace.len() ==> Self::last_row_holds(p, trace[i], public_values)
    }

    /// The trace satisfies the system at every row.
    pub open spec fn satisfied(p: nat, trace: Seq<Seq<u64>>, public_values: Seq<u64>) -> bool {
        forall|i: int| 0 <= i < trace.len() ==> Self::row_holds(p, trace, public_values, i)
    }

    /// Evaluates the constraints on every row of `trace`. Returns the first
    /// row that breaks one, or `Ok` when the trace satisfies the system.
    pub fn check(
        &self,
        field: TraceField,
        trace: &TraceMatrix,
        public_values: &Vec<u64>,
    ) -> (result: Result<(), ConstraintViolation>)
        requires
            trace.wf(),
            trace.width == NUM_FIBONACCI_COLS,
            public_values@.len() >= 3,
        ensures
            result.is_ok() <==> Self::satisfied(field.modulus(), trace@, public_values@),
            match result {
                Ok(_) => true,
                Err(v) => v.row < trace@.len() && !Self::row_holds(
                    field.modulus(),
                    trace@,
                    public_values@,
                    v.row as int,
                ) && forall|j: int|
                    0 <= j < v.row ==> Self::row_holds(field.modulus(), trace@, public_values@, j),
            },
    {
        let height: usize = trace.height();
        let ghost p = field.modulus();
        let mut i: usize = 0;
        while i < height
            invariant
                i <= height,
                height == trace@.len(),
                trace.wf(),
                trace.width == NUM_FIBONACCI_COLS,
                public_values@.len() >= 3,
                p == field.modulus(),
                forall|j: int| 0 <= j < i ==> Self::row_holds(p, trace@, public_values@, j),
            decreases height - i,
        {
            let left: u64 = trace.get(i, 0);
            let right: u64 = trace.get(i, 1);
            let mut holds: bool = true;
            if i == 0 {
                holds = field.from_u64(left) == field.from_u64(public_values[0]) && field.from_u64(
                    right,
                ) == field.from_u64(public_values[1]);
            }
            if holds && i + 1 < height {
                let next_left: u64 = trace.get(i + 1, 0);
                let next_right: u64 = trace.get(i + 1, 1);
                holds = field.from_u64(next_left) == field.from_u64(right) && field.from_u64(
                    next_right,
                ) == field.add(left, right);
            }
            if holds && i + 1 == height {
                holds = field.from_u64(right) == field.from_u64(public_values[2]);
            }
            if !holds {
                assert(!Self::row_holds(p, trace@, public_values@, i as int));
                return Err(ConstraintViolation { row: i });
            }
            i = i + 1;
        }
        Ok(())
    }
}

impl Default for FibonacciAir {
    fn default() -> (air: Self) {
        FibonacciAir::new()
    }
}

impl<F> BaseAir<F> for FibonacciAir {
    fn width(&self) -> (w: usize)
        ensures
            w == NUM_FIBONACCI_COLS,
    {
        NUM_FIBONACCI_COLS
    }

    fn num_public_values(&self) -> (n: usize)
        ensures
            n == 3,
    {
        3
    }
}

impl<AB: AirBuilder> Air<AB> for FibonacciAir {
    /// States the constraints of `row_holds` to a constraint builder of
    /// `p3_air`: `when_first_row`, `when_transition` and `when_last_row`
    /// select the rows, and `assert_eq` equates two field expressions.
    /// Trusted: the builder is an outside trait.
    #[verifier::external_body]
    fn eval(&self, builder: &mut AB) {
        let main = builder.main();
        let (local, next) = (main.current_slice(), main.next_slice());
        let (a, b, x) = (builder.public_values()[0], builder.public_values()[1], builder.public_values()[2]);
        let mut when_first_row = builder.when_first_row();
        when_first_row.assert_eq(local[0], a);
        when_first_row.assert_eq(local[1], b);
        let mut when_transition = builder.when_transition();
        when_transition.assert_eq(next[0], local[1]);
        when_transition.assert_eq(next[1], local[0] + local[1]);
        builder.when_last_row().assert_eq(local[1], x);
    }
}

/// The increment constraint system: in each row but the last, the first
/// cell of the next row is the first cell of this row plus one. The other
/// columns are free, and there are no public values.
#[derive(Clone, Copy, Debug)]
pub struct IncrementAir {
    /// The width of the traces that this system constrains.
    pub width: usize,
}

impl IncrementAir {
    /// The system for traces of `width` columns.
    pub fn new(width: usize) -> (air: Self)
        ensures
            air.width == width,
    {
        IncrementAir { width }
    }

    /// The width of the traces that this system constrains.
    pub fn width(&self) -> (w: usize)
        ensures
            w == self.width,
    {
        self.width
    }

    /// The transition constraint between a row and the one after it.
    pub open spec fn transition_holds(p: nat, current: Seq<u64>, next: Seq<u64>) -> bool {
        next[0] as nat % p == (current[0] as nat + 1) % p
    }

    /// Every constraint that applies at row `i` holds there.
    pub open spec fn row_holds(p: nat, trace: Seq<Seq<u64>>, i: int) -> bool {
        i + 1 < trace.len() ==> Self::transition_holds(p, trace[i], trace[i + 1])
    }

    /// The trace satisfies the system at every row.
    pub open spec fn satisfied(p: nat, trace: Seq<Seq<u64>>) -> bool {
        forall|i: int| 0 <= i < trace.len() ==> Self::row_holds(p, trace, i)
    }

    /// Evaluates the constraint on every row of `trace`, of any width from
    /// one column on. Returns the first row that breaks it, or `Ok` when the
    /// trace satisfies the system.
    pub fn check(&self, field: TraceField, trace: &TraceMatrix) -> (result: Result<
        (),
        ConstraintViolation,
    >)
        requires
            trace.wf(),
            trace.width >= 1,
        ensures
            result.is_ok() <==> Self::satisfied(field.modulus(), trace@),
            match result {
                Ok(_) => true,
                Err(v) => v.row < trace@.len() && !Self::row_holds(
                    field.modulus(),
                    trace@,
                    v.row as int,
                ) && forall|j: int| 0 <= j < v.row ==> Self::row_holds(field.modulus(), trace@, j),
            },
    {
        let height: usize = trace.height();
        let ghost p = field.modulus();
        let mut i: usize = 0;
        while i < height
            invariant
                i <= height,
                height == trace@.len(),
                trace.wf(),
                trace.width >= 1,
                p == field.modulus(),
                forall|j: int| 0 <= j < i ==> Self::row_holds(p, trace@, j),
            decreases height - i,
        {
            if i + 1 < height {
                let current: u64 = trace.get(i, 0);
                let next: u64 = trace.get(i + 1, 0);
                if field.from_u64(next) != field.successor(current) {
                    assert(!Self::row_holds(p, trace@, i as int));
                    return Err(ConstraintViolation { row: i });
                }
            }
            i = i + 1;
        }
        Ok(())
    }
}

impl<F> BaseAir<F> for IncrementAir {
    fn width(&self) -> (w: usize)
        ensures
            w == self.width,
    {
        self.width
    }
}

impl<AB: AirBuilder> Air<AB> for IncrementAir {
    /// States the constraint of `row_holds` to a constraint builder of
    /// `p3_air`: under `when_transition`, the first cell of the next row
    /// less the first cell of this row is one. Trusted: the builder is an
    /// outside trait.
    #[verifier::external_body]
    fn eval(&self, builder: &mut AB) {
        let main = builder.main();
        let (local, next) = (main.current_slice(), main.next_slice());
        builder.when_transition().assert_one(next[0] - local[0]);
    }
}

} // verus!
