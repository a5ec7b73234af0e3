//! The constraint systems behind one interface: width, evaluation and
//! trace generation, whichever system is chosen.

use crate::air::{ConstraintViolation, FibonacciAir, IncrementAir, NUM_FIBONACCI_COLS};
use crate::field::TraceField;
use crate::increment::{counting_trace, generate_increment_trace};
use crate::matrix::TraceMatrix;
use crate::power::{lemma_power_of_two_positive, next_power_of_two, next_power_of_two_spec};
use crate::trace::{
    fibonacci_trace, fibonacci_trace_over, lemma_fibonacci_row_canonical,
    lemma_fibonacci_trace_satisfies_air,
};
use vstd::prelude::*;

verus! {

/// One of the constraint systems, behind one interface.
#[derive(Clone, Copy, Debug)]
pub enum ProofObjective {
    Fibonacci(FibonacciAir),
    Increment(IncrementAir),
}

impl ProofObjective {
    /// The width of the traces that the system constrains.
    pub open spec fn width_spec(self) -> usize {
        match self {
            ProofObjective::Fibonacci(_) => NUM_FIBONACCI_COLS,
            ProofObjective::Increment(air) => air.width,
        }
    }

    /// The number of public values that the system reads.
    pub open spec fn num_public_values_spec(self) -> nat {
        match self {
            ProofObjective::Fibonacci(_) => 3,
            ProofObjective::Increment(_) => 0,
        }
    }

    /// Every constraint of the system that applies at row `i` holds there.
    pub open spec fn row_holds(self, p: nat, trace: Seq<Seq<u64>>, public_values: Seq<u64>, i: int) -> bool {
        match self {
            ProofObjective::Fibonacci(_) => FibonacciAir::row_holds(p, trace, public_values, i),
            ProofObjective::Increment(_) => IncrementAir::row_holds(p, trace, i),
        }
    }

    /// The trace satisfies the system at every row.
    pub open spec fn satisfied(self, p: nat, trace: Seq<Seq<u64>>, public_values: Seq<u64>) -> bool {
        match self {
            ProofObjective::Fibonacci(_) => FibonacciAir::satisfied(p, trace, public_values),
            ProofObjective::Increment(_) => IncrementAir::satisfied(p, trace),
        }
    }

    /// The width of the traces that the system constrains.
    pub fn width(&self) -> (w: usize)
        ensures
            w == self.width_spec(),
    {
        match self {
            ProofObjective::Fibonacci(air) => air.width(),
            ProofObjective::Increment(air) => air.width(),
        }
    }

    /// The number of public values that the system reads.
    pub fn num_public_values(&self) -> (n: usize)
        ensures
            n == self.num_public_values_spec(),
    {
        match self {
            ProofObjective::Fibonacci(_) => 3,
            ProofObjective::Increment(_) => 0,
        }
    }

    /// Evaluates the system's constraints on every row of `trace`. Returns
    /// the first row that breaks one, or `Ok` when the trace satisfies the
    /// system.
    pub fn check(&self, field: TraceField, trace: &TraceMatrix, public_values: &Vec<u64>) -> (result:
        Result<(), ConstraintViolation>)
        requires
            trace.wf(),
            trace.width == self.width_spec(),
            trace.width >= 1,
            public_values@.len() >= self.num_public_values_spec(),
        ensures
            result.is_ok() <==> self.satisfied(field.modulus(), trace@, public_values@),
            match result {
                Ok(_) => true,
                Err(v) => v.row < trace@.len() && !self.row_holds(
                    field.modulus(),
                    trace@,
                    public_values@,
                    v.row as int,
                ) && forall|j: int|
                    0 <= j < v.row ==> self.row_holds(field.modulus(), trace@, public_values@, j),
            },
    {
        match self {
            ProofObjective::Fibonacci(air) => air.check(field, trace, public_values),
            ProofObjective::Increment(air) => air.check(field, trace),
        }
    }

    /// Builds a trace that satisfies the system, with the public values
    /// that go with it. The trace has at least `num_rows` rows: as many as
    /// the next power of two, which must fit in a machine word. The rows that
    /// pad it go on as the rows before them, so that they satisfy the
    /// transition constraints too.
    ///
    /// A Fibonacci trace starts from `(1, 1)`, and its public values are the
    /// start and the right cell of its last row. An increment trace counts up
    /// from zero in its first column, and has no public values.
    pub fn generate_trace_rows(&self, field: TraceField, num_rows: usize) -> (out: (
        TraceMatrix,
        Vec<u64>,
    ))
        requires
            self.width_spec() >= 1,
            next_power_of_two_spec(num_rows as nat) <= usize::MAX,
        ensures
            out.0.wf(),
            out.0.width == self.width_spec(),
            out.0@ == match self {
                ProofObjective::Fibonacci(_) => fibonacci_trace(
                    field.modulus(),
                    1,
                    1,
                    next_power_of_two_spec(num_rows as nat),
                ),
                ProofObjective::Increment(air) => counting_trace(
                    field.modulus(),
                    air.width as nat,
                    next_power_of_two_spec(num_rows as nat),
                ),
            },
            out.1@.len() == self.num_public_values_spec(),
            self.satisfied(field.modulus(), out.0@, out.1@),
    {
        match self {
            ProofObjective::Fibonacci(_) => {
                let height: usize = next_power_of_two(num_rows);
                proof {
                    lemma_power_of_two_positive(height as nat);
                }
                let trace = fibonacci_trace_over(field, 1, 1, height);
                let result: u64 = trace.get(height - 1, 1);
                proof {
                    let p = field.modulus();
                    lemma_fibonacci_row_canonical(p, 1, 1, (height - 1) as nat);
                    vstd::arithmetic::div_mod::lemma_small_mod(result as nat, p);
                    lemma_fibonacci_trace_satisfies_air(p, 1, 1, result, height as nat);
                }
                (trace, vec![1, 1, result])
            },
            ProofObjective::Increment(air) => {
                let trace = generate_increment_trace(field, num_rows, air.width());
                (trace, Vec::new())
            },
        }
    }
}

} // verus!
