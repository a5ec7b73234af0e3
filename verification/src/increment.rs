//! Increment traces: the first column counts up by one from row to row.
//! A loaded trace whose trailing row breaks the count loses that row, and
//! the trace is then padded to a power of two with rows that go on counting.

use crate::air::IncrementAir;
use crate::field::TraceField;
use crate::matrix::{rows_have_width, TraceMatrix};
use crate::power::{lemma_ceil_log2, next_power_of_two, next_power_of_two_spec};
use vstd::arithmetic::div_mod::lemma_mod_twice;
use vstd::prelude::*;

verus! {

/// Whether the trailing row of a loaded trace breaks the count: there are
/// at least two rows, and the step into the last one is no increment in the
/// field of order `p`.
pub open spec fn trailing_row_breaks(p: nat, loaded: Seq<Seq<u64>>) -> bool {
    loaded.len() >= 2 && !IncrementAir::transition_holds(
        p,
        loaded[loaded.len() - 2],
        loaded[loaded.len() - 1],
    )
}

/// The rows of a loaded trace that are kept: all of them, or all but the
/// last where the last breaks the count.
pub open spec fn kept_rows(p: nat, loaded: Seq<Seq<u64>>) -> Seq<Seq<u64>> {
    if trailing_row_breaks(p, loaded) {
        loaded.drop_last()
    } else {
        loaded
    }
}

/// Row `i` of the trace that extends `kept` by padding: a kept row where
/// there is one, and else the row before it with its first cell increased
/// by one in the field of order `p`.
pub open spec fn padded_row(p: nat, kept: Seq<Seq<u64>>, i: nat) -> Seq<u64>
    decreases i,
{
    if i < kept.len() || i == 0 {
        kept[i as int]
    } else {
        let prev = padded_row(p, kept, (i - 1) as nat);
        prev.update(0, ((prev[0] as nat + 1) % p) as u64)
    }
}

/// The trace made from a loaded one: the kept rows, padded to the next
/// power of two. A trace without rows stays without rows.
pub open spec fn padded_increment_trace(p: nat, loaded: Seq<Seq<u64>>) -> Seq<Seq<u64>> {
    if kept_rows(p, loaded).len() == 0 {
        kept_rows(p, loaded)
    } else {
        Seq::new(
            next_power_of_two_spec(kept_rows(p, loaded).len()),
            |i: int| padded_row(p, kept_rows(p, loaded), i as nat),
        )
    }
}

/// Padding rows keep the width of the kept rows.
pub proof fn lemma_padded_row_width(p: nat, kept: Seq<Seq<u64>>, width: nat, i: nat)
    requires
        rows_have_width(kept, width),
        kept.len() >= 1,
        width >= 1,
    ensures
        padded_row(p, kept, i).len() == width,
    decreases i,
{
    if i < kept.len() || i == 0 {
        assert(kept[i as int].len() == width);
    } else {
        lemma_padded_row_width(p, kept, width, (i - 1) as nat);
    }
}

/// Padding rows repeat the other columns of the last kept row, and count on
/// from the row before them in the first column.
pub proof fn lemma_padded_row_repeats(p: nat, kept: Seq<Seq<u64>>, width: nat, i: nat)
    requires
        0 < p <= u64::MAX,
        rows_have_width(kept, width),
        kept.len() >= 1,
        width >= 1,
        i >= kept.len(),
    ensures
        padded_row(p, kept, i).len() == width,
        padded_row(p, kept, i)[0] == (padded_row(p, kept, (i - 1) as nat)[0] as nat + 1) % p,
        forall|c: int| 1 <= c < width ==> padded_row(p, kept, i)[c] == kept.last()[c],
    decreases i,
{
    let prev = padded_row(p, kept, (i - 1) as nat);
    lemma_padded_row_width(p, kept, width, (i - 1) as nat);
    lemma_padded_row_width(p, kept, width, i);
    vstd::arithmetic::div_mod::lemma_mod_bound((prev[0] as nat + 1) as int, p as int);
    if i > kept.len() {
        lemma_padded_row_repeats(p, kept, width, (i - 1) as nat);
    } else {
        assert(prev == kept.last());
    }
}

/// Padding satisfies the increment constraint by construction: the step
/// from the last kept row into the padding, and every step inside it, is
/// an increment. So the padded trace satisfies the increment system exactly
/// when the kept rows do.
pub proof fn lemma_padding_keeps_increment(p: nat, loaded: Seq<Seq<u64>>, width: nat)
    requires
        0 < p <= u64::MAX,
        width >= 1,
        rows_have_width(loaded, width),
    ensures
        forall|i: int|
            kept_rows(p, loaded).len() <= i + 1 < padded_increment_trace(p, loaded).len()
                ==> IncrementAir::transition_holds(
                p,
                #[trigger] padded_increment_trace(p, loaded)[i],
                padded_increment_trace(p, loaded)[i + 1],
            ),
        IncrementAir::satisfied(p, padded_increment_trace(p, loaded)) <==> IncrementAir::satisfied(
            p,
            kept_rows(p, loaded),
        ),
{
    let kept = kept_rows(p, loaded);
    let out = padded_increment_trace(p, loaded);
    if kept.len() >= 1 {
        lemma_ceil_log2(kept.len());
        assert(rows_have_width(kept, width));
        assert forall|i: int| kept.len() <= i + 1 < out.len() implies IncrementAir::transition_holds(
            p,
            #[trigger] out[i],
            out[i + 1],
        ) by {
            let prev = padded_row(p, kept, i as nat);
            lemma_padded_row_width(p, kept, width, i as nat);
            vstd::arithmetic::div_mod::lemma_mod_bound((prev[0] as nat + 1) as int, p as int);
            lemma_mod_twice((prev[0] as nat + 1) as int, p as int);
            assert(out[i + 1] == padded_row(p, kept, (i + 1) as nat));
        }
        if IncrementAir::satisfied(p, kept) {
            assert forall|i: int| 0 <= i < out.len() implies IncrementAir::row_holds(p, out, i) by {
                if i + 1 < kept.len() {
                    assert(IncrementAir::row_holds(p, kept, i));
                    assert(out[i] == kept[i] && out[i + 1] == kept[i + 1]);
                }
            }
        }
        if IncrementAir::satisfied(p, out) {
            assert forall|i: int| 0 <= i < kept.len() implies IncrementAir::row_holds(p, kept, i) by {
                if i + 1 < kept.len() {
                    assert(IncrementAir::row_holds(p, out, i));
                    assert(out[i] == kept[i] && out[i + 1] == kept[i + 1]);
                }
            }
        }
    }
}

/// Every row that pads a prepared trace counts on from the row before it in
/// the first column, and repeats the other columns of the last kept row.
pub proof fn lemma_padding_rows(p: nat, loaded: Seq<Seq<u64>>, width: nat, i: int)
    requires
        0 < p <= u64::MAX,
        width >= 1,
        rows_have_width(loaded, width),
        kept_rows(p, loaded).len() <= i < padded_increment_trace(p, loaded).len(),
    ensures
        padded_increment_trace(p, loaded)[i].len() == width,
        padded_increment_trace(p, loaded)[i][0] == (padded_increment_trace(p, loaded)[i - 1][0] as nat
            + 1) % p,
        forall|c: int|
            1 <= c < width ==> padded_increment_trace(p, loaded)[i][c] == kept_rows(
                p,
                loaded,
            ).last()[c],
{
    let kept = kept_rows(p, loaded);
    assert(rows_have_width(kept, width));
    lemma_padded_row_repeats(p, kept, width, i as nat);
}

/// Rows that count up are all kept: a loaded trace that satisfies the
/// increment system loses no row, comes back with its own rows first, and
/// has the next power of two from its own height on as its height.
pub proof fn lemma_counting_rows_are_all_kept(p: nat, loaded: Seq<Seq<u64>>)
    requires
        IncrementAir::satisfied(p, loaded),
    ensures
        kept_rows(p, loaded) == loaded,
        loaded.len() >= 1 ==> padded_increment_trace(p, loaded).len() == next_power_of_two_spec(
            loaded.len(),
        ),
        forall|i: int|
            0 <= i < loaded.len() ==> #[trigger] padded_increment_trace(p, loaded)[i] == loaded[i],
{
    if loaded.len() >= 2 {
        assert(IncrementAir::row_holds(p, loaded, loaded.len() - 2));
    }
    if loaded.len() >= 1 {
        lemma_ceil_log2(loaded.len());
    }
}

/// Row `i` of the counting trace of `width` columns over the field of order
/// `p`: the row's index in the first cell, and zero in the others.
pub open spec fn counting_row(p: nat, width: nat, i: nat) -> Seq<u64> {
    Seq::new(width, |c: int| if c == 0 { (i % p) as u64 } else { 0u64 })
}

/// The counting trace of `height` rows.
pub open spec fn counting_trace(p: nat, width: nat, height: nat) -> Seq<Seq<u64>> {
    Seq::new(height, |i: int| counting_row(p, width, i as nat))
}

/// A counting trace satisfies the increment system, whatever its height.
pub proof fn lemma_counting_trace_satisfies_air(p: nat, width: nat, height: nat)
    requires
        0 < p <= u64::MAX,
        width >= 1,
    ensures
        IncrementAir::satisfied(p, counting_trace(p, width, height)),
{
    let trace = counting_trace(p, width, height);
    assert forall|i: int| 0 <= i < trace.len() implies IncrementAir::row_holds(p, trace, i) by {
        if i + 1 < trace.len() {
            vstd::arithmetic::div_mod::lemma_mod_bound(i, p as int);
            vstd::arithmetic::div_mod::lemma_mod_bound(i + 1, p as int);
            lemma_mod_twice(i + 1, p as int);
            vstd::arithmetic::div_mod::lemma_add_mod_noop_right(1, i, p as int);
            assert(trace[i][0] == (i as nat % p) as u64);
            assert(trace[i + 1][0] == ((i + 1) as nat % p) as u64);
        }
    }
}

/// Builds a trace of `width` columns that satisfies the increment system:
/// the first column counts up from zero and the others are zero. The trace
/// has at least `num_rows` rows: as many as the next power of two, which
/// must fit in a machine word.
pub fn generate_increment_trace(field: TraceField, num_rows: usize, width: usize) -> (trace:
    TraceMatrix)
    requires
        width >= 1,
        next_power_of_two_spec(num_rows as nat) <= usize::MAX,
    ensures
        trace.wf(),
        trace.width == width,
        trace@ == counting_trace(
            field.modulus(),
            width as nat,
            next_power_of_two_spec(num_rows as nat),
        ),
        IncrementAir::satisfied(field.modulus(), trace@),
{
    let ghost p = field.modulus();
    let height: usize = next_power_of_two(num_rows);
    proof {
        lemma_counting_trace_satisfies_air(p, width as nat, height as nat);
    }
    let mut rows: Vec<Vec<u64>> = Vec::new();
    let mut i: usize = 0;
    while i < height
        invariant
            i <= height,
            width >= 1,
            p == field.modulus(),
            rows@.len() == i,
            forall|j: int| 0 <= j < i ==> (#[trigger] rows@[j])@ == counting_row(p, width as nat, j as nat),
        decreases height - i,
    {
        let mut row: Vec<u64> = Vec::new();
        row.push(field.from_u64(i as u64));
        let mut c: usize = 1;
        while c < width
            invariant
                1 <= c <= width,
                row@.len() == c,
                row@[0] == (i as nat % p) as u64,
                forall|k: int| 1 <= k < c ==> row@[k] == 0,
            decreases width - c,
        {
            row.push(0);
            c = c + 1;
        }
        assert(row@ =~= counting_row(p, width as nat, i as nat));
        rows.push(row);
        i = i + 1;
    }
    let trace = TraceMatrix { rows, width };
    assert(trace@ =~= counting_trace(p, width as nat, height as nat));
    trace
}

/// Copies a row.
fn copy_row(row: &Vec<u64>) -> (copy: Vec<u64>)
    ensures
        copy@ == row@,
{
    let mut copy: Vec<u64> = Vec::new();
    let mut i: usize = 0;
    while i < row.len()
        invariant
            i <= row@.len(),
            copy@ == row@.subrange(0, i as int),
        decreases row@.len() - i,
    {
        copy.push(row[i]);
        assert(copy@ =~= row@.subrange(0, i + 1));
        i = i + 1;
    }
    assert(row@.subrange(0, i as int) =~= row@);
    copy
}

/// Prepares a loaded trace for proving over `field`: drops its last row
/// where that row breaks the count, and pads the rest to the next power of
/// two, counting on in the first column and repeating the other columns of
/// the last kept row. Rows that count up are all kept.
///
/// The padded height must fit in a machine word.
pub fn pad_increment_trace(field: TraceField, loaded: TraceMatrix) -> (trace: TraceMatrix)
    requires
        loaded.wf(),
        loaded.width >= 1,
        next_power_of_two_spec(kept_rows(field.modulus(), loaded@).len()) <= usize::MAX,
    ensures
        trace.wf(),
        trace.width == loaded.width,
        trace@ == padded_increment_trace(field.modulus(), loaded@),
        IncrementAir::satisfied(field.modulus(), trace@) <==> IncrementAir::satisfied(
            field.modulus(),
            kept_rows(field.modulus(), loaded@),
        ),
        IncrementAir::satisfied(field.modulus(), loaded@) ==> {
            &&& loaded@.len() >= 1 ==> trace@.len() == next_power_of_two_spec(loaded@.len())
            &&& forall|i: int| 0 <= i < loaded@.len() ==> #[trigger] trace@[i] == loaded@[i]
        },
{
    let ghost p = field.modulus();
    let ghost loaded_rows = loaded@;
    proof {
        lemma_padding_keeps_increment(p, loaded_rows, loaded.width as nat);
        if IncrementAir::satisfied(p, loaded_rows) {
            lemma_counting_rows_are_all_kept(p, loaded_rows);
        }
    }
    let width: usize = loaded.width;
    let mut rows: Vec<Vec<u64>> = loaded.rows;
    let loaded_height: usize = rows.len();
    if loaded_height == 0 {
        let trace = TraceMatrix { rows, width };
        assert(trace@ =~= loaded_rows);
        return trace;
    }
    if loaded_height >= 2 {
        assert(loaded_rows[loaded_height - 2].len() == width);
        assert(loaded_rows[loaded_height - 1].len() == width);
        let before: u64 = rows[loaded_height - 2][0];
        let trailing: u64 = rows[loaded_height - 1][0];
        if field.from_u64(trailing) != field.successor(before) {
            rows.pop();
        }
    }
    let ghost kept = kept_rows(p, loaded_rows);
    assert(Seq::new(rows@.len(), |i: int| rows@[i]@) =~= kept);
    let current_rows: usize = rows.len();
    let target_rows: usize = next_power_of_two(current_rows);
    assert(kept[current_rows - 1].len() == width);
    let mut last: Vec<u64> = copy_row(&rows[current_rows - 1]);
    while rows.len() < target_rows
        invariant
            1 <= current_rows <= rows@.len() <= target_rows,
            kept.len() == current_rows,
            rows_have_width(kept, width as nat),
            width >= 1,
            p == field.modulus(),
            last@ == padded_row(p, kept, (rows@.len() - 1) as nat),
            last@.len() == width,
            forall|i: int| 0 <= i < rows@.len() ==> (#[trigger] rows@[i])@ == padded_row(p, kept, i as nat),
        decreases target_rows - rows@.len(),
    {
        let next: u64 = field.successor(last[0]);
        last.set(0, next);
        let row = copy_row(&last);
        rows.push(row);
    }
    let trace = TraceMatrix { rows, width };
    assert(trace@ =~= padded_increment_trace(p, loaded_rows));
    assert forall|i: int| 0 <= i < trace@.len() implies (#[trigger] trace@[i]).len() == width by {
        lemma_padded_row_width(p, kept, width as nat, i as nat);
    }
    trace
}

} // verus!
