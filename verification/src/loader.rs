//! Reading an increment trace from text: one row per line, the row's
//! integers separated by commas and enclosed in square brackets.
//!
//! The text is taken as the bytes of its UTF-8 encoding. Whitespace is any
//! whitespace character of Unicode, and an integer is a decimal `u64`, with
//! an optional `+` before it.

use crate::air::{IncrementAir, NUM_COLS};
use crate::field::TraceField;
use crate::increment::{kept_rows, pad_increment_trace, padded_increment_trace};
use crate::matrix::TraceMatrix;
use crate::power::next_power_of_two_spec;
use vstd::prelude::*;
use vstd::string::StringSliceAdditionalSpecFns;

verus! {

/// Whether `b` is a whitespace character of one byte: tab, line feed,
/// vertical tab, form feed, carriage return or space.
pub open spec fn whitespace_1(b: u8) -> bool {
    b == 32 || (9 <= b && b <= 13)
}

/// Whether two bytes are a whitespace character: U+0085 or U+00A0.
pub open spec fn whitespace_2(b0: u8, b1: u8) -> bool {
    b0 == 0xC2 && (b1 == 0x85 || b1 == 0xA0)
}

/// Whether three bytes are a whitespace character: U+1680, U+2000 to
/// U+200A, U+2028, U+2029, U+202F, U+205F or U+3000.
pub open spec fn whitespace_3(b0: u8, b1: u8, b2: u8) -> bool {
    ||| b0 == 0xE1 && b1 == 0x9A && b2 == 0x80
    ||| b0 == 0xE2 && b1 == 0x80 && ((0x80 <= b2 && b2 <= 0x8A) || b2 == 0xA8 || b2 == 0xA9 || b2
        == 0xAF)
    ||| b0 == 0xE2 && b1 == 0x81 && b2 == 0x9F
    ||| b0 == 0xE3 && b1 == 0x80 && b2 == 0x80
}

/// What is taken off the ends of a piece of text.
#[derive(Clone, Copy, Debug, PartialEq, Eq, Structural)]
pub enum Strip {
    /// A whitespace character of Unicode, in its UTF-8 encoding.
    Whitespace,
    /// One given byte.
    Byte(u8),
}

impl Strip {
    /// The number of bytes of the item to take off at the start of `s`, or
    /// 0 where `s` starts with none.
    pub open spec fn leading(self, s: Seq<u8>) -> nat {
        match self {
            Strip::Byte(x) => if s.len() >= 1 && s[0] == x {
                1
            } else {
                0
            },
            Strip::Whitespace => if s.len() >= 1 && whitespace_1(s[0]) {
                1
            } else if s.len() >= 2 && whitespace_2(s[0], s[1]) {
                2
            } else if s.len() >= 3 && whitespace_3(s[0], s[1], s[2]) {
                3
            } else {
                0
            },
        }
    }

    /// The number of bytes of the item to take off at the end of `s`, or 0
    /// where `s` ends with none.
    pub open spec fn trailing(self, s: Seq<u8>) -> nat {
        match self {
            Strip::Byte(x) => if s.len() >= 1 && s[s.len() - 1] == x {
                1
            } else {
                0
            },
            Strip::Whitespace => if s.len() >= 1 && whitespace_1(s[s.len() - 1]) {
                1
            } else if s.len() >= 2 && whitespace_2(s[s.len() - 2], s[s.len() - 1]) {
                2
            } else if s.len() >= 3 && whitespace_3(s[s.len() - 3], s[s.len() - 2], s[s.len() - 1]) {
                3
            } else {
                0
            },
        }
    }

    /// The number of bytes of the item to take off at index `at` of `s`.
    pub fn leading_len(self, s: &Vec<u8>, at: usize) -> (n: usize)
        requires
            at <= s@.len(),
        ensures
            n == self.leading(s@.skip(at as int)),
            n <= s@.len() - at,
    {
        let rest: usize = s.len() - at;
        match self {
            Strip::Byte(x) => if rest >= 1 && s[at] == x {
                1
            } else {
                0
            },
            Strip::Whitespace => if rest >= 1 && is_whitespace_1(s[at]) {
                1
            } else if rest >= 2 && is_whitespace_2(s[at], s[at + 1]) {
                2
            } else if rest >= 3 && is_whitespace_3(s[at], s[at + 1], s[at + 2]) {
                3
            } else {
                0
            },
        }
    }

    /// The number of bytes of the item to take off before index `end` of
    /// `s`.
    pub fn trailing_len(self, s: &Vec<u8>, end: usize) -> (n: usize)
        requires
            end <= s@.len(),
        ensures
            n == self.trailing(s@.take(end as int)),
            n <= end,
    {
        match self {
            Strip::Byte(x) => if end >= 1 && s[end - 1] == x {
                1
            } else {
                0
            },
            Strip::Whitespace => if end >= 1 && is_whitespace_1(s[end - 1]) {
                1
            } else if end >= 2 && is_whitespace_2(s[end - 2], s[end - 1]) {
                2
            } else if end >= 3 && is_whitespace_3(s[end - 3], s[end - 2], s[end - 1]) {
                3
            } else {
                0
            },
        }
    }
}

/// Tells whether `b` is a whitespace character of one byte.
pub fn is_whitespace_1(b: u8) -> (yes: bool)
    ensures
        yes == whitespace_1(b),
{
    b == 32 || (9 <= b && b <= 13)
}

/// Tells whether two bytes are a whitespace character.
pub fn is_whitespace_2(b0: u8, b1: u8) -> (yes: bool)
    ensures
        yes == whitespace_2(b0, b1),
{
    b0 == 0xC2 && (b1 == 0x85 || b1 == 0xA0)
}

/// Tells whether three bytes are a whitespace character.
pub fn is_whitespace_3(b0: u8, b1: u8, b2: u8) -> (yes: bool)
    ensures
        yes == whitespace_3(b0, b1, b2),
{
    (b0 == 0xE1 && b1 == 0x9A && b2 == 0x80) || (b0 == 0xE2 && b1 == 0x80 && ((0x80 <= b2 && b2
        <= 0x8A) || b2 == 0xA8 || b2 == 0xA9 || b2 == 0xAF)) || (b0 == 0xE2 && b1 == 0x81 && b2
        == 0x9F) || (b0 == 0xE3 && b1 == 0x80 && b2 == 0x80)
}

/// `s` without the longest run of stripped items at its start.
pub open spec fn strip_leading(s: Seq<u8>, class: Strip) -> Seq<u8>
    decreases s.len(),
{
    if class.leading(s) > 0 {
        strip_leading(s.skip(class.leading(s) as int), class)
    } else {
        s
    }
}

/// `s` without the longest run of stripped items at its end.
pub open spec fn strip_trailing(s: Seq<u8>, class: Strip) -> Seq<u8>
    decreases s.len(),
{
    if class.trailing(s) > 0 {
        strip_trailing(s.take(s.len() - class.trailing(s)), class)
    } else {
        s
    }
}

/// `s` without whitespace at either end.
pub open spec fn trim(s: Seq<u8>) -> Seq<u8> {
    strip_trailing(strip_leading(s, Strip::Whitespace), Strip::Whitespace)
}

/// The pieces of `s` between the occurrences of `sep`: one piece more than
/// there are separators. Read from the left, a separator opens a new, empty
/// piece, and any other byte goes to the end of the last piece.
pub open spec fn split(s: Seq<u8>, sep: u8) -> Seq<Seq<u8>>
    decreases s.len(),
{
    if s.len() == 0 {
        seq![Seq::<u8>::empty()]
    } else {
        let before = split(s.drop_last(), sep);
        if s.last() == sep {
            before.push(Seq::<u8>::empty())
        } else {
            before.drop_last().push(before.last().push(s.last()))
        }
    }
}

/// The number that a sequence of decimal digits writes.
pub open spec fn decimal_value(digits: Seq<u8>) -> nat
    decreases digits.len(),
{
    if digits.len() == 0 {
        0
    } else {
        10 * decimal_value(digits.drop_last()) + (digits.last() - 48) as nat
    }
}

/// Whether every byte is a decimal digit.
pub open spec fn all_digits(s: Seq<u8>) -> bool {
    forall|i: int| 0 <= i < s.len() ==> 48 <= #[trigger] s[i] <= 57
}

/// The digits of a number: the text without whitespace around it and
/// without one `+` before it.
pub open spec fn digits_of(token: Seq<u8>) -> Seq<u8> {
    let t = trim(token);
    if t.len() > 0 && t[0] == 43 {
        t.skip(1)
    } else {
        t
    }
}

/// The number that `token` writes, if it is one or more decimal digits
/// whose value fits in 64 bits.
pub open spec fn parse_u64(token: Seq<u8>) -> Option<u64> {
    let d = digits_of(token);
    if d.len() > 0 && all_digits(d) && decimal_value(d) <= u64::MAX {
        Some(decimal_value(d) as u64)
    } else {
        None
    }
}

/// The body of a row: the line without its opening brackets at the start
/// and its closing brackets at the end.
pub open spec fn row_body(line: Seq<u8>) -> Seq<u8> {
    strip_trailing(strip_leading(line, Strip::Byte(91)), Strip::Byte(93))
}

/// The numbers of a row, if every piece between its commas is a number.
pub open spec fn parse_row(line: Seq<u8>) -> Option<Seq<u64>> {
    let tokens = split(row_body(line), 44);
    if forall|i: int| 0 <= i < tokens.len() ==> (#[trigger] parse_u64(tokens[i])) is Some {
        Some(Seq::new(tokens.len(), |i: int| parse_u64(tokens[i]).unwrap()))
    } else {
        None
    }
}

/// Line `i` of the pieces that line feeds separate. A carriage return
/// before a line feed belongs to the line ending.
pub open spec fn line_at(pieces: Seq<Seq<u8>>, i: int) -> Seq<u8> {
    if i + 1 < pieces.len() && pieces[i].len() > 0 && pieces[i].last() == 13 {
        pieces[i].drop_last()
    } else {
        pieces[i]
    }
}

/// The rows that the first `n` lines give: each line that is a row of
/// `width` numbers, in order. Other lines are passed over.
pub open spec fn rows_of_lines(pieces: Seq<Seq<u8>>, width: nat, n: nat) -> Seq<Seq<u64>>
    decreases n,
{
    if n == 0 {
        Seq::<Seq<u64>>::empty()
    } else {
        let before = rows_of_lines(pieces, width, (n - 1) as nat);
        match parse_row(line_at(pieces, n - 1)) {
            Some(row) => if row.len() == width {
                before.push(row)
            } else {
                before
            },
            None => before,
        }
    }
}

/// The rows of `width` numbers that a text holds.
pub open spec fn parse_text(text: Seq<u8>, width: nat) -> Seq<Seq<u64>> {
    rows_of_lines(split(text, 10), width, split(text, 10).len())
}

/// There is one piece more than there are separators, so at most one more
/// than there are bytes.
pub proof fn lemma_split_len(s: Seq<u8>, sep: u8)
    ensures
        1 <= split(s, sep).len() <= s.len() + 1,
    decreases s.len(),
{
    if s.len() > 0 {
        lemma_split_len(s.drop_last(), sep);
    }
}

/// There are no more rows than lines.
pub proof fn lemma_rows_of_lines_len(pieces: Seq<Seq<u8>>, width: nat, n: nat)
    ensures
        rows_of_lines(pieces, width, n).len() <= n,
    decreases n,
{
    if n > 0 {
        lemma_rows_of_lines_len(pieces, width, (n - 1) as nat);
    }
}

/// A text of fewer than half as many bytes as a machine word counts can be
/// loaded and padded: the padded height fits in a machine word.
pub proof fn lemma_padded_height_fits(p: nat, text: Seq<u8>, width: nat)
    requires
        text.len() < usize::MAX / 2,
    ensures
        parse_text(text, width).len() <= text.len() + 1,
        next_power_of_two_spec(kept_rows(p, parse_text(text, width)).len()) <= usize::MAX,
{
    lemma_split_len(text, 10);
    lemma_rows_of_lines_len(split(text, 10), width, split(text, 10).len());
    let kept = kept_rows(p, parse_text(text, width)).len();
    crate::power::lemma_next_power_of_two_bound(kept);
}

/// A longer run of digits does not write a smaller number.
pub proof fn lemma_decimal_value_grows(digits: Seq<u8>, k: int)
    requires
        0 <= k <= digits.len(),
    ensures
        decimal_value(digits.take(k)) <= decimal_value(digits),
    decreases digits.len() - k,
{
    if k < digits.len() {
        lemma_decimal_value_grows(digits, k + 1);
        assert(digits.take(k + 1).drop_last() =~= digits.take(k));
    } else {
        assert(digits.take(k) =~= digits);
    }
}

/// Copies the first `n` bytes of `s`.
fn take_bytes(s: &Vec<u8>, n: usize) -> (out: Vec<u8>)
    requires
        n <= s@.len(),
    ensures
        out@ == s@.take(n as int),
{
    let mut out: Vec<u8> = Vec::new();
    let mut i: usize = 0;
    while i < n
        invariant
            i <= n <= s@.len(),
            out@ == s@.take(i as int),
        decreases n - i,
    {
        out.push(s[i]);
        assert(out@ =~= s@.take(i + 1));
        i = i + 1;
    }
    out
}

/// Takes the longest run of stripped items off the start of `s`.
pub fn strip_start(s: &Vec<u8>, class: Strip) -> (out: Vec<u8>)
    ensures
        out@ == strip_leading(s@, class),
{
    let mut lo: usize = 0;
    assert(s@.skip(0) =~= s@);
    let len: usize = s.len();
    let mut n: usize = class.leading_len(s, lo);
    while n > 0
        invariant
            len == s@.len(),
            lo <= s@.len(),
            n <= s@.len() - lo,
            n == class.leading(s@.skip(lo as int)),
            strip_leading(s@, class) == strip_leading(s@.skip(lo as int), class),
        decreases s@.len() - lo,
    {
        assert(s@.skip(lo as int).skip(n as int) =~= s@.skip(lo + n));
        lo = lo + n;
        n = class.leading_len(s, lo);
    }
    let mut out: Vec<u8> = Vec::new();
    let mut i: usize = lo;
    while i < s.len()
        invariant
            lo <= i <= s@.len(),
            out@ == s@.subrange(lo as int, i as int),
        decreases s@.len() - i,
    {
        out.push(s[i]);
        assert(out@ =~= s@.subrange(lo as int, i + 1));
        i = i + 1;
    }
    assert(out@ =~= s@.skip(lo as int));
    out
}

/// Takes the longest run of stripped items off the end of `s`.
pub fn strip_end(s: &Vec<u8>, class: Strip) -> (out: Vec<u8>)
    ensures
        out@ == strip_trailing(s@, class),
{
    let mut hi: usize = s.len();
    assert(s@.take(hi as int) =~= s@);
    let mut n: usize = class.trailing_len(s, hi);
    while n > 0
        invariant
            hi <= s@.len(),
            n <= hi,
            n == class.trailing(s@.take(hi as int)),
            strip_trailing(s@, class) == strip_trailing(s@.take(hi as int), class),
        decreases hi,
    {
        assert(s@.take(hi as int).take(hi - n) =~= s@.take(hi - n));
        hi = hi - n;
        n = class.trailing_len(s, hi);
    }
    take_bytes(s, hi)
}

/// Cuts `s` at every occurrence of `sep`.
pub fn split_bytes(s: &[u8], sep: u8) -> (pieces: Vec<Vec<u8>>)
    ensures
        pieces@.len() == split(s@, sep).len(),
        forall|j: int| 0 <= j < pieces@.len() ==> (#[trigger] pieces@[j])@ == split(s@, sep)[j],
{
    let mut pieces: Vec<Vec<u8>> = Vec::new();
    let mut current: Vec<u8> = Vec::new();
    let mut i: usize = 0;
    assert(s@.take(0) =~= Seq::<u8>::empty());
    while i < s.len()
        invariant
            i <= s@.len(),
            split(s@.take(i as int), sep).len() == pieces@.len() + 1,
            split(s@.take(i as int), sep).last() == current@,
            forall|j: int|
                0 <= j < pieces@.len() ==> (#[trigger] pieces@[j])@ == split(s@.take(i as int), sep)[j],
        decreases s@.len() - i,
    {
        let b: u8 = s[i];
        assert(s@.take(i + 1).drop_last() =~= s@.take(i as int));
        if b == sep {
            pieces.push(current);
            current = Vec::new();
        } else {
            current.push(b);
        }
        i = i + 1;
    }
    assert(s@.take(i as int) =~= s@);
    pieces.push(current);
    pieces
}

/// Reads a number from `token`.
pub fn parse_number(token: &Vec<u8>) -> (value: Option<u64>)
    ensures
        value == parse_u64(token@),
{
    let t = strip_end(&strip_start(token, Strip::Whitespace), Strip::Whitespace);
    let start: usize = if t.len() > 0 && t[0] == 43 {
        1
    } else {
        0
    };
    let ghost d = digits_of(token@);
    assert(d =~= t@.skip(start as int));
    if start == t.len() {
        return None;
    }
    let mut acc: u64 = 0;
    let mut i: usize = start;
    assert(d.take(0) =~= Seq::<u8>::empty());
    while i < t.len()
        invariant
            start <= i <= t@.len(),
            start < t@.len(),
            d == digits_of(token@),
            d == t@.skip(start as int),
            all_digits(d.take(i - start)),
            acc == decimal_value(d.take(i - start)),
        decreases t@.len() - i,
    {
        let b: u8 = t[i];
        if b < 48 || b > 57 {
            assert(d[i - start] == b);
            assert(!all_digits(d));
            return None;
        }
        let digit: u64 = (b - 48) as u64;
        assert(d.take(i - start + 1).drop_last() =~= d.take(i - start));
        assert(d.take(i - start + 1).last() == b);
        assert(decimal_value(d.take(i - start + 1)) == 10 * acc + digit);
        assert forall|j: int| 0 <= j < i - start + 1 implies 48 <= #[trigger] d.take(
            i - start + 1,
        )[j] <= 57 by {
            if j < i - start {
                assert(d.take(i - start)[j] == d[j]);
            }
        }
        if acc > (u64::MAX - digit) / 10 {
            proof {
                lemma_decimal_value_grows(d, i - start + 1);
            }
            return None;
        }
        acc = acc * 10 + digit;
        i = i + 1;
    }
    assert(d.take(i - start) =~= d);
    Some(acc)
}

/// Reads the numbers of a row from `line`.
pub fn parse_line(line: &Vec<u8>) -> (row: Option<Vec<u64>>)
    ensures
        match row {
            Some(values) => parse_row(line@) == Some(values@),
            None => parse_row(line@) is None,
        },
{
    let body = strip_end(&strip_start(line, Strip::Byte(91)), Strip::Byte(93));
    let tokens = split_bytes(body.as_slice(), 44);
    let ghost spec_tokens = split(row_body(line@), 44);
    let mut values: Vec<u64> = Vec::new();
    let mut i: usize = 0;
    while i < tokens.len()
        invariant
            i <= tokens@.len(),
            tokens@.len() == spec_tokens.len(),
            spec_tokens == split(row_body(line@), 44),
            forall|j: int| 0 <= j < tokens@.len() ==> (#[trigger] tokens@[j])@ == spec_tokens[j],
            values@.len() == i,
            forall|j: int| 0 <= j < i ==> (#[trigger] parse_u64(spec_tokens[j])) == Some(values@[j]),
        decreases tokens@.len() - i,
    {
        match parse_number(&tokens[i]) {
            Some(value) => {
                values.push(value);
            },
            None => {
                assert(parse_u64(spec_tokens[i as int]) is None);
                return None;
            },
        }
        i = i + 1;
    }
    assert(values@ =~= Seq::new(spec_tokens.len(), |i: int| parse_u64(spec_tokens[i]).unwrap()));
    Some(values)
}

/// Reads the rows of `width` numbers from a text. Lines that are no such
/// row are passed over: blank lines, lines with another number of columns,
/// and lines with anything that is not a number.
pub fn parse_trace_text(text: &[u8], width: usize) -> (trace: TraceMatrix)
    ensures
        trace.wf(),
        trace.width == width,
        trace@ == parse_text(text@, width as nat),
{
    let pieces = split_bytes(text, 10);
    let ghost spec_pieces = split(text@, 10);
    let mut rows: Vec<Vec<u64>> = Vec::new();
    let mut i: usize = 0;
    while i < pieces.len()
        invariant
            i <= pieces@.len(),
            pieces@.len() == spec_pieces.len(),
            forall|j: int| 0 <= j < pieces@.len() ==> (#[trigger] pieces@[j])@ == spec_pieces[j],
            rows@.len() == rows_of_lines(spec_pieces, width as nat, i as nat).len(),
            forall|j: int|
                0 <= j < rows@.len() ==> (#[trigger] rows@[j])@ == rows_of_lines(
                    spec_pieces,
                    width as nat,
                    i as nat,
                )[j],
            forall|j: int| 0 <= j < rows@.len() ==> (#[trigger] rows@[j])@.len() == width,
        decreases pieces@.len() - i,
    {
        let piece = &pieces[i];
        let ends_in_cr: bool = i + 1 < pieces.len() && piece.len() > 0 && piece[piece.len() - 1] == 13;
        let line: Vec<u8> = if ends_in_cr {
            take_bytes(piece, piece.len() - 1)
        } else {
            take_bytes(piece, piece.len())
        };
        assert(line@ =~= line_at(spec_pieces, i as int));
        match parse_line(&line) {
            Some(values) => {
                if values.len() == width {
                    rows.push(values);
                }
            },
            None => {},
        }
        i = i + 1;
    }
    let trace = TraceMatrix { rows, width };
    assert(trace@ =~= parse_text(text@, width as nat));
    trace
}

/// Reads an increment trace of 73 columns from the text of a trace file
/// and prepares it for proving over Goldilocks, as `pad_increment_trace`
/// does: rows that count up are all kept, and the height is the next power
/// of two from their number on. The text must be short enough for the
/// padded height to fit in a machine word.
pub fn parse_trace(content: &str) -> (trace: TraceMatrix)
    requires
        content.spec_bytes().len() < usize::MAX / 2,
    ensures
        trace.wf(),
        trace.width == NUM_COLS,
        trace@ == padded_increment_trace(
            TraceField::Goldilocks.modulus(),
            parse_text(content.spec_bytes(), NUM_COLS as nat),
        ),
        IncrementAir::satisfied(
            TraceField::Goldilocks.modulus(),
            parse_text(content.spec_bytes(), NUM_COLS as nat),
        ) ==> {
            &&& parse_text(content.spec_bytes(), NUM_COLS as nat).len() >= 1 ==> trace@.len()
                == next_power_of_two_spec(parse_text(content.spec_bytes(), NUM_COLS as nat).len())
            &&& forall|i: int|
                0 <= i < parse_text(content.spec_bytes(), NUM_COLS as nat).len()
                    ==> #[trigger] trace@[i] == parse_text(content.spec_bytes(), NUM_COLS as nat)[i]
        },
{
    proof {
        lemma_padded_height_fits(
            TraceField::Goldilocks.modulus(),
            content.spec_bytes(),
            NUM_COLS as nat,
        );
    }
    let loaded = parse_trace_text(content.as_bytes(), NUM_COLS);
    pad_increment_trace(TraceField::Goldilocks, loaded)
}

} // verus!
