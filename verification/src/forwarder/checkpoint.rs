//! The checkpoint: a byte offset kept as decimal text on the first line of a
//! small file beside the tailed one.

use vstd::prelude::*;
use crate::forwarder::error::CastFailure;

verus! {

/// The byte that ends a line.
pub const NEWLINE: u8 = 0x0a;

/// The byte of the digit zero.
pub const ZERO: u8 = 0x30;

/// The byte of an explicit plus sign.
pub const PLUS: u8 = 0x2b;

/// White space: blank, tab, line feed, vertical tab, form feed, carriage return.
pub open spec fn is_space(b: u8) -> bool {
    b == 0x20 || (0x09 <= b && b <= 0x0d)
}

/// A decimal digit.
pub open spec fn is_digit(b: u8) -> bool {
    ZERO <= b && b <= 0x39
}

/// Every byte of `s` is a decimal digit.
pub open spec fn all_digits(s: Seq<u8>) -> bool {
    forall|i: int| 0 <= i < s.len() ==> is_digit(#[trigger] s[i])
}

/// The first index at or after `i` that holds a line feed, or the length.
pub open spec fn line_end_from(content: Seq<u8>, i: int) -> int
    decreases content.len() - i,
{
    if i >= content.len() || content[i] == NEWLINE {
        i
    } else {
        line_end_from(content, i + 1)
    }
}

/// The content up to its first line feed, without it.
pub open spec fn first_line(content: Seq<u8>) -> Seq<u8> {
    content.subrange(0, line_end_from(content, 0))
}

/// The first index at or after `i` that holds no white space, or the length.
pub open spec fn skip_spaces(s: Seq<u8>, i: int) -> int
    decreases s.len() - i,
{
    if i >= s.len() || !is_space(s[i]) {
        i
    } else {
        skip_spaces(s, i + 1)
    }
}

/// The least end at or above `lo` such that only white space lies between
/// it and `hi`.
pub open spec fn drop_spaces(s: Seq<u8>, lo: int, hi: int) -> int
    decreases hi - lo,
{
    if hi <= lo || hi > s.len() || !is_space(s[hi - 1]) {
        hi
    } else {
        drop_spaces(s, lo, hi - 1)
    }
}

/// `s` without the white space at its two ends.
pub open spec fn trimmed(s: Seq<u8>) -> Seq<u8> {
    let start = skip_spaces(s, 0);
    s.subrange(start, drop_spaces(s, start, s.len() as int))
}

/// `s` without one leading plus sign.
pub open spec fn unsigned_part(s: Seq<u8>) -> Seq<u8> {
    if s.len() > 0 && s[0] == PLUS {
        s.skip(1)
    } else {
        s
    }
}

/// The number that a run of decimal digits writes.
pub open spec fn decimal_value(digits: Seq<u8>) -> nat
    decreases digits.len(),
{
    if digits.len() == 0 {
        0
    } else {
        decimal_value(digits.drop_last()) * 10 + (digits.last() - ZERO) as nat
    }
}

/// The decimal digits of `n`, most significant first, without leading zeros.
pub open spec fn digits_of(n: nat) -> Seq<u8>
    decreases n,
{
    if n < 10 {
        seq![(ZERO + n) as u8]
    } else {
        digits_of(n / 10).push((ZERO + n % 10) as u8)
    }
}

/// The content of a checkpoint file for `offset`: its digits and a line feed.
pub open spec fn encode_spec(offset: u64) -> Seq<u8> {
    digits_of(offset as nat).push(NEWLINE)
}

/// The offset that a checkpoint file holds. Only the first line counts; white
/// space around the number and one leading plus sign are allowed.
pub open spec fn decode_spec(content: Seq<u8>) -> Result<u64, CastFailure> {
    let text = trimmed(first_line(content));
    let digits = unsigned_part(text);
    if text.len() == 0 {
        Err(CastFailure::Empty)
    } else if digits.len() == 0 || !all_digits(digits) {
        Err(CastFailure::InvalidDigit)
    } else if decimal_value(digits) > u64::MAX {
        Err(CastFailure::PosOverflow)
    } else {
        Ok(decimal_value(digits) as u64)
    }
}

proof fn lemma_line_end_bounds(content: Seq<u8>, i: int)
    requires
        0 <= i <= content.len(),
    ensures
        i <= line_end_from(content, i) <= content.len(),
        forall|k: int| i <= k < line_end_from(content, i) ==> content[k] != NEWLINE,
        line_end_from(content, i) < content.len() ==> content[line_end_from(content, i)]
            == NEWLINE,
    decreases content.len() - i,
{
    if i < content.len() && content[i] != NEWLINE {
        lemma_line_end_bounds(content, i + 1);
    }
}

/// A longer run of digits writes a number that is no smaller.
proof fn lemma_decimal_value_grows(digits: Seq<u8>, i: int)
    requires
        all_digits(digits),
        0 <= i <= digits.len(),
    ensures
        decimal_value(digits.subrange(0, i)) <= decimal_value(digits),
    decreases digits.len() - i,
{
    if i == digits.len() {
        assert(digits.subrange(0, i) == digits);
    } else {
        let longer = digits.subrange(0, i + 1);
        assert(longer.drop_last() == digits.subrange(0, i));
        assert(is_digit(longer.last()));
        lemma_decimal_value_grows(digits, i + 1);
    }
}

/// The digits of a number are digits, at least one of them, and write that number.
pub proof fn lemma_digits_of(n: nat)
    ensures
        digits_of(n).len() >= 1,
        all_digits(digits_of(n)),
        decimal_value(digits_of(n)) == n,
    decreases n,
{
    if n < 10 {
        let d = digits_of(n);
        assert(d.drop_last() == Seq::<u8>::empty());
        assert(decimal_value(d.drop_last()) == 0);
    } else {
        lemma_digits_of(n / 10);
        let d = digits_of(n);
        assert(d.drop_last() == digits_of(n / 10));
        assert(d.last() == (ZERO + n % 10) as u8);
        assert forall|i: int| 0 <= i < d.len() implies is_digit(#[trigger] d[i]) by {
            if i < d.len() - 1 {
                assert(d[i] == digits_of(n / 10)[i]);
            }
        }
    }
}

/// Reading back what was written gives the offset that was written.
pub proof fn lemma_decode_encode(offset: u64)
    ensures
        decode_spec(encode_spec(offset)) == Ok::<u64, CastFailure>(offset),
{
    let digits = digits_of(offset as nat);
    let content = encode_spec(offset);
    lemma_digits_of(offset as nat);
    let n = digits.len() as int;
    assert(content.len() == n + 1);
    assert(content[n] == NEWLINE);
    assert forall|k: int| 0 <= k < n implies content[k] != NEWLINE by {
        assert(content[k] == digits[k]);
        assert(is_digit(digits[k]));
    }
    lemma_line_reaches(content, 0, n);
    assert(first_line(content) == digits);
    assert(is_digit(digits[0]));
    assert(is_digit(digits[n - 1]));
    assert(skip_spaces(digits, 0) == 0);
    assert(drop_spaces(digits, 0, n) == n);
    assert(digits.subrange(0, n) == digits);
    assert(trimmed(digits) == digits);
    assert(unsigned_part(digits) == digits);
}

/// A line ends at the first line feed.
proof fn lemma_line_reaches(content: Seq<u8>, i: int, end: int)
    requires
        0 <= i <= end <= content.len(),
        forall|k: int| i <= k < end ==> content[k] != NEWLINE,
        end == content.len() || content[end] == NEWLINE,
    ensures
        line_end_from(content, i) == end,
    decreases end - i,
{
    if i < end {
        lemma_line_reaches(content, i + 1, end);
    }
}

/// What follows the first line does not matter.
pub proof fn lemma_decode_ignores_rest(line: Seq<u8>, rest: Seq<u8>)
    requires
        forall|k: int| 0 <= k < line.len() ==> line[k] != NEWLINE,
    ensures
        decode_spec(line.push(NEWLINE) + rest) == decode_spec(line),
{
    let content = line.push(NEWLINE) + rest;
    let n = line.len() as int;
    assert(content[n] == NEWLINE);
    assert forall|k: int| 0 <= k < n implies content[k] != NEWLINE by {
        assert(content[k] == line[k]);
    }
    lemma_line_reaches(content, 0, n);
    lemma_line_reaches(line, 0, n);
    assert(first_line(content) == line);
    assert(first_line(line) == line);
}

/// Writes `offset` as the content of a checkpoint file.
pub fn encode(offset: u64) -> (content: Vec<u8>)
    ensures
        content@ == encode_spec(offset),
{
    let mut reversed: Vec<u8> = Vec::new();
    let mut rest: u64 = offset;
    // Least significant digit first.
    while rest >= 10
        invariant
            digits_of(offset as nat) == digits_of(rest as nat) + reversed@.reverse(),
        decreases rest,
    {
        let digit: u8 = ZERO + (rest % 10) as u8;
        proof {
            let shorter = digits_of((rest / 10) as nat);
            assert(digits_of(rest as nat) == shorter.push(digit));
            assert(reversed@.push(digit).reverse() == seq![digit] + reversed@.reverse());
            assert(shorter.push(digit) + reversed@.reverse() == shorter + (seq![digit]
                + reversed@.reverse()));
        }
        reversed.push(digit);
        rest = rest / 10;
    }
    let mut content: Vec<u8> = Vec::new();
    content.push(ZERO + rest as u8);
    assert(content@ == digits_of(rest as nat));
    let mut left: usize = reversed.len();
    while left > 0
        invariant
            left <= reversed.len(),
            content@ + reversed@.subrange(0, left as int).reverse() == digits_of(offset as nat),
        decreases left,
    {
        proof {
            let head = reversed@.subrange(0, left as int);
            let shorter = reversed@.subrange(0, left - 1);
            let digit = reversed@[left - 1];
            assert(head == shorter.push(digit));
            assert(head.reverse() == seq![digit] + shorter.reverse());
            assert(content@.push(digit) + shorter.reverse() == content@ + (seq![digit]
                + shorter.reverse()));
        }
        left = left - 1;
        content.push(reversed[left]);
    }
    assert(reversed@.subrange(0, 0).reverse() == Seq::<u8>::empty());
    assert(content@ + Seq::<u8>::empty() == content@);
    content.push(NEWLINE);
    content
}

/// Reads the offset that a checkpoint file holds.
pub fn decode(content: &[u8]) -> (r: Result<u64, CastFailure>)
    ensures
        r == decode_spec(content@),
{
    let ghost line = first_line(content@);
    let mut end: usize = 0;
    while end < content.len() && content[end] != NEWLINE
        invariant
            end <= content.len(),
            line_end_from(content@, 0) == line_end_from(content@, end as int),
        decreases content.len() - end,
    {
        end = end + 1;
    }
    proof {
        lemma_line_end_bounds(content@, 0);
    }
    assert(line.len() == end);
    assert(forall|k: int| 0 <= k < end ==> line[k] == content@[k]);

    let mut start: usize = 0;
    while start < end && space(content[start])
        invariant
            start <= end <= content.len(),
            line.len() == end,
            forall|k: int| 0 <= k < end ==> line[k] == content@[k],
            skip_spaces(line, 0) == skip_spaces(line, start as int),
        decreases end - start,
    {
        start = start + 1;
    }
    let mut stop: usize = end;
    while stop > start && space(content[stop - 1])
        invariant
            start <= stop <= end <= content.len(),
            line.len() == end,
            forall|k: int| 0 <= k < end ==> line[k] == content@[k],
            drop_spaces(line, start as int, end as int) == drop_spaces(
                line,
                start as int,
                stop as int,
            ),
        decreases stop - start,
    {
        stop = stop - 1;
    }
    let ghost text = trimmed(line);
    assert(text == line.subrange(start as int, stop as int));
    if start == stop {
        return Err(CastFailure::Empty);
    }
    let first: usize = if content[start] == PLUS {
        start + 1
    } else {
        start
    };
    let ghost digits = unsigned_part(text);
    assert(digits == line.subrange(first as int, stop as int));
    if first == stop {
        return Err(CastFailure::InvalidDigit);
    }
    let mut at: usize = first;
    while at < stop
        invariant
            first <= at <= stop <= end <= content.len(),
            digits == line.subrange(first as int, stop as int),
            forall|k: int| 0 <= k < end ==> line[k] == content@[k],
            line.len() == end,
            line == first_line(content@),
            text == trimmed(line),
            text.len() > 0,
            digits == unsigned_part(text),
            all_digits(digits.subrange(0, at - first)),
        decreases stop - at,
    {
        if !digit(content[at]) {
            assert(!is_digit(digits[at - first]));
            return Err(CastFailure::InvalidDigit);
        }
        assert forall|k: int| 0 <= k < at + 1 - first implies is_digit(
            #[trigger] digits.subrange(0, at + 1 - first)[k],
        ) by {
            if k < at - first {
                assert(digits.subrange(0, at - first)[k] == digits[k]);
            }
        }
        at = at + 1;
    }
    assert(digits.subrange(0, stop - first) == digits);
    let mut value: u64 = 0;
    at = first;
    while at < stop
        invariant
            first <= at <= stop <= end <= content.len(),
            digits == line.subrange(first as int, stop as int),
            forall|k: int| 0 <= k < end ==> line[k] == content@[k],
            line.len() == end,
            line == first_line(content@),
            text == trimmed(line),
            text.len() > 0,
            digits == unsigned_part(text),
            all_digits(digits),
            value == decimal_value(digits.subrange(0, at - first)),
        decreases stop - at,
    {
        assert(is_digit(digits[at - first]));
        let unit: u64 = (content[at] - ZERO) as u64;
        proof {
            let longer = digits.subrange(0, at + 1 - first);
            assert(longer.drop_last() == digits.subrange(0, at - first));
            assert(longer.last() == content@[at as int]);
            assert(is_digit(digits[at - first]));
            assert(decimal_value(longer) == value * 10 + unit);
            lemma_decimal_value_grows(digits, at + 1 - first);
        }
        if value > (u64::MAX - unit) / 10 {
            return Err(CastFailure::PosOverflow);
        }
        value = value * 10 + unit;
        at = at + 1;
    }
    assert(digits.subrange(0, stop - first) == digits);
    Ok(value)
}

/// Whether `b` is white space.
pub fn space(b: u8) -> (r: bool)
    ensures
        r == is_space(b),
{
    b == 0x20 || (0x09 <= b && b <= 0x0d)
}

/// Whether `b` is a decimal digit.
pub fn digit(b: u8) -> (r: bool)
    ensures
        r == is_digit(b),
{
    ZERO <= b && b <= 0x39
}

} // verus!
