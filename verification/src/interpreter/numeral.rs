//! How a number is written: the shortest decimal numeral that reads back
//! as the same number, in plain notation.
//!
//! The digits come from the exact decimal expansion of the number. For
//! one, two, three digits and so on, two numerals are tried: the
//! expansion cut off behind that many digits, and the next numeral of as
//! many digits above it. The first length at which one of the two reads
//! back as the number decides; where both do, the one nearer to the
//! number is written, the upper one in a tie.

use vstd::prelude::*;
use vstd::string::StringExecFns;

use crate::interpreter::number::is_nan;
use crate::interpreter::number::is_negative;
use crate::interpreter::number::magnitude;
use crate::interpreter::number::number_value;
use crate::interpreter::number::number_scientific;
use crate::interpreter::number::Number;
use crate::interpreter::number::EXACT_DIGITS;
use crate::interpreter::number::INFINITY_BITS;
use crate::interpreter::number::MAX_DIGITS;
use crate::interpreter::scanner::lexicon::digits_len;
use crate::interpreter::scanner::lexicon::is_digit;
use crate::interpreter::text::chars_of;
use crate::interpreter::text::decimal;
use crate::interpreter::text::push_decimal;
use crate::interpreter::text::string_of;

verus! {

/// The value of a run of decimal digits.
pub open spec fn digits_value(s: Seq<char>) -> nat
    decreases s.len(),
{
    if s.len() == 0 {
        0
    } else {
        (digits_value(s.drop_last()) * 10 + (s.last() as u32 - '0' as u32)) as nat
    }
}

/// `n` zeros.
pub open spec fn zeros(n: nat) -> Seq<char> {
    Seq::new(n, |i: int| '0')
}

/// The digits `digits`, of which the first has the weight `10^e`, in
/// plain notation.
pub open spec fn placed(digits: Seq<char>, negative_exponent: bool, e: nat) -> Seq<char> {
    if negative_exponent && e > 0 {
        seq!['0', '.'] + zeros((e - 1) as nat) + digits
    } else if e >= digits.len() - 1 {
        digits + zeros((e - (digits.len() - 1)) as nat)
    } else {
        digits.subrange(0, (e + 1) as int) + seq!['.'] + digits.subrange(
            (e + 1) as int,
            digits.len() as int,
        )
    }
}

/// Whether `sci` has the shape `[-]d.d+E(+|-)d{1,3}`.
pub open spec fn is_scientific(sci: Seq<char>) -> bool {
    let start: int = if sci.len() > 0 && sci[0] == '-' {
        1
    } else {
        0
    };
    let frac_len = digits_len(sci, start + 2);
    let e_at = start + 2 + frac_len;
    let exp_len = digits_len(sci, e_at + 2);
    &&& start + 1 < sci.len()
    &&& is_digit(sci[start])
    &&& sci[start + 1] == '.'
    &&& frac_len >= 1
    &&& e_at + 1 < sci.len()
    &&& sci[e_at] == 'E'
    &&& (sci[e_at + 1] == '+' || sci[e_at + 1] == '-')
    &&& 1 <= exp_len <= 3
    &&& e_at + 2 + exp_len == sci.len()
}

/// The significant digits of a numeral in scientific notation: the digit
/// before the point and the digits behind it, unless those are a single
/// zero.
pub open spec fn significand(sci: Seq<char>) -> Seq<char> {
    let start: int = if sci[0] == '-' {
        1
    } else {
        0
    };
    let e_at = start + 2 + digits_len(sci, start + 2);
    let frac = sci.subrange(start + 2, e_at);
    if frac == seq!['0'] {
        seq![sci[start]]
    } else {
        seq![sci[start]] + frac
    }
}

/// The exponent of a numeral in scientific notation: the power of ten
/// that its first digit counts.
pub open spec fn exponent(sci: Seq<char>) -> int {
    let start: int = if sci[0] == '-' {
        1
    } else {
        0
    };
    let e_at = start + 2 + digits_len(sci, start + 2);
    let e = digits_value(sci.subrange(e_at + 2, sci.len() as int));
    if sci[e_at + 1] == '-' {
        -e
    } else {
        e as int
    }
}

/// Significant digits, of which the first counts `10^exponent`.
pub struct Candidate {
    pub digits: Seq<char>,
    pub exponent: int,
}

/// The digit behind `c`, and `0` behind `9`.
pub open spec fn successor(c: char) -> char {
    if c == '0' {
        '1'
    } else if c == '1' {
        '2'
    } else if c == '2' {
        '3'
    } else if c == '3' {
        '4'
    } else if c == '4' {
        '5'
    } else if c == '5' {
        '6'
    } else if c == '6' {
        '7'
    } else if c == '7' {
        '8'
    } else if c == '8' {
        '9'
    } else {
        '0'
    }
}

/// The digits without the zeros at their end; the first digit stays.
pub open spec fn trimmed(digits: Seq<char>) -> Seq<char>
    decreases digits.len(),
{
    if digits.len() > 1 && digits.last() == '0' {
        trimmed(digits.drop_last())
    } else {
        digits
    }
}

/// Whether every digit is a `9`.
pub open spec fn all_nines(digits: Seq<char>) -> bool {
    forall|k: int| 0 <= k < digits.len() ==> digits[k] == '9'
}

/// The digits of the number that is one unit of the last place above
/// `digits`, as many as there are in `digits`: the carry out of the first
/// place is left out.
pub open spec fn bumped(digits: Seq<char>) -> Seq<char>
    decreases digits.len(),
{
    if digits.len() == 0 {
        digits
    } else if digits.last() == '9' {
        bumped(digits.drop_last()).push('0')
    } else {
        digits.drop_last().push(successor(digits.last()))
    }
}

/// The expansion `exact * 10^e` cut off behind `n` digits.
pub open spec fn lower(exact: Seq<char>, e: int, n: int) -> Candidate {
    Candidate { digits: trimmed(exact.take(n)), exponent: e }
}

/// The numeral of `n` digits next above the expansion cut off behind `n`
/// digits.
pub open spec fn upper(exact: Seq<char>, e: int, n: int) -> Candidate {
    if all_nines(exact.take(n)) {
        Candidate { digits: seq!['1'], exponent: e + 1 }
    } else {
        Candidate { digits: trimmed(bumped(exact.take(n))), exponent: e }
    }
}

/// `-` for a negative number.
pub open spec fn sign(negative: bool) -> Seq<char> {
    if negative {
        seq!['-']
    } else {
        Seq::empty()
    }
}

/// An exponent with its sign.
pub open spec fn signed(x: int) -> Seq<char> {
    if x < 0 {
        seq!['-'] + decimal((-x) as nat)
    } else {
        seq!['+'] + decimal(x as nat)
    }
}

/// The candidate as a text that can be read back: its digits as a whole
/// number, and the power of ten that the last digit counts.
pub open spec fn numeral(negative: bool, c: Candidate) -> Seq<char> {
    sign(negative) + c.digits + seq!['E'] + signed(c.exponent - (c.digits.len() - 1))
}

/// Whether the candidate reads back as the double `bits`.
pub open spec fn denotes(negative: bool, c: Candidate, bits: u64) -> bool {
    number_value(numeral(negative, c)) == Some(bits)
}

/// The numeral that is written for the double `bits`, whose exact
/// expansion is `exact * 10^e`, from `n` digits on: at the first length
/// at which the expansion cut off or the numeral next above it reads back
/// as `bits`, the one of the two that does; where both do, the upper one
/// if the expansion goes on with a digit from 5 up, else the lower one.
/// An expansion of no more than `n` digits is written as it is. With 17
/// digits the search ends in any case.
pub open spec fn shortest(bits: u64, negative: bool, exact: Seq<char>, e: int, n: nat) -> Candidate
    decreases MAX_DIGITS - n,
{
    if n >= exact.len() {
        Candidate { digits: exact, exponent: e }
    } else {
        let low = lower(exact, e, n as int);
        let high = upper(exact, e, n as int);
        let down = denotes(negative, low, bits);
        let up = denotes(negative, high, bits);
        if down || up || n >= MAX_DIGITS {
            if (if down == up {
                exact[n as int] >= '5'
            } else {
                up
            }) {
                high
            } else {
                low
            }
        } else {
            shortest(bits, negative, exact, e, n + 1)
        }
    }
}

/// The candidate in plain notation, without an exponent.
pub open spec fn written(negative: bool, c: Candidate) -> Seq<char> {
    sign(negative) + placed(
        c.digits,
        c.exponent < 0,
        (if c.exponent < 0 {
            -c.exponent
        } else {
            c.exponent
        }) as nat,
    )
}

/// How a number is written: `NaN`, `inf`, `-inf`, `0`, `-0`, or the
/// shortest numeral that reads back as the number, without an exponent.
pub open spec fn number_text(bits: u64) -> Seq<char> {
    if is_nan(bits) {
        "NaN"@
    } else if magnitude(bits) == INFINITY_BITS {
        if is_negative(bits) {
            "-inf"@
        } else {
            "inf"@
        }
    } else if magnitude(bits) == 0 {
        if is_negative(bits) {
            "-0"@
        } else {
            "0"@
        }
    } else {
        let sci = number_scientific(bits, EXACT_DIGITS);
        if is_scientific(sci) {
            written(
                is_negative(bits),
                shortest(bits, is_negative(bits), significand(sci), exponent(sci), 1),
            )
        } else {
            sci
        }
    }
}

fn digit(c: char) -> (r: bool)
    ensures
        r == is_digit(c),
{
    '0' <= c && c <= '9'
}

/// The end of the run of digits that starts at `from`.
fn digits_end(s: &Vec<char>, from: usize) -> (r: usize)
    requires
        from <= s.len(),
    ensures
        r == from + digits_len(s@, from as int),
        r <= s.len(),
{
    let mut i: usize = from;
    while i < s.len() && digit(s[i])
        invariant
            from <= i <= s.len(),
            digits_len(s@, from as int) == (i - from) + digits_len(s@, i as int),
        decreases s.len() - i,
    {
        i += 1;
    }
    i
}

/// The value of the digits `s[from..to]`, of which there are at most 3.
fn value_of(s: &Vec<char>, from: usize, to: usize) -> (r: usize)
    requires
        from <= to <= s.len(),
        to - from <= 3,
        forall|k: int| from <= k < to ==> is_digit(#[trigger] s@[k]),
    ensures
        r == digits_value(s@.subrange(from as int, to as int)),
        r <= 999,
{
    let mut r: usize = 0;
    let mut i: usize = from;
    while i < to
        invariant
            from <= i <= to <= s.len(),
            to - from <= 3,
            forall|k: int| from <= k < to ==> is_digit(#[trigger] s@[k]),
            r == digits_value(s@.subrange(from as int, i as int)),
            i - from == 0 ==> r == 0,
            i - from == 1 ==> r <= 9,
            i - from == 2 ==> r <= 99,
            i - from == 3 ==> r <= 999,
        decreases to - i,
    {
        let c = s[i];
        assert(is_digit(s@[i as int]));
        let d = (c as u32 - '0' as u32) as usize;
        r = r * 10 + d;
        i += 1;
        assert(s@.subrange(from as int, i as int).drop_last() =~= s@.subrange(
            from as int,
            i - 1,
        ));
    }
    r
}

fn push_zeros(out: &mut Vec<char>, n: usize)
    ensures
        final(out)@ == old(out)@ + zeros(n as nat),
{
    let mut i: usize = 0;
    while i < n
        invariant
            i <= n,
            out@ == old(out)@ + zeros(i as nat),
        decreases n - i,
    {
        out.push('0');
        i += 1;
        assert(out@ =~= old(out)@ + zeros(i as nat));
    }
}

fn push_range(out: &mut Vec<char>, s: &Vec<char>, from: usize, to: usize)
    requires
        from <= to <= s.len(),
    ensures
        final(out)@ == old(out)@ + s@.subrange(from as int, to as int),
{
    let mut i: usize = from;
    while i < to
        invariant
            from <= i <= to <= s.len(),
            out@ == old(out)@ + s@.subrange(from as int, i as int),
        decreases to - i,
    {
        out.push(s[i]);
        i += 1;
        assert(out@ =~= old(out)@ + s@.subrange(from as int, i as int));
    }
}

/// Where the parts of a scientific numeral stand.
struct Shape {
    start: usize,
    e_at: usize,
}

/// Finds the parts of `sci` if it is a scientific numeral.
fn shape_of(sci: &Vec<char>) -> (r: Option<Shape>)
    ensures
        r is Some == is_scientific(sci@),
        r is Some ==> {
            let shape = r->0;
            &&& shape.start == (if sci@[0] == '-' {
                1int
            } else {
                0int
            })
            &&& shape.e_at == shape.start + 2 + digits_len(sci@, shape.start + 2)
            &&& shape.e_at + 2 < sci.len()
            &&& sci.len() - (shape.e_at + 2) <= 3
            &&& forall|k: int| shape.e_at + 2 <= k < sci.len() ==> is_digit(#[trigger] sci@[k])
        },
{
    let n = sci.len();
    let start: usize = if n > 0 && sci[0] == '-' {
        1
    } else {
        0
    };
    if !(n > 1 && start < n - 1 && digit(sci[start]) && sci[start + 1] == '.') {
        return None;
    }
    let e_at = digits_end(sci, start + 2);
    if !(e_at > start + 2 && e_at < n && n - e_at > 1 && sci[e_at] == 'E' && (sci[e_at + 1] == '+'
        || sci[e_at + 1] == '-')) {
        return None;
    }
    let end = digits_end(sci, e_at + 2);
    if !(end > e_at + 2 && end - (e_at + 2) <= 3 && end == n) {
        return None;
    }
    assert forall|k: int| e_at + 2 <= k < n implies is_digit(#[trigger] sci@[k]) by {
        lemma_digits_run(sci@, e_at + 2, k);
    }
    Some(Shape { start, e_at })
}

/// The significant digits of a scientific numeral: the digit before the
/// point and the digits behind it, unless those are a single zero.
fn significant(sci: &Vec<char>, start: usize, e_at: usize) -> (digits: Vec<char>)
    requires
        start + 2 < e_at <= sci.len(),
    ensures
        digits@ == (if sci@.subrange(start + 2, e_at as int) == seq!['0'] {
            seq![sci@[start as int]]
        } else {
            seq![sci@[start as int]] + sci@.subrange(start + 2, e_at as int)
        }),
        digits.len() >= 1,
{
    let mut digits: Vec<char> = Vec::new();
    digits.push(sci[start]);
    let ghost frac = sci@.subrange(start + 2, e_at as int);
    if !(e_at - (start + 2) == 1 && sci[start + 2] == '0') {
        push_range(&mut digits, sci, start + 2, e_at);
        assert(frac != seq!['0']) by {
            if frac.len() == 1 {
                assert(frac[0] == sci@[start + 2]);
            }
        }
        assert(digits@ =~= seq![sci@[start as int]] + frac);
    } else {
        assert(frac =~= seq!['0']);
        assert(digits@ =~= seq![sci@[start as int]]);
    }
    digits
}

/// Appends the digits, of which the first has the weight `10^e`, in
/// plain notation.
fn push_placed(out: &mut Vec<char>, digits: &Vec<char>, negative_exponent: bool, e: usize)
    requires
        digits.len() >= 1,
        e <= 1000,
    ensures
        final(out)@ == old(out)@ + placed(digits@, negative_exponent, e as nat),
{
    let count = digits.len();
    if negative_exponent && e > 0 {
        out.push('0');
        out.push('.');
        push_zeros(out, e - 1);
        push_range(out, digits, 0, count);
        assert(digits@.subrange(0, count as int) =~= digits@);
        assert(final(out)@ =~= old(out)@ + placed(digits@, negative_exponent, e as nat));
    } else if e >= count - 1 {
        push_range(out, digits, 0, count);
        push_zeros(out, e - (count - 1));
        assert(digits@.subrange(0, count as int) =~= digits@);
        assert(final(out)@ =~= old(out)@ + placed(digits@, negative_exponent, e as nat));
    } else {
        push_range(out, digits, 0, e + 1);
        out.push('.');
        push_range(out, digits, e + 1, count);
        assert(final(out)@ =~= old(out)@ + placed(digits@, negative_exponent, e as nat));
    }
}

/// Significant digits, of which the first counts `10^exponent`.
pub struct Digits {
    pub digits: Vec<char>,
    pub exponent: i64,
}

impl View for Digits {
    type V = Candidate;

    open spec fn view(&self) -> Candidate {
        Candidate { digits: self.digits@, exponent: self.exponent as int }
    }
}

fn next_digit(c: char) -> (r: char)
    ensures
        r == successor(c),
{
    if c == '0' {
        '1'
    } else if c == '1' {
        '2'
    } else if c == '2' {
        '3'
    } else if c == '3' {
        '4'
    } else if c == '4' {
        '5'
    } else if c == '5' {
        '6'
    } else if c == '6' {
        '7'
    } else if c == '7' {
        '8'
    } else if c == '8' {
        '9'
    } else {
        '0'
    }
}

/// Takes the zeros from the end of the digits; the first digit stays.
fn trim(digits: &mut Vec<char>)
    ensures
        final(digits)@ == trimmed(old(digits)@),
        old(digits).len() >= 1 ==> final(digits).len() >= 1,
        final(digits).len() <= old(digits).len(),
{
    while digits.len() > 1 && digits[digits.len() - 1] == '0'
        invariant
            trimmed(digits@) == trimmed(old(digits)@),
            old(digits).len() >= 1 ==> digits.len() >= 1,
            digits.len() <= old(digits).len(),
        decreases digits.len(),
    {
        let ghost before = digits@;
        digits.pop();
        assert(digits@ =~= before.drop_last());
    }
}

/// Adds one unit of the last place to the digits. Where every digit is a
/// `9` there is no room for the sum, and the result says so.
fn bump(digits: &mut Vec<char>) -> (carried: bool)
    ensures
        carried == all_nines(old(digits)@),
        !carried ==> final(digits)@ == bumped(old(digits)@),
        final(digits).len() == old(digits).len(),
{
    let ghost d = digits@;
    let len = digits.len();
    let mut i: usize = len;
    assert(d.take(len as int) =~= d);
    assert(d.take(len as int) + zeros(0) =~= d);
    assert(bumped(d.take(len as int)) + zeros(0) =~= bumped(d));
    while i > 0 && digits[i - 1] == '9'
        invariant
            i <= len,
            len == d.len(),
            digits.len() == len,
            digits@ == d.take(i as int) + zeros((len - i) as nat),
            forall|k: int| i <= k < len ==> d[k] == '9',
            bumped(d) == bumped(d.take(i as int)) + zeros((len - i) as nat),
        decreases i,
    {
        assert(d[i - 1] == '9') by {
            assert(digits@[i - 1] == d.take(i as int)[i - 1]);
        }
        digits.set(i - 1, '0');
        i -= 1;
        assert(d.take(i + 1).drop_last() =~= d.take(i as int));
        assert(digits@ =~= d.take(i as int) + zeros((len - i) as nat));
        assert(bumped(d.take(i as int)).push('0') + zeros((len - i - 1) as nat) =~= bumped(
            d.take(i as int),
        ) + zeros((len - i) as nat));
    }
    if i == 0 {
        true
    } else {
        assert(digits@[i - 1] == d.take(i as int)[i - 1]);
        let c = digits[i - 1];
        digits.set(i - 1, next_digit(c));
        assert(d.take(i as int).drop_last() =~= d.take(i - 1));
        assert(digits@ =~= d.take(i - 1).push(successor(d[i - 1])) + zeros((len - i) as nat));
        assert(d[i - 1] != '9');
        false
    }
}

/// The first `n` of the digits.
fn first(exact: &Vec<char>, n: usize) -> (r: Vec<char>)
    requires
        n <= exact.len(),
    ensures
        r@ == exact@.take(n as int),
{
    let mut out: Vec<char> = Vec::new();
    push_range(&mut out, exact, 0, n);
    assert(out@ =~= exact@.take(n as int));
    out
}

/// The expansion cut off behind `n` digits.
fn lower_of(exact: &Vec<char>, e: i64, n: usize) -> (r: Digits)
    requires
        1 <= n <= exact.len(),
    ensures
        r@ == lower(exact@, e as int, n as int),
        1 <= r.digits.len() <= n,
{
    let mut digits = first(exact, n);
    trim(&mut digits);
    Digits { digits, exponent: e }
}

/// The numeral of `n` digits next above the expansion cut off behind `n`
/// digits.
fn upper_of(exact: &Vec<char>, e: i64, n: usize) -> (r: Digits)
    requires
        1 <= n <= exact.len(),
        -1000 <= e <= 999,
    ensures
        r@ == upper(exact@, e as int, n as int),
        1 <= r.digits.len() <= n,
{
    let mut digits = first(exact, n);
    if bump(&mut digits) {
        let mut one: Vec<char> = Vec::new();
        one.push('1');
        assert(one@ =~= seq!['1']);
        Digits { digits: one, exponent: e + 1 }
    } else {
        trim(&mut digits);
        Digits { digits, exponent: e }
    }
}

/// The candidate as a text that can be read back.
fn numeral_of(negative: bool, c: &Digits) -> (r: String)
    requires
        c.digits.len() <= 1000,
        -1000 <= c.exponent <= 1000,
    ensures
        r@ == numeral(negative, c@),
{
    let mut out = String::new();
    if negative {
        out.push('-');
    }
    assert(out@ =~= sign(negative));
    let mut i: usize = 0;
    while i < c.digits.len()
        invariant
            i <= c.digits.len(),
            out@ == sign(negative) + c.digits@.take(i as int),
        decreases c.digits.len() - i,
    {
        out.push(c.digits[i]);
        i += 1;
        assert(out@ =~= sign(negative) + c.digits@.take(i as int));
    }
    assert(c.digits@.take(i as int) =~= c.digits@);
    out.push('E');
    let x: i64 = c.exponent - (c.digits.len() as i64 - 1);
    if x < 0 {
        out.push('-');
        push_decimal(&mut out, (-x) as u64);
    } else {
        out.push('+');
        push_decimal(&mut out, x as u64);
    }
    assert(out@ =~= numeral(negative, c@));
    out
}

/// Whether the candidate reads back as the double `bits`.
fn denotes_bits(negative: bool, c: &Digits, bits: u64) -> (r: bool)
    requires
        c.digits.len() <= 1000,
        -1000 <= c.exponent <= 1000,
    ensures
        r == denotes(negative, c@, bits),
{
    let text = numeral_of(negative, c);
    reads_back(&text, bits)
}

/// The numeral that is written for the double `bits`, whose exact
/// expansion is `exact * 10^e`.
pub fn shortest_of(bits: u64, negative: bool, exact: &Vec<char>, e: i64) -> (r: Digits)
    requires
        exact.len() >= 1,
        -999 <= e <= 999,
    ensures
        r@ == shortest(bits, negative, exact@, e as int, 1),
        r.digits.len() >= 1,
        -999 <= r.exponent <= 1000,
{
    let mut n: usize = 1;
    loop
        invariant
            1 <= n <= MAX_DIGITS,
            exact.len() >= 1,
            -999 <= e <= 999,
            shortest(bits, negative, exact@, e as int, 1) == shortest(
                bits,
                negative,
                exact@,
                e as int,
                n as nat,
            ),
        decreases MAX_DIGITS - n,
    {
        if n >= exact.len() {
            let digits = first(exact, exact.len());
            assert(digits@ =~= exact@);
            return Digits { digits, exponent: e };
        }
        let low = lower_of(exact, e, n);
        let high = upper_of(exact, e, n);
        let down = denotes_bits(negative, &low, bits);
        let up = denotes_bits(negative, &high, bits);
        if down || up || n >= MAX_DIGITS {
            let above = if down == up {
                exact[n] >= '5'
            } else {
                up
            };
            return if above {
                high
            } else {
                low
            };
        }
        n += 1;
    }
}

/// The candidate in plain notation, without an exponent.
pub fn write(negative: bool, c: &Digits) -> (r: String)
    requires
        c.digits.len() >= 1,
        -1000 <= c.exponent <= 1000,
    ensures
        r@ == written(negative, c@),
{
    let mut out: Vec<char> = Vec::new();
    if negative {
        out.push('-');
    }
    assert(out@ =~= sign(negative));
    if c.exponent < 0 {
        push_placed(&mut out, &c.digits, true, (-c.exponent) as usize);
    } else {
        push_placed(&mut out, &c.digits, false, c.exponent as usize);
    }
    string_of(&out, 0, out.len())
}

proof fn lemma_digits_run(s: Seq<char>, from: int, k: int)
    requires
        0 <= from <= k < from + digits_len(s, from),
    ensures
        is_digit(s[k]),
        k < s.len(),
    decreases k - from,
{
    if k > from {
        lemma_digits_run(s, from + 1, k);
    }
}

impl Number {
    /// The number as the language writes it.
    pub fn to_string(&self) -> (r: String)
        ensures
            r@ == number_text(self.bits()),
    {
        let bits = self.to_bits();
        let wide = bits & crate::interpreter::number::MAGNITUDE_BITS;
        let negative = (bits & crate::interpreter::number::SIGN_BIT) != 0;
        if self.is_nan() {
            return String::from_str("NaN");
        }
        if wide == INFINITY_BITS {
            return if negative {
                String::from_str("-inf")
            } else {
                String::from_str("inf")
            };
        }
        if wide == 0 {
            return if negative {
                String::from_str("-0")
            } else {
                String::from_str("0")
            };
        }
        let sci = self.scientific(EXACT_DIGITS);
        let chars = chars_of(sci.as_str());
        match shape_of(&chars) {
            None => sci,
            Some(shape) => {
                let magnitude = value_of(&chars, shape.e_at + 2, chars.len());
                let e: i64 = if chars[shape.e_at + 1] == '-' {
                    -(magnitude as i64)
                } else {
                    magnitude as i64
                };
                let exact = significant(&chars, shape.start, shape.e_at);
                let chosen = shortest_of(bits, negative, &exact, e);
                write(negative, &chosen)
            },
        }
    }
}

/// Whether the numeral `sci` denotes exactly the double `bits`.
fn reads_back(sci: &String, bits: u64) -> (r: bool)
    ensures
        r == (number_value(sci@) == Some(bits)),
{
    match Number::parse(sci.as_str()) {
        Some(value) => value.to_bits() == bits,
        None => false,
    }
}

} // verus!
