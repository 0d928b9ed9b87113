//! Character-level scanning over protocol lines: fixed tokens, digit runs,
//! decimal values, and line-terminator trimming.

use vstd::prelude::*;

verus! {

/// `p` occurs in `s` as the segment starting at index `i`.
pub open spec fn has_seq_at(s: Seq<char>, i: int, p: Seq<char>) -> bool {
    &&& 0 <= i
    &&& i + p.len() <= s.len()
    &&& s.subrange(i, i + p.len()) == p
}

/// A decimal digit.
pub open spec fn is_digit(c: char) -> bool {
    48 <= c as u32 && c as u32 <= 57
}

/// Every character of `s` in `[from, to)` is a decimal digit.
pub open spec fn all_digits_in(s: Seq<char>, from: int, to: int) -> bool {
    forall|k: int| from <= k < to ==> is_digit(#[trigger] s[k])
}

/// The value of `s` read as a decimal numeral, most significant digit first.
pub open spec fn digits_value(s: Seq<char>) -> int
    decreases s.len(),
{
    if s.len() == 0 {
        0
    } else {
        10 * digits_value(s.drop_last()) + (s.last() as u32 - 48)
    }
}

/// The first index at or after `i` that does not hold a digit (the length of
/// `s` when digits run to its end).
pub open spec fn digit_run_end(s: Seq<char>, i: int) -> int
    decreases s.len() - i when 0 <= i <= s.len()
{
    if i == s.len() {
        i
    } else if !is_digit(s[i]) {
        i
    } else {
        digit_run_end(s, i + 1)
    }
}

/// `s` without one trailing line terminator: a final `"\r\n"` or a final
/// `"\n"` is dropped, anything else is kept whole.
pub open spec fn trim_line_end(s: Seq<char>) -> Seq<char> {
    if s.len() >= 2 && s[s.len() - 2] == '\r' && s[s.len() - 1] == '\n' {
        s.subrange(0, s.len() - 2)
    } else if s.len() >= 1 && s[s.len() - 1] == '\n' {
        s.subrange(0, s.len() - 1)
    } else {
        s
    }
}

/// The character of the decimal digit `d`.
pub open spec fn digit_char(d: int) -> char {
    if d == 0 {
        '0'
    } else if d == 1 {
        '1'
    } else if d == 2 {
        '2'
    } else if d == 3 {
        '3'
    } else if d == 4 {
        '4'
    } else if d == 5 {
        '5'
    } else if d == 6 {
        '6'
    } else if d == 7 {
        '7'
    } else if d == 8 {
        '8'
    } else {
        '9'
    }
}

/// The decimal numeral of `v`, most significant digit first, without leading
/// zeros.
pub open spec fn decimal(v: int) -> Seq<char>
    decreases v when v >= 0
{
    if v < 10 {
        seq![digit_char(v)]
    } else {
        decimal(v / 10).push(digit_char(v % 10))
    }
}

/// A decimal numeral holds at least one character, all of them digits.
pub proof fn lemma_decimal_digits(v: int)
    requires
        v >= 0,
    ensures
        decimal(v).len() >= 1,
        all_digits_in(decimal(v), 0, decimal(v).len() as int),
    decreases v,
{
    if v < 10 {
        assert(is_digit(digit_char(v)));
    } else {
        let u = decimal(v / 10);
        let c = digit_char(v % 10);
        lemma_decimal_digits(v / 10);
        assert(decimal(v) == u.push(c));
        assert(is_digit(c));
        assert forall|q: int| 0 <= q < decimal(v).len() implies is_digit(decimal(v)[q]) by {
            if q < u.len() {
                assert(decimal(v)[q] == u[q]);
            } else {
                assert(decimal(v)[q] == c);
            }
        }
    }
}

/// Reading the decimal numeral of `v` back as a numeral gives `v`.
pub proof fn lemma_decimal_value(v: int)
    requires
        v >= 0,
    ensures
        digits_value(decimal(v)) == v,
    decreases v,
{
    if v < 10 {
        let s = seq![digit_char(v)];
        assert(decimal(v) == s);
        assert(s.drop_last() =~= Seq::<char>::empty());
        assert(digits_value(Seq::<char>::empty()) == 0);
        assert(s.last() == digit_char(v));
        assert(digits_value(s) == 10 * digits_value(s.drop_last()) + (s.last() as u32 - 48));
        assert(digit_char(v) as u32 - 48 == v);
    } else {
        lemma_decimal_value(v / 10);
        let u = decimal(v / 10);
        let c = digit_char(v % 10);
        assert(decimal(v) == u.push(c));
        assert(u.push(c).drop_last() =~= u);
        assert(u.push(c).last() == c);
        assert(digits_value(u.push(c)) == 10 * digits_value(u.push(c).drop_last()) + (u.push(
            c,
        ).last() as u32 - 48));
        assert(c as u32 - 48 == v % 10);
        assert(10 * (v / 10) + v % 10 == v) by (nonlinear_arith);
    }
}

/// Where digits fill exactly `[i, end)` and a non-digit follows, the digit
/// run from `i` ends at `end`.
pub proof fn lemma_digit_run_end_exact(s: Seq<char>, i: int, end: int)
    requires
        0 <= i <= end < s.len(),
        all_digits_in(s, i, end),
        !is_digit(s[end]),
    ensures
        digit_run_end(s, i) == end,
    decreases end - i,
{
    if i < end {
        assert(is_digit(s[i]));
        lemma_digit_run_end_exact(s, i + 1, end);
    }
}

/// A digit run never ends before it starts nor after the text does.
pub proof fn lemma_digit_run_end_bounds(s: Seq<char>, i: int)
    requires
        0 <= i <= s.len(),
    ensures
        i <= digit_run_end(s, i) <= s.len(),
        all_digits_in(s, i, digit_run_end(s, i)),
    decreases s.len() - i,
{
    if i < s.len() && is_digit(s[i]) {
        lemma_digit_run_end_bounds(s, i + 1);
    }
}

/// A numeral of digits has a value of at least zero.
pub proof fn lemma_digits_value_nonneg(s: Seq<char>)
    requires
        all_digits_in(s, 0, s.len() as int),
    ensures
        digits_value(s) >= 0,
    decreases s.len(),
{
    if s.len() > 0 {
        assert(all_digits_in(s.drop_last(), 0, s.drop_last().len() as int)) by {
            assert(forall|k: int|
                0 <= k < s.drop_last().len() ==> s.drop_last()[k] == #[trigger] s[k]);
        }
        lemma_digits_value_nonneg(s.drop_last());
    }
}

/// Extending a numeral one digit to the right multiplies its value by ten and
/// adds the new digit.
pub proof fn lemma_digits_value_snoc(s: Seq<char>, from: int, j: int)
    requires
        0 <= from <= j < s.len(),
    ensures
        digits_value(s.subrange(from, j + 1)) == 10 * digits_value(s.subrange(from, j)) + (
        s[j] as u32 - 48),
{
    let whole = s.subrange(from, j + 1);
    assert(whole.drop_last() =~= s.subrange(from, j));
    assert(whole.last() == s[j]);
}

/// The value of a numeral is no less than the value of any of its prefixes.
pub proof fn lemma_digits_value_prefix_le(s: Seq<char>, from: int, mid: int, to: int)
    requires
        0 <= from <= mid <= to <= s.len(),
        all_digits_in(s, from, to),
    ensures
        digits_value(s.subrange(from, mid)) <= digits_value(s.subrange(from, to)),
    decreases to - mid,
{
    if mid < to {
        let shorter = s.subrange(from, mid);
        assert(all_digits_in(shorter, 0, shorter.len() as int)) by {
            assert(forall|k: int|
                0 <= k < shorter.len() ==> shorter[k] == #[trigger] s[k + from]);
        }
        lemma_digits_value_nonneg(shorter);
        lemma_digits_value_snoc(s, from, mid);
        lemma_digits_value_prefix_le(s, from, mid + 1, to);
    }
}

/// Whether the fixed text `p` stands in `s` at character position `i`.
pub fn has_prefix_at(s: &str, i: usize, p: &str) -> (b: bool)
    ensures
        b == has_seq_at(s@, i as int, p@),
{
    let s_len: usize = s.unicode_len();
    let p_len: usize = p.unicode_len();
    if i > s_len || p_len > s_len - i {
        return false;
    }
    let mut j: usize = 0;
    while j < p_len
        invariant
            j <= p_len,
            i + p_len <= s_len,
            s_len == s@.len(),
            p_len == p@.len(),
            forall|k: int| 0 <= k < j ==> s@[i + k] == #[trigger] p@[k],
        decreases p_len - j,
    {
        if s.get_char(i + j) != p.get_char(j) {
            proof {
                if has_seq_at(s@, i as int, p@) {
                    assert(s@.subrange(i as int, i + p@.len())[j as int] == p@[j as int]);
                }
            }
            return false;
        }
        j += 1;
    }
    proof {
        assert(s@.subrange(i as int, i + p@.len()) =~= p@);
    }
    true
}

/// The end of the digit run that starts at character position `from`.
pub fn scan_digits(s: &str, from: usize) -> (end: usize)
    requires
        from <= s@.len(),
    ensures
        end == digit_run_end(s@, from as int),
        from <= end <= s@.len(),
{
    let s_len: usize = s.unicode_len();
    let mut j: usize = from;
    loop
        invariant
            from <= j <= s_len,
            s_len == s@.len(),
            digit_run_end(s@, from as int) == digit_run_end(s@, j as int),
        decreases s_len - j,
    {
        if j == s_len {
            return j;
        }
        let c: char = s.get_char(j);
        if !(48 <= c as u32 && c as u32 <= 57) {
            return j;
        }
        j += 1;
    }
}

/// The decimal value of the digits of `s` in `[from, to)`, or `None` where
/// that value does not fit in `usize`.
pub fn parse_usize(s: &str, from: usize, to: usize) -> (r: Option<usize>)
    requires
        from <= to <= s@.len(),
        all_digits_in(s@, from as int, to as int),
    ensures
        match r {
            Some(v) => v == digits_value(s@.subrange(from as int, to as int)),
            None => digits_value(s@.subrange(from as int, to as int)) > usize::MAX,
        },
{
    let mut acc: usize = 0;
    let mut j: usize = from;
    proof {
        assert(s@.subrange(from as int, from as int) =~= Seq::<char>::empty());
    }
    while j < to
        invariant
            from <= j <= to <= s@.len(),
            all_digits_in(s@, from as int, to as int),
            acc == digits_value(s@.subrange(from as int, j as int)),
        decreases to - j,
    {
        let c: char = s.get_char(j);
        assert(is_digit(s@[j as int]));
        let d: usize = (c as u32 - 48) as usize;
        proof {
            lemma_digits_value_snoc(s@, from as int, j as int);
        }
        if acc > (usize::MAX - d) / 10 {
            proof {
                assert(10 * acc + d > usize::MAX) by (nonlinear_arith)
                    requires
                        acc > (usize::MAX - d) / 10,
                        d <= 9,
                ;
                lemma_digits_value_prefix_le(s@, from as int, j + 1, to as int);
            }
            return None;
        }
        proof {
            assert(10 * acc + d <= usize::MAX) by (nonlinear_arith)
                requires
                    acc <= (usize::MAX - d) / 10,
                    d <= 9,
            ;
        }
        acc = acc * 10 + d;
        j += 1;
    }
    Some(acc)
}

} // verus!
