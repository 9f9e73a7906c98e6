//! Decimal text: rendering unsigned integers, zero padding, and reading
//! integers with the grammar of Rust's `FromStr` for integer types.

use vstd::prelude::*;

verus! {

/// The ASCII digit for `d` (0..=9).
pub open spec fn digit_char(d: nat) -> char {
    if d == 0 { '0' }
    else if d == 1 { '1' }
    else if d == 2 { '2' }
    else if d == 3 { '3' }
    else if d == 4 { '4' }
    else if d == 5 { '5' }
    else if d == 6 { '6' }
    else if d == 7 { '7' }
    else if d == 8 { '8' }
    else { '9' }
}

/// Shortest decimal text of `n` (what `format!("{}", n)` gives).
pub open spec fn decimal(n: nat) -> Seq<char>
    decreases n,
{
    if n < 10 {
        seq![digit_char(n)]
    } else {
        decimal(n / 10).push(digit_char(n % 10))
    }
}

/// `count` copies of `'0'`.
pub open spec fn zeros(count: nat) -> Seq<char> {
    Seq::new(count, |i: int| '0')
}

/// `text` left-padded with zeros to at least `width` characters
/// (what the `{:0w}` format spec gives for a decimal text).
pub open spec fn zero_padded(text: Seq<char>, width: nat) -> Seq<char> {
    if text.len() >= width {
        text
    } else {
        zeros((width - text.len()) as nat) + text
    }
}

pub proof fn lemma_decimal_len(n: nat)
    ensures
        1 <= decimal(n).len(),
        n < 10 ==> decimal(n).len() == 1,
        n >= 10 ==> decimal(n).len() >= 2,
    decreases n,
{
    if n >= 10 {
        lemma_decimal_len(n / 10);
    }
}

/// Exec counterpart of `digit_char`.
pub fn digit_to_char(d: u64) -> (c: char)
    requires
        d < 10,
    ensures
        c == digit_char(d as nat),
{
    if d == 0 { '0' }
    else if d == 1 { '1' }
    else if d == 2 { '2' }
    else if d == 3 { '3' }
    else if d == 4 { '4' }
    else if d == 5 { '5' }
    else if d == 6 { '6' }
    else if d == 7 { '7' }
    else if d == 8 { '8' }
    else { '9' }
}

/// Appends the decimal text of `n` to `out`.
pub fn push_decimal(out: &mut Vec<char>, n: u64)
    ensures
        final(out)@ == old(out)@ + decimal(n as nat),
    decreases n,
{
    if n >= 10 {
        push_decimal(out, n / 10);
    }
    let c = digit_to_char(n % 10);
    out.push(c);
    proof {
        if n >= 10 {
            assert(decimal(n as nat) == decimal((n / 10) as nat).push(digit_char((n % 10) as nat)));
        }
    }
    assert(final(out)@ =~= old(out)@ + decimal(n as nat)) by {
        if n < 10 {
            assert(decimal(n as nat) == seq![digit_char(n as nat)]);
        }
    };
}

/// Appends the decimal text of `n`, left-padded with zeros to `width` characters.
pub fn push_zero_padded(out: &mut Vec<char>, n: u64, width: usize)
    ensures
        final(out)@ == old(out)@ + zero_padded(decimal(n as nat), width as nat),
{
    let mut digits: Vec<char> = Vec::new();
    push_decimal(&mut digits, n);
    assert(digits@ =~= decimal(n as nat));
    let len = digits.len();
    if len < width {
        let mut k: usize = 0;
        while k < width - len
            invariant
                len == digits@.len(),
                len < width,
                k <= width - len,
                out@ == old(out)@ + zeros(k as nat),
            decreases width - len - k,
        {
            out.push('0');
            k = k + 1;
            assert(out@ =~= old(out)@ + zeros(k as nat));
        }
    }
    let ghost before = out@;
    let mut j: usize = 0;
    while j < len
        invariant
            len == digits@.len(),
            j <= len,
            out@ == before + digits@.subrange(0, j as int),
        decreases len - j,
    {
        out.push(digits[j]);
        j = j + 1;
        assert(out@ =~= before + digits@.subrange(0, j as int));
    }
    assert(digits@.subrange(0, len as int) =~= digits@);
    assert(final(out)@ =~= old(out)@ + zero_padded(decimal(n as nat), width as nat));
}

// ---------------------------------------------------------------------------
// Reading integers

pub open spec fn is_ascii_digit(c: char) -> bool {
    '0' <= c && c <= '9'
}

pub open spec fn digit_value(c: char) -> nat {
    (c as int - '0' as int) as nat
}

pub open spec fn all_ascii_digits(s: Seq<char>) -> bool {
    forall|i: int| 0 <= i < s.len() ==> #[trigger] is_ascii_digit(s[i])
}

/// The number denoted by a run of decimal digits (0 for the empty run).
pub open spec fn digits_value(s: Seq<char>) -> nat
    decreases s.len(),
{
    if s.len() == 0 {
        0
    } else {
        digits_value(s.drop_last()) * 10 + digit_value(s.last())
    }
}

/// `s.parse::<T>()` for an integer type `T` with range `min..=max`:
/// an optional sign (`-` only where `min < 0`), then one or more ASCII digits,
/// and the value must lie in range.
pub open spec fn parse_integer(s: Seq<char>, min: int, max: int) -> Option<int> {
    if s.len() == 0 {
        None
    } else if (s[0] == '+' || s[0] == '-') && s.len() == 1 {
        None
    } else {
        let negative = s[0] == '-' && min < 0;
        let body = if s[0] == '+' || negative { s.drop_first() } else { s };
        if !all_ascii_digits(body) {
            None
        } else {
            let v: int = if negative { -(digits_value(body) as int) } else { digits_value(body) as int };
            if min <= v && v <= max { Some(v) } else { None }
        }
    }
}

pub proof fn lemma_digits_value_prefix_le(s: Seq<char>, i: int)
    requires
        0 <= i <= s.len(),
        all_ascii_digits(s),
    ensures
        digits_value(s.take(i)) <= digits_value(s),
    decreases s.len(),
{
    if i < s.len() {
        assert(s.drop_last().take(i) =~= s.take(i));
        assert(all_ascii_digits(s.drop_last()));
        lemma_digits_value_prefix_le(s.drop_last(), i);
    } else {
        assert(s.take(i) =~= s);
    }
}

/// Reads `s` with the integer grammar of `parse_integer` for the range
/// `-(neg_bound)..=pos_bound`, where `neg_bound` is 0 for unsigned types.
fn parse_bounded(s: &Vec<char>, neg_bound: u64, pos_bound: u64) -> (r: Option<(bool, u64)>)
    requires
        pos_bound >= 9,
        neg_bound == 0 || neg_bound >= 9,
    ensures
        ({
            let spec_r = parse_integer(s@, -(neg_bound as int), pos_bound as int);
            match r {
                None => spec_r is None,
                Some((neg, mag)) => spec_r == Some(if neg { -(mag as int) } else { mag as int })
                    && (neg ==> mag <= neg_bound) && (!neg ==> mag <= pos_bound),
            }
        }),
{
    let n = s.len();
    if n == 0 {
        return None;
    }
    if (s[0] == '+' || s[0] == '-') && n == 1 {
        return None;
    }
    let negative = s[0] == '-' && neg_bound > 0;
    let start: usize = if s[0] == '+' || negative { 1 } else { 0 };
    let bound: u64 = if negative { neg_bound } else { pos_bound };
    let ghost body = if s@[0] == '+' || negative { s@.drop_first() } else { s@ };
    assert(body =~= s@.subrange(start as int, n as int));
    let mut v: u64 = 0;
    let mut i: usize = start;
    while i < n
        invariant
            start <= i <= n,
            n == s@.len(),
            n > 0,
            !((s@[0] == '+' || s@[0] == '-') && n == 1),
            negative == (s@[0] == '-' && neg_bound > 0),
            body == (if s@[0] == '+' || negative { s@.drop_first() } else { s@ }),
            bound == (if negative { neg_bound } else { pos_bound }),
            bound >= 9,
            body == s@.subrange(start as int, n as int),
            v <= bound,
            all_ascii_digits(body.take(i - start)),
            v == digits_value(body.take(i - start)),
        decreases n - i,
    {
        let c = s[i];
        if !('0' <= c && c <= '9') {
            assert(!is_ascii_digit(body[i - start]));
            assert(!all_ascii_digits(body));
            return None;
        }
        let d: u64 = (c as u32 - '0' as u32) as u64;
        let ghost prefix = body.take(i - start);
        let ghost next = body.take(i - start + 1);
        assert(next.drop_last() =~= prefix);
        assert(next.last() == c);
        assert(all_ascii_digits(next));
        if v > (bound - d) / 10 {
            // The value of the digits read so far already exceeds the bound.
            proof {
                assert(digits_value(next) == v * 10 + d);
                assert(v * 10 + d > bound) by (nonlinear_arith)
                    requires
                        v > (bound - d) / 10,
                        d <= 9,
                        d <= bound,
                ;
                if all_ascii_digits(body) {
                    lemma_digits_value_prefix_le(body, i - start + 1);
                }
            }
            return None;
        }
        v = v * 10 + d;
        i = i + 1;
    }
    assert(body.take(n - start) =~= body);
    Some((negative, v))
}

/// `s.parse::<i32>()`.
pub fn parse_i32(s: &Vec<char>) -> (r: Option<i32>)
    ensures
        r matches Some(v) ==> parse_integer(s@, i32::MIN as int, i32::MAX as int) == Some(v as int),
        r is None ==> parse_integer(s@, i32::MIN as int, i32::MAX as int) is None,
{
    match parse_bounded(s, 0x8000_0000, 0x7fff_ffff) {
        None => None,
        Some((neg, mag)) => {
            if neg {
                if mag == 0x8000_0000 {
                    Some(i32::MIN)
                } else {
                    Some(-(mag as i32))
                }
            } else {
                Some(mag as i32)
            }
        }
    }
}

/// `s.parse::<i64>()`.
pub fn parse_i64(s: &Vec<char>) -> (r: Option<i64>)
    ensures
        r matches Some(v) ==> parse_integer(s@, i64::MIN as int, i64::MAX as int) == Some(v as int),
        r is None ==> parse_integer(s@, i64::MIN as int, i64::MAX as int) is None,
{
    match parse_bounded(s, 0x8000_0000_0000_0000, 0x7fff_ffff_ffff_ffff) {
        None => None,
        Some((neg, mag)) => {
            if neg {
                if mag == 0x8000_0000_0000_0000 {
                    Some(i64::MIN)
                } else {
                    Some(-(mag as i64))
                }
            } else {
                Some(mag as i64)
            }
        }
    }
}

/// `s.parse::<u64>()`.
pub fn parse_u64(s: &Vec<char>) -> (r: Option<u64>)
    ensures
        r matches Some(v) ==> parse_integer(s@, 0, u64::MAX as int) == Some(v as int),
        r is None ==> parse_integer(s@, 0, u64::MAX as int) is None,
{
    match parse_bounded(s, 0, u64::MAX) {
        None => None,
        Some((_, mag)) => Some(mag),
    }
}

// ---------------------------------------------------------------------------
// Writing then reading

proof fn lemma_digit_char_value(d: nat)
    requires
        d < 10,
    ensures
        is_ascii_digit(digit_char(d)),
        digit_value(digit_char(d)) == d,
{
}

proof fn lemma_decimal_digits(n: nat)
    ensures
        all_ascii_digits(decimal(n)),
        digits_value(decimal(n)) == n,
    decreases n,
{
    if n < 10 {
        lemma_digit_char_value(n);
        let s = decimal(n);
        assert(s.drop_last().len() == 0);
        assert(digits_value(s.drop_last()) == 0);
        assert(s.last() == digit_char(n));
        assert(digits_value(s) == digits_value(s.drop_last()) * 10 + digit_value(s.last()));
    } else {
        lemma_decimal_digits(n / 10);
        lemma_digit_char_value(n % 10);
        let s = decimal(n);
        assert(s.drop_last() =~= decimal(n / 10));
        assert(s.last() == digit_char(n % 10));
        assert(digits_value(s) == digits_value(s.drop_last()) * 10 + digit_value(s.last()));
        assert((n / 10) * 10 + n % 10 == n);
        assert forall|i: int| 0 <= i < s.len() implies #[trigger] is_ascii_digit(s[i]) by {
            if i < s.len() - 1 {
                assert(s[i] == decimal(n / 10)[i]);
            }
        };
    }
}

proof fn lemma_zeros_prefix(k: nat, s: Seq<char>)
    ensures
        digits_value(zeros(k) + s) == digits_value(s),
        all_ascii_digits(s) ==> all_ascii_digits(zeros(k) + s),
    decreases s.len() + k,
{
    if s.len() > 0 {
        lemma_zeros_prefix(k, s.drop_last());
        assert((zeros(k) + s).drop_last() =~= zeros(k) + s.drop_last());
        assert((zeros(k) + s).last() == s.last());
    } else if k > 0 {
        lemma_zeros_prefix((k - 1) as nat, s);
        assert((zeros(k) + s).drop_last() =~= zeros((k - 1) as nat) + s);
        assert((zeros(k) + s).last() == '0');
    } else {
        assert(zeros(k) + s =~= s);
    }
    if all_ascii_digits(s) {
        assert forall|i: int| 0 <= i < (zeros(k) + s).len() implies #[trigger] is_ascii_digit((zeros(k) + s)[i]) by {
            if i >= k {
                assert((zeros(k) + s)[i] == s[i - k]);
            }
        };
    }
}

/// Written numbers read back: the decimal text of `n`, zero-padded to any
/// width, parses as `n` for every integer type whose range holds `n`.
pub proof fn law_decimal_reads_back(n: nat, width: nat, min: int, max: int)
    requires
        min <= 0,
        n <= max,
    ensures
        parse_integer(decimal(n), min, max) == Some(n as int),
        parse_integer(zero_padded(decimal(n), width), min, max) == Some(n as int),
{
    lemma_decimal_digits(n);
    lemma_decimal_len(n);
    let s = decimal(n);
    assert(is_ascii_digit(s[0]));
    let p = zero_padded(s, width);
    if s.len() < width {
        lemma_zeros_prefix((width - s.len()) as nat, s);
        assert(p[0] == '0');
    }
    assert(is_ascii_digit(p[0]));
}

/// Distinct numbers have distinct zero-padded decimal texts.
pub proof fn law_zero_padded_injective(a: nat, b: nat, width: nat)
    requires
        zero_padded(decimal(a), width) == zero_padded(decimal(b), width),
    ensures
        a == b,
{
    law_decimal_reads_back(a, width, 0, (a + b) as int);
    law_decimal_reads_back(b, width, 0, (a + b) as int);
}

} // verus!
