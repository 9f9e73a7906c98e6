//! Character-level text helpers shared by the formatting and parsing code.

use vstd::prelude::*;

use crate::binary64::ten_pow;
use crate::decimal::{decimal, push_decimal, push_zero_padded, zero_padded};

verus! {

/// The characters of `s`, in order.
pub fn chars_of(s: &str) -> (v: Vec<char>)
    ensures
        v@ == s@,
{
    broadcast use vstd::string::axiom_spec_iter;

    let mut v: Vec<char> = Vec::new();
    for c in it: s.chars()
        invariant
            v@.len() == it.index(),
            forall|i: int| 0 <= i < v@.len() ==> v@[i] == it.seq()[i],
    {
        v.push(c);
    }
    assert(v@ =~= s@);
    v
}

/// Appends `c` with `String::push`. Trusted: the string's characters are
/// the old ones followed by `c`.
#[verifier::external_body]
fn push_char(s: &mut String, c: char)
    ensures
        final(s)@ == old(s)@.push(c),
{
    s.push(c);
}

/// A `String` holding exactly the characters of `v`.
pub fn string_from_chars(v: &Vec<char>) -> (s: String)
    ensures
        s@ == v@,
{
    let mut s = String::new();
    let mut i: usize = 0;
    while i < v.len()
        invariant
            i <= v@.len(),
            s@ == v@.take(i as int),
        decreases v.len() - i,
    {
        push_char(&mut s, v[i]);
        i = i + 1;
        assert(s@ =~= v@.take(i as int));
    }
    assert(v@.take(v@.len() as int) =~= v@);
    s
}

/// Appends all characters of `s` to `out`.
pub fn push_str_chars(out: &mut Vec<char>, s: &str)
    ensures
        final(out)@ == old(out)@ + s@,
{
    let v = chars_of(s);
    push_all(out, &v);
}

/// Appends all elements of `v` to `out`.
pub fn push_all(out: &mut Vec<char>, v: &Vec<char>)
    ensures
        final(out)@ == old(out)@ + v@,
{
    let ghost before = out@;
    let mut i: usize = 0;
    while i < v.len()
        invariant
            i <= v@.len(),
            out@ == before + v@.subrange(0, i as int),
        decreases v.len() - i,
    {
        out.push(v[i]);
        i = i + 1;
        assert(out@ =~= before + v@.subrange(0, i as int));
    }
    assert(v@.subrange(0, v@.len() as int) =~= v@);
}

/// Whether two strings hold the same characters.
pub fn str_equals(a: &str, b: &str) -> (r: bool)
    ensures
        r == (a@ == b@),
{
    let va = chars_of(a);
    let vb = chars_of(b);
    let r = range_equals(&va, 0, va.len(), &vb);
    assert(va@.subrange(0, va@.len() as int) =~= va@);
    r
}

/// A copy of `v[lo..hi]`.
pub fn copy_range(v: &Vec<char>, lo: usize, hi: usize) -> (r: Vec<char>)
    requires
        lo <= hi <= v@.len(),
    ensures
        r@ == v@.subrange(lo as int, hi as int),
{
    let mut r: Vec<char> = Vec::new();
    let mut i: usize = lo;
    while i < hi
        invariant
            lo <= i <= hi <= v@.len(),
            r@ == v@.subrange(lo as int, i as int),
        decreases hi - i,
    {
        r.push(v[i]);
        i = i + 1;
        assert(r@ =~= v@.subrange(lo as int, i as int));
    }
    r
}

/// Whether `v[lo..hi]` equals `pat`.
pub fn range_equals(v: &Vec<char>, lo: usize, hi: usize, pat: &Vec<char>) -> (b: bool)
    requires
        lo <= hi <= v@.len(),
    ensures
        b == (v@.subrange(lo as int, hi as int) == pat@),
{
    if hi - lo != pat.len() {
        return false;
    }
    let mut i: usize = 0;
    while i < pat.len()
        invariant
            hi - lo == pat@.len(),
            lo <= hi <= v@.len(),
            i <= pat@.len(),
            forall|j: int| 0 <= j < i ==> v@[lo + j] == pat@[j],
        decreases pat.len() - i,
    {
        if v[lo + i] != pat[i] {
            assert(v@.subrange(lo as int, hi as int)[i as int] != pat@[i as int]);
            return false;
        }
        i = i + 1;
    }
    assert(v@.subrange(lo as int, hi as int) =~= pat@);
    true
}

/// First index `>= i` at which `pat` occurs in `s`.
pub open spec fn find_from(s: Seq<char>, pat: Seq<char>, i: nat) -> Option<nat>
    decreases s.len() + 1 - i,
{
    if i + pat.len() > s.len() {
        None
    } else if s.subrange(i as int, (i + pat.len()) as int) == pat {
        Some(i)
    } else {
        find_from(s, pat, i + 1)
    }
}

/// `s.contains(pat)`.
pub open spec fn contains(s: Seq<char>, pat: Seq<char>) -> bool {
    find_from(s, pat, 0) is Some
}

/// `s.split(pat).nth(1)` for a non-empty `pat`: the text between the first
/// occurrence of `pat` and the next one (or the end of `s`).
pub open spec fn second_segment(s: Seq<char>, pat: Seq<char>) -> Option<Seq<char>> {
    match find_from(s, pat, 0) {
        None => None,
        Some(i) => {
            let start = i + pat.len();
            match find_from(s, pat, start) {
                None => Some(s.subrange(start as int, s.len() as int)),
                Some(j) => Some(s.subrange(start as int, j as int)),
            }
        },
    }
}

/// Exec counterpart of `find_from`.
pub fn find_from_exec(s: &Vec<char>, pat: &Vec<char>, i: usize) -> (r: Option<usize>)
    requires
        i <= s@.len(),
    ensures
        match r {
            None => find_from(s@, pat@, i as nat) is None,
            Some(j) => find_from(s@, pat@, i as nat) == Some(j as nat),
        },
        r matches Some(j) ==> i <= j && j + pat@.len() <= s@.len(),
{
    let mut j: usize = i;
    while j <= s.len()
        invariant
            i <= j,
            j <= s@.len() + 1,
            find_from(s@, pat@, i as nat) == find_from(s@, pat@, j as nat),
        decreases s@.len() + 1 - j,
    {
        if pat.len() > s.len() - j {
            return None;
        }
        if pat.len() == 0 {
            assert(s@.subrange(j as int, j as int) =~= pat@);
            return Some(j);
        }
        if range_equals(s, j, j + pat.len(), pat) {
            return Some(j);
        }
        j = j + 1;
    }
    None
}

/// Exec counterpart of `second_segment`, as a range of `s`.
pub fn second_segment_exec(s: &Vec<char>, pat: &Vec<char>) -> (r: Option<(usize, usize)>)
    ensures
        match r {
            None => second_segment(s@, pat@) is None,
            Some((lo, hi)) => lo <= hi <= s@.len() && second_segment(s@, pat@) == Some(
                s@.subrange(lo as int, hi as int),
            ),
        },
{
    let _len = s.len();
    let first = find_from_exec(s, pat, 0);
    match first {
        None => None,
        Some(i) => {
            assert(i + pat@.len() <= s@.len());
            let start = i + pat.len();
            match find_from_exec(s, pat, start) {
                None => Some((start, s.len())),
                Some(j) => {
                    proof {
                        lemma_find_from_at_least(s@, pat@, start as nat);
                    }
                    Some((start, j))
                },
            }
        },
    }
}

pub proof fn lemma_find_from_at_least(s: Seq<char>, pat: Seq<char>, i: nat)
    ensures
        find_from(s, pat, i) matches Some(j) ==> i <= j && j + pat.len() <= s.len(),
    decreases s.len() + 1 - i,
{
    if i + pat.len() > s.len() {
    } else if s.subrange(i as int, (i + pat.len()) as int) == pat {
    } else {
        lemma_find_from_at_least(s, pat, i + 1);
    }
}

/// Decimal text of `t / 10^p`, a point, and the `p` digits of `t % 10^p`:
/// how a value of `t` units of `10^-p` prints with `p` decimals.
pub open spec fn fixed_text(t: nat, p: nat) -> Seq<char> {
    decimal(t / ten_pow(p)) + seq!['.'] + zero_padded(decimal(t % ten_pow(p)), p)
}

/// Appends `fixed_text(t, p)`.
pub fn push_fixed(out: &mut Vec<char>, t: u64, p: u32)
    requires
        1 <= p <= 2,
    ensures
        final(out)@ == old(out)@ + fixed_text(t as nat, p as nat),
{
    let tp: u64 = if p == 1 { 10 } else { 100 };
    assert(tp as nat == ten_pow(p as nat)) by {
        assert(ten_pow(0) == 1);
        assert(ten_pow(1) == 10 * ten_pow(0));
        assert(ten_pow(2) == 10 * ten_pow(1));
    };
    push_decimal(out, t / tp);
    out.push('.');
    push_zero_padded(out, t % tp, p as usize);
    assert(final(out)@ =~= old(out)@ + fixed_text(t as nat, p as nat));
}

} // verus!
