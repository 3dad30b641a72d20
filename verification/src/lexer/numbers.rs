//! Recognition of the number syntax that the lexer and the parser accept.
//!
//! A literal is a number when it is written as std's `f64` parser accepts
//! it; inside the lexer, a period belongs to a number when what precedes it
//! is written as std's `i64` parser accepts it. Both grammars are the ones
//! std documents; they are recognised here on characters.

use vstd::prelude::*;

verus! {

/// Whether `c` is an ASCII decimal digit.
pub open spec fn is_digit(c: char) -> bool {
    '0' <= c <= '9'
}

/// Whether every character of `s` is an ASCII decimal digit.
pub open spec fn all_digits(s: Seq<char>) -> bool {
    forall|i: int| 0 <= i < s.len() ==> is_digit(#[trigger] s[i])
}

/// Whether `c` is a sign.
pub open spec fn is_sign(c: char) -> bool {
    c == '+' || c == '-'
}

/// `s` without its leading sign, if it has one.
pub open spec fn unsigned_part(s: Seq<char>) -> Seq<char> {
    if s.len() > 0 && is_sign(s[0]) { s.drop_first() } else { s }
}

/// The lower-case of an ASCII letter; other characters are unchanged.
pub open spec fn ascii_lower(c: char) -> char {
    if 'A' <= c <= 'Z' { ((c as u32) + 32) as char } else { c }
}

/// Whether `s` equals `word` (lower-case ASCII), ignoring ASCII case.
pub open spec fn eq_ignore_case(s: Seq<char>, word: Seq<char>) -> bool {
    s.len() == word.len() && forall|i: int| 0 <= i < s.len() ==> ascii_lower(#[trigger] s[i]) == word[i]
}

/// The mantissa of a decimal number: digits with at most one period, and
/// at least one digit.
pub open spec fn mantissa_syntax(m: Seq<char>) -> bool {
    ||| m.len() > 0 && all_digits(m)
    ||| exists|k: int|
        0 <= k < m.len() && m[k] == '.' && m.len() >= 2 && all_digits(#[trigger] m.take(k))
            && all_digits(m.skip(k + 1))
}

/// The exponent of a decimal number, after the `e`: a sign, then digits.
pub open spec fn exponent_syntax(x: Seq<char>) -> bool {
    unsigned_part(x).len() > 0 && all_digits(unsigned_part(x))
}

/// Whether `c` starts an exponent.
pub open spec fn is_exp_mark(c: char) -> bool {
    c == 'e' || c == 'E'
}

/// A decimal number: a mantissa, then possibly an exponent.
pub open spec fn number_syntax(t: Seq<char>) -> bool {
    ||| mantissa_syntax(t)
    ||| exists|e: int|
        0 <= e < t.len() && is_exp_mark(t[e]) && mantissa_syntax(#[trigger] t.take(e))
            && exponent_syntax(t.skip(e + 1))
}

/// Whether std's `f64` parser accepts `s`: a sign, then `inf`, `infinity`,
/// `nan` (in any ASCII case) or a decimal number.
pub open spec fn float_syntax(s: Seq<char>) -> bool {
    let t = unsigned_part(s);
    ||| eq_ignore_case(t, "inf"@)
    ||| eq_ignore_case(t, "infinity"@)
    ||| eq_ignore_case(t, "nan"@)
    ||| number_syntax(t)
}

/// The value of a sequence of decimal digits.
pub open spec fn digits_value(s: Seq<char>) -> nat
    decreases s.len(),
{
    if s.len() == 0 {
        0
    } else {
        digits_value(s.drop_last()) * 10 + ((s.last() as u32) - ('0' as u32)) as nat
    }
}

/// Whether std's `i64` parser accepts `s`: a sign, then digits whose value
/// fits in an `i64`.
pub open spec fn i64_syntax(s: Seq<char>) -> bool {
    let t = unsigned_part(s);
    &&& t.len() > 0
    &&& all_digits(t)
    &&& if s.len() > 0 && s[0] == '-' {
        digits_value(t) <= 0x8000_0000_0000_0000
    } else {
        digits_value(t) <= 0x7fff_ffff_ffff_ffff
    }
}

fn is_digit_exec(c: char) -> (r: bool)
    ensures
        r == is_digit(c),
{
    '0' <= c && c <= '9'
}

/// Whether all the characters of `v[lo..hi]` are digits.
fn digits_between(v: &[char], lo: usize, hi: usize) -> (r: bool)
    requires
        lo <= hi <= v@.len(),
    ensures
        r == all_digits(v@.subrange(lo as int, hi as int)),
{
    let mut i = lo;
    while i < hi
        invariant
            lo <= i <= hi <= v@.len(),
            all_digits(v@.subrange(lo as int, i as int)),
        decreases hi - i,
    {
        if !is_digit_exec(v[i]) {
            assert(v@.subrange(lo as int, hi as int)[i - lo] == v@[i as int]);
            return false;
        }
        assert forall|j: int| 0 <= j < i + 1 - lo implies is_digit(#[trigger] v@.subrange(lo as int, i + 1)[j]) by {
            if j < i - lo {
                assert(v@.subrange(lo as int, i + 1)[j] == v@.subrange(lo as int, i as int)[j]);
            }
        }
        i = i + 1;
    }
    true
}

/// The character in lower case, for an ASCII letter.
fn ascii_lower_exec(c: char) -> (r: char)
    ensures
        r == ascii_lower(c),
{
    match c {
        'A' => 'a',
        'B' => 'b',
        'C' => 'c',
        'D' => 'd',
        'E' => 'e',
        'F' => 'f',
        'G' => 'g',
        'H' => 'h',
        'I' => 'i',
        'J' => 'j',
        'K' => 'k',
        'L' => 'l',
        'M' => 'm',
        'N' => 'n',
        'O' => 'o',
        'P' => 'p',
        'Q' => 'q',
        'R' => 'r',
        'S' => 's',
        'T' => 't',
        'U' => 'u',
        'V' => 'v',
        'W' => 'w',
        'X' => 'x',
        'Y' => 'y',
        'Z' => 'z',
        _ => c,
    }
}

/// Whether `v[lo..]` equals `word`, ignoring ASCII case.
fn eq_ignore_case_from(v: &[char], lo: usize, word: &str) -> (r: bool)
    requires
        lo <= v@.len(),
    ensures
        r == eq_ignore_case(v@.skip(lo as int), word@),
{
    let n = word.unicode_len();
    let len = v.len();
    if len - lo != n {
        return false;
    }
    let mut i: usize = 0;
    while i < n
        invariant
            n == word@.len(),
            lo <= v@.len(),
            len == v@.len(),
            len - lo == n,
            i <= n,
            forall|j: int| 0 <= j < i ==> ascii_lower(#[trigger] v@.skip(lo as int)[j]) == word@[j],
        decreases n - i,
    {
        if ascii_lower_exec(v[lo + i]) != word.get_char(i) {
            assert(v@.skip(lo as int)[i as int] == v@[lo + i]);
            return false;
        }
        assert(v@.skip(lo as int)[i as int] == v@[lo + i]);
        i = i + 1;
    }
    true
}

proof fn lemma_unsigned_part(s: Seq<char>, lo: int)
    requires
        lo == (if s.len() > 0 && is_sign(s[0]) { 1int } else { 0int }),
    ensures
        unsigned_part(s) == s.skip(lo),
{
    assert(s.skip(0) =~= s);
}

/// Whether `v[lo..hi]` is a mantissa (digits with at most one period).
fn mantissa_between(v: &[char], lo: usize, hi: usize) -> (r: bool)
    requires
        lo <= hi <= v@.len(),
    ensures
        r == mantissa_syntax(v@.subrange(lo as int, hi as int)),
{
    let ghost m = v@.subrange(lo as int, hi as int);
    if lo == hi {
        return false;
    }
    // look for the first period
    let mut k = lo;
    while k < hi && v[k] != '.'
        invariant
            lo <= k <= hi <= v@.len(),
            forall|j: int| lo <= j < k ==> v@[j] != '.',
        decreases hi - k,
    {
        k = k + 1;
    }
    if k == hi {
        let r = digits_between(v, lo, hi);
        proof {
            if !r {
                assert forall|kk: int| 0 <= kk < m.len() && m[kk] == '.' implies !all_digits(#[trigger] m.take(kk)) || !all_digits(m.skip(kk + 1)) by {
                    assert(m[kk] == v@[lo + kk]);
                }
            }
        }
        r
    } else {
        let ghost kk = k - lo;
        assert(m[kk] == '.');
        let a = digits_between(v, lo, k);
        let b = digits_between(v, k + 1, hi);
        assert(m.take(kk) =~= v@.subrange(lo as int, k as int));
        assert(m.skip(kk + 1) =~= v@.subrange(k + 1, hi as int));
        proof {
            // the period is not a digit, so the whole is not all digits
            assert(!is_digit(m[kk]));
            if !(a && b) {
                assert forall|k2: int| 0 <= k2 < m.len() && m[k2] == '.' implies !all_digits(#[trigger] m.take(k2)) || !all_digits(m.skip(k2 + 1)) by {
                    assert(m[k2] == v@[lo + k2]);
                    if k2 < kk {
                        assert(false);
                    } else if k2 > kk {
                        assert(m.take(k2)[kk] == '.');
                    }
                }
            }
        }
        (a && b) && hi - lo >= 2
    }
}

/// Whether `v[lo..hi]` is an exponent (a sign, then digits).
fn exponent_between(v: &[char], lo: usize, hi: usize) -> (r: bool)
    requires
        lo <= hi <= v@.len(),
    ensures
        r == exponent_syntax(v@.subrange(lo as int, hi as int)),
{
    let ghost x = v@.subrange(lo as int, hi as int);
    let start = if lo < hi && (v[lo] == '+' || v[lo] == '-') { lo + 1 } else { lo };
    proof {
        lemma_unsigned_part(x, (start - lo) as int);
        assert(x.skip((start - lo) as int) =~= v@.subrange(start as int, hi as int));
    }
    start < hi && digits_between(v, start, hi)
}

/// Whether `v[lo..]` is a decimal number.
fn number_from(v: &[char], lo: usize) -> (r: bool)
    requires
        lo <= v@.len(),
    ensures
        r == number_syntax(v@.skip(lo as int)),
{
    let ghost t = v@.skip(lo as int);
    let n = v.len();
    let mut e = lo;
    while e < n && v[e] != 'e' && v[e] != 'E'
        invariant
            lo <= e <= n == v@.len(),
            forall|j: int| lo <= j < e ==> !is_exp_mark(v@[j]),
        decreases n - e,
    {
        e = e + 1;
    }
    assert(t =~= v@.subrange(lo as int, n as int));
    if e == n {
        let r = mantissa_between(v, lo, n);
        proof {
            assert forall|ee: int| 0 <= ee < t.len() implies !is_exp_mark(#[trigger] t[ee]) by {
                assert(t[ee] == v@[lo + ee]);
            }
        }
        r
    } else {
        let ghost ee = e - lo;
        let m1 = mantissa_between(v, lo, e);
        let m2 = exponent_between(v, e + 1, n);
        assert(t.take(ee) =~= v@.subrange(lo as int, e as int));
        assert(t.skip(ee + 1) =~= v@.subrange(e + 1, n as int));
        proof {
            assert(t[ee] == v@[e as int]);
            // a mantissa holds no exponent mark
            if mantissa_syntax(t) {
                if t.len() > 0 && all_digits(t) {
                    assert(is_digit(t[ee]));
                } else {
                    let k = choose|k: int| 0 <= k < t.len() && t[k] == '.' && t.len() >= 2 && all_digits(#[trigger] t.take(k)) && all_digits(t.skip(k + 1));
                    if ee < k {
                        assert(t.take(k)[ee] == t[ee]);
                    } else if ee > k {
                        assert(t.skip(k + 1)[ee - k - 1] == t[ee]);
                    }
                }
            }
            if !(m1 && m2) {
                assert forall|e2: int| 0 <= e2 < t.len() && is_exp_mark(t[e2]) implies !mantissa_syntax(#[trigger] t.take(e2)) || !exponent_syntax(t.skip(e2 + 1)) by {
                    assert(t[e2] == v@[lo + e2]);
                    if e2 > ee {
                        let m = t.take(e2);
                        assert(m[ee] == t[ee]);
                        if mantissa_syntax(m) {
                            if m.len() > 0 && all_digits(m) {
                                assert(is_digit(m[ee]));
                            } else {
                                let k = choose|k: int| 0 <= k < m.len() && m[k] == '.' && m.len() >= 2 && all_digits(#[trigger] m.take(k)) && all_digits(m.skip(k + 1));
                                if ee < k {
                                    assert(m.take(k)[ee] == m[ee]);
                                } else if ee > k {
                                    assert(m.skip(k + 1)[ee - k - 1] == m[ee]);
                                }
                            }
                        }
                    }
                }
            }
        }
        m1 && m2
    }
}

/// Whether std's `f64` parser accepts the characters `v`.
pub fn parses_as_float(v: &[char]) -> (r: bool)
    ensures
        r == float_syntax(v@),
{
    let lo: usize = if v.len() > 0 && (v[0] == '+' || v[0] == '-') { 1 } else { 0 };
    proof { lemma_unsigned_part(v@, lo as int); }
    eq_ignore_case_from(v, lo, "inf") || eq_ignore_case_from(v, lo, "infinity")
        || eq_ignore_case_from(v, lo, "nan") || number_from(v, lo)
}

proof fn lemma_digits_value_step(s: Seq<char>, i: int)
    requires
        0 <= i < s.len(),
        all_digits(s),
    ensures
        digits_value(s.take(i + 1)) == digits_value(s.take(i)) * 10 + ((s[i] as u32) - ('0' as u32)) as nat,
        digits_value(s.take(i + 1)) >= digits_value(s.take(i)),
{
    assert(s.take(i + 1).drop_last() =~= s.take(i));
    assert(is_digit(s[i]));
}

proof fn lemma_digits_value_mono(s: Seq<char>, i: int, j: int)
    requires
        0 <= i <= j <= s.len(),
        all_digits(s),
    ensures
        digits_value(s.take(i)) <= digits_value(s.take(j)),
    decreases j - i,
{
    if i < j {
        lemma_digits_value_mono(s, i, j - 1);
        lemma_digits_value_step(s, j - 1);
    }
}

/// Whether std's `i64` parser accepts the characters `v`.
pub fn parses_as_i64(v: &[char]) -> (r: bool)
    ensures
        r == i64_syntax(v@),
{
    let neg = v.len() > 0 && v[0] == '-';
    let lo: usize = if v.len() > 0 && (v[0] == '+' || v[0] == '-') { 1 } else { 0 };
    let ghost t = v@.skip(lo as int);
    proof { lemma_unsigned_part(v@, lo as int); }
    let n = v.len();
    if lo == n {
        return false;
    }
    if !digits_between(v, lo, n) {
        assert(t =~= v@.subrange(lo as int, n as int));
        return false;
    }
    assert(t =~= v@.subrange(lo as int, n as int));
    let limit: u64 = if neg { 0x8000_0000_0000_0000 } else { 0x7fff_ffff_ffff_ffff };
    let mut acc: u64 = 0;
    let mut i = lo;
    assert(t.take(0) =~= Seq::<char>::empty());
    while i < n
        invariant
            lo <= i <= n == v@.len(),
            t == v@.skip(lo as int),
            t == unsigned_part(v@),
            all_digits(t),
            acc as nat == digits_value(t.take(i - lo)),
            acc <= limit,
            limit == (if v@.len() > 0 && v@[0] == '-' { 0x8000_0000_0000_0000u64 } else { 0x7fff_ffff_ffff_ffffu64 }),
        decreases n - i,
    {
        proof { lemma_digits_value_step(t, i - lo); }
        assert(t[i - lo] == v@[i as int]);
        assert(is_digit(t[i - lo]));
        let d = (v[i] as u32 - '0' as u32) as u64;
        assert(d <= 9);
        if acc > (limit - d) / 10 {
            assert(acc * 10 + d > limit) by (nonlinear_arith)
                requires acc > (limit - d) / 10, d <= 9, limit >= 9;
            // the value only grows with more digits
            proof {
                assert(digits_value(t.take(i - lo + 1)) == acc * 10 + d);
                lemma_digits_value_mono(t, i - lo + 1, t.len() as int);
                assert(t.take(t.len() as int) =~= t);
                assert(digits_value(t) > limit);
            }
            return false;
        }
        assert(acc * 10 + d <= limit) by (nonlinear_arith)
            requires acc <= (limit - d) / 10, d <= 9, limit >= 9;
        acc = acc * 10 + d;
        i = i + 1;
    }
    assert(t.take(n - lo) =~= t);
    true
}

} // verus!
