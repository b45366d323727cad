//! Which texts are floating point numbers, as Rust reads them.
//!
//! `str::parse::<f64>` accepts an optional sign followed by `inf`, `infinity`
//! or `nan` (in any case), or by a decimal number: digits with at most one
//! decimal point and at least one digit, then optionally `e` or `E`, an
//! optional sign and one or more digits.  The library keeps no floating point
//! values, but it does tell such texts from others.
use vstd::prelude::*;
use vstd::string::StrSliceExecFns;

verus! {

pub open spec fn is_digit(c: char) -> bool {
    '0' <= c && c <= '9'
}

pub open spec fn is_sign(c: char) -> bool {
    c == '+' || c == '-'
}

pub open spec fn digit_or_point(c: char) -> bool {
    is_digit(c) || c == '.'
}

/// `b` is the word whose lower case letters are `lo` and upper case letters
/// `up`, in any mix of cases.
pub open spec fn word_is(b: Seq<char>, lo: Seq<char>, up: Seq<char>) -> bool {
    &&& b.len() == lo.len()
    &&& lo.len() == up.len()
    &&& forall|i: int| 0 <= i < b.len() ==> #[trigger] b[i] == lo[i] || b[i] == up[i]
}

/// `inf`, `infinity` or `nan`, in any case.
pub open spec fn special_word(b: Seq<char>) -> bool {
    ||| word_is(b, seq!['i', 'n', 'f'], seq!['I', 'N', 'F'])
    ||| word_is(b, seq!['i', 'n', 'f', 'i', 'n', 'i', 't', 'y'], seq!['I', 'N', 'F', 'I', 'N', 'I', 'T', 'Y'])
    ||| word_is(b, seq!['n', 'a', 'n'], seq!['N', 'A', 'N'])
}

/// Digits with at most one decimal point, and at least one digit.
pub open spec fn mantissa(m: Seq<char>) -> bool {
    &&& forall|i: int| 0 <= i < m.len() ==> #[trigger] digit_or_point(m[i])
    &&& forall|i: int, j: int| #![trigger m[i], m[j]] 0 <= i < j < m.len() ==> !(m[i] == '.' && m[j] == '.')
    &&& exists|i: int| 0 <= i < m.len() && #[trigger] is_digit(m[i])
}

/// What follows the `e` of an exponent: an optional sign and one or more
/// digits.
pub open spec fn exponent(x: Seq<char>) -> bool {
    unsigned_digits(unsigned(x))
}

/// `x` without its leading sign, if it has one.
pub open spec fn unsigned(x: Seq<char>) -> Seq<char> {
    if x.len() > 0 && is_sign(x[0]) { x.drop_first() } else { x }
}

/// One or more digits.
pub open spec fn unsigned_digits(d: Seq<char>) -> bool {
    &&& d.len() > 0
    &&& forall|i: int| 0 <= i < d.len() ==> #[trigger] is_digit(d[i])
}

/// `b` splits at `k` into a mantissa and an optional exponent.
pub open spec fn number_split(b: Seq<char>, k: int) -> bool {
    &&& 0 <= k <= b.len()
    &&& mantissa(b.take(k))
    &&& (k == b.len() || ((b[k] == 'e' || b[k] == 'E') && exponent(b.skip(k + 1))))
}

/// A decimal number, as above.
pub open spec fn decimal_number(b: Seq<char>) -> bool {
    exists|k: int| number_split(b, k)
}

/// The text of a floating point number.
pub open spec fn float_text(s: Seq<char>) -> bool {
    special_word(unsigned(s)) || decimal_number(unsigned(s))
}

/// The characters of `s`.
pub(crate) fn chars_of(s: &str) -> (v: Vec<char>)
    ensures
        v@ == s@,
{
    let n = s.unicode_len();
    let mut v: Vec<char> = Vec::new();
    let mut i: usize = 0;
    while i < n
        invariant
            n == s@.len(),
            i <= n,
            v@ == s@.take(i as int),
        decreases n - i,
    {
        v.push(s.get_char(i));
        i = i + 1;
        proof {
            assert(v@ =~= s@.take(i as int));
        }
    }
    proof {
        assert(s@.take(n as int) =~= s@);
    }
    v
}

fn skip_chars(v: &Vec<char>, from: usize) -> (r: Vec<char>)
    requires
        from <= v@.len(),
    ensures
        r@ == v@.skip(from as int),
{
    let mut r: Vec<char> = Vec::new();
    let mut i: usize = from;
    while i < v.len()
        invariant
            from <= i <= v@.len(),
            r@ == v@.subrange(from as int, i as int),
        decreases v@.len() - i,
    {
        r.push(v[i]);
        i = i + 1;
        proof {
            assert(r@ =~= v@.subrange(from as int, i as int));
        }
    }
    proof {
        assert(r@ =~= v@.skip(from as int));
    }
    r
}

fn take_chars(v: &Vec<char>, k: usize) -> (r: Vec<char>)
    requires
        k <= v@.len(),
    ensures
        r@ == v@.take(k as int),
{
    let mut r: Vec<char> = Vec::new();
    let mut i: usize = 0;
    while i < k
        invariant
            k <= v@.len(),
            i <= k,
            r@ == v@.take(i as int),
        decreases k - i,
    {
        r.push(v[i]);
        i = i + 1;
        proof {
            assert(r@ =~= v@.take(i as int));
        }
    }
    r
}

fn word_matches(b: &Vec<char>, lo: &Vec<char>, up: &Vec<char>) -> (r: bool)
    requires
        lo@.len() == up@.len(),
    ensures
        r == word_is(b@, lo@, up@),
{
    if b.len() != lo.len() {
        return false;
    }
    let mut i: usize = 0;
    while i < b.len()
        invariant
            b@.len() == lo@.len(),
            lo@.len() == up@.len(),
            i <= b@.len(),
            forall|j: int| 0 <= j < i ==> #[trigger] b@[j] == lo@[j] || b@[j] == up@[j],
        decreases b@.len() - i,
    {
        if b[i] != lo[i] && b[i] != up[i] {
            return false;
        }
        i = i + 1;
    }
    true
}

fn is_special_word(b: &Vec<char>) -> (r: bool)
    ensures
        r == special_word(b@),
{
    let inf_lo = vec!['i', 'n', 'f'];
    let inf_up = vec!['I', 'N', 'F'];
    let infinity_lo = vec!['i', 'n', 'f', 'i', 'n', 'i', 't', 'y'];
    let infinity_up = vec!['I', 'N', 'F', 'I', 'N', 'I', 'T', 'Y'];
    let nan_lo = vec!['n', 'a', 'n'];
    let nan_up = vec!['N', 'A', 'N'];
    proof {
        assert(inf_lo@ =~= seq!['i', 'n', 'f']);
        assert(inf_up@ =~= seq!['I', 'N', 'F']);
        assert(infinity_lo@ =~= seq!['i', 'n', 'f', 'i', 'n', 'i', 't', 'y']);
        assert(infinity_up@ =~= seq!['I', 'N', 'F', 'I', 'N', 'I', 'T', 'Y']);
        assert(nan_lo@ =~= seq!['n', 'a', 'n']);
        assert(nan_up@ =~= seq!['N', 'A', 'N']);
    }
    word_matches(b, &inf_lo, &inf_up) || word_matches(b, &infinity_lo, &infinity_up) || word_matches(b, &nan_lo, &nan_up)
}

fn is_digit_char(c: char) -> (r: bool)
    ensures
        r == is_digit(c),
{
    '0' <= c && c <= '9'
}

fn is_mantissa(m: &Vec<char>) -> (r: bool)
    ensures
        r == mantissa(m@),
{
    let mut point: Option<usize> = None;
    let mut digit: Option<usize> = None;
    let mut i: usize = 0;
    while i < m.len()
        invariant
            i <= m@.len(),
            forall|j: int| 0 <= j < i ==> #[trigger] digit_or_point(m@[j]),
            match point {
                Some(p) => p < i && m@[p as int] == '.' && forall|j: int| 0 <= j < i && m@[j] == '.' ==> j == p,
                None => forall|j: int| 0 <= j < i ==> m@[j] != '.',
            },
            match digit {
                Some(d) => d < i && is_digit(m@[d as int]),
                None => forall|j: int| 0 <= j < i ==> !is_digit(#[trigger] m@[j]),
            },
        decreases m@.len() - i,
    {
        let c = m[i];
        if c == '.' {
            match point {
                Some(p) => {
                    proof {
                        assert(m@[p as int] == '.' && m@[i as int] == '.');
                    }
                    return false;
                },
                None => {
                    point = Some(i);
                },
            }
        } else if is_digit_char(c) {
            digit = Some(i);
        } else {
            proof {
                assert(!digit_or_point(m@[i as int]));
            }
            return false;
        }
        i = i + 1;
    }
    proof {
        assert forall|a: int, b: int| #![trigger m@[a], m@[b]] 0 <= a < b < m@.len() implies !(m@[a] == '.' && m@[b] == '.') by {
        }
    }
    match digit {
        Some(d) => {
            proof {
                assert(is_digit(m@[d as int]));
            }
            true
        },
        None => false,
    }
}

fn is_exponent(x: &Vec<char>) -> (r: bool)
    ensures
        r == exponent(x@),
{
    let start: usize = if x.len() > 0 && (x[0] == '+' || x[0] == '-') { 1 } else { 0 };
    let d = skip_chars(x, start);
    proof {
        if x@.len() > 0 && is_sign(x@[0]) {
            assert(d@ =~= x@.drop_first());
        } else {
            assert(d@ =~= x@);
        }
    }
    if d.len() == 0 {
        return false;
    }
    let mut i: usize = 0;
    while i < d.len()
        invariant
            d@ == unsigned(x@),
            i <= d@.len(),
            forall|j: int| 0 <= j < i ==> #[trigger] is_digit(d@[j]),
        decreases d@.len() - i,
    {
        if !is_digit_char(d[i]) {
            proof {
                assert(!is_digit(d@[i as int]));
            }
            return false;
        }
        i = i + 1;
    }
    true
}

/// A split point of a decimal number is the end of its leading run of digits
/// and points.
proof fn lemma_split_is_run_end(b: Seq<char>, k: int, k2: int)
    requires
        number_split(b, k2),
        0 <= k <= b.len(),
        forall|j: int| 0 <= j < k ==> #[trigger] digit_or_point(b[j]),
        k < b.len() ==> !digit_or_point(b[k]),
    ensures
        k2 == k,
{
    let m = b.take(k2);
    if k2 < k {
        assert(digit_or_point(b[k2]));
    } else if k2 > k {
        assert(m[k] == b[k]);
        assert(digit_or_point(m[k]));
    }
}

fn is_decimal_number(b: &Vec<char>) -> (r: bool)
    ensures
        r == decimal_number(b@),
{
    let n = b.len();
    let mut k: usize = 0;
    while k < n
        invariant
            n == b@.len(),
            k <= n,
            forall|j: int| 0 <= j < k ==> #[trigger] digit_or_point(b@[j]),
        ensures
            k <= n,
            forall|j: int| 0 <= j < k ==> #[trigger] digit_or_point(b@[j]),
            k < n ==> !digit_or_point(b@[k as int]),
        decreases n - k,
    {
        if !(is_digit_char(b[k]) || b[k] == '.') {
            break;
        }
        k = k + 1;
    }
    let m = take_chars(b, k);
    let ok_mantissa = is_mantissa(&m);
    let ok = if k == n {
        ok_mantissa
    } else if b[k] == 'e' || b[k] == 'E' {
        let x = skip_chars(b, k + 1);
        ok_mantissa && is_exponent(&x)
    } else {
        false
    };
    proof {
        if ok {
            assert(number_split(b@, k as int));
        } else {
            assert forall|k2: int| !number_split(b@, k2) by {
                if number_split(b@, k2) {
                    lemma_split_is_run_end(b@, k as int, k2);
                }
            }
        }
    }
    ok
}

/// Whether `s` is the text of a floating point number.
pub fn is_float_text(s: &str) -> (r: bool)
    ensures
        r == float_text(s@),
{
    let cs = chars_of(s);
    let start: usize = if cs.len() > 0 && (cs[0] == '+' || cs[0] == '-') { 1 } else { 0 };
    let b = skip_chars(&cs, start);
    proof {
        if s@.len() > 0 && is_sign(s@[0]) {
            assert(b@ =~= s@.drop_first());
        } else {
            assert(b@ =~= s@);
        }
    }
    is_special_word(&b) || is_decimal_number(&b)
}

} // verus!
