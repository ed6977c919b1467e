//! Character-level string operations with their meaning stated over `Seq<char>`:
//! substring search, whitespace trimming, replacement and integer parsing.

use vstd::prelude::*;
use vstd::string::*;

verus! {

// ---------------------------------------------------------------------------
// Characters of a string
// ---------------------------------------------------------------------------

/// The characters of `s`, in order.
pub fn chars_of(s: &str) -> (v: Vec<char>)
    ensures
        v@ == s@,
{
    let n: usize = s.unicode_len();
    let mut v: Vec<char> = Vec::new();
    let mut i: usize = 0;
    while i < n
        invariant
            i <= n,
            n == s@.len(),
            v@ =~= s@.take(i as int),
        decreases n - i,
    {
        let c = s.get_char(i);
        v.push(c);
        i = i + 1;
        assert(v@ =~= s@.take(i as int));
    }
    v
}

/// `a` followed by `b`, as a new `String`.
pub fn concat(a: &str, b: &str) -> (r: String)
    ensures
        r@ == a@ + b@,
{
    let mut r = String::from_str(a);
    r.append(b);
    r
}



/// Whether `a` and `b` hold the same characters.
pub fn same_text(a: &str, b: &str) -> (r: bool)
    ensures
        r == (a@ == b@),
{
    let av = chars_of(a);
    let bv = chars_of(b);
    if av.len() != bv.len() {
        return false;
    }
    let mut i: usize = 0;
    while i < av.len()
        invariant
            i <= av@.len(),
            av@ == a@,
            bv@ == b@,
            av@.len() == bv@.len(),
            forall|k: int| 0 <= k < i ==> av@[k] == bv@[k],
        decreases av@.len() - i,
    {
        if av[i] != bv[i] {
            return false;
        }
        i = i + 1;
    }
    assert(av@ =~= bv@);
    true
}

// ---------------------------------------------------------------------------
// Substring search
// ---------------------------------------------------------------------------

/// `pat` occurs in `s` starting at index `i`.
pub open spec fn occurs_at(s: Seq<char>, pat: Seq<char>, i: int) -> bool {
    0 <= i && i + pat.len() <= s.len() && s.subrange(i, i + pat.len()) == pat
}

/// `pat` occurs somewhere in `s` (the empty pattern occurs in every string).
pub open spec fn seq_contains(s: Seq<char>, pat: Seq<char>) -> bool {
    exists|i: int| occurs_at(s, pat, i)
}

fn occurs_at_exec(s: &Vec<char>, pat: &Vec<char>, i: usize) -> (r: bool)
    requires
        i + pat@.len() <= s@.len(),
    ensures
        r == occurs_at(s@, pat@, i as int),
{
    let m = pat.len();
    let mut j: usize = 0;
    while j < m
        invariant
            j <= m,
            m == pat@.len(),
            i + m <= s@.len(),
            s@.len() == s.len(),
            forall|k: int| 0 <= k < j ==> s@[i + k] == pat@[k],
        decreases m - j,
    {
        if s[i + j] != pat[j] {
            assert(s@.subrange(i as int, i + m)[j as int] != pat@[j as int]);
            return false;
        }
        j = j + 1;
    }
    assert(s@.subrange(i as int, i + m) =~= pat@);
    true
}

fn contains_chars(s: &Vec<char>, pat: &Vec<char>) -> (r: bool)
    ensures
        r == seq_contains(s@, pat@),
{
    let n = s.len();
    let m = pat.len();
    if m > n {
        assert forall|k: int| !occurs_at(s@, pat@, k) by {}
        return false;
    }
    if m == 0 {
        assert(s@.subrange(0, 0) =~= pat@);
        assert(occurs_at(s@, pat@, 0));
        return true;
    }
    let last = n - m;
    let mut i: usize = 0;
    while i <= last
        invariant
            i <= last + 1,
            last + m == n,
            m > 0,
            n == s@.len(),
            m == pat@.len(),
            forall|k: int| 0 <= k < i ==> !occurs_at(s@, pat@, k),
        decreases last + 1 - i,
    {
        if occurs_at_exec(s, pat, i) {
            return true;
        }
        i = i + 1;
    }
    assert forall|k: int| !occurs_at(s@, pat@, k) by {}
    false
}

/// Whether `pat` occurs in `s`, as `str::contains` with a string pattern.
pub fn contains(s: &str, pat: &str) -> (r: bool)
    ensures
        r == seq_contains(s@, pat@),
{
    let sv = chars_of(s);
    let pv = chars_of(pat);
    contains_chars(&sv, &pv)
}

// ---------------------------------------------------------------------------
// Whitespace and trimming
// ---------------------------------------------------------------------------

/// The Unicode `White_Space` property, as `char::is_whitespace` tests it.
pub open spec fn is_whitespace(c: char) -> bool {
    ||| c == ' '
    ||| ('\u{9}' <= c && c <= '\u{d}')
    ||| c == '\u{85}'
    ||| c == '\u{a0}'
    ||| c == '\u{1680}'
    ||| ('\u{2000}' <= c && c <= '\u{200a}')
    ||| c == '\u{2028}'
    ||| c == '\u{2029}'
    ||| c == '\u{202f}'
    ||| c == '\u{205f}'
    ||| c == '\u{3000}'
}

/// Whether `c` is Unicode whitespace.
pub fn is_whitespace_char(c: char) -> (r: bool)
    ensures
        r == is_whitespace(c),
{
    c == ' ' || ('\u{9}' <= c && c <= '\u{d}') || c == '\u{85}' || c == '\u{a0}' || c == '\u{1680}'
        || ('\u{2000}' <= c && c <= '\u{200a}') || c == '\u{2028}' || c == '\u{2029}' || c
        == '\u{202f}' || c == '\u{205f}' || c == '\u{3000}'
}

/// The first index at or after `i` that does not hold whitespace (or the length).
pub open spec fn skip_whitespace(s: Seq<char>, i: int) -> int
    decreases s.len() - i,
{
    if 0 <= i < s.len() && is_whitespace(s[i]) {
        skip_whitespace(s, i + 1)
    } else {
        i
    }
}

/// The end of `s.take(j)` once trailing whitespace is dropped.
pub open spec fn drop_trailing_whitespace(s: Seq<char>, j: int) -> int
    decreases j,
{
    if 0 < j <= s.len() && is_whitespace(s[j - 1]) {
        drop_trailing_whitespace(s, j - 1)
    } else {
        j
    }
}

/// `s` without leading and trailing whitespace, as `str::trim` gives it.
pub open spec fn trimmed(s: Seq<char>) -> Seq<char> {
    let a = skip_whitespace(s, 0);
    if a >= s.len() {
        Seq::empty()
    } else {
        s.subrange(a, drop_trailing_whitespace(s, s.len() as int))
    }
}

proof fn lemma_skip_whitespace_bounds(s: Seq<char>, i: int)
    requires
        0 <= i <= s.len(),
    ensures
        i <= skip_whitespace(s, i) <= s.len(),
        skip_whitespace(s, i) < s.len() ==> !is_whitespace(s[skip_whitespace(s, i)]),
        forall|k: int| i <= k < skip_whitespace(s, i) ==> is_whitespace(#[trigger] s[k]),
    decreases s.len() - i,
{
    if i < s.len() && is_whitespace(s[i]) {
        lemma_skip_whitespace_bounds(s, i + 1);
    }
}

proof fn lemma_drop_trailing_bounds(s: Seq<char>, j: int, a: int)
    requires
        0 <= a < j <= s.len(),
        !is_whitespace(s[a]),
    ensures
        a < drop_trailing_whitespace(s, j) <= j,
        !is_whitespace(s[drop_trailing_whitespace(s, j) - 1]),
        forall|k: int| drop_trailing_whitespace(s, j) <= k < j ==> is_whitespace(#[trigger] s[k]),
    decreases j,
{
    if is_whitespace(s[j - 1]) {
        lemma_drop_trailing_bounds(s, j - 1, a);
    }
}

/// `s` without leading and trailing whitespace.
pub fn trim(s: &str) -> (r: &str)
    ensures
        r@ == trimmed(s@),
{
    let v = chars_of(s);
    let n = v.len();
    let mut i: usize = 0;
    while i < n && is_whitespace_char(v[i])
        invariant
            i <= n,
            n == s@.len(),
            v@ == s@,
            skip_whitespace(s@, 0) == skip_whitespace(s@, i as int),
        decreases n - i,
    {
        i = i + 1;
    }
    if i >= n {
        return s.substring_char(n, n);
    }
    proof {
        lemma_skip_whitespace_bounds(s@, 0);
    }
    let mut j: usize = n;
    while is_whitespace_char(v[j - 1])
        invariant
            i < j <= n,
            n == s@.len(),
            v@ == s@,
            !is_whitespace(s@[i as int]),
            drop_trailing_whitespace(s@, n as int) == drop_trailing_whitespace(s@, j as int),
        decreases j,
    {
        j = j - 1;
    }
    s.substring_char(i, j)
}

// ---------------------------------------------------------------------------
// Replacement
// ---------------------------------------------------------------------------

/// `s` with every occurrence of the non-empty `pat` replaced by `rep`, matches
/// taken from left to right without overlapping, as `str::replace` does.
pub open spec fn replaced(s: Seq<char>, pat: Seq<char>, rep: Seq<char>) -> Seq<char>
    decreases s.len(),
{
    if pat.len() == 0 || s.len() < pat.len() {
        s
    } else if s.take(pat.len() as int) == pat {
        rep + replaced(s.skip(pat.len() as int), pat, rep)
    } else {
        seq![s[0]] + replaced(s.skip(1), pat, rep)
    }
}

/// `s` with every occurrence of `pat` replaced by `rep`.
pub fn replace_all(s: &str, pat: &str, rep: &str) -> (r: String)
    requires
        pat@.len() > 0,
    ensures
        r@ == replaced(s@, pat@, rep@),
{
    let sv = chars_of(s);
    let pv = chars_of(pat);
    let n = sv.len();
    let m = pv.len();
    let mut out = String::new();
    let mut last: usize = 0;
    let mut i: usize = 0;
    assert(s@.skip(0) =~= s@);
    assert(s@.subrange(0, 0) =~= Seq::<char>::empty());
    while m <= n && i <= n - m
        invariant
            last <= i <= n,
            n == s@.len(),
            m == pat@.len(),
            m > 0,
            sv@ == s@,
            pv@ == pat@,
            replaced(s@, pat@, rep@) == out@ + s@.subrange(last as int, i as int) + replaced(
                s@.skip(i as int),
                pat@,
                rep@,
            ),
        decreases n - i,
    {
        let ghost rest = s@.skip(i as int);
        assert(rest.take(m as int) =~= s@.subrange(i as int, i + m));
        if occurs_at_exec(&sv, &pv, i) {
            assert(rest.skip(m as int) =~= s@.skip(i + m));
            let piece = s.substring_char(last, i);
            out.append(piece);
            out.append(rep);
            i = i + m;
            last = i;
            assert(s@.subrange(last as int, i as int) =~= Seq::<char>::empty());
        } else {
            assert(rest.skip(1) =~= s@.skip(i + 1));
            assert(s@.subrange(last as int, i as int) + seq![rest[0]] =~= s@.subrange(
                last as int,
                i + 1,
            ));
            i = i + 1;
        }
    }
    assert(s@.subrange(last as int, i as int) + s@.skip(i as int) =~= s@.subrange(
        last as int,
        n as int,
    ));
    let tail = s.substring_char(last, n);
    out.append(tail);
    out
}

// ---------------------------------------------------------------------------
// Integer parsing
// ---------------------------------------------------------------------------

pub open spec fn is_ascii_digit(c: char) -> bool {
    '0' <= c && c <= '9'
}

pub open spec fn all_ascii_digits(d: Seq<char>) -> bool {
    forall|k: int| 0 <= k < d.len() ==> is_ascii_digit(#[trigger] d[k])
}

/// The number that the decimal digits `d` write.
pub open spec fn decimal_value(d: Seq<char>) -> int
    decreases d.len(),
{
    if d.len() == 0 {
        0
    } else {
        decimal_value(d.drop_last()) * 10 + (d.last() as int - '0' as int)
    }
}

/// What `str::parse::<i32>` gives: an optional `+` or `-`, then one or more
/// ASCII digits whose value fits in an `i32`.
pub open spec fn parse_i32_spec(s: Seq<char>) -> Option<i32> {
    let signed = s.len() > 0 && (s[0] == '+' || s[0] == '-');
    let negative = s.len() > 0 && s[0] == '-';
    let d = if signed {
        s.skip(1)
    } else {
        s
    };
    let v = if negative {
        -decimal_value(d)
    } else {
        decimal_value(d)
    };
    if d.len() > 0 && all_ascii_digits(d) && i32::MIN <= v <= i32::MAX {
        Some(v as i32)
    } else {
        None
    }
}

proof fn lemma_decimal_value_nonneg(d: Seq<char>)
    requires
        all_ascii_digits(d),
    ensures
        decimal_value(d) >= 0,
    decreases d.len(),
{
    if d.len() > 0 {
        assert(is_ascii_digit(d[d.len() - 1]));
        lemma_decimal_value_nonneg(d.drop_last());
    }
}

/// A longer run of digits writes a number at least as large.
proof fn lemma_decimal_value_prefix(d: Seq<char>, k: int)
    requires
        all_ascii_digits(d),
        0 <= k <= d.len(),
    ensures
        decimal_value(d.take(k)) <= decimal_value(d),
    decreases d.len() - k,
{
    if k < d.len() {
        let t = d.take(k + 1);
        assert(t.drop_last() =~= d.take(k));
        assert(is_ascii_digit(t[k]));
        lemma_decimal_value_nonneg(d.take(k));
        lemma_decimal_value_prefix(d, k + 1);
    } else {
        assert(d.take(k) =~= d);
    }
}

/// The `i32` that `s` writes, as `s.parse::<i32>().ok()`.
pub fn parse_i32(s: &str) -> (r: Option<i32>)
    ensures
        r == parse_i32_spec(s@),
{
    let v = chars_of(s);
    let n = v.len();
    let mut start: usize = 0;
    let mut negative = false;
    if n > 0 && (v[0] == '+' || v[0] == '-') {
        start = 1;
        negative = v[0] == '-';
    }
    let ghost d = if start == 1 {
        s@.skip(1)
    } else {
        s@
    };
    assert(d =~= s@.skip(start as int));
    if start >= n {
        return None;
    }
    let mut acc: i64 = 0;
    let mut i: usize = start;
    assert(d.take(0) =~= Seq::<char>::empty());
    while i < n
        invariant
            start <= i <= n,
            n == s@.len(),
            v@ == s@,
            d == s@.skip(start as int),
            start == 1 <==> (s@.len() > 0 && (s@[0] == '+' || s@[0] == '-')),
            start == 0 || start == 1,
            negative <==> (s@.len() > 0 && s@[0] == '-'),
            all_ascii_digits(d.take(i - start)),
            acc == decimal_value(d.take(i - start)),
            0 <= acc <= 2147483648,
        decreases n - i,
    {
        let c = v[i];
        if !('0' <= c && c <= '9') {
            assert(!is_ascii_digit(d[i - start]));
            return None;
        }
        let digit: i64 = (c as u32 - '0' as u32) as i64;
        let ghost t = d.take(i - start + 1);
        assert(t.drop_last() =~= d.take(i - start));
        assert(t.last() == c);
        assert(digit == c as int - '0' as int);
        acc = acc * 10 + digit;
        i = i + 1;
        assert(t =~= d.take(i - start));
        assert(acc == decimal_value(d.take(i - start)));
        assert(all_ascii_digits(d.take(i - start)));
        if acc > 2147483648 {
            proof {
                if all_ascii_digits(d) {
                    lemma_decimal_value_prefix(d, i - start);
                    assert(decimal_value(d) > 2147483648);
                }
                let signed = s@.len() > 0 && (s@[0] == '+' || s@[0] == '-');
                let d2 = if signed { s@.skip(1) } else { s@ };
                assert(d2 == d);
                assert(parse_i32_spec(s@) is None);
            }
            return None;
        }
    }
    assert(d.take(n - start) =~= d);
    if negative {
        Some((-acc) as i32)
    } else if acc <= 2147483647 {
        Some(acc as i32)
    } else {
        None
    }
}

// ---------------------------------------------------------------------------
// Laws
// ---------------------------------------------------------------------------

/// Trimming leaves no whitespace at either end, and trimming again changes nothing.
pub proof fn lemma_trim_idempotent(s: Seq<char>)
    ensures
        trimmed(s).len() > 0 ==> !is_whitespace(trimmed(s)[0]) && !is_whitespace(
            trimmed(s)[trimmed(s).len() - 1],
        ),
        trimmed(trimmed(s)) == trimmed(s),
{
    let a = skip_whitespace(s, 0);
    lemma_skip_whitespace_bounds(s, 0);
    if a < s.len() {
        lemma_drop_trailing_bounds(s, s.len() as int, a);
        let b = drop_trailing_whitespace(s, s.len() as int);
        let t = s.subrange(a, b);
        assert(t[0] == s[a]);
        assert(t[t.len() - 1] == s[b - 1]);
        assert(skip_whitespace(t, 0) == 0);
        assert(drop_trailing_whitespace(t, t.len() as int) == t.len());
        assert(t.subrange(0, t.len() as int) =~= t);
    } else {
        let e = Seq::<char>::empty();
        assert(skip_whitespace(e, 0) == 0);
    }
}

/// Replacing a pattern that does not occur changes nothing.
pub proof fn lemma_replace_absent(s: Seq<char>, pat: Seq<char>, rep: Seq<char>)
    requires
        pat.len() > 0,
        !seq_contains(s, pat),
    ensures
        replaced(s, pat, rep) == s,
    decreases s.len(),
{
    if s.len() >= pat.len() {
        assert(s.take(pat.len() as int) =~= s.subrange(0, pat.len() as int));
        assert(!occurs_at(s, pat, 0));
        let rest = s.skip(1);
        assert forall|i: int| !occurs_at(rest, pat, i) by {
            if occurs_at(rest, pat, i) {
                assert(s.subrange(i + 1, i + 1 + pat.len()) =~= rest.subrange(i, i + pat.len()));
                assert(occurs_at(s, pat, i + 1));
            }
        }
        lemma_replace_absent(rest, pat, rep);
        assert(seq![s[0]] + rest =~= s);
    }
}

/// Parsing the decimal digits of a number that fits in an `i32` gives that
/// number, and with a leading `-` its negation.
pub proof fn lemma_parse_digits(d: Seq<char>)
    requires
        d.len() > 0,
        all_ascii_digits(d),
    ensures
        decimal_value(d) <= i32::MAX ==> parse_i32_spec(d) == Some(decimal_value(d) as i32),
        decimal_value(d) <= 2_147_483_648 ==> parse_i32_spec(seq!['-'] + d) == Some(
            (-decimal_value(d)) as i32,
        ),
        decimal_value(d) > 2_147_483_648 ==> parse_i32_spec(seq!['-'] + d) is None,
        decimal_value(d) > i32::MAX ==> parse_i32_spec(d) is None,
{
    lemma_decimal_value_nonneg(d);
    assert(is_ascii_digit(d[0]));
    let m = seq!['-'] + d;
    assert(m.skip(1) =~= d);
    assert(m[0] == '-');
}

} // verus!
