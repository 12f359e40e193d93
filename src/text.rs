//! Character-level text operations: whitespace tokenization, decimal
//! rendering and parsing of integers, and length-bounded truncation.
use vstd::prelude::*;

verus! {

/// The views of a sequence of strings.
pub open spec fn views(v: Seq<String>) -> Seq<Seq<char>> {
    v.map_values(|t: String| t@)
}

/// Unicode `White_Space`, the set that `str::split_whitespace` splits on.
pub open spec fn is_white(c: char) -> bool {
    let n = c as u32;
    (0x9 <= n && n <= 0xd) || n == 0x20 || n == 0x85 || n == 0xa0 || n == 0x1680 || (0x2000 <= n
        && n <= 0x200a) || n == 0x2028 || n == 0x2029 || n == 0x202f || n == 0x205f || n == 0x3000
}

pub fn is_white_char(c: char) -> (r: bool)
    ensures
        r == is_white(c),
{
    let n = c as u32;
    (0x9 <= n && n <= 0xd) || n == 0x20 || n == 0x85 || n == 0xa0 || n == 0x1680 || (0x2000 <= n
        && n <= 0x200a) || n == 0x2028 || n == 0x2029 || n == 0x202f || n == 0x205f || n == 0x3000
}

/// One character of the left-to-right word scan: the words completed so far
/// and the word being read.
pub open spec fn scan_step(st: (Seq<Seq<char>>, Seq<char>), c: char) -> (Seq<Seq<char>>, Seq<char>) {
    if is_white(c) {
        if st.1.len() > 0 {
            (st.0.push(st.1), Seq::empty())
        } else {
            st
        }
    } else {
        (st.0, st.1.push(c))
    }
}

/// State of the word scan after the first `i` characters of `s`.
pub open spec fn scan(s: Seq<char>, i: int) -> (Seq<Seq<char>>, Seq<char>)
    decreases i,
{
    if i <= 0 {
        (Seq::empty(), Seq::empty())
    } else {
        scan_step(scan(s, i - 1), s[i - 1])
    }
}

/// The maximal runs of non-whitespace characters of `s`, in order.
pub open spec fn words(s: Seq<char>) -> Seq<Seq<char>> {
    let st = scan(s, s.len() as int);
    if st.1.len() > 0 {
        st.0.push(st.1)
    } else {
        st.0
    }
}

pub proof fn lemma_views_push(v: Seq<String>, x: String)
    ensures
        views(v.push(x)) == views(v).push(x@),
{
    assert(views(v.push(x)) =~= views(v).push(x@));
}

/// Splits `s` into its whitespace-separated words (no quoting).
pub fn split_whitespace(s: &str) -> (r: Vec<String>)
    ensures
        views(r@) == words(s@),
{
    let n = s.unicode_len();
    let mut out: Vec<String> = Vec::new();
    let mut start: usize = 0;
    let mut i: usize = 0;
    while i < n
        invariant
            n == s@.len(),
            start <= i <= n,
            views(out@) == scan(s@, i as int).0,
            s@.subrange(start as int, i as int) == scan(s@, i as int).1,
        decreases n - i,
    {
        let c = s.get_char(i);
        assert(scan(s@, i + 1) == scan_step(scan(s@, i as int), c));
        if is_white_char(c) {
            if start < i {
                let w = s.substring_char(start, i).to_owned();
                proof {
                    lemma_views_push(out@, w);
                }
                out.push(w);
            }
            start = i + 1;
            assert(s@.subrange(start as int, i + 1) =~= Seq::<char>::empty());
        } else {
            assert(s@.subrange(start as int, i + 1) =~= s@.subrange(start as int, i as int).push(
                c,
            ));
        }
        i = i + 1;
    }
    if start < n {
        let w = s.substring_char(start, n).to_owned();
        proof {
            lemma_views_push(out@, w);
        }
        out.push(w);
    }
    out
}

/// Whether two strings hold the same characters.
pub fn str_eq(a: &str, b: &str) -> (r: bool)
    ensures
        r == (a@ == b@),
{
    let n = a.unicode_len();
    if n != b.unicode_len() {
        return false;
    }
    let mut i: usize = 0;
    while i < n
        invariant
            n == a@.len(),
            n == b@.len(),
            i <= n,
            a@.subrange(0, i as int) == b@.subrange(0, i as int),
        decreases n - i,
    {
        if a.get_char(i) != b.get_char(i) {
            return false;
        }
        assert(a@.subrange(0, i + 1) =~= a@.subrange(0, i as int).push(a@[i as int]));
        assert(b@.subrange(0, i + 1) =~= b@.subrange(0, i as int).push(b@[i as int]));
        i = i + 1;
    }
    assert(a@ =~= a@.subrange(0, n as int));
    assert(b@ =~= b@.subrange(0, n as int));
    true
}

/// `a` followed by `b` and `c`.
pub fn concat3(a: &str, b: &str, c: &str) -> (r: String)
    ensures
        r@ == a@ + b@ + c@,
{
    let mut r = String::from_str(a);
    r.append(b);
    r.append(c);
    r
}

/// `s` with each non-overlapping occurrence of the non-empty `pat`, found
/// left to right, replaced by `to` (as `str::replace` does).
pub open spec fn replace_all(s: Seq<char>, pat: Seq<char>, to: Seq<char>) -> Seq<char>
    decreases s.len(),
{
    if pat.len() == 0 || s.len() < pat.len() {
        s
    } else if s.subrange(0, pat.len() as int) == pat {
        to + replace_all(s.subrange(pat.len() as int, s.len() as int), pat, to)
    } else {
        seq![s[0]] + replace_all(s.subrange(1, s.len() as int), pat, to)
    }
}

/// Replaces each occurrence of `pat` in `s` by `to`, left to right.
pub fn replace_str(s: &str, pat: &str, to: &str) -> (r: String)
    requires
        pat@.len() > 0,
    ensures
        r@ == replace_all(s@, pat@, to@),
{
    let n = s.unicode_len();
    let m = pat.unicode_len();
    let mut out = String::new();
    let mut i: usize = 0;
    assert(s@.subrange(0, n as int) =~= s@);
    assert(Seq::<char>::empty() + replace_all(s@, pat@, to@) =~= replace_all(s@, pat@, to@));
    while i < n
        invariant
            n == s@.len(),
            m == pat@.len(),
            m > 0,
            i <= n,
            out@ + replace_all(s@.subrange(i as int, n as int), pat@, to@) == replace_all(s@, pat@, to@),
        decreases n - i,
    {
        let ghost rest = s@.subrange(i as int, n as int);
        let ghost o = out@;
        if n - i < m {
            let tail = s.substring_char(i, n);
            out.append(tail);
            assert(replace_all(s@.subrange(n as int, n as int), pat@, to@) =~= Seq::<char>::empty());
            assert(out@ + Seq::<char>::empty() =~= out@);
            i = n;
        } else {
            let window = s.substring_char(i, i + m);
            assert(rest.subrange(0, m as int) =~= window@);
            if str_eq(window, pat) {
                out.append(to);
                assert(rest.subrange(m as int, rest.len() as int) =~= s@.subrange(i + m, n as int));
                assert(o + replace_all(rest, pat@, to@) =~= out@ + replace_all(s@.subrange(i + m, n as int), pat@, to@));
                i = i + m;
            } else {
                let c = s.substring_char(i, i + 1);
                assert(c@ =~= seq![rest[0]]);
                out.append(c);
                assert(rest.subrange(1, rest.len() as int) =~= s@.subrange(i + 1, n as int));
                assert(o + replace_all(rest, pat@, to@) =~= out@ + replace_all(s@.subrange(i + 1, n as int), pat@, to@));
                i = i + 1;
            }
        }
    }
    assert(s@.subrange(0, n as int) =~= s@);
    assert(replace_all(s@.subrange(n as int, n as int), pat@, to@) =~= Seq::<char>::empty());
    assert(out@ + Seq::<char>::empty() =~= out@);
    out
}

/// The decimal digit character for `d < 10`.
pub open spec fn digit_char(d: nat) -> char {
    if d == 0 {
        '0'
    } else if d == 1 {
        '1'
    } else if d == 2 {
        '2'
    } else if d == 3 {
        '3'
    } else if d == 4 {
        '4'
    } else if d == 5 {
        '5'
    } else if d == 6 {
        '6'
    } else if d == 7 {
        '7'
    } else if d == 8 {
        '8'
    } else {
        '9'
    }
}

/// Decimal notation of `n`, without leading zeros.
pub open spec fn decimal(n: nat) -> Seq<char>
    decreases n,
{
    if n < 10 {
        seq![digit_char(n)]
    } else {
        decimal(n / 10).push(digit_char(n % 10))
    }
}

/// Decimal notation of a signed integer, with a leading `-` when negative.
pub open spec fn signed_decimal(i: int) -> Seq<char> {
    if i < 0 {
        seq!['-'] + decimal((-i) as nat)
    } else {
        decimal(i as nat)
    }
}

fn digit_str(d: u64) -> (r: &'static str)
    requires
        d < 10,
    ensures
        r@ == seq![digit_char(d as nat)],
{
    proof {
        reveal_strlit("0");
        reveal_strlit("1");
        reveal_strlit("2");
        reveal_strlit("3");
        reveal_strlit("4");
        reveal_strlit("5");
        reveal_strlit("6");
        reveal_strlit("7");
        reveal_strlit("8");
        reveal_strlit("9");
    }
    let r = if d == 0 {
        "0"
    } else if d == 1 {
        "1"
    } else if d == 2 {
        "2"
    } else if d == 3 {
        "3"
    } else if d == 4 {
        "4"
    } else if d == 5 {
        "5"
    } else if d == 6 {
        "6"
    } else if d == 7 {
        "7"
    } else if d == 8 {
        "8"
    } else {
        "9"
    };
    assert(r@ =~= seq![digit_char(d as nat)]);
    r
}

/// Decimal notation of `n`.
pub fn u64_to_decimal(n: u64) -> (r: String)
    ensures
        r@ == decimal(n as nat),
    decreases n,
{
    if n < 10 {
        String::from_str(digit_str(n))
    } else {
        let mut s = u64_to_decimal(n / 10);
        s.append(digit_str(n % 10));
        s
    }
}

/// Decimal notation of `i`, with a leading `-` when negative.
pub fn i64_to_decimal(i: i64) -> (r: String)
    ensures
        r@ == signed_decimal(i as int),
{
    if i < 0 {
        let m: u64 = (-(i as i128)) as u64;
        let mut s = String::from_str("-");
        let d = u64_to_decimal(m);
        s.append(d.as_str());
        proof {
            reveal_strlit("-");
        }
        s
    } else {
        u64_to_decimal(i as u64)
    }
}

/// Millionths in one unit.
pub const MILLIONTHS: u64 = 1000000;

/// The six fractional digits of `f < 1_000_000` millionths.
pub open spec fn six_digits(f: nat) -> Seq<char> {
    seq![
        digit_char(f / 100000),
        digit_char(f / 10000 % 10),
        digit_char(f / 1000 % 10),
        digit_char(f / 100 % 10),
        digit_char(f / 10 % 10),
        digit_char(f % 10),
    ]
}

/// `s` without its trailing `0`s.
pub open spec fn trim_zeros(s: Seq<char>) -> Seq<char>
    decreases s.len(),
{
    if s.len() > 0 && s.last() == '0' {
        trim_zeros(s.drop_last())
    } else {
        s
    }
}

/// Decimal notation of `n` millionths: the whole part, then, when there is
/// a fractional part, a point and its digits without trailing zeros.
pub open spec fn fixed_decimal(n: nat) -> Seq<char> {
    let f = n % (MILLIONTHS as nat);
    if f == 0 {
        decimal(n / (MILLIONTHS as nat))
    } else {
        decimal(n / (MILLIONTHS as nat)) + seq!['.'] + trim_zeros(six_digits(f))
    }
}

/// Decimal notation of `n` millionths (`35_500_000` is `35.5`).
pub fn fixed_to_decimal(n: u64) -> (r: String)
    ensures
        r@ == fixed_decimal(n as nat),
{
    let whole = u64_to_decimal(n / MILLIONTHS);
    let f = n % MILLIONTHS;
    if f == 0 {
        return whole;
    }
    let mut digits = String::new();
    digits.append(digit_str(f / 100000));
    digits.append(digit_str(f / 10000 % 10));
    digits.append(digit_str(f / 1000 % 10));
    digits.append(digit_str(f / 100 % 10));
    digits.append(digit_str(f / 10 % 10));
    digits.append(digit_str(f % 10));
    assert(digits@ =~= six_digits(f as nat));
    let mut k: usize = 6;
    assert(digits@.subrange(0, 6) =~= digits@);
    while k > 0 && digits.as_str().get_char(k - 1) == '0'
        invariant
            k <= 6,
            digits@.len() == 6,
            trim_zeros(digits@.subrange(0, k as int)) == trim_zeros(digits@),
        decreases k,
    {
        assert(digits@.subrange(0, k as int).drop_last() =~= digits@.subrange(0, k - 1));
        k = k - 1;
    }
    let kept = digits.as_str().substring_char(0, k);
    assert(trim_zeros(digits@.subrange(0, k as int)) == digits@.subrange(0, k as int));
    proof {
        reveal_strlit(".");
    }
    let mut r = whole;
    r.append(".");
    r.append(kept);
    r
}

pub open spec fn is_digit(c: char) -> bool {
    '0' <= c && c <= '9'
}

pub open spec fn digit_value(c: char) -> nat {
    (c as u32 - '0' as u32) as nat
}

/// Value of a string of decimal digits (0 for the empty string).
pub open spec fn digits_value(s: Seq<char>) -> nat
    decreases s.len(),
{
    if s.len() == 0 {
        0
    } else {
        digits_value(s.drop_last()) * 10 + digit_value(s.last())
    }
}

/// `s` without one leading `+`.
pub open spec fn unsigned_digits(s: Seq<char>) -> Seq<char> {
    if s.len() > 0 && s[0] == '+' {
        s.subrange(1, s.len() as int)
    } else {
        s
    }
}

/// What `str::parse::<u64>` accepts: an optional `+`, then one or more ASCII
/// digits whose value fits in 64 bits.
pub open spec fn parse_u64_spec(s: Seq<char>) -> Option<u64> {
    let d = unsigned_digits(s);
    if d.len() > 0 && (forall|k: int| 0 <= k < d.len() ==> is_digit(#[trigger] d[k]))
        && digits_value(d) <= u64::MAX {
        Some(digits_value(d) as u64)
    } else {
        None
    }
}

proof fn lemma_digits_prefix_le(d: Seq<char>, i: int)
    requires
        0 <= i <= d.len(),
        forall|k: int| 0 <= k < d.len() ==> is_digit(#[trigger] d[k]),
    ensures
        digits_value(d.subrange(0, i)) <= digits_value(d),
    decreases d.len() - i,
{
    if i < d.len() {
        lemma_digits_prefix_le(d, i + 1);
        assert(d.subrange(0, i + 1).drop_last() =~= d.subrange(0, i));
    } else {
        assert(d.subrange(0, i) =~= d);
    }
}

/// Parses a decimal `u64` as `str::parse::<u64>` does.
pub fn parse_u64(s: &str) -> (r: Option<u64>)
    ensures
        r == parse_u64_spec(s@),
{
    let n = s.unicode_len();
    let mut i: usize = 0;
    if n > 0 && s.get_char(0) == '+' {
        i = 1;
    }
    let ghost d = s@.subrange(i as int, n as int);
    assert(d == unsigned_digits(s@)) by {
        if i == 0 {
            assert(d =~= s@);
        }
    }
    if i >= n {
        return None;
    }
    let first = i;
    let mut value: u64 = 0;
    while i < n
        invariant
            n == s@.len(),
            first <= i <= n,
            d == s@.subrange(first as int, n as int),
            d == unsigned_digits(s@),
            forall|k: int| 0 <= k < i - first ==> is_digit(#[trigger] d[k]),
            value as nat == digits_value(d.subrange(0, i - first)),
        decreases n - i,
    {
        let c = s.get_char(i);
        assert(c == d[i - first]);
        if !('0' <= c && c <= '9') {
            assert(!is_digit(d[i - first]));
            return None;
        }
        let dv: u64 = ((c as u32) - ('0' as u32)) as u64;
        assert(d.subrange(0, i + 1 - first).drop_last() =~= d.subrange(0, i - first));
        if value > (u64::MAX - dv) / 10 {
            proof {
                assert(digits_value(d.subrange(0, i + 1 - first)) > u64::MAX) by (nonlinear_arith)
                    requires
                        digits_value(d.subrange(0, i + 1 - first)) == value * 10 + dv,
                        value > (u64::MAX - dv) / 10,
                        dv < 10,
                ;
                if forall|k: int| 0 <= k < d.len() ==> is_digit(#[trigger] d[k]) {
                    lemma_digits_prefix_le(d, i + 1 - first);
                }
                assert(parse_u64_spec(s@).is_none());
            }
            return None;
        }
        value = value * 10 + dv;
        i = i + 1;
    }
    assert(d.subrange(0, n - first) =~= d);
    Some(value)
}

/// `t` cut to at most `max` characters by replacing a middle part with
/// `...`, keeping the last `keep_end` characters.
pub open spec fn truncate_middle(t: Seq<char>, max: nat, keep_end: nat) -> Seq<char> {
    if t.len() <= max {
        t
    } else {
        t.subrange(0, max - keep_end - 3) + "..."@ + t.subrange(t.len() - keep_end, t.len() as int)
    }
}

/// `t` cut to at most `max` characters, ending in `...` when cut.
pub open spec fn truncate_end(t: Seq<char>, max: nat) -> Seq<char> {
    if t.len() <= max {
        t
    } else {
        t.subrange(0, max - 3) + "..."@
    }
}

pub fn truncate_middle_string(t: String, max: usize, keep_end: usize) -> (r: String)
    requires
        max >= keep_end + 3,
    ensures
        r@ == truncate_middle(t@, max as nat, keep_end as nat),
        r@.len() <= max,
{
    let n = t.as_str().unicode_len();
    if n <= max {
        t
    } else {
        proof {
            reveal_strlit("...");
        }
        let head = t.as_str().substring_char(0, max - keep_end - 3);
        let tail = t.as_str().substring_char(n - keep_end, n);
        let mut r = String::from_str(head);
        r.append("...");
        r.append(tail);
        r
    }
}

pub fn truncate_end_string(t: String, max: usize) -> (r: String)
    requires
        max >= 3,
    ensures
        r@ == truncate_end(t@, max as nat),
        r@.len() <= max,
{
    let n = t.as_str().unicode_len();
    if n <= max {
        t
    } else {
        proof {
            reveal_strlit("...");
        }
        let head = t.as_str().substring_char(0, max - 3);
        let mut r = String::from_str(head);
        r.append("...");
        r
    }
}

} // verus!
