//! Character-level text utilities with exact specifications: decimal
//! rendering and parsing of integers, splitting, trimming, prefixes and the
//! UTF-8 byte offsets that Rust string slicing is expressed in.

use vstd::prelude::*;

verus! {

// ── Building strings ─────────────────────────────────────────────────────────

/// Appends one character to a string (`String::push`).
///
/// Trusted, as `String::push` is documented: the character is added at the
/// end and nothing else changes.
#[verifier::external_body]
pub(crate) fn push_char(s: &mut String, c: char)
    ensures
        final(s)@ == old(s)@.push(c),
{
    s.push(c);
}

/// The characters of a string slice, in order.
pub fn chars_of(s: &str) -> (v: Vec<char>)
    ensures
        v@ == s@,
{
    let mut v: Vec<char> = Vec::new();
    for c in it: s.chars()
        invariant
            v@ == it.seq().take(it.index() as int),
    {
        v.push(c);
    }
    v
}

/// Appends the characters `v[from..to]` to `s`.
pub fn push_chars(s: &mut String, v: &Vec<char>, from: usize, to: usize)
    requires
        from <= to <= v@.len(),
    ensures
        final(s)@ == old(s)@ + v@.subrange(from as int, to as int),
{
    let mut i = from;
    while i < to
        invariant
            from <= i <= to <= v@.len(),
            s@ == old(s)@ + v@.subrange(from as int, i as int),
        decreases to - i,
    {
        push_char(s, v[i]);
        i = i + 1;
        assert(v@.subrange(from as int, i as int) =~= v@.subrange(from as int, i - 1).push(
            v@[i - 1],
        ));
    }
}

/// A new string holding `v[from..to]`.
pub fn string_of_chars(v: &Vec<char>, from: usize, to: usize) -> (s: String)
    requires
        from <= to <= v@.len(),
    ensures
        s@ == v@.subrange(from as int, to as int),
{
    let mut s = String::new();
    push_chars(&mut s, v, from, to);
    assert(s@ =~= v@.subrange(from as int, to as int));
    s
}

/// A copy of a string slice as an owned string.
pub fn owned(s: &str) -> (r: String)
    ensures
        r@ == s@,
{
    s.to_owned()
}

// ── Decimal digits ───────────────────────────────────────────────────────────

/// The ASCII character of a decimal digit.
pub open spec fn digit_char(d: int) -> char {
    if d == 0 {
        '0'
    } else if d == 1 {
        '1'
    } else if d == 2 {
        '2'
    } else if d == 3 {
        '3'
    } else if d == 4 {
        '4'
    } else if d == 5 {
        '5'
    } else if d == 6 {
        '6'
    } else if d == 7 {
        '7'
    } else if d == 8 {
        '8'
    } else {
        '9'
    }
}

/// The value of a decimal digit character (meaningful for `'0'..='9'`).
pub open spec fn digit_value(c: char) -> int {
    c as int - '0' as int
}

pub open spec fn is_digit(c: char) -> bool {
    '0' <= c && c <= '9'
}

/// Decimal rendering of a natural number, without leading zeros.
pub open spec fn nat_digits(n: nat) -> Seq<char>
    decreases n,
{
    if n < 10 {
        seq![digit_char(n as int)]
    } else {
        nat_digits(n / 10).push(digit_char((n % 10) as int))
    }
}

/// Decimal rendering of an integer as `Display` writes it: a `-` sign for
/// negative values, then the digits of the magnitude.
pub open spec fn int_digits(n: int) -> Seq<char> {
    if n < 0 {
        seq!['-'] + nat_digits((-n) as nat)
    } else {
        nat_digits(n as nat)
    }
}

/// The digits of `n` read back give `n`; they begin with a digit.
pub proof fn lemma_nat_digits_value(n: nat)
    ensures
        nat_digits(n).len() >= 1,
        digits_value(nat_digits(n)) == n,
        is_digit(nat_digits(n)[0]),
    decreases n,
{
    lemma_digit_char_value((n % 10) as int);
    if n >= 10 {
        lemma_nat_digits_value(n / 10);
        let p = nat_digits(n / 10);
        assert(nat_digits(n).drop_last() =~= p);
        assert(nat_digits(n)[0] == p[0]);
        assert(digits_value(nat_digits(n)) == digits_value(p) * 10 + digit_value(
            digit_char((n % 10) as int),
        ));
    } else {
        let q = nat_digits(n);
        assert(q.drop_last() =~= Seq::<char>::empty());
        assert(digits_value(q) == digits_value(q.drop_last()) * 10 + digit_value(q.last()));
    }
}

/// A digit character reads back as its value.
proof fn lemma_digit_char_value(k: int)
    requires
        0 <= k < 10,
    ensures
        digit_value(digit_char(k)) == k,
        is_digit(digit_char(k)),
{
}

/// Different integers are written differently.
pub proof fn lemma_int_digits_injective(a: int, b: int)
    ensures
        int_digits(a) == int_digits(b) ==> a == b,
{
    if int_digits(a) == int_digits(b) {
        if a < 0 {
            lemma_nat_digits_value((-a) as nat);
        }
        if b < 0 {
            lemma_nat_digits_value((-b) as nat);
        }
        if a >= 0 {
            lemma_nat_digits_value(a as nat);
        }
        if b >= 0 {
            lemma_nat_digits_value(b as nat);
        }
        if a < 0 && b < 0 {
            assert(int_digits(a).drop_first() =~= nat_digits((-a) as nat));
            assert(int_digits(b).drop_first() =~= nat_digits((-b) as nat));
        } else if a < 0 {
            assert(int_digits(a)[0] == '-');
        } else if b < 0 {
            assert(int_digits(b)[0] == '-');
        }
    }
}

/// Equal texts with the same prefix and suffix have the same middle.
pub proof fn lemma_concat_cancel(x: Seq<char>, y1: Seq<char>, y2: Seq<char>, t: Seq<char>)
    ensures
        (x + y1) + t == (x + y2) + t ==> y1 == y2,
{
    if (x + y1) + t == (x + y2) + t {
        assert(((x + y1) + t).len() == ((x + y2) + t).len());
        assert(y1.len() == y2.len());
        assert forall|k: int| 0 <= k < y1.len() implies y1[k] == y2[k] by {
            assert(((x + y1) + t)[x.len() + k] == y1[k]);
            assert(((x + y2) + t)[x.len() + k] == y2[k]);
        }
        assert(y1 =~= y2);
    }
}

fn digit_char_exec(d: u64) -> (c: char)
    requires
        d < 10,
    ensures
        c == digit_char(d as int),
{
    if d == 0 {
        '0'
    } else if d == 1 {
        '1'
    } else if d == 2 {
        '2'
    } else if d == 3 {
        '3'
    } else if d == 4 {
        '4'
    } else if d == 5 {
        '5'
    } else if d == 6 {
        '6'
    } else if d == 7 {
        '7'
    } else if d == 8 {
        '8'
    } else {
        '9'
    }
}

/// Appends the decimal digits of `n`.
pub fn push_u64(s: &mut String, n: u64)
    ensures
        final(s)@ == old(s)@ + nat_digits(n as nat),
    decreases n,
{
    if n >= 10 {
        push_u64(s, n / 10);
    }
    push_char(s, digit_char_exec(n % 10));
    proof {
        if n >= 10 {
            assert(nat_digits(n as nat) == nat_digits((n / 10) as nat).push(
                digit_char((n % 10) as int),
            ));
        }
    }
}

/// Appends the decimal rendering of `n` (with a `-` sign when negative).
pub fn push_i64(s: &mut String, n: i64)
    ensures
        final(s)@ == old(s)@ + int_digits(n as int),
{
    if n < 0 {
        push_char(s, '-');
        let m: u64 = (0i128 - n as i128) as u64;
        push_u64(s, m);
        assert(s@ =~= old(s)@ + int_digits(n as int));
    } else {
        push_u64(s, n as u64);
    }
}

/// The decimal rendering of `n`, as `n.to_string()` gives it.
pub fn i64_to_string(n: i64) -> (s: String)
    ensures
        s@ == int_digits(n as int),
{
    let mut s = String::new();
    push_i64(&mut s, n);
    assert(s@ =~= int_digits(n as int));
    s
}

// ── Parsing unsigned and signed decimal integers ─────────────────────────────

/// The value of a run of decimal digits (most significant first).
pub open spec fn digits_value(s: Seq<char>) -> int
    decreases s.len(),
{
    if s.len() == 0 {
        0
    } else {
        digits_value(s.drop_last()) * 10 + digit_value(s.last())
    }
}

pub open spec fn all_digits(s: Seq<char>) -> bool {
    forall|i: int| 0 <= i < s.len() ==> is_digit(#[trigger] s[i])
}

/// `str::parse::<u32>`: an optional `+`, then one or more ASCII digits whose
/// value fits in a `u32`; anything else is an error (`None`).
pub open spec fn parse_u32_spec(s: Seq<char>) -> Option<u32> {
    let body = if s.len() > 0 && s[0] == '+' {
        s.drop_first()
    } else {
        s
    };
    if body.len() > 0 && all_digits(body) && digits_value(body) <= u32::MAX {
        Some(digits_value(body) as u32)
    } else {
        None
    }
}

/// `str::parse::<i32>`: an optional `+` or `-`, then one or more ASCII digits
/// whose signed value fits in an `i32`; anything else is an error (`None`).
pub open spec fn parse_i32_spec(s: Seq<char>) -> Option<i32> {
    let neg = s.len() > 0 && s[0] == '-';
    let body = if s.len() > 0 && (s[0] == '+' || s[0] == '-') {
        s.drop_first()
    } else {
        s
    };
    let v = if neg {
        -digits_value(body)
    } else {
        digits_value(body)
    };
    if body.len() > 0 && all_digits(body) && i32::MIN <= v <= i32::MAX {
        Some(v as i32)
    } else {
        None
    }
}

proof fn lemma_digits_value_nonneg(s: Seq<char>)
    requires
        all_digits(s),
    ensures
        digits_value(s) >= 0,
    decreases s.len(),
{
    if s.len() > 0 {
        assert(all_digits(s.drop_last())) by {
            assert forall|i: int| 0 <= i < s.drop_last().len() implies is_digit(
                #[trigger] s.drop_last()[i],
            ) by {
                assert(s.drop_last()[i] == s[i]);
            }
        }
        lemma_digits_value_nonneg(s.drop_last());
        assert(is_digit(s[s.len() - 1]));
    }
}

/// Reads the digits `v[from..]`, stopping with `None` at a non-digit or as soon
/// as the value exceeds `bound`.
fn digits_upto(v: &Vec<char>, from: usize, bound: u64) -> (r: Option<u64>)
    requires
        from <= v@.len(),
        bound <= u32::MAX as u64 + 1,
    ensures
        ({
            let body = v@.subrange(from as int, v@.len() as int);
            match r {
                Some(x) => all_digits(body) && x == digits_value(body) && x <= bound,
                None => !(all_digits(body) && digits_value(body) <= bound),
            }
        }),
{
    let mut acc: u64 = 0;
    let mut i = from;
    while i < v.len()
        invariant
            from <= i <= v@.len(),
            bound <= u32::MAX as u64 + 1,
            all_digits(v@.subrange(from as int, i as int)),
            acc == digits_value(v@.subrange(from as int, i as int)),
            acc <= bound,
        decreases v@.len() - i,
    {
        let c = v[i];
        let ghost prev = v@.subrange(from as int, i as int);
        let ghost next = v@.subrange(from as int, i + 1);
        assert(next.drop_last() =~= prev);
        assert(next.last() == c);
        if !('0' <= c && c <= '9') {
            proof {
                let body = v@.subrange(from as int, v@.len() as int);
                assert(body[i - from] == c);
            }
            return None;
        }
        let d = (c as u32 - '0' as u32) as u64;
        let nacc = acc * 10 + d;
        assert(all_digits(next)) by {
            assert forall|k: int| 0 <= k < next.len() implies is_digit(#[trigger] next[k]) by {
                if k < prev.len() {
                    assert(next[k] == prev[k]);
                }
            }
        }
        if nacc > bound {
            proof {
                let body = v@.subrange(from as int, v@.len() as int);
                if all_digits(body) {
                    lemma_digits_prefix_le(body, (i + 1 - from) as int);
                    assert(body.take((i + 1 - from) as int) =~= next);
                }
            }
            return None;
        }
        acc = nacc;
        i = i + 1;
    }
    Some(acc)
}

/// The value of a prefix of a digit run never exceeds that of the run.
proof fn lemma_digits_prefix_le(s: Seq<char>, k: int)
    requires
        all_digits(s),
        0 <= k <= s.len(),
    ensures
        digits_value(s.take(k)) <= digits_value(s),
    decreases s.len() - k,
{
    if k < s.len() {
        let t = s.take(k + 1);
        assert(t.drop_last() =~= s.take(k));
        assert(all_digits(t)) by {
            assert forall|i: int| 0 <= i < t.len() implies is_digit(#[trigger] t[i]) by {
                assert(t[i] == s[i]);
            }
        }
        lemma_digits_value_nonneg(t.drop_last());
        assert(is_digit(s[k]));
        assert(t.last() == s[k]);
        assert(digits_value(s.take(k)) <= digits_value(t)) by (nonlinear_arith)
            requires
                digits_value(t) == digits_value(s.take(k)) * 10 + digit_value(s[k]),
                digits_value(s.take(k)) >= 0,
                digit_value(s[k]) >= 0,
        ;
        lemma_digits_prefix_le(s, k + 1);
    } else {
        assert(s.take(k) =~= s);
    }
}

/// `s.parse::<u32>().ok()`.
pub fn parse_u32(s: &Vec<char>) -> (r: Option<u32>)
    ensures
        r == parse_u32_spec(s@),
{
    let from: usize = if s.len() > 0 && s[0] == '+' {
        1
    } else {
        0
    };
    let ghost body = if s@.len() > 0 && s@[0] == '+' {
        s@.drop_first()
    } else {
        s@
    };
    assert(body =~= s@.subrange(from as int, s@.len() as int));
    if from >= s.len() {
        return None;
    }
    match digits_upto(s, from, u32::MAX as u64) {
        Some(x) => Some(x as u32),
        None => None,
    }
}

/// `s.parse::<i32>().ok()`.
pub fn parse_i32(s: &Vec<char>) -> (r: Option<i32>)
    ensures
        r == parse_i32_spec(s@),
{
    let neg = s.len() > 0 && s[0] == '-';
    let from: usize = if s.len() > 0 && (s[0] == '+' || s[0] == '-') {
        1
    } else {
        0
    };
    let ghost body = if s@.len() > 0 && (s@[0] == '+' || s@[0] == '-') {
        s@.drop_first()
    } else {
        s@
    };
    assert(body =~= s@.subrange(from as int, s@.len() as int));
    if from >= s.len() {
        return None;
    }
    let bound: u64 = if neg {
        2147483648
    } else {
        2147483647
    };
    match digits_upto(s, from, bound) {
        Some(x) => {
            if neg {
                Some((0i64 - x as i64) as i32)
            } else {
                Some(x as i32)
            }
        },
        None => {
            proof {
                if all_digits(body) {
                    lemma_digits_value_nonneg(body);
                }
            }
            None
        },
    }
}


// ── Splitting and trimming ───────────────────────────────────────────────────

/// The pieces of `s` between occurrences of `d`, as `str::split(d)` yields
/// them: empty pieces are kept, and there is always at least one piece.
pub open spec fn split_on(s: Seq<char>, d: char) -> Seq<Seq<char>>
    decreases s.len(),
{
    if s.len() == 0 {
        seq![Seq::<char>::empty()]
    } else {
        let prev = split_on(s.drop_last(), d);
        if s.last() == d {
            prev.push(Seq::<char>::empty())
        } else {
            prev.update(prev.len() - 1, prev.last().push(s.last()))
        }
    }
}

proof fn lemma_split_on_nonempty(s: Seq<char>, d: char)
    ensures
        split_on(s, d).len() >= 1,
    decreases s.len(),
{
    if s.len() > 0 {
        lemma_split_on_nonempty(s.drop_last(), d);
    }
}

/// `s.split(d).collect::<Vec<_>>()`, each piece as a vector of characters.
pub fn split_chars(s: &Vec<char>, d: char) -> (parts: Vec<Vec<char>>)
    ensures
        parts@.len() == split_on(s@, d).len(),
        forall|i: int| 0 <= i < parts@.len() ==> #[trigger] parts@[i]@ == split_on(s@, d)[i],
{
    let mut parts: Vec<Vec<char>> = Vec::new();
    parts.push(Vec::new());
    let mut i: usize = 0;
    assert(s@.take(0) =~= Seq::<char>::empty());
    while i < s.len()
        invariant
            0 <= i <= s@.len(),
            parts@.len() == split_on(s@.take(i as int), d).len(),
            parts@.len() >= 1,
            forall|k: int|
                0 <= k < parts@.len() ==> #[trigger] parts@[k]@ == split_on(
                    s@.take(i as int),
                    d,
                )[k],
        decreases s@.len() - i,
    {
        let c = s[i];
        let ghost prev_parts = parts@;
        let ghost t = s@.take(i + 1);
        assert(t.drop_last() =~= s@.take(i as int));
        assert(t.last() == c);
        if c == d {
            parts.push(Vec::new());
        } else {
            let last = parts.len() - 1;
            let mut piece = parts.pop().unwrap();
            piece.push(c);
            parts.push(piece);
            assert forall|k: int| 0 <= k < parts@.len() implies #[trigger] parts@[k]@ == split_on(
                t,
                d,
            )[k] by {
                if k < last {
                    assert(parts@[k] == prev_parts[k]);
                }
            }
        }
        i = i + 1;
    }
    assert(s@.take(s@.len() as int) =~= s@);
    parts
}

/// `s` with every leading `c` removed (`str::trim_start_matches(c)`).
pub open spec fn trim_start_char(s: Seq<char>, c: char) -> Seq<char>
    decreases s.len(),
{
    if s.len() > 0 && s[0] == c {
        trim_start_char(s.drop_first(), c)
    } else {
        s
    }
}

/// Index of the first character of `v` that is not `c` (or `v.len()`).
pub fn skip_leading(v: &Vec<char>, c: char) -> (i: usize)
    ensures
        i <= v@.len(),
        v@.subrange(i as int, v@.len() as int) == trim_start_char(v@, c),
{
    let mut i: usize = 0;
    assert(v@.subrange(0, v@.len() as int) =~= v@);
    while i < v.len() && v[i] == c
        invariant
            i <= v@.len(),
            trim_start_char(v@.subrange(i as int, v@.len() as int), c) == trim_start_char(v@, c),
        decreases v@.len() - i,
    {
        let ghost cur = v@.subrange(i as int, v@.len() as int);
        assert(cur.drop_first() =~= v@.subrange(i + 1, v@.len() as int));
        i = i + 1;
    }
    proof {
        let cur = v@.subrange(i as int, v@.len() as int);
        if i < v@.len() {
            assert(cur[0] == v@[i as int]);
        }
    }
    i
}

/// Unicode `White_Space` (what `char::is_whitespace` tests and `str::trim`
/// removes).
pub open spec fn is_whitespace(c: char) -> bool {
    ||| ('\u{9}' <= c && c <= '\u{d}')
    ||| c == ' '
    ||| c == '\u{85}'
    ||| c == '\u{a0}'
    ||| c == '\u{1680}'
    ||| ('\u{2000}' <= c && c <= '\u{200a}')
    ||| c == '\u{2028}'
    ||| c == '\u{2029}'
    ||| c == '\u{202f}'
    ||| c == '\u{205f}'
    ||| c == '\u{3000}'
}

pub fn is_whitespace_exec(c: char) -> (b: bool)
    ensures
        b == is_whitespace(c),
{
    ('\u{9}' <= c && c <= '\u{d}') || c == ' ' || c == '\u{85}' || c == '\u{a0}' || c
        == '\u{1680}' || ('\u{2000}' <= c && c <= '\u{200a}') || c == '\u{2028}' || c
        == '\u{2029}' || c == '\u{202f}' || c == '\u{205f}' || c == '\u{3000}'
}

/// `s` without leading whitespace.
pub open spec fn trim_start_ws(s: Seq<char>) -> Seq<char>
    decreases s.len(),
{
    if s.len() > 0 && is_whitespace(s[0]) {
        trim_start_ws(s.drop_first())
    } else {
        s
    }
}

/// `s` without trailing whitespace.
pub open spec fn trim_end_ws(s: Seq<char>) -> Seq<char>
    decreases s.len(),
{
    if s.len() > 0 && is_whitespace(s.last()) {
        trim_end_ws(s.drop_last())
    } else {
        s
    }
}

/// `str::trim`: `s` without leading and trailing whitespace.
pub open spec fn trim_ws(s: Seq<char>) -> Seq<char> {
    trim_end_ws(trim_start_ws(s))
}

/// Bounds `(a, b)` with `v[a..b] == trim_ws(v[from..to])`.
pub fn trim_bounds(v: &Vec<char>, from: usize, to: usize) -> (r: (usize, usize))
    requires
        from <= to <= v@.len(),
    ensures
        from <= r.0 <= r.1 <= to,
        v@.subrange(r.0 as int, r.1 as int) == trim_ws(v@.subrange(from as int, to as int)),
{
    let mut a = from;
    while a < to && is_whitespace_exec(v[a])
        invariant
            from <= a <= to <= v@.len(),
            trim_start_ws(v@.subrange(a as int, to as int)) == trim_start_ws(
                v@.subrange(from as int, to as int),
            ),
        decreases to - a,
    {
        let ghost cur = v@.subrange(a as int, to as int);
        assert(cur.drop_first() =~= v@.subrange(a + 1, to as int));
        a = a + 1;
    }
    proof {
        let cur = v@.subrange(a as int, to as int);
        if a < to {
            assert(cur[0] == v@[a as int]);
        }
    }
    let mut b = to;
    while b > a && is_whitespace_exec(v[b - 1])
        invariant
            from <= a <= b <= to <= v@.len(),
            trim_end_ws(v@.subrange(a as int, b as int)) == trim_end_ws(
                v@.subrange(a as int, to as int),
            ),
        decreases b - a,
    {
        let ghost cur = v@.subrange(a as int, b as int);
        assert(cur.drop_last() =~= v@.subrange(a as int, b - 1));
        b = b - 1;
    }
    proof {
        let cur = v@.subrange(a as int, b as int);
        if b > a {
            assert(cur.last() == v@[b - 1]);
        }
    }
    (a, b)
}

/// `s.trim().to_owned()`.
pub fn trimmed(s: &str) -> (r: String)
    ensures
        r@ == trim_ws(s@),
{
    let v = chars_of(s);
    let (a, b) = trim_bounds(&v, 0, v.len());
    assert(v@.subrange(0, v@.len() as int) =~= v@);
    string_of_chars(&v, a, b)
}

/// `s.trim().is_empty()`: every character of `s` is whitespace.
pub fn is_blank(s: &str) -> (b: bool)
    ensures
        b == (trim_ws(s@).len() == 0),
{
    let v = chars_of(s);
    let (a, b) = trim_bounds(&v, 0, v.len());
    assert(v@.subrange(0, v@.len() as int) =~= v@);
    a == b
}

/// `text.trim()` when that is not empty, else `None` (the forms' optional
/// fields).
pub open spec fn non_blank(s: Seq<char>) -> Option<Seq<char>> {
    if trim_ws(s).len() == 0 {
        None
    } else {
        Some(trim_ws(s))
    }
}

pub fn non_blank_exec(s: &str) -> (r: Option<String>)
    ensures
        r matches Some(x) ==> non_blank(s@) == Some(x@),
        r is None <==> non_blank(s@) is None,
{
    let t = trimmed(s);
    if t.as_str().is_empty() {
        None
    } else {
        Some(t)
    }
}

/// `a == b` for string slices.
pub fn str_eq(a: &str, b: &str) -> (r: bool)
    ensures
        r == (a@ == b@),
{
    let av = chars_of(a);
    let bv = chars_of(b);
    if av.len() != bv.len() {
        return false;
    }
    let mut i: usize = 0;
    while i < av.len()
        invariant
            av@ == a@,
            bv@ == b@,
            av@.len() == bv@.len(),
            i <= av@.len(),
            forall|k: int| 0 <= k < i ==> av@[k] == bv@[k],
        decreases av@.len() - i,
    {
        if av[i] != bv[i] {
            return false;
        }
        i = i + 1;
    }
    assert(av@ =~= bv@);
    true
}

// ── Prefixes ─────────────────────────────────────────────────────────────────

/// `s.starts_with(p)`.
pub open spec fn has_prefix(s: Seq<char>, p: Seq<char>) -> bool {
    p.len() <= s.len() && s.take(p.len() as int) == p
}

pub fn starts_with(s: &str, p: &str) -> (b: bool)
    ensures
        b == has_prefix(s@, p@),
{
    let sv = chars_of(s);
    let pv = chars_of(p);
    if pv.len() > sv.len() {
        return false;
    }
    let mut i: usize = 0;
    while i < pv.len()
        invariant
            sv@ == s@,
            pv@ == p@,
            pv@.len() <= sv@.len(),
            i <= pv@.len(),
            forall|k: int| 0 <= k < i ==> sv@[k] == pv@[k],
        decreases pv@.len() - i,
    {
        if sv[i] != pv[i] {
            assert(sv@.take(pv@.len() as int)[i as int] == sv@[i as int]);
            assert(sv@.take(pv@.len() as int) != pv@);
            return false;
        }
        i = i + 1;
    }
    assert(sv@.take(pv@.len() as int) =~= pv@);
    true
}

// ── UTF-8 byte offsets ───────────────────────────────────────────────────────

/// Number of bytes of the UTF-8 encoding of `c` (`char::len_utf8`).
pub open spec fn char_width(c: char) -> nat {
    if (c as u32) <= 0x7f {
        1
    } else if (c as u32) <= 0x7ff {
        2
    } else if (c as u32) <= 0xffff {
        3
    } else {
        4
    }
}

pub fn char_width_exec(c: char) -> (w: usize)
    ensures
        w == char_width(c),
{
    let v = c as u32;
    if v <= 0x7f {
        1
    } else if v <= 0x7ff {
        2
    } else if v <= 0xffff {
        3
    } else {
        4
    }
}

/// Number of bytes of the UTF-8 encoding of `s` (`str::len`).
pub open spec fn utf8_len(s: Seq<char>) -> nat
    decreases s.len(),
{
    if s.len() == 0 {
        0
    } else {
        utf8_len(s.drop_last()) + char_width(s.last())
    }
}

/// The number of characters that start before byte offset `k`, scanning
/// from character `j`: the first prefix of at least `k` bytes.
pub open spec fn char_index_from(s: Seq<char>, k: int, j: int) -> int
    decreases s.len() - j,
{
    if j >= s.len() || j < 0 || utf8_len(s.take(j)) >= k {
        j
    } else {
        char_index_from(s, k, j + 1)
    }
}

/// The character index that byte offset `k` falls on.
pub open spec fn char_index(s: Seq<char>, k: int) -> int {
    char_index_from(s, k, 0)
}

/// Byte offset `k` is a character boundary of `s` (`str::is_char_boundary`):
/// some prefix of `s` is exactly `k` bytes long.
pub open spec fn is_boundary(s: Seq<char>, k: int) -> bool {
    0 <= k <= utf8_len(s) && utf8_len(s.take(char_index(s, k))) == k
}

/// The characters of `&s[a..b]` (byte offsets).
pub open spec fn byte_slice(s: Seq<char>, a: int, b: int) -> Seq<char> {
    s.subrange(char_index(s, a), char_index(s, b))
}

proof fn lemma_utf8_len_take_step(s: Seq<char>, j: int)
    requires
        0 <= j < s.len(),
    ensures
        utf8_len(s.take(j + 1)) == utf8_len(s.take(j)) + char_width(s[j]),
{
    assert(s.take(j + 1).drop_last() =~= s.take(j));
}

proof fn lemma_char_index_from_range(s: Seq<char>, k: int, j: int)
    requires
        0 <= j <= s.len(),
    ensures
        j <= char_index_from(s, k, j) <= s.len(),
    decreases s.len() - j,
{
    if !(j >= s.len() || utf8_len(s.take(j)) >= k) {
        lemma_char_index_from_range(s, k, j + 1);
    }
}

/// The character index of byte offset `k` in `v`, and the byte length of
/// the characters before it.
pub fn locate_byte(v: &Vec<char>, k: usize) -> (r: (usize, usize))
    requires
        k <= usize::MAX - 4,
    ensures
        r.0 == char_index(v@, k as int),
        r.0 <= v@.len(),
        r.1 == utf8_len(v@.take(r.0 as int)),
        r.0 < v@.len() ==> r.1 >= k,
{
    let mut j: usize = 0;
    let mut acc: usize = 0;
    assert(v@.take(0) =~= Seq::<char>::empty());
    while j < v.len() && acc < k
        invariant
            j <= v@.len(),
            acc == utf8_len(v@.take(j as int)),
            k <= usize::MAX - 4,
            char_index_from(v@, k as int, j as int) == char_index(v@, k as int),
        decreases v@.len() - j,
    {
        proof {
            lemma_utf8_len_take_step(v@, j as int);
        }
        acc = acc + char_width_exec(v[j]);
        j = j + 1;
    }
    proof {
        lemma_char_index_from_range(v@, k as int, 0);
    }
    (j, acc)
}

/// Longer prefixes are at least as many bytes long.
pub proof fn lemma_utf8_len_take_mono(s: Seq<char>, a: int, b: int)
    requires
        0 <= a <= b <= s.len(),
    ensures
        utf8_len(s.take(a)) <= utf8_len(s.take(b)),
        a < b ==> utf8_len(s.take(a)) < utf8_len(s.take(b)),
    decreases b - a,
{
    if a < b {
        lemma_utf8_len_take_step(s, b - 1);
        lemma_utf8_len_take_mono(s, a, b - 1);
    }
}

/// Whether `utf8_len(v) < k`.
pub fn byte_len_below(v: &Vec<char>, k: usize) -> (b: bool)
    requires
        k <= usize::MAX - 4,
    ensures
        b == (utf8_len(v@) < k),
{
    let (j, acc) = locate_byte(v, k);
    proof {
        lemma_utf8_len_take_mono(v@, j as int, v@.len() as int);
        assert(v@.take(v@.len() as int) =~= v@);
    }
    j == v.len() && acc < k
}

/// `utf8_len(v)`.
pub fn byte_len(v: &Vec<char>) -> (n: usize)
    requires
        v@.len() <= usize::MAX / 4,
    ensures
        n == utf8_len(v@),
{
    let mut j: usize = 0;
    let mut acc: usize = 0;
    assert(v@.take(0) =~= Seq::<char>::empty());
    while j < v.len()
        invariant
            j <= v@.len() <= usize::MAX / 4,
            acc == utf8_len(v@.take(j as int)),
            acc <= 4 * j,
        decreases v@.len() - j,
    {
        proof {
            lemma_utf8_len_take_step(v@, j as int);
        }
        acc = acc + char_width_exec(v[j]);
        j = j + 1;
    }
    assert(v@.take(v@.len() as int) =~= v@);
    acc
}

} // verus!
