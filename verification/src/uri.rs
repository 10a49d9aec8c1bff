//! `encodeURIComponent`: the query-string escaping that the API client applies
//! to user-supplied path and query values.

use vstd::prelude::*;
use vstd::utf8::*;
use crate::text::push_char;

verus! {

/// Characters that `encodeURIComponent` leaves as they are:
/// `A-Z a-z 0-9 - _ . ! ~ * ' ( )`.
pub open spec fn is_uri_unreserved(c: char) -> bool {
    ||| ('A' <= c && c <= 'Z')
    ||| ('a' <= c && c <= 'z')
    ||| ('0' <= c && c <= '9')
    ||| c == '-'
    ||| c == '_'
    ||| c == '.'
    ||| c == '!'
    ||| c == '~'
    ||| c == '*'
    ||| c == '\''
    ||| c == '('
    ||| c == ')'
}

/// Upper-case hexadecimal digit of `n` (`0 <= n < 16`).
pub open spec fn hex_upper(n: int) -> char {
    if n < 10 {
        crate::text::digit_char(n)
    } else if n == 10 {
        'A'
    } else if n == 11 {
        'B'
    } else if n == 12 {
        'C'
    } else if n == 13 {
        'D'
    } else if n == 14 {
        'E'
    } else {
        'F'
    }
}

/// `%XY` for each byte, with upper-case hexadecimal digits.
pub open spec fn percent_bytes(bs: Seq<u8>) -> Seq<char>
    decreases bs.len(),
{
    if bs.len() == 0 {
        Seq::empty()
    } else {
        percent_bytes(bs.drop_last()) + seq![
            '%',
            hex_upper((bs.last() / 16) as int),
            hex_upper((bs.last() % 16) as int),
        ]
    }
}

/// `encodeURIComponent(s)`: unreserved characters are kept, every other
/// character is replaced by the percent-escapes of its UTF-8 bytes.
pub open spec fn uri_component(s: Seq<char>) -> Seq<char>
    decreases s.len(),
{
    if s.len() == 0 {
        Seq::empty()
    } else {
        uri_component(s.drop_last()) + if is_uri_unreserved(s.last()) {
            seq![s.last()]
        } else {
            percent_bytes(encode_scalar(s.last() as u32))
        }
    }
}

fn is_uri_unreserved_exec(c: char) -> (b: bool)
    ensures
        b == is_uri_unreserved(c),
{
    ('A' <= c && c <= 'Z') || ('a' <= c && c <= 'z') || ('0' <= c && c <= '9') || c == '-' || c
        == '_' || c == '.' || c == '!' || c == '~' || c == '*' || c == '\'' || c == '(' || c
        == ')'
}

pub fn hex_upper_exec(n: u8) -> (c: char)
    requires
        n < 16,
    ensures
        c == hex_upper(n as int),
{
    match n {
        0 => '0',
        1 => '1',
        2 => '2',
        3 => '3',
        4 => '4',
        5 => '5',
        6 => '6',
        7 => '7',
        8 => '8',
        9 => '9',
        10 => 'A',
        11 => 'B',
        12 => 'C',
        13 => 'D',
        14 => 'E',
        _ => 'F',
    }
}

/// The UTF-8 bytes of one character.
pub fn utf8_bytes(c: char) -> (v: Vec<u8>)
    ensures
        v@ == encode_scalar(c as u32),
{
    proof {
        char_is_scalar(c);
    }
    let x = c as u32;
    if x <= 0x7f {
        vec![(x & 0x7f) as u8]
    } else if x <= 0x7ff {
        vec![0xc0 | ((x >> 6) & 0x1f) as u8, 0x80 | (x & 0x3f) as u8]
    } else if x <= 0xffff {
        vec![
            0xe0 | ((x >> 12) & 0x0f) as u8,
            0x80 | ((x >> 6) & 0x3f) as u8,
            0x80 | (x & 0x3f) as u8,
        ]
    } else {
        vec![
            0xf0 | ((x >> 18) & 0x7) as u8,
            0x80 | ((x >> 12) & 0x3f) as u8,
            0x80 | ((x >> 6) & 0x3f) as u8,
            0x80 | (x & 0x3f) as u8,
        ]
    }
}

fn push_percent_bytes(s: &mut String, bs: &Vec<u8>)
    ensures
        final(s)@ == old(s)@ + percent_bytes(bs@),
{
    let mut i: usize = 0;
    assert(bs@.take(0) =~= Seq::<u8>::empty());
    while i < bs.len()
        invariant
            i <= bs@.len(),
            s@ == old(s)@ + percent_bytes(bs@.take(i as int)),
        decreases bs@.len() - i,
    {
        let b = bs[i];
        push_char(s, '%');
        push_char(s, hex_upper_exec(b / 16));
        push_char(s, hex_upper_exec(b % 16));
        let ghost t = bs@.take(i + 1);
        assert(t.drop_last() =~= bs@.take(i as int));
        assert(t.last() == b);
        i = i + 1;
        assert(s@ =~= old(s)@ + percent_bytes(t));
    }
    assert(bs@.take(bs@.len() as int) =~= bs@);
}

/// Appends `encodeURIComponent(v)`.
pub fn push_uri_component(s: &mut String, v: &str)
    ensures
        final(s)@ == old(s)@ + uri_component(v@),
{
    let cs = crate::text::chars_of(v);
    let mut i: usize = 0;
    assert(cs@.take(0) =~= Seq::<char>::empty());
    while i < cs.len()
        invariant
            i <= cs@.len(),
            s@ == old(s)@ + uri_component(cs@.take(i as int)),
        decreases cs@.len() - i,
    {
        let c = cs[i];
        let ghost t = cs@.take(i + 1);
        assert(t.drop_last() =~= cs@.take(i as int));
        assert(t.last() == c);
        if is_uri_unreserved_exec(c) {
            push_char(s, c);
        } else {
            let bs = utf8_bytes(c);
            push_percent_bytes(s, &bs);
        }
        i = i + 1;
        assert(s@ =~= old(s)@ + uri_component(t));
    }
    assert(cs@.take(cs@.len() as int) =~= cs@);
}

/// `encodeURIComponent(v)` as a new string.
pub fn urlenc(v: &str) -> (r: String)
    ensures
        r@ == uri_component(v@),
{
    let mut s = String::new();
    push_uri_component(&mut s, v);
    assert(s@ =~= uri_component(v@));
    s
}

// ── Laws ─────────────────────────────────────────────────────────────────────

/// Escaping `n` bytes gives `3 n` characters, each group `%` and two digits.
proof fn lemma_percent_bytes_shape(bs: Seq<u8>)
    ensures
        percent_bytes(bs).len() == 3 * bs.len(),
        bs.len() > 0 ==> percent_bytes(bs)[0] == '%',
    decreases bs.len(),
{
    if bs.len() > 0 {
        lemma_percent_bytes_shape(bs.drop_last());
        if bs.len() == 1 {
            assert(percent_bytes(bs.drop_last()) =~= Seq::<char>::empty());
        }
    }
}

/// Encoding works character by character: the encoding of a concatenation
/// is the concatenation of the encodings.
pub proof fn law_uri_component_concat(s: Seq<char>, t: Seq<char>)
    ensures
        uri_component(s + t) == uri_component(s) + uri_component(t),
    decreases t.len(),
{
    if t.len() == 0 {
        assert(s + t =~= s);
        assert(uri_component(s) + uri_component(t) =~= uri_component(s));
    } else {
        law_uri_component_concat(s, t.drop_last());
        assert((s + t).drop_last() =~= s + t.drop_last());
        assert((s + t).last() == t.last());
        let tail = if is_uri_unreserved(t.last()) {
            seq![t.last()]
        } else {
            percent_bytes(encode_scalar(t.last() as u32))
        };
        assert(uri_component(s) + uri_component(t.drop_last()) + tail =~= uri_component(s) + (
        uri_component(t.drop_last()) + tail));
    }
}

/// The characters written as they are are exactly the ASCII letters and
/// digits and `- _ . ! ~ * ' ( )`; every other character (`+`, `@`, a space,
/// `%`, `/`, any non-ASCII character, ...) is written as at least one `%XX`
/// escape, one per UTF-8 byte.
pub proof fn law_uri_kept_characters(c: char)
    ensures
        uri_component(seq![c]) == seq![c] <==> (('A' <= c && c <= 'Z') || ('a' <= c && c <= 'z')
            || ('0' <= c && c <= '9') || "-_.!~*'()"@.contains(c)),
        uri_component(seq![c]) != seq![c] ==> uri_component(seq![c])[0] == '%'
            && uri_component(seq![c]).len() == 3 * encode_scalar(c as u32).len()
            && uri_component(seq![c]).len() >= 3,
{
    reveal_strlit("-_.!~*'()");
    let one = seq![c];
    assert(one.drop_last() =~= Seq::<char>::empty());
    assert(one.last() == c);
    assert(uri_component(Seq::<char>::empty()) == Seq::<char>::empty());
    assert(uri_component(one) == uri_component(one.drop_last()) + if is_uri_unreserved(c) {
        seq![c]
    } else {
        percent_bytes(encode_scalar(c as u32))
    });
    let listed = "-_.!~*'()"@;
    assert(listed.contains(c) <==> (c == '-' || c == '_' || c == '.' || c == '!' || c == '~' || c
        == '*' || c == '\'' || c == '(' || c == ')')) by {
        if listed.contains(c) {
            let i = choose|i: int| 0 <= i < listed.len() && listed[i] == c;
        }
        if c == '-' { assert(listed[0] == c); }
        if c == '_' { assert(listed[1] == c); }
        if c == '.' { assert(listed[2] == c); }
        if c == '!' { assert(listed[3] == c); }
        if c == '~' { assert(listed[4] == c); }
        if c == '*' { assert(listed[5] == c); }
        if c == '\'' { assert(listed[6] == c); }
        if c == '(' { assert(listed[7] == c); }
        if c == ')' { assert(listed[8] == c); }
    }
    if !is_uri_unreserved(c) {
        let bs = encode_scalar(c as u32);
        assert(bs.len() >= 1);
        lemma_percent_bytes_shape(bs);
        assert(uri_component(one) =~= percent_bytes(bs));
    } else {
        assert(uri_component(one) =~= one);
    }
}

} // verus!
