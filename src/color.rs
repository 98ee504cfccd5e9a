//! Validation and canonical form of `#RRGGBB` colors.
use vstd::prelude::*;
use crate::text::{is_white_space, push_char_to, trim_text, trimmed};

verus! {

pub open spec fn is_hex_digit(c: char) -> bool {
    ('0' <= c && c <= '9') || ('a' <= c && c <= 'f') || ('A' <= c && c <= 'F')
}

/// Upper-case form of a hex digit; other characters stay as they are.
pub open spec fn upper_hex(c: char) -> char {
    if c == 'a' {
        'A'
    } else if c == 'b' {
        'B'
    } else if c == 'c' {
        'C'
    } else if c == 'd' {
        'D'
    } else if c == 'e' {
        'E'
    } else if c == 'f' {
        'F'
    } else {
        c
    }
}

/// Value of a hex digit.
pub open spec fn hex_value(c: char) -> int {
    if '0' <= c && c <= '9' {
        c as int - '0' as int
    } else if 'a' <= c && c <= 'f' {
        c as int - 'a' as int + 10
    } else {
        c as int - 'A' as int + 10
    }
}

/// `t` without one leading `#`, if it has one.
pub open spec fn strip_hash(t: Seq<char>) -> Seq<char> {
    if t.len() > 0 && t[0] == '#' {
        t.drop_first()
    } else {
        t
    }
}

pub open spec fn is_six_hex_digits(d: Seq<char>) -> bool {
    d.len() == 6 && forall|i: int| 0 <= i < 6 ==> is_hex_digit(#[trigger] d[i])
}

/// Canonical form of six hex digits: `#` followed by the digits in upper case.
pub open spec fn canonical_digits(d: Seq<char>) -> Seq<char> {
    seq!['#'] + d.map_values(|c: char| upper_hex(c))
}

/// The canonical color that a text stands for, if it stands for one: once trimmed
/// and stripped of a single leading `#`, exactly six hex digits remain.
pub open spec fn canonical_hex(s: Seq<char>) -> Option<Seq<char>> {
    let d = strip_hash(trimmed(s));
    if is_six_hex_digits(d) {
        Some(canonical_digits(d))
    } else {
        None
    }
}

/// Whether `s` is a color in canonical form.
pub open spec fn is_canonical_hex(s: Seq<char>) -> bool {
    &&& s.len() == 7
    &&& s[0] == '#'
    &&& forall|i: int|
        1 <= i < 7 ==> (('0' <= #[trigger] s[i] && s[i] <= '9') || ('A' <= s[i] && s[i] <= 'F'))
}

/// The byte written by the two hex digits of `c` at `i` and `i + 1`.
pub open spec fn byte_at(c: Seq<char>, i: int) -> int {
    16 * hex_value(c[i]) + hex_value(c[i + 1])
}

fn is_hex_char(c: char) -> (r: bool)
    ensures
        r == is_hex_digit(c),
{
    ('0' <= c && c <= '9') || ('a' <= c && c <= 'f') || ('A' <= c && c <= 'F')
}

fn upper_hex_char(c: char) -> (r: char)
    ensures
        r == upper_hex(c),
{
    if c == 'a' {
        'A'
    } else if c == 'b' {
        'B'
    } else if c == 'c' {
        'C'
    } else if c == 'd' {
        'D'
    } else if c == 'e' {
        'E'
    } else if c == 'f' {
        'F'
    } else {
        c
    }
}

fn hex_char_value(c: char) -> (r: u8)
    requires
        is_hex_digit(c),
    ensures
        r as int == hex_value(c),
        r < 16,
{
    if '0' <= c && c <= '9' {
        (c as u32 - '0' as u32) as u8
    } else if 'a' <= c && c <= 'f' {
        (c as u32 - 'a' as u32 + 10) as u8
    } else {
        (c as u32 - 'A' as u32 + 10) as u8
    }
}

/// Validates a color and returns its canonical `#RRGGBB` form.
pub fn normalize_hex(value: &str) -> (r: Result<String, String>)
    ensures
        r is Ok <==> canonical_hex(value@) is Some,
        r is Ok ==> canonical_hex(value@) == Some(r->Ok_0@),
{
    let t = trim_text(value);
    let n = t.unicode_len();
    let start: usize = if n > 0 && t.get_char(0) == '#' {
        1
    } else {
        0
    };
    let ghost d = strip_hash(t@);
    assert(d =~= t@.subrange(start as int, n as int));
    if n - start != 6 {
        return Err(String::from_str("Invalid hex color"));
    }
    let mut out = String::from_str("#");
    proof {
        reveal_strlit("#");
    }
    let mut i: usize = start;
    while i < n
        invariant
            t@ == trimmed(value@),
            d == t@.subrange(start as int, n as int),
            n == t@.len(),
            n - start == 6,
            start <= i <= n,
            forall|j: int| 0 <= j < i - start ==> is_hex_digit(#[trigger] d[j]),
            out@ == seq!['#'] + d.subrange(0, i - start).map_values(|c: char| upper_hex(c)),
        decreases n - i,
    {
        let c = t.get_char(i);
        assert(c == d[i - start]);
        if !is_hex_char(c) {
            return Err(String::from_str("Invalid hex color"));
        }
        push_char_to(&mut out, upper_hex_char(c));
        proof {
            assert(d.subrange(0, i + 1 - start) =~= d.subrange(0, i - start).push(c));
        }
        i = i + 1;
        assert(out@ =~= seq!['#'] + d.subrange(0, i - start).map_values(|c: char| upper_hex(c)));
    }
    assert(d.subrange(0, 6) =~= d);
    Ok(out)
}

/// Red, green and blue of a color written as `normalize_hex` accepts it.
pub fn parse_hex_rgb(value: &str) -> (r: Option<(u8, u8, u8)>)
    ensures
        r == match canonical_hex(value@) {
            Some(c) => Some((byte_at(c, 1) as u8, byte_at(c, 3) as u8, byte_at(c, 5) as u8)),
            None => None,
        },
{
    match normalize_hex(value) {
        Ok(c) => {
            let s = c.as_str();
            let ghost d = strip_hash(trimmed(value@));
            assert forall|i: int| 1 <= i < 7 implies is_hex_digit(#[trigger] s@[i]) by {
                assert(s@[i] == upper_hex(d[i - 1]));
                assert(is_hex_digit(d[i - 1]));
            }
            let r = hex_char_value(s.get_char(1)) * 16 + hex_char_value(s.get_char(2));
            let g = hex_char_value(s.get_char(3)) * 16 + hex_char_value(s.get_char(4));
            let b = hex_char_value(s.get_char(5)) * 16 + hex_char_value(s.get_char(6));
            Some((r, g, b))
        },
        Err(_) => None,
    }
}

proof fn lemma_trimmed_unchanged(s: Seq<char>)
    requires
        s.len() > 0,
        !is_white_space(s[0]),
        !is_white_space(s.last()),
    ensures
        trimmed(s) == s,
{
}

/// Six hex digits in any letter case, with or without a leading `#`, stand for
/// the color `#` followed by the digits in upper case, and that is a canonical color.
pub proof fn lemma_hex_digits_normalize(d: Seq<char>, with_hash: bool)
    requires
        is_six_hex_digits(d),
    ensures
        canonical_hex(if with_hash { seq!['#'] + d } else { d }) == Some(canonical_digits(d)),
        is_canonical_hex(canonical_digits(d)),
{
    let s = if with_hash { seq!['#'] + d } else { d };
    assert(is_hex_digit(d[0]) && is_hex_digit(d[5]));
    assert(s.last() == d[5]);
    lemma_trimmed_unchanged(s);
    if with_hash {
        assert(strip_hash(s) =~= d);
    }
    let c = canonical_digits(d);
    assert forall|i: int| 1 <= i < 7 implies (('0' <= #[trigger] c[i] && c[i] <= '9') || ('A' <= c[i]
        && c[i] <= 'F')) by {
        assert(c[i] == upper_hex(d[i - 1]));
        assert(is_hex_digit(d[i - 1]));
    }
}

/// A color that normalizes is canonical, and normalizing it again changes nothing.
pub proof fn lemma_canonical_is_fixed_point(s: Seq<char>)
    requires
        canonical_hex(s) is Some,
    ensures
        is_canonical_hex(canonical_hex(s)->0),
        canonical_hex(canonical_hex(s)->0) == canonical_hex(s),
{
    let d = strip_hash(trimmed(s));
    let c = canonical_digits(d);
    lemma_hex_digits_normalize(d, false);
    let u = d.map_values(|ch: char| upper_hex(ch));
    assert forall|i: int| 0 <= i < 6 implies is_hex_digit(#[trigger] u[i]) by {
        assert(is_hex_digit(d[i]));
    }
    assert(c =~= seq!['#'] + u);
    lemma_hex_digits_normalize(u, true);
    assert(u.map_values(|ch: char| upper_hex(ch)) =~= u);
}

} // verus!
