//! Parsers for the color text grammars.
//!
//! Each parser is total: malformed input yields `None`, never a panic and
//! never a default color.

use vstd::prelude::*;
use crate::text::chars_of;
use crate::Color;

verus! {

/// The value of a hexadecimal digit character, case-insensitive; -1 for any
/// other character.
pub open spec fn hex_val(c: char) -> int {
    if c == '0' {
        0
    } else if c == '1' {
        1
    } else if c == '2' {
        2
    } else if c == '3' {
        3
    } else if c == '4' {
        4
    } else if c == '5' {
        5
    } else if c == '6' {
        6
    } else if c == '7' {
        7
    } else if c == '8' {
        8
    } else if c == '9' {
        9
    } else if c == 'a' || c == 'A' {
        10
    } else if c == 'b' || c == 'B' {
        11
    } else if c == 'c' || c == 'C' {
        12
    } else if c == 'd' || c == 'D' {
        13
    } else if c == 'e' || c == 'E' {
        14
    } else if c == 'f' || c == 'F' {
        15
    } else {
        -1
    }
}

/// Whether every character of a sequence is a hexadecimal digit.
pub open spec fn all_hex(s: Seq<char>) -> bool {
    forall|i: int| 0 <= i < s.len() ==> hex_val(s[i]) >= 0
}

/// The body of a hexadecimal color string: the text after an optional leading
/// hash. Without a hash the body is the whole text, unless a hash is
/// required, in which case there is no body at all.
pub open spec fn hex_body(s: Seq<char>, require_hash: bool) -> Option<Seq<char>> {
    if s.len() > 0 && s[0] == '#' {
        Some(s.skip(1))
    } else if require_hash {
        None
    } else {
        Some(s)
    }
}

/// The color denoted by a hexadecimal body of valid digits: three or four
/// digits give one digit per channel (each duplicated), six or eight give two
/// digits per channel; a trailing alpha component is validated but dropped.
pub open spec fn hex_color(b: Seq<char>) -> Color {
    if b.len() == 3 || b.len() == 4 {
        Color {
            red: (17 * hex_val(b[0])) as u8,
            green: (17 * hex_val(b[1])) as u8,
            blue: (17 * hex_val(b[2])) as u8,
        }
    } else {
        Color {
            red: (16 * hex_val(b[0]) + hex_val(b[1])) as u8,
            green: (16 * hex_val(b[2]) + hex_val(b[3])) as u8,
            blue: (16 * hex_val(b[4]) + hex_val(b[5])) as u8,
        }
    }
}

/// The hexadecimal color grammar: an optional (or required) leading `#`, a
/// body of 3, 4, 6 or 8 hexadecimal digits, any other length or any invalid
/// digit failing the parse.
pub open spec fn hex_parse(s: Seq<char>, require_hash: bool) -> Option<Color> {
    match hex_body(s, require_hash) {
        Option::None => Option::None,
        Option::Some(b) => {
            if (b.len() == 3 || b.len() == 4 || b.len() == 6 || b.len() == 8) && all_hex(b) {
                Option::Some(hex_color(b))
            } else {
                Option::None
            }
        },
    }
}

/// The value of one hexadecimal digit character, or `None`.
fn hex_val_exec(c: char) -> (r: Option<u8>)
    ensures
        hex_val(c) >= 0 ==> r == Option::Some(hex_val(c) as u8),
        hex_val(c) < 0 ==> r is None,
        r is Some ==> r.unwrap() < 16,
{
    match c {
        '0' => Some(0),
        '1' => Some(1),
        '2' => Some(2),
        '3' => Some(3),
        '4' => Some(4),
        '5' => Some(5),
        '6' => Some(6),
        '7' => Some(7),
        '8' => Some(8),
        '9' => Some(9),
        'a' | 'A' => Some(10),
        'b' | 'B' => Some(11),
        'c' | 'C' => Some(12),
        'd' | 'D' => Some(13),
        'e' | 'E' => Some(14),
        'f' | 'F' => Some(15),
        _ => None,
    }
}

/// The digits of a hexadecimal body, or `None` if any character is not a
/// hexadecimal digit.
fn hex_digits(v: &Vec<char>, start: usize) -> (r: Option<Vec<u8>>)
    requires
        start <= v@.len(),
    ensures
        all_hex(v@.skip(start as int)) <==> r is Some,
        r is Some ==> {
            let b = v@.skip(start as int);
            let d = r.unwrap()@;
            d.len() == b.len() && forall|i: int| 0 <= i < d.len() ==> d[i] == hex_val(b[i])
        },
{
    let ghost b = v@.skip(start as int);
    let mut d: Vec<u8> = Vec::new();
    let mut i: usize = start;
    while i < v.len()
        invariant
            start <= i <= v@.len(),
            b == v@.skip(start as int),
            d@.len() == i - start,
            forall|j: int| 0 <= j < d@.len() ==> #[trigger] d@[j] == hex_val(b[j]) && hex_val(
                b[j],
            ) >= 0,
        decreases v@.len() - i,
    {
        match hex_val_exec(v[i]) {
            Option::Some(x) => {
                d.push(x);
            },
            Option::None => {
                proof {
                    assert(hex_val(b[i as int - start as int]) < 0);
                    assert(!all_hex(b));
                }
                return None;
            },
        }
        i += 1;
    }
    proof {
        assert(d@.len() == b.len());
        assert forall|i: int| 0 <= i < b.len() implies hex_val(b[i]) >= 0 by {
            assert(d@[i] == hex_val(b[i]));
        }
    }
    Some(d)
}

/// Attempts to parse a hexadecimal color string into a color.
///
/// The leading hash is optional unless `require_hash` is set. The body must
/// hold 3, 4, 6 or 8 hexadecimal digits; a trailing alpha component (the
/// fourth digit or the last two of eight) must be valid but is dropped.
pub fn hex(s: &str, require_hash: bool) -> (r: Option<Color>)
    ensures
        r == hex_parse(s@, require_hash),
{
    let v = chars_of(s);
    let start: usize = if v.len() > 0 && v[0] == '#' {
        1
    } else if require_hash {
        return None;
    } else {
        0
    };
    let ghost b = s@.skip(start as int);
    proof {
        assert(hex_body(s@, require_hash) == Option::Some(b));
    }
    let len = v.len() - start;
    if !(len == 3 || len == 4 || len == 6 || len == 8) {
        return None;
    }
    let d = match hex_digits(&v, start) {
        Option::Some(d) => d,
        Option::None => {
            return None;
        },
    };
    proof {
        assert(forall|i: int| 0 <= i < b.len() ==> #[trigger] hex_val(b[i]) <= 15);
    }
    let c = if len == 3 || len == 4 {
        Color { red: 17 * d[0], green: 17 * d[1], blue: 17 * d[2] }
    } else {
        Color { red: 16 * d[0] + d[1], green: 16 * d[2] + d[3], blue: 16 * d[4] + d[5] }
    };
    Some(c)
}

/// Every hexadecimal digit character encodes its own value.
proof fn lemma_hex_digit_round_trip()
    ensures
        forall|n: int| 0 <= n < 16 ==> hex_val(#[trigger] crate::fmt::hex_digit_char(n)) == n,
{
}

/// Parsing the hexadecimal text of a color, with or without a required hash
/// present, yields that color back.
pub proof fn lemma_hex_round_trip(c: Color)
    ensures
        hex_parse(crate::fmt::hex_chars_of(c), false) == Option::Some(c),
{
    lemma_hex_digit_round_trip();
    let s = crate::fmt::hex_chars_of(c);
    assert(s.len() == 6);
    assert(s[0] == crate::fmt::hex_digit_char(c.red as int / 16));
    assert(s[1] == crate::fmt::hex_digit_char(c.red as int % 16));
    assert(s[2] == crate::fmt::hex_digit_char(c.green as int / 16));
    assert(s[3] == crate::fmt::hex_digit_char(c.green as int % 16));
    assert(s[4] == crate::fmt::hex_digit_char(c.blue as int / 16));
    assert(s[5] == crate::fmt::hex_digit_char(c.blue as int % 16));
    assert(s[0] != '#');
    assert(all_hex(s));
    assert(16 * (c.red as int / 16) + c.red as int % 16 == c.red);
    assert(16 * (c.green as int / 16) + c.green as int % 16 == c.green);
    assert(16 * (c.blue as int / 16) + c.blue as int % 16 == c.blue);
}

/// Whether a character separates fields inside `rgb(...)` or `hsl(...)`:
/// fields may be separated by commas, whitespace, or both.
pub open spec fn is_sep(c: char) -> bool {
    c == ',' || c == ' ' || c == '\t' || c == '\n' || c == '\r'
}

/// Whether a character separates fields.
fn is_sep_exec(c: char) -> (r: bool)
    ensures
        r == is_sep(c),
{
    c == ',' || c == ' ' || c == '\t' || c == '\n' || c == '\r'
}

/// The length of the leading run of non-separator characters.
pub open spec fn token_len(s: Seq<char>) -> nat
    decreases s.len(),
{
    if s.len() == 0 || is_sep(s[0]) {
        0
    } else {
        1 + token_len(s.skip(1))
    }
}

/// The leading token is never longer than the text.
proof fn lemma_token_len_le(s: Seq<char>)
    ensures
        token_len(s) <= s.len(),
    decreases s.len(),
{
    if s.len() > 0 && !is_sep(s[0]) {
        lemma_token_len_le(s.skip(1));
    }
}

/// A run of non-separators up to the first separator (or the end) is the
/// leading token.
proof fn lemma_token_len_eq(s: Seq<char>, k: int)
    requires
        0 <= k <= s.len(),
        forall|j: int| 0 <= j < k ==> !is_sep(s[j]),
        k < s.len() ==> is_sep(s[k]),
    ensures
        token_len(s) == k,
    decreases k,
{
    if k == 0 {
    } else {
        assert(!is_sep(s[0]));
        lemma_token_len_eq(s.skip(1), k - 1);
    }
}

/// The fields of a separated list: the maximal runs of non-separator
/// characters, in order. Consecutive separators produce no empty fields.
pub open spec fn tokens(s: Seq<char>) -> Seq<Seq<char>>
    decreases s.len(),
    via tokens_dec
{
    if s.len() == 0 {
        Seq::empty()
    } else if is_sep(s[0]) {
        tokens(s.skip(1))
    } else {
        seq![s.take(token_len(s) as int)] + tokens(s.skip(token_len(s) as int))
    }
}

#[via_fn]
proof fn tokens_dec(s: Seq<char>) {
    if s.len() > 0 && !is_sep(s[0]) {
        lemma_token_len_le(s);
    }
}

/// The views of a vector of character vectors.
pub open spec fn token_views(ts: Seq<Vec<char>>) -> Seq<Seq<char>> {
    ts.map_values(|t: Vec<char>| t@)
}

/// Splits a character vector into its separated fields.
fn split_tokens(v: &Vec<char>) -> (r: Vec<Vec<char>>)
    ensures
        token_views(r@) == tokens(v@),
{
    let mut out: Vec<Vec<char>> = Vec::new();
    let mut i: usize = 0;
    proof {
        assert(v@.skip(0) =~= v@);
    }
    while i < v.len()
        invariant
            i <= v@.len(),
            tokens(v@) == token_views(out@) + tokens(v@.skip(i as int)),
        decreases v@.len() - i,
    {
        if is_sep_exec(v[i]) {
            proof {
                assert(v@.skip(i as int).skip(1) =~= v@.skip(i as int + 1));
            }
            i += 1;
        } else {
            let ghost su = v@.skip(i as int);
            let start = i;
            let mut t: Vec<char> = Vec::new();
            while i < v.len() && !is_sep_exec(v[i])
                invariant
                    start <= i <= v@.len(),
                    su == v@.skip(start as int),
                    !is_sep(v@[start as int]),
                    t@ =~= v@.subrange(start as int, i as int),
                    forall|j: int| start <= j < i ==> !is_sep(v@[j]),
                decreases v@.len() - i,
            {
                t.push(v[i]);
                i += 1;
            }
            proof {
                let k = i as int - start as int;
                assert forall|j: int| 0 <= j < k implies !is_sep(su[j]) by {
                    assert(su[j] == v@[start as int + j]);
                }
                if k < su.len() {
                    assert(su[k] == v@[i as int]);
                }
                lemma_token_len_eq(su, k);
                assert(su.take(k) =~= v@.subrange(start as int, i as int));
                assert(su.skip(k) =~= v@.skip(i as int));
                assert(tokens(su) == seq![t@] + tokens(v@.skip(i as int)));
            }
            out.push(t);
            proof {
                assert(token_views(out@) =~= token_views(out@.drop_last()) + seq![t@]);
                assert(token_views(out@) + tokens(v@.skip(i as int)) =~= tokens(v@));
            }
        }
    }
    proof {
        assert(tokens(v@.skip(i as int)) =~= Seq::<Seq<char>>::empty());
        assert(token_views(out@) =~= tokens(v@));
    }
    out
}

/// The value of a decimal digit character; -1 for any other character.
pub open spec fn digit_val(c: char) -> int {
    if c == '0' {
        0
    } else if c == '1' {
        1
    } else if c == '2' {
        2
    } else if c == '3' {
        3
    } else if c == '4' {
        4
    } else if c == '5' {
        5
    } else if c == '6' {
        6
    } else if c == '7' {
        7
    } else if c == '8' {
        8
    } else if c == '9' {
        9
    } else {
        -1
    }
}

/// The value of one decimal digit character, or `None`.
fn digit_val_exec(c: char) -> (r: Option<u8>)
    ensures
        digit_val(c) >= 0 ==> r == Option::Some(digit_val(c) as u8),
        digit_val(c) < 0 ==> r is None,
        r is Some ==> r.unwrap() < 10,
{
    match c {
        '0' => Some(0),
        '1' => Some(1),
        '2' => Some(2),
        '3' => Some(3),
        '4' => Some(4),
        '5' => Some(5),
        '6' => Some(6),
        '7' => Some(7),
        '8' => Some(8),
        '9' => Some(9),
        _ => None,
    }
}

/// Whether every character of a sequence is a decimal digit (an empty
/// sequence has none that is not).
pub open spec fn all_digits(s: Seq<char>) -> bool {
    forall|i: int| 0 <= i < s.len() ==> digit_val(s[i]) >= 0
}

/// The value of a sequence of decimal digits, most significant first.
pub open spec fn dec_val(s: Seq<char>) -> int
    decreases s.len(),
{
    if s.len() == 0 {
        0
    } else {
        10 * dec_val(s.drop_last()) + digit_val(s.last())
    }
}

/// A sequence of valid digits has a non-negative value.
proof fn lemma_dec_val_nonneg(s: Seq<char>)
    requires
        all_digits(s),
    ensures
        dec_val(s) >= 0,
    decreases s.len(),
{
    if s.len() > 0 {
        assert(all_digits(s.drop_last()));
        lemma_dec_val_nonneg(s.drop_last());
    }
}

/// Appending a digit multiplies the value by ten and adds the digit, also
/// after both sides are reduced modulo `m`.
proof fn lemma_step_mod(a: int, d: int, m: int)
    requires
        0 < m,
    ensures
        (a * 10 + d) % m == ((a % m) * 10 + d) % m,
{
    let q = a / m;
    let r = a % m;
    vstd::arithmetic::div_mod::lemma_fundamental_div_mod(a, m);
    assert(a * 10 + d == m * (10 * q) + (r * 10 + d)) by (nonlinear_arith)
        requires
            a == m * q + r,
    ;
    vstd::arithmetic::div_mod::lemma_mod_multiples_vanish(10 * q, r * 10 + d, m);
}

/// The value, modulo `m`, of the digits of `t` from `start` on; `None` when
/// that range is empty or holds a character that is not a digit.
fn scan_digits_mod(t: &Vec<char>, start: usize, m: u64) -> (r: Option<u64>)
    requires
        start <= t@.len(),
        1 <= m <= 1000,
    ensures
        ({
            let digs = t@.skip(start as int);
            if digs.len() > 0 && all_digits(digs) {
                r == Option::Some((dec_val(digs) % m as int) as u64)
            } else {
                r is None
            }
        }),
{
    let ghost digs = t@.skip(start as int);
    if start == t.len() {
        return None;
    }
    let mut acc: u64 = 0;
    let mut i: usize = start;
    while i < t.len()
        invariant
            start <= i <= t@.len(),
            digs == t@.skip(start as int),
            1 <= m <= 1000,
            acc == dec_val(digs.take(i as int - start as int)) % m as int,
            acc < m,
            forall|j: int| 0 <= j < i - start ==> digit_val(digs[j]) >= 0,
        decreases t@.len() - i,
    {
        let d = match digit_val_exec(t[i]) {
            Option::Some(d) => d,
            Option::None => {
                proof {
                    assert(digit_val(digs[i as int - start as int]) < 0);
                    assert(!all_digits(digs));
                }
                return None;
            },
        };
        proof {
            let p = digs.take(i as int - start as int);
            let p1 = digs.take(i as int - start as int + 1);
            assert(p1.drop_last() =~= p);
            assert(p1.last() == digs[i as int - start as int]);
            assert(dec_val(p1) == 10 * dec_val(p) + digit_val(digs[i as int - start as int]));
            lemma_step_mod(dec_val(p), digit_val(digs[i as int - start as int]), m as int);
        }
        acc = (acc * 10 + d as u64) % m;
        i += 1;
    }
    proof {
        assert(digs.take(t@.len() - start as int) =~= digs);
        assert(all_digits(digs));
    }
    Some(acc)
}

/// The largest value the integer part of a decimal literal is read up to;
/// larger integer parts saturate here.
pub const DEC_INT_SAT: u64 = 999_999_999;

/// The value of an integer part, saturated: digits may keep pushing the value
/// up, but it is never read as more than [`DEC_INT_SAT`].
pub open spec fn int_sat(s: Seq<char>) -> int {
    if dec_val(s) > DEC_INT_SAT {
        DEC_INT_SAT as int
    } else {
        dec_val(s)
    }
}

/// The saturated value of the digits of `t` in `[start, end)`; `None` when
/// the range holds a character that is not a digit. An empty range has value
/// zero.
fn scan_digits_sat(t: &Vec<char>, start: usize, end: usize) -> (r: Option<u64>)
    requires
        start <= end <= t@.len(),
    ensures
        ({
            let digs = t@.subrange(start as int, end as int);
            if all_digits(digs) {
                r == Option::Some(int_sat(digs) as u64)
            } else {
                r is None
            }
        }),
{
    let ghost digs = t@.subrange(start as int, end as int);
    let mut acc: u64 = 0;
    let mut i: usize = start;
    while i < end
        invariant
            start <= i <= end <= t@.len(),
            digs == t@.subrange(start as int, end as int),
            acc == int_sat(digs.take(i as int - start as int)),
            forall|j: int| 0 <= j < i - start ==> digit_val(digs[j]) >= 0,
        decreases end - i,
    {
        let d = match digit_val_exec(t[i]) {
            Option::Some(d) => d,
            Option::None => {
                proof {
                    assert(digit_val(digs[i as int - start as int]) < 0);
                    assert(!all_digits(digs));
                }
                return None;
            },
        };
        proof {
            let p = digs.take(i as int - start as int);
            let p1 = digs.take(i as int - start as int + 1);
            assert(p1.drop_last() =~= p);
            assert(p1.last() == digs[i as int - start as int]);
            assert(all_digits(p));
            lemma_dec_val_nonneg(p);
            assert(dec_val(p1) == 10 * dec_val(p) + digit_val(digs[i as int - start as int]));
        }
        let next = acc * 10 + d as u64;
        acc = if next > DEC_INT_SAT {
            DEC_INT_SAT
        } else {
            next
        };
        i += 1;
    }
    proof {
        assert(digs.take(end - start as int) =~= digs);
        assert(all_digits(digs));
    }
    Some(acc)
}

/// Ten to the `k`.
pub open spec fn pow10(k: nat) -> int
    decreases k,
{
    if k == 0 {
        1
    } else {
        10 * pow10((k - 1) as nat)
    }
}

/// The position of the first `.` in a sequence; -1 when there is none.
pub open spec fn first_dot(s: Seq<char>) -> int
    decreases s.len(),
{
    if s.len() == 0 {
        -1
    } else if s[0] == '.' {
        0
    } else {
        let p = first_dot(s.skip(1));
        if p < 0 {
            -1
        } else {
            1 + p
        }
    }
}

/// A prefix free of dots followed by a dot (or the end) pins the first dot.
proof fn lemma_first_dot_eq(s: Seq<char>, i: int)
    requires
        0 <= i <= s.len(),
        forall|j: int| 0 <= j < i ==> s[j] != '.',
        i < s.len() ==> s[i] == '.',
    ensures
        first_dot(s) == if i == s.len() {
            -1int
        } else {
            i
        },
    decreases i,
{
    if i == 0 {
        if s.len() > 0 && s[0] != '.' {
            lemma_first_dot_eq(s.skip(1), 0);
        }
    } else {
        assert(s[0] != '.');
        lemma_first_dot_eq(s.skip(1), i - 1);
    }
}

/// The value of a decimal literal: an optional minus sign, then decimal
/// digits with at most one point among them, at least one digit in all. The
/// value is the exact pair of a numerator and a power-of-ten denominator,
/// except that the integer part saturates at [`DEC_INT_SAT`] and fraction
/// digits beyond the ninth are dropped.
pub open spec fn decimal_of_token(t: Seq<char>) -> Option<(int, int)> {
    let neg = t.len() > 0 && t[0] == '-';
    let body = if neg {
        t.skip(1)
    } else {
        t
    };
    let p = first_dot(body);
    let ip = if p < 0 {
        body
    } else {
        body.take(p)
    };
    let fp_full = if p < 0 {
        Seq::<char>::empty()
    } else {
        body.skip(p + 1)
    };
    let fp = if fp_full.len() > 9 {
        fp_full.take(9)
    } else {
        fp_full
    };
    if ip.len() + fp_full.len() == 0 || !all_digits(ip) || !all_digits(fp_full) {
        Option::None
    } else {
        let den = pow10(fp.len());
        let num = int_sat(ip) * den + dec_val(fp);
        Option::Some(
            (
                if neg {
                    -num
                } else {
                    num
                },
                den,
            ),
        )
    }
}

/// A fraction clamped into [0, 1]: a negative numerator becomes 0 and a
/// numerator above the denominator becomes the denominator.
pub open spec fn clamp01(n: int, d: int) -> (int, int) {
    if n < 0 {
        (0, d)
    } else if n > d {
        (d, d)
    } else {
        (n, d)
    }
}

/// The value of a percentage field: either a decimal literal ending in `%`
/// (divided by 100), or a bare decimal beginning with `0.` or `.`; either
/// way clamped into [0, 1].
pub open spec fn percent_of_token(t: Seq<char>) -> Option<(int, int)> {
    if t.len() > 0 && t.last() == '%' {
        match decimal_of_token(t.drop_last()) {
            Option::None => Option::None,
            Option::Some((n, d)) => Option::Some(clamp01(n, d * 100)),
        }
    } else if (t.len() >= 2 && t[0] == '0' && t[1] == '.') || (t.len() >= 1 && t[0] == '.') {
        match decimal_of_token(t) {
            Option::None => Option::None,
            Option::Some((n, d)) => Option::Some(clamp01(n, d)),
        }
    } else {
        Option::None
    }
}

/// A fraction in [0, 1] scaled to the byte range and rounded to the nearest
/// value, halves up.
pub open spec fn round_byte(n: int, d: int) -> int {
    (2 * 255 * n + d) / (2 * d)
}

/// The value of a channel field: a percentage resolves to its share of 255,
/// rounded; otherwise decimal digits are read modulo 256 (values above 255
/// wrap around), and a leading minus sign forces the channel to zero.
pub open spec fn channel_of_token(t: Seq<char>) -> Option<u8> {
    if t.len() > 0 && t.last() == '%' {
        match percent_of_token(t) {
            Option::None => Option::None,
            Option::Some((n, d)) => Option::Some(round_byte(n, d) as u8),
        }
    } else {
        let neg = t.len() > 0 && t[0] == '-';
        let digs = if neg {
            t.skip(1)
        } else {
            t
        };
        if digs.len() > 0 && all_digits(digs) {
            Option::Some(
                if neg {
                    0u8
                } else {
                    (dec_val(digs) % 256) as u8
                },
            )
        } else {
            Option::None
        }
    }
}

/// The value of an alpha field of `rgba(...)`: decimal digits that read as a
/// byte are scaled by 255; anything else is read as a decimal literal, not
/// clamped.
pub open spec fn alpha_of_token(t: Seq<char>) -> Option<(int, int)> {
    if t.len() > 0 && all_digits(t) && dec_val(t) <= 255 {
        Option::Some((dec_val(t), 255))
    } else {
        decimal_of_token(t)
    }
}

/// The value of a hue field: decimal digits with an optional minus sign,
/// normalized into [0, 360) degrees.
pub open spec fn hue_of_token(t: Seq<char>) -> Option<int> {
    let neg = t.len() > 0 && t[0] == '-';
    let digs = if neg {
        t.skip(1)
    } else {
        t
    };
    if digs.len() > 0 && all_digits(digs) {
        let m = dec_val(digs) % 360;
        Option::Some(
            if neg && m != 0 {
                360 - m
            } else {
                m
            },
        )
    } else {
        Option::None
    }
}

/// Ten to the `k`, for small `k`.
fn pow10_exec(k: usize) -> (r: u64)
    requires
        k <= 9,
    ensures
        r == pow10(k as nat),
{
    proof {
        reveal_with_fuel(pow10, 11);
    }
    match k {
        0 => 1,
        1 => 10,
        2 => 100,
        3 => 1_000,
        4 => 10_000,
        5 => 100_000,
        6 => 1_000_000,
        7 => 10_000_000,
        8 => 100_000_000,
        _ => 1_000_000_000,
    }
}

/// The value of a decimal literal field, as an exact fraction.
#[verifier::rlimit(50)]
fn decimal_token(t: &Vec<char>) -> (r: Option<crate::frac::Frac>)
    ensures
        match decimal_of_token(t@) {
            Option::Some((n, d)) => {
                &&& r is Some
                &&& r.unwrap().num == n
                &&& r.unwrap().den == d
                &&& r.unwrap().den <= 1_000_000_000
                &&& r.unwrap().wf()
            },
            Option::None => r is None,
        },
{
    let neg = t.len() > 0 && t[0] == '-';
    let start: usize = if neg {
        1
    } else {
        0
    };
    let ghost body = t@.skip(start as int);
    proof {
        if !neg {
            assert(body =~= t@);
        }
    }
    // find the first dot in the body
    let mut dot: usize = start;
    while dot < t.len() && t[dot] != '.'
        invariant
            start <= dot <= t@.len(),
            forall|j: int| start <= j < dot ==> t@[j] != '.',
        decreases t@.len() - dot,
    {
        dot += 1;
    }
    proof {
        assert forall|j: int| 0 <= j < dot - start implies body[j] != '.' by {
            assert(body[j] == t@[start + j]);
        }
        if dot < t@.len() {
            assert(body[dot - start as int] == t@[dot as int]);
        }
        lemma_first_dot_eq(body, dot as int - start as int);
    }
    let has_dot = dot < t.len();
    let ghost ip = if has_dot {
        body.take(dot as int - start as int)
    } else {
        body
    };
    let ghost fp_full = if has_dot {
        body.skip(dot as int - start as int + 1)
    } else {
        Seq::<char>::empty()
    };
    proof {
        if !has_dot {
            assert(ip =~= t@.subrange(start as int, t@.len() as int));
        } else {
            assert(ip =~= t@.subrange(start as int, dot as int));
        }
    }
    if !has_dot && start == t.len() {
        // no digits at all
        return None;
    }
    let int_val = match scan_digits_sat(t, start, dot) {
        Option::Some(x) => x,
        Option::None => {
            return None;
        },
    };
    if !has_dot {
        proof {
            assert(all_digits(ip));
            lemma_dec_val_nonneg(ip);
            assert(fp_full.len() == 0);
            assert(all_digits(fp_full));
            assert(pow10(0) == 1);
            assert(int_sat(ip) * 1 == int_sat(ip));
        }
        let num = int_val as i64;
        return Some(crate::frac::Frac::new(if neg { -num } else { num }, 1));
    }
    // fraction digits begin after the dot
    let fstart = dot + 1;
    let flen = t.len() - fstart;
    if dot == start && flen == 0 {
        // a lone dot: no digits at all
        return None;
    }
    let fkeep: usize = if flen > 9 {
        9
    } else {
        flen
    };
    proof {
        assert(fp_full =~= t@.subrange(fstart as int, t@.len() as int));
    }
    // the dropped digits must still be valid
    let mut j = fstart + fkeep;
    while j < t.len()
        invariant
            fstart + fkeep <= j <= t@.len(),
            fstart == dot + 1,
            fp_full == t@.subrange(fstart as int, t@.len() as int),
            !all_digits(fp_full) ==> decimal_of_token(t@) is None,
            forall|m: int| fkeep <= m < j - fstart ==> digit_val(fp_full[m]) >= 0,
        decreases t@.len() - j,
    {
        match digit_val_exec(t[j]) {
            Option::Some(_) => {
            },
            Option::None => {
                proof {
                    assert(digit_val(fp_full[j - fstart as int]) < 0);
                    assert(!all_digits(fp_full));
                }
                return None;
            },
        }
        j += 1;
    }
    let ghost fp = if fp_full.len() > 9 {
        fp_full.take(9)
    } else {
        fp_full
    };
    let frac_val = match scan_digits_sat(t, fstart, fstart + fkeep) {
        Option::Some(x) => x,
        Option::None => {
            proof {
                let sub = t@.subrange(fstart as int, fstart as int + fkeep as int);
                assert(!all_digits(sub));
                let w = choose|i: int| 0 <= i < sub.len() && digit_val(sub[i]) < 0;
                assert(digit_val(fp_full[w]) < 0);
                assert(!all_digits(fp_full));
            }
            return None;
        },
    };
    proof {
        let sub = t@.subrange(fstart as int, fstart as int + fkeep as int);
        assert(sub =~= fp);
        assert(all_digits(fp));
        assert forall|m: int| 0 <= m < fp_full.len() implies digit_val(fp_full[m]) >= 0 by {
            if m < fkeep {
                assert(fp[m] == fp_full[m]);
            }
        }
        assert(all_digits(fp_full));
        lemma_dec_val_nonneg(fp);
        // the kept fraction value is below its own denominator's bound
        lemma_dec_val_lt_pow10(fp);
    }
    let den = pow10_exec(fkeep);
    // int part saturates at DEC_INT_SAT and den is at most 10^9, so the
    // numerator stays below 10^18
    proof {
        lemma_pow10_bounds(fkeep as nat);
        assert(all_digits(ip));
        lemma_dec_val_nonneg(ip);
        assert(int_sat(ip) == int_val);
        assert(int_val * den <= 999_999_999 * 1_000_000_000) by (nonlinear_arith)
            requires
                0 <= int_val <= 999_999_999,
                0 < den <= 1_000_000_000,
        ;
        assert(fp.len() == fkeep);
        assert(den == pow10(fp.len()));
        assert(dec_val(fp) < pow10(fp.len()));
        assert(int_sat(fp) == dec_val(fp));
        assert(dec_val(fp) == frac_val);
        assert(frac_val < den);
    }
    let num = (int_val as i64) * (den as i64) + frac_val as i64;
    Some(crate::frac::Frac::new(if neg { -num } else { num }, den))
}

/// The leading characters of a vector, as their own vector.
fn vec_take_chars(t: &Vec<char>, end: usize) -> (r: Vec<char>)
    requires
        end <= t@.len(),
    ensures
        r@ == t@.subrange(0, end as int),
{
    let mut r: Vec<char> = Vec::new();
    let mut i: usize = 0;
    while i < end
        invariant
            i <= end <= t@.len(),
            r@ =~= t@.subrange(0, i as int),
        decreases end - i,
    {
        r.push(t[i]);
        i += 1;
    }
    proof {
        assert(r@ =~= t@.subrange(0, end as int));
    }
    r
}

/// The value of a percentage field, clamped into [0, 1].
pub fn percent_token(t: &Vec<char>) -> (r: Option<crate::frac::Frac>)
    ensures
        match percent_of_token(t@) {
            Option::Some((n, d)) => {
                &&& r is Some
                &&& r.unwrap().num == n
                &&& r.unwrap().den == d
                &&& r.unwrap().wf()
                &&& r.unwrap().in_unit()
            },
            Option::None => r is None,
        },
{
    if t.len() > 0 && t[t.len() - 1] == '%' {
        let body = vec_take_chars(t, t.len() - 1);
        proof {
            assert(body@ =~= t@.drop_last());
        }
        match decimal_token(&body) {
            Option::Some(f) => {
                let scaled = crate::frac::Frac::new(f.num, f.den * 100);
                Some(scaled.clamp_unit())
            },
            Option::None => None,
        }
    } else if (t.len() >= 2 && t[0] == '0' && t[1] == '.') || (t.len() >= 1 && t[0] == '.') {
        match decimal_token(t) {
            Option::Some(f) => Some(f.clamp_unit()),
            Option::None => None,
        }
    } else {
        None
    }
}

/// Parses a percentage value from a trimmed string: either a decimal literal
/// ending in `%` (divided by 100), or a bare decimal beginning with `0.` or
/// `.`; either way clamped into [0, 1].
pub fn parse_percent(s: &str) -> (r: Option<crate::frac::Frac>)
    ensures
        match percent_of_token(s@) {
            Option::Some((n, d)) => {
                &&& r is Some
                &&& r.unwrap().num == n
                &&& r.unwrap().den == d
                &&& r.unwrap().wf()
                &&& r.unwrap().in_unit()
            },
            Option::None => r is None,
        },
{
    let v = chars_of(s);
    percent_token(&v)
}

/// A scaled share of 255 rounds to at most 255.
proof fn lemma_round_byte_bound(n: int, d: int)
    by (nonlinear_arith)
    requires
        1 <= d,
        0 <= n <= d,
    ensures
        0 <= (2 * 255 * n + d) / (2 * d) <= 255,
{
}

/// The value of a channel field.
pub fn channel_token(t: &Vec<char>) -> (r: Option<u8>)
    ensures
        r == channel_of_token(t@),
{
    if t.len() > 0 && t[t.len() - 1] == '%' {
        match percent_token(t) {
            Option::Some(f) => {
                proof {
                    lemma_round_byte_bound(f.num as int, f.den as int);
                }
                let v = ((2 * 255 * (f.num as u128) + f.den as u128) / (2 * (f.den as u128)))
                    as u8;
                Some(v)
            },
            Option::None => None,
        }
    } else {
        let neg = t.len() > 0 && t[0] == '-';
        let start: usize = if neg {
            1
        } else {
            0
        };
        proof {
            if !neg {
                assert(t@.skip(0) =~= t@);
            }
        }
        match scan_digits_mod(t, start, 256) {
            Option::Some(v) => {
                if neg {
                    Some(0)
                } else {
                    Some(v as u8)
                }
            },
            Option::None => None,
        }
    }
}

/// The value of an alpha field of `rgba(...)`.
pub fn alpha_token(t: &Vec<char>) -> (r: Option<crate::frac::Frac>)
    ensures
        match alpha_of_token(t@) {
            Option::Some((n, d)) => {
                &&& r is Some
                &&& r.unwrap().num == n
                &&& r.unwrap().den == d
                &&& r.unwrap().wf()
            },
            Option::None => r is None,
        },
{
    proof {
        assert(t@.subrange(0, t@.len() as int) =~= t@);
    }
    if t.len() > 0 {
        match scan_digits_sat(t, 0, t.len()) {
            Option::Some(v) => {
                proof {
                    lemma_dec_val_nonneg(t@);
                }
                if v <= 255 {
                    return Some(crate::frac::Frac::new(v as i64, 255));
                }
            },
            Option::None => {
            },
        }
    }
    decimal_token(t)
}

/// The value of a hue field: degrees normalized into [0, 360).
pub fn hue_token(t: &Vec<char>) -> (r: Option<u16>)
    ensures
        match hue_of_token(t@) {
            Option::Some(h) => r == Option::Some(h as u16) && 0 <= h < 360,
            Option::None => r is None,
        },
{
    let neg = t.len() > 0 && t[0] == '-';
    let start: usize = if neg {
        1
    } else {
        0
    };
    proof {
        if !neg {
            assert(t@.skip(0) =~= t@);
        }
    }
    match scan_digits_mod(t, start, 360) {
        Option::Some(m) => {
            proof {
                let digs = t@.skip(start as int);
                assert(all_digits(digs));
                lemma_dec_val_nonneg(digs);
            }
            if neg && m != 0 {
                Some(360 - m as u16)
            } else {
                Some(m as u16)
            }
        },
        Option::None => None,
    }
}

/// Whether the text begins with `rgb(`.
pub open spec fn prefix_rgb(s: Seq<char>) -> bool {
    s.len() >= 4 && s[0] == 'r' && s[1] == 'g' && s[2] == 'b' && s[3] == '('
}

/// Whether the text begins with `rgba(`.
pub open spec fn prefix_rgba(s: Seq<char>) -> bool {
    s.len() >= 5 && s[0] == 'r' && s[1] == 'g' && s[2] == 'b' && s[3] == 'a' && s[4] == '('
}

/// The `rgb(...)`/`rgba(...)` grammar: the prefix fixes the field count
/// (three channels, plus an alpha field for `rgba`), the text must close with
/// `)`, and the fields between are separated by commas or spaces. The alpha
/// of an `rgb(...)` text is one.
pub open spec fn rgba_parse(s: Seq<char>) -> Option<(Color, (int, int))> {
    let plen: int = if prefix_rgb(s) {
        4
    } else if prefix_rgba(s) {
        5
    } else {
        0
    };
    let expected: int = if prefix_rgb(s) {
        3
    } else {
        4
    };
    if plen == 0 || s.len() <= plen || s.last() != ')' {
        Option::None
    } else {
        let toks = tokens(s.subrange(plen, s.len() - 1));
        if toks.len() != expected {
            Option::None
        } else {
            match (channel_of_token(toks[0]), channel_of_token(toks[1]), channel_of_token(
                toks[2],
            )) {
                (Option::Some(cr), Option::Some(cg), Option::Some(cb)) => {
                    let c = Color { red: cr, green: cg, blue: cb };
                    if expected == 4 {
                        match alpha_of_token(toks[3]) {
                            Option::Some(a) => Option::Some((c, a)),
                            Option::None => Option::None,
                        }
                    } else {
                        Option::Some((c, (1, 1)))
                    }
                },
                _ => Option::None,
            }
        }
    }
}

/// The characters of a vector in `[from, to)`, as their own vector.
fn vec_range_chars(t: &Vec<char>, from: usize, to: usize) -> (r: Vec<char>)
    requires
        from <= to <= t@.len(),
    ensures
        r@ == t@.subrange(from as int, to as int),
{
    let mut r: Vec<char> = Vec::new();
    let mut i: usize = from;
    while i < to
        invariant
            from <= i <= to <= t@.len(),
            r@ =~= t@.subrange(from as int, i as int),
        decreases to - i,
    {
        r.push(t[i]);
        i += 1;
    }
    proof {
        assert(r@ =~= t@.subrange(from as int, to as int));
    }
    r
}

/// Attempts to parse an `rgb(...)` or `rgba(...)` color string. The alpha
/// value defaults to one when the text has no alpha field.
pub fn rgba(s: &str) -> (r: Option<(Color, crate::frac::Frac)>)
    ensures
        match rgba_parse(s@) {
            Option::Some((c, (n, d))) => {
                &&& r is Some
                &&& r.unwrap().0 == c
                &&& r.unwrap().1.num == n
                &&& r.unwrap().1.den == d
                &&& r.unwrap().1.wf()
            },
            Option::None => r is None,
        },
{
    let v = chars_of(s);
    let (plen, expected): (usize, usize) = if v.len() >= 4 && v[0] == 'r' && v[1] == 'g' && v[2]
        == 'b' && v[3] == '(' {
        (4, 3)
    } else if v.len() >= 5 && v[0] == 'r' && v[1] == 'g' && v[2] == 'b' && v[3] == 'a' && v[4]
        == '(' {
        (5, 4)
    } else {
        return None;
    };
    if v.len() <= plen || v[v.len() - 1] != ')' {
        return None;
    }
    let inner = vec_range_chars(&v, plen, v.len() - 1);
    let toks = split_tokens(&inner);
    proof {
        assert(token_views(toks@) == tokens(s@.subrange(plen as int, s@.len() - 1)));
    }
    if toks.len() != expected {
        return None;
    }
    proof {
        assert(toks@[0]@ == token_views(toks@)[0]);
        assert(toks@[1]@ == token_views(toks@)[1]);
        assert(toks@[2]@ == token_views(toks@)[2]);
    }
    let cr = match channel_token(&toks[0]) {
        Option::Some(x) => x,
        Option::None => {
            return None;
        },
    };
    let cg = match channel_token(&toks[1]) {
        Option::Some(x) => x,
        Option::None => {
            return None;
        },
    };
    let cb = match channel_token(&toks[2]) {
        Option::Some(x) => x,
        Option::None => {
            return None;
        },
    };
    let c = Color { red: cr, green: cg, blue: cb };
    if expected == 4 {
        proof {
            assert(toks@[3]@ == token_views(toks@)[3]);
        }
        match alpha_token(&toks[3]) {
            Option::Some(a) => Some((c, a)),
            Option::None => None,
        }
    } else {
        Some((c, crate::frac::Frac::one()))
    }
}

/// Whether the text begins with `hsl(`.
pub open spec fn prefix_hsl(s: Seq<char>) -> bool {
    s.len() >= 4 && s[0] == 'h' && s[1] == 's' && s[2] == 'l' && s[3] == '('
}

/// Whether the text begins with `hsla(`.
pub open spec fn prefix_hsla(s: Seq<char>) -> bool {
    s.len() >= 5 && s[0] == 'h' && s[1] == 's' && s[2] == 'l' && s[3] == 'a' && s[4] == '('
}

/// The `hsl(...)`/`hsla(...)` grammar: a hue in degrees, a saturation and a
/// lightness in percentage or fractional form, and an optional alpha in the
/// same form, defaulting to one when absent. Fields beyond the fourth are
/// ignored. The color is converted to RGB through the hue basis function.
pub open spec fn hsl_parse(s: Seq<char>) -> Option<(Color, (int, int))> {
    let plen: int = if prefix_hsl(s) {
        4
    } else {
        5
    };
    if !(prefix_hsl(s) || prefix_hsla(s)) || s.len() <= plen || s.last() != ')' {
        Option::None
    } else {
        let toks = tokens(s.subrange(plen, s.len() - 1));
        if toks.len() < 3 {
            Option::None
        } else {
            match (hue_of_token(toks[0]), percent_of_token(toks[1]), percent_of_token(toks[2])) {
                (Option::Some(h), Option::Some(sat), Option::Some(li)) => {
                    let alpha = if toks.len() >= 4 {
                        percent_of_token(toks[3])
                    } else {
                        Option::Some((1, 1))
                    };
                    match alpha {
                        Option::Some(a) => Option::Some(
                            (crate::hsl::hsl_rgb(sat.0, sat.1, li.0, li.1, h), a),
                        ),
                        Option::None => Option::None,
                    }
                },
                _ => Option::None,
            }
        }
    }
}

/// Attempts to parse an `hsl(...)` or `hsla(...)` color string. The alpha
/// value defaults to one when the text has no alpha field.
pub fn hsl(s: &str) -> (r: Option<(Color, crate::frac::Frac)>)
    ensures
        match hsl_parse(s@) {
            Option::Some((c, (n, d))) => {
                &&& r is Some
                &&& r.unwrap().0 == c
                &&& r.unwrap().1.num == n
                &&& r.unwrap().1.den == d
                &&& r.unwrap().1.wf()
            },
            Option::None => r is None,
        },
{
    let v = chars_of(s);
    let plen: usize = if v.len() >= 4 && v[0] == 'h' && v[1] == 's' && v[2] == 'l' && v[3] == '(' {
        4
    } else if v.len() >= 5 && v[0] == 'h' && v[1] == 's' && v[2] == 'l' && v[3] == 'a' && v[4]
        == '(' {
        5
    } else {
        return None;
    };
    if v.len() <= plen || v[v.len() - 1] != ')' {
        return None;
    }
    let inner = vec_range_chars(&v, plen, v.len() - 1);
    let toks = split_tokens(&inner);
    proof {
        assert(token_views(toks@) == tokens(s@.subrange(plen as int, s@.len() - 1)));
    }
    if toks.len() < 3 {
        return None;
    }
    proof {
        assert(toks@[0]@ == token_views(toks@)[0]);
        assert(toks@[1]@ == token_views(toks@)[1]);
        assert(toks@[2]@ == token_views(toks@)[2]);
    }
    let h = match hue_token(&toks[0]) {
        Option::Some(x) => x,
        Option::None => {
            return None;
        },
    };
    let sat = match percent_token(&toks[1]) {
        Option::Some(x) => x,
        Option::None => {
            return None;
        },
    };
    let li = match percent_token(&toks[2]) {
        Option::Some(x) => x,
        Option::None => {
            return None;
        },
    };
    let alpha = if toks.len() >= 4 {
        proof {
            assert(toks@[3]@ == token_views(toks@)[3]);
        }
        match percent_token(&toks[3]) {
            Option::Some(x) => x,
            Option::None => {
                return None;
            },
        }
    } else {
        crate::frac::Frac::one()
    };
    let c = crate::hsl::hsl_to_rgb(h as i64, sat, li);
    proof {
        assert(clamp01(sat.num as int, sat.den as int) == (sat.num as int, sat.den as int));
        assert(clamp01(li.num as int, li.den as int) == (li.num as int, li.den as int));
        assert(crate::hsl::clamp_deg(h as int) == h as int);
    }
    Some((c, alpha))
}

/// The value of a kept fraction part is below ten to its length.
proof fn lemma_dec_val_lt_pow10(s: Seq<char>)
    requires
        all_digits(s),
    ensures
        dec_val(s) < pow10(s.len()),
    decreases s.len(),
{
    if s.len() == 0 {
    } else {
        assert(all_digits(s.drop_last()));
        lemma_dec_val_lt_pow10(s.drop_last());
        assert(pow10(s.len()) == 10 * pow10((s.len() - 1) as nat));
    }
}

/// Ten to the `k` is positive and, for `k` at most nine, at most a billion.
proof fn lemma_pow10_bounds(k: nat)
    requires
        k <= 9,
    ensures
        0 < pow10(k) <= 1_000_000_000,
{
    reveal_with_fuel(pow10, 11);
    if k == 0 {
    } else if k == 1 {
    } else if k == 2 {
    } else if k == 3 {
    } else if k == 4 {
    } else if k == 5 {
    } else if k == 6 {
    } else if k == 7 {
    } else if k == 8 {
    } else {
        assert(k == 9);
    }
}

} // verus!
