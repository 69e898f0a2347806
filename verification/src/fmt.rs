//! Canonical text forms of a color.
//!
//! A color formats to uppercase six-digit hex (`FF0000`), to `rgb(R,G,B)`,
//! or to `rgba(R,G,B,A)` with the alpha clamped into [0, 1] and printed with
//! up to three decimal places, trailing zeros trimmed.

use vstd::prelude::*;
use crate::frac::Frac;
use crate::text::string_from_chars;
use crate::Color;

verus! {

/// The digit character for a value between 0 and 9.
pub open spec fn digit_char(n: int) -> char {
    if n == 0 {
        '0'
    } else if n == 1 {
        '1'
    } else if n == 2 {
        '2'
    } else if n == 3 {
        '3'
    } else if n == 4 {
        '4'
    } else if n == 5 {
        '5'
    } else if n == 6 {
        '6'
    } else if n == 7 {
        '7'
    } else if n == 8 {
        '8'
    } else {
        '9'
    }
}

/// The uppercase hexadecimal digit character for a value between 0 and 15.
pub open spec fn hex_digit_char(n: int) -> char {
    if n < 10 {
        digit_char(n)
    } else if n == 10 {
        'A'
    } else if n == 11 {
        'B'
    } else if n == 12 {
        'C'
    } else if n == 13 {
        'D'
    } else if n == 14 {
        'E'
    } else {
        'F'
    }
}

/// A byte as two uppercase hexadecimal digits.
pub open spec fn hex_pair(v: u8) -> Seq<char> {
    seq![hex_digit_char(v as int / 16), hex_digit_char(v as int % 16)]
}

/// The six uppercase hexadecimal digits of a color, channel by channel.
pub open spec fn hex_chars_of(c: Color) -> Seq<char> {
    hex_pair(c.red) + hex_pair(c.green) + hex_pair(c.blue)
}

/// A channel value as one to three decimal digits, without leading zeros.
pub open spec fn dec_chars(v: u8) -> Seq<char> {
    if v < 10 {
        seq![digit_char(v as int)]
    } else if v < 100 {
        seq![digit_char(v as int / 10), digit_char(v as int % 10)]
    } else {
        seq![digit_char(v as int / 100), digit_char((v as int / 10) % 10), digit_char(v as int % 10)]
    }
}

/// The canonical `rgb(R,G,B)` text of a color.
pub open spec fn rgb_chars_of(c: Color) -> Seq<char> {
    seq!['r', 'g', 'b', '('] + dec_chars(c.red) + seq![','] + dec_chars(c.green) + seq![',']
        + dec_chars(c.blue) + seq![')']
}

/// An alpha value clamped into [0, 1] and rounded to thousandths: the number
/// of thousandths, between 0 and 1000.
pub open spec fn alpha_millis(num: int, den: int) -> int {
    if num <= 0 {
        0
    } else if num >= den {
        1000
    } else {
        (2000 * num + den) / (2 * den)
    }
}

/// Thousandths of alpha as decimal text: whole values print as `0` or `1`,
/// others as `0.` followed by up to three digits, trailing zeros trimmed.
pub open spec fn alpha_chars(m: int) -> Seq<char> {
    if m == 0 {
        seq!['0']
    } else if m == 1000 {
        seq!['1']
    } else if m % 100 == 0 {
        seq!['0', '.', digit_char(m / 100)]
    } else if m % 10 == 0 {
        seq!['0', '.', digit_char(m / 100), digit_char((m / 10) % 10)]
    } else {
        seq!['0', '.', digit_char(m / 100), digit_char((m / 10) % 10), digit_char(m % 10)]
    }
}

/// The canonical `rgba(R,G,B,A)` text of a color with an alpha value.
pub open spec fn rgba_chars_of(c: Color, num: int, den: int) -> Seq<char> {
    seq!['r', 'g', 'b', 'a', '('] + dec_chars(c.red) + seq![','] + dec_chars(c.green) + seq![',']
        + dec_chars(c.blue) + seq![','] + alpha_chars(alpha_millis(num, den)) + seq![')']
}

/// The digit character of a value below ten.
fn digit_char_exec(n: u16) -> (c: char)
    requires
        n < 10,
    ensures
        c == digit_char(n as int),
{
    match n {
        0 => '0',
        1 => '1',
        2 => '2',
        3 => '3',
        4 => '4',
        5 => '5',
        6 => '6',
        7 => '7',
        8 => '8',
        _ => '9',
    }
}

/// The uppercase hexadecimal digit character of a value below sixteen.
fn hex_digit_char_exec(n: u8) -> (c: char)
    requires
        n < 16,
    ensures
        c == hex_digit_char(n as int),
{
    match n {
        0 => '0',
        1 => '1',
        2 => '2',
        3 => '3',
        4 => '4',
        5 => '5',
        6 => '6',
        7 => '7',
        8 => '8',
        9 => '9',
        10 => 'A',
        11 => 'B',
        12 => 'C',
        13 => 'D',
        14 => 'E',
        _ => 'F',
    }
}

/// Appends the two hexadecimal digits of a byte.
fn push_hex_pair(out: &mut Vec<char>, v: u8)
    ensures
        final(out)@ == old(out)@ + hex_pair(v),
{
    out.push(hex_digit_char_exec(v / 16));
    out.push(hex_digit_char_exec(v % 16));
    proof {
        assert(out@ =~= old(out)@ + hex_pair(v));
    }
}

/// Appends the decimal digits of a channel value.
fn push_dec(out: &mut Vec<char>, v: u8)
    ensures
        final(out)@ == old(out)@ + dec_chars(v),
{
    if v < 10 {
        out.push(digit_char_exec(v as u16));
    } else if v < 100 {
        out.push(digit_char_exec((v / 10) as u16));
        out.push(digit_char_exec((v % 10) as u16));
    } else {
        out.push(digit_char_exec((v / 100) as u16));
        out.push(digit_char_exec(((v / 10) % 10) as u16));
        out.push(digit_char_exec((v % 10) as u16));
    }
    proof {
        assert(out@ =~= old(out)@ + dec_chars(v));
    }
}

/// The rounded thousandths of an alpha value stay between 0 and 1000.
proof fn lemma_millis_bound(num: int, den: int)
    by (nonlinear_arith)
    requires
        1 <= den,
        0 < num < den,
    ensures
        0 <= (2000 * num + den) / (2 * den) <= 1000,
{
}

/// The thousandths of a clamped alpha value.
fn alpha_millis_exec(alpha: Frac) -> (m: u16)
    requires
        alpha.wf(),
    ensures
        m == alpha_millis(alpha.num as int, alpha.den as int),
        m <= 1000,
{
    if alpha.le_zero() {
        return 0;
    }
    if alpha.ge_one() {
        return 1000;
    }
    proof {
        lemma_millis_bound(alpha.num as int, alpha.den as int);
    }
    ((2000 * (alpha.num as u128) + alpha.den as u128) / (2 * (alpha.den as u128))) as u16
}

/// Appends the decimal text of an alpha value given in thousandths.
fn push_alpha(out: &mut Vec<char>, m: u16)
    requires
        m <= 1000,
    ensures
        final(out)@ == old(out)@ + alpha_chars(m as int),
{
    if m == 0 {
        out.push('0');
    } else if m == 1000 {
        out.push('1');
    } else if m % 100 == 0 {
        out.push('0');
        out.push('.');
        out.push(digit_char_exec(m / 100));
    } else if m % 10 == 0 {
        out.push('0');
        out.push('.');
        out.push(digit_char_exec(m / 100));
        out.push(digit_char_exec((m / 10) % 10));
    } else {
        out.push('0');
        out.push('.');
        out.push(digit_char_exec(m / 100));
        out.push(digit_char_exec((m / 10) % 10));
        out.push(digit_char_exec(m % 10));
    }
    proof {
        assert(out@ =~= old(out)@ + alpha_chars(m as int));
    }
}

impl Color {
    /// Converts this color into a hexadecimal color string: six uppercase
    /// digits, two per channel, without a leading hash.
    pub fn to_hex_string(&self) -> (r: String)
        ensures
            r@ == hex_chars_of(*self),
    {
        let mut out: Vec<char> = Vec::new();
        push_hex_pair(&mut out, self.red);
        push_hex_pair(&mut out, self.green);
        push_hex_pair(&mut out, self.blue);
        proof {
            assert(out@ =~= hex_chars_of(*self));
        }
        string_from_chars(&out)
    }

    /// Converts this color into a hexadecimal color string.
    pub fn to_hex(&self) -> (r: String)
        ensures
            r@ == hex_chars_of(*self),
    {
        self.to_hex_string()
    }

    /// The hexadecimal string is also the plain text form of a color.
    pub fn to_string(&self) -> (r: String)
        ensures
            r@ == hex_chars_of(*self),
    {
        self.to_hex_string()
    }

    /// Converts this color into an `rgb(R,G,B)` color string.
    pub fn to_rgb_string(&self) -> (r: String)
        ensures
            r@ == rgb_chars_of(*self),
    {
        let mut out: Vec<char> = Vec::new();
        out.push('r');
        out.push('g');
        out.push('b');
        out.push('(');
        push_dec(&mut out, self.red);
        out.push(',');
        push_dec(&mut out, self.green);
        out.push(',');
        push_dec(&mut out, self.blue);
        out.push(')');
        proof {
            assert(out@ =~= rgb_chars_of(*self));
        }
        string_from_chars(&out)
    }

    /// Converts this color into an `rgb(R,G,B)` color string.
    pub fn to_rgb(&self) -> (r: String)
        ensures
            r@ == rgb_chars_of(*self),
    {
        self.to_rgb_string()
    }

    /// Converts this color into an `rgba(R,G,B,A)` color string. The alpha
    /// value is clamped into [0, 1] and printed with up to three decimal
    /// places, trailing zeros trimmed.
    pub fn to_rgba_string(&self, alpha: Frac) -> (r: String)
        requires
            alpha.wf(),
        ensures
            r@ == rgba_chars_of(*self, alpha.num as int, alpha.den as int),
    {
        let m = alpha_millis_exec(alpha);
        let mut out: Vec<char> = Vec::new();
        out.push('r');
        out.push('g');
        out.push('b');
        out.push('a');
        out.push('(');
        push_dec(&mut out, self.red);
        out.push(',');
        push_dec(&mut out, self.green);
        out.push(',');
        push_dec(&mut out, self.blue);
        out.push(',');
        push_alpha(&mut out, m);
        out.push(')');
        proof {
            assert(out@ =~= rgba_chars_of(*self, alpha.num as int, alpha.den as int));
        }
        string_from_chars(&out)
    }

    /// Converts this color into an `rgba(R,G,B,A)` color string.
    pub fn to_rgba(&self, alpha: Frac) -> (r: String)
        requires
            alpha.wf(),
        ensures
            r@ == rgba_chars_of(*self, alpha.num as int, alpha.den as int),
    {
        self.to_rgba_string(alpha)
    }
}

} // verus!
