//! A small library for working with RGB color values.
//!
//! A color is an ordered triple of 8-bit channel values (red, green, blue).
//! The library parses CSS-style color text (`#RRGGBB`, `rgb(...)`, `hsl(...)`,
//! named HTML colors), formats colors back to canonical text, converts to and
//! from a packed 24-bit integer, and offers channel-wise numeric operations.
//!
//! Fractional quantities (percentages, alpha values, HSL components) are kept
//! as exact rational numbers, so every operation in this crate is exact
//! integer arithmetic.

pub mod fmt;
pub mod frac;
pub mod hsl;
pub mod html;
pub mod parse;
pub mod text;

use vstd::prelude::*;

verus! {

/// A color paired with its alpha value.
pub type ColorWithAlpha = (Color, frac::Frac);

/// The packed 24-bit form of a color, as a 32-bit value.
pub type DecimalValue = u32;

/// A color containing values for red, green, and blue.
#[derive(Debug, Clone, Copy, PartialEq, Eq, Structural, PartialOrd, Ord, Hash)]
pub struct Color {
    /// The red value.
    pub red: u8,
    /// The green value.
    pub green: u8,
    /// The blue value.
    pub blue: u8,
}

/// The packed 24-bit value of a color: the red channel is the lowest byte,
/// then green, then blue; the top byte is zero.
pub open spec fn decimal_of(c: Color) -> int {
    c.red + 256 * c.green + 65536 * c.blue
}

/// The color held in the low three bytes of a packed value: byte 0 is red,
/// byte 1 is green, byte 2 is blue; the top byte is ignored.
pub open spec fn color_of_decimal(d: u32) -> Color {
    Color { red: (d % 256) as u8, green: ((d / 256) % 256) as u8, blue: ((d / 65536) % 256) as u8 }
}

/// One channel of a linear blend from `a` towards `b` by `num / den`:
/// at or below 0 the channel is `a` exactly, at or above 1 it is `b` exactly,
/// and inside the open interval it is `a * (1 - num/den) + b * (num/den)`
/// rounded to the nearest integer (halves away from zero).
pub open spec fn blend_channel(a: u8, b: u8, num: int, den: int) -> int {
    if num <= 0 {
        a as int
    } else if num >= den {
        b as int
    } else {
        (2 * (a * (den - num) + b * num) + den) / (2 * den)
    }
}

/// Packing a color into its decimal value and unpacking it again yields the
/// color unchanged.
pub proof fn lemma_decimal_round_trip(c: Color)
    ensures
        color_of_decimal(decimal_of(c) as u32) == c,
{
    let d = decimal_of(c) as u32;
    assert(d == c.red + 256 * c.green + 65536 * c.blue);
    assert(d % 256 == c.red && (d / 256) % 256 == c.green && (d / 65536) % 256 == c.blue)
        by (nonlinear_arith)
        requires
            d == c.red + 256 * c.green + 65536 * c.blue,
            0 <= c.red < 256,
            0 <= c.green < 256,
            0 <= c.blue < 256,
    ;
}

/// The weighted sum of two channel values is at most 255 times the weight sum.
proof fn lemma_blend_sum_bound(a: int, b: int, nm: int, dm: int)
    by (nonlinear_arith)
    requires
        0 <= a <= 255,
        0 <= b <= 255,
        0 <= nm,
        0 <= dm,
    ensures
        0 <= a * dm + b * nm <= 255 * (dm + nm),
{
}

/// A rounded value of at most 255-and-a-half rounds to at most 255.
proof fn lemma_blend_div_bound(v: int, den: int)
    by (nonlinear_arith)
    requires
        1 <= den,
        0 <= v <= 255 * den,
    ensures
        0 <= (2 * v + den) / (2 * den) <= 255,
{
}

/// One channel of [`Color::blend`], computed exactly.
fn blend_channel_exec(a: u8, b: u8, num: u64, den: u64) -> (r: u8)
    requires
        0 < num < den <= frac::FRAC_DEN_MAX,
    ensures
        r == blend_channel(a, b, num as int, den as int),
{
    let dm: u64 = den - num;
    proof {
        lemma_blend_sum_bound(a as int, b as int, num as int, dm as int);
    }
    let v: u128 = (a as u128) * (dm as u128) + (b as u128) * (num as u128);
    proof {
        lemma_blend_div_bound(v as int, den as int);
    }
    ((2 * v + den as u128) / (2 * (den as u128))) as u8
}

impl Color {
    /// Creates a new [`Color`] from its three channel values.
    pub fn new(red: u8, green: u8, blue: u8) -> (c: Self)
        ensures
            c.red == red,
            c.green == green,
            c.blue == blue,
    {
        Self { red, green, blue }
    }

    /// Converts a packed decimal color value into a color.
    pub fn from_decimal(decimal: u32) -> (c: Self)
        ensures
            c == color_of_decimal(decimal),
    {
        Self {
            red: (decimal % 256) as u8,
            green: ((decimal / 256) % 256) as u8,
            blue: ((decimal / 65536) % 256) as u8,
        }
    }

    /// Converts this color into its packed decimal value.
    pub fn to_decimal(&self) -> (d: u32)
        ensures
            d == decimal_of(*self),
            color_of_decimal(d) == *self,
    {
        proof {
            lemma_decimal_round_trip(*self);
        }
        self.red as u32 + 256 * (self.green as u32) + 65536 * (self.blue as u32)
    }

    /// Maps each channel value of this color through `f`.
    pub fn map<F: Fn(u8) -> u8>(&self, f: F) -> (r: Self)
        requires
            forall|x: u8| call_requires(f, (x,)),
        ensures
            call_ensures(f, (self.red,), r.red),
            call_ensures(f, (self.green,), r.green),
            call_ensures(f, (self.blue,), r.blue),
    {
        let mut mapped = Color::default();
        mapped.red = f(self.red);
        mapped.green = f(self.green);
        mapped.blue = f(self.blue);
        mapped
    }

    /// Maps each channel value of this color together with the corresponding
    /// channel of another color through `f`.
    pub fn map_with<F: Fn(u8, u8) -> u8>(&self, other: Self, f: F) -> (r: Self)
        requires
            forall|x: u8, y: u8| call_requires(f, (x, y)),
        ensures
            call_ensures(f, (self.red, other.red), r.red),
            call_ensures(f, (self.green, other.green), r.green),
            call_ensures(f, (self.blue, other.blue), r.blue),
    {
        let mut mapped = Color::default();
        mapped.red = f(self.red, other.red);
        mapped.green = f(self.green, other.green);
        mapped.blue = f(self.blue, other.blue);
        mapped
    }

    /// Blends this color towards another color by `amount`.
    ///
    /// An amount at or below 0 returns this color exactly and an amount at or
    /// above 1 returns `other` exactly; amounts between them interpolate each
    /// channel linearly, rounding to the nearest value.
    pub fn blend(&self, other: Color, amount: frac::Frac) -> (r: Self)
        requires
            amount.wf(),
        ensures
            r.red == blend_channel(self.red, other.red, amount.num as int, amount.den as int),
            r.green == blend_channel(self.green, other.green, amount.num as int, amount.den as int),
            r.blue == blend_channel(self.blue, other.blue, amount.num as int, amount.den as int),
            amount.num <= 0 ==> r == *self,
            amount.num >= amount.den ==> r == other,
    {
        if amount.le_zero() {
            return *self;
        }
        if amount.ge_one() {
            return other;
        }
        let num = amount.num as u64;
        let den = amount.den;
        Self {
            red: blend_channel_exec(self.red, other.red, num, den),
            green: blend_channel_exec(self.green, other.green, num, den),
            blue: blend_channel_exec(self.blue, other.blue, num, den),
        }
    }

    /// Blends this color towards black by `amount`.
    pub fn darken(&self, amount: frac::Frac) -> (r: Self)
        requires
            amount.wf(),
        ensures
            r.red == blend_channel(self.red, 0, amount.num as int, amount.den as int),
            r.green == blend_channel(self.green, 0, amount.num as int, amount.den as int),
            r.blue == blend_channel(self.blue, 0, amount.num as int, amount.den as int),
    {
        self.blend(Color { red: 0, green: 0, blue: 0 }, amount)
    }

    /// Blends this color towards white by `amount`.
    pub fn lighten(&self, amount: frac::Frac) -> (r: Self)
        requires
            amount.wf(),
        ensures
            r.red == blend_channel(self.red, 255, amount.num as int, amount.den as int),
            r.green == blend_channel(self.green, 255, amount.num as int, amount.den as int),
            r.blue == blend_channel(self.blue, 255, amount.num as int, amount.den as int),
    {
        self.blend(Color { red: 255, green: 255, blue: 255 }, amount)
    }

    /// Converts this color into an array of its three channel values.
    pub fn to_array(&self) -> (r: [u8; 3])
        ensures
            r@.len() == 3,
            r@[0] == self.red,
            r@[1] == self.green,
            r@[2] == self.blue,
    {
        [self.red, self.green, self.blue]
    }

    /// Converts this color into an array of its three channel values.
    pub fn to_bytes(&self) -> (r: [u8; 3])
        ensures
            r@.len() == 3,
            r@[0] == self.red,
            r@[1] == self.green,
            r@[2] == self.blue,
    {
        self.to_array()
    }

    /// Converts this color into a vector of its three channel values.
    pub fn to_vec(&self) -> (r: Vec<u8>)
        ensures
            r@ == seq![self.red, self.green, self.blue],
    {
        let mut v: Vec<u8> = Vec::new();
        v.push(self.red);
        v.push(self.green);
        v.push(self.blue);
        proof {
            assert(v@ =~= seq![self.red, self.green, self.blue]);
        }
        v
    }

    /// Converts an array of three channel values into a color.
    pub fn from_slice(slice: [u8; 3]) -> (c: Self)
        ensures
            c.red == slice@[0],
            c.green == slice@[1],
            c.blue == slice@[2],
    {
        Self::new(slice[0], slice[1], slice[2])
    }
}

/// The color denoted by a string of any supported grammar: hexadecimal (with
/// the leading hash required here), `rgb(...)`/`rgba(...)`,
/// `hsl(...)`/`hsla(...)`, and finally a named HTML color; `None` when every
/// grammar fails.
pub open spec fn any_color(s: Seq<char>) -> Option<Color> {
    if parse::hex_parse(s, true) is Some {
        parse::hex_parse(s, true)
    } else if parse::rgba_parse(s) is Some {
        Option::Some(parse::rgba_parse(s).unwrap().0)
    } else if parse::hsl_parse(s) is Some {
        Option::Some(parse::hsl_parse(s).unwrap().0)
    } else {
        html::color_of_name(text::lower_seq(s))
    }
}

impl Color {
    /// Attempts to parse an `rgb(...)` or `rgba(...)` color string into a
    /// color, dropping the alpha value if present.
    pub fn from_rgb_str(rgb: &str) -> (r: Option<Self>)
        ensures
            match parse::rgba_parse(rgb@) {
                Option::Some((c, a)) => r == Option::Some(c),
                Option::None => r is None,
            },
    {
        match parse::rgba(rgb) {
            Option::Some((c, _alpha)) => Some(c),
            Option::None => None,
        }
    }

    /// Attempts to parse an `rgb(...)` or `rgba(...)` color string into a
    /// color, dropping the alpha value if present.
    pub fn from_rgb(rgb: &str) -> (r: Option<Self>)
        ensures
            match parse::rgba_parse(rgb@) {
                Option::Some((c, a)) => r == Option::Some(c),
                Option::None => r is None,
            },
    {
        Self::from_rgb_str(rgb)
    }

    /// Attempts to parse an `rgb(...)` or `rgba(...)` color string into a
    /// color with its alpha value; the alpha defaults to one when absent.
    pub fn from_rgba_str(rgb: &str) -> (r: Option<ColorWithAlpha>)
        ensures
            match parse::rgba_parse(rgb@) {
                Option::Some((c, (n, d))) => {
                    &&& r is Some
                    &&& r.unwrap().0 == c
                    &&& r.unwrap().1.num == n
                    &&& r.unwrap().1.den == d
                    &&& r.unwrap().1.wf()
                },
                Option::None => r is None,
            },
    {
        parse::rgba(rgb)
    }

    /// Attempts to parse an `rgb(...)` or `rgba(...)` color string into a
    /// color with its alpha value; the alpha defaults to one when absent.
    pub fn from_rgba(rgb: &str) -> (r: Option<ColorWithAlpha>)
        ensures
            match parse::rgba_parse(rgb@) {
                Option::Some((c, (n, d))) => {
                    &&& r is Some
                    &&& r.unwrap().0 == c
                    &&& r.unwrap().1.num == n
                    &&& r.unwrap().1.den == d
                    &&& r.unwrap().1.wf()
                },
                Option::None => r is None,
            },
    {
        parse::rgba(rgb)
    }

    /// Attempts to parse a hexadecimal color string into a color. Since this
    /// entry point is explicitly for hexadecimal text, the hash symbol is
    /// optional; the generic string parser requires it.
    pub fn from_hex_str(hex: &str) -> (r: Option<Self>)
        ensures
            r == parse::hex_parse(hex@, false),
    {
        parse::hex(hex, false)
    }

    /// Attempts to parse a hexadecimal color string into a color, with the
    /// hash symbol optional.
    pub fn from_hex(hex: &str) -> (r: Option<Self>)
        ensures
            r == parse::hex_parse(hex@, false),
    {
        parse::hex(hex, false)
    }

    /// Attempts to parse an `hsl(...)` or `hsla(...)` color string into a
    /// color, dropping the alpha value if present.
    pub fn from_hsl_str(hsl: &str) -> (r: Option<Self>)
        ensures
            match parse::hsl_parse(hsl@) {
                Option::Some((c, a)) => r == Option::Some(c),
                Option::None => r is None,
            },
    {
        match parse::hsl(hsl) {
            Option::Some((c, _alpha)) => Some(c),
            Option::None => None,
        }
    }

    /// Attempts to parse an `hsl(...)` or `hsla(...)` color string into a
    /// color, dropping the alpha value if present.
    pub fn from_hsl(hsl: &str) -> (r: Option<Self>)
        ensures
            match parse::hsl_parse(hsl@) {
                Option::Some((c, a)) => r == Option::Some(c),
                Option::None => r is None,
            },
    {
        Self::from_hsl_str(hsl)
    }

    /// Attempts to parse an `hsl(...)` or `hsla(...)` color string into a
    /// color with its alpha value; the alpha defaults to one when absent.
    pub fn from_hsla_str(hsl: &str) -> (r: Option<ColorWithAlpha>)
        ensures
            match parse::hsl_parse(hsl@) {
                Option::Some((c, (n, d))) => {
                    &&& r is Some
                    &&& r.unwrap().0 == c
                    &&& r.unwrap().1.num == n
                    &&& r.unwrap().1.den == d
                    &&& r.unwrap().1.wf()
                },
                Option::None => r is None,
            },
    {
        parse::hsl(hsl)
    }

    /// Attempts to parse an `hsl(...)` or `hsla(...)` color string into a
    /// color with its alpha value; the alpha defaults to one when absent.
    pub fn from_hsla(hsl: &str) -> (r: Option<ColorWithAlpha>)
        ensures
            match parse::hsl_parse(hsl@) {
                Option::Some((c, (n, d))) => {
                    &&& r is Some
                    &&& r.unwrap().0 == c
                    &&& r.unwrap().1.num == n
                    &&& r.unwrap().1.den == d
                    &&& r.unwrap().1.wf()
                },
                Option::None => r is None,
            },
    {
        parse::hsl(hsl)
    }

    /// Attempts to parse a color string of any supported grammar: hexadecimal
    /// (the leading hash is required here), `rgb(...)`/`rgba(...)`,
    /// `hsl(...)`/`hsla(...)`, and finally a named HTML color. Fails only if
    /// every grammar fails.
    pub fn parse_any(s: &str) -> (r: Option<Self>)
        ensures
            r == any_color(s@),
    {
        if let Option::Some(c) = parse::hex(s, true) {
            return Some(c);
        }
        if let Option::Some((c, _alpha)) = parse::rgba(s) {
            return Some(c);
        }
        if let Option::Some((c, _alpha)) = parse::hsl(s) {
            return Some(c);
        }
        html::from_html_color_name(s)
    }
}

impl core::str::FromStr for Color {
    type Err = &'static str;

    /// Parses a color string of any supported grammar; hexadecimal text
    /// needs its leading hash here.
    fn from_str(s: &str) -> Result<Self, Self::Err> {
        match Self::parse_any(s) {
            Option::Some(color) => Ok(color),
            Option::None => Err("Not a valid color string."),
        }
    }
}

impl Default for Color {
    /// The default color is black.
    fn default() -> (c: Self)
        ensures
            c == (Color { red: 0, green: 0, blue: 0 }),
    {
        Color { red: 0, green: 0, blue: 0 }
    }
}

impl From<[u8; 3]> for Color {
    /// The channels of the array, in order red, green, blue.
    fn from(value: [u8; 3]) -> (c: Self) {
        Self::from_slice(value)
    }
}

impl vstd::std_specs::convert::FromSpecImpl<[u8; 3]> for Color {
    open spec fn obeys_from_spec() -> bool {
        true
    }

    open spec fn from_spec(value: [u8; 3]) -> Self {
        Color { red: value[0], green: value[1], blue: value[2] }
    }
}

impl From<u32> for Color {
    /// The color packed in the low three bytes of the value.
    fn from(value: u32) -> (c: Self) {
        Self::from_decimal(value)
    }
}

impl vstd::std_specs::convert::FromSpecImpl<u32> for Color {
    open spec fn obeys_from_spec() -> bool {
        true
    }

    open spec fn from_spec(value: u32) -> Self {
        color_of_decimal(value)
    }
}

impl From<Color> for u32 {
    /// The packed decimal value of the color.
    fn from(value: Color) -> (d: u32) {
        value.to_decimal()
    }
}

impl vstd::std_specs::convert::FromSpecImpl<Color> for u32 {
    open spec fn obeys_from_spec() -> bool {
        true
    }

    open spec fn from_spec(value: Color) -> u32 {
        decimal_of(value) as u32
    }
}

} // verus!
