//! A color value type in two variants: `ColorU`, four 8-bit channels
//! (red, green, blue, alpha) suited to storage, ordering, hashing and
//! textual display, and a normalized floating-point variant suited to
//! lane-wise arithmetic, which lives outside this verified core.
//!
//! `ColorU` is the canonical discrete representation: this crate states
//! and proves its construction, unpacking, predicate and formatting
//! contracts.
use core::cmp::Ordering;
use vstd::prelude::*;
use vstd::string::*;

verus! {

/// Lexicographic comparison of two colors in the fixed field order
/// red, green, blue, alpha: the first differing channel decides.
pub open spec fn lex_cmp(x: ColorU, y: ColorU) -> Ordering {
    if x.r != y.r {
        if x.r < y.r {
            Ordering::Less
        } else {
            Ordering::Greater
        }
    } else if x.g != y.g {
        if x.g < y.g {
            Ordering::Less
        } else {
            Ordering::Greater
        }
    } else if x.b != y.b {
        if x.b < y.b {
            Ordering::Less
        } else {
            Ordering::Greater
        }
    } else if x.a != y.a {
        if x.a < y.a {
            Ordering::Less
        } else {
            Ordering::Greater
        }
    } else {
        Ordering::Equal
    }
}

/// The lowercase hexadecimal digit for a value below 16.
pub open spec fn hex_char(n: int) -> char {
    if n == 0 {
        '0'
    } else if n == 1 {
        '1'
    } else if n == 2 {
        '2'
    } else if n == 3 {
        '3'
    } else if n == 4 {
        '4'
    } else if n == 5 {
        '5'
    } else if n == 6 {
        '6'
    } else if n == 7 {
        '7'
    } else if n == 8 {
        '8'
    } else if n == 9 {
        '9'
    } else if n == 10 {
        'a'
    } else if n == 11 {
        'b'
    } else if n == 12 {
        'c'
    } else if n == 13 {
        'd'
    } else if n == 14 {
        'e'
    } else {
        'f'
    }
}

/// The two lowercase hexadecimal digits of a byte, high digit first.
pub open spec fn hex_pair(b: u8) -> Seq<char> {
    seq![hex_char(b as int / 16), hex_char(b as int % 16)]
}

/// The text an opaque color displays as: `#` followed by the hex pairs
/// of red, green and blue, in that order; alpha is not shown.
pub open spec fn hex_chars(c: ColorU) -> Seq<char> {
    seq!['#'] + hex_pair(c.r) + hex_pair(c.g) + hex_pair(c.b)
}

/// A color with four 8-bit channels, in the fixed field order
/// red, green, blue, alpha. Each channel ranges over the full byte;
/// no value of the type is invalid.
#[derive(Clone, Copy, PartialEq, Eq, Structural, Ord, Hash, Debug)]
pub struct ColorU {
    pub r: u8,
    pub g: u8,
    pub b: u8,
    pub a: u8,
}

impl ColorU {
    /// Builds the color directly from its four byte channels.
    pub fn new(r: u8, g: u8, b: u8, a: u8) -> (c: ColorU)
        ensures
            c == (ColorU { r, g, b, a }),
    {
        ColorU { r, g, b, a }
    }

    /// The constant (0, 0, 0, 0): fully transparent black.
    pub fn transparent_black() -> (c: ColorU)
        ensures
            c == (ColorU { r: 0u8, g: 0u8, b: 0u8, a: 0u8 }),
    {
        let c = ColorU::from_u32(0);
        proof {
            assert(0u32 >> 24 == 0 && (0u32 >> 16) & 0xff == 0 && (0u32 >> 8) & 0xff == 0 && 0u32
                & 0xff == 0) by (bit_vector);
        }
        c
    }

    /// Unpacks a 32-bit big-endian-ordered quantity into channels:
    /// bits 31..24 are red, 23..16 green, 15..8 blue, 7..0 alpha.
    /// Every 32-bit input is valid, and the channels recombine to it.
    pub fn from_u32(rgba: u32) -> (c: ColorU)
        ensures
            c.r == rgba >> 24,
            c.g == (rgba >> 16) & 0xff,
            c.b == (rgba >> 8) & 0xff,
            c.a == rgba & 0xff,
            rgba == ((c.r as u32) << 24) | ((c.g as u32) << 16) | ((c.b as u32) << 8) | (
            c.a as u32),
    {
        let c = ColorU {
            r: (rgba >> 24) as u8,
            g: ((rgba >> 16) & 0xff) as u8,
            b: ((rgba >> 8) & 0xff) as u8,
            a: (rgba & 0xff) as u8,
        };
        proof {
            lemma_from_u32_channels(rgba);
        }
        c
    }

    /// The constant (0, 0, 0, 255): opaque black.
    pub fn black() -> (c: ColorU)
        ensures
            c == (ColorU { r: 0u8, g: 0u8, b: 0u8, a: 255u8 }),
    {
        ColorU { r: 0, g: 0, b: 0, a: 255 }
    }

    /// True exactly when the alpha channel is at its maximum, 255.
    pub fn is_opaque(&self) -> (result: bool)
        ensures
            result <==> self.a == 255,
    {
        proof {
            assert(!0u8 == 255u8) by (bit_vector);
        }
        self.a == !0
    }

    /// True exactly when the alpha channel is 0.
    pub fn is_fully_transparent(&self) -> (result: bool)
        ensures
            result <==> self.a == 0,
    {
        self.a == 0
    }

    /// The 6-hex-digit triplet `#rrggbb` (lowercase, two digits per
    /// channel, alpha omitted): the textual form an opaque color
    /// displays as. Total; callers choose it when `is_opaque` holds.
    pub fn hex_string(&self) -> (s: String)
        ensures
            s@ == hex_chars(*self),
    {
        let mut s = String::from_str("#");
        proof {
            reveal_strlit("#");
        }
        s.append(hex_digit(self.r / 16));
        s.append(hex_digit(self.r % 16));
        s.append(hex_digit(self.g / 16));
        s.append(hex_digit(self.g % 16));
        s.append(hex_digit(self.b / 16));
        s.append(hex_digit(self.b % 16));
        proof {
            assert(s@ =~= hex_chars(*self));
        }
        s
    }
}

/// Colors order lexicographically on (red, green, blue, alpha).
impl PartialOrd for ColorU {
    fn partial_cmp(&self, other: &ColorU) -> (r: Option<Ordering>) {
        Some(
            if self.r != other.r {
                if self.r < other.r {
                    Ordering::Less
                } else {
                    Ordering::Greater
                }
            } else if self.g != other.g {
                if self.g < other.g {
                    Ordering::Less
                } else {
                    Ordering::Greater
                }
            } else if self.b != other.b {
                if self.b < other.b {
                    Ordering::Less
                } else {
                    Ordering::Greater
                }
            } else if self.a != other.a {
                if self.a < other.a {
                    Ordering::Less
                } else {
                    Ordering::Greater
                }
            } else {
                Ordering::Equal
            },
        )
    }
}

impl vstd::std_specs::cmp::PartialOrdSpecImpl for ColorU {
    open spec fn obeys_partial_cmp_spec() -> bool {
        true
    }

    open spec fn partial_cmp_spec(&self, other: &ColorU) -> Option<Ordering> {
        Some(lex_cmp(*self, *other))
    }
}

/// Equality is structural: two colors are equal exactly when they
/// agree on every channel, so identically constructed colors compare
/// equal and deduplicate as keys.
pub proof fn lemma_eq_channels(x: ColorU, y: ColorU)
    ensures
        x == y <==> (x.r == y.r && x.g == y.g && x.b == y.b && x.a == y.a),
{
}

/// The comparison is consistent with equality and antisymmetric: a
/// color compares equal only to itself, one color is below a second
/// exactly when the second is above the first, and a color is less
/// exactly when its channel at the first differing field is the
/// smaller, taking the fields in the order red, green, blue, alpha.
pub proof fn lemma_lexicographic_order(x: ColorU, y: ColorU)
    ensures
        lex_cmp(x, y) == Ordering::Equal <==> x == y,
        lex_cmp(x, y) == Ordering::Less <==> lex_cmp(y, x) == Ordering::Greater,
        lex_cmp(x, y) == Ordering::Less <==> (x.r < y.r || (x.r == y.r && x.g < y.g) || (x.r == y.r
            && x.g == y.g && x.b < y.b) || (x.r == y.r && x.g == y.g && x.b == y.b && x.a < y.a)),
{
}

/// The order is transitive: a color below a second, itself below a
/// third, is below the third.
pub proof fn lemma_order_transitive(x: ColorU, y: ColorU, z: ColorU)
    requires
        lex_cmp(x, y) == Ordering::Less,
        lex_cmp(y, z) == Ordering::Less,
    ensures
        lex_cmp(x, z) == Ordering::Less,
{
}

/// The default color is fully transparent black, (0, 0, 0, 0).
impl Default for ColorU {
    fn default() -> (c: ColorU)
        ensures
            c == (ColorU { r: 0u8, g: 0u8, b: 0u8, a: 0u8 }),
    {
        ColorU { r: 0, g: 0, b: 0, a: 0 }
    }
}

/// One lowercase hexadecimal digit, as a one-character string slice.
fn hex_digit(n: u8) -> (d: &'static str)
    requires
        n < 16,
    ensures
        d@.len() == 1,
        d@[0] == hex_char(n as int),
{
    proof {
        reveal_strlit("0");
        reveal_strlit("1");
        reveal_strlit("2");
        reveal_strlit("3");
        reveal_strlit("4");
        reveal_strlit("5");
        reveal_strlit("6");
        reveal_strlit("7");
        reveal_strlit("8");
        reveal_strlit("9");
        reveal_strlit("a");
        reveal_strlit("b");
        reveal_strlit("c");
        reveal_strlit("d");
        reveal_strlit("e");
        reveal_strlit("f");
    }
    if n == 0 {
        "0"
    } else if n == 1 {
        "1"
    } else if n == 2 {
        "2"
    } else if n == 3 {
        "3"
    } else if n == 4 {
        "4"
    } else if n == 5 {
        "5"
    } else if n == 6 {
        "6"
    } else if n == 7 {
        "7"
    } else if n == 8 {
        "8"
    } else if n == 9 {
        "9"
    } else if n == 10 {
        "a"
    } else if n == 11 {
        "b"
    } else if n == 12 {
        "c"
    } else if n == 13 {
        "d"
    } else if n == 14 {
        "e"
    } else {
        "f"
    }
}

/// The four channels a 32-bit packed value unpacks to, and the fact
/// that shifting and masking them back recombines to that value.
proof fn lemma_from_u32_channels(rgba: u32)
    by (bit_vector)
    ensures
        (rgba >> 24) as u8 == rgba >> 24,
        ((rgba >> 16) & 0xff) as u8 == (rgba >> 16) & 0xff,
        ((rgba >> 8) & 0xff) as u8 == (rgba >> 8) & 0xff,
        (rgba & 0xff) as u8 == rgba & 0xff,
        rgba == ((((rgba >> 24) as u8) as u32) << 24) | (((((rgba >> 16) & 0xff) as u8) as u32)
            << 16) | ((((((rgba >> 8) & 0xff) as u8)) as u32) << 8) | (((rgba & 0xff) as u8) as u32),
{
}

} // verus!
