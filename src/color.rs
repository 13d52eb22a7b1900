use vstd::prelude::*;
use vstd::string::StringExecFns;

verus! {

/// An RGB colour with eight bits per channel. Arithmetic on colours
/// saturates at 255 instead of wrapping; equality is channel equality.
#[derive(Clone, Copy, Debug, PartialEq, Eq, Structural)]
pub struct Color {
    pub r: u8,
    pub g: u8,
    pub b: u8,
}

/// The sum of two channel values, held at 255 when it would overflow.
pub open spec fn saturated_sum(a: u8, b: u8) -> u8 {
    if a + b > 255 {
        255
    } else {
        (a + b) as u8
    }
}

/// The colour whose channels are taken from bits 16..24, 8..16 and 0..8 of `hex`.
pub open spec fn unpacked(hex: u32) -> Color {
    Color {
        r: ((hex / 0x10000) % 0x100) as u8,
        g: ((hex / 0x100) % 0x100) as u8,
        b: (hex % 0x100) as u8,
    }
}

/// The colour whose channels are the saturated sums of those of `a` and `b`.
pub open spec fn saturated_color_sum(a: Color, b: Color) -> Color {
    Color {
        r: saturated_sum(a.r, b.r),
        g: saturated_sum(a.g, b.g),
        b: saturated_sum(a.b, b.b),
    }
}

/// The character of the decimal digit `d`.
pub open spec fn digit_char(d: nat) -> char {
    seq!['0', '1', '2', '3', '4', '5', '6', '7', '8', '9'][d as int]
}

/// The decimal numeral of `n`, without leading zeros.
pub open spec fn decimal(n: nat) -> Seq<char>
    decreases n,
{
    if n < 10 {
        seq![digit_char(n)]
    } else {
        decimal(n / 10).push(digit_char(n % 10))
    }
}

impl Color {
    /// The packed 24-bit value `R << 16 | G << 8 | B`, as a number.
    pub open spec fn packed(self) -> int {
        self.r * 0x10000 + self.g * 0x100 + self.b
    }

    pub fn new(r: u8, g: u8, b: u8) -> (c: Color)
        ensures
            c.r == r,
            c.g == g,
            c.b == b,
    {
        Color { r, g, b }
    }

    /// Reads a colour from the low 24 bits of `hex`; higher bits are ignored.
    pub fn from_hex(hex: u32) -> (c: Color)
        ensures
            c == unpacked(hex),
    {
        let r = ((hex >> 16u32) & 0xFFu32) as u8;
        let g = ((hex >> 8u32) & 0xFFu32) as u8;
        let b = (hex & 0xFFu32) as u8;
        assert(((hex >> 16u32) & 0xFFu32) == (hex / 0x10000) % 0x100) by (bit_vector);
        assert(((hex >> 8u32) & 0xFFu32) == (hex / 0x100) % 0x100) by (bit_vector);
        assert((hex & 0xFFu32) == hex % 0x100) by (bit_vector);
        Color { r, g, b }
    }

    /// Channel-wise sum, each channel held at 255.
    pub fn add(&self, other: &Color) -> (c: Color)
        ensures
            c == saturated_color_sum(*self, *other),
    {
        Color::new(
            saturating_channel_add(self.r, other.r),
            saturating_channel_add(self.g, other.g),
            saturating_channel_add(self.b, other.b),
        )
    }

    pub fn black() -> (c: Color)
        ensures
            c.r == 0 && c.g == 0 && c.b == 0,
    {
        Color { r: 0, g: 0, b: 0 }
    }

    /// The packed 24-bit encoding `R << 16 | G << 8 | B`.
    pub fn to_hex(self) -> (h: u32)
        ensures
            h == self.packed(),
    {
        let r = self.r as u32;
        let g = self.g as u32;
        let b = self.b as u32;
        assert(((r << 16u32) | (g << 8u32) | b) == r * 0x10000 + g * 0x100 + b) by (bit_vector)
            requires
                r < 0x100,
                g < 0x100,
                b < 0x100,
        ;
        (r << 16u32) | (g << 8u32) | b
    }

    /// A readable form, `Color(r: R, g: G, b: B)` with decimal channels.
    pub fn describe(&self) -> (text: String)
        ensures
            text@ == "Color(r: "@ + decimal(self.r as nat) + ", g: "@ + decimal(self.g as nat)
                + ", b: "@ + decimal(self.b as nat) + ")"@,
    {
        let mut text = String::new();
        text.append("Color(r: ");
        append_decimal(&mut text, self.r);
        text.append(", g: ");
        append_decimal(&mut text, self.g);
        text.append(", b: ");
        append_decimal(&mut text, self.b);
        text.append(")");
        text
    }
}

fn digit_text(d: u8) -> (s: &'static str)
    requires
        d < 10,
    ensures
        s@ == seq![digit_char(d as nat)],
{
    match d {
        0 => { proof { reveal_strlit("0"); } "0" },
        1 => { proof { reveal_strlit("1"); } "1" },
        2 => { proof { reveal_strlit("2"); } "2" },
        3 => { proof { reveal_strlit("3"); } "3" },
        4 => { proof { reveal_strlit("4"); } "4" },
        5 => { proof { reveal_strlit("5"); } "5" },
        6 => { proof { reveal_strlit("6"); } "6" },
        7 => { proof { reveal_strlit("7"); } "7" },
        8 => { proof { reveal_strlit("8"); } "8" },
        _ => { proof { reveal_strlit("9"); } "9" },
    }
}

/// Appends the decimal numeral of `n` to `text`.
fn append_decimal(text: &mut String, n: u8)
    ensures
        final(text)@ == old(text)@ + decimal(n as nat),
{
    proof {
        reveal_with_fuel(decimal, 3);
    }
    if n >= 100 {
        text.append(digit_text(n / 100));
        text.append(digit_text((n / 10) % 10));
        text.append(digit_text(n % 10));
        assert(decimal(n as nat) =~= seq![
            digit_char((n / 100) as nat),
            digit_char(((n / 10) % 10) as nat),
            digit_char((n % 10) as nat),
        ]);
    } else if n >= 10 {
        text.append(digit_text(n / 10));
        text.append(digit_text(n % 10));
        assert(decimal(n as nat) =~= seq![digit_char((n / 10) as nat), digit_char((n % 10) as nat)]);
    } else {
        text.append(digit_text(n));
    }
}

fn saturating_channel_add(a: u8, b: u8) -> (s: u8)
    ensures
        s == saturated_sum(a, b),
{
    let wide: u16 = a as u16 + b as u16;
    if wide > 255 {
        255
    } else {
        wide as u8
    }
}

impl std::ops::Add for Color {
    type Output = Color;

    fn add(self, other: Color) -> Color {
        Color {
            r: saturating_channel_add(self.r, other.r),
            g: saturating_channel_add(self.g, other.g),
            b: saturating_channel_add(self.b, other.b),
        }
    }
}

impl vstd::std_specs::ops::AddSpecImpl for Color {
    open spec fn obeys_add_spec() -> bool {
        true
    }

    open spec fn add_req(self, other: Color) -> bool {
        true
    }

    open spec fn add_spec(self, other: Color) -> Color {
        saturated_color_sum(self, other)
    }
}

/// Packing a colour and reading it back gives the same colour.
pub proof fn lemma_hex_round_trip(c: Color)
    ensures
        unpacked(c.packed() as u32) == c,
{
    let p = c.packed();
    assert(0 <= p < 0x1000000) by (nonlinear_arith)
        requires
            p == c.r * 0x10000 + c.g * 0x100 + c.b,
            0 <= c.r < 0x100,
            0 <= c.g < 0x100,
            0 <= c.b < 0x100,
    ;
    assert((p / 0x10000) % 0x100 == c.r) by (nonlinear_arith)
        requires
            p == c.r * 0x10000 + c.g * 0x100 + c.b,
            0 <= c.r < 0x100,
            0 <= c.g < 0x100,
            0 <= c.b < 0x100,
    ;
    assert((p / 0x100) % 0x100 == c.g) by (nonlinear_arith)
        requires
            p == c.r * 0x10000 + c.g * 0x100 + c.b,
            0 <= c.r < 0x100,
            0 <= c.g < 0x100,
            0 <= c.b < 0x100,
    ;
    assert(p % 0x100 == c.b) by (nonlinear_arith)
        requires
            p == c.r * 0x10000 + c.g * 0x100 + c.b,
            0 <= c.r < 0x100,
            0 <= c.g < 0x100,
            0 <= c.b < 0x100,
    ;
}

} // verus!
