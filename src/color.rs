use vstd::prelude::*;

verus! {

/// The palette used when painting the emulator's screen.
#[derive(Clone, Copy, Debug, PartialEq, Eq, Structural)]
pub enum Color {
    Red,
    Black,
    White,
    Grey,
    Green,
    Blue,
    Magenta,
    Yellow,
    Cyan,
}

/// The red, green and blue components of each colour.
pub open spec fn rgb_spec(c: Color) -> (u8, u8, u8) {
    match c {
        Color::Black => (34, 34, 34),
        Color::Red => (240, 10, 10),
        Color::White => (240, 240, 240),
        Color::Grey => (120, 120, 120),
        Color::Green => (10, 240, 10),
        Color::Blue => (10, 10, 240),
        Color::Magenta => (240, 10, 240),
        Color::Yellow => (240, 240, 10),
        Color::Cyan => (10, 240, 240),
    }
}

/// The decimal digit `d`, which is below ten.
pub open spec fn digit_char(d: nat) -> char {
    seq!['0', '1', '2', '3', '4', '5', '6', '7', '8', '9'][d as int]
}

/// The decimal numeral of `n`, without leading zeros.
pub open spec fn decimal(n: nat) -> Seq<char>
    decreases n,
{
    if n < 10 {
        seq![digit_char(n)]
    } else {
        decimal(n / 10) + seq![digit_char(n % 10)]
    }
}

/// The CSS text `rgb(r, g, b)` of three components.
pub open spec fn rgb_text(r: u8, g: u8, b: u8) -> Seq<char> {
    seq!['r', 'g', 'b', '('] + decimal(r as nat) + seq![',', ' '] + decimal(g as nat) + seq![
        ',',
        ' ',
    ] + decimal(b as nat) + seq![')']
}

/// Relies on std's `format!`, which writes a `u8` as its decimal numeral.
#[verifier::external_body]
fn format_rgb(r: u8, g: u8, b: u8) -> (s: String)
    ensures
        s@ == rgb_text(r, g, b),
{
    format!("rgb({}, {}, {})", r, g, b)
}

impl Color {
    /// The colour as CSS text, such as `rgb(240, 10, 10)`.
    pub fn to_rgb(self) -> (s: String)
        ensures
            s@ == rgb_text(rgb_spec(self).0, rgb_spec(self).1, rgb_spec(self).2),
    {
        let (b1, b2, b3) = self.rgb();
        format_rgb(b1, b2, b3)
    }

    /// The red, green and blue components.
    pub fn rgb(self) -> (r: (u8, u8, u8))
        ensures
            r == rgb_spec(self),
    {
        match self {
            Color::Black => (34, 34, 34),
            Color::Red => (240, 10, 10),
            Color::White => (240, 240, 240),
            Color::Grey => (120, 120, 120),
            Color::Green => (10, 240, 10),
            Color::Blue => (10, 10, 240),
            Color::Magenta => (240, 10, 240),
            Color::Yellow => (240, 240, 10),
            Color::Cyan => (10, 240, 240),
        }
    }
}

} // verus!
