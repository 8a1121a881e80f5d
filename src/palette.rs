use vstd::prelude::*;
use vstd::string::*;

verus! {

/// An 8-bit-per-channel RGB color.
#[derive(Clone, Copy, Debug, PartialEq, Eq, Structural)]
pub struct Rgb8 {
    pub r: u8,
    pub g: u8,
    pub b: u8,
}

/// Color of the box at position `i` of the stress grid.
pub open spec fn box_color_spec(i: nat) -> Rgb8 {
    Rgb8 {
        r: (i % 255) as u8,
        g: ((2 * i) % 255) as u8,
        b: ((3 * i) % 255) as u8,
    }
}

/// Color of the box at position `i`: each channel cycles with a period of 255,
/// the green channel twice as fast as red and the blue one three times as fast.
pub fn box_color(i: u32) -> (c: Rgb8)
    ensures
        c == box_color_spec(i as nat),
{
    let n = i as u64;
    Rgb8 { r: (n % 255) as u8, g: ((2 * n) % 255) as u8, b: ((3 * n) % 255) as u8 }
}

/// The sixteen upper-case hexadecimal digits, in order of value.
pub open spec fn hex_digits() -> Seq<char> {
    seq!['0', '1', '2', '3', '4', '5', '6', '7', '8', '9', 'A', 'B', 'C', 'D', 'E', 'F']
}

/// A byte as two upper-case hexadecimal digits, high nibble first.
pub open spec fn byte_hex(b: u8) -> Seq<char> {
    seq![hex_digits()[b as int / 16], hex_digits()[b as int % 16]]
}

/// A color as `#RRGGBB`.
pub open spec fn hex_code_spec(c: Rgb8) -> Seq<char> {
    seq!['#'] + byte_hex(c.r) + byte_hex(c.g) + byte_hex(c.b)
}

/// The hexadecimal digit of `d`, as a one-character string.
fn hex_digit(d: u8) -> (s: &'static str)
    requires
        d < 16,
    ensures
        s@ == seq![hex_digits()[d as int]],
{
    let digits = "0123456789ABCDEF";
    proof {
        reveal_strlit("0123456789ABCDEF");
    }
    assert(digits@ =~= hex_digits());
    digits.substring_ascii(d as usize, d as usize + 1)
}

/// Appends the two hexadecimal digits of `b` to `s`.
fn push_byte_hex(s: &mut String, b: u8)
    ensures
        final(s)@ == old(s)@ + byte_hex(b),
{
    s.append(hex_digit(b / 16));
    s.append(hex_digit(b % 16));
    assert(s@ =~= old(s)@ + byte_hex(b));
}

impl Rgb8 {
    pub fn new(r: u8, g: u8, b: u8) -> (c: Self)
        ensures
            c == (Rgb8 { r, g, b }),
    {
        Rgb8 { r, g, b }
    }

    /// The color as `#RRGGBB`, two upper-case hexadecimal digits per channel.
    pub fn hex_code(&self) -> (s: String)
        ensures
            s@ == hex_code_spec(*self),
    {
        let mut s = String::from_str("#");
        proof {
            reveal_strlit("#");
        }
        push_byte_hex(&mut s, self.r);
        push_byte_hex(&mut s, self.g);
        push_byte_hex(&mut s, self.b);
        assert(s@ =~= hex_code_spec(*self));
        s
    }
}

} // verus!
