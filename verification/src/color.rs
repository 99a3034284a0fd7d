//! Sampled colours and their textual description.

use vstd::prelude::*;
use vstd::string::StringExecFns;

verus! {

/// One pixel as read from a preview: four 8-bit channels.
#[derive(Clone, Copy, Debug, PartialEq, Eq, Structural)]
pub struct SampledColor {
    pub red: u8,
    pub green: u8,
    pub blue: u8,
    pub alpha: u8,
}

/// The colour record handed to the display layer.
#[derive(Clone, Copy, Debug, PartialEq, Eq, Structural)]
pub struct CanonicalColor {
    pub r: u8,
    pub g: u8,
    pub b: u8,
    pub a: u8,
}

/// The sixteen upper-case hexadecimal digits, in order of value.
pub open spec fn hex_digits() -> Seq<char> {
    seq!['0', '1', '2', '3', '4', '5', '6', '7', '8', '9', 'A', 'B', 'C', 'D', 'E', 'F']
}

/// A channel as two upper-case hexadecimal digits, high nibble first.
pub open spec fn hex_pair(channel: u8) -> Seq<char> {
    seq![hex_digits()[channel as int / 16], hex_digits()[channel as int % 16]]
}

/// A channel in decimal, without leading zeros.
pub open spec fn decimal(channel: u8) -> Seq<char> {
    let n = channel as int;
    if n >= 100 {
        seq![hex_digits()[n / 100], hex_digits()[(n / 10) % 10], hex_digits()[n % 10]]
    } else if n >= 10 {
        seq![hex_digits()[n / 10], hex_digits()[n % 10]]
    } else {
        seq![hex_digits()[n]]
    }
}

/// The description of a colour: `#RRGGBB / rgb(R,G,B)`. Alpha takes no part.
pub open spec fn description(color: SampledColor) -> Seq<char> {
    seq!['#'] + hex_pair(color.red) + hex_pair(color.green) + hex_pair(color.blue)
        + seq![' ', '/', ' ', 'r', 'g', 'b', '('] + decimal(color.red) + seq![','] + decimal(
        color.green,
    ) + seq![','] + decimal(color.blue) + seq![')']
}

/// The canonical record of a colour: the same four channels.
pub open spec fn canonical(color: SampledColor) -> CanonicalColor {
    CanonicalColor { r: color.red, g: color.green, b: color.blue, a: color.alpha }
}

/// A sampled colour from its four channels.
pub fn sample_color(red: u8, green: u8, blue: u8, alpha: u8) -> (out: SampledColor)
    ensures
        out == (SampledColor { red, green, blue, alpha }),
{
    SampledColor { red, green, blue, alpha }
}

/// The digit of value `n` as a one-character string.
fn digit_str(n: u8) -> (s: &'static str)
    requires
        n < 16,
    ensures
        s@ == seq![hex_digits()[n as int]],
{
    proof {
        reveal_strlit("0");
        reveal_strlit("1");
        reveal_strlit("2");
        reveal_strlit("3");
        reveal_strlit("4");
        reveal_strlit("5");
        reveal_strlit("6");
        reveal_strlit("7");
        reveal_strlit("8");
        reveal_strlit("9");
        reveal_strlit("A");
        reveal_strlit("B");
        reveal_strlit("C");
        reveal_strlit("D");
        reveal_strlit("E");
        reveal_strlit("F");
    }
    let s = match n {
        0 => "0",
        1 => "1",
        2 => "2",
        3 => "3",
        4 => "4",
        5 => "5",
        6 => "6",
        7 => "7",
        8 => "8",
        9 => "9",
        10 => "A",
        11 => "B",
        12 => "C",
        13 => "D",
        14 => "E",
        _ => "F",
    };
    assert(s@ =~= seq![hex_digits()[n as int]]);
    s
}

/// Appends the two hexadecimal digits of `channel` to `out`.
fn push_hex_pair(out: &mut String, channel: u8)
    ensures
        final(out)@ == old(out)@ + hex_pair(channel),
{
    out.append(digit_str(channel / 16));
    out.append(digit_str(channel % 16));
    assert(final(out)@ =~= old(out)@ + hex_pair(channel));
}

/// Appends the decimal digits of `channel` to `out`.
fn push_decimal(out: &mut String, channel: u8)
    ensures
        final(out)@ == old(out)@ + decimal(channel),
{
    if channel >= 100 {
        out.append(digit_str(channel / 100));
    }
    if channel >= 10 {
        out.append(digit_str((channel / 10) % 10));
    }
    out.append(digit_str(channel % 10));
    assert(final(out)@ =~= old(out)@ + decimal(channel));
}

/// Describes a sampled colour: its canonical record and the text
/// `#RRGGBB / rgb(R,G,B)`, with upper-case two-digit hexadecimal channels
/// followed by the same channels in decimal.
pub fn format(color: SampledColor) -> (out: (CanonicalColor, String))
    ensures
        out.0 == canonical(color),
        out.1@ == description(color),
{
    proof {
        reveal_strlit("#");
        reveal_strlit(" / rgb(");
        reveal_strlit(",");
        reveal_strlit(")");
    }
    let mut text = String::from_str("#");
    push_hex_pair(&mut text, color.red);
    push_hex_pair(&mut text, color.green);
    push_hex_pair(&mut text, color.blue);
    text.append(" / rgb(");
    push_decimal(&mut text, color.red);
    text.append(",");
    push_decimal(&mut text, color.green);
    text.append(",");
    push_decimal(&mut text, color.blue);
    text.append(")");
    assert(text@ =~= description(color));
    (CanonicalColor { r: color.red, g: color.green, b: color.blue, a: color.alpha }, text)
}

} // verus!
