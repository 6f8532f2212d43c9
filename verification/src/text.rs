//! Numbers as text: decimal digits, padded to a width.

use vstd::prelude::*;

verus! {

/// The character of the decimal digit `d`.
pub open spec fn digit(d: nat) -> char
    recommends
        d < 10,
{
    (0x30 + d) as char
}

/// The decimal digits of `n`, most significant first, without leading zeros.
pub open spec fn decimal(n: nat) -> Seq<char>
    decreases n,
{
    if n < 10 {
        seq![digit(n)]
    } else {
        decimal(n / 10).push(digit(n % 10))
    }
}

/// `text` with as many `fill` characters in front as bring it to `width`;
/// `text` itself where it is that long already.
pub open spec fn padded(text: Seq<char>, width: nat, fill: char) -> Seq<char> {
    if text.len() < width {
        Seq::new((width - text.len()) as nat, |i: int| fill) + text
    } else {
        text
    }
}

/// The character of the decimal digit `d`.
pub fn digit_char(d: u8) -> (c: char)
    requires
        d < 10,
    ensures
        c == digit(d as nat),
{
    (0x30u8 + d) as char
}

/// Writes `n` in decimal and pads it on the left with `fill` to `width` characters.
pub fn pad_number(n: u128, width: usize, fill: char) -> (text: Vec<char>)
    ensures
        text@ == padded(decimal(n as nat), width as nat, fill),
{
    let mut text: Vec<char> = Vec::new();
    text.push(digit_char((n % 10) as u8));
    let mut rest: u128 = n / 10;
    while rest > 0
        invariant
            decimal(n as nat) == (if rest > 0 {
                decimal(rest as nat)
            } else {
                Seq::empty()
            }) + text@,
            text@.len() > 0,
        decreases rest,
    {
        text.insert(0, digit_char((rest % 10) as u8));
        rest = rest / 10;
    }
    let ghost digits = text@;
    while text.len() < width
        invariant
            digits.len() <= text@.len(),
            text@.len() <= width || text@ == digits,
            text@ == Seq::new((text@.len() - digits.len()) as nat, |i: int| fill) + digits,
        decreases width - text.len(),
    {
        text.insert(0, fill);
    }
    text
}

} // verus!
