use vstd::prelude::*;

verus! {

/// The decimal digit `d` (below ten).
pub open spec fn digit(d: nat) -> char {
    if d == 0 {
        '0'
    } else if d == 1 {
        '1'
    } else if d == 2 {
        '2'
    } else if d == 3 {
        '3'
    } else if d == 4 {
        '4'
    } else if d == 5 {
        '5'
    } else if d == 6 {
        '6'
    } else if d == 7 {
        '7'
    } else if d == 8 {
        '8'
    } else {
        '9'
    }
}

/// `n` written in decimal, without leading zeros.
pub open spec fn decimal(n: nat) -> Seq<char>
    decreases n,
{
    if n < 10 {
        seq![digit(n)]
    } else {
        decimal(n / 10).push(digit(n % 10))
    }
}

/// The 24-bit colour escape sequence `ESC [ <kind> ; 2 ; r ; g ; b m`, where
/// `kind` is 38 for the foreground and 48 for the background.
pub open spec fn rgb_sequence(kind: char, r: u8, g: u8, b: u8) -> Seq<char> {
    seq!['\x1b', '[', kind, '8', ';', '2', ';'] + decimal(r as nat) + seq![';'] + decimal(
        g as nat,
    ) + seq![';'] + decimal(b as nat) + seq!['m']
}

/// The sequence that sets the foreground colour.
pub open spec fn fg_sequence(r: u8, g: u8, b: u8) -> Seq<char> {
    rgb_sequence('3', r, g, b)
}

/// The sequence that sets the background colour.
pub open spec fn bg_sequence(r: u8, g: u8, b: u8) -> Seq<char> {
    rgb_sequence('4', r, g, b)
}

/// Relies on termion's `Rgb::fg_string`: `ESC [38;2;r;g;bm`, each component
/// in decimal without leading zeros.
#[verifier::external_body]
pub(crate) fn fg_string(r: u8, g: u8, b: u8) -> (s: String)
    ensures
        s@ == fg_sequence(r, g, b),
{
    termion::color::Rgb(r, g, b).fg_string()
}

/// Relies on termion's `Rgb::bg_string`: `ESC [48;2;r;g;bm`, each component
/// in decimal without leading zeros.
#[verifier::external_body]
pub(crate) fn bg_string(r: u8, g: u8, b: u8) -> (s: String)
    ensures
        s@ == bg_sequence(r, g, b),
{
    termion::color::Rgb(r, g, b).bg_string()
}

/// Relies on `String::push_str`, which appends `t` to `s`.
#[verifier::external_body]
pub(crate) fn append(s: &mut String, t: &str)
    ensures
        final(s)@ == old(s)@ + t@,
{
    s.push_str(t)
}

} // verus!
