//! The text of a plain pixel map: a header line by line, then one line of
//! three channel values for each pixel.

use vstd::prelude::*;
use vstd::string::*;

verus! {

/// The character that writes the digit `d`.
pub open spec fn digit(d: nat) -> char
    recommends
        d < 10,
{
    ('0' as int + d) as char
}

/// The decimal numeral of `n`: its digits from the most significant down,
/// with no leading zero, and `0` for zero.
pub open spec fn decimal(n: nat) -> Seq<char>
    decreases n,
{
    if n < 10 {
        seq![digit(n)]
    } else {
        decimal(n / 10).push(digit(n % 10))
    }
}

/// The decimal numeral of an integer, with a minus sign before a negative
/// one.
pub open spec fn signed_decimal(n: int) -> Seq<char> {
    if n < 0 {
        seq!['-'] + decimal((-n) as nat)
    } else {
        decimal(n as nat)
    }
}

/// The number that a row of digit characters writes.
pub open spec fn denoted(text: Seq<char>) -> int
    decreases text.len(),
{
    if text.len() == 0 {
        0
    } else {
        10 * denoted(text.drop_last()) + (text.last() as int - '0' as int)
    }
}

/// A character between `0` and `9`.
pub open spec fn is_digit(c: char) -> bool {
    '0' <= c <= '9'
}

/// A numeral is made of digits only, begins with a zero only when it is the
/// numeral of zero, and writes the number it was made from.
pub proof fn lemma_decimal_is_numeral(n: nat)
    ensures
        decimal(n).len() >= 1,
        forall|i: int| 0 <= i < decimal(n).len() ==> is_digit(#[trigger] decimal(n)[i]),
        decimal(n)[0] == '0' <==> n == 0,
        denoted(decimal(n)) == n,
    decreases n,
{
    let text = decimal(n);
    assert(text.last() as int - '0' as int == n % 10);
    if n < 10 {
        assert(denoted(text.drop_last()) == 0);
    } else {
        lemma_decimal_is_numeral(n / 10);
        assert(text.drop_last() =~= decimal(n / 10));
    }
}

/// Different numbers have different numerals.
pub proof fn lemma_decimal_is_injective(a: nat, b: nat)
    requires
        decimal(a) == decimal(b),
    ensures
        a == b,
{
    lemma_decimal_is_numeral(a);
    lemma_decimal_is_numeral(b);
}

fn digit_text(d: u8) -> (text: &'static str)
    requires
        d < 10,
    ensures
        text@ == seq![digit(d as nat)],
{
    proof {
        reveal_strlit("0");
        reveal_strlit("1");
        reveal_strlit("2");
        reveal_strlit("3");
        reveal_strlit("4");
        reveal_strlit("5");
        reveal_strlit("6");
        reveal_strlit("7");
        reveal_strlit("8");
        reveal_strlit("9");
    }
    let text = match d {
        0 => "0",
        1 => "1",
        2 => "2",
        3 => "3",
        4 => "4",
        5 => "5",
        6 => "6",
        7 => "7",
        8 => "8",
        _ => "9",
    };
    assert(text@ =~= seq![digit(d as nat)]);
    text
}

fn push_decimal(out: &mut String, n: u32)
    ensures
        final(out)@ == old(out)@ + decimal(n as nat),
    decreases n,
{
    if n >= 10 {
        push_decimal(out, n / 10);
    }
    out.append(digit_text((n % 10) as u8));
    assert(out@ =~= old(out)@ + decimal(n as nat));
}

fn push_signed_decimal(out: &mut String, n: i16)
    ensures
        final(out)@ == old(out)@ + signed_decimal(n as int),
{
    if n < 0 {
        proof {
            reveal_strlit("-");
        }
        out.append("-");
        push_decimal(out, (-(n as i32)) as u32);
        assert(out@ =~= old(out)@ + signed_decimal(n as int));
    } else {
        push_decimal(out, n as u32);
    }
}

/// One pixel as it is written out: three channel values from 0 to 255.
#[derive(Clone, Copy, Debug, PartialEq, Eq, Structural)]
pub struct Pixel {
    pub red: u8,
    pub green: u8,
    pub blue: u8,
}

impl Pixel {
    /// The pixel's line of text: the three numerals, a space between them,
    /// and a line feed.
    pub open spec fn line(self) -> Seq<char> {
        decimal(self.red as nat) + seq![' '] + decimal(self.green as nat) + seq![' '] + decimal(
            self.blue as nat,
        ) + seq!['\n']
    }

    /// A pixel of the given channel values.
    pub fn new(red: u8, green: u8, blue: u8) -> (pixel: Pixel)
        ensures
            pixel == (Pixel { red, green, blue }),
    {
        Pixel { red, green, blue }
    }

    /// Writes the pixel as a line of the pixel map.
    pub fn ppm_color(&self) -> (line: String)
        ensures
            line@ == self.line(),
    {
        proof {
            reveal_strlit(" ");
            reveal_strlit("\n");
        }
        let mut line = String::new();
        push_decimal(&mut line, self.red as u32);
        line.append(" ");
        push_decimal(&mut line, self.green as u32);
        line.append(" ");
        push_decimal(&mut line, self.blue as u32);
        line.append("\n");
        assert(line@ =~= self.line());
        line
    }
}

/// The head of a pixel map of `width` by `height` pixels: the format's
/// mark, the two sizes and the largest channel value, a line each.
pub open spec fn header_text(width: int, height: int) -> Seq<char> {
    seq!['P', '3', '\n'] + signed_decimal(width) + seq!['\n'] + signed_decimal(height) + seq![
        '\n',
        '2',
        '5',
        '5',
        '\n',
    ]
}

/// Writes the head of a pixel map.
pub fn header(width: i16, height: i16) -> (text: String)
    ensures
        text@ == header_text(width as int, height as int),
{
    proof {
        reveal_strlit("P3\n");
        reveal_strlit("\n");
        reveal_strlit("\n255\n");
    }
    let mut text = String::new();
    text.append("P3\n");
    push_signed_decimal(&mut text, width);
    text.append("\n");
    push_signed_decimal(&mut text, height);
    text.append("\n255\n");
    assert(text@ =~= header_text(width as int, height as int));
    text
}

} // verus!
