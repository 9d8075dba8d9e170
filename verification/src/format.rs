//! Numbers and columns as text.

use crate::calc::metrics::{Fraction, Ratio};
use vstd::prelude::*;

verus! {

/// The character of a decimal digit.
pub open spec fn digit_char(d: int) -> char {
    if d == 0 {
        '0'
    } else if d == 1 {
        '1'
    } else if d == 2 {
        '2'
    } else if d == 3 {
        '3'
    } else if d == 4 {
        '4'
    } else if d == 5 {
        '5'
    } else if d == 6 {
        '6'
    } else if d == 7 {
        '7'
    } else if d == 8 {
        '8'
    } else {
        '9'
    }
}

/// A natural number in decimal digits, without leading zeros.
pub open spec fn decimal_text(n: nat) -> Seq<char>
    decreases n,
{
    if n < 10 {
        seq![digit_char(n as int)]
    } else {
        decimal_text(n / 10).push(digit_char((n % 10) as int))
    }
}

/// An integer in decimal digits, with a minus sign if it is negative.
pub open spec fn int_text(i: int) -> Seq<char> {
    if i < 0 {
        seq!['-'] + decimal_text((-i) as nat)
    } else {
        decimal_text(i as nat)
    }
}

/// `count` spaces.
pub open spec fn spaces(count: int) -> Seq<char> {
    Seq::new(
        if count < 0 {
            0nat
        } else {
            count as nat
        },
        |i: int| ' ',
    )
}

/// The text, filled up with spaces on the right to `width` characters; a
/// longer text stays as it is.
pub open spec fn padded(text: Seq<char>, width: int) -> Seq<char> {
    text + spaces(width - text.len())
}

/// The text, with spaces on both sides to make `width` characters, the odd
/// space on the right; a longer text stays as it is.
pub open spec fn centered(text: Seq<char>, width: int) -> Seq<char> {
    spaces((width - text.len()) / 2) + text + spaces(
        (width - text.len()) - (width - text.len()) / 2,
    )
}

/// A natural number in decimal digits, with zeros in front to make
/// `width` digits.
pub open spec fn zero_filled(n: nat, width: int) -> Seq<char>
    decreases width,
{
    if width <= 0 {
        Seq::empty()
    } else {
        zero_filled(n / 10, width - 1).push(digit_char((n % 10) as int))
    }
}

/// Ten to the power `places`.
pub open spec fn power_of_ten(places: nat) -> nat
    decreases places,
{
    if places == 0 {
        1
    } else {
        10 * power_of_ten((places - 1) as nat)
    }
}

/// `numerator / denominator`, for a natural numerator and a positive
/// denominator, rounded to the nearest whole number, a half to the even
/// one.
pub open spec fn rounded_quotient(numerator: nat, denominator: nat) -> nat {
    let quotient = numerator / denominator;
    let rest = numerator % denominator;
    if 2 * rest > denominator || (2 * rest == denominator && quotient % 2 == 1) {
        quotient + 1
    } else {
        quotient
    }
}

/// The fraction as a decimal number with `places` digits behind the point,
/// rounded to the nearest such number, a half to the even one; with a minus
/// sign for a negative numerator. "NaN" for a denominator that is not
/// positive.
pub open spec fn fixed_text(f: Fraction, places: nat) -> Seq<char> {
    if f.denominator <= 0 {
        "NaN"@
    } else {
        let magnitude = if f.numerator < 0 {
            (-f.numerator) as nat
        } else {
            f.numerator as nat
        };
        let scale = power_of_ten(places);
        let scaled = rounded_quotient(magnitude * scale, f.denominator as nat);
        let sign = if f.numerator < 0 {
            seq!['-']
        } else {
            Seq::empty()
        };
        let whole = decimal_text(scaled / scale);
        if places == 0 {
            sign + whole
        } else {
            sign + whole + seq!['.'] + zero_filled(scaled % scale, places as int)
        }
    }
}

fn digit_str(d: u64) -> (r: &'static str)
    requires
        d < 10,
    ensures
        r@ == seq![digit_char(d as int)],
{
    proof {
        reveal_strlit("0");
        reveal_strlit("1");
        reveal_strlit("2");
        reveal_strlit("3");
        reveal_strlit("4");
        reveal_strlit("5");
        reveal_strlit("6");
        reveal_strlit("7");
        reveal_strlit("8");
        reveal_strlit("9");
    }
    let r = match d {
        0 => "0",
        1 => "1",
        2 => "2",
        3 => "3",
        4 => "4",
        5 => "5",
        6 => "6",
        7 => "7",
        8 => "8",
        _ => "9",
    };
    assert(r@ =~= seq![digit_char(d as int)]);
    r
}

/// A natural number in decimal digits.
pub fn nat_to_text(n: u128) -> (r: String)
    ensures
        r@ == decimal_text(n as nat),
    decreases n,
{
    if n < 10 {
        digit_str(n as u64).to_owned()
    } else {
        let mut text = nat_to_text(n / 10);
        text.append(digit_str((n % 10) as u64));
        text
    }
}

/// An integer in decimal digits, with a minus sign if it is negative.
pub fn int_to_text(i: i64) -> (r: String)
    ensures
        r@ == int_text(i as int),
{
    if i < 0 {
        proof {
            reveal_strlit("-");
        }
        let mut text = "-".to_owned();
        let magnitude: u128 = (-(i as i128)) as u128;
        let digits = nat_to_text(magnitude);
        text.append(digits.as_str());
        assert(text@ =~= int_text(i as int));
        text
    } else {
        nat_to_text(i as u128)
    }
}

/// `count` spaces appended to `text`.
fn append_spaces(text: &mut String, count: usize)
    ensures
        final(text)@ == old(text)@ + spaces(count as int),
{
    proof {
        reveal_strlit(" ");
    }
    let ghost start = text@;
    let mut n: usize = 0;
    assert(text@ =~= start + spaces(0));
    while n < count
        invariant
            n <= count,
            start == old(text)@,
            text@ == start + spaces(n as int),
            " "@ == seq![' '],
        decreases count - n,
    {
        text.append(" ");
        assert(text@ =~= start + spaces(n + 1));
        n = n + 1;
    }
}

/// The text, filled up with spaces on the right to `width` characters.
pub fn pad_right(text: &str, width: usize) -> (r: String)
    ensures
        r@ == padded(text@, width as int),
{
    let length = text.unicode_len();
    let mut out = text.to_owned();
    if length < width {
        append_spaces(&mut out, width - length);
    } else {
        assert(out@ =~= padded(text@, width as int));
    }
    out
}

/// The text, with spaces on both sides to make `width` characters.
pub fn center(text: &str, width: usize) -> (r: String)
    ensures
        r@ == centered(text@, width as int),
{
    let length = text.unicode_len();
    let mut out = String::new();
    if length < width {
        let left: usize = (width - length) / 2;
        append_spaces(&mut out, left);
        out.append(text);
        append_spaces(&mut out, (width - length) - left);
        assert(out@ =~= centered(text@, width as int));
    } else {
        out.append(text);
        assert(out@ =~= centered(text@, width as int));
    }
    out
}

/// A natural number with zeros in front to make `width` digits.
fn zero_fill(n: u128, width: u8) -> (r: String)
    ensures
        r@ == zero_filled(n as nat, width as int),
    decreases width,
{
    if width == 0 {
        String::new()
    } else {
        let mut text = zero_fill(n / 10, width - 1);
        text.append(digit_str((n % 10) as u64));
        text
    }
}

fn ten_to(places: u8) -> (r: u128)
    requires
        places <= 9,
    ensures
        r == power_of_ten(places as nat),
        1 <= r <= 1_000_000_000,
{
    proof {
        reveal_with_fuel(power_of_ten, 11);
    }
    match places {
        0 => 1,
        1 => 10,
        2 => 100,
        3 => 1_000,
        4 => 10_000,
        5 => 100_000,
        6 => 1_000_000,
        7 => 10_000_000,
        8 => 100_000_000,
        _ => 1_000_000_000,
    }
}

/// The ratio as a decimal number with `places` digits behind the point
/// (at most nine), rounded to the nearest such number, a half to the even
/// one. "NaN" for a denominator that is not positive.
pub fn ratio_to_text(ratio: Ratio, places: u8) -> (r: String)
    requires
        places <= 9,
    ensures
        r@ == fixed_text(ratio@, places as nat),
{
    if ratio.denominator <= 0 {
        return "NaN".to_owned();
    }
    let magnitude: u128 = if ratio.numerator < 0 {
        (-(ratio.numerator as i128)) as u128
    } else {
        ratio.numerator as u128
    };
    let denominator: u128 = ratio.denominator as u128;
    let scale = ten_to(places);
    assert(magnitude * scale <= 0x8000_0000_0000_0000 * 1_000_000_000) by (nonlinear_arith)
        requires
            magnitude <= 0x8000_0000_0000_0000,
            scale <= 1_000_000_000,
    ;
    let product: u128 = magnitude * scale;
    let quotient: u128 = product / denominator;
    let rest: u128 = product % denominator;
    let scaled: u128 = if 2 * rest > denominator || (2 * rest == denominator && quotient % 2
        == 1) {
        quotient + 1
    } else {
        quotient
    };
    assert(scaled == rounded_quotient((magnitude * scale) as nat, denominator as nat));
    let mut text = if ratio.numerator < 0 {
        proof {
            reveal_strlit("-");
        }
        "-".to_owned()
    } else {
        String::new()
    };
    let ghost sign = text@;
    let whole = nat_to_text(scaled / scale);
    text.append(whole.as_str());
    if places > 0 {
        proof {
            reveal_strlit(".");
        }
        text.append(".");
        let digits = zero_fill(scaled % scale, places);
        text.append(digits.as_str());
        assert(text@ =~= sign + whole@ + seq!['.'] + digits@);
    }
    assert(sign =~= if ratio.numerator < 0 {
        seq!['-']
    } else {
        Seq::<char>::empty()
    });
    text
}

} // verus!
