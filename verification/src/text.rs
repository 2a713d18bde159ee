//! Small text helpers: building strings character by character and writing
//! numbers in decimal.

use vstd::prelude::*;
use vstd::string::*;

verus! {

/// `String::push` of std appends one character to the end of the string.
pub assume_specification[ String::push ](s: &mut String, c: char)
    ensures
        final(s)@ == old(s)@.push(c),
;

/// The character that writes the decimal digit `d`.
pub open spec fn digit(d: nat) -> char {
    if d == 0 {
        '0'
    } else if d == 1 {
        '1'
    } else if d == 2 {
        '2'
    } else if d == 3 {
        '3'
    } else if d == 4 {
        '4'
    } else if d == 5 {
        '5'
    } else if d == 6 {
        '6'
    } else if d == 7 {
        '7'
    } else if d == 8 {
        '8'
    } else {
        '9'
    }
}

/// Whether `c` is one of the ten decimal digits.
pub open spec fn is_digit(c: char) -> bool {
    exists|d: nat| d < 10 && c == #[trigger] digit(d)
}

/// The decimal numeral of `n`, without leading zeros.
pub open spec fn decimal(n: nat) -> Seq<char>
    decreases n,
{
    if n < 10 {
        seq![digit(n)]
    } else {
        decimal(n / 10).push(digit(n % 10))
    }
}

/// `n` written with at least `width` digits, padded with zeros on the left.
pub open spec fn zero_padded(n: nat, width: nat) -> Seq<char>
    decreases width,
{
    if width <= 1 {
        decimal(n)
    } else if n < 10 {
        Seq::new((width - 1) as nat, |i: int| '0').push(digit(n))
    } else {
        zero_padded(n / 10, (width - 1) as nat).push(digit(n % 10))
    }
}

/// The character of one decimal digit.
pub fn digit_char(d: u8) -> (c: char)
    requires
        d < 10,
    ensures
        c == digit(d as nat),
{
    if d == 0 {
        '0'
    } else if d == 1 {
        '1'
    } else if d == 2 {
        '2'
    } else if d == 3 {
        '3'
    } else if d == 4 {
        '4'
    } else if d == 5 {
        '5'
    } else if d == 6 {
        '6'
    } else if d == 7 {
        '7'
    } else if d == 8 {
        '8'
    } else {
        '9'
    }
}

/// Appends the decimal numeral of `n` to `s`.
pub fn push_decimal(s: &mut String, n: u64)
    ensures
        final(s)@ == old(s)@ + decimal(n as nat),
    decreases n,
{
    if n >= 10 {
        push_decimal(s, n / 10);
    }
    let d: u8 = (n % 10) as u8;
    s.push(digit_char(d));
}

/// Appends `n` to `s` with at least `width` digits, zeros first.
pub fn push_zero_padded(s: &mut String, n: u64, width: u8)
    ensures
        final(s)@ == old(s)@ + zero_padded(n as nat, width as nat),
    decreases width,
{
    if width <= 1 {
        push_decimal(s, n);
    } else if n < 10 {
        let ghost before = s@;
        let mut i: u8 = 1;
        while i < width
            invariant
                1 <= i <= width,
                s@ == before + Seq::new((i - 1) as nat, |j: int| '0'),
            decreases width - i,
        {
            s.push('0');
            i = i + 1;
        }
        s.push(digit_char(n as u8));
    } else {
        push_zero_padded(s, n / 10, width - 1);
        let d: u8 = (n % 10) as u8;
        s.push(digit_char(d));
    }
}

/// The decimal numeral of `n` as a string.
pub fn decimal_string(n: u64) -> (r: String)
    ensures
        r@ == decimal(n as nat),
{
    let mut s = String::new();
    push_decimal(&mut s, n);
    s
}

/// Ten to the power `k`.
pub open spec fn pow10(k: nat) -> nat
    decreases k,
{
    if k == 0 {
        1
    } else {
        10 * pow10((k - 1) as nat)
    }
}

/// Padding to `width` gives exactly `width` digits when the number fits
/// in that many.
pub proof fn zero_padded_len(n: nat, width: nat)
    requires
        width >= 1,
        n < pow10(width),
    ensures
        zero_padded(n, width).len() == width,
        forall|i: int| 0 <= i < width ==> is_digit(#[trigger] zero_padded(n, width)[i]),
    decreases width,
{
    if width <= 1 {
        assert(pow10(1) == 10) by {
            reveal_with_fuel(pow10, 2);
        }
        assert(is_digit(digit(n)));
    } else if n < 10 {
        assert(is_digit(digit(0)));
        assert(is_digit(digit(n)));
    } else {
        zero_padded_len(n / 10, (width - 1) as nat);
        assert(is_digit(digit(n % 10)));
    }
}

} // verus!
