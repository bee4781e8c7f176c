//! Numbers as text: the pieces from which the renderings are put together.

use vstd::prelude::*;

verus! {

/// `String::push` appends one character to the end of the string.
pub assume_specification[ String::push ](s: &mut String, c: char)
    ensures
        final(s)@ == old(s)@.push(c),
;

/// The character for a decimal digit.
pub open spec fn digit_char(d: nat) -> char {
    ((48 + d) as u8) as char
}

/// The character for a hexadecimal digit, in upper case.
pub open spec fn hex_char(d: nat) -> char {
    if d < 10 {
        ((48 + d) as u8) as char
    } else {
        ((55 + d) as u8) as char
    }
}

/// The decimal numeral of `n`, without leading zeros.
pub open spec fn decimal(n: nat) -> Seq<char>
    decreases n,
{
    if n < 10 {
        seq![digit_char(n)]
    } else {
        decimal(n / 10).push(digit_char(n % 10))
    }
}

/// The decimal numeral of `n`, with a minus sign where it is negative.
pub open spec fn signed_decimal(n: int) -> Seq<char> {
    if n < 0 {
        seq!['-'] + decimal((-n) as nat)
    } else {
        decimal(n as nat)
    }
}

/// The hexadecimal numeral of `n` in exactly `places` upper-case digits;
/// what does not fit is left out at the top.
pub open spec fn hexadecimal(n: nat, places: nat) -> Seq<char>
    decreases places,
{
    if places == 0 {
        Seq::<char>::empty()
    } else {
        hexadecimal(n / 16, (places - 1) as nat).push(hex_char(n % 16))
    }
}

/// Whether `unit` is one, ten, a hundred and so on.
pub open spec fn power_of_ten(unit: nat) -> bool
    decreases unit,
{
    unit == 1 || (unit >= 10 && unit % 10 == 0 && power_of_ten(unit / 10))
}

/// The digits after the decimal point of `part / (10 * unit)`, without
/// trailing zeros, where `unit` is a power of ten and `part` is below ten
/// times `unit`.
pub open spec fn fraction_digits(part: nat, unit: nat) -> Seq<char>
    decreases unit,
{
    if part == 0 || unit == 0 {
        Seq::<char>::empty()
    } else {
        seq![digit_char(part / unit)] + fraction_digits(part % unit, unit / 10)
    }
}

/// The numeral of `whole` and `part / (10 * unit)`: the whole part, and a
/// point and the fraction's digits where the fraction is not zero.
pub open spec fn fixed_point(whole: nat, part: nat, unit: nat) -> Seq<char> {
    if part == 0 {
        decimal(whole)
    } else {
        decimal(whole) + seq!['.'] + fraction_digits(part, unit)
    }
}

/// The numeral of `tenths / 10`.
pub open spec fn tenths_text(tenths: nat) -> Seq<char> {
    fixed_point(tenths / 10, tenths % 10, 1)
}

/// The numeral of `n / 64`, which has at most six digits after the point.
pub open spec fn sixty_fourths_text(n: nat) -> Seq<char> {
    fixed_point(n / 64, (n % 64) * 15_625, 100_000)
}

fn digit(d: u8) -> (c: char)
    requires
        d < 10,
    ensures
        c == digit_char(d as nat),
{
    (48 + d) as char
}

fn hex_digit(d: u8) -> (c: char)
    requires
        d < 16,
    ensures
        c == hex_char(d as nat),
{
    if d < 10 {
        (48 + d) as char
    } else {
        (55 + d) as char
    }
}

/// Appends the decimal numeral of `n`.
pub fn push_decimal(s: &mut String, n: u64)
    ensures
        final(s)@ == old(s)@ + decimal(n as nat),
    decreases n,
{
    if n >= 10 {
        push_decimal(s, n / 10);
    }
    s.push(digit((n % 10) as u8));
    assert(s@ =~= old(s)@ + decimal(n as nat));
}

/// Appends the decimal numeral of `n`, with a minus sign where it is
/// negative.
pub fn push_signed(s: &mut String, n: i64)
    ensures
        final(s)@ == old(s)@ + signed_decimal(n as int),
{
    if n < 0 {
        s.push('-');
        let magnitude: u64 = if n == i64::MIN {
            0x8000_0000_0000_0000
        } else {
            (-n) as u64
        };
        push_decimal(s, magnitude);
        assert(s@ =~= old(s)@ + signed_decimal(n as int));
    } else {
        push_decimal(s, n as u64);
    }
}

/// Appends the hexadecimal numeral of `n` in exactly `places` upper-case
/// digits.
pub fn push_hex(s: &mut String, n: u64, places: usize)
    ensures
        final(s)@ == old(s)@ + hexadecimal(n as nat, places as nat),
    decreases places,
{
    if places > 0 {
        push_hex(s, n / 16, places - 1);
        s.push(hex_digit((n % 16) as u8));
    }
    assert(s@ =~= old(s)@ + hexadecimal(n as nat, places as nat));
}

fn push_fraction_digits(s: &mut String, part: u32, unit: u32)
    requires
        power_of_ten(unit as nat),
        part < 10 * unit,
    ensures
        final(s)@ == old(s)@ + fraction_digits(part as nat, unit as nat),
    decreases unit,
{
    if part != 0 {
        assert(part / unit < 10) by (nonlinear_arith)
            requires
                part < 10 * unit,
                unit > 0,
        ;
        s.push(digit((part / unit) as u8));
        if unit >= 10 {
            push_fraction_digits(s, part % unit, unit / 10);
        } else {
            assert(fraction_digits((part % unit) as nat, (unit / 10) as nat) =~= Seq::<char>::empty());
        }
    }
    assert(s@ =~= old(s)@ + fraction_digits(part as nat, unit as nat));
}

/// Appends the numeral of `whole` and `part / (10 * unit)`.
pub fn push_fixed_point(s: &mut String, whole: u64, part: u32, unit: u32)
    requires
        power_of_ten(unit as nat),
        part < 10 * unit,
    ensures
        final(s)@ == old(s)@ + fixed_point(whole as nat, part as nat, unit as nat),
{
    push_decimal(s, whole);
    if part != 0 {
        s.push('.');
        push_fraction_digits(s, part, unit);
    }
    assert(s@ =~= old(s)@ + fixed_point(whole as nat, part as nat, unit as nat));
}

/// Appends the numeral of `tenths / 10`.
pub fn push_tenths(s: &mut String, tenths: u32)
    ensures
        final(s)@ == old(s)@ + tenths_text(tenths as nat),
{
    push_fixed_point(s, (tenths / 10) as u64, tenths % 10, 1);
}

/// Appends the numeral of `n / 64`.
pub fn push_sixty_fourths(s: &mut String, n: u32)
    ensures
        final(s)@ == old(s)@ + sixty_fourths_text(n as nat),
{
    proof {
        reveal_with_fuel(power_of_ten, 6);
    }
    push_fixed_point(s, (n / 64) as u64, (n % 64) * 15_625, 100_000);
}

} // verus!
