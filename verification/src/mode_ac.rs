//! Mode A/C codes as they are carried inside Mode S fields: the identity
//! (squawk) interleave and the Gillham altitude code.

use vstd::prelude::*;

verus! {

/// One if `word` has a bit in common with `mask`, else zero.
pub open spec fn bit_of(word: u32, mask: u32) -> nat {
    if word & mask != 0 {
        1
    } else {
        0
    }
}

/// The octal digit that three bits of `word` spell, `b4` weighing four,
/// `b2` two and `b1` one.
pub open spec fn octal_digit(word: u32, b4: u32, b2: u32, b1: u32) -> nat {
    4 * bit_of(word, b4) + 2 * bit_of(word, b2) + bit_of(word, b1)
}

/// The four octal digits A, B, C, D of a 13-bit identity field, whose bits
/// arrive interleaved as C1 A1 C2 A2 C4 A4 X B1 D1 B2 D2 B4 D4 from the most
/// significant bit down; X is not part of any digit.
pub open spec fn id13_digits(id13: u32) -> (nat, nat, nat, nat) {
    (
        octal_digit(id13, 0x0080, 0x0200, 0x0800),
        octal_digit(id13, 0x0002, 0x0008, 0x0020),
        octal_digit(id13, 0x0100, 0x0400, 0x1000),
        octal_digit(id13, 0x0001, 0x0004, 0x0010),
    )
}

/// The digits A, B, C, D packed four bits apiece, A highest.
pub open spec fn pack_digits(digits: (nat, nat, nat, nat)) -> nat {
    digits.0 * 0x1000 + digits.1 * 0x100 + digits.2 * 0x10 + digits.3
}

/// The digit of `code` that stands `place` hexadecimal places from the right.
pub open spec fn digit_at(code: nat, place: nat) -> nat
    decreases place,
{
    if place == 0 {
        code % 16
    } else {
        digit_at(code / 16, (place - 1) as nat)
    }
}

fn bit(word: u32, mask: u32) -> (b: u32)
    ensures
        b == bit_of(word, mask),
{
    if word & mask != 0 {
        1
    } else {
        0
    }
}

fn digit(word: u32, b4: u32, b2: u32, b1: u32) -> (d: u32)
    ensures
        d == octal_digit(word, b4, b2, b1),
        d <= 7,
{
    4 * bit(word, b4) + 2 * bit(word, b2) + bit(word, b1)
}

/// Gathers the interleaved bits of a 13-bit identity field into its four
/// octal digits, four bits to a digit.
pub fn decode_id13_field(id13_field: u32) -> (code: u32)
    ensures
        code == pack_digits(id13_digits(id13_field)),
        digit_at(code as nat, 3) == id13_digits(id13_field).0,
        digit_at(code as nat, 2) == id13_digits(id13_field).1,
        digit_at(code as nat, 1) == id13_digits(id13_field).2,
        digit_at(code as nat, 0) == id13_digits(id13_field).3,
        forall|place: nat| place < 4 ==> #[trigger] digit_at(code as nat, place) <= 7,
        code <= 0x7777,
{
    let a: u32 = digit(id13_field, 0x0080, 0x0200, 0x0800);
    let b: u32 = digit(id13_field, 0x0002, 0x0008, 0x0020);
    let c: u32 = digit(id13_field, 0x0100, 0x0400, 0x1000);
    let d: u32 = digit(id13_field, 0x0001, 0x0004, 0x0010);
    let code: u32 = a * 0x1000 + b * 0x100 + c * 0x10 + d;
    proof {
        lemma_packed_digits(a as nat, b as nat, c as nat, d as nat);
    }
    code
}

/// Packing four digits below sixteen and taking them out again gives the
/// same digits.
pub proof fn lemma_packed_digits(a: nat, b: nat, c: nat, d: nat)
    requires
        a < 16,
        b < 16,
        c < 16,
        d < 16,
    ensures
        digit_at(pack_digits((a, b, c, d)), 3) == a,
        digit_at(pack_digits((a, b, c, d)), 2) == b,
        digit_at(pack_digits((a, b, c, d)), 1) == c,
        digit_at(pack_digits((a, b, c, d)), 0) == d,
{
    let code = pack_digits((a, b, c, d));
    reveal_with_fuel(digit_at, 5);
    assert(code % 16 == d);
    assert(code / 16 == a * 0x100 + b * 0x10 + c);
    assert((code / 16) / 16 == a * 0x10 + b);
    assert(((code / 16) / 16) / 16 == a);
}

/// Every digit of a decoded identity field is an octal digit, whatever the
/// field holds.
pub proof fn lemma_id13_digits_octal(id13: u32)
    ensures
        forall|place: nat|
            place < 4 ==> #[trigger] digit_at(pack_digits(id13_digits(id13)), place) <= 7,
        pack_digits(id13_digits(id13)) <= 0x7777,
{
    let d = id13_digits(id13);
    lemma_packed_digits(d.0, d.1, d.2, d.3);
    reveal_with_fuel(digit_at, 5);
}

/// The binary number whose reflected Gray code is `gray`, for codes of up
/// to eight bits: each bit is the parity of the code's bits from it upward.
pub open spec fn gray_to_binary(gray: u32) -> u32 {
    gray ^ (gray >> 1) ^ (gray >> 2) ^ (gray >> 3) ^ (gray >> 4) ^ (gray >> 5) ^ (gray >> 6) ^ (gray
        >> 7)
}

/// Decoding undoes the reflected Gray code: the number that an eight-bit
/// code decodes to has that code, which is the number combined bit by bit
/// with its own half, and it is the only number of eight bits that has it.
pub proof fn lemma_gray_code(gray: u32, other: u32)
    requires
        gray < 256,
    ensures
        gray_to_binary(gray) < 256,
        gray_to_binary(gray) ^ (gray_to_binary(gray) >> 1) == gray,
        other < 256 && other ^ (other >> 1) == gray ==> other == gray_to_binary(gray),
{
    let binary = gray_to_binary(gray);
    assert(binary < 256 && binary ^ (binary >> 1) == gray && (other < 256 && other ^ (other >> 1)
        == gray ==> other == binary)) by (bit_vector)
        requires
            gray < 256,
            binary == gray ^ (gray >> 1) ^ (gray >> 2) ^ (gray >> 3) ^ (gray >> 4) ^ (gray >> 5) ^ (
            gray >> 6) ^ (gray >> 7),
    ;
}

/// The Gray code of the 500 ft count: D2 D4 A1 A2 A4 B1 B2 B4, D2 highest.
pub open spec fn gillham_major(mode_a: u32) -> nat {
    128 * bit_of(mode_a, 0x0002) + 64 * bit_of(mode_a, 0x0004) + 32 * bit_of(mode_a, 0x1000) + 16
        * bit_of(mode_a, 0x2000) + 8 * bit_of(mode_a, 0x4000) + 4 * bit_of(mode_a, 0x0100) + 2
        * bit_of(mode_a, 0x0200) + bit_of(mode_a, 0x0400)
}

/// The Gray code of the 100 ft step: C1 C2 C4, C1 highest.
pub open spec fn gillham_minor(mode_a: u32) -> nat {
    4 * bit_of(mode_a, 0x0010) + 2 * bit_of(mode_a, 0x0020) + bit_of(mode_a, 0x0040)
}

/// The 100 ft step, one to five, that the decoded C bits stand for, before
/// it is mirrored in odd 500 ft bands; `None` for the two patterns that the
/// code does not use.
pub open spec fn gillham_step(minor: nat) -> Option<nat> {
    let step = gray_to_binary(minor as u32) as nat;
    if step == 7 {
        Some(5)
    } else if step == 5 || step == 6 {
        None
    } else {
        Some(step)
    }
}

/// Whether `mode_a` is a Gillham altitude: no bit outside the digits A, B,
/// C, D, D1 clear, and some C bit set.
pub open spec fn gillham_legal(mode_a: u32) -> bool {
    (mode_a & 0xFFFF_8889 == 0) && (mode_a & 0x0000_00F0 != 0)
}

/// The altitude of a Gillham code in hundreds of feet: five per 500 ft
/// band plus the step within the band, which runs backwards in odd bands,
/// less the code's offset of 1300 ft. `None` for a code that stands for no
/// altitude.
pub open spec fn gillham_hundreds(mode_a: u32) -> Option<int> {
    if !gillham_legal(mode_a) {
        None
    } else {
        let bands = gray_to_binary(gillham_major(mode_a) as u32) as int;
        match gillham_step(gillham_minor(mode_a)) {
            None => None,
            Some(step) => Some(
                bands * 5 + (if bands % 2 == 1 {
                    6 - step
                } else {
                    step as int
                }) - 13,
            ),
        }
    }
}

fn gray_decode(gray: u32) -> (binary: u32)
    requires
        gray < 256,
    ensures
        binary == gray_to_binary(gray),
        binary < 256,
        gray < 8 ==> binary < 8,
        gray != 0 ==> binary != 0,
        binary ^ (binary >> 1) == gray,
{
    let binary: u32 = gray ^ (gray >> 1) ^ (gray >> 2) ^ (gray >> 3) ^ (gray >> 4) ^ (gray >> 5) ^ (
    gray >> 6) ^ (gray >> 7);
    assert(binary < 256 && (gray < 8 ==> binary < 8) && (gray != 0 ==> binary != 0) && binary ^ (
    binary >> 1) == gray) by (bit_vector)
        requires
            gray < 256,
            binary == gray ^ (gray >> 1) ^ (gray >> 2) ^ (gray >> 3) ^ (gray >> 4) ^ (gray >> 5) ^ (
            gray >> 6) ^ (gray >> 7),
    ;
    binary
}

/// Decodes a Gillham-coded altitude, given as the four octal digits that
/// [`decode_id13_field`] packs, into hundreds of feet.
pub fn mode_a_to_mode_c(mode_a: u32) -> (hundreds: Option<i32>)
    ensures
        match hundreds {
            Some(h) => gillham_hundreds(mode_a) == Some(h as int) && -12 <= h <= 1267,
            None => gillham_hundreds(mode_a) is None,
        },
{
    if (mode_a & 0xFFFF_8889) != 0 || (mode_a & 0x0000_00F0) == 0 {
        return None;
    }
    let major: u32 = 128 * bit(mode_a, 0x0002) + 64 * bit(mode_a, 0x0004) + 32 * bit(
        mode_a,
        0x1000,
    ) + 16 * bit(mode_a, 0x2000) + 8 * bit(mode_a, 0x4000) + 4 * bit(mode_a, 0x0100) + 2 * bit(
        mode_a,
        0x0200,
    ) + bit(mode_a, 0x0400);
    let minor: u32 = 4 * bit(mode_a, 0x0010) + 2 * bit(mode_a, 0x0020) + bit(mode_a, 0x0040);
    assert(mode_a & 0x0010 != 0 || mode_a & 0x0020 != 0 || mode_a & 0x0040 != 0) by (bit_vector)
        requires
            mode_a & 0xFFFF_8889 == 0,
            mode_a & 0x0000_00F0 != 0,
    ;
    let bands: u32 = gray_decode(major);
    let raw_step: u32 = gray_decode(minor);
    if raw_step == 5 || raw_step == 6 {
        return None;
    }
    let step: u32 = if raw_step == 7 {
        5
    } else {
        raw_step
    };
    let within: u32 = if bands % 2 == 1 {
        6 - step
    } else {
        step
    };
    Some((bands * 5 + within) as i32 - 13)
}

} // verus!
