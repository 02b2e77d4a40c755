//! Building the text of the kernel's messages, byte by byte.

use vstd::prelude::*;
use vstd::string::StringSliceAdditionalSpecFns;

verus! {

/// The character of the digit `digit` in a base up to 16: `0` to `9`, then
/// `a` to `f`.
pub open spec fn digit_byte(digit: nat) -> u8 {
    if digit < 10 {
        (0x30 + digit) as u8
    } else {
        (0x61 + digit - 10) as u8
    }
}

/// A number loses one digit, so gets smaller, when its last digit is cut
/// off.
pub proof fn lemma_fewer_digits(number: nat, base: nat)
    by (nonlinear_arith)
    requires
        2 <= base <= number,
    ensures
        number / base < number,
{
}

/// The digits of `number` in base `base`, the most significant first,
/// without leading zeros.
pub open spec fn number_text(number: nat, base: nat) -> Seq<u8>
    decreases number,
{
    if number < base || base < 2 {
        seq![digit_byte(number)]
    } else {
        proof {
            lemma_fewer_digits(number, base);
        }
        number_text(number / base, base).push(digit_byte(number % base))
    }
}

/// The digits of `number` in base 10.
pub open spec fn decimal_text(number: nat) -> Seq<u8> {
    number_text(number, 10)
}

/// The digits of `number` in base 16, in lower case.
pub open spec fn hex_text(number: nat) -> Seq<u8> {
    number_text(number, 16)
}

/// Add the digits of `number` in base `base` to `text`.
pub fn push_number(text: &mut Vec<u8>, number: u32, base: u32)
    requires
        2 <= base <= 16,
    ensures
        final(text)@ == old(text)@ + number_text(number as nat, base as nat),
    decreases number,
{
    if number >= base {
        proof {
            lemma_fewer_digits(number as nat, base as nat);
        }
        push_number(text, number / base, base);
    }
    let digit = number % base;
    let byte: u8 = if digit < 10 {
        (0x30 + digit) as u8
    } else {
        (0x61 + digit - 10) as u8
    };
    text.push(byte);
    proof {
        let digits = number_text(number as nat, base as nat);
        assert(byte == digit_byte((number % base) as nat));
        if number >= base {
            let front = number_text((number / base) as nat, base as nat);
            assert((number as nat) / (base as nat) == (number / base) as nat);
            assert((number as nat) % (base as nat) == (number % base) as nat);
            assert(digits == front.push(byte));
            assert(text@ =~= old(text)@ + digits);
        } else {
            assert(number % base == number) by (nonlinear_arith)
                requires
                    number < base,
            ;
            assert(digits == seq![byte]);
            assert(text@ =~= old(text)@ + digits);
        }
    }
}

/// Add the bytes of `s` to `text`.
pub fn push_str(text: &mut Vec<u8>, s: &str)
    ensures
        final(text)@ == old(text)@ + s.spec_bytes(),
{
    let bytes = s.as_bytes();
    let mut index: usize = 0;
    while index < bytes.len()
        invariant
            index <= bytes@.len(),
            bytes@ == s.spec_bytes(),
            text@ == old(text)@ + bytes@.take(index as int),
        decreases bytes@.len() - index,
    {
        text.push(bytes[index]);
        index += 1;
    }
    assert(bytes@.take(index as int) =~= bytes@);
}

} // verus!
