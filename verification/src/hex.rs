//! Fixed-width uppercase hexadecimal rendering of unsigned integers.

use crate::wire::spec_be_uint;
use vstd::prelude::*;
use vstd::string::*;

verus! {

/// The sixteen hexadecimal digits, uppercase, in order of value.
pub open spec fn spec_hex_digits() -> Seq<char> {
    seq!['0', '1', '2', '3', '4', '5', '6', '7', '8', '9', 'A', 'B', 'C', 'D', 'E', 'F']
}

/// The rendering of `value` in `width` uppercase hexadecimal digits, most
/// significant first: zero-padded on the left, and cut to the `width` least
/// significant digits where `value` has more.
pub open spec fn spec_hex_upper(value: nat, width: nat) -> Seq<char>
    decreases width,
{
    if width == 0 {
        Seq::empty()
    } else {
        spec_hex_upper(value / 16, (width - 1) as nat).push(spec_hex_digits()[(value % 16) as int])
    }
}

/// The rendering of `bytes` in order, each as two uppercase hexadecimal
/// digits.
pub open spec fn spec_hex_bytes(bytes: Seq<u8>) -> Seq<char>
    decreases bytes.len(),
{
    if bytes.len() == 0 {
        Seq::empty()
    } else {
        spec_hex_bytes(bytes.drop_last()).push(spec_hex_digits()[bytes.last() as int / 16]).push(
            spec_hex_digits()[bytes.last() as int % 16],
        )
    }
}

/// A rendering has as many digits as its width asks for.
pub proof fn lemma_hex_upper_len(value: nat, width: nat)
    ensures
        spec_hex_upper(value, width).len() == width,
    decreases width,
{
    if width > 0 {
        lemma_hex_upper_len(value / 16, (width - 1) as nat);
    }
}

/// Rendering a big-endian integer in two digits per byte renders its bytes
/// one after the other.
pub proof fn lemma_hex_of_be_uint_is_bytewise(bytes: Seq<u8>)
    ensures
        spec_hex_upper(spec_be_uint(bytes), 2 * bytes.len()) == spec_hex_bytes(bytes),
    decreases bytes.len(),
{
    if bytes.len() > 0 {
        let front = bytes.drop_last();
        let last = bytes.last() as nat;
        let value = spec_be_uint(bytes);
        let width = 2 * bytes.len();
        lemma_hex_of_be_uint_is_bytewise(front);
        assert(value / 16 % 16 == last / 16);
        assert(value / 16 / 16 == spec_be_uint(front));
        assert(spec_hex_upper(value, width) == spec_hex_upper(value / 16, (width - 1) as nat).push(
            spec_hex_digits()[(value % 16) as int],
        ));
        assert(spec_hex_upper(value / 16, (width - 1) as nat) == spec_hex_upper(
            value / 16 / 16,
            (width - 2) as nat,
        ).push(spec_hex_digits()[(value / 16 % 16) as int]));
    }
}

/// `value` without its `dropped` least significant hexadecimal digits.
spec fn spec_drop_hex_digits(value: nat, dropped: nat) -> nat
    decreases dropped,
{
    if dropped == 0 {
        value
    } else {
        spec_drop_hex_digits(value, (dropped - 1) as nat) / 16
    }
}

/// Shifting right by four bits per digit drops that many hexadecimal digits.
proof fn lemma_shift_drops_hex_digits(value: u128, dropped: u32)
    requires
        dropped <= 31,
    ensures
        (value >> (4 * dropped) as u32) as nat == spec_drop_hex_digits(value as nat, dropped as nat),
    decreases dropped,
{
    if dropped == 0 {
        assert(value >> 0u32 == value) by (bit_vector);
    } else {
        let fewer: u32 = (dropped - 1) as u32;
        lemma_shift_drops_hex_digits(value, fewer);
        let low: u32 = (4 * fewer) as u32;
        let high: u32 = (4 * dropped) as u32;
        assert(value >> high == (value >> low) / 16) by (bit_vector)
            requires
                high == low + 4,
                low <= 120,
        ;
    }
}

/// The digit of value `digit` as a one-character string.
fn hex_digit(digit: u8) -> (text: &'static str)
    requires
        digit < 16,
    ensures
        text@ == seq![spec_hex_digits()[digit as int]],
{
    proof {
        reveal_strlit("0");
        reveal_strlit("1");
        reveal_strlit("2");
        reveal_strlit("3");
        reveal_strlit("4");
        reveal_strlit("5");
        reveal_strlit("6");
        reveal_strlit("7");
        reveal_strlit("8");
        reveal_strlit("9");
        reveal_strlit("A");
        reveal_strlit("B");
        reveal_strlit("C");
        reveal_strlit("D");
        reveal_strlit("E");
        reveal_strlit("F");
    }
    let text = match digit {
        0 => "0",
        1 => "1",
        2 => "2",
        3 => "3",
        4 => "4",
        5 => "5",
        6 => "6",
        7 => "7",
        8 => "8",
        9 => "9",
        10 => "A",
        11 => "B",
        12 => "C",
        13 => "D",
        14 => "E",
        _ => "F",
    };
    text
}

/// Renders `value` as thirty-two uppercase hexadecimal digits, most
/// significant first, with leading zeros kept.
pub fn hex_upper_u128(value: u128) -> (text: String)
    ensures
        text@ == spec_hex_upper(value as nat, 32),
        text@.len() == 32,
{
    proof {
        lemma_hex_upper_len(value as nat, 32);
    }
    let mut text = String::new();
    let mut written: u32 = 0;
    while written < 32
        invariant
            written <= 32,
            text@ == spec_hex_upper(
                spec_drop_hex_digits(value as nat, (32 - written) as nat),
                written as nat,
            ),
        decreases 32 - written,
    {
        let below: u32 = 31 - written;
        let shift: u32 = 4 * below;
        let shifted: u128 = value >> shift;
        let digit: u8 = (shifted & 0xf) as u8;
        proof {
            lemma_shift_drops_hex_digits(value, below);
            assert(shifted & 0xf == shifted % 16) by (bit_vector);
            assert(shifted & 0xf < 16) by (bit_vector);
        }
        text.append(hex_digit(digit));
        written = written + 1;
    }
    text
}

} // verus!
