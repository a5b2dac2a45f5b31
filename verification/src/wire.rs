//! Fixed-width integers read off the front of a byte slice.
//!
//! The reading itself is done by `nom`. This module states, over plain byte
//! sequences, what its readers return, and turns their failure into a
//! [`DecodeError`].

use crate::error::DecodeError;
use vstd::prelude::*;

verus! {

/// `nom::Err`, the failure of a `nom` parser. It is carried as an opaque
/// value: nothing is claimed of what it holds.
#[verifier::external_type_specification]
#[verifier::external_body]
#[verifier::reject_recursive_types(Failure)]
#[verifier::reject_recursive_types(Error)]
pub struct ExNomErr<Failure, Error>(nom::Err<Failure, Error>);

/// `nom::error::Error`, the error that `nom`'s readers put into a failure.
/// It is carried as an opaque value: nothing is claimed of what it holds.
#[verifier::external_type_specification]
#[verifier::external_body]
#[verifier::reject_recursive_types(I)]
pub struct ExNomError<I>(nom::error::Error<I>);

/// The 16-bit integer whose low byte is `low` and whose high byte is `high`.
pub open spec fn spec_le_u16(low: u8, high: u8) -> u16 {
    (low as nat + 256 * high as nat) as u16
}

/// The unsigned integer whose digits in base 256, most significant first,
/// are `bytes`.
pub open spec fn spec_be_uint(bytes: Seq<u8>) -> nat
    decreases bytes.len(),
{
    if bytes.len() == 0 {
        0
    } else {
        spec_be_uint(bytes.drop_last()) * 256 + bytes.last() as nat
    }
}

/// Calls `nom::number::complete::le_u16` on a byte slice.
///
/// Trusted: the reader succeeds exactly when the slice holds at least two
/// bytes, and then returns the slice past them together with the integer that
/// has the first byte as its low and the second as its high byte.
#[verifier::external_body]
fn nom_le_u16<'a>(input: &'a [u8]) -> (parsed: nom::IResult<&'a [u8], u16>)
    ensures
        parsed is Ok <==> input@.len() >= 2,
        parsed matches Ok((rest, value)) ==> rest@ == input@.skip(2) && value == spec_le_u16(input@[0], input@[1]),
{
    nom::number::complete::le_u16(input)
}

/// Calls `nom::number::complete::be_u128` on a byte slice.
///
/// Trusted: the reader succeeds exactly when the slice holds at least sixteen
/// bytes, and then returns the slice past them together with the integer that
/// has those sixteen bytes as its digits, most significant first.
#[verifier::external_body]
fn nom_be_u128<'a>(input: &'a [u8]) -> (parsed: nom::IResult<&'a [u8], u128>)
    ensures
        parsed is Ok <==> input@.len() >= 16,
        parsed matches Ok((rest, value)) ==> rest@ == input@.skip(16) && value as nat == spec_be_uint(input@.take(16)),
{
    nom::number::complete::be_u128(input)
}

/// Reads a little-endian 16-bit integer off the front of `input`.
///
/// Returns the unread rest and the integer, or
/// [`DecodeError::TruncatedInput`] when `input` holds fewer than two bytes.
pub fn read_le_u16<'a>(input: &'a [u8]) -> (read: Result<(&'a [u8], u16), DecodeError>)
    ensures
        match read {
            Ok((rest, value)) => input@.len() >= 2 && rest@ == input@.skip(2) && value
                == spec_le_u16(input@[0], input@[1]),
            Err(error) => input@.len() < 2 && error == DecodeError::TruncatedInput,
        },
{
    match nom_le_u16(input) {
        Ok((rest, value)) => Ok((rest, value)),
        Err(_) => Err(DecodeError::TruncatedInput),
    }
}

/// Reads a big-endian 128-bit integer off the front of `input`.
///
/// Returns the unread rest and the integer, or
/// [`DecodeError::TruncatedInput`] when `input` holds fewer than sixteen
/// bytes.
pub fn read_be_u128<'a>(input: &'a [u8]) -> (read: Result<(&'a [u8], u128), DecodeError>)
    ensures
        match read {
            Ok((rest, value)) => input@.len() >= 16 && rest@ == input@.skip(16) && value as nat
                == spec_be_uint(input@.take(16)),
            Err(error) => input@.len() < 16 && error == DecodeError::TruncatedInput,
        },
{
    match nom_be_u128(input) {
        Ok((rest, value)) => Ok((rest, value)),
        Err(_) => Err(DecodeError::TruncatedInput),
    }
}

} // verus!
