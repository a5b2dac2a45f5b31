//! The ways in which decoding a formatter-location descriptor fails.

use crate::flags::FirehoseFlags;
use vstd::prelude::*;

verus! {

/// Why a formatter-location descriptor could not be decoded.
#[derive(Clone, Copy, Debug, PartialEq, Eq)]
pub enum DecodeError {
    /// The selected layout needs more bytes than the input holds.
    TruncatedInput,
    /// The location code of the flag word selects no known layout. The word
    /// is carried along unchanged.
    UnknownFormatterFlags(FirehoseFlags),
}

} // verus!
