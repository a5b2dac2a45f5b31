//! Decoding of the formatter-location descriptor carried by firehose trace
//! records: the 16-bit flag word and the fields that follow it.

pub mod error;
pub mod flags;
pub mod formatters;
pub mod hex;
pub mod wire;

pub use error::DecodeError;
pub use flags::FirehoseFlags;
pub use formatters::FirehoseFormatters;
