//! Bit string encoding and decoding.

pub use crate::encoding::bit_string::{decode_bit_string, encode_bit_string};
