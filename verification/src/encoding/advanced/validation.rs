//! A structural check of encoded data: every tag decodes, and no
//! application-tagged string is longer than a limit.

use vstd::prelude::*;

use crate::encoding::tag::{tag_content_length, tag_decode, Tag, TagClass};
use crate::encoding::{lemma_tag_decode_within, EncodingError};
use crate::text::chars_of;

verus! {

/// What checking the tags of `s` gives: `Ok` where every tag decodes and
/// no application CharacterString is longer than `max_string`, nor any
/// application OctetString longer than twice that; else the first fault,
/// `Err(Ok(e))` for a decoding error `e`, `Err(Err(m))` for an
/// `InvalidFormat` with text `m`. Each tag's content is skipped by its
/// length, opening and closing tags having none.
pub open spec fn tags_valid(s: Seq<u8>, max_string: usize) -> Result<(), Result<EncodingError, Seq<char>>>
    decreases s.len(),
{
    if s.len() == 0 {
        Ok(())
    } else {
        match tag_decode(s) {
            Err(e) => Err(Ok(e)),
            Ok((t, c)) => {
                let length: int = match tag_content_length(t) {
                    Some(l) => l as int,
                    None => 0,
                };
                if t.class == TagClass::Application && t.number == 7 && length > max_string {
                    Err(Err("String too long"@))
                } else if t.class == TagClass::Application && t.number == 6 && length > 2 * max_string {
                    Err(Err("Octet string too long"@))
                } else if c + length >= s.len() {
                    Ok(())
                } else {
                    proof {
                        lemma_tag_decode_within(s);
                    }
                    tags_valid(s.subrange(c + length, s.len() as int), max_string)
                }
            },
        }
    }
}

/// Validates encoded BACnet data.
pub struct DataValidator {
    /// Maximum allowed tag depth for constructed data
    max_tag_depth: usize,
    /// Maximum allowed string length
    max_string_length: usize,
}

impl DataValidator {
    /// Creates a validator with a depth limit and a string length limit.
    pub fn new(max_tag_depth: usize, max_string_length: usize) -> (r: Self)
        ensures
            r.spec_max_tag_depth() == max_tag_depth,
            r.spec_max_string_length() == max_string_length,
    {
        DataValidator { max_tag_depth, max_string_length }
    }

    /// The depth limit.
    pub closed spec fn spec_max_tag_depth(&self) -> usize {
        self.max_tag_depth
    }

    /// The string length limit.
    pub closed spec fn spec_max_string_length(&self) -> usize {
        self.max_string_length
    }

    /// Validates a complete BACnet data structure: every tag must decode,
    /// application CharacterStrings may hold at most the string limit and
    /// OctetStrings twice it; context tags are skipped over unchecked.
    pub fn validate(&self, data: &[u8]) -> (r: Result<(), EncodingError>)
        ensures
            match tags_valid(data@, self.spec_max_string_length()) {
                Ok(()) => r is Ok,
                Err(Ok(e)) => r == Err::<(), EncodingError>(e),
                Err(Err(m)) => r matches Err(EncodingError::InvalidFormat(t)) && t@ == m,
            },
    {
        self.validate_recursive(data, 0)
    }

    fn validate_recursive(&self, data: &[u8], depth: usize) -> (r: Result<(), EncodingError>)
        ensures
            depth > self.max_tag_depth ==> (r matches Err(EncodingError::InvalidFormat(t)) && t@ == "Maximum tag depth exceeded"@),
            depth <= self.max_tag_depth ==> match tags_valid(data@, self.max_string_length) {
                Ok(()) => r is Ok,
                Err(Ok(e)) => r == Err::<(), EncodingError>(e),
                Err(Err(m)) => r matches Err(EncodingError::InvalidFormat(t)) && t@ == m,
            },
    {
        if depth > self.max_tag_depth {
            return Err(EncodingError::InvalidFormat(chars_of("Maximum tag depth exceeded")));
        }
        let mut pos: usize = 0;
        assert(data@.subrange(0, data@.len() as int) =~= data@);
        while pos < data.len()
            invariant
                depth <= self.max_tag_depth,
                pos <= data@.len(),
                tags_valid(data@, self.max_string_length) == tags_valid(data@.subrange(pos as int, data@.len() as int), self.max_string_length),
            decreases data@.len() - pos,
        {
            let ghost rest = data@.subrange(pos as int, data@.len() as int);
            let tail = vstd::slice::slice_subrange(data, pos, data.len());
            let (t, consumed) = Tag::decode(tail)?;
            proof {
                lemma_tag_decode_within(rest);
            }
            let length: u64 = match t.content_length() {
                Some(l) => l as u64,
                None => 0,
            };
            if t.class == TagClass::Application && t.number == 7 && length > self.max_string_length as u64 {
                return Err(EncodingError::InvalidFormat(chars_of("String too long")));
            }
            if t.class == TagClass::Application && t.number == 6 && length > self.max_string_length as u64
                && length - (self.max_string_length as u64) > self.max_string_length as u64 {
                return Err(EncodingError::InvalidFormat(chars_of("Octet string too long")));
            }
            let next: u128 = pos as u128 + consumed as u128 + length as u128;
            if next >= data.len() as u128 {
                return Ok(());
            }
            proof {
                assert(rest.subrange(consumed + length, rest.len() as int)
                    =~= data@.subrange(next as int, data@.len() as int));
            }
            pos = next as usize;
        }
        Ok(())
    }
}

} // verus!
