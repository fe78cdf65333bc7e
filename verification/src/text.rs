//! Text made of numbers: decimal and hexadecimal digits, and joining text.

use vstd::prelude::*;

use crate::datalink::ethernet::{hex_char, hex_digit_char};
use vstd::utf8::{decode_utf8, valid_utf8};

verus! {

/// The decimal digit character of `d` (0-9).
pub open spec fn dec_char(d: nat) -> char {
    ((48 + d) as u32) as char
}

/// The decimal digits of `n`, without leading zeros.
pub open spec fn dec_text(n: nat) -> Seq<char>
    decreases n,
{
    if n < 10 {
        seq![dec_char(n)]
    } else {
        dec_text(n / 10).push(dec_char(n % 10))
    }
}

/// The uppercase hexadecimal digits of the low `width` nibbles of `n`.
pub open spec fn hex_text(n: nat, width: nat) -> Seq<char>
    decreases width,
{
    if width == 0 {
        seq![]
    } else {
        hex_text(n / 16, (width - 1) as nat).push(hex_char(n % 16))
    }
}

/// Appends the decimal digits of `n`.
pub fn push_decimal(out: &mut Vec<char>, n: u64)
    ensures
        final(out)@ == old(out)@ + dec_text(n as nat),
    decreases n,
{
    if n >= 10 {
        push_decimal(out, n / 10);
    }
    let d = (n % 10) as u8;
    out.push((48 + d) as char);
    assert(final(out)@ =~= old(out)@ + dec_text(n as nat));
}

/// Appends `width` uppercase hexadecimal digits of `n`.
pub fn push_hex(out: &mut Vec<char>, n: u64, width: u8)
    ensures
        final(out)@ == old(out)@ + hex_text(n as nat, width as nat),
    decreases width,
{
    if width > 0 {
        push_hex(out, n / 16, width - 1);
        out.push(hex_digit_char((n % 16) as u8));
    }
    assert(final(out)@ =~= old(out)@ + hex_text(n as nat, width as nat));
}

/// The text that `String::from_utf8_lossy` makes of `bytes`.
pub uninterp spec fn utf8_lossy_decoded(bytes: Seq<u8>) -> Seq<char>;

/// `String::from_utf8_lossy`, as characters: the text of `bytes`, with
/// each ill-formed sequence replaced by U+FFFD. Claimed: the result is a
/// function of `bytes` alone, and for well-formed UTF-8 it is the decoded
/// text; what replacement is made of ill-formed input is left unsaid.
#[verifier::external_body]
pub(crate) fn lossy_chars(bytes: &[u8]) -> (r: Vec<char>)
    ensures
        r@ == utf8_lossy_decoded(bytes@),
        valid_utf8(bytes@) ==> r@ == decode_utf8(bytes@),
{
    String::from_utf8_lossy(bytes).chars().collect()
}

/// `io::Error`'s `Display`: the text of an I/O error. It comes from the
/// operating system, so nothing is claimed of it.
#[verifier::external_body]
pub(crate) fn io_error_text(e: &std::io::Error) -> (r: String) {
    e.to_string()
}

/// `String` from characters.
pub fn text_of(chars: &Vec<char>) -> (r: String)
    ensures
        r@ == chars@,
{
    crate::encoding::character_string::string_from_chars(chars.as_slice())
}

/// `a` followed by `b` (`String + &str`).
#[verifier::external_body]
pub fn concat(a: String, b: &str) -> (r: String)
    ensures
        r@ == a@ + b@,
{
    a + b
}

/// The characters of a string slice.
pub fn chars_of(s: &str) -> (r: String)
    ensures
        r@ == s@,
{
    s.to_string()
}

} // verus!
