use vstd::prelude::*;
use crate::error::VerifyError;

verus! {

/// `c` is one of `0-9`, `a-f`, `A-F`.
pub open spec fn is_hex_digit(c: char) -> bool {
    ('0' <= c && c <= '9') || ('a' <= c && c <= 'f') || ('A' <= c && c <= 'F')
}

/// The value of a hex digit.
pub open spec fn hex_digit_value(c: char) -> int {
    if '0' <= c && c <= '9' {
        c as int - '0' as int
    } else if 'a' <= c && c <= 'f' {
        c as int - 'a' as int + 10
    } else {
        c as int - 'A' as int + 10
    }
}

/// Text that encodes bytes as pairs of hex digits.
pub open spec fn is_hex_text(s: Seq<char>) -> bool {
    s.len() % 2 == 0 && forall|i: int| 0 <= i < s.len() ==> is_hex_digit(#[trigger] s[i])
}

/// The bytes that hex text encodes, the high digit of each pair first.
pub open spec fn hex_bytes(s: Seq<char>) -> Seq<u8> {
    Seq::new(
        s.len() / 2,
        |i: int| (16 * hex_digit_value(s[2 * i]) + hex_digit_value(s[2 * i + 1])) as u8,
    )
}

/// The error of hex::decode.
#[verifier::external_type_specification]
#[verifier::external_body]
pub struct ExFromHexError(hex::FromHexError);

/// Relies on hex::decode: it accepts exactly an even number of hex digits of
/// either case and returns one byte per pair; any other text is an error.
#[verifier::external_body]
fn decode_hex(text: &str) -> (r: Result<Vec<u8>, hex::FromHexError>)
    ensures
        r.is_ok() == is_hex_text(text@),
        r matches Ok(b) ==> b@ == hex_bytes(text@),
{
    hex::decode(text)
}

/// Decodes the hex text of a presentation into its bytes.
pub fn decode_presentation_hex(text: &str) -> (r: Result<Vec<u8>, VerifyError>)
    ensures
        r.is_ok() == is_hex_text(text@),
        r matches Ok(b) ==> b@ == hex_bytes(text@),
        r matches Err(e) ==> e is InvalidHexEncoding,
{
    match decode_hex(text) {
        Ok(b) => Ok(b),
        Err(e) => Err(VerifyError::InvalidHexEncoding(e.to_string())),
    }
}

} // verus!
