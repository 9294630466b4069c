//! Small text helpers shared by the wire and crypto modules.

use vstd::prelude::*;
use crate::CryptoError;

verus! {

/// Relies on `String::push`: appends exactly the given character.
#[verifier::external_body]
pub(crate) fn push_char(s: &mut String, c: char)
    ensures
        final(s)@ == old(s)@.push(c),
{
    s.push(c);
}

/// True exactly when the string equals the literal, character for character.
pub(crate) fn string_eq_str(a: &String, b: &str) -> (r: bool)
    ensures
        r == (a@ == b@),
{
    let bs = String::from_str(b);
    a.eq(&bs)
}

/// Relies on `String::from_utf8`: succeeds exactly on valid UTF-8 input and
/// returns the string whose UTF-8 encoding is the input.
#[verifier::external_body]
pub(crate) fn bytes_to_string(v: &Vec<u8>) -> (r: Result<String, CryptoError>)
    ensures
        match r {
            Ok(s) => vstd::utf8::encode_utf8(s@) == v@,
            Err(e) => e == CryptoError::Malformed,
        },
{
    match String::from_utf8(v.clone()) {
        Ok(s) => Ok(s),
        Err(_) => Err(CryptoError::Malformed),
    }
}

} // verus!
