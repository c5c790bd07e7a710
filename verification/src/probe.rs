//! Decoding of the driver's identity strings.
//!
//! Each introspection query against the current context yields either the
//! bytes of a null-terminated string or nothing at all. A missing string is
//! mapped to empty text, never to a failure; the bytes of a present string
//! are decoded permissively, with invalid sequences replaced rather than
//! rejected. The unverified shell reads the raw driver memory and hands
//! this module plain optional byte vectors.

use vstd::prelude::*;

verus! {

/// The text that permissive UTF-8 decoding yields for the given bytes.
pub uninterp spec fn lossy_decoded(bytes: Seq<u8>) -> Seq<char>;

/// Relies on String::from_utf8_lossy: the decoding depends on the bytes
/// alone, and an empty input decodes to an empty string.
#[verifier::external_body]
fn utf8_lossy(bytes: &Vec<u8>) -> (r: String)
    ensures
        r@ == lossy_decoded(bytes@),
        bytes@.len() == 0 ==> r@.len() == 0,
{
    String::from_utf8_lossy(bytes).into_owned()
}

/// The report field a query's raw result yields: empty text for a missing
/// string, the permissive decoding otherwise.
pub open spec fn decoded_field(raw: Option<Seq<u8>>) -> Seq<char> {
    match raw {
        None => Seq::<char>::empty(),
        Some(bytes) => lossy_decoded(bytes),
    }
}

/// Turns one query's raw result into the report's text field.
pub fn decode_gl_string(raw: Option<Vec<u8>>) -> (r: String)
    ensures
        raw matches None ==> r@ == Seq::<char>::empty(),
        raw matches Some(bytes) ==> r@ == lossy_decoded(bytes@),
{
    match raw {
        None => String::new(),
        Some(bytes) => utf8_lossy(&bytes),
    }
}

} // verus!
