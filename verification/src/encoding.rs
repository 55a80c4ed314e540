//! Trusted wrappers around byte/text encodings the library relies on:
//! standard base64, and lossy UTF-8 decoding. The results are functions of
//! their arguments alone, so each is given a name that contracts can
//! speak of without restating the encoding itself.
use base64::Engine;
use vstd::prelude::*;

verus! {

/// The standard base64 encoding of the given bytes.
pub uninterp spec fn spec_base64(bytes: Seq<u8>) -> Seq<char>;

/// The bytes the given text decodes to under standard base64, or `None`
/// when the text is not valid base64.
pub uninterp spec fn spec_base64_decoded(text: Seq<char>) -> Option<Seq<u8>>;

/// The lossy UTF-8 decoding of the given bytes: invalid sequences become
/// replacement characters.
pub uninterp spec fn spec_utf8_lossy(bytes: Seq<u8>) -> Seq<char>;

/// base64's decode error, carried opaquely out of the decode wrapper.
#[verifier::external_type_specification]
#[verifier::external_body]
pub struct ExBase64DecodeError(base64::DecodeError);

/// Relies on base64's standard engine encode: the encoding depends on the
/// bytes alone; decoding inverts it exactly (the standard engine emits
/// canonical padding, which its decode accepts); and no bytes encode to
/// the empty string but the empty input.
#[verifier::external_body]
pub(crate) fn base64_encode(bytes: &Vec<u8>) -> (r: String)
    ensures
        r@ == spec_base64(bytes@),
        spec_base64_decoded(r@) == Some(bytes@),
        bytes@.len() == 0 ==> r@.len() == 0,
{
    base64::engine::general_purpose::STANDARD.encode(bytes)
}

/// Relies on base64's standard engine decode: it succeeds exactly on valid
/// base64 text, and the result depends on the text alone.
#[verifier::external_body]
pub(crate) fn base64_decode(text: &str) -> (r: Result<Vec<u8>, base64::DecodeError>)
    ensures
        r is Ok <==> spec_base64_decoded(text@) is Some,
        r matches Ok(bytes) ==> Some(bytes@) == spec_base64_decoded(text@),
{
    base64::engine::general_purpose::STANDARD.decode(text)
}

/// Relies on String::from_utf8_lossy: the decoding depends on the bytes
/// alone.
#[verifier::external_body]
pub(crate) fn utf8_lossy(bytes: &Vec<u8>) -> (r: String)
    ensures
        r@ == spec_utf8_lossy(bytes@),
{
    String::from_utf8_lossy(bytes).into_owned()
}

} // verus!
