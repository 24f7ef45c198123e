//! Decoding of caller-supplied model blobs.  The blob arrives base64
//! encoded; decoding is the one outside call the library's logic makes.

use vstd::prelude::*;

use crate::ServiceError;

verus! {

#[verifier::external_type_specification]
#[verifier::external_body]
pub struct ExDecodeError(base64::DecodeError);

/// What standard base64 decoding returns on a text it accepts: a pure
/// function of the text alone.
pub uninterp spec fn base64_decoding(s: Seq<char>) -> Seq<u8>;

/// Whether a text is one that standard base64 decoding accepts — again
/// a pure function of the text alone.
pub uninterp spec fn base64_ok(s: Seq<char>) -> bool;

/// Relies on base64::decode: decodes with the standard alphabet, a pure
/// function of its input; it succeeds exactly on the texts the alphabet
/// and padding rules admit, and then returns their decoding.
#[verifier::external_body]
fn base64_decode(s: &str) -> (r: Result<Vec<u8>, base64::DecodeError>)
    ensures
        r is Ok == base64_ok(s@),
        r matches Ok(v) ==> v@ == base64_decoding(s@),
{
    base64::decode(s)
}

/// Decodes a caller-supplied base64 model blob, mapping a decoding
/// failure to the library's error.  It succeeds exactly when the blob
/// is valid base64.
pub fn decode_model(s: &str) -> (r: Result<Vec<u8>, ServiceError>)
    ensures
        r is Ok == base64_ok(s@),
        r matches Ok(v) ==> v@ == base64_decoding(s@),
        r is Err ==> r == Err::<Vec<u8>, ServiceError>(ServiceError::InvalidModelEncoding),
{
    match base64_decode(s) {
        Ok(v) => Ok(v),
        Err(_) => Err(ServiceError::InvalidModelEncoding),
    }
}

} // verus!
