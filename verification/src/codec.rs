//! Base64 decoding through the `base64` crate.
use vstd::prelude::*;
use base64::Engine;
use base64::engine::general_purpose::{STANDARD, URL_SAFE};

verus! {

/// What `base64::engine::general_purpose::STANDARD.decode(input)` gives
/// (standard alphabet, canonical `=` padding required): the decoded bytes,
/// or the display text of the `DecodeError`.
pub uninterp spec fn standard_decoded(input: Seq<u8>) -> Result<Seq<u8>, Seq<char>>;

/// What `base64::engine::general_purpose::URL_SAFE.decode(input)` gives
/// (URL-safe alphabet, canonical `=` padding required): the decoded bytes,
/// or the display text of the `DecodeError`.
pub uninterp spec fn url_safe_decoded(input: Seq<u8>) -> Result<Seq<u8>, Seq<char>>;

/// `STANDARD.decode(input)`, with the error as its display text.
#[verifier::external_body]
pub(crate) fn decode_standard(input: &[u8]) -> (r: Result<Vec<u8>, String>)
    ensures
        match r {
            Ok(v) => standard_decoded(input@) == Ok::<Seq<u8>, Seq<char>>(v@),
            Err(t) => standard_decoded(input@) == Err::<Seq<u8>, Seq<char>>(t@),
        },
{
    match STANDARD.decode(input) {
        Ok(v) => Ok(v),
        Err(e) => Err(e.to_string()),
    }
}

/// `URL_SAFE.decode(input)`, with the error as its display text.
#[verifier::external_body]
pub(crate) fn decode_url_safe(input: &[u8]) -> (r: Result<Vec<u8>, String>)
    ensures
        match r {
            Ok(v) => url_safe_decoded(input@) == Ok::<Seq<u8>, Seq<char>>(v@),
            Err(t) => url_safe_decoded(input@) == Err::<Seq<u8>, Seq<char>>(t@),
        },
{
    match URL_SAFE.decode(input) {
        Ok(v) => Ok(v),
        Err(e) => Err(e.to_string()),
    }
}

} // verus!
