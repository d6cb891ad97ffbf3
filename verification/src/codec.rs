//! The two byte transformations that the user-data formats rely on: standard
//! base64 decoding and gzip decompression.
use base64::Engine;
use std::io::Read;
use vstd::prelude::*;

verus! {

/// The error that base64 decoding reports.
#[verifier::external_type_specification]
#[verifier::external_body]
pub struct ExBase64DecodeError(base64::DecodeError);

/// The error type of `std::io` operations.
#[verifier::external_type_specification]
#[verifier::external_body]
pub struct ExIoError(std::io::Error);

/// The bytes that the standard base64 alphabet (with padding) decodes `input`
/// to, or `None` where `input` is not such an encoding.
pub uninterp spec fn spec_base64_decode(input: Seq<u8>) -> Option<Seq<u8>>;

/// The bytes held by the first member of the gzip stream `input`, or `None`
/// where `input` does not start with a complete, intact gzip member.
pub uninterp spec fn spec_gunzip(input: Seq<u8>) -> Option<Seq<u8>>;

/// `base64::engine::general_purpose::STANDARD.decode`, which is also what
/// `base64::decode` calls. Claimed: it succeeds exactly where the named
/// decoding is defined, and then returns it.
#[verifier::external_body]
fn standard_base64_decode(input: &[u8]) -> (r: Result<Vec<u8>, base64::DecodeError>)
    ensures
        r is Ok <==> spec_base64_decode(input@) is Some,
        r matches Ok(v) ==> spec_base64_decode(input@) == Some(v@),
{
    base64::engine::general_purpose::STANDARD.decode(input)
}

/// `flate2::read::GzDecoder::new(input)` read to its end with
/// `std::io::Read::read_to_end`. Claimed: it succeeds exactly where the named
/// decompression is defined, and then yields it.
#[verifier::external_body]
fn gzip_read_to_end(input: &[u8]) -> (r: Result<Vec<u8>, std::io::Error>)
    ensures
        r is Ok <==> spec_gunzip(input@) is Some,
        r matches Ok(v) ==> spec_gunzip(input@) == Some(v@),
{
    let mut out = Vec::new();
    match flate2::read::GzDecoder::new(input).read_to_end(&mut out) {
        Ok(_) => Ok(out),
        Err(e) => Err(e),
    }
}

/// Decodes standard base64; `None` where `input` is not valid base64.
pub fn base64_decode(input: &[u8]) -> (r: Option<Vec<u8>>)
    ensures
        match spec_base64_decode(input@) {
            Some(d) => r matches Some(v) && v@ == d,
            None => r is None,
        },
{
    match standard_base64_decode(input) {
        Ok(v) => Some(v),
        Err(_) => None,
    }
}

/// Decompresses one gzip member; `None` where `input` is not gzip data.
/// All or nothing: a truncated member yields `None` rather than the text
/// decoded so far, and bytes after the first member are ignored (a streaming
/// decoder that writes as it goes would instead have written the decoded
/// prefix, and would refuse trailing bytes only after writing).
pub fn gunzip(input: &[u8]) -> (r: Option<Vec<u8>>)
    ensures
        match spec_gunzip(input@) {
            Some(d) => r matches Some(v) && v@ == d,
            None => r is None,
        },
{
    match gzip_read_to_end(input) {
        Ok(v) => Some(v),
        Err(_) => None,
    }
}

} // verus!
