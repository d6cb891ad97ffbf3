//! The metadata services' HTTP side: the endpoints and the headers sent to
//! them, what a status code means, and how a response body is decoded.
use crate::codec::{base64_decode, gunzip, spec_base64_decode, spec_gunzip};
use crate::text::{concat, decode_utf8_bytes};
use vstd::prelude::*;
use vstd::utf8::{
    decode_utf8, encode_utf8, encode_utf8_decode_utf8, encode_utf8_valid_utf8, valid_utf8,
};

verus! {

/// A metadata resource that a source fetches.
#[derive(Clone, Copy, Debug, PartialEq, Eq, Structural)]
pub enum Endpoint {
    AlibabaUserData,
    ExoscaleUserData,
    GcorelabsUserData,
    GoogleUserDataEncoding,
    GoogleUserData,
    OpenstackUserData,
    OracleUserData,
    VultrMetadata,
}

/// The URL of an endpoint.
pub open spec fn spec_endpoint_url(e: Endpoint) -> Seq<char> {
    match e {
        Endpoint::AlibabaUserData => "http://100.100.100.200/latest/user-data"@,
        Endpoint::ExoscaleUserData => "http://169.254.169.254/latest/user-data"@,
        Endpoint::GcorelabsUserData => "http://169.254.169.254/latest/user-data"@,
        Endpoint::GoogleUserDataEncoding =>
            "http://metadata.google.internal/computeMetadata/v1/instance/attributes/user-data-encoding"@,
        Endpoint::GoogleUserData =>
            "http://metadata.google.internal/computeMetadata/v1/instance/attributes/user-data"@,
        Endpoint::OpenstackUserData => "http://169.254.169.254/latest/user-data"@,
        Endpoint::OracleUserData => "http://169.254.169.254/opc/v2/instance/metadata/user_data"@,
        Endpoint::VultrMetadata => "http://169.254.169.254/v1.json"@,
    }
}

/// The header that replaces the default headers of a request, where the
/// endpoint asks for one.
pub open spec fn spec_custom_header(e: Endpoint) -> Option<(Seq<char>, Seq<char>)> {
    match e {
        Endpoint::GoogleUserDataEncoding => Some(("metadata-flavor"@, "Google"@)),
        Endpoint::GoogleUserData => Some(("metadata-flavor"@, "Google"@)),
        Endpoint::OracleUserData => Some(("authorization"@, "Bearer Oracle"@)),
        Endpoint::VultrMetadata => Some(("metadata-token"@, "cloudinit"@)),
        _ => None,
    }
}

/// The headers sent to an endpoint: its own header where it has one (which
/// replaces all others), else the default `user-agent: cloud-seed`.
pub open spec fn spec_request_header(e: Endpoint) -> (Seq<char>, Seq<char>) {
    match spec_custom_header(e) {
        Some(h) => h,
        None => ("user-agent"@, "cloud-seed"@),
    }
}

impl Endpoint {
    /// The URL of this endpoint.
    pub fn url(&self) -> (r: &'static str)
        ensures
            r@ == spec_endpoint_url(*self),
    {
        match self {
            Endpoint::AlibabaUserData => "http://100.100.100.200/latest/user-data",
            Endpoint::ExoscaleUserData => "http://169.254.169.254/latest/user-data",
            Endpoint::GcorelabsUserData => "http://169.254.169.254/latest/user-data",
            Endpoint::GoogleUserDataEncoding =>
                "http://metadata.google.internal/computeMetadata/v1/instance/attributes/user-data-encoding",
            Endpoint::GoogleUserData =>
                "http://metadata.google.internal/computeMetadata/v1/instance/attributes/user-data",
            Endpoint::OpenstackUserData => "http://169.254.169.254/latest/user-data",
            Endpoint::OracleUserData => "http://169.254.169.254/opc/v2/instance/metadata/user_data",
            Endpoint::VultrMetadata => "http://169.254.169.254/v1.json",
        }
    }

    /// The one header sent with a request to this endpoint, as name and value.
    pub fn header(&self) -> (r: (&'static str, &'static str))
        ensures
            (r.0@, r.1@) == spec_request_header(*self),
    {
        match self {
            Endpoint::GoogleUserDataEncoding => ("metadata-flavor", "Google"),
            Endpoint::GoogleUserData => ("metadata-flavor", "Google"),
            Endpoint::OracleUserData => ("authorization", "Bearer Oracle"),
            Endpoint::VultrMetadata => ("metadata-token", "cloudinit"),
            _ => ("user-agent", "cloud-seed"),
        }
    }
}

/// What a response status means for a fetch.
#[derive(Clone, Copy, Debug, PartialEq, Eq, Structural)]
pub enum StatusClass {
    /// A 2xx status: the body is the resource.
    Success,
    /// 404: the resource does not exist.
    NotFound,
    /// Any other status: the fetch fails.
    Failure(u16),
}

/// The meaning of a status code.
pub open spec fn spec_classify_status(code: u16) -> StatusClass {
    if 200 <= code <= 299 {
        StatusClass::Success
    } else if code == 404 {
        StatusClass::NotFound
    } else {
        StatusClass::Failure(code)
    }
}

/// Classifies a response status code.
pub fn classify_status(code: u16) -> (r: StatusClass)
    ensures
        r == spec_classify_status(code),
{
    if 200 <= code && code <= 299 {
        StatusClass::Success
    } else if code == 404 {
        StatusClass::NotFound
    } else {
        StatusClass::Failure(code)
    }
}

/// How a response body is encoded.
#[derive(Clone, Copy, Debug, PartialEq, Eq, Structural)]
pub enum BodyFormat {
    /// Text as it stands.
    Plain,
    /// Gzip-compressed text.
    Gzip,
    /// Base64 of gzip-compressed text.
    Base64Gzip,
}

/// The format that the first three bytes of a body reveal: the gzip magic
/// `1f 8b`, or `H4s`, the base64 encoding of the start of that magic.
pub open spec fn spec_detect_format(b0: u8, b1: u8, b2: u8) -> BodyFormat {
    if b0 == 0x1f && b1 == 0x8b {
        BodyFormat::Gzip
    } else if b0 == 0x48 && b1 == 0x34 && b2 == 0x73 {
        BodyFormat::Base64Gzip
    } else {
        BodyFormat::Plain
    }
}

/// Detects the format of a body from its first chunk, which holds at least
/// three bytes.
pub fn detect_format(first_chunk: &[u8]) -> (r: BodyFormat)
    requires
        first_chunk@.len() >= 3,
    ensures
        r == spec_detect_format(first_chunk@[0], first_chunk@[1], first_chunk@[2]),
{
    let b0 = first_chunk[0];
    let b1 = first_chunk[1];
    let b2 = first_chunk[2];
    if b0 == 0x1f && b1 == 0x8b {
        BodyFormat::Gzip
    } else if b0 == 0x48 && b1 == 0x34 && b2 == 0x73 {
        BodyFormat::Base64Gzip
    } else {
        BodyFormat::Plain
    }
}

/// Why a body could not be decoded.
#[derive(Clone, Copy, Debug, PartialEq, Eq, Structural)]
pub enum BodyError {
    /// Text that is not UTF-8.
    Utf8,
    /// Text that is not base64.
    Base64,
    /// Data that is not gzip.
    Gzip,
}

/// The text of a body in a given format. A base64-gzip body yields the body's
/// own text followed by the decompressed text.
pub open spec fn spec_decode_body(format: BodyFormat, body: Seq<u8>) -> Result<
    Seq<char>,
    BodyError,
> {
    match format {
        BodyFormat::Plain => if valid_utf8(body) {
            Ok(decode_utf8(body))
        } else {
            Err(BodyError::Utf8)
        },
        BodyFormat::Gzip => match spec_gunzip(body) {
            Some(d) => if valid_utf8(d) {
                Ok(decode_utf8(d))
            } else {
                Err(BodyError::Utf8)
            },
            None => Err(BodyError::Gzip),
        },
        BodyFormat::Base64Gzip => if !valid_utf8(body) {
            Err(BodyError::Utf8)
        } else {
            match spec_base64_decode(body) {
                Some(z) => match spec_gunzip(z) {
                    Some(d) => if valid_utf8(d) {
                        Ok(decode_utf8(body) + decode_utf8(d))
                    } else {
                        Err(BodyError::Utf8)
                    },
                    None => Err(BodyError::Gzip),
                },
                None => Err(BodyError::Base64),
            }
        },
    }
}

/// Decodes a response body in the given format.
pub fn decode_body(format: BodyFormat, body: Vec<u8>) -> (r: Result<String, BodyError>)
    ensures
        match spec_decode_body(format, body@) {
            Ok(t) => r matches Ok(s) && s@ == t,
            Err(e) => r == Err::<String, BodyError>(e),
        },
{
    match format {
        BodyFormat::Plain => match decode_utf8_bytes(body) {
            Some(s) => Ok(s),
            None => Err(BodyError::Utf8),
        },
        BodyFormat::Gzip => match gunzip(body.as_slice()) {
            Some(d) => match decode_utf8_bytes(d) {
                Some(s) => Ok(s),
                None => Err(BodyError::Utf8),
            },
            None => Err(BodyError::Gzip),
        },
        BodyFormat::Base64Gzip => {
            let decoded = base64_decode(body.as_slice());
            let text = match decode_utf8_bytes(body) {
                Some(s) => s,
                None => {
                    return Err(BodyError::Utf8);
                },
            };
            match decoded {
                Some(z) => match gunzip(z.as_slice()) {
                    Some(d) => match decode_utf8_bytes(d) {
                        Some(tail) => Ok(concat(text, tail.as_str())),
                        None => Err(BodyError::Utf8),
                    },
                    None => Err(BodyError::Gzip),
                },
                None => Err(BodyError::Base64),
            }
        },
    }
}

/// Gzip-compressed text is detected by its magic bytes and decompressed, so it
/// reads as the same text sent uncompressed (where that text does not itself
/// start like gzip or base64 of gzip).
pub proof fn lemma_gzip_body_reads_as_plain(t: Seq<char>, z: Seq<u8>)
    requires
        z.len() >= 3,
        z[0] == 0x1f && z[1] == 0x8b,
        spec_gunzip(z) == Some(encode_utf8(t)),
        encode_utf8(t).len() >= 3,
        !(encode_utf8(t)[0] == 0x1f && encode_utf8(t)[1] == 0x8b),
        !(encode_utf8(t)[0] == 0x48 && encode_utf8(t)[1] == 0x34 && encode_utf8(t)[2] == 0x73),
    ensures
        spec_detect_format(z[0], z[1], z[2]) == BodyFormat::Gzip,
        spec_decode_body(BodyFormat::Gzip, z) == Ok::<Seq<char>, BodyError>(t),
        ({
            let p = encode_utf8(t);
            &&& spec_detect_format(p[0], p[1], p[2]) == BodyFormat::Plain
            &&& spec_decode_body(BodyFormat::Plain, p) == Ok::<Seq<char>, BodyError>(t)
        }),
{
    encode_utf8_valid_utf8(t);
    encode_utf8_decode_utf8(t);
}

/// Every request to Google's metadata server carries `Metadata-Flavor: Google`,
/// Oracle's carries its bearer token, Vultr's its metadata token, and every
/// other request only `user-agent: cloud-seed`.
pub proof fn lemma_request_headers(e: Endpoint)
    ensures
        (e == Endpoint::GoogleUserDataEncoding || e == Endpoint::GoogleUserData)
            ==> spec_request_header(e) == ("metadata-flavor"@, "Google"@),
        e == Endpoint::OracleUserData ==> spec_request_header(e) == ("authorization"@,
        "Bearer Oracle"@),
        e == Endpoint::VultrMetadata ==> spec_request_header(e) == ("metadata-token"@,
        "cloudinit"@),
        (e == Endpoint::AlibabaUserData || e == Endpoint::ExoscaleUserData || e
            == Endpoint::GcorelabsUserData || e == Endpoint::OpenstackUserData)
            ==> spec_request_header(e) == ("user-agent"@, "cloud-seed"@),
{
}

} // verus!
