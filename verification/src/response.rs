//! Response assembly: the error taxonomy of the pipeline, the shape of an
//! outgoing HTTP response, and the headers set on a successful transform.

use vstd::prelude::*;
use crate::decimal::dec_numeral;

verus! {

/// Every client-visible failure of the pipeline.
#[derive(Clone, Copy, PartialEq, Eq, Structural, Debug)]
pub enum ErrorKind {
    /// The `url` query parameter is absent.
    MissingUrlParam,
    /// The `w` query parameter is absent.
    MissingWidthParam,
    /// The `w` query parameter is not a positive integer that fits in `u32`.
    InvalidWidthValue,
    /// The remote fetch failed (malformed URL, transport error, bad status).
    FetchFailure,
    /// The fetched bytes are not a decodable image.
    UnsupportedOrCorruptImage,
    /// Encoding the resized image failed.
    EncodeFailure,
}

/// Body of an outgoing response: plain text for errors, image bytes for a
/// successful transform or a cache hit.
#[derive(Debug)]
pub enum ResponseBody {
    Text(String),
    Bytes(Vec<u8>),
}

/// An outgoing HTTP response: status code, headers in order, and body.
#[derive(Debug)]
pub struct HttpResponse {
    pub status: u16,
    pub headers: Vec<(String, String)>,
    pub body: ResponseBody,
}

/// The status code each error is surfaced with.
pub open spec fn error_status(k: ErrorKind) -> int {
    match k {
        ErrorKind::MissingUrlParam => 403,
        ErrorKind::MissingWidthParam => 403,
        ErrorKind::InvalidWidthValue => 403,
        ErrorKind::FetchFailure => 403,
        ErrorKind::UnsupportedOrCorruptImage => 422,
        ErrorKind::EncodeFailure => 500,
    }
}

/// The plain-text body each error is surfaced with.
pub open spec fn error_message(k: ErrorKind) -> Seq<char> {
    match k {
        ErrorKind::MissingUrlParam => "'url' parameter is not provided."@,
        ErrorKind::MissingWidthParam => "'w' parameter not provided."@,
        ErrorKind::InvalidWidthValue => "'w' parameter is not a positive integer."@,
        ErrorKind::FetchFailure => "failed to fetch image."@,
        ErrorKind::UnsupportedOrCorruptImage => "failed to decode image."@,
        ErrorKind::EncodeFailure => "failed to write image."@,
    }
}

/// `r` is the error response for `k`: the right status, no headers, and the
/// exact message as body.
pub open spec fn is_error_response(r: HttpResponse, k: ErrorKind) -> bool {
    &&& r.status as int == error_status(k)
    &&& r.headers@.len() == 0
    &&& r.body matches ResponseBody::Text(t) && t@ == error_message(k)
}

/// `hs` are the four headers of a successful transform whose body is
/// `body_len` bytes long.
pub open spec fn are_success_headers(hs: Seq<(String, String)>, body_len: int) -> bool {
    &&& hs.len() == 4
    &&& hs[0].0@ == "Accept-Ranges"@ && hs[0].1@ == "bytes"@
    &&& hs[1].0@ == "Content-Type"@ && hs[1].1@ == "image/png"@
    &&& hs[2].0@ == "Content-Length"@ && hs[2].1@ == dec_numeral(body_len)
    &&& hs[3].0@ == "Cache-Control"@ && hs[3].1@ == "public, s-maxage=2592000"@
}

/// `r` is the success response carrying `body`: status 200 and the four
/// fixed headers, with `Content-Length` the decimal length of the body.
pub open spec fn is_success_response(r: HttpResponse, body: Seq<u8>) -> bool {
    &&& r.status == 200
    &&& are_success_headers(r.headers@, body.len() as int)
    &&& r.body matches ResponseBody::Bytes(b) && b@ == body
}

/// Build the error response for `k`.
pub fn error_response(k: ErrorKind) -> (r: HttpResponse)
    ensures
        is_error_response(r, k),
{
    let text = match k {
        ErrorKind::MissingUrlParam => "'url' parameter is not provided.",
        ErrorKind::MissingWidthParam => "'w' parameter not provided.",
        ErrorKind::InvalidWidthValue => "'w' parameter is not a positive integer.",
        ErrorKind::FetchFailure => "failed to fetch image.",
        ErrorKind::UnsupportedOrCorruptImage => "failed to decode image.",
        ErrorKind::EncodeFailure => "failed to write image.",
    };
    let status: u16 = match k {
        ErrorKind::MissingUrlParam => 403,
        ErrorKind::MissingWidthParam => 403,
        ErrorKind::InvalidWidthValue => 403,
        ErrorKind::FetchFailure => 403,
        ErrorKind::UnsupportedOrCorruptImage => 422,
        ErrorKind::EncodeFailure => 500,
    };
    HttpResponse { status, headers: Vec::new(), body: ResponseBody::Text(String::from_str(text)) }
}

/// Build the success response around the encoded image bytes.
pub fn build_success_response(body: Vec<u8>) -> (r: HttpResponse)
    ensures
        is_success_response(r, body@),
{
    let headers = success_headers(body.len());
    HttpResponse { status: 200, headers, body: ResponseBody::Bytes(body) }
}

/// The four headers of a successful transform, for a body of `len` bytes.
pub fn success_headers(len: usize) -> (hs: Vec<(String, String)>)
    ensures
        hs@.len() == 4,
        hs@[0].0@ == "Accept-Ranges"@ && hs@[0].1@ == "bytes"@,
        hs@[1].0@ == "Content-Type"@ && hs@[1].1@ == "image/png"@,
        hs@[2].0@ == "Content-Length"@ && hs@[2].1@ == dec_numeral(len as int),
        hs@[3].0@ == "Cache-Control"@ && hs@[3].1@ == "public, s-maxage=2592000"@,
{
    let mut hs: Vec<(String, String)> = Vec::new();
    hs.push((String::from_str("Accept-Ranges"), String::from_str("bytes")));
    hs.push((String::from_str("Content-Type"), String::from_str("image/png")));
    hs.push((String::from_str("Content-Length"), crate::decimal::usize_to_dec_string(len)));
    hs.push((String::from_str("Cache-Control"), String::from_str("public, s-maxage=2592000")));
    hs
}

} // verus!
