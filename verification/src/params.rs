//! Request-parameter validation: extracting the target URL and the requested
//! width from the query parameters of the image endpoint.

use vstd::prelude::*;
use crate::decimal::{dec_value, parse_width, valid_width_numeral};
use crate::response::ErrorKind;

verus! {

/// A validated request: the target URL as given, and the requested width,
/// which is always positive.
pub struct ValidatedRequest {
    pub url: String,
    pub width: u32,
}

/// The `url` parameter was given and is non-empty.
pub open spec fn url_present(url: Option<String>) -> bool {
    url matches Some(u) && u@.len() > 0
}

/// Validate the raw `url` and `w` query parameters.
///
/// `url` must be present and non-empty; `w` must be present and be a
/// positive decimal integer that fits in `u32`. A missing parameter is
/// reported before an invalid one, and `url` before `w`. A non-numeric `w`
/// yields `InvalidWidthValue` rather than ending the request abnormally.
pub fn validate_params(url: Option<String>, width: Option<String>) -> (r: Result<
    ValidatedRequest,
    ErrorKind,
>)
    ensures
        r matches Err(ErrorKind::MissingUrlParam) <==> !url_present(url),
        r matches Err(ErrorKind::MissingWidthParam) <==> (url_present(url) && width is None),
        r matches Err(ErrorKind::InvalidWidthValue) <==> (url_present(url) && width is Some
            && !valid_width_numeral(width->Some_0@)),
        r is Ok <==> (url_present(url) && width is Some && valid_width_numeral(width->Some_0@)),
        r matches Ok(v) ==> {
            &&& v.url@ == url->Some_0@
            &&& v.width as int == dec_value(width->Some_0@)
            &&& v.width > 0
        },
{
    let u = match url {
        Some(u) => u,
        None => {
            return Err(ErrorKind::MissingUrlParam);
        },
    };
    if u.as_str().is_empty() {
        return Err(ErrorKind::MissingUrlParam);
    }
    let w = match width {
        Some(w) => w,
        None => {
            return Err(ErrorKind::MissingWidthParam);
        },
    };
    match parse_width(w.as_str()) {
        Some(wv) => Ok(ValidatedRequest { url: u, width: wv }),
        None => Err(ErrorKind::InvalidWidthValue),
    }
}

} // verus!
