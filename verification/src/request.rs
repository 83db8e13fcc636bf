//! Header/body extraction: the required control headers of an invocation
//! request, validated and parsed, and the body decoded under its declared
//! content type.

use vstd::prelude::*;
use vstd::string::StringSliceAdditionalSpecFns;
use vstd::string::StrSliceExecFns;
use crate::headers::{Header, headers_view, spec_find_header, find_header, bytes_eq};
use crate::numparse::{all_dec_digits, dec_val, parse_u64_dec};

verus! {

/// Why a request was rejected before it reached the host.
pub enum RequestError {
    /// A required header is absent; carries the header's name.
    MissingHeader(Vec<u8>),
    /// A required header is present but unusable; carries the header's name.
    InvalidHeaderValue(Vec<u8>),
    /// The body declared itself JSON but does not parse as JSON.
    MalformedBody,
    /// The path has fewer than two non-empty segments.
    BadPath,
    /// The path names a window that is not open.
    UnknownWindow,
    /// The method is neither `POST` nor `OPTIONS`.
    UnsupportedMethod,
}

/// What a `RequestError` stands for.
pub enum ErrorV {
    MissingHeader(Seq<u8>),
    InvalidHeaderValue(Seq<u8>),
    MalformedBody,
    BadPath,
    UnknownWindow,
    UnsupportedMethod,
}

impl View for RequestError {
    type V = ErrorV;

    open spec fn view(&self) -> ErrorV {
        match self {
            RequestError::MissingHeader(n) => ErrorV::MissingHeader(n@),
            RequestError::InvalidHeaderValue(n) => ErrorV::InvalidHeaderValue(n@),
            RequestError::MalformedBody => ErrorV::MalformedBody,
            RequestError::BadPath => ErrorV::BadPath,
            RequestError::UnknownWindow => ErrorV::UnknownWindow,
            RequestError::UnsupportedMethod => ErrorV::UnsupportedMethod,
        }
    }
}

/// Whether a byte string is one well-formed JSON document.
pub uninterp spec fn json_wf(bytes: Seq<u8>) -> bool;

/// Relies on `serde_json::from_slice::<serde_json::Value>`: whether the
/// bytes parse as a single JSON document is a function of the bytes alone.
#[verifier::external_body]
fn json_document_ok(bytes: &[u8]) -> (r: bool)
    ensures
        r == json_wf(bytes@),
{
    serde_json::from_slice::<serde_json::Value>(bytes).is_ok()
}

/// Whether a byte string is a well-formed URL: valid UTF-8 that parses as
/// an absolute URL.
pub uninterp spec fn url_ok(bytes: Seq<u8>) -> bool;

/// Relies on `url::Url::parse`, fed through `core::str::from_utf8`:
/// whether the bytes are UTF-8 and parse as an absolute URL is a function
/// of the bytes alone.
#[verifier::external_body]
fn origin_url_ok(bytes: &[u8]) -> (r: bool)
    ensures
        r == url_ok(bytes@),
{
    match core::str::from_utf8(bytes) {
        Ok(s) => url::Url::parse(s).is_ok(),
        Err(_) => false,
    }
}

/// The validated control headers of one invocation request.
pub struct RequestMeta {
    /// Value of the `Origin` header; a well-formed URL.
    pub origin: Vec<u8>,
    /// Value of the invoke-credential header, forwarded opaquely.
    pub invoke_key: Vec<u8>,
    /// Identifier under which the caller claims the success result.
    pub callback: u64,
    /// Identifier under which the caller claims the error result.
    pub error: u64,
    /// Whether the declared content type is `application/json` (the default
    /// when the header is absent).
    pub content_json: bool,
}

/// What a `RequestMeta` stands for.
pub struct MetaV {
    pub origin: Seq<u8>,
    pub invoke_key: Seq<u8>,
    pub callback: u64,
    pub error: u64,
    pub content_json: bool,
}

impl View for RequestMeta {
    type V = MetaV;

    open spec fn view(&self) -> MetaV {
        MetaV {
            origin: self.origin@,
            invoke_key: self.invoke_key@,
            callback: self.callback,
            error: self.error,
            content_json: self.content_json,
        }
    }
}

/// A decimal header value that fits in 64 bits.
pub open spec fn parses_u64(v: Seq<u8>) -> bool {
    v.len() > 0 && all_dec_digits(v) && dec_val(v) <= u64::MAX
}

/// Whether the request declares a JSON body: no `Content-Type` header, or
/// exactly `application/json`.
pub open spec fn spec_content_json(hs: Seq<(Seq<char>, Seq<u8>)>) -> bool {
    match spec_find_header(hs, "Content-Type"@) {
        Some(v) => v == "application/json".spec_bytes(),
        None => true,
    }
}

/// Extraction of the control headers: which meta a header list yields, or
/// the first error, checking `Origin`, then the invoke key, then the
/// callback and error identifiers.
pub open spec fn spec_extract(hs: Seq<(Seq<char>, Seq<u8>)>) -> Result<MetaV, ErrorV> {
    match spec_find_header(hs, "Origin"@) {
        None => Err(ErrorV::MissingHeader("Origin".spec_bytes())),
        Some(origin) => if !url_ok(origin) {
            Err(ErrorV::InvalidHeaderValue("Origin".spec_bytes()))
        } else {
            match spec_find_header(hs, "Tauri-Invoke-Key"@) {
                None => Err(ErrorV::MissingHeader("Tauri-Invoke-Key".spec_bytes())),
                Some(invoke_key) => match spec_find_header(hs, "Tauri-Callback"@) {
                    None => Err(ErrorV::MissingHeader("Tauri-Callback".spec_bytes())),
                    Some(cb) => if !parses_u64(cb) {
                        Err(ErrorV::InvalidHeaderValue("Tauri-Callback".spec_bytes()))
                    } else {
                        match spec_find_header(hs, "Tauri-Error"@) {
                            None => Err(ErrorV::MissingHeader("Tauri-Error".spec_bytes())),
                            Some(eb) => if !parses_u64(eb) {
                                Err(ErrorV::InvalidHeaderValue("Tauri-Error".spec_bytes()))
                            } else {
                                Ok(
                                    MetaV {
                                        origin,
                                        invoke_key,
                                        callback: dec_val(cb) as u64,
                                        error: dec_val(eb) as u64,
                                        content_json: spec_content_json(hs),
                                    },
                                )
                            },
                        }
                    },
                },
            }
        },
    }
}

/// Extracts and validates the control headers of a request.
pub fn extract_meta(hs: &Vec<Header>) -> (r: Result<RequestMeta, RequestError>)
    ensures
        match r {
            Ok(m) => spec_extract(headers_view(hs@)) == Ok::<MetaV, ErrorV>(m@),
            Err(e) => spec_extract(headers_view(hs@)) == Err::<MetaV, ErrorV>(e@),
        },
{
    let origin = match find_header(hs, "Origin") {
        Some(v) => v,
        None => {
            return Err(RequestError::MissingHeader("Origin".as_bytes_vec()));
        },
    };
    if !origin_url_ok(origin.as_slice()) {
        return Err(RequestError::InvalidHeaderValue("Origin".as_bytes_vec()));
    }
    let invoke_key = match find_header(hs, "Tauri-Invoke-Key") {
        Some(v) => v,
        None => {
            return Err(RequestError::MissingHeader("Tauri-Invoke-Key".as_bytes_vec()));
        },
    };
    let cb = match find_header(hs, "Tauri-Callback") {
        Some(v) => v,
        None => {
            return Err(RequestError::MissingHeader("Tauri-Callback".as_bytes_vec()));
        },
    };
    let callback = match parse_u64_dec(cb.as_slice()) {
        Some(n) => n,
        None => {
            return Err(RequestError::InvalidHeaderValue("Tauri-Callback".as_bytes_vec()));
        },
    };
    let eb = match find_header(hs, "Tauri-Error") {
        Some(v) => v,
        None => {
            return Err(RequestError::MissingHeader("Tauri-Error".as_bytes_vec()));
        },
    };
    let error = match parse_u64_dec(eb.as_slice()) {
        Some(n) => n,
        None => {
            return Err(RequestError::InvalidHeaderValue("Tauri-Error".as_bytes_vec()));
        },
    };
    let content_json = match find_header(hs, "Content-Type") {
        Some(v) => bytes_eq(v.as_slice(), "application/json".as_bytes()),
        None => true,
    };
    Ok(RequestMeta { origin, invoke_key, callback, error, content_json })
}

/// A request or response body: JSON text, or opaque bytes.
pub enum Body {
    /// Serialized JSON text.
    Json(Vec<u8>),
    /// Bytes passed through with no interpretation.
    Raw(Vec<u8>),
}

/// What a `Body` stands for.
pub enum BodyV {
    Json(Seq<u8>),
    Raw(Seq<u8>),
}

impl View for Body {
    type V = BodyV;

    open spec fn view(&self) -> BodyV {
        match self {
            Body::Json(b) => BodyV::Json(b@),
            Body::Raw(b) => BodyV::Raw(b@),
        }
    }
}

/// Body decoding: under a JSON content type the bytes must parse as one
/// JSON document; under any other they pass through as raw bytes.
pub open spec fn spec_decode_body(content_json: bool, body: Seq<u8>) -> Result<BodyV, ErrorV> {
    if content_json {
        if json_wf(body) {
            Ok(BodyV::Json(body))
        } else {
            Err(ErrorV::MalformedBody)
        }
    } else {
        Ok(BodyV::Raw(body))
    }
}

/// Decodes a request body under its declared content type.
pub fn decode_body(content_json: bool, body: Vec<u8>) -> (r: Result<Body, RequestError>)
    ensures
        match r {
            Ok(b) => spec_decode_body(content_json, body@) == Ok::<BodyV, ErrorV>(b@),
            Err(e) => spec_decode_body(content_json, body@) == Err::<BodyV, ErrorV>(e@),
        },
{
    if content_json {
        if json_document_ok(body.as_slice()) {
            Ok(Body::Json(body))
        } else {
            Err(RequestError::MalformedBody)
        }
    } else {
        Ok(Body::Raw(body))
    }
}

} // verus!
