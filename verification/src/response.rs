//! Response translation: an invocation outcome, or a rejection, rendered as
//! an HTTP response. Success and failure both travel as status `200` and are
//! told apart by the `Invoke-Status` header; rejections carry their own
//! status and a plain-text diagnostic. Every response carries the CORS
//! headers for the original request.

use vstd::prelude::*;
use vstd::string::StringSliceAdditionalSpecFns;
use vstd::string::StrSliceExecFns;
use vstd::string::StringExecFns;
use crate::headers::{Header, headers_view};
use crate::cors::{spec_cors, cors_headers};
use crate::request::{Body, BodyV, RequestError, ErrorV};

verus! {

/// One HTTP response: status, headers in order, body bytes.
pub struct HttpResponse {
    pub status: u16,
    pub headers: Vec<Header>,
    pub body: Vec<u8>,
}

/// What an `HttpResponse` stands for.
pub struct ResponseView {
    pub status: u16,
    pub headers: Seq<(Seq<char>, Seq<u8>)>,
    pub body: Seq<u8>,
}

impl View for HttpResponse {
    type V = ResponseView;

    open spec fn view(&self) -> ResponseView {
        ResponseView {
            status: self.status,
            headers: headers_view(self.headers@),
            body: self.body@,
        }
    }
}

/// The outcome of a completed invocation, as the host reports it.
pub enum InvokeResponse {
    /// The command succeeded; the payload is its result.
    Success(Body),
    /// The command failed; the payload describes the failure.
    Failure(Body),
}

/// What an `InvokeResponse` stands for.
pub enum InvokeResponseV {
    Success(BodyV),
    Failure(BodyV),
}

impl View for InvokeResponse {
    type V = InvokeResponseV;

    open spec fn view(&self) -> InvokeResponseV {
        match self {
            InvokeResponse::Success(b) => InvokeResponseV::Success(b@),
            InvokeResponse::Failure(b) => InvokeResponseV::Failure(b@),
        }
    }
}

/// The HTTP status a rejection maps to: routing failures that name nothing
/// open are `404`, malformed requests are `400`.
pub open spec fn spec_status_of(e: ErrorV) -> u16 {
    match e {
        ErrorV::UnknownWindow => 404,
        ErrorV::UnsupportedMethod => 404,
        _ => 400,
    }
}

/// The plain-text diagnostic body of a rejection.
pub open spec fn spec_message_of(e: ErrorV) -> Seq<u8> {
    match e {
        ErrorV::MissingHeader(n) => "missing required header: ".spec_bytes() + n,
        ErrorV::InvalidHeaderValue(n) => "invalid header value: ".spec_bytes() + n,
        ErrorV::MalformedBody => "request body is not valid JSON".spec_bytes(),
        ErrorV::BadPath => "request path must name a window and a command".spec_bytes(),
        ErrorV::UnknownWindow => "unknown window".spec_bytes(),
        ErrorV::UnsupportedMethod => "not found".spec_bytes(),
    }
}

/// The response to a rejected request: its status, the CORS headers, and
/// the diagnostic body.
pub open spec fn spec_error_response(
    e: ErrorV,
    req: Seq<(Seq<char>, Seq<u8>)>,
    origins: Seq<Seq<u8>>,
) -> ResponseView {
    ResponseView { status: spec_status_of(e), headers: spec_cors(req, origins), body: spec_message_of(e) }
}

/// The response to a preflight request: `200`, the CORS headers, an empty
/// body.
pub open spec fn spec_preflight(
    req: Seq<(Seq<char>, Seq<u8>)>,
    origins: Seq<Seq<u8>>,
) -> ResponseView {
    ResponseView { status: 200, headers: spec_cors(req, origins), body: seq![] }
}

/// The payload bytes of an outcome's body.
pub open spec fn spec_body_bytes(b: BodyV) -> Seq<u8> {
    match b {
        BodyV::Json(t) => t,
        BodyV::Raw(t) => t,
    }
}

/// Translation of an invocation outcome: always `200`; the CORS headers,
/// then `Content-Type: application/json` for a JSON payload, then
/// `Invoke-Status: ok` or `Invoke-Status: error`; the payload as the body.
pub open spec fn spec_translate(
    resp: InvokeResponseV,
    req: Seq<(Seq<char>, Seq<u8>)>,
    origins: Seq<Seq<u8>>,
) -> ResponseView {
    let body = match resp {
        InvokeResponseV::Success(b) => b,
        InvokeResponseV::Failure(b) => b,
    };
    let ct = match body {
        BodyV::Json(_) => seq![("Content-Type"@, "application/json".spec_bytes())],
        BodyV::Raw(_) => seq![],
    };
    let status_value = match resp {
        InvokeResponseV::Success(_) => "ok".spec_bytes(),
        InvokeResponseV::Failure(_) => "error".spec_bytes(),
    };
    ResponseView {
        status: 200,
        headers: spec_cors(req, origins) + ct + seq![("Invoke-Status"@, status_value)],
        body: spec_body_bytes(body),
    }
}

/// Concatenates two byte strings.
pub fn concat_bytes(a: &[u8], b: &[u8]) -> (r: Vec<u8>)
    ensures
        r@ == a@ + b@,
{
    let mut r: Vec<u8> = Vec::new();
    let mut i: usize = 0;
    while i < a.len()
        invariant
            i <= a@.len(),
            r@ == a@.take(i as int),
        decreases a@.len() - i,
    {
        r.push(a[i]);
        proof {
            assert(a@.take(i as int).push(a@[i as int]) =~= a@.take(i as int + 1));
        }
        i += 1;
    }
    let mut j: usize = 0;
    while j < b.len()
        invariant
            j <= b@.len(),
            r@ == a@.take(a@.len() as int) + b@.take(j as int),
        decreases b@.len() - j,
    {
        r.push(b[j]);
        proof {
            assert((a@.take(a@.len() as int) + b@.take(j as int)).push(b@[j as int]) =~= a@.take(
                a@.len() as int,
            ) + b@.take(j as int + 1));
        }
        j += 1;
    }
    proof {
        assert(a@.take(a@.len() as int) + b@.take(b@.len() as int) =~= a@ + b@);
    }
    r
}

/// Renders the diagnostic body of a rejection.
fn message_of(e: &RequestError) -> (r: Vec<u8>)
    ensures
        r@ == spec_message_of(e@),
{
    match e {
        RequestError::MissingHeader(n) => concat_bytes("missing required header: ".as_bytes(), n.as_slice()),
        RequestError::InvalidHeaderValue(n) => concat_bytes("invalid header value: ".as_bytes(), n.as_slice()),
        RequestError::MalformedBody => "request body is not valid JSON".as_bytes_vec(),
        RequestError::BadPath => "request path must name a window and a command".as_bytes_vec(),
        RequestError::UnknownWindow => "unknown window".as_bytes_vec(),
        RequestError::UnsupportedMethod => "not found".as_bytes_vec(),
    }
}

/// Builds the response to a rejected request.
pub fn error_response(e: &RequestError, req_headers: &Vec<Header>, origins: &Vec<Vec<u8>>) -> (r:
    HttpResponse)
    ensures
        r@ == spec_error_response(e@, headers_view(req_headers@), crate::cors::origins_view(origins@)),
{
    let status: u16 = match e {
        RequestError::UnknownWindow => 404,
        RequestError::UnsupportedMethod => 404,
        _ => 400,
    };
    HttpResponse { status, headers: cors_headers(req_headers, origins), body: message_of(e) }
}

/// Builds the response to a preflight (`OPTIONS`) request.
pub fn preflight_response(req_headers: &Vec<Header>, origins: &Vec<Vec<u8>>) -> (r: HttpResponse)
    ensures
        r@ == spec_preflight(headers_view(req_headers@), crate::cors::origins_view(origins@)),
{
    let hs = cors_headers(req_headers, origins);
    let r = HttpResponse { status: 200, headers: hs, body: Vec::new() };
    proof {
        assert(r@.body =~= Seq::<u8>::empty());
    }
    r
}

/// Translates a completed invocation's outcome into its HTTP response.
pub fn translate_response(resp: InvokeResponse, req_headers: &Vec<Header>, origins: &Vec<Vec<u8>>)
    -> (r: HttpResponse)
    ensures
        r@ == spec_translate(resp@, headers_view(req_headers@), crate::cors::origins_view(origins@)),
{
    let ghost rv = resp@;
    let mut hs = cors_headers(req_headers, origins);
    let (success, body) = match resp {
        InvokeResponse::Success(b) => (true, b),
        InvokeResponse::Failure(b) => (false, b),
    };
    let payload: Vec<u8> = match body {
        Body::Json(t) => {
            hs.push(
                Header {
                    name: String::from_str("Content-Type"),
                    value: "application/json".as_bytes_vec(),
                },
            );
            t
        },
        Body::Raw(t) => t,
    };
    let status_value: Vec<u8> = if success {
        "ok".as_bytes_vec()
    } else {
        "error".as_bytes_vec()
    };
    hs.push(Header { name: String::from_str("Invoke-Status"), value: status_value });
    let r = HttpResponse { status: 200, headers: hs, body: payload };
    proof {
        assert(r@.headers =~= spec_translate(
            rv,
            headers_view(req_headers@),
            crate::cors::origins_view(origins@),
        ).headers);
    }
    r
}

} // verus!
