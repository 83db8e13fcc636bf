//! The request pipeline: one inbound HTTP request either becomes an HTTP
//! response at once (preflight, rejection) or a validated invocation request
//! ready to hand to the host window, whose eventual outcome the response
//! translator renders.

use vstd::prelude::*;
use crate::headers::{Header, headers_view, str_eq};
use crate::cors::origins_view;
use crate::route::{spec_route, route_path, strings_view};
use crate::request::{
    Body,
    BodyV,
    RequestError,
    ErrorV,
    spec_extract,
    extract_meta,
    spec_decode_body,
    decode_body,
};
use crate::response::{
    HttpResponse,
    ResponseView,
    spec_preflight,
    spec_error_response,
    preflight_response,
    error_response,
};

verus! {

/// One inbound HTTP request, as the listener hands it over.
pub struct HttpRequest {
    pub method: String,
    pub path: String,
    pub headers: Vec<Header>,
    pub body: Vec<u8>,
}

/// What an `HttpRequest` stands for.
pub struct HttpRequestView {
    pub method: Seq<char>,
    pub path: Seq<char>,
    pub headers: Seq<(Seq<char>, Seq<u8>)>,
    pub body: Seq<u8>,
}

impl View for HttpRequest {
    type V = HttpRequestView;

    open spec fn view(&self) -> HttpRequestView {
        HttpRequestView {
            method: self.method@,
            path: self.path@,
            headers: headers_view(self.headers@),
            body: self.body@,
        }
    }
}

/// A validated invocation request, ready for the host's message handler.
pub struct InvokeRequest {
    /// Target window, the path's first non-empty segment; non-empty.
    pub window: String,
    /// Invoked command, the path's second non-empty segment; non-empty.
    pub command: String,
    /// The caller's origin; a well-formed URL.
    pub origin: Vec<u8>,
    /// Opaque credential, forwarded unchanged.
    pub invoke_key: Vec<u8>,
    /// Identifier under which the caller claims the success result.
    pub callback: u64,
    /// Identifier under which the caller claims the error result.
    pub error: u64,
    /// The full request header set, forwarded for host-side handling.
    pub headers: Vec<Header>,
    /// The decoded body.
    pub body: Body,
}

/// What an `InvokeRequest` stands for.
pub struct InvokeRequestView {
    pub window: Seq<char>,
    pub command: Seq<char>,
    pub origin: Seq<u8>,
    pub invoke_key: Seq<u8>,
    pub callback: u64,
    pub error: u64,
    pub headers: Seq<(Seq<char>, Seq<u8>)>,
    pub body: BodyV,
}

impl View for InvokeRequest {
    type V = InvokeRequestView;

    open spec fn view(&self) -> InvokeRequestView {
        InvokeRequestView {
            window: self.window@,
            command: self.command@,
            origin: self.origin@,
            invoke_key: self.invoke_key@,
            callback: self.callback,
            error: self.error,
            headers: headers_view(self.headers@),
            body: self.body@,
        }
    }
}

/// What the pipeline does with one request: answer it at once, or dispatch
/// an invocation and answer when the host completes it.
pub enum Step {
    /// The response is already determined.
    Respond(HttpResponse),
    /// The request is valid: hand this invocation to the host.
    Dispatch(InvokeRequest),
}

/// What a `Step` stands for.
pub enum StepV {
    Respond(ResponseView),
    Dispatch(InvokeRequestView),
}

impl View for Step {
    type V = StepV;

    open spec fn view(&self) -> StepV {
        match self {
            Step::Respond(r) => StepV::Respond(r@),
            Step::Dispatch(r) => StepV::Dispatch(r@),
        }
    }
}

/// The whole pipeline, as one function of the request: a preflight answers
/// at once; any method but `POST` is rejected; then routing, header
/// extraction and body decoding each either reject the request or produce
/// the invocation to dispatch.
pub open spec fn spec_process(
    req: HttpRequestView,
    origins: Seq<Seq<u8>>,
    windows: Seq<Seq<char>>,
) -> StepV {
    if req.method == "OPTIONS"@ {
        StepV::Respond(spec_preflight(req.headers, origins))
    } else if req.method != "POST"@ {
        StepV::Respond(spec_error_response(ErrorV::UnsupportedMethod, req.headers, origins))
    } else {
        match spec_route(req.path) {
            None => StepV::Respond(spec_error_response(ErrorV::BadPath, req.headers, origins)),
            Some((w, c)) => if !windows.contains(w) {
                StepV::Respond(spec_error_response(ErrorV::UnknownWindow, req.headers, origins))
            } else {
                match spec_extract(req.headers) {
                    Err(e) => StepV::Respond(spec_error_response(e, req.headers, origins)),
                    Ok(meta) => match spec_decode_body(meta.content_json, req.body) {
                        Err(e) => StepV::Respond(spec_error_response(e, req.headers, origins)),
                        Ok(b) => StepV::Dispatch(
                            InvokeRequestView {
                                window: w,
                                command: c,
                                origin: meta.origin,
                                invoke_key: meta.invoke_key,
                                callback: meta.callback,
                                error: meta.error,
                                headers: req.headers,
                                body: b,
                            },
                        ),
                    },
                }
            },
        }
    }
}

/// Is this window label among the open windows?
pub fn windows_contain(windows: &Vec<String>, w: &String) -> (r: bool)
    ensures
        r == strings_view(windows@).contains(w@),
{
    let mut i: usize = 0;
    while i < windows.len()
        invariant
            i <= windows@.len(),
            forall|j: int| 0 <= j < i ==> windows@[j]@ != w@,
        decreases windows@.len() - i,
    {
        if windows[i].eq(w) {
            proof {
                assert(strings_view(windows@)[i as int] == w@);
            }
            return true;
        }
        i += 1;
    }
    proof {
        assert(forall|j: int|
            0 <= j < strings_view(windows@).len() ==> strings_view(windows@)[j] != w@);
    }
    false
}

/// Runs the pipeline on one request against the allow-list and the open
/// windows.
pub fn process_request(req: HttpRequest, origins: &Vec<Vec<u8>>, windows: &Vec<String>) -> (r:
    Step)
    ensures
        r@ == spec_process(req@, origins_view(origins@), strings_view(windows@)),
{
    if str_eq(req.method.as_str(), "OPTIONS") {
        return Step::Respond(preflight_response(&req.headers, origins));
    }
    if !str_eq(req.method.as_str(), "POST") {
        return Step::Respond(
            error_response(&RequestError::UnsupportedMethod, &req.headers, origins),
        );
    }
    match route_path(req.path.as_str()) {
        None => Step::Respond(error_response(&RequestError::BadPath, &req.headers, origins)),
        Some((w, c)) => {
            if !windows_contain(windows, &w) {
                return Step::Respond(
                    error_response(&RequestError::UnknownWindow, &req.headers, origins),
                );
            }
            match extract_meta(&req.headers) {
                Err(e) => Step::Respond(error_response(&e, &req.headers, origins)),
                Ok(meta) => match decode_body(meta.content_json, req.body) {
                    Err(e) => Step::Respond(error_response(&e, &req.headers, origins)),
                    Ok(b) => Step::Dispatch(
                        InvokeRequest {
                            window: w,
                            command: c,
                            origin: meta.origin,
                            invoke_key: meta.invoke_key,
                            callback: meta.callback,
                            error: meta.error,
                            headers: req.headers,
                            body: b,
                        },
                    ),
                },
            }
        },
    }
}

} // verus!
