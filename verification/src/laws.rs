//! The library's cross-cutting guarantees, each stated over the same spec
//! functions the executable functions are proved against.

use vstd::prelude::*;
use vstd::string::StringSliceAdditionalSpecFns;
use crate::headers::spec_find_header;
use crate::cors::{wildcard, allow_origin_name, spec_cors};
use crate::request::{ErrorV, BodyV, spec_extract};
use crate::response::{
    InvokeResponseV,
    spec_translate,
    spec_error_response,
    spec_preflight,
    spec_status_of,
};
use crate::pipeline::{HttpRequestView, StepV, spec_process};

verus! {

/// With a wildcard entry in the allow-list, the CORS header set opens with
/// `Access-Control-Allow-Origin: *`.
pub proof fn lemma_wildcard_allow_origin(req_headers: Seq<(Seq<char>, Seq<u8>)>, origins: Seq<Seq<u8>>)
    requires
        origins.contains(wildcard()),
    ensures
        spec_cors(req_headers, origins).len() >= 1,
        spec_cors(req_headers, origins)[0] == (allow_origin_name(), wildcard()),
        spec_cors(req_headers, origins).contains((allow_origin_name(), wildcard())),
{
    let cs = spec_cors(req_headers, origins);
    assert(cs[0] == (allow_origin_name(), wildcard()));
}

/// With a wildcard entry in the allow-list, every response the pipeline
/// answers at once — preflight or rejection, of any status — carries
/// `Access-Control-Allow-Origin: *`.
pub proof fn lemma_wildcard_on_every_response(
    req: HttpRequestView,
    origins: Seq<Seq<u8>>,
    windows: Seq<Seq<char>>,
)
    requires
        origins.contains(wildcard()),
    ensures
        match spec_process(req, origins, windows) {
            StepV::Respond(r) => r.headers.contains((allow_origin_name(), wildcard())),
            StepV::Dispatch(_) => true,
        },
{
    lemma_wildcard_allow_origin(req.headers, origins);
    let cs = spec_cors(req.headers, origins);
    match spec_process(req, origins, windows) {
        StepV::Respond(r) => {
            assert(r.headers[0] == cs[0]);
            assert(r.headers.contains((allow_origin_name(), wildcard())));
        },
        StepV::Dispatch(_) => {},
    }
}

/// With a wildcard entry in the allow-list, the response rendered for any
/// invocation outcome carries `Access-Control-Allow-Origin: *`.
pub proof fn lemma_wildcard_on_translated(
    resp: InvokeResponseV,
    req_headers: Seq<(Seq<char>, Seq<u8>)>,
    origins: Seq<Seq<u8>>,
)
    requires
        origins.contains(wildcard()),
    ensures
        spec_translate(resp, req_headers, origins).headers.contains(
            (allow_origin_name(), wildcard()),
        ),
{
    lemma_wildcard_allow_origin(req_headers, origins);
    let h = spec_translate(resp, req_headers, origins).headers;
    assert(h[0] == spec_cors(req_headers, origins)[0]);
    assert(h.contains((allow_origin_name(), wildcard())));
}

/// Without a wildcard, a request whose declared origin is on the allow-list
/// has that exact origin echoed back.
pub proof fn lemma_allowed_origin_echoed(
    req_headers: Seq<(Seq<char>, Seq<u8>)>,
    origins: Seq<Seq<u8>>,
    o: Seq<u8>,
)
    requires
        !origins.contains(wildcard()),
        spec_find_header(req_headers, "Origin"@) == Some(o),
        origins.contains(o),
    ensures
        spec_cors(req_headers, origins)[0] == (allow_origin_name(), o),
        spec_cors(req_headers, origins).contains((allow_origin_name(), o)),
{
    let cs = spec_cors(req_headers, origins);
    assert(cs[0] == (allow_origin_name(), o));
}

/// Without a wildcard, a request whose declared origin is not on the
/// allow-list — or that declares none — gets no allow-origin header at all.
pub proof fn lemma_disallowed_origin_absent(
    req_headers: Seq<(Seq<char>, Seq<u8>)>,
    origins: Seq<Seq<u8>>,
)
    requires
        !origins.contains(wildcard()),
        match spec_find_header(req_headers, "Origin"@) {
            Some(o) => !origins.contains(o),
            None => true,
        },
    ensures
        forall|i: int|
            0 <= i < spec_cors(req_headers, origins).len() ==> spec_cors(req_headers, origins)[i].0
                != allow_origin_name(),
{
    let cs = spec_cors(req_headers, origins);
    reveal_strlit("Access-Control-Allow-Origin");
    reveal_strlit("Access-Control-Expose-Headers");
    reveal_strlit("Access-Control-Allow-Headers");
    reveal_strlit("Access-Control-Allow-Methods");
    assert(allow_origin_name().len() == 27);
    assert(cs.len() == 3);
    assert(cs[0].0.len() == 29);
    assert(cs[1].0.len() == 28);
    assert(cs[2].0.len() == 28);
}

/// A preflight (`OPTIONS`) request is answered at once with `200`, the full
/// CORS header set, and an empty body, whatever the path, the other
/// headers, the body, the allow-list, and the open windows.
pub proof fn lemma_preflight_short_circuits(
    req: HttpRequestView,
    origins: Seq<Seq<u8>>,
    windows: Seq<Seq<char>>,
)
    requires
        req.method == "OPTIONS"@,
    ensures
        spec_process(req, origins, windows) == StepV::Respond(spec_preflight(req.headers, origins)),
        spec_preflight(req.headers, origins).status == 200,
        spec_preflight(req.headers, origins).body.len() == 0,
        spec_preflight(req.headers, origins).headers == spec_cors(req.headers, origins),
{
}

/// A routable `POST` to a window that is not open is answered with `404`,
/// with the CORS headers still present.
pub proof fn lemma_unknown_window_rejected(
    req: HttpRequestView,
    origins: Seq<Seq<u8>>,
    windows: Seq<Seq<char>>,
    w: Seq<char>,
    c: Seq<char>,
)
    requires
        req.method == "POST"@,
        crate::route::spec_route(req.path) == Some((w, c)),
        !windows.contains(w),
    ensures
        spec_process(req, origins, windows) == StepV::Respond(
            spec_error_response(ErrorV::UnknownWindow, req.headers, origins),
        ),
        spec_error_response(ErrorV::UnknownWindow, req.headers, origins).status == 404,
        spec_error_response(ErrorV::UnknownWindow, req.headers, origins).headers == spec_cors(
            req.headers,
            origins,
        ),
{
    reveal_strlit("OPTIONS");
    reveal_strlit("POST");
    assert("POST"@.len() == 4);
    assert("OPTIONS"@.len() == 7);
    assert(req.method != "OPTIONS"@);
}

/// A request without the callback-id header is never dispatched: no entry
/// can ever be registered for it, so it leaks no pending state.
pub proof fn lemma_missing_callback_never_dispatches(
    req: HttpRequestView,
    origins: Seq<Seq<u8>>,
    windows: Seq<Seq<char>>,
)
    requires
        spec_find_header(req.headers, "Tauri-Callback"@) is None,
    ensures
        !(spec_process(req, origins, windows) matches StepV::Dispatch(_)),
{
    assert(spec_extract(req.headers) is Err);
}

/// A `POST` that routes to an open window, with a well-formed origin and an
/// invoke key but no callback-id header, is answered with `400` naming the
/// callback header, CORS headers included.
pub proof fn lemma_missing_callback_rejected(
    req: HttpRequestView,
    origins: Seq<Seq<u8>>,
    windows: Seq<Seq<char>>,
    w: Seq<char>,
    c: Seq<char>,
    o: Seq<u8>,
)
    requires
        req.method == "POST"@,
        crate::route::spec_route(req.path) == Some((w, c)),
        windows.contains(w),
        spec_find_header(req.headers, "Origin"@) == Some(o),
        crate::request::url_ok(o),
        spec_find_header(req.headers, "Tauri-Invoke-Key"@) is Some,
        spec_find_header(req.headers, "Tauri-Callback"@) is None,
    ensures
        spec_process(req, origins, windows) == StepV::Respond(
            spec_error_response(
                ErrorV::MissingHeader("Tauri-Callback".spec_bytes()),
                req.headers,
                origins,
            ),
        ),
        spec_status_of(ErrorV::MissingHeader("Tauri-Callback".spec_bytes())) == 400,
{
    reveal_strlit("OPTIONS");
    reveal_strlit("POST");
    assert("POST"@.len() == 4);
    assert("OPTIONS"@.len() == 7);
    assert(req.method != "OPTIONS"@);
}

/// A host success whose payload is JSON text renders as `200` with
/// `Invoke-Status: ok`, `Content-Type: application/json`, and exactly that
/// text as the body.
pub proof fn lemma_json_round_trip(
    t: Seq<u8>,
    req_headers: Seq<(Seq<char>, Seq<u8>)>,
    origins: Seq<Seq<u8>>,
)
    ensures
        spec_translate(InvokeResponseV::Success(BodyV::Json(t)), req_headers, origins).status
            == 200,
        spec_translate(InvokeResponseV::Success(BodyV::Json(t)), req_headers, origins).body == t,
        spec_translate(InvokeResponseV::Success(BodyV::Json(t)), req_headers, origins)
            .headers.contains(("Invoke-Status"@, "ok".spec_bytes())),
        spec_translate(InvokeResponseV::Success(BodyV::Json(t)), req_headers, origins)
            .headers.contains(("Content-Type"@, "application/json".spec_bytes())),
{
    let cs = spec_cors(req_headers, origins);
    let h = spec_translate(InvokeResponseV::Success(BodyV::Json(t)), req_headers, origins).headers;
    assert(h[cs.len() as int] == ("Content-Type"@, "application/json".spec_bytes()));
    assert(h[cs.len() as int + 1] == ("Invoke-Status"@, "ok".spec_bytes()));
}

/// Only a validated request reaches the host: a dispatched invocation
/// names an open window and a command, both non-empty, taken from the
/// path; carries the request's declared origin, a well-formed URL; its
/// invoke key; its callback and error identifiers as the headers gave
/// them; the full header set unchanged; and the body decoded under the
/// declared content type.
pub proof fn lemma_dispatch_is_validated(
    req: HttpRequestView,
    origins: Seq<Seq<u8>>,
    windows: Seq<Seq<char>>,
)
    ensures
        match spec_process(req, origins, windows) {
            StepV::Dispatch(inv) => {
                &&& windows.contains(inv.window)
                &&& inv.window.len() > 0
                &&& inv.command.len() > 0
                &&& crate::route::spec_route(req.path) == Some((inv.window, inv.command))
                &&& spec_find_header(req.headers, "Origin"@) == Some(inv.origin)
                &&& crate::request::url_ok(inv.origin)
                &&& spec_find_header(req.headers, "Tauri-Invoke-Key"@) == Some(inv.invoke_key)
                &&& inv.headers == req.headers
                &&& (match spec_find_header(req.headers, "Tauri-Callback"@) {
                    Some(cb) => crate::request::parses_u64(cb) && inv.callback == crate::numparse::dec_val(cb) as u64,
                    None => false,
                })
                &&& (match spec_find_header(req.headers, "Tauri-Error"@) {
                    Some(eb) => crate::request::parses_u64(eb) && inv.error == crate::numparse::dec_val(eb) as u64,
                    None => false,
                })
                &&& (match inv.body {
                    BodyV::Json(t) => t == req.body && crate::request::json_wf(t)
                        && crate::request::spec_content_json(req.headers),
                    BodyV::Raw(t) => t == req.body && !crate::request::spec_content_json(
                        req.headers,
                    ),
                })
            },
            StepV::Respond(_) => true,
        },
{
    crate::route::lemma_route_segments_nonempty(req.path);
}

/// Requests pending under distinct callback identifiers are isolated:
/// completing either identifier yields that request's own pending state,
/// in whichever order the completions arrive, as the registry's `register`
/// and `complete` realize over this mapping.
pub proof fn lemma_distinct_ids_isolated<T>(m: Map<u64, T>, id1: u64, v1: T, id2: u64, v2: T)
    requires
        id1 != id2,
    ensures
        m.insert(id1, v1).insert(id2, v2)[id2] == v2,
        m.insert(id1, v1).insert(id2, v2)[id1] == v1,
        m.insert(id1, v1).insert(id2, v2).remove(id2)[id1] == v1,
        m.insert(id1, v1).insert(id2, v2).remove(id1)[id2] == v2,
{
}

} // verus!
