use invoke_http::headers::Header;
use invoke_http::pipeline::{HttpRequest, Step, process_request};
use invoke_http::request::Body;
use invoke_http::response::{HttpResponse, InvokeResponse, translate_response};

fn h(name: &str, value: &[u8]) -> Header {
    Header { name: name.to_string(), value: value.to_vec() }
}

fn valid_headers() -> Vec<Header> {
    vec![
        h("Origin", b"https://a.test"),
        h("Tauri-Invoke-Key", b"secret-key"),
        h("Tauri-Callback", b"7"),
        h("Tauri-Error", b"8"),
        h("Content-Type", b"application/json"),
    ]
}

fn header_value(hs: &Vec<Header>, name: &str) -> Option<Vec<u8>> {
    hs.iter().find(|x| x.name.eq_ignore_ascii_case(name)).map(|x| x.value.clone())
}

fn post(path: &str, headers: Vec<Header>, body: &[u8]) -> HttpRequest {
    HttpRequest {
        method: "POST".to_string(),
        path: path.to_string(),
        headers,
        body: body.to_vec(),
    }
}

fn origins(list: &[&str]) -> Vec<Vec<u8>> {
    list.iter().map(|o| o.as_bytes().to_vec()).collect()
}

fn windows(list: &[&str]) -> Vec<String> {
    list.iter().map(|w| w.to_string()).collect()
}

fn expect_respond(step: Step) -> HttpResponse {
    match step {
        Step::Respond(r) => r,
        Step::Dispatch(_) => panic!("expected an immediate response"),
    }
}

#[test]
fn wildcard_origin_on_success_response() {
    let os = origins(&["*"]);
    let resp = translate_response(
        InvokeResponse::Success(Body::Json(b"{\"y\":2}".to_vec())),
        &valid_headers(),
        &os,
    );
    assert_eq!(header_value(&resp.headers, "Access-Control-Allow-Origin"), Some(b"*".to_vec()));
}

#[test]
fn wildcard_origin_on_error_response() {
    let os = origins(&["*"]);
    let resp = translate_response(
        InvokeResponse::Failure(Body::Json(b"\"boom\"".to_vec())),
        &valid_headers(),
        &os,
    );
    assert_eq!(header_value(&resp.headers, "Access-Control-Allow-Origin"), Some(b"*".to_vec()));
    assert_eq!(header_value(&resp.headers, "Invoke-Status"), Some(b"error".to_vec()));
}

#[test]
fn wildcard_origin_on_not_found_and_preflight() {
    let os = origins(&["*"]);
    let ws = windows(&["main"]);
    let r404 = expect_respond(process_request(post("/ghost/cmd", valid_headers(), b"{}"), &os, &ws));
    assert_eq!(r404.status, 404);
    assert_eq!(header_value(&r404.headers, "Access-Control-Allow-Origin"), Some(b"*".to_vec()));

    let preflight = HttpRequest {
        method: "OPTIONS".to_string(),
        path: "/any/path".to_string(),
        headers: valid_headers(),
        body: Vec::new(),
    };
    let r = expect_respond(process_request(preflight, &os, &ws));
    assert_eq!(r.status, 200);
    assert_eq!(header_value(&r.headers, "Access-Control-Allow-Origin"), Some(b"*".to_vec()));
}

#[test]
fn allowed_origin_is_echoed_exactly() {
    let os = origins(&["https://a.test"]);
    let ws = windows(&["main"]);
    let r = expect_respond(process_request(
        post("/ghost/cmd", valid_headers(), b"{}"),
        &os,
        &ws,
    ));
    assert_eq!(
        header_value(&r.headers, "Access-Control-Allow-Origin"),
        Some(b"https://a.test".to_vec())
    );
}

#[test]
fn disallowed_origin_gets_no_allow_origin_header() {
    let os = origins(&["https://a.test"]);
    let ws = windows(&["main"]);
    let mut hs = valid_headers();
    hs[0] = h("Origin", b"https://b.test");
    let r = expect_respond(process_request(post("/ghost/cmd", hs, b"{}"), &os, &ws));
    assert_eq!(header_value(&r.headers, "Access-Control-Allow-Origin"), None);
    assert_eq!(header_value(&r.headers, "Access-Control-Allow-Methods"), Some(b"POST, OPTIONS".to_vec()));
}

#[test]
fn json_request_round_trip() {
    let os = origins(&["*"]);
    let ws = windows(&["main"]);
    let step = process_request(post("/main/greet", valid_headers(), b"{\"x\":1}"), &os, &ws);
    let invoke = match step {
        Step::Dispatch(i) => i,
        Step::Respond(r) => panic!("expected a dispatch, got status {}", r.status),
    };
    assert_eq!(invoke.window, "main");
    assert_eq!(invoke.command, "greet");
    assert_eq!(invoke.origin, b"https://a.test".to_vec());
    assert_eq!(invoke.invoke_key, b"secret-key".to_vec());
    assert_eq!(invoke.callback, 7);
    assert_eq!(invoke.error, 8);
    assert!(matches!(invoke.body, Body::Json(ref t) if t == b"{\"x\":1}"));

    let resp = translate_response(
        InvokeResponse::Success(Body::Json(b"{\"y\":2}".to_vec())),
        &invoke.headers,
        &os,
    );
    assert_eq!(resp.status, 200);
    assert_eq!(resp.body, b"{\"y\":2}".to_vec());
    assert_eq!(header_value(&resp.headers, "Invoke-Status"), Some(b"ok".to_vec()));
    assert_eq!(header_value(&resp.headers, "Content-Type"), Some(b"application/json".to_vec()));
}

#[test]
fn preflight_always_200_empty_body_full_cors() {
    let os = origins(&["https://a.test"]);
    let ws = windows(&[]);
    let preflight = HttpRequest {
        method: "OPTIONS".to_string(),
        path: "/no/such/window".to_string(),
        headers: vec![h("Origin", b"https://a.test")],
        body: b"ignored".to_vec(),
    };
    let r = expect_respond(process_request(preflight, &os, &ws));
    assert_eq!(r.status, 200);
    assert!(r.body.is_empty());
    assert_eq!(
        header_value(&r.headers, "Access-Control-Allow-Origin"),
        Some(b"https://a.test".to_vec())
    );
    assert_eq!(header_value(&r.headers, "Access-Control-Expose-Headers"), Some(b"Invoke-Status".to_vec()));
    assert_eq!(header_value(&r.headers, "Access-Control-Allow-Headers"), Some(b"*".to_vec()));
    assert_eq!(header_value(&r.headers, "Access-Control-Allow-Methods"), Some(b"POST, OPTIONS".to_vec()));
}

#[test]
fn missing_callback_header_is_rejected_before_dispatch() {
    let os = origins(&["*"]);
    let ws = windows(&["main"]);
    let hs = vec![
        h("Origin", b"https://a.test"),
        h("Tauri-Invoke-Key", b"secret-key"),
        h("Tauri-Error", b"8"),
    ];
    let r = expect_respond(process_request(post("/main/greet", hs, b"{}"), &os, &ws));
    assert_eq!(r.status, 400);
    assert_eq!(r.body, b"missing required header: Tauri-Callback".to_vec());
    assert_eq!(header_value(&r.headers, "Access-Control-Allow-Origin"), Some(b"*".to_vec()));
}

#[test]
fn unsupported_method_is_not_found() {
    let os = origins(&["*"]);
    let ws = windows(&["main"]);
    let req = HttpRequest {
        method: "GET".to_string(),
        path: "/main/greet".to_string(),
        headers: valid_headers(),
        body: Vec::new(),
    };
    let r = expect_respond(process_request(req, &os, &ws));
    assert_eq!(r.status, 404);
    assert_eq!(r.body, b"not found".to_vec());
}

#[test]
fn short_path_is_rejected() {
    let os = origins(&["*"]);
    let ws = windows(&["main"]);
    let r = expect_respond(process_request(post("/main", valid_headers(), b"{}"), &os, &ws));
    assert_eq!(r.status, 400);
    assert_eq!(r.body, b"request path must name a window and a command".to_vec());
}

#[test]
fn extra_path_segments_are_ignored() {
    let os = origins(&["*"]);
    let ws = windows(&["main"]);
    let step = process_request(post("//main///greet/extra", valid_headers(), b"{}"), &os, &ws);
    match step {
        Step::Dispatch(i) => {
            assert_eq!(i.window, "main");
            assert_eq!(i.command, "greet");
        },
        Step::Respond(_) => panic!("expected a dispatch"),
    }
}

#[test]
fn malformed_json_body_is_rejected() {
    let os = origins(&["*"]);
    let ws = windows(&["main"]);
    let r = expect_respond(process_request(post("/main/greet", valid_headers(), b"{\"x\":"), &os, &ws));
    assert_eq!(r.status, 400);
    assert_eq!(r.body, b"request body is not valid JSON".to_vec());
}

#[test]
fn missing_content_type_defaults_to_json() {
    let os = origins(&["*"]);
    let ws = windows(&["main"]);
    let hs = vec![
        h("Origin", b"https://a.test"),
        h("Tauri-Invoke-Key", b"secret-key"),
        h("Tauri-Callback", b"7"),
        h("Tauri-Error", b"8"),
    ];
    let r = expect_respond(process_request(post("/main/greet", hs.clone(), b"not json"), &os, &ws));
    assert_eq!(r.status, 400);

    let step = process_request(post("/main/greet", hs, b"[1,2,3]"), &os, &ws);
    assert!(matches!(step, Step::Dispatch(_)));
}

#[test]
fn non_json_content_type_passes_raw_bytes_through() {
    let os = origins(&["*"]);
    let ws = windows(&["main"]);
    let mut hs = valid_headers();
    hs[4] = h("Content-Type", b"application/octet-stream");
    let step = process_request(post("/main/greet", hs, &[0u8, 255u8, 7u8]), &os, &ws);
    match step {
        Step::Dispatch(i) => assert!(matches!(i.body, Body::Raw(ref t) if t == &vec![0u8, 255u8, 7u8])),
        Step::Respond(_) => panic!("expected a dispatch"),
    }
}

#[test]
fn raw_success_response_has_no_forced_content_type() {
    let os = origins(&["*"]);
    let resp = translate_response(
        InvokeResponse::Success(Body::Raw(vec![1u8, 2u8, 3u8])),
        &valid_headers(),
        &os,
    );
    assert_eq!(resp.status, 200);
    assert_eq!(resp.body, vec![1u8, 2u8, 3u8]);
    assert_eq!(header_value(&resp.headers, "Content-Type"), None);
    assert_eq!(header_value(&resp.headers, "Invoke-Status"), Some(b"ok".to_vec()));
}

#[test]
fn missing_origin_header_is_rejected() {
    let os = origins(&["*"]);
    let ws = windows(&["main"]);
    let hs = vec![
        h("Tauri-Invoke-Key", b"secret-key"),
        h("Tauri-Callback", b"7"),
        h("Tauri-Error", b"8"),
    ];
    let r = expect_respond(process_request(post("/main/greet", hs, b"{}"), &os, &ws));
    assert_eq!(r.status, 400);
    assert_eq!(r.body, b"missing required header: Origin".to_vec());
}

#[test]
fn malformed_origin_header_is_rejected() {
    let os = origins(&["*"]);
    let ws = windows(&["main"]);
    let mut hs = valid_headers();
    hs[0] = h("Origin", b"not a url");
    let r = expect_respond(process_request(post("/main/greet", hs, b"{}"), &os, &ws));
    assert_eq!(r.status, 400);
    assert_eq!(r.body, b"invalid header value: Origin".to_vec());
}

#[test]
fn missing_invoke_key_is_rejected() {
    let os = origins(&["*"]);
    let ws = windows(&["main"]);
    let hs = vec![
        h("Origin", b"https://a.test"),
        h("Tauri-Callback", b"7"),
        h("Tauri-Error", b"8"),
    ];
    let r = expect_respond(process_request(post("/main/greet", hs, b"{}"), &os, &ws));
    assert_eq!(r.status, 400);
    assert_eq!(r.body, b"missing required header: Tauri-Invoke-Key".to_vec());
}

#[test]
fn non_numeric_callback_id_is_rejected() {
    let os = origins(&["*"]);
    let ws = windows(&["main"]);
    let mut hs = valid_headers();
    hs[2] = h("Tauri-Callback", b"abc");
    let r = expect_respond(process_request(post("/main/greet", hs, b"{}"), &os, &ws));
    assert_eq!(r.status, 400);
    assert_eq!(r.body, b"invalid header value: Tauri-Callback".to_vec());
}

#[test]
fn missing_error_id_is_rejected() {
    let os = origins(&["*"]);
    let ws = windows(&["main"]);
    let hs = vec![
        h("Origin", b"https://a.test"),
        h("Tauri-Invoke-Key", b"secret-key"),
        h("Tauri-Callback", b"7"),
    ];
    let r = expect_respond(process_request(post("/main/greet", hs, b"{}"), &os, &ws));
    assert_eq!(r.status, 400);
    assert_eq!(r.body, b"missing required header: Tauri-Error".to_vec());
}

#[test]
fn callback_id_bounds() {
    let os = origins(&["*"]);
    let ws = windows(&["main"]);

    let mut hs = valid_headers();
    hs[2] = h("Tauri-Callback", b"18446744073709551615");
    let step = process_request(post("/main/greet", hs, b"{}"), &os, &ws);
    match step {
        Step::Dispatch(i) => assert_eq!(i.callback, u64::MAX),
        Step::Respond(_) => panic!("expected a dispatch"),
    }

    let mut hs = valid_headers();
    hs[2] = h("Tauri-Callback", b"18446744073709551616");
    let r = expect_respond(process_request(post("/main/greet", hs, b"{}"), &os, &ws));
    assert_eq!(r.status, 400);
}

#[test]
fn header_names_match_case_insensitively() {
    let os = origins(&["*"]);
    let ws = windows(&["main"]);
    let hs = vec![
        h("origin", b"https://a.test"),
        h("TAURI-INVOKE-KEY", b"secret-key"),
        h("tauri-callback", b"1"),
        h("Tauri-error", b"2"),
        h("content-type", b"application/json"),
    ];
    let step = process_request(post("/main/greet", hs, b"{}"), &os, &ws);
    match step {
        Step::Dispatch(i) => {
            assert_eq!(i.callback, 1);
            assert_eq!(i.error, 2);
        },
        Step::Respond(_) => panic!("expected a dispatch"),
    }
}
