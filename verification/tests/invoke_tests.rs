use invoke_http::invoke::Invoke;

#[test]
fn initialization_script_embeds_the_port() {
    let invoke = Invoke::with_port(vec!["*".to_string()], 4567);
    let script = invoke.initialization_script();
    assert!(script.starts_with("(function () {"));
    assert!(script.contains("var invokePort = 4567;"));
    assert!(script.contains("Invoke-Status"));
}

#[test]
fn initialization_script_of_small_and_large_ports() {
    let small = Invoke::with_port(Vec::new(), 7).initialization_script();
    assert!(small.contains("var invokePort = 7;"));
    let large = Invoke::with_port(Vec::new(), 65535).initialization_script();
    assert!(large.contains("var invokePort = 65535;"));
}

#[test]
fn new_picks_some_unused_port() {
    let invoke = Invoke::new(vec!["https://a.test".to_string()]).expect("a free port");
    assert_eq!(invoke.allowed_origins, vec!["https://a.test".to_string()]);
    let script = invoke.initialization_script();
    assert!(script.contains(&format!("var invokePort = {};", invoke.port())));
}

#[test]
fn allowed_origin_bytes_mirror_the_strings() {
    let invoke = Invoke::with_port(vec!["https://a.test".to_string(), "*".to_string()], 1);
    let bytes = invoke.allowed_origin_bytes();
    assert_eq!(bytes, vec![b"https://a.test".to_vec(), b"*".to_vec()]);
}
