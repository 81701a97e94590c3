use hostcall::host::{
    f1, f2, f3, initialize, registry, response, responseStatus, response_HTML, response_HTML_reply,
    HostFault, HostFunction, HostStep, MyImports,
};

fn reply_of(step: HostStep) -> (Vec<String>, String) {
    match step {
        HostStep::Reply { lines, reply } => (lines, reply),
        HostStep::ReadFile { path } => panic!("unexpected read of {}", path),
        HostStep::Fault(f) => panic!("unexpected fault {:?}", f),
    }
}

fn initialized() -> MyImports {
    let mut imports = MyImports::new();
    initialize(&mut imports);
    imports
}

#[test]
fn initialize_registers_five_functions() {
    let imports = initialized();
    assert_eq!(imports.functions.len(), 5);
    for name in ["f1", "f2", "responseStatus", "response_HTML", "response"] {
        assert!(imports.functions.contains_key(name));
    }
    assert!(!imports.functions.contains_key("f3"));
    assert_eq!(imports.functions.get("response_HTML"), Some(&HostFunction::ResponseHtml));
}

#[test]
fn proxy_f1_logs_message_and_answers_ok() {
    let imports = initialized();
    let (lines, reply) = reply_of(imports.proxy("f1", "{\"message\":\"implemented in host\"}"));
    assert_eq!(lines, vec!["enter host f1, message: \"implemented in host\"".to_string(), String::new()]);
    assert_eq!(reply, "{\"message\":\"ok\"}");
}

#[test]
fn proxy_f2_without_message_shows_null() {
    let imports = initialized();
    let (lines, reply) = reply_of(imports.proxy("f2", "{}"));
    assert_eq!(lines, vec!["enter host f2, message: null".to_string(), String::new()]);
    assert_eq!(reply, "{\"message\":\"ok\"}");
}

#[test]
fn proxy_unknown_function_is_a_fault() {
    let imports = initialized();
    assert!(matches!(imports.proxy("f3", "{}"), HostStep::Fault(HostFault::UnknownFunction)));
    assert!(matches!(imports.proxy("nope", "{}"), HostStep::Fault(HostFault::UnknownFunction)));
}

#[test]
fn proxy_bad_param_is_a_fault() {
    let imports = initialized();
    assert!(matches!(imports.proxy("f1", "implemented in host"), HostStep::Fault(HostFault::BadParam)));
    // the parameter is checked before the name
    assert!(matches!(imports.proxy("nope", "not json"), HostStep::Fault(HostFault::BadParam)));
}

#[test]
fn proxy_response_html_asks_for_file() {
    let imports = initialized();
    match imports.proxy("response_HTML", "{\"path\":\"home.html\"}") {
        HostStep::ReadFile { path } => assert_eq!(path, "home.html"),
        _ => panic!("expected a file read"),
    }
    assert_eq!(response_HTML_reply("<p>hi</p>"), "{\"html\":\"<p>hi</p>\"}");
    assert!(matches!(response_HTML("{\"path\":3}"), HostStep::Fault(HostFault::MissingField)));
}

#[test]
fn proxy_response_and_status() {
    let imports = initialized();
    let (lines, reply) = reply_of(imports.proxy("response", "{\"response\":\"HTTP/1.1 200 OK\"}"));
    assert!(lines.is_empty());
    assert_eq!(reply, "{\"response\":\"HTTP/1.1 200 OK\"}");
    let (_, reply) = reply_of(imports.proxy("responseStatus", "{\"status\":\"404\"}"));
    assert_eq!(reply, "{\"status\":\"404\"}");
    assert!(matches!(response("{}"), HostStep::Fault(HostFault::MissingField)));
    assert!(matches!(responseStatus("{\"status\":null}"), HostStep::Fault(HostFault::MissingField)));
}

#[test]
fn direct_host_functions() {
    let (lines, reply) = reply_of(f1("{\"message\":[1,2]}"));
    assert_eq!(lines[0], "enter host f1, message: [1,2]");
    assert_eq!(reply, "{\"message\":\"ok\"}");
    let (lines, _) = reply_of(f2("{\"message\":\"x\"}"));
    assert_eq!(lines[0], "enter host f2, message: \"x\"");
    let (lines, reply) = reply_of(f3("{}"));
    assert_eq!(lines, vec!["f3".to_string(), String::new()]);
    assert_eq!(reply, "{}");
}

#[test]
fn registry_replaces_function() {
    let mut imports = initialized();
    registry(&mut imports, "f1", HostFunction::F3);
    let (lines, reply) = reply_of(imports.proxy("f1", "{}"));
    assert_eq!(lines[0], "f3");
    assert_eq!(reply, "{}");
    assert_eq!(imports.functions.len(), 5);
}
