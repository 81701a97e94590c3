use hostcall::guests::module1;
use hostcall::guests::module_a;
use hostcall::guests::module_home;
use hostcall::guests::step::{GuestFault, GuestStep, Pending};
use hostcall::host::{initialize, HostStep, MyImports, response_HTML_reply};

#[test]
fn module_a_modulef1_greets_host() {
    match module_a::proxy("modulef1", "{\"message\":\"hello_from_cli\"}") {
        GuestStep::CallHost { lines, function, param, pending } => {
            assert_eq!(lines, vec!["enter module a, message: \"hello_from_cli\"".to_string()]);
            assert_eq!(function, "f1");
            assert_eq!(param, "{\"message\":\"implemented in host\"}");
            assert_eq!(pending, Pending::ModuleF1);
            // the host answers the greeting
            let mut imports = MyImports::new();
            initialize(&mut imports);
            match imports.proxy(&function, &param) {
                HostStep::Reply { lines, reply } => {
                    assert_eq!(lines[0], "enter host f1, message: \"implemented in host\"");
                    match module_a::modulef1_resume(&reply) {
                        GuestStep::Reply { lines, reply } => {
                            assert!(lines.is_empty());
                            assert_eq!(reply, "modulef1");
                        }
                        _ => panic!("expected a reply"),
                    }
                }
                _ => panic!("expected a host reply"),
            }
        }
        _ => panic!("expected a host call"),
    }
}

#[test]
fn module_a_other_functions() {
    match module_a::proxy("modulef2", "anything") {
        GuestStep::Reply { reply, .. } => assert_eq!(reply, "sdf"),
        _ => panic!(),
    }
    match module_a::proxy("modulef3", "{}") {
        GuestStep::Reply { lines, reply } => {
            assert!(lines.is_empty());
            assert_eq!(reply, "{}");
        }
        _ => panic!(),
    }
    match module_a::proxy("modulef1", "not json") {
        GuestStep::Fault { lines, fault } => {
            assert!(lines.is_empty());
            assert_eq!(fault, GuestFault::BadParam);
        }
        _ => panic!("expected a fault"),
    }
    assert_eq!(module_a::modulef2("x".to_string()), "sdf");
    match module_a::modulef3(String::new()) {
        GuestStep::Reply { lines, reply } => {
            assert_eq!(lines, vec!["implemeted in module".to_string()]);
            assert_eq!(reply, "modulef3");
        }
        _ => panic!(),
    }
}

#[test]
fn module_home_serves_page() {
    let step = module_home::proxy("response", "{\"path\":\"home.html\"}");
    let (function, param) = match step {
        GuestStep::CallHost { lines, function, param, pending } => {
            assert_eq!(
                lines,
                vec![
                    "\tUsing module_home".to_string(),
                    "\t\tUsing function: response(path: String) in module_home".to_string()
                ]
            );
            assert_eq!(pending, Pending::HomeResponse);
            (function, param)
        }
        _ => panic!("expected a host call"),
    };
    assert_eq!(function, "response_HTML");
    assert_eq!(param, "{\"path\":\"home.html\"}");
    let mut imports = MyImports::new();
    initialize(&mut imports);
    match imports.proxy(&function, &param) {
        HostStep::ReadFile { path } => assert_eq!(path, "home.html"),
        _ => panic!("expected a read"),
    }
    let host_reply = response_HTML_reply("<h1>home</h1>");
    match module_home::response_resume(&host_reply) {
        GuestStep::Reply { reply, .. } => assert_eq!(
            reply,
            "{\"response\":\"HTTP/1.1 200 OK\\r\\nContent-Length: 13\\r\\n\\r\\n<h1>home</h1>\"}"
        ),
        _ => panic!("expected a reply"),
    }
}

#[test]
fn module_home_content_length_counts_bytes() {
    assert_eq!(module_home::http_response("HTTP/1.1 200 OK", "é"), "HTTP/1.1 200 OK\r\nContent-Length: 2\r\n\r\né");
    assert_eq!(module_home::http_response("S", ""), "S\r\nContent-Length: 0\r\n\r\n");
    assert_eq!(module_home::responseStatus(), "HTTP/1.1 200 OK");
}

#[test]
fn module_home_unknown_function_and_faults() {
    match module_home::proxy("other", "{}") {
        GuestStep::Reply { lines, reply } => {
            assert_eq!(lines, vec!["\tUsing module_home".to_string()]);
            assert_eq!(reply, "no such a func !");
        }
        _ => panic!(),
    }
    match module_home::proxy("other", "{") {
        GuestStep::Fault { lines, fault } => {
            assert_eq!(lines, vec!["\tUsing module_home".to_string()]);
            assert_eq!(fault, GuestFault::BadParam);
        }
        _ => panic!("expected a fault"),
    }
    match module_home::proxy("response", "{\"path\":1}") {
        GuestStep::Fault { lines, fault } => {
            assert_eq!(
                lines,
                vec![
                    "\tUsing module_home".to_string(),
                    "\t\tUsing function: response(path: String) in module_home".to_string()
                ]
            );
            assert_eq!(fault, GuestFault::MissingField);
        }
        _ => panic!("expected a fault"),
    }
    match module_home::response_resume("{\"html\":false}") {
        GuestStep::Fault { lines, fault } => {
            assert!(lines.is_empty());
            assert_eq!(fault, GuestFault::MissingField);
        }
        _ => panic!("expected a fault"),
    }
}

#[test]
fn module1_lines() {
    assert_eq!(module1::f1("hi".to_string()), "message: hi");
    assert_eq!(module1::f2(), "sdf");
    assert_eq!(module1::f3(), "implemeted in module");
    assert_eq!(module1::f4(vec![1, 2, 255]), format!("{:?}", vec![1u8, 2, 255]));
    assert_eq!(module1::f4(vec![]), "[]");
    assert_eq!(module1::f4(vec![0]), "[0]");
}
