use hostcall::cli::{cli_step, command_words, request_sent, Action, CliStep};
use hostcall::http_server::{response_body, route_request, server_modules};

#[test]
fn route_root_home_and_other() {
    let r = route_request(b"GET / HTTP/1.1\r\nHost: localhost\r\n\r\n");
    assert_eq!(r.module, "module_200");
    assert_eq!(r.announcement, "module_200 loaded.");
    assert_eq!(r.function, "response");
    assert_eq!(r.param, "{\"path\":\"hello.html\"}");
    let r = route_request(b"GET /home HTTP/1.1\r\n");
    assert_eq!(r.module, "module_home");
    assert_eq!(r.param, "{\"path\":\"home.html\"}");
    let r = route_request(b"GET /other HTTP/1.1\r\n");
    assert_eq!(r.module, "module_404");
    assert_eq!(r.announcement, "module_404 loaded.");
    assert_eq!(r.param, "{\"path\":\"404.html\"}");
    let mut buffer = [0u8; 1024];
    buffer[..16].copy_from_slice(b"GET / HTTP/1.1\r\n");
    assert_eq!(route_request(&buffer).module, "module_200");
    assert_eq!(route_request(&[0u8; 1024]).module, "module_404");
    assert_eq!(route_request(b"").module, "module_404");
}

#[test]
fn response_body_reads_response_member() {
    assert_eq!(response_body("{\"response\":\"HTTP/1.1 200 OK\"}"), Some("HTTP/1.1 200 OK".to_string()));
    assert_eq!(response_body("{}"), None);
    assert_eq!(response_body("oops"), None);
}

#[test]
fn server_preloads_three_modules() {
    let m = server_modules();
    assert_eq!(
        m,
        vec![
            ("module_200.wasm".to_string(), "module_200".to_string()),
            ("module_home.wasm".to_string(), "module_home".to_string()),
            ("module_404.wasm".to_string(), "module_404".to_string()),
        ]
    );
}

#[test]
fn cli_load_unload_list_exit() {
    let p = cli_step(Action::Load { path: "module_A.wasm".to_string(), name: "A".to_string() });
    assert_eq!(p.announcement, "Loading module from module_A.wasm");
    assert!(matches!(p.step, CliStep::Load { ref path, ref name } if path == "module_A.wasm" && name == "A"));
    let p = cli_step(Action::Unload { module_name: "A".to_string() });
    assert_eq!(p.announcement, "Unloading module A");
    assert!(matches!(p.step, CliStep::Unload { ref name } if name == "A"));
    let p = cli_step(Action::List);
    assert_eq!(p.announcement, "Loaded modules list:");
    assert!(matches!(p.step, CliStep::List));
    let p = cli_step(Action::Exit);
    assert_eq!(p.announcement, "Exiting");
    assert!(matches!(p.step, CliStep::Exit));
}

#[test]
fn cli_call_hands_on_compact_param() {
    let p = cli_step(Action::Call {
        module_name: "A".to_string(),
        function_name: "modulef1".to_string(),
        param: "{\"message\": \"hello_from_cli\"}".to_string(),
    });
    assert_eq!(
        p.announcement,
        "Calling function modulef1 in module A with param {\"message\": \"hello_from_cli\"}"
    );
    match p.step {
        CliStep::Call { module, function, param } => {
            assert_eq!(module, "A");
            assert_eq!(function, "modulef1");
            assert_eq!(param, "{\"message\":\"hello_from_cli\"}");
        }
        _ => panic!("expected a call"),
    }
    let p = cli_step(Action::Call {
        module_name: "A".to_string(),
        function_name: "f".to_string(),
        param: "{bad".to_string(),
    });
    assert!(matches!(p.step, CliStep::BadParam));
}

#[test]
fn cli_request_reaches_routed_module() {
    let p = cli_step(Action::Request {
        url: "127.0.0.1".to_string(),
        port: "7878".to_string(),
        path: "/home".to_string(),
    });
    assert_eq!(p.announcement, "\nSending request to 127.0.0.1:7878/home");
    match p.step {
        CliStep::Request { address, message } => {
            assert_eq!(address, "127.0.0.1:7878");
            assert_eq!(message, "GET /home HTTP/1.1\r\n");
            assert_eq!(route_request(message.as_bytes()).module, "module_home");
        }
        _ => panic!("expected a request"),
    }
    let p = cli_step(Action::Request { url: "h".to_string(), port: "1".to_string(), path: "/".to_string() });
    match p.step {
        CliStep::Request { message, .. } => assert_eq!(route_request(message.as_bytes()).module, "module_200"),
        _ => panic!(),
    }
    assert_eq!(request_sent(), "Sending done\n");
}

fn split_like_original(line: &str) -> Vec<String> {
    let mut args: Vec<String> = line.split_whitespace().map(|s| s.to_string()).collect();
    args.insert(0, String::new());
    args
}

#[test]
fn command_words_split_on_white_space() {
    for line in [
        "load module_A.wasm A\n",
        "  call   A modulef1 {\"message\":\"hello_from_cli\"}\r\n",
        "",
        "   \t\n",
        "list",
        "a\u{a0}b\u{3000}c\u{85}d\u{2028}e",
        "é ü",
    ] {
        assert_eq!(command_words(line), split_like_original(line), "line {:?}", line);
    }
    assert_eq!(command_words("exit\n"), vec![String::new(), "exit".to_string()]);
}
