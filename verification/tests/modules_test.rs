use hostcall::http_server::server_test;
use hostcall::modules::{
    call_module_func, load_module_by_path, show_module_list, unload_module_by_name, CallError,
    ModuleProxy,
};
use hostcall::registry::Registry;

struct Fake {
    tag: &'static str,
    calls: u32,
    last_param: String,
}

impl ModuleProxy for Fake {
    // Only Verus reads this description of calls; it is never run.
    fn answers(self, _fname: &str, _param: &str, _after: Self, _outcome: Result<String, String>) -> bool {
        true
    }

    fn proxy(&mut self, fname: &str, param: &str) -> Result<String, String> {
        self.calls += 1;
        self.last_param = param.to_string();
        match fname {
            "echo" => Ok(param.to_string()),
            "tag" => Ok(format!("{{ \"tag\" : \"{}\", \"calls\": {} }}", self.tag, self.calls)),
            "garbage" => Ok("not json".to_string()),
            _ => Err(format!("trap in {}", fname)),
        }
    }
}

fn fake(tag: &'static str) -> Result<Fake, String> {
    Ok(Fake { tag, calls: 0, last_param: String::new() })
}

#[test]
fn load_reports_success_and_registers() {
    let mut t: Registry<Fake> = Registry::new();
    let msg = load_module_by_path(&mut t, "module_A.wasm", "A", fake("a"));
    assert_eq!(msg, "load module module_A.wasm success, and registry as A");
    assert!(t.contains_key("A"));
    assert_eq!(t.len(), 1);
}

#[test]
fn failed_load_reports_reason_and_keeps_table() {
    let mut t: Registry<Fake> = Registry::new();
    load_module_by_path(&mut t, "module_A.wasm", "A", fake("a"));
    let msg = load_module_by_path(&mut t, "missing.wasm", "A", Err("no such file".to_string()));
    assert_eq!(msg, "load module missing.wasm failed, no such file");
    assert_eq!(t.len(), 1);
    let r = call_module_func(&mut t, "A", "tag", "{}").ok().unwrap();
    assert_eq!(r, "{\"calls\":1,\"tag\":\"a\"}");
}

#[test]
fn hot_update_replaces_module() {
    // load module_A.wasm A, then load module_B.wasm A: calls reach B
    let mut t: Registry<Fake> = Registry::new();
    load_module_by_path(&mut t, "module_A.wasm", "A", fake("a"));
    let r1 = call_module_func(&mut t, "A", "tag", "{}").ok().unwrap();
    assert_eq!(r1, "{\"calls\":1,\"tag\":\"a\"}");
    let msg = load_module_by_path(&mut t, "module_B.wasm", "A", fake("b"));
    assert_eq!(msg, "load module module_B.wasm success, and registry as A");
    assert_eq!(t.len(), 1);
    let r2 = call_module_func(&mut t, "A", "tag", "{}").ok().unwrap();
    assert_eq!(r2, "{\"calls\":1,\"tag\":\"b\"}");
}

#[test]
fn call_of_unknown_module_is_not_found() {
    let mut t: Registry<Fake> = Registry::new();
    let r = call_module_func(&mut t, "A", "modulef1", "{\"message\":\"hello_from_cli\"}");
    match r {
        Err(e) => {
            assert!(matches!(e, CallError::NotFound));
            assert_eq!(e.message(), "module or function not found");
        }
        Ok(_) => panic!("expected an error"),
    }
    assert_eq!(t.len(), 0);
}

#[test]
fn call_keeps_module_state_and_table() {
    let mut t: Registry<Fake> = Registry::new();
    load_module_by_path(&mut t, "a.wasm", "A", fake("a"));
    load_module_by_path(&mut t, "b.wasm", "B", fake("b"));
    call_module_func(&mut t, "A", "tag", "{}").ok().unwrap();
    let r = call_module_func(&mut t, "A", "tag", "{}").ok().unwrap();
    assert_eq!(r, "{\"calls\":2,\"tag\":\"a\"}");
    let r = call_module_func(&mut t, "B", "tag", "{}").ok().unwrap();
    assert_eq!(r, "{\"calls\":1,\"tag\":\"b\"}");
    assert_eq!(t.len(), 2);
}

#[test]
fn call_answers_compact_json() {
    let mut t: Registry<Fake> = Registry::new();
    load_module_by_path(&mut t, "a.wasm", "A", fake("a"));
    let r = call_module_func(&mut t, "A", "echo", "{ \"message\" : \"hi\" }").ok().unwrap();
    assert_eq!(r, "{\"message\":\"hi\"}");
}

#[test]
fn call_trap_and_bad_reply_are_errors() {
    let mut t: Registry<Fake> = Registry::new();
    load_module_by_path(&mut t, "a.wasm", "A", fake("a"));
    match call_module_func(&mut t, "A", "boom", "{}") {
        Err(CallError::Trapped(e)) => assert_eq!(e, "trap in boom"),
        _ => panic!("expected a trap"),
    }
    match call_module_func(&mut t, "A", "garbage", "{}") {
        Err(CallError::BadReply(text)) => assert_eq!(text, "not json"),
        _ => panic!("expected a bad reply"),
    }
    assert!(t.contains_key("A"));
}

#[test]
fn unload_reports_and_removes() {
    let mut t: Registry<Fake> = Registry::new();
    load_module_by_path(&mut t, "a.wasm", "A", fake("a"));
    assert_eq!(unload_module_by_name(&mut t, "A"), "unload module A success");
    assert!(!t.contains_key("A"));
    assert_eq!(
        unload_module_by_name(&mut t, "A"),
        "unload module A failed, module has not been loaded"
    );
    match call_module_func(&mut t, "A", "tag", "{}") {
        Err(CallError::NotFound) => {}
        _ => panic!("expected not found"),
    }
}

#[test]
fn list_shows_each_loaded_name_once() {
    let mut t: Registry<Fake> = Registry::new();
    load_module_by_path(&mut t, "a.wasm", "A", fake("a"));
    load_module_by_path(&mut t, "b.wasm", "B", fake("b"));
    load_module_by_path(&mut t, "b2.wasm", "B", fake("b2"));
    let mut names = show_module_list(&t);
    names.sort();
    assert_eq!(names, vec!["A".to_string(), "B".to_string()]);
    let mut names = server_test(&t);
    names.sort();
    assert_eq!(names, vec!["A".to_string(), "B".to_string()]);
}

#[test]
fn empty_list() {
    let t: Registry<Fake> = Registry::new();
    assert!(show_module_list(&t).is_empty());
}

#[test]
fn call_hands_module_compact_param() {
    let mut t: Registry<Fake> = Registry::new();
    load_module_by_path(&mut t, "a.wasm", "A", fake("a"));
    call_module_func(&mut t, "A", "tag", "{ \"b\" : 1, \"a\" : [ 1 , 2 ] }").ok().unwrap();
    assert_eq!(t.get("A").unwrap().last_param, "{\"a\":[1,2],\"b\":1}");
}

#[test]
fn call_with_bad_param_is_refused() {
    let mut t: Registry<Fake> = Registry::new();
    load_module_by_path(&mut t, "a.wasm", "A", fake("a"));
    match call_module_func(&mut t, "A", "tag", "{oops") {
        Err(e) => {
            assert!(matches!(e, CallError::BadParam));
            assert_eq!(e.message(), "the parameter of the call is no JSON text");
        }
        Ok(_) => panic!("expected an error"),
    }
    assert_eq!(t.get("A").unwrap().calls, 0);
    // an unloaded name is reported first
    assert!(matches!(call_module_func(&mut t, "B", "tag", "{oops"), Err(CallError::NotFound)));
}
