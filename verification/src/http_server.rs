//! The HTTP side: which module answers a request, what it is asked, and
//! what is sent back.
use vstd::prelude::*;
use vstd::string::*;

use crate::json::{json_object, json_object_of, json_str_field, json_str_field_of};
use crate::modules::show_module_list;
use crate::registry::Registry;
use crate::text::starts_with;
use vstd::utf8::{encode_utf8, is_ascii_chars, is_ascii_chars_encode_utf8};

verus! {

/// The bytes of the request line that asks for the root page.
pub open spec fn root_request_line() -> Seq<u8> {
    encode_utf8("GET / HTTP/1.1\r\n"@)
}

/// The bytes of the request line that asks for the home page.
pub open spec fn home_request_line() -> Seq<u8> {
    encode_utf8("GET /home HTTP/1.1\r\n"@)
}

/// Whether `bytes` begins with `prefix`.
pub open spec fn has_prefix(bytes: Seq<u8>, prefix: Seq<u8>) -> bool {
    prefix.len() <= bytes.len() && bytes.subrange(0, prefix.len() as int) == prefix
}

/// The module that answers a request, and the page it is asked for: the
/// root page comes from module_200, the home page from module_home, and
/// anything else from module_404.
pub open spec fn route_of(request: Seq<u8>) -> (Seq<char>, Seq<char>) {
    if has_prefix(request, root_request_line()) {
        ("module_200"@, "hello.html"@)
    } else if has_prefix(request, home_request_line()) {
        ("module_home"@, "home.html"@)
    } else {
        ("module_404"@, "404.html"@)
    }
}

/// How a request is served: the line logged, the module called, the
/// function called in it, and the JSON parameter of the call.
pub struct Route {
    pub announcement: String,
    pub module: String,
    pub function: String,
    pub param: String,
}

/// Chooses the module that serves `request` (the bytes read from the
/// connection) and what it is asked.
pub fn route_request(request: &[u8]) -> (r: Route)
    ensures
        r.module@ == route_of(request@).0,
        r.announcement@ == route_of(request@).0 + " loaded."@,
        r.function@ == "response"@,
        r.param@ == json_object_of("path"@, route_of(request@).1),
{
    let (module, page) = if starts_with(request, "GET / HTTP/1.1\r\n".as_bytes()) {
        (String::from_str("module_200"), "hello.html")
    } else if starts_with(request, "GET /home HTTP/1.1\r\n".as_bytes()) {
        (String::from_str("module_home"), "home.html")
    } else {
        (String::from_str("module_404"), "404.html")
    };
    let mut announcement = module.clone();
    announcement.append(" loaded.");
    Route {
        announcement,
        module,
        function: String::from_str("response"),
        param: json_object("path", page),
    }
}

/// The text to send back, taken from the called module's JSON answer: its
/// `response` member, where that is a string.
pub fn response_body(reply: &str) -> (r: Option<String>)
    ensures
        match r {
            Some(s) => json_str_field_of(reply@, "response"@) == Some(s@),
            None => json_str_field_of(reply@, "response"@) is None,
        },
{
    json_str_field(reply, "response")
}

/// The modules that the server loads before it serves: (file, name) pairs.
pub fn server_modules() -> (r: Vec<(String, String)>)
    ensures
        r@.len() == 3,
        r@[0].0@ == "module_200.wasm"@ && r@[0].1@ == "module_200"@,
        r@[1].0@ == "module_home.wasm"@ && r@[1].1@ == "module_home"@,
        r@[2].0@ == "module_404.wasm"@ && r@[2].1@ == "module_404"@,
{
    let mut r: Vec<(String, String)> = Vec::new();
    r.push((String::from_str("module_200.wasm"), String::from_str("module_200")));
    r.push((String::from_str("module_home.wasm"), String::from_str("module_home")));
    r.push((String::from_str("module_404.wasm"), String::from_str("module_404")));
    r
}

/// The names of the loaded modules, as the server lists them.
pub fn server_test<M>(modules: &Registry<M>) -> (names: Vec<String>)
    requires
        modules.wf(),
    ensures
        names@.len() == modules@.len(),
        forall|i: int| 0 <= i < names@.len() ==> modules@.contains_key(#[trigger] names@[i]@),
        forall|k: Seq<char>|
            #[trigger] modules@.contains_key(k) ==> exists|i: int|
                0 <= i < names@.len() && #[trigger] names@[i]@ == k,
        forall|i: int, j: int|
            0 <= i < names@.len() && 0 <= j < names@.len() && i != j ==> #[trigger] names@[i]@
                != #[trigger] names@[j]@,
{
    show_module_list(modules)
}

/// The server routes by the request line alone, whatever bytes follow it
/// (headers, the rest of its zero-padded buffer): a request that begins
/// with "GET / HTTP/1.1\r\n" is served hello.html by module_200, one that
/// begins with "GET /home HTTP/1.1\r\n" is served home.html by
/// module_home, and any other request is served 404.html by module_404.
pub proof fn law_route_by_request_line(request: Seq<u8>)
    ensures
        request.len() >= 16 && request.subrange(0, 16) == encode_utf8("GET / HTTP/1.1\r\n"@)
            ==> route_of(request) == ("module_200"@, "hello.html"@),
        request.len() >= 20 && request.subrange(0, 20) == encode_utf8(
            "GET /home HTTP/1.1\r\n"@,
        ) ==> route_of(request) == ("module_home"@, "home.html"@),
        !(request.len() >= 16 && request.subrange(0, 16) == encode_utf8("GET / HTTP/1.1\r\n"@))
            && !(request.len() >= 20 && request.subrange(0, 20) == encode_utf8(
            "GET /home HTTP/1.1\r\n"@,
        )) ==> route_of(request) == ("module_404"@, "404.html"@),
{
    broadcast use vstd::string::group_string_axioms;

    reveal_strlit("GET / HTTP/1.1\r\n");
    reveal_strlit("GET /home HTTP/1.1\r\n");
    let r = "GET / HTTP/1.1\r\n"@;
    let h = "GET /home HTTP/1.1\r\n"@;
    assert(is_ascii_chars(r));
    assert(is_ascii_chars(h));
    is_ascii_chars_encode_utf8(r);
    is_ascii_chars_encode_utf8(h);
    let er = encode_utf8(r);
    let eh = encode_utf8(h);
    assert(er.len() == 16);
    assert(eh.len() == 20);
    assert(er[5] == r[5] as u8);
    assert(eh[5] == h[5] as u8);
    assert(er[5] != eh[5]);
    if request.len() >= 20 && request.subrange(0, 20) == eh {
        if has_prefix(request, er) {
            assert(request.subrange(0, 16)[5] == request.subrange(0, 20)[5]);
            assert(false);
        }
    }
}

} // verus!
