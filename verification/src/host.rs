//! The functions that the host offers to its modules. A module calls the
//! host's `proxy` import with the name of a host function and a JSON
//! parameter text; the host looks the function up and answers JSON text.
use vstd::prelude::*;
use vstd::string::*;

use crate::json::{
    json_canonical,
    json_canonical_of,
    json_object,
    json_object_of,
    json_shown_field,
    json_shown_field_of,
    json_str_field,
    json_str_field_of,
};
use crate::registry::Registry;
use crate::text::{lines_view, no_lines, two_lines};

verus! {

/// The host functions that can be registered under a name.
#[derive(PartialEq, Eq, Structural, Clone, Copy, Debug)]
pub enum HostFunction {
    /// Logs the `message` member of its parameter; answers `{"message":"ok"}`.
    F1,
    /// As `F1`, under the name f2.
    F2,
    /// Logs "f3"; answers an empty object.
    F3,
    /// Answers `{"status": ..}` with the `status` string of its parameter.
    ResponseStatus,
    /// Answers `{"html": ..}` with the contents of the file named by the
    /// `path` string of its parameter.
    ResponseHtml,
    /// Answers `{"response": ..}` with the `response` string of its parameter.
    Response,
}

/// Why the host cannot answer a module's request.
#[derive(PartialEq, Eq, Structural, Clone, Copy, Debug)]
pub enum HostFault {
    /// The parameter is no JSON text.
    BadParam,
    /// No host function is registered under the requested name.
    UnknownFunction,
    /// The parameter has no string under the member the function reads.
    MissingField,
}

/// What the host does for a module's request.
pub enum HostStep {
    /// Print `lines`, one per line, then answer `reply`.
    Reply { lines: Vec<String>, reply: String },
    /// Read the file `path`; `response_html_reply` turns its contents into
    /// the answer.
    ReadFile { path: String },
    /// The request cannot be answered.
    Fault(HostFault),
}

/// The model of a `HostStep`.
pub enum HostOutcome {
    Reply { lines: Seq<Seq<char>>, reply: Seq<char> },
    ReadFile { path: Seq<char> },
    Fault(HostFault),
}

impl View for HostStep {
    type V = HostOutcome;

    open spec fn view(&self) -> HostOutcome {
        match self {
            HostStep::Reply { lines, reply } => HostOutcome::Reply {
                lines: lines_view(lines@),
                reply: reply@,
            },
            HostStep::ReadFile { path } => HostOutcome::ReadFile { path: path@ },
            HostStep::Fault(f) => HostOutcome::Fault(*f),
        }
    }
}

/// What host function `f` does with the JSON parameter `param`.
pub open spec fn host_outcome(f: HostFunction, param: Seq<char>) -> HostOutcome {
    match f {
        HostFunction::F1 => HostOutcome::Reply {
            lines: seq![
                "enter host f1, message: "@ + json_shown_field_of(param, "message"@),
                Seq::<char>::empty(),
            ],
            reply: json_object_of("message"@, "ok"@),
        },
        HostFunction::F2 => HostOutcome::Reply {
            lines: seq![
                "enter host f2, message: "@ + json_shown_field_of(param, "message"@),
                Seq::<char>::empty(),
            ],
            reply: json_object_of("message"@, "ok"@),
        },
        HostFunction::F3 => HostOutcome::Reply {
            lines: seq!["f3"@, Seq::<char>::empty()],
            reply: "{}"@,
        },
        HostFunction::ResponseStatus => match json_str_field_of(param, "status"@) {
            Some(s) => HostOutcome::Reply { lines: Seq::empty(), reply: json_object_of("status"@, s) },
            None => HostOutcome::Fault(HostFault::MissingField),
        },
        HostFunction::ResponseHtml => match json_str_field_of(param, "path"@) {
            Some(p) => HostOutcome::ReadFile { path: p },
            None => HostOutcome::Fault(HostFault::MissingField),
        },
        HostFunction::Response => match json_str_field_of(param, "response"@) {
            Some(s) => HostOutcome::Reply {
                lines: Seq::empty(),
                reply: json_object_of("response"@, s),
            },
            None => HostOutcome::Fault(HostFault::MissingField),
        },
    }
}

fn message_host_function(banner: &str, param: &str) -> (r: HostStep)
    requires
        json_canonical_of(param@) is Some,
    ensures
        r@ == (HostOutcome::Reply {
            lines: seq![banner@ + json_shown_field_of(param@, "message"@), Seq::<char>::empty()],
            reply: json_object_of("message"@, "ok"@),
        }),
{
    let mut line = String::from_str(banner);
    let shown = json_shown_field(param, "message");
    line.append(shown.as_str());
    let lines = two_lines(line, String::new());
    HostStep::Reply { lines, reply: json_object("message", "ok") }
}

/// Host function f1: logs the parameter's `message`, answers "ok".
pub fn f1(param: &str) -> (r: HostStep)
    requires
        json_canonical_of(param@) is Some,
    ensures
        r@ == host_outcome(HostFunction::F1, param@),
{
    message_host_function("enter host f1, message: ", param)
}

/// Host function f2: logs the parameter's `message`, answers "ok".
pub fn f2(param: &str) -> (r: HostStep)
    requires
        json_canonical_of(param@) is Some,
    ensures
        r@ == host_outcome(HostFunction::F2, param@),
{
    message_host_function("enter host f2, message: ", param)
}

/// Host function f3: logs "f3", answers an empty object.
pub fn f3(param: &str) -> (r: HostStep)
    ensures
        r@ == host_outcome(HostFunction::F3, param@),
{
    let lines = two_lines(String::from_str("f3"), String::new());
    HostStep::Reply { lines, reply: String::from_str("{}") }
}

fn reply_with_field(param: &str, key: &str) -> (r: HostStep)
    ensures
        r@ == match json_str_field_of(param@, key@) {
            Some(s) => HostOutcome::Reply { lines: Seq::empty(), reply: json_object_of(key@, s) },
            None => HostOutcome::Fault(HostFault::MissingField),
        },
{
    match json_str_field(param, key) {
        Some(s) => HostStep::Reply { lines: no_lines(), reply: json_object(key, s.as_str()) },
        None => HostStep::Fault(HostFault::MissingField),
    }
}

/// Host function responseStatus: answers the parameter's `status`.
#[allow(non_snake_case)]
pub fn responseStatus(param: &str) -> (r: HostStep)
    ensures
        r@ == host_outcome(HostFunction::ResponseStatus, param@),
{
    reply_with_field(param, "status")
}

/// Host function response_HTML: asks for the file named by the parameter's
/// `path`.
#[allow(non_snake_case)]
pub fn response_HTML(param: &str) -> (r: HostStep)
    ensures
        r@ == host_outcome(HostFunction::ResponseHtml, param@),
{
    match json_str_field(param, "path") {
        Some(p) => HostStep::ReadFile { path: p },
        None => HostStep::Fault(HostFault::MissingField),
    }
}

/// The answer of response_HTML, given the contents of the file it read.
#[allow(non_snake_case)]
pub fn response_HTML_reply(contents: &str) -> (r: String)
    ensures
        r@ == json_object_of("html"@, contents@),
{
    json_object("html", contents)
}

/// Host function response: answers the parameter's `response`.
pub fn response(param: &str) -> (r: HostStep)
    ensures
        r@ == host_outcome(HostFunction::Response, param@),
{
    reply_with_field(param, "response")
}

/// Runs host function `f` on the JSON parameter `param`.
pub fn run_host_function(f: HostFunction, param: &str) -> (r: HostStep)
    requires
        json_canonical_of(param@) is Some,
    ensures
        r@ == host_outcome(f, param@),
{
    match f {
        HostFunction::F1 => f1(param),
        HostFunction::F2 => f2(param),
        HostFunction::F3 => f3(param),
        HostFunction::ResponseStatus => responseStatus(param),
        HostFunction::ResponseHtml => response_HTML(param),
        HostFunction::Response => response(param),
    }
}

/// The host side of the modules' `proxy` import: the host functions that
/// modules may call, by name.
pub struct MyImports {
    pub functions: Registry<HostFunction>,
}

/// The host functions that `initialize` registers, added to `table`.
pub open spec fn initialized(table: Map<Seq<char>, HostFunction>) -> Map<Seq<char>, HostFunction> {
    table.insert("f1"@, HostFunction::F1).insert("f2"@, HostFunction::F2).insert(
        "responseStatus"@,
        HostFunction::ResponseStatus,
    ).insert("response_HTML"@, HostFunction::ResponseHtml).insert(
        "response"@,
        HostFunction::Response,
    )
}

/// What the host does for a request of function `name` with `param`:
/// a parameter that is no JSON text, or a name that nothing is registered
/// under, cannot be answered; else the registered function runs.
pub open spec fn proxy_outcome(
    table: Map<Seq<char>, HostFunction>,
    name: Seq<char>,
    param: Seq<char>,
) -> HostOutcome {
    if json_canonical_of(param) is None {
        HostOutcome::Fault(HostFault::BadParam)
    } else if !table.contains_key(name) {
        HostOutcome::Fault(HostFault::UnknownFunction)
    } else {
        host_outcome(table[name], param)
    }
}

impl MyImports {
    /// No host function registered.
    pub fn new() -> (r: Self)
        ensures
            r.functions.wf(),
            r.functions@ == Map::<Seq<char>, HostFunction>::empty(),
    {
        MyImports { functions: Registry::new() }
    }

    /// Answers a module's call of host function `name` with the JSON
    /// parameter `param`.
    pub fn proxy(&self, name: &str, param: &str) -> (r: HostStep)
        requires
            self.functions.wf(),
        ensures
            r@ == proxy_outcome(self.functions@, name@, param@),
    {
        match json_canonical(param) {
            None => HostStep::Fault(HostFault::BadParam),
            Some(_) => match self.functions.get(name) {
                None => HostStep::Fault(HostFault::UnknownFunction),
                Some(f) => run_host_function(*f, param),
            },
        }
    }
}

/// Registers host function `f` under `name`, replacing what was there.
pub fn registry(imports: &mut MyImports, name: &str, f: HostFunction)
    requires
        old(imports).functions.wf(),
    ensures
        final(imports).functions.wf(),
        final(imports).functions@ == old(imports).functions@.insert(name@, f),
{
    imports.functions.insert(name.to_owned(), f);
}

/// Registers the host functions f1, f2, responseStatus, response_HTML and
/// response under their names.
pub fn initialize(imports: &mut MyImports)
    requires
        old(imports).functions.wf(),
    ensures
        final(imports).functions.wf(),
        final(imports).functions@ == initialized(old(imports).functions@),
{
    registry(imports, "f1", HostFunction::F1);
    registry(imports, "f2", HostFunction::F2);
    registry(imports, "responseStatus", HostFunction::ResponseStatus);
    registry(imports, "response_HTML", HostFunction::ResponseHtml);
    registry(imports, "response", HostFunction::Response);
}

/// `initialize` on an empty table registers exactly the five host functions
/// f1, f2, responseStatus, response_HTML and response, each under its name.
pub proof fn law_initialize_registers_five()
    ensures
        initialized(Map::empty()).dom() == set![
            "f1"@,
            "f2"@,
            "responseStatus"@,
            "response_HTML"@,
            "response"@,
        ],
        initialized(Map::empty())["response"@] == HostFunction::Response,
{
    assert(initialized(Map::empty()).dom() =~= set![
        "f1"@,
        "f2"@,
        "responseStatus"@,
        "response_HTML"@,
        "response"@,
    ]);
}

/// f1 and f2 answer `{"message":"ok"}` to every JSON parameter.
pub proof fn law_message_functions_answer_ok(param: Seq<char>)
    ensures
        host_outcome(HostFunction::F1, param) matches HostOutcome::Reply { reply, .. } && reply
            == json_object_of("message"@, "ok"@),
        host_outcome(HostFunction::F2, param) matches HostOutcome::Reply { reply, .. } && reply
            == json_object_of("message"@, "ok"@),
{
}

/// Once initialized, a module's request for f1, f2, responseStatus,
/// response_HTML or response with a JSON parameter runs that host function,
/// whatever the table held before.
pub proof fn law_initialized_dispatch(table: Map<Seq<char>, HostFunction>, param: Seq<char>)
    requires
        json_canonical_of(param) is Some,
    ensures
        proxy_outcome(initialized(table), "f1"@, param) == host_outcome(HostFunction::F1, param),
        proxy_outcome(initialized(table), "f2"@, param) == host_outcome(HostFunction::F2, param),
        proxy_outcome(initialized(table), "responseStatus"@, param) == host_outcome(
            HostFunction::ResponseStatus,
            param,
        ),
        proxy_outcome(initialized(table), "response_HTML"@, param) == host_outcome(
            HostFunction::ResponseHtml,
            param,
        ),
        proxy_outcome(initialized(table), "response"@, param) == host_outcome(
            HostFunction::Response,
            param,
        ),
{
    broadcast use vstd::string::group_string_axioms;

    reveal_strlit("f1");
    reveal_strlit("f2");
    reveal_strlit("responseStatus");
    reveal_strlit("response_HTML");
    reveal_strlit("response");
    assert("f1"@[1] != "f2"@[1]);
    assert("f1"@.len() != "responseStatus"@.len());
    assert("f1"@.len() != "response_HTML"@.len());
    assert("f1"@.len() != "response"@.len());
    assert("f2"@.len() != "responseStatus"@.len());
    assert("f2"@.len() != "response_HTML"@.len());
    assert("f2"@.len() != "response"@.len());
    assert("responseStatus"@[8] != "response_HTML"@[8]);
    assert("responseStatus"@.len() != "response"@.len());
    assert("response_HTML"@.len() != "response"@.len());
}

/// Host function response_HTML reads exactly the file that its parameter
/// names under "path", and is refused where there is no such string; the
/// other answering host functions hand back exactly the string they read:
/// responseStatus answers `{"status": s}` for the parameter's "status" s,
/// response answers `{"response": s}` for its "response" s.
pub proof fn law_host_functions_use_their_parameter(param: Seq<char>, s: Seq<char>)
    ensures
        json_str_field_of(param, "path"@) == Some(s) ==> host_outcome(
            HostFunction::ResponseHtml,
            param,
        ) == (HostOutcome::ReadFile { path: s }),
        json_str_field_of(param, "path"@) is None ==> host_outcome(
            HostFunction::ResponseHtml,
            param,
        ) == HostOutcome::Fault(HostFault::MissingField),
        json_str_field_of(param, "status"@) == Some(s) ==> host_outcome(
            HostFunction::ResponseStatus,
            param,
        ) == (HostOutcome::Reply { lines: Seq::empty(), reply: json_object_of("status"@, s) }),
        json_str_field_of(param, "response"@) == Some(s) ==> host_outcome(
            HostFunction::Response,
            param,
        ) == (HostOutcome::Reply { lines: Seq::empty(), reply: json_object_of("response"@, s) }),
{
}

/// Once initialized, a module's request for response_HTML with a JSON
/// parameter whose "path" is the string `p` makes the host read the file
/// `p`, whatever the table held before.
pub proof fn law_page_request_reads_named_file(
    table: Map<Seq<char>, HostFunction>,
    param: Seq<char>,
    p: Seq<char>,
)
    requires
        json_canonical_of(param) is Some,
        json_str_field_of(param, "path"@) == Some(p),
    ensures
        proxy_outcome(initialized(table), "response_HTML"@, param) == (HostOutcome::ReadFile {
            path: p,
        }),
{
    law_initialized_dispatch(table, param);
}

} // verus!
