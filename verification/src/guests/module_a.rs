//! module_A: answers "modulef1" after greeting the host, "sdf" for
//! modulef2, and an empty object for any other function.
use vstd::prelude::*;
use vstd::string::*;

use crate::guests::step::{GuestFault, GuestOutcome, GuestStep, Pending};
use crate::text::{no_lines, one_line};
use crate::json::{
    json_canonical,
    json_canonical_of,
    json_object,
    json_object_of,
    json_shown_field,
    json_shown_field_of,
};

verus! {

/// What module_A does for a call of its function `name` with `param`.
pub open spec fn module_a_outcome(name: Seq<char>, param: Seq<char>) -> GuestOutcome {
    if name == "modulef1"@ {
        modulef1_outcome(param)
    } else if name == "modulef2"@ {
        GuestOutcome::Reply { lines: Seq::empty(), reply: "sdf"@ }
    } else {
        GuestOutcome::Reply { lines: Seq::empty(), reply: "{}"@ }
    }
}

/// modulef1 logs the `message` member of its parameter and greets host
/// function f1 with `{"message":"implemented in host"}`.
pub open spec fn modulef1_outcome(param: Seq<char>) -> GuestOutcome {
    if json_canonical_of(param) is None {
        GuestOutcome::Fault { lines: Seq::empty(), fault: GuestFault::BadParam }
    } else {
        GuestOutcome::CallHost {
            lines: seq!["enter module a, message: "@ + json_shown_field_of(param, "message"@)],
            function: "f1"@,
            param: json_object_of("message"@, "implemented in host"@),
            pending: Pending::ModuleF1,
        }
    }
}

/// module_A's `proxy` export.
pub fn proxy(name: &str, param: &str) -> (r: GuestStep)
    ensures
        r@ == module_a_outcome(name@, param@),
{
    let name = name.to_owned();
    if name == String::from_str("modulef1") {
        modulef1(param)
    } else if name == String::from_str("modulef2") {
        GuestStep::Reply { lines: no_lines(), reply: modulef2(param.to_owned()) }
    } else {
        GuestStep::Reply { lines: no_lines(), reply: String::from_str("{}") }
    }
}

/// modulef1: logs the message and calls the host's f1.
pub fn modulef1(param: &str) -> (r: GuestStep)
    ensures
        r@ == modulef1_outcome(param@),
{
    match json_canonical(param) {
        None => GuestStep::Fault { lines: no_lines(), fault: GuestFault::BadParam },
        Some(_) => {
            let mut line = String::from_str("enter module a, message: ");
            let shown = json_shown_field(param, "message");
            line.append(shown.as_str());
            GuestStep::CallHost {
                lines: one_line(line),
                function: String::from_str("f1"),
                param: json_object("message", "implemented in host"),
                pending: Pending::ModuleF1,
            }
        },
    }
}

/// What modulef1 answers once the host has answered: "modulef1".
pub fn modulef1_resume(host_reply: &str) -> (r: GuestStep)
    ensures
        r@ == (GuestOutcome::Reply { lines: Seq::empty(), reply: "modulef1"@ }),
{
    GuestStep::Reply { lines: no_lines(), reply: String::from_str("modulef1") }
}

/// modulef2: answers "sdf".
pub fn modulef2(s: String) -> (r: String)
    ensures
        r@ == "sdf"@,
{
    String::from_str("sdf")
}

/// modulef3: logs a line and answers "modulef3".
pub fn modulef3(s: String) -> (r: GuestStep)
    ensures
        r@ == (GuestOutcome::Reply { lines: seq!["implemeted in module"@], reply: "modulef3"@ }),
{
    GuestStep::Reply {
        lines: one_line(String::from_str("implemeted in module")),
        reply: String::from_str("modulef3"),
    }
}

/// module_A answers "sdf" for modulef2 and an empty object for a function it
/// does not have, whatever the parameter; for modulef1 with a JSON
/// parameter it logs the parameter's message and calls the host's f1 with
/// `{"message":"implemented in host"}`, and answers "modulef1" once the host
/// has answered.
pub proof fn law_module_a_answers(name: Seq<char>, param: Seq<char>)
    ensures
        name == "modulef2"@ ==> module_a_outcome(name, param) == (GuestOutcome::Reply {
            lines: Seq::empty(),
            reply: "sdf"@,
        }),
        name != "modulef1"@ && name != "modulef2"@ ==> module_a_outcome(name, param) == (
        GuestOutcome::Reply { lines: Seq::empty(), reply: "{}"@ }),
        name == "modulef1"@ && json_canonical_of(param) is Some ==> module_a_outcome(name, param)
            == (GuestOutcome::CallHost {
            lines: seq!["enter module a, message: "@ + json_shown_field_of(param, "message"@)],
            function: "f1"@,
            param: json_object_of("message"@, "implemented in host"@),
            pending: Pending::ModuleF1,
        }),
{
    broadcast use vstd::string::group_string_axioms;

    reveal_strlit("modulef1");
    reveal_strlit("modulef2");
    assert("modulef1"@[7] != "modulef2"@[7]);
}

} // verus!
