//! module_home: answers the request for a page with an HTTP response whose
//! body is the page that the host reads for it.
use vstd::prelude::*;
use vstd::string::*;

use crate::guests::step::{GuestFault, GuestOutcome, GuestStep, Pending};
use crate::text::{no_lines, one_line, two_lines};
use crate::json::{
    json_canonical,
    json_canonical_of,
    json_object,
    json_object_of,
    json_str_field,
    json_str_field_of,
};
use crate::text::{append_decimal, decimal, law_decimal_reads_back, numeral_value};
use vstd::utf8::encode_utf8;

verus! {

/// The status line of module_home's responses.
pub open spec fn status_line() -> Seq<char> {
    "HTTP/1.1 200 OK"@
}

/// The HTTP response with status line `status` and body `contents`: a
/// Content-Length header gives the number of bytes of the body's UTF-8
/// encoding.
pub open spec fn http_response_text(status: Seq<char>, contents: Seq<char>) -> Seq<char> {
    status + "\r\nContent-Length: "@ + decimal(encode_utf8(contents).len()) + "\r\n\r\n"@
        + contents
}

/// What module_home does for a call of its function `name` with `param`.
pub open spec fn module_home_outcome(name: Seq<char>, param: Seq<char>) -> GuestOutcome {
    if json_canonical_of(param) is None {
        GuestOutcome::Fault { lines: seq!["\tUsing module_home"@], fault: GuestFault::BadParam }
    } else if name == "response"@ {
        match json_str_field_of(param, "path"@) {
            None => GuestOutcome::Fault {
                lines: seq![
                    "\tUsing module_home"@,
                    "\t\tUsing function: response(path: String) in module_home"@,
                ],
                fault: GuestFault::MissingField,
            },
            Some(path) => GuestOutcome::CallHost {
                lines: seq![
                    "\tUsing module_home"@,
                    "\t\tUsing function: response(path: String) in module_home"@,
                ],
                function: "response_HTML"@,
                param: json_object_of("path"@, path),
                pending: Pending::HomeResponse,
            },
        }
    } else {
        GuestOutcome::Reply { lines: seq!["\tUsing module_home"@], reply: "no such a func !"@ }
    }
}

/// What module_home answers once the host has answered the request for
/// the page: the HTTP response around the `html` member of the host's
/// answer, as the `response` member of a JSON object.
pub open spec fn home_resume_outcome(host_reply: Seq<char>) -> GuestOutcome {
    match json_str_field_of(host_reply, "html"@) {
        None => GuestOutcome::Fault { lines: Seq::empty(), fault: GuestFault::MissingField },
        Some(page) => GuestOutcome::Reply {
            lines: Seq::empty(),
            reply: json_object_of("response"@, http_response_text(status_line(), page)),
        },
    }
}

/// The status line of the responses: "HTTP/1.1 200 OK".
#[allow(non_snake_case)]
pub fn responseStatus() -> (r: String)
    ensures
        r@ == status_line(),
{
    String::from_str("HTTP/1.1 200 OK")
}

/// The HTTP response with status line `status` and body `contents`.
pub fn http_response(status: &str, contents: &str) -> (r: String)
    ensures
        r@ == http_response_text(status@, contents@),
{
    let mut r = String::from_str(status);
    r.append("\r\nContent-Length: ");
    let n = contents.as_bytes().len();
    assert(n == contents.spec_bytes().len());
    append_decimal(&mut r, n);
    r.append("\r\n\r\n");
    r.append(contents);
    r
}

/// module_home's `proxy` export.
pub fn proxy(name: &str, param: &str) -> (r: GuestStep)
    ensures
        r@ == module_home_outcome(name@, param@),
{
    match json_canonical(param) {
        None => GuestStep::Fault {
            lines: one_line(String::from_str("\tUsing module_home")),
            fault: GuestFault::BadParam,
        },
        Some(_) => {
            let name = name.to_owned();
            if name == String::from_str("response") {
                response(param)
            } else {
                GuestStep::Reply {
                    lines: one_line(String::from_str("\tUsing module_home")),
                    reply: String::from_str("no such a func !"),
                }
            }
        },
    }
}

/// module_home's response: asks the host for the page named by `path`.
pub fn response(param: &str) -> (r: GuestStep)
    requires
        json_canonical_of(param@) is Some,
    ensures
        r@ == module_home_outcome("response"@, param@),
{
    match json_str_field(param, "path") {
        None => GuestStep::Fault {
            lines: two_lines(
                String::from_str("\tUsing module_home"),
                String::from_str("\t\tUsing function: response(path: String) in module_home"),
            ),
            fault: GuestFault::MissingField,
        },
        Some(path) => GuestStep::CallHost {
            lines: two_lines(
                String::from_str("\tUsing module_home"),
                String::from_str("\t\tUsing function: response(path: String) in module_home"),
            ),
            function: String::from_str("response_HTML"),
            param: json_object("path", path.as_str()),
            pending: Pending::HomeResponse,
        },
    }
}

/// module_home's response, once the host has answered with the page.
pub fn response_resume(host_reply: &str) -> (r: GuestStep)
    ensures
        r@ == home_resume_outcome(host_reply@),
{
    match json_str_field(host_reply, "html") {
        None => GuestStep::Fault { lines: no_lines(), fault: GuestFault::MissingField },
        Some(page) => {
            let status = responseStatus();
            let resp = http_response(status.as_str(), page.as_str());
            GuestStep::Reply { lines: no_lines(), reply: json_object("response", resp.as_str()) }
        },
    }
}

/// The Content-Length of module_home's responses is the number of bytes
/// of the body's UTF-8 encoding, for every body: the response is the status
/// line, "\r\nContent-Length: ", a numeral of decimal digits that reads
/// back as that number, a blank line, and the body.
pub proof fn law_content_length_counts_bytes(status: Seq<char>, contents: Seq<char>)
    ensures
        http_response_text(status, contents) == status + "\r\nContent-Length: "@ + decimal(
            encode_utf8(contents).len(),
        ) + "\r\n\r\n"@ + contents,
        numeral_value(decimal(encode_utf8(contents).len())) == encode_utf8(contents).len(),
        forall|i: int|
            0 <= i < decimal(encode_utf8(contents).len()).len() ==> '0' <= #[trigger] decimal(
                encode_utf8(contents).len(),
            )[i] <= '9',
{
    law_decimal_reads_back(encode_utf8(contents).len());
}

/// Once the host has answered module_home's request for a page with
/// `{"html": page}`, module_home answers, as the "response" member of a JSON
/// object, "HTTP/1.1 200 OK", the Content-Length of the page's bytes, and
/// the page.
pub proof fn law_home_serves_the_page(host_reply: Seq<char>, page: Seq<char>)
    requires
        json_str_field_of(host_reply, "html"@) == Some(page),
    ensures
        home_resume_outcome(host_reply) == (GuestOutcome::Reply {
            lines: Seq::empty(),
            reply: json_object_of(
                "response"@,
                "HTTP/1.1 200 OK"@ + "\r\nContent-Length: "@ + decimal(encode_utf8(page).len())
                    + "\r\n\r\n"@ + page,
            ),
        }),
{
    law_content_length_counts_bytes(status_line(), page);
}

/// For a JSON parameter, module_home answers "no such a func !" for any
/// function but "response"; for "response" with the page `path` it asks the
/// host's response_HTML for `{"path": path}`.
pub proof fn law_module_home_answers(name: Seq<char>, param: Seq<char>, path: Seq<char>)
    requires
        json_canonical_of(param) is Some,
    ensures
        name != "response"@ ==> module_home_outcome(name, param) == (GuestOutcome::Reply {
            lines: seq!["\tUsing module_home"@],
            reply: "no such a func !"@,
        }),
        name == "response"@ && json_str_field_of(param, "path"@) == Some(path) ==> (module_home_outcome(
            name,
            param,
        ) matches GuestOutcome::CallHost { function, param: sent, pending, .. } && function
            == "response_HTML"@ && sent == json_object_of("path"@, path) && pending
            == Pending::HomeResponse),
{
}

} // verus!
