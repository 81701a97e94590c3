//! The commands of the interactive prompt and what each of them does.
use vstd::prelude::*;
use vstd::string::*;

use crate::http_server::{has_prefix, home_request_line, root_request_line, route_of};
use crate::json::{json_canonical, json_canonical_of};
use crate::text::{lemma_ascii_prefix, lines_view, push_char};
use vstd::utf8::{encode_utf8, is_ascii_chars};

verus! {

/// A command typed at the prompt.
pub enum Action {
    /// Load a module
    Load { path: String, name: String },
    /// Unload a module
    Unload { module_name: String },
    /// List loaded modules
    List,
    /// Call a function in a module
    Call { module_name: String, function_name: String, param: String },
    /// Send a request to an HTTP server
    Request { url: String, port: String, path: String },
    /// Exits the program
    Exit,
}

/// The parsed command line of the prompt.
pub struct CommandLineArgs {
    pub action: Action,
}

/// What the prompt does for a command, after it has logged its announcement.
pub enum CliStep {
    /// Read and instantiate the module file `path`, and load it as `name`.
    Load { path: String, name: String },
    /// Unload the module `name`.
    Unload { name: String },
    /// List the loaded modules.
    List,
    /// Call `function` of module `module` with the JSON parameter `param`.
    Call { module: String, function: String, param: String },
    /// The parameter of a call is no JSON text.
    BadParam,
    /// Connect to `address` and send `message`.
    Request { address: String, message: String },
    /// Stop the prompt.
    Exit,
}

/// A command's announcement and what follows it.
pub struct CliPlan {
    pub announcement: String,
    pub step: CliStep,
}

/// The request line that asks a server for `path`.
pub open spec fn request_line(path: Seq<char>) -> Seq<char> {
    "GET "@ + path + " HTTP/1.1\r\n"@
}

/// The line logged when a command starts.
pub open spec fn announcement_of(action: Action) -> Seq<char> {
    match action {
        Action::Load { path, name } => "Loading module from "@ + path@,
        Action::Unload { module_name } => "Unloading module "@ + module_name@,
        Action::List => "Loaded modules list:"@,
        Action::Call { module_name, function_name, param } => "Calling function "@ + function_name@
            + " in module "@ + module_name@ + " with param "@ + param@,
        Action::Request { url, port, path } => "\nSending request to "@ + url@ + ":"@ + port@
            + path@,
        Action::Exit => "Exiting"@,
    }
}

/// What follows a command's announcement, as a model: for a call, the
/// parameter is handed on in compact JSON form, or refused where it is no
/// JSON text.
pub open spec fn step_matches(action: Action, step: CliStep) -> bool {
    match action {
        Action::Load { path, name } => step matches CliStep::Load { path: p, name: n } && p@ == path@
            && n@ == name@,
        Action::Unload { module_name } => step matches CliStep::Unload { name } && name@
            == module_name@,
        Action::List => step is List,
        Action::Call { module_name, function_name, param } => match json_canonical_of(param@) {
            None => step is BadParam,
            Some(c) => step matches CliStep::Call { module, function, param: p } && module@
                == module_name@ && function@ == function_name@ && p@ == c,
        },
        Action::Request { url, port, path } => step matches CliStep::Request { address, message }
            && address@ == url@ + ":"@ + port@ && message@ == request_line(path@),
        Action::Exit => step is Exit,
    }
}

/// Whether `c` has Unicode's White_Space property (what `char::is_whitespace`
/// tests).
pub open spec fn is_white_space(c: char) -> bool {
    ||| '\t' <= c <= '\r'
    ||| c == ' '
    ||| c == '\u{85}'
    ||| c == '\u{a0}'
    ||| c == '\u{1680}'
    ||| '\u{2000}' <= c <= '\u{200a}'
    ||| c == '\u{2028}'
    ||| c == '\u{2029}'
    ||| c == '\u{202f}'
    ||| c == '\u{205f}'
    ||| c == '\u{3000}'
}

fn white_space(c: char) -> (r: bool)
    ensures
        r == is_white_space(c),
{
    ('\t' <= c && c <= '\r') || c == ' ' || c == '\u{85}' || c == '\u{a0}' || c == '\u{1680}' || (
    '\u{2000}' <= c && c <= '\u{200a}') || c == '\u{2028}' || c == '\u{2029}' || c == '\u{202f}'
        || c == '\u{205f}' || c == '\u{3000}'
}

/// The words of `text`: its longest runs of characters that are no white
/// space, in order.
pub open spec fn words(text: Seq<char>) -> Seq<Seq<char>>
    decreases text.len(),
{
    if text.len() == 0 {
        Seq::empty()
    } else {
        let c = text.last();
        let w = words(text.drop_last());
        if is_white_space(c) {
            w
        } else if text.len() >= 2 && !is_white_space(text[text.len() - 2]) {
            w.drop_last().push(w.last().push(c))
        } else {
            w.push(seq![c])
        }
    }
}

/// The characters that separate words are exactly those of Unicode's
/// White_Space property: U+0009 to U+000D, U+0020, U+0085, U+00A0, U+1680,
/// U+2000 to U+200A, U+2028, U+2029, U+202F, U+205F and U+3000.
pub proof fn law_white_space_is_unicode_white_space(c: char)
    ensures
        is_white_space(c) <==> {
            let v = c as u32;
            ||| 0x9 <= v <= 0xd
            ||| v == 0x20
            ||| v == 0x85
            ||| v == 0xa0
            ||| v == 0x1680
            ||| 0x2000 <= v <= 0x200a
            ||| v == 0x2028
            ||| v == 0x2029
            ||| v == 0x202f
            ||| v == 0x205f
            ||| v == 0x3000
        },
{
}

/// A text of a character or more with no white space in it is one word.
pub proof fn law_words_of_one_word(text: Seq<char>)
    requires
        text.len() > 0,
        forall|i: int| 0 <= i < text.len() ==> !is_white_space(#[trigger] text[i]),
    ensures
        words(text) == seq![text],
    decreases text.len(),
{
    if text.len() == 1 {
        assert(text.drop_last() =~= Seq::<char>::empty());
        assert(words(text.drop_last()) == Seq::<Seq<char>>::empty());
        assert(!is_white_space(text.last()));
        assert(seq![text.last()] =~= text);
        assert(Seq::<Seq<char>>::empty().push(seq![text.last()]) =~= seq![text]);
    } else {
        let d = text.drop_last();
        assert forall|i: int| 0 <= i < d.len() implies !is_white_space(#[trigger] d[i]) by {
            assert(d[i] == text[i]);
        }
        law_words_of_one_word(d);
        assert(!is_white_space(text[text.len() - 2]));
        assert(!is_white_space(text.last()));
        assert(d.push(text.last()) =~= text);
        assert(seq![d].drop_last().push(seq![d].last().push(text.last())) =~= seq![text]);
    }
}

/// A text that ends in a character that is no white space has a word.
proof fn lemma_words_nonempty(text: Seq<char>)
    requires
        text.len() > 0,
        !is_white_space(text.last()),
    ensures
        words(text).len() > 0,
    decreases text.len(),
{
    if text.len() >= 2 && !is_white_space(text[text.len() - 2]) {
        let d = text.drop_last();
        assert(d.last() == text[text.len() - 2]);
        lemma_words_nonempty(d);
    }
}

/// A white space character separates the words before it from those after
/// it: the words of `before`, `c` and `after` are the words of `before`
/// followed by those of `after`.
pub proof fn law_words_split_at_white_space(before: Seq<char>, c: char, after: Seq<char>)
    requires
        is_white_space(c),
    ensures
        words(before + seq![c] + after) == words(before) + words(after),
    decreases after.len(),
{
    let x = before + seq![c] + after;
    if after.len() == 0 {
        assert(x.drop_last() =~= before);
        assert(words(before) + words(after) =~= words(before));
    } else {
        let b2 = after.drop_last();
        law_words_split_at_white_space(before, c, b2);
        let l = after.last();
        assert(x.drop_last() =~= before + seq![c] + b2);
        assert(x.last() == l);
        let wa = words(before);
        let wb = words(b2);
        if is_white_space(l) {
        } else if after.len() >= 2 && !is_white_space(after[after.len() - 2]) {
            assert(x[x.len() - 2] == after[after.len() - 2]);
            assert(b2.last() == after[after.len() - 2]);
            lemma_words_nonempty(b2);
            assert((wa + wb).drop_last().push((wa + wb).last().push(l)) =~= wa + wb.drop_last().push(
                wb.last().push(l),
            ));
        } else {
            if after.len() == 1 {
                assert(x[x.len() - 2] == c);
            } else {
                assert(x[x.len() - 2] == after[after.len() - 2]);
            }
            assert((wa + wb).push(seq![l]) =~= wa + wb.push(seq![l]));
        }
    }
}

/// The arguments that the prompt hands its command parser for the line
/// `line`: an empty program name, then the words of the line.
pub fn command_words(line: &str) -> (r: Vec<String>)
    ensures
        lines_view(r@) == seq![Seq::<char>::empty()] + words(line@),
{
    let n = line.unicode_len();
    let mut done: Vec<String> = Vec::new();
    done.push(String::new());
    let mut cur = String::new();
    let mut in_word = false;
    let mut i: usize = 0;
    while i < n
        invariant
            n == line@.len(),
            i <= n,
            in_word == (i > 0 && !is_white_space(line@[i - 1])),
            !in_word ==> cur@ == Seq::<char>::empty(),
            lines_view(done@) + (if in_word { seq![cur@] } else { Seq::empty() }) == seq![
                Seq::<char>::empty(),
            ] + words(line@.take(i as int)),
        decreases n - i,
    {
        let c = line.get_char(i);
        let ghost t = line@.take(i + 1);
        let ghost w = words(line@.take(i as int));
        proof {
            assert(t.drop_last() =~= line@.take(i as int));
            assert(t.last() == c);
            if i > 0 {
                assert(t[t.len() - 2] == line@[i - 1]);
            }
        }
        let ghost old_done = lines_view(done@);
        let ghost old_cur = cur@;
        if white_space(c) {
            if in_word {
                done.push(cur);
                cur = String::new();
                proof {
                    assert(lines_view(done@) =~= old_done + seq![old_cur]);
                }
            }
            in_word = false;
            assert(words(t) == w);
        } else {
            push_char(&mut cur, c);
            if in_word {
                assert(words(t) == w.drop_last().push(w.last().push(c)));
                assert(old_done + seq![old_cur] == seq![Seq::<char>::empty()] + w);
                assert((old_done + seq![old_cur]).len() == old_done.len() + 1);
                assert(old_done.len() >= 1);
                assert(w.len() >= 1);
                assert((seq![Seq::<char>::empty()] + w).last() == w.last());
                assert((old_done + seq![old_cur]).last() == old_cur);
                assert(w.last() == old_cur);
                assert((old_done + seq![old_cur]).drop_last() =~= old_done);
                assert((seq![Seq::<char>::empty()] + w).drop_last() =~= seq![Seq::<char>::empty()]
                    + w.drop_last());
                assert(old_done == seq![Seq::<char>::empty()] + w.drop_last());
                assert(cur@ == old_cur.push(c));
                assert(lines_view(done@) == old_done);
                assert(lines_view(done@) + seq![cur@] =~= seq![Seq::<char>::empty()] + words(t));
            } else {
                assert(words(t) == w.push(seq![c]));
                assert(cur@ =~= seq![c]);
                assert(lines_view(done@) + seq![cur@] =~= seq![Seq::<char>::empty()] + words(t));
            }
            in_word = true;
        }
        i = i + 1;
    }
    proof {
        assert(line@.take(n as int) =~= line@);
    }
    if in_word {
        let ghost old_done = lines_view(done@);
        done.push(cur);
        assert(lines_view(done@) =~= old_done + seq![cur@]);
    } else {
        assert(lines_view(done@) =~= lines_view(done@) + Seq::<Seq<char>>::empty());
    }
    done
}

/// The line logged once a request has been sent.
pub fn request_sent() -> (r: String)
    ensures
        r@ == "Sending done\n"@,
{
    String::from_str("Sending done\n")
}

/// Decides what the prompt does for `action`.
pub fn cli_step(action: Action) -> (r: CliPlan)
    ensures
        r.announcement@ == announcement_of(action),
        step_matches(action, r.step),
{
    match action {
        Action::Load { path, name } => {
            let mut a = String::from_str("Loading module from ");
            a.append(path.as_str());
            CliPlan { announcement: a, step: CliStep::Load { path, name } }
        },
        Action::Unload { module_name } => {
            let mut a = String::from_str("Unloading module ");
            a.append(module_name.as_str());
            CliPlan { announcement: a, step: CliStep::Unload { name: module_name } }
        },
        Action::List => CliPlan {
            announcement: String::from_str("Loaded modules list:"),
            step: CliStep::List,
        },
        Action::Call { module_name, function_name, param } => {
            let mut a = String::from_str("Calling function ");
            a.append(function_name.as_str());
            a.append(" in module ");
            a.append(module_name.as_str());
            a.append(" with param ");
            a.append(param.as_str());
            let step = match json_canonical(param.as_str()) {
                None => CliStep::BadParam,
                Some(c) => CliStep::Call { module: module_name, function: function_name, param: c },
            };
            CliPlan { announcement: a, step }
        },
        Action::Request { url, port, path } => {
            let mut a = String::from_str("\nSending request to ");
            a.append(url.as_str());
            a.append(":");
            a.append(port.as_str());
            a.append(path.as_str());
            let mut address = url.clone();
            address.append(":");
            address.append(port.as_str());
            let mut message = String::from_str("GET ");
            message.append(path.as_str());
            message.append(" HTTP/1.1\r\n");
            CliPlan { announcement: a, step: CliStep::Request { address, message } }
        },
        Action::Exit => CliPlan { announcement: String::from_str("Exiting"), step: CliStep::Exit },
    }
}

/// A request that the prompt sends for `path` is answered by the module that
/// the server routes that path to: module_200 for "/", module_home for
/// "/home", module_404 for any other path. (A path holding a carriage return
/// could forge a different request line, and is left out.)
pub proof fn law_request_routing(path: Seq<char>)
    requires
        forall|i: int| 0 <= i < path.len() ==> path[i] != '\r',
    ensures
        route_of(encode_utf8(request_line(path))).0 == (if path == "/"@ {
            "module_200"@
        } else if path == "/home"@ {
            "module_home"@
        } else {
            "module_404"@
        }),
{
    broadcast use vstd::string::group_string_axioms;

    reveal_strlit("GET / HTTP/1.1\r\n");
    reveal_strlit("GET /home HTTP/1.1\r\n");
    reveal_strlit("GET ");
    reveal_strlit(" HTTP/1.1\r\n");
    reveal_strlit("/");
    reveal_strlit("/home");
    let x = request_line(path);
    let r = "GET / HTTP/1.1\r\n"@;
    let h = "GET /home HTTP/1.1\r\n"@;
    let n = path.len() as int;
    assert(x.len() == n + 15);
    assert(forall|i: int| 0 <= i < 4 ==> x[i] == "GET "@[i]);
    assert(forall|i: int| 0 <= i < n ==> x[4 + i] == path[i]);
    assert(forall|i: int| 0 <= i < 11 ==> x[4 + n + i] == " HTTP/1.1\r\n"@[i]);
    assert(is_ascii_chars(r));
    assert(is_ascii_chars(h));
    if has_prefix(encode_utf8(x), root_request_line()) {
        lemma_ascii_prefix(x, r);
        assert(x.subrange(0, 16)[4] == r[4]);
        if n >= 12 {
            assert(x.subrange(0, 16)[14] == r[14]);
            assert(x[14] == path[10]);
            assert(false);
        } else if n >= 2 {
            assert(x.subrange(0, 16)[4 + n] == r[4 + n]);
            assert(x[4 + n] == ' ');
            assert(false);
        } else {
            assert(n == 1);
            assert(path =~= "/"@);
        }
    } else if has_prefix(encode_utf8(x), home_request_line()) {
        lemma_ascii_prefix(x, h);
        if n >= 16 {
            assert(x.subrange(0, 20)[18] == h[18]);
            assert(x[18] == path[14]);
            assert(false);
        } else if n >= 6 {
            assert(x.subrange(0, 20)[4 + n] == h[4 + n]);
            assert(x[4 + n] == ' ');
            assert(false);
        } else if n <= 4 {
            assert(x.len() < 20);
            assert(false);
        } else {
            assert forall|i: int| 0 <= i < 5 implies path[i] == "/home"@[i] by {
                assert(x.subrange(0, 20)[4 + i] == h[4 + i]);
            }
            assert(path =~= "/home"@);
            assert(path != "/"@);
        }
    } else {
        if path == "/"@ {
            assert(x =~= r);
            assert(encode_utf8(x).subrange(0, encode_utf8(x).len() as int) =~= encode_utf8(x));
            assert(false);
        }
        if path == "/home"@ {
            assert(x =~= h);
            assert(encode_utf8(x).subrange(0, encode_utf8(x).len() as int) =~= encode_utf8(x));
            assert(false);
        }
    }
}

/// A call command hands on its module and function names unchanged and
/// its parameter in compact JSON form, and is refused where the parameter
/// is no JSON text; a request command connects to "url:port" and sends the
/// request line "GET path HTTP/1.1\r\n"; load and unload name their module
/// unchanged.
pub proof fn law_commands_pass_their_arguments(action: Action, step: CliStep)
    requires
        step_matches(action, step),
    ensures
        match action {
            Action::Call { module_name, function_name, param } => match json_canonical_of(param@) {
                Some(c) => step matches CliStep::Call { module, function, param: sent } && module@
                    == module_name@ && function@ == function_name@ && sent@ == c,
                None => step is BadParam,
            },
            _ => true,
        },
        action matches Action::Request { url, port, path } ==> (step matches CliStep::Request {
            address,
            message,
        } && address@ == url@ + ":"@ + port@ && message@ == "GET "@ + path@ + " HTTP/1.1\r\n"@),
        action matches Action::Load { path, name } ==> (step matches CliStep::Load { path: p, name: n }
            && p@ == path@ && n@ == name@),
        action matches Action::Unload { module_name } ==> (step matches CliStep::Unload { name }
            && name@ == module_name@),
        action is Exit ==> step is Exit,
        action is List ==> step is List,
{
}

} // verus!
