//! The table of loaded modules: loading under a name (which replaces what
//! was loaded under it before), unloading, listing, and calling a function
//! of a loaded module.
use vstd::prelude::*;
use vstd::string::*;

use crate::json::{json_canonical, json_canonical_of};
use crate::registry::Registry;

verus! {

/// A loaded module, as the host calls it: its exported `proxy` function
/// takes the name of one of the module's functions and a JSON parameter
/// text, and answers a text, or fails (a trap). Each module implements it
/// in its own way; `answers` is how an implementation describes its calls.
pub trait ModuleProxy: Sized {
    /// Whether a call of `proxy` with `fname` and `param` on the module
    /// `before` can leave the module as `after` with `outcome`.
    spec fn answers(self, fname: &str, param: &str, after: Self, outcome: Result<String, String>) -> bool;

    fn proxy(&mut self, fname: &str, param: &str) -> (outcome: Result<String, String>)
        ensures
            Self::answers(*old(self), fname, param, *final(self), outcome),
    ;
}

/// Why a call into a module gave no answer.
pub enum CallError {
    /// No module is loaded under the name.
    NotFound,
    /// The parameter of the call is no JSON text.
    BadParam,
    /// The module failed while running; the text says how.
    Trapped(String),
    /// The module answered with a text that is no JSON value.
    BadReply(String),
}

impl CallError {
    /// The text that stands for the error.
    pub fn message(&self) -> (r: String)
        ensures
            self is NotFound ==> r@ == "module or function not found"@,
            self is BadParam ==> r@ == "the parameter of the call is no JSON text"@,
            self matches CallError::Trapped(e) ==> r@ == e@,
            self matches CallError::BadReply(t) ==> r@ == t@,
    {
        match self {
            CallError::NotFound => String::from_str("module or function not found"),
            CallError::BadParam => String::from_str("the parameter of the call is no JSON text"),
            CallError::Trapped(e) => e.clone(),
            CallError::BadReply(t) => t.clone(),
        }
    }
}

/// The table after an attempt to load a module under `name`: a module
/// that could be instantiated is registered under `name`, replacing any
/// module loaded there before; a failed attempt changes nothing.
pub open spec fn table_after_load<M>(
    table: Map<Seq<char>, M>,
    name: Seq<char>,
    loaded: Result<M, String>,
) -> Map<Seq<char>, M> {
    match loaded {
        Ok(m) => table.insert(name, m),
        Err(_) => table,
    }
}

/// The table after unloading `name`.
pub open spec fn table_after_unload<M>(table: Map<Seq<char>, M>, name: Seq<char>) -> Map<
    Seq<char>,
    M,
> {
    table.remove(name)
}

/// What is reported of an attempt to load the module file `path` as `name`.
pub open spec fn load_report<M>(path: Seq<char>, name: Seq<char>, loaded: Result<M, String>) -> Seq<
    char,
> {
    match loaded {
        Ok(_) => "load module "@ + path + " success, and registry as "@ + name,
        Err(e) => "load module "@ + path + " failed, "@ + e@,
    }
}

/// What is reported of unloading `name` from `table`.
pub open spec fn unload_report<M>(table: Map<Seq<char>, M>, name: Seq<char>) -> Seq<char> {
    if table.contains_key(name) {
        "unload module "@ + name + " success"@
    } else {
        "unload module "@ + name + " failed, module has not been loaded"@
    }
}

/// Registers the outcome of loading the module file `path` under `name`
/// and reports it. The module itself is read and instantiated by the
/// caller, which hands over the module or the reason it failed.
pub fn load_module_by_path<M>(
    modules: &mut Registry<M>,
    path: &str,
    name: &str,
    loaded: Result<M, String>,
) -> (report: String)
    requires
        old(modules).wf(),
    ensures
        final(modules).wf(),
        final(modules)@ == table_after_load(old(modules)@, name@, loaded),
        report@ == load_report(path@, name@, loaded),
{
    let mut report = String::from_str("load module ");
    report.append(path);
    match loaded {
        Ok(m) => {
            modules.insert(name.to_owned(), m);
            report.append(" success, and registry as ");
            report.append(name);
        },
        Err(e) => {
            report.append(" failed, ");
            report.append(e.as_str());
        },
    }
    report
}

/// Unloads the module registered under `module_name`, and reports whether
/// there was one.
pub fn unload_module_by_name<M>(modules: &mut Registry<M>, module_name: &str) -> (report: String)
    requires
        old(modules).wf(),
    ensures
        final(modules).wf(),
        final(modules)@ == table_after_unload(old(modules)@, module_name@),
        report@ == unload_report(old(modules)@, module_name@),
{
    let mut report = String::from_str("unload module ");
    report.append(module_name);
    match modules.remove(module_name) {
        Some(_) => report.append(" success"),
        None => report.append(" failed, module has not been loaded"),
    }
    report
}

/// The names of the loaded modules, each once, one line each.
pub fn show_module_list<M>(modules: &Registry<M>) -> (names: Vec<String>)
    requires
        modules.wf(),
    ensures
        names@.len() == modules@.len(),
        forall|i: int| 0 <= i < names@.len() ==> modules@.contains_key(#[trigger] names@[i]@),
        forall|k: Seq<char>|
            #[trigger] modules@.contains_key(k) ==> exists|i: int|
                0 <= i < names@.len() && #[trigger] names@[i]@ == k,
        forall|i: int, j: int|
            0 <= i < names@.len() && 0 <= j < names@.len() && i != j ==> #[trigger] names@[i]@
                != #[trigger] names@[j]@,
{
    modules.keys()
}

/// Takes the module registered under `mname` out of the table, to be
/// called; `NotFound` where there is none.
pub fn begin_call<M>(modules: &mut Registry<M>, mname: &str) -> (r: Result<M, CallError>)
    requires
        old(modules).wf(),
    ensures
        final(modules).wf(),
        final(modules)@ == old(modules)@.remove(mname@),
        match r {
            Ok(m) => old(modules)@.contains_key(mname@) && m == old(modules)@[mname@],
            Err(e) => e is NotFound && !old(modules)@.contains_key(mname@),
        },
{
    match modules.remove(mname) {
        Some(m) => Ok(m),
        None => Err(CallError::NotFound),
    }
}

/// Whether `r` is what a call answers, given what the module's `proxy`
/// gave: a trap, or a reply that is no JSON value, is an error; a JSON reply
/// is answered in compact form.
pub open spec fn answer_follows(outcome: Result<String, String>, r: Result<String, CallError>) -> bool {
    match outcome {
        Err(e) => r matches Err(CallError::Trapped(t)) && t@ == e@,
        Ok(t) => match json_canonical_of(t@) {
            Some(c) => r matches Ok(s) && s@ == c,
            None => r matches Err(CallError::BadReply(b)) && b@ == t@,
        },
    }
}

/// Puts the called module back under `mname` and reads its reply.
pub fn finish_call<M>(
    modules: &mut Registry<M>,
    mname: &str,
    module: M,
    outcome: Result<String, String>,
) -> (r: Result<String, CallError>)
    requires
        old(modules).wf(),
    ensures
        final(modules).wf(),
        final(modules)@ == old(modules)@.insert(mname@, module),
        answer_follows(outcome, r),
{
    modules.insert(mname.to_owned(), module);
    match outcome {
        Err(e) => Err(CallError::Trapped(e)),
        Ok(t) => match json_canonical(t.as_str()) {
            Some(c) => Ok(c),
            None => Err(CallError::BadReply(t)),
        },
    }
}

/// Calls the function `fname` of the module loaded as `mname` with the
/// JSON parameter `param`, handed to the module in compact form, and
/// answers the module's reply in compact JSON form. The module called is the
/// one registered under `mname`, and it stays registered there as the call
/// left it; which modules are loaded does not change, nor does any other
/// module. A parameter that is no JSON text is refused before any call.
pub fn call_module_func<M: ModuleProxy>(
    modules: &mut Registry<M>,
    mname: &str,
    fname: &str,
    param: &str,
) -> (r: Result<String, CallError>)
    requires
        old(modules).wf(),
    ensures
        final(modules).wf(),
        final(modules)@.dom() == old(modules)@.dom(),
        forall|k: Seq<char>| k != mname@ && #[trigger] old(modules)@.contains_key(k) ==> final(modules)@[k] == old(modules)@[k],
        !old(modules)@.contains_key(mname@) ==> (r matches Err(e) && e is NotFound)
            && final(modules)@ == old(modules)@,
        old(modules)@.contains_key(mname@) && json_canonical_of(param@) is None ==> (r matches Err(
            e,
        ) && e is BadParam) && final(modules)@ == old(modules)@,
        old(modules)@.contains_key(mname@) && json_canonical_of(param@) is Some ==> exists|
            sent: &str,
            after: M,
            outcome: Result<String, String>,
        |
            #[trigger] M::answers(old(modules)@[mname@], fname, sent, after, outcome) && Some(sent@)
                == json_canonical_of(param@) && final(modules)@ == old(modules)@.insert(
                mname@,
                after,
            ) && answer_follows(outcome, r),
{
    if !modules.contains_key(mname) {
        return Err(CallError::NotFound);
    }
    let sent = match json_canonical(param) {
        None => {
            return Err(CallError::BadParam);
        },
        Some(c) => c,
    };
    match begin_call(modules, mname) {
        Err(e) => Err(e),
        Ok(mut m) => {
            let ghost before = m;
            let sent_text: &str = sent.as_str();
            let outcome = m.proxy(fname, sent_text);
            let ghost after = m;
            let ghost out = outcome;
            let r = finish_call(modules, mname, m, outcome);
            proof {
                assert(modules@.dom() =~= old(modules)@.dom());
                assert(old(modules)@.remove(mname@).insert(mname@, after) =~= old(modules)@.insert(
                    mname@,
                    after,
                ));
                assert(M::answers(before, fname, sent_text, after, out));
            }
            r
        },
    }
}

/// Loading a module under a name that is in use replaces the module loaded
/// there: only the module loaded last is reached under that name, as if the
/// earlier one had never been loaded (hot update). `call_module_func` calls
/// the module that the table holds under the name.
pub proof fn law_reload_replaces<M>(table: Map<Seq<char>, M>, name: Seq<char>, first: M, second: M)
    ensures
        table_after_load(table_after_load(table, name, Ok(first)), name, Ok(second))
            == table_after_load(table, name, Ok(second)),
        table_after_load(table_after_load(table, name, Ok(first)), name, Ok(second))[name] == second,
{
    assert(table.insert(name, first).insert(name, second) =~= table.insert(name, second));
}

/// A load that fails leaves the table as it was, whatever was loaded under
/// the name before.
pub proof fn law_failed_load_keeps<M>(table: Map<Seq<char>, M>, name: Seq<char>, reason: String)
    ensures
        table_after_load(table, name, Err(reason)) == table,
{
}

/// Loading or unloading one name leaves every other name as it was.
pub proof fn law_other_names_untouched<M>(
    table: Map<Seq<char>, M>,
    name: Seq<char>,
    other: Seq<char>,
    loaded: Result<M, String>,
)
    requires
        other != name,
    ensures
        table_after_load(table, name, loaded).contains_key(other) == table.contains_key(other),
        table.contains_key(other) ==> table_after_load(table, name, loaded)[other] == table[other],
        table_after_unload(table, name).contains_key(other) == table.contains_key(other),
        table.contains_key(other) ==> table_after_unload(table, name)[other] == table[other],
{
}

/// After unloading a name, nothing is loaded under it, so a call of it is
/// answered "module or function not found" (see `call_module_func`); and
/// unloading undoes a load of a name that was free.
pub proof fn law_unload_forgets<M>(table: Map<Seq<char>, M>, name: Seq<char>, module: M)
    ensures
        !table_after_unload(table, name).contains_key(name),
        table_after_unload(table_after_load(table, name, Ok(module)), name) == table_after_unload(
            table,
            name,
        ),
        !table.contains_key(name) ==> table_after_unload(
            table_after_load(table, name, Ok(module)),
            name,
        ) == table,
{
    assert(table.insert(name, module).remove(name) =~= table.remove(name));
    if !table.contains_key(name) {
        assert(table.remove(name) =~= table);
    }
}

/// Unloading reports success exactly for a loaded name, and a second
/// unload of the same name reports that nothing is loaded under it.
pub proof fn law_unload_twice<M>(table: Map<Seq<char>, M>, name: Seq<char>)
    ensures
        unload_report(table_after_unload(table, name), name) == "unload module "@ + name
            + " failed, module has not been loaded"@,
        table_after_unload(table_after_unload(table, name), name) == table_after_unload(table, name),
{
    assert(table.remove(name).remove(name) =~= table.remove(name));
}

/// What a call answers, given what the module's `proxy` gave (see
/// `finish_call` and `call_module_func`): a JSON reply of any length is
/// answered in compact form; a reply is refused as no JSON only where it
/// does not parse; a trap is passed on with its text; nothing else comes of
/// the module's answer.
pub proof fn law_call_answers_the_reply(outcome: Result<String, String>, r: Result<String, CallError>)
    requires
        answer_follows(outcome, r),
    ensures
        match outcome {
            Ok(t) => json_canonical_of(t@) is Some ==> (r matches Ok(s) && Some(s@)
                == json_canonical_of(t@)),
            Err(_) => true,
        },
        r matches Ok(s) ==> (outcome matches Ok(t) && json_canonical_of(t@) == Some(s@)),
        r matches Err(CallError::BadReply(b)) ==> (outcome matches Ok(t)
            && json_canonical_of(t@) is None && b@ == t@),
        r matches Err(CallError::Trapped(e)) ==> (outcome matches Err(x) && e@ == x@),
        outcome is Err ==> (r matches Err(CallError::Trapped(_))),
        !(r matches Err(CallError::NotFound)) && !(r matches Err(CallError::BadParam)),
{
}

/// The reports of loading and unloading name the file and the module, and
/// say whether it went well: loading P as N reports "load module P success,
/// and registry as N" or "load module P failed, " and the reason; unloading N
/// reports "unload module N success" exactly where N was loaded.
pub proof fn law_reports<M>(
    table: Map<Seq<char>, M>,
    path: Seq<char>,
    name: Seq<char>,
    module: M,
    reason: String,
)
    ensures
        load_report(path, name, Ok::<M, String>(module)) == "load module "@ + path
            + " success, and registry as "@ + name,
        load_report(path, name, Err::<M, String>(reason)) == "load module "@ + path + " failed, "@
            + reason@,
        table.contains_key(name) ==> unload_report(table, name) == "unload module "@ + name
            + " success"@,
        !table.contains_key(name) ==> unload_report(table, name) == "unload module "@ + name
            + " failed, module has not been loaded"@,
{
}

} // verus!
