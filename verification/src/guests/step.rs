//! What a module does for one call of its `proxy` export.
use vstd::prelude::*;

use crate::text::lines_view;

verus! {

/// Where a module goes on once the host has answered its request.
#[derive(PartialEq, Eq, Structural, Clone, Copy, Debug)]
pub enum Pending {
    /// module_A's modulef1, which answers "modulef1" whatever the host said.
    ModuleF1,
    /// module_home's response, which wraps the page the host read into an
    /// HTTP response.
    HomeResponse,
}

/// Why a module cannot answer (the module panics there).
#[derive(PartialEq, Eq, Structural, Clone, Copy, Debug)]
pub enum GuestFault {
    /// The parameter is no JSON text.
    BadParam,
    /// A member that the module reads holds no string.
    MissingField,
}

/// What a module does next.
pub enum GuestStep {
    /// Print `lines`, then answer `reply`.
    Reply { lines: Vec<String>, reply: String },
    /// Print `lines`, call the host's `proxy` import with `function` and
    /// `param`, then go on with `pending` and the host's answer.
    CallHost { lines: Vec<String>, function: String, param: String, pending: Pending },
    /// Print `lines`, then fail: the module cannot answer.
    Fault { lines: Vec<String>, fault: GuestFault },
}

/// The model of a `GuestStep`.
pub enum GuestOutcome {
    Reply { lines: Seq<Seq<char>>, reply: Seq<char> },
    CallHost { lines: Seq<Seq<char>>, function: Seq<char>, param: Seq<char>, pending: Pending },
    Fault { lines: Seq<Seq<char>>, fault: GuestFault },
}

impl View for GuestStep {
    type V = GuestOutcome;

    open spec fn view(&self) -> GuestOutcome {
        match self {
            GuestStep::Reply { lines, reply } => GuestOutcome::Reply {
                lines: lines_view(lines@),
                reply: reply@,
            },
            GuestStep::CallHost { lines, function, param, pending } => GuestOutcome::CallHost {
                lines: lines_view(lines@),
                function: function@,
                param: param@,
                pending: *pending,
            },
            GuestStep::Fault { lines, fault } => GuestOutcome::Fault {
                lines: lines_view(lines@),
                fault: *fault,
            },
        }
    }
}

} // verus!
