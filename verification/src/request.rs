//! Inbound execution requests and their dispatch to one of the three
//! process-invocation modes.

use vstd::prelude::*;
use vstd::string::StringExecFns;
use crate::text::string_is;

verus! {

/// A decoded client message asking for one external process invocation.
pub struct ExecutionRequest {
    pub project_path: String,
    pub prompt: String,
    pub model: Option<String>,
    pub session_id: Option<String>,
    pub command_type: String,
}

/// The decoded shape of a whole execution-request frame.
pub struct RequestView {
    pub project_path: Seq<char>,
    pub prompt: Seq<char>,
    pub model: Option<Seq<char>>,
    pub session_id: Option<Seq<char>>,
    pub command_type: Seq<char>,
}

impl View for ExecutionRequest {
    type V = RequestView;

    open spec fn view(&self) -> RequestView {
        RequestView {
            project_path: self.project_path@,
            prompt: self.prompt@,
            model: match self.model {
                Some(m) => Some(m@),
                None => None,
            },
            session_id: match self.session_id {
                Some(s) => Some(s@),
                None => None,
            },
            command_type: self.command_type@,
        }
    }
}

/// Which argument shape the invocation uses. `Resume` carries the prior
/// session token the external process continues from.
pub enum Mode {
    Start,
    Continue,
    Resume { prior_session: String },
}

/// Everything a process invocation needs: the mode, the working
/// directory, the prompt, and the model identifier (empty string means
/// "use the external default").
pub struct Invocation {
    pub mode: Mode,
    pub project_path: String,
    pub prompt: String,
    pub model: String,
}

/// An optional field's characters, with the empty sentinel for absence.
pub open spec fn opt_or_empty(o: Option<Seq<char>>) -> Seq<char> {
    match o {
        Some(s) => s,
        None => Seq::empty(),
    }
}

/// Whether the command tag names one of the three invocation modes.
pub open spec fn known_command(ct: Seq<char>) -> bool {
    ct == "execute"@ || ct == "continue"@ || ct == "resume"@
}

/// Whether the dispatcher refuses the request: an unknown command tag, or
/// resume without a non-empty prior-session token.
pub open spec fn dispatch_rejects(rv: RequestView) -> bool {
    !known_command(rv.command_type) || (rv.command_type == "resume"@ && opt_or_empty(
        rv.session_id,
    ).len() == 0)
}

/// What an accepted request's invocation holds: the request's working
/// directory and prompt, the model with the empty sentinel for absence,
/// and the mode its command tag names.
pub open spec fn invocation_matches(inv: Invocation, rv: RequestView) -> bool {
    &&& inv.project_path@ == rv.project_path
    &&& inv.prompt@ == rv.prompt
    &&& inv.model@ == opt_or_empty(rv.model)
    &&& (rv.command_type == "execute"@ ==> inv.mode is Start)
    &&& (rv.command_type == "continue"@ ==> inv.mode is Continue)
    &&& (rv.command_type == "resume"@ ==> (inv.mode matches Mode::Resume { prior_session }
        && prior_session@ == opt_or_empty(rv.session_id) && prior_session@.len() > 0))
}

/// The reason dispatch gives for a refused request.
pub open spec fn rejection_reason(rv: RequestView) -> Seq<char> {
    if !known_command(rv.command_type) {
        "Unknown command type"@
    } else {
        "Resume requires a non-empty session_id"@
    }
}

/// Routes a decoded request to an invocation, by its command tag.
///
/// Resume with an empty (or absent) prior-session token is rejected here,
/// before any process could be spawned; the reason is reported as the
/// invocation's failure. An unknown command tag is rejected with its own
/// reason too — the connection's dispatcher answers that case with an
/// `error` envelope before anything reaches this function.
pub fn dispatch(req: ExecutionRequest) -> (r: Result<Invocation, String>)
    ensures
        r is Ok <==> !dispatch_rejects(req@),
        match r {
            Ok(inv) => invocation_matches(inv, req@),
            Err(m) => m@ == rejection_reason(req@),
        },
    {
        proof {
            reveal_strlit("execute");
            reveal_strlit("continue");
            reveal_strlit("resume");
            assert("execute"@.len() == 7 && "continue"@.len() == 8 && "resume"@.len() == 6);
            assert("execute"@ != "continue"@ && "execute"@ != "resume"@ && "continue"@
                != "resume"@);
        }
        let model = match req.model {
            Some(m) => m,
            None => String::new(),
        };
        if string_is(&req.command_type, "execute") {
            Ok(
                Invocation {
                    mode: Mode::Start,
                    project_path: req.project_path,
                    prompt: req.prompt,
                    model,
                },
            )
        } else if string_is(&req.command_type, "continue") {
            Ok(
                Invocation {
                    mode: Mode::Continue,
                    project_path: req.project_path,
                    prompt: req.prompt,
                    model,
                },
            )
        } else if string_is(&req.command_type, "resume") {
            let token = match req.session_id {
                Some(s) => s,
                None => String::new(),
            };
            if token.as_str().is_empty() {
                Err(String::from_str("Resume requires a non-empty session_id"))
            } else {
                Ok(
                    Invocation {
                        mode: Mode::Resume { prior_session: token },
                        project_path: req.project_path,
                        prompt: req.prompt,
                        model,
                    },
                )
            }
        } else {
            Err(String::from_str("Unknown command type"))
        }
    }

} // verus!
