//! One process invocation: the argument vector for each mode, the
//! failure reasons, the exit outcome, and the exact sequence of envelopes
//! an invocation streams to its session.

use vstd::prelude::*;
use vstd::string::StringExecFns;
use crate::envelope::completion_envelope;
use crate::envelope::Envelope;
use crate::envelope::EnvelopeView;
use crate::envelope::wire_of;
use crate::request::Invocation;
use crate::request::Mode;
use crate::text::chars_to_string;
use crate::text::concat_reason;
use crate::text::dec_int;
use crate::text::push_dec_i64;
use crate::text::push_str_chars;

verus! {

/// How the external process ended: with an exit code, or killed by a
/// signal so that no code is available.
#[derive(PartialEq, Eq, Structural)]
pub enum ProcessExit {
    Code(i32),
    Signal,
}

/// The mode-specific argument prefix: nothing for a fresh start, the
/// continuation flag, or the resume flag with the prior session token.
pub open spec fn mode_prefix(mode: Mode) -> Seq<Seq<char>> {
    match mode {
        Mode::Start => seq![],
        Mode::Continue => seq!["-c"@],
        Mode::Resume { prior_session } => seq!["--resume"@, prior_session@],
    }
}

/// The full argument vector handed to the external process: the mode
/// prefix, then the shared flag set requesting structured streaming
/// output and unattended operation.
pub open spec fn invocation_args(inv: Invocation) -> Seq<Seq<char>> {
    mode_prefix(inv.mode) + seq![
        "-p"@,
        inv.prompt@,
        "--model"@,
        inv.model@,
        "--output-format"@,
        "stream-json"@,
        "--verbose"@,
        "--dangerously-skip-permissions"@,
    ]
}

/// Builds the argument vector for an invocation.
pub fn build_args(inv: &Invocation) -> (r: Vec<String>)
    ensures
        r.deep_view() == invocation_args(*inv),
{
    let mut r: Vec<String> = Vec::new();
    match &inv.mode {
        Mode::Start => {},
        Mode::Continue => {
            r.push(String::from_str("-c"));
        },
        Mode::Resume { prior_session } => {
            r.push(String::from_str("--resume"));
            r.push(prior_session.clone());
        },
    }
    r.push(String::from_str("-p"));
    r.push(inv.prompt.clone());
    r.push(String::from_str("--model"));
    r.push(inv.model.clone());
    r.push(String::from_str("--output-format"));
    r.push(String::from_str("stream-json"));
    r.push(String::from_str("--verbose"));
    r.push(String::from_str("--dangerously-skip-permissions"));
    proof {
        assert(r.deep_view() =~= invocation_args(*inv));
    }
    r
}

/// The status message announced when an invocation begins.
pub open spec fn start_message(mode: Mode) -> Seq<char> {
    match mode {
        Mode::Start => "Starting execution..."@,
        Mode::Continue => "Continuing session..."@,
        Mode::Resume { .. } => "Resuming session..."@,
    }
}

/// The start envelope for an invocation.
pub fn start_envelope(mode: &Mode) -> (r: Envelope)
    ensures
        r@ == (EnvelopeView::Start { message: start_message(*mode) }),
{
    match mode {
        Mode::Start => Envelope::Start { message: String::from_str("Starting execution...") },
        Mode::Continue => Envelope::Start {
            message: String::from_str("Continuing session..."),
        },
        Mode::Resume { .. } => Envelope::Start {
            message: String::from_str("Resuming session..."),
        },
    }
}

/// The output envelope for one line of the process's standard output.
pub fn output_envelope(line: String) -> (r: Envelope)
    ensures
        r@ == (EnvelopeView::Output { content: line@ }),
{
    Envelope::Output { content: line }
}

/// The failure reason when the external executable cannot be resolved;
/// no process is spawned in that case.
pub fn resolve_failure_reason(detail: &str) -> (r: String)
    ensures
        r@ == "Binary not found: "@ + detail@,
{
    concat_reason("Binary not found: ", detail)
}

/// The failure reason when the operating system refuses to start the
/// process.
pub fn spawn_failure_reason(detail: &str) -> (r: String)
    ensures
        r@ == "Failed to spawn process: "@ + detail@,
{
    concat_reason("Failed to spawn process: ", detail)
}

/// The failure reason when the process's output stream cannot be
/// acquired.
pub fn stdout_failure_reason() -> (r: String)
    ensures
        r@ == "Failed to get stdout"@,
{
    String::from_str("Failed to get stdout")
}

/// The failure reason when awaiting the process's termination fails.
pub fn wait_failure_reason(detail: &str) -> (r: String)
    ensures
        r@ == "Failed to wait for process: "@ + detail@,
{
    concat_reason("Failed to wait for process: ", detail)
}

/// The failure reason for an abnormal exit: the exit code when one is
/// available, otherwise a note that the process was terminated by a
/// signal.
pub open spec fn exit_failure_reason(exit: ProcessExit) -> Seq<char> {
    match exit {
        ProcessExit::Code(c) => "Execution failed with exit code: "@ + dec_int(c as int),
        ProcessExit::Signal => "Execution failed with exit code: unknown (terminated by signal)"@,
    }
}

/// Inspects the exit status: code zero is success, anything else is a
/// failure whose reason embeds the exit code when it is known.
pub fn exit_result(exit: ProcessExit) -> (r: Result<(), String>)
    ensures
        r is Ok <==> exit == ProcessExit::Code(0),
        match r {
            Ok(_) => true,
            Err(m) => m@ == exit_failure_reason(exit),
        },
    {
        match exit {
            ProcessExit::Code(c) => {
                if c == 0 {
                    Ok(())
                } else {
                    let mut out: Vec<char> = Vec::new();
                    push_str_chars(&mut out, "Execution failed with exit code: ");
                    push_dec_i64(&mut out, c as i64);
                    Err(chars_to_string(&out))
                }
            },
            ProcessExit::Signal => {
                Err(
                    String::from_str(
                        "Execution failed with exit code: unknown (terminated by signal)",
                    ),
                )
            },
        }
    }

/// The envelopes one invocation sends to its session, in order: the
/// start announcement, one output envelope per line the process wrote to
/// its standard output, and last the completion (with `None` for
/// success, or the failure reason). An invocation that fails before any
/// output has an empty `lines`.
pub open spec fn transcript(mode: Mode, lines: Seq<Seq<char>>, error: Option<Seq<char>>) -> Seq<
    EnvelopeView,
> {
    seq![EnvelopeView::Start { message: start_message(mode) }] + lines.map_values(
        |l: Seq<char>| EnvelopeView::Output { content: l },
    ) + seq![EnvelopeView::Completion { error }]
}

/// Law (faithful streaming): in an invocation's transcript the output
/// envelopes sit between the start announcement and the terminal
/// completion, and carry exactly the process's output lines, line for
/// line and in order; the completion is always the last envelope.
pub proof fn lemma_transcript_outputs(mode: Mode, lines: Seq<Seq<char>>, error: Option<Seq<char>>)
    ensures
        transcript(mode, lines, error).len() == lines.len() + 2,
        transcript(mode, lines, error)[0] is Start,
        transcript(mode, lines, error).last() == (EnvelopeView::Completion { error }),
        forall|i: int|
            0 <= i < lines.len() ==> transcript(mode, lines, error)[i + 1]
                == (EnvelopeView::Output { content: lines[i] }),
        forall|i: int|
            0 <= i < transcript(mode, lines, error).len() && transcript(mode, lines, error)[i]
                is Output ==> 1 <= i <= lines.len(),
{
}

/// The completion payload of an invocation outcome: `None` for success,
/// the failure reason otherwise.
pub open spec fn outcome_error(outcome: Result<(), String>) -> Option<Seq<char>> {
    match outcome {
        Ok(_) => None,
        Err(e) => Some(e@),
    }
}

/// Renders an invocation's full transcript as wire text: what the
/// session's channel receives when the process resolves, writes `lines`,
/// and ends with `outcome`.
pub fn invocation_transcript(mode: &Mode, lines: Vec<String>, outcome: Result<(), String>) -> (r:
    Vec<String>)
    ensures
        r.deep_view() == transcript(*mode, lines.deep_view(), outcome_error(outcome)).map_values(
            |e: EnvelopeView| wire_of(e),
        ),
{
    let ghost lines0 = lines.deep_view();
    let ghost ts = transcript(*mode, lines0, outcome_error(outcome));
    let ghost goal = ts.map_values(|e: EnvelopeView| wire_of(e));
    let mut r: Vec<String> = Vec::new();
    r.push(start_envelope(mode).encode());
    proof {
        assert(r.deep_view() =~= goal.subrange(0, 1));
    }
    let mut i: usize = 0;
    let lines = lines;
    while i < lines.len()
        invariant
            i <= lines@.len(),
            lines.deep_view() == lines0,
            r.deep_view() == goal.subrange(0, i as int + 1),
            goal == ts.map_values(|e: EnvelopeView| wire_of(e)),
            ts == transcript(*mode, lines0, outcome_error(outcome)),
            goal.len() == lines0.len() + 2,
        decreases lines@.len() - i,
    {
        let ghost rprev = r.deep_view();
        let line = lines[i].clone();
        r.push(output_envelope(line).encode());
        proof {
            assert(ts[i as int + 1] == (EnvelopeView::Output { content: lines0[i as int] }));
            assert(r.deep_view() =~= rprev.push(wire_of(ts[i as int + 1])));
            assert(r.deep_view() =~= goal.subrange(0, i as int + 2));
        }
        i = i + 1;
    }
    let ghost rprev = r.deep_view();
    let completion = completion_envelope(&outcome);
    r.push(completion.encode());
    proof {
        assert(ts[lines0.len() as int + 1] == (EnvelopeView::Completion {
            error: outcome_error(outcome),
        }));
        assert(r.deep_view() =~= rprev.push(wire_of(ts[lines0.len() as int + 1])));
        assert(r.deep_view() =~= goal);
    }
    r
}

} // verus!
