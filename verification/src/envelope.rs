//! Outbound envelopes: the tagged messages streamed to the client, and
//! their exact wire text — a JSON object whose keys appear in sorted
//! order, the `type` discriminator therefore last.

use vstd::prelude::*;
use crate::escape::escape_chars;
use crate::escape::push_escaped;
use crate::text::chars_to_string;
use crate::text::push_str_chars;

verus! {

/// One outbound message unit for a session.
pub enum Envelope {
    /// Human-readable status sent when an invocation begins.
    Start { message: String },
    /// One raw line of the external process's standard output.
    Output { content: String },
    /// The terminal message of an invocation: success, or a failure reason.
    Completion { error: Option<String> },
    /// A request could not be decoded or dispatched.
    Error { message: String },
}

/// The mathematical shape of an envelope: each payload as a character
/// sequence.
pub enum EnvelopeView {
    Start { message: Seq<char> },
    Output { content: Seq<char> },
    Completion { error: Option<Seq<char>> },
    Error { message: Seq<char> },
}

impl View for Envelope {
    type V = EnvelopeView;

    open spec fn view(&self) -> EnvelopeView {
        match self {
            Envelope::Start { message } => EnvelopeView::Start { message: message@ },
            Envelope::Output { content } => EnvelopeView::Output { content: content@ },
            Envelope::Completion { error: None } => EnvelopeView::Completion { error: None },
            Envelope::Completion { error: Some(reason) } => EnvelopeView::Completion {
                error: Some(reason@),
            },
            Envelope::Error { message } => EnvelopeView::Error { message: message@ },
        }
    }
}

/// The exact wire text of an envelope.
pub open spec fn wire_of(e: EnvelopeView) -> Seq<char> {
    match e {
        EnvelopeView::Start { message } => "{\"message\":\""@ + escape_chars(message)
            + "\",\"type\":\"start\"}"@,
        EnvelopeView::Output { content } => "{\"content\":\""@ + escape_chars(content)
            + "\",\"type\":\"output\"}"@,
        EnvelopeView::Completion { error: None } => "{\"status\":\"success\",\"type\":\"completion\"}"@,
        EnvelopeView::Completion { error: Some(reason) } => "{\"error\":\""@ + escape_chars(reason)
            + "\",\"status\":\"error\",\"type\":\"completion\"}"@,
        EnvelopeView::Error { message } => "{\"message\":\""@ + escape_chars(message)
            + "\",\"type\":\"error\"}"@,
    }
}

/// The exact wire text of an envelope value.
pub open spec fn envelope_wire(e: Envelope) -> Seq<char> {
    wire_of(e@)
}

/// The completion envelope for an invocation result.
pub open spec fn completion_of(result: Result<(), String>) -> Envelope {
    match result {
        Ok(_) => Envelope::Completion { error: None },
        Err(e) => Envelope::Completion { error: Some(e) },
    }
}

/// Builds the terminal envelope for an invocation result: plain success,
/// or failure carrying the reason.
pub fn completion_envelope(result: &Result<(), String>) -> (r: Envelope)
    ensures
        r == completion_of(*result),
{
    match result {
        Ok(_) => Envelope::Completion { error: None },
        Err(e) => Envelope::Completion { error: Some(e.clone()) },
    }
}

impl Envelope {
    /// Renders the envelope as its wire text.
    pub fn encode(&self) -> (r: String)
        ensures
            r@ == envelope_wire(*self),
    {
        let mut out: Vec<char> = Vec::new();
        match self {
            Envelope::Start { message } => {
                push_str_chars(&mut out, "{\"message\":\"");
                push_escaped(&mut out, message.as_str());
                push_str_chars(&mut out, "\",\"type\":\"start\"}");
            },
            Envelope::Output { content } => {
                push_str_chars(&mut out, "{\"content\":\"");
                push_escaped(&mut out, content.as_str());
                push_str_chars(&mut out, "\",\"type\":\"output\"}");
            },
            Envelope::Completion { error: None } => {
                push_str_chars(&mut out, "{\"status\":\"success\",\"type\":\"completion\"}");
            },
            Envelope::Completion { error: Some(reason) } => {
                push_str_chars(&mut out, "{\"error\":\"");
                push_escaped(&mut out, reason.as_str());
                push_str_chars(&mut out, "\",\"status\":\"error\",\"type\":\"completion\"}");
            },
            Envelope::Error { message } => {
                push_str_chars(&mut out, "{\"message\":\"");
                push_escaped(&mut out, message.as_str());
                push_str_chars(&mut out, "\",\"type\":\"error\"}");
            },
        }
        chars_to_string(&out)
    }
}

} // verus!
