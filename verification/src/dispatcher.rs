//! The per-frame state machine of a connection: each inbound frame is
//! decoded and routed, and the connection loop acts on the returned
//! action. A malformed text frame yields exactly one error envelope and
//! never ends the loop; only a close frame does.

use vstd::prelude::*;
use crate::envelope::Envelope;
use crate::envelope::EnvelopeView;
use crate::json::decode_request;
use crate::json::parse_frame;
use crate::request::Invocation;
use crate::request::dispatch;
use crate::request::dispatch_rejects;
use crate::request::invocation_matches;
use crate::request::known_command;
use crate::request::rejection_reason;
use crate::text::string_is;
use vstd::string::StringExecFns;

verus! {

/// One frame received from the client connection.
pub enum InboundFrame {
    /// A text frame carrying one request.
    Text(String),
    /// A binary frame; ignored.
    Binary,
    /// A ping or pong frame; ignored.
    Ping,
    /// The client closed the connection.
    Close,
}

/// What the connection loop must do with the frame it received.
pub enum FrameAction {
    /// Start this invocation as an independent unit of work; the loop
    /// itself returns to waiting at once.
    Dispatch(Invocation),
    /// Send this one envelope back on the session's channel and keep the
    /// connection open.
    Reject(Envelope),
    /// Report the invocation as failed with this reason, without
    /// spawning any process.
    Fail(String),
    /// Do nothing.
    Ignore,
    /// Leave the receive loop and tear the session down.
    End,
}

/// Decides what one inbound frame means. A text frame that cannot be
/// parsed, or whose command tag names no invocation mode, yields exactly
/// one error envelope (`Reject`) and keeps the connection open — a
/// request that cannot be parsed or dispatched is answered with an
/// `error` envelope. A dispatchable request is started; resume without a
/// prior-session token is an invocation failure, reported through the
/// completion path without any spawn. Binary and ping frames are
/// ignored; only a close frame ends the loop.
pub fn on_frame(frame: InboundFrame) -> (r: FrameAction)
    ensures
        match frame {
            InboundFrame::Text(t) => match parse_frame(t@) {
                None => r matches FrameAction::Reject(e) && e@ == (EnvelopeView::Error {
                    message: "Failed to parse request: invalid execution request"@,
                }),
                Some(rv) => {
                    if !known_command(rv.command_type) {
                        r matches FrameAction::Reject(e) && e@ == (EnvelopeView::Error {
                            message: "Unknown command type"@,
                        })
                    } else if dispatch_rejects(rv) {
                        r matches FrameAction::Fail(m) && m@ == rejection_reason(rv)
                    } else {
                        r matches FrameAction::Dispatch(inv) && invocation_matches(inv, rv)
                    }
                },
            },
            InboundFrame::Binary => r is Ignore,
            InboundFrame::Ping => r is Ignore,
            InboundFrame::Close => r is End,
        },
{
    match frame {
        InboundFrame::Text(t) => match decode_request(t.as_str()) {
            Ok(req) => {
                let known = string_is(&req.command_type, "execute") || string_is(
                    &req.command_type,
                    "continue",
                ) || string_is(&req.command_type, "resume");
                if !known {
                    FrameAction::Reject(
                        Envelope::Error { message: String::from_str("Unknown command type") },
                    )
                } else {
                    match dispatch(req) {
                        Ok(inv) => FrameAction::Dispatch(inv),
                        Err(m) => FrameAction::Fail(m),
                    }
                }
            },
            Err(m) => FrameAction::Reject(Envelope::Error { message: m }),
        },
        InboundFrame::Binary => FrameAction::Ignore,
        InboundFrame::Ping => FrameAction::Ignore,
        InboundFrame::Close => FrameAction::End,
    }
}

} // verus!
