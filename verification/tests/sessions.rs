use opcode_web::channel::OutputChannel;
use opcode_web::dispatcher::{on_frame, FrameAction, InboundFrame};
use opcode_web::hub::{SendStatus, SessionHub};
use opcode_web::invoke::{invocation_transcript, ProcessExit};
use opcode_web::registry::SessionRegistry;
use opcode_web::request::Mode;
use opcode_web::invoke::exit_result;
use opcode_web::ApiResponse;
use opcode_web::QueryParams;

#[test]
fn registry_register_lookup_remove() {
    let mut reg: SessionRegistry<u32> = SessionRegistry::new();
    reg.register("a".to_string(), 1);
    reg.register("b".to_string(), 2);
    assert_eq!(reg.lookup(&"a".to_string()), Some(&1));
    assert_eq!(reg.lookup(&"b".to_string()), Some(&2));
    assert_eq!(reg.lookup(&"c".to_string()), None);
    reg.register("a".to_string(), 3);
    assert_eq!(reg.lookup(&"a".to_string()), Some(&3));
    reg.remove(&"a".to_string());
    assert_eq!(reg.lookup(&"a".to_string()), None);
    reg.remove(&"a".to_string());
    assert_eq!(reg.lookup(&"b".to_string()), Some(&2));
}

#[test]
fn channel_is_fifo_and_bounded() {
    let mut ch = OutputChannel::new(2);
    assert!(ch.try_send("one".to_string()));
    assert!(ch.try_send("two".to_string()));
    assert!(!ch.try_send("three".to_string()));
    assert_eq!(ch.recv().as_deref(), Some("one"));
    assert!(ch.try_send("four".to_string()));
    assert_eq!(ch.recv().as_deref(), Some("two"));
    assert_eq!(ch.recv().as_deref(), Some("four"));
    assert_eq!(ch.recv(), None);
}

#[test]
fn hub_connect_assigns_identifiers() {
    let mut hub = SessionHub::new(100);
    let a = hub.connect();
    let b = hub.connect();
    assert_eq!(a.chars().count(), 36);
    assert_eq!(b.chars().count(), 36);
    assert_ne!(a, b);
}

#[test]
fn completion_sent_only_while_registered() {
    let mut hub = SessionHub::new(100);
    let id = hub.connect();
    assert!(matches!(
        hub.report_completion(&id, Ok(())),
        SendStatus::Sent
    ));
    assert_eq!(
        hub.next_message(&id).unwrap(),
        r#"{"status":"success","type":"completion"}"#
    );

    hub.disconnect(&id);
    assert!(matches!(
        hub.report_completion(&id, Err("late".to_string())),
        SendStatus::NoSession
    ));
    assert_eq!(hub.next_message(&id), None);
}

#[test]
fn sessions_are_isolated() {
    let mut hub = SessionHub::new(100);
    let one = hub.connect();
    let two = hub.connect();
    assert!(matches!(
        hub.send_to_session(&one, "from-one".to_string()),
        SendStatus::Sent
    ));
    assert!(matches!(
        hub.send_to_session(&two, "from-two".to_string()),
        SendStatus::Sent
    ));
    assert!(matches!(
        hub.report_completion(&one, Ok(())),
        SendStatus::Sent
    ));
    assert_eq!(hub.next_message(&one).unwrap(), "from-one");
    assert_eq!(
        hub.next_message(&one).unwrap(),
        r#"{"status":"success","type":"completion"}"#
    );
    assert_eq!(hub.next_message(&one), None);
    assert_eq!(hub.next_message(&two).unwrap(), "from-two");
    assert_eq!(hub.next_message(&two), None);
}

#[test]
fn send_to_missing_session_drops_message() {
    let mut hub = SessionHub::new(100);
    assert!(matches!(
        hub.send_to_session(&"nobody".to_string(), "m".to_string()),
        SendStatus::NoSession
    ));
}

#[test]
fn malformed_frame_rejects_once_and_keeps_connection() {
    let action = on_frame(InboundFrame::Text("this is not a frame".to_string()));
    match action {
        FrameAction::Reject(e) => assert_eq!(
            e.encode(),
            r#"{"message":"Failed to parse request: invalid execution request","type":"error"}"#
        ),
        _ => panic!("malformed frame must yield exactly one error envelope"),
    }

    let next = on_frame(InboundFrame::Text(
        r#"{"command_type":"execute","project_path":"/p","prompt":"q"}"#.to_string(),
    ));
    assert!(matches!(next, FrameAction::Dispatch(_)));
}

#[test]
fn non_text_frames() {
    assert!(matches!(on_frame(InboundFrame::Binary), FrameAction::Ignore));
    assert!(matches!(on_frame(InboundFrame::Ping), FrameAction::Ignore));
    assert!(matches!(on_frame(InboundFrame::Close), FrameAction::End));
}

#[test]
fn unknown_command_draws_an_error_envelope() {
    let action = on_frame(InboundFrame::Text(
        r#"{"command_type":"restart","project_path":"/p","prompt":"q"}"#.to_string(),
    ));
    match action {
        FrameAction::Reject(e) => assert_eq!(
            e.encode(),
            r#"{"message":"Unknown command type","type":"error"}"#
        ),
        _ => panic!("an undispatchable command tag must yield an error envelope"),
    }
}

#[test]
fn completion_refused_while_channel_is_at_capacity() {
    let mut hub = SessionHub::new(1);
    let id = hub.connect();
    assert!(matches!(
        hub.send_to_session(&id, "pending".to_string()),
        SendStatus::Sent
    ));
    assert!(matches!(
        hub.report_completion(&id, Ok(())),
        SendStatus::Full
    ));
    assert_eq!(hub.next_message(&id).unwrap(), "pending");
    assert!(matches!(
        hub.report_completion(&id, Ok(())),
        SendStatus::Sent
    ));
    assert_eq!(
        hub.next_message(&id).unwrap(),
        r#"{"status":"success","type":"completion"}"#
    );
}

#[test]
fn rejected_dispatch_fails_without_spawning() {
    let action = on_frame(InboundFrame::Text(
        r#"{"command_type":"resume","project_path":"/p","prompt":"q","session_id":""}"#
            .to_string(),
    ));
    match action {
        FrameAction::Fail(m) => assert_eq!(m, "Resume requires a non-empty session_id"),
        _ => panic!("empty resume token must fail before any spawn"),
    }
}

#[test]
fn scenario_two_lines_then_success() {
    let envelopes = invocation_transcript(
        &Mode::Start,
        vec!["line1".to_string(), "line2".to_string()],
        Ok(()),
    );
    assert_eq!(
        envelopes,
        vec![
            r#"{"message":"Starting execution...","type":"start"}"#,
            r#"{"content":"line1","type":"output"}"#,
            r#"{"content":"line2","type":"output"}"#,
            r#"{"status":"success","type":"completion"}"#,
        ]
    );

    let mut hub = SessionHub::new(100);
    let id = hub.connect();
    for e in &envelopes {
        assert!(matches!(
            hub.send_to_session(&id, e.clone()),
            SendStatus::Sent
        ));
    }
    for e in &envelopes {
        assert_eq!(&hub.next_message(&id).unwrap(), e);
    }
    assert_eq!(hub.next_message(&id), None);
}

#[test]
fn scenario_exit_code_two_no_output() {
    let outcome = exit_result(ProcessExit::Code(2));
    let envelopes = invocation_transcript(&Mode::Start, vec![], outcome);
    assert_eq!(
        envelopes,
        vec![
            r#"{"message":"Starting execution...","type":"start"}"#,
            r#"{"error":"Execution failed with exit code: 2","status":"error","type":"completion"}"#,
        ]
    );
}

#[test]
fn api_response_wrappers() {
    let ok: ApiResponse<u32> = ApiResponse::success(7);
    assert!(ok.success);
    assert_eq!(ok.data, Some(7));
    assert!(ok.error.is_none());

    let failed: ApiResponse<u32> = ApiResponse::error("nope".to_string());
    assert!(!failed.success);
    assert!(failed.data.is_none());
    assert_eq!(failed.error.as_deref(), Some("nope"));

    let q = QueryParams { project_path: None };
    assert!(q.project_path.is_none());
}
