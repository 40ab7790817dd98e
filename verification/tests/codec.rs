use opcode_web::envelope::Envelope;
use opcode_web::invoke::{
    build_args, exit_result, resolve_failure_reason, spawn_failure_reason, start_envelope,
    stdout_failure_reason, wait_failure_reason, ProcessExit,
};
use opcode_web::json::decode_request;
use opcode_web::request::{dispatch, Mode};

#[test]
fn decode_execute_request() {
    let text = r#"{"command_type":"execute","project_path":"/tmp/proj","prompt":"hi","model":"m1"}"#;
    let req = decode_request(text).expect("well-formed frame");
    assert_eq!(req.command_type, "execute");
    assert_eq!(req.project_path, "/tmp/proj");
    assert_eq!(req.prompt, "hi");
    assert_eq!(req.model.as_deref(), Some("m1"));
    assert!(req.session_id.is_none());
}

#[test]
fn decode_tolerates_whitespace_and_unknown_fields() {
    let text = "  {\n  \"command_type\" : \"continue\" ,\n  \"project_path\": \"/p\",\n  \"prompt\": \"q\",\n  \"extra\": 12.5e3 ,\n  \"flag\": true ,\n  \"nothing\": null\n}  ";
    let req = decode_request(text).expect("well-formed frame");
    assert_eq!(req.command_type, "continue");
    assert_eq!(req.project_path, "/p");
    assert_eq!(req.prompt, "q");
    assert!(req.model.is_none());
}

#[test]
fn decode_null_model_is_absent() {
    let text = r#"{"command_type":"execute","project_path":"/p","prompt":"q","model":null}"#;
    let req = decode_request(text).expect("well-formed frame");
    assert!(req.model.is_none());
}

#[test]
fn decode_string_escapes() {
    let text = r#"{"command_type":"execute","project_path":"/p","prompt":"a\"b\\c\ndAe\/","model":"m"}"#;
    let req = decode_request(text).expect("well-formed frame");
    assert_eq!(req.prompt, "a\"b\\c\ndAe/");
}

#[test]
fn decode_unicode_escapes() {
    let text = "{\"command_type\":\"execute\",\"project_path\":\"/p\",\"prompt\":\"\\u0041\\u00e9\\u4e2d and raw \u{e9}\u{4e2d}\",\"model\":\"m\"}";
    let req = decode_request(text).expect("well-formed frame");
    assert_eq!(req.prompt, "A\u{e9}\u{4e2d} and raw \u{e9}\u{4e2d}");

    let pair = r#"{"command_type":"execute","project_path":"/p","prompt":"\ud83d\ude00!","model":"m"}"#;
    let req = decode_request(pair).expect("a surrogate pair names one character");
    assert_eq!(req.prompt, "\u{1f600}!");

    let lone_high = r#"{"command_type":"execute","project_path":"/p","prompt":"\ud834","model":"m"}"#;
    assert!(decode_request(lone_high).is_err());
    let lone_low = r#"{"command_type":"execute","project_path":"/p","prompt":"\ude00","model":"m"}"#;
    assert!(decode_request(lone_low).is_err());
    let high_then_text = r#"{"command_type":"execute","project_path":"/p","prompt":"\ud83dx","model":"m"}"#;
    assert!(decode_request(high_then_text).is_err());
}

#[test]
fn decode_numbers_follow_the_json_grammar() {
    let accepted = [
        r#"{"command_type":"execute","project_path":"/p","prompt":"q","n":0}"#,
        r#"{"command_type":"execute","project_path":"/p","prompt":"q","n":-12.5e+3}"#,
        r#"{"command_type":"execute","project_path":"/p","prompt":"q","n":1E9}"#,
    ];
    for text in accepted {
        assert!(decode_request(text).is_ok(), "refused: {text}");
    }
    let refused = [
        r#"{"command_type":"execute","project_path":"/p","prompt":"q","n":01}"#,
        r#"{"command_type":"execute","project_path":"/p","prompt":"q","n":1e++5}"#,
        r#"{"command_type":"execute","project_path":"/p","prompt":"q","n":1.}"#,
        r#"{"command_type":"execute","project_path":"/p","prompt":"q","n":-}"#,
        r#"{"command_type":"execute","project_path":"/p","prompt":"q","n":.5}"#,
    ];
    for text in refused {
        assert!(decode_request(text).is_err(), "accepted: {text}");
    }
}

#[test]
fn decode_rejects_malformed_frames() {
    let invalid = [
        "not json",
        "",
        "{",
        r#"{"command_type":"execute"}"#,
        r#"{"command_type":"execute","project_path":"/p","prompt":"q"} trailing"#,
        r#"{"command_type":12,"project_path":"/p","prompt":"q"}"#,
        r#"{"command_type":"execute","command_type":"execute","project_path":"/p","prompt":"q"}"#,
        r#"["command_type"]"#,
        r#"{"prompt":"unterminated"#,
    ];
    for text in invalid {
        let r = decode_request(text);
        assert!(r.is_err(), "accepted: {text}");
        assert_eq!(
            r.err().unwrap(),
            "Failed to parse request: invalid execution request"
        );
    }
}

#[test]
fn decode_rejects_raw_control_characters_in_strings() {
    let text = "{\"command_type\":\"execute\",\"project_path\":\"/p\",\"prompt\":\"a\nb\"}";
    assert!(decode_request(text).is_err());
}

#[test]
fn dispatch_execute_and_continue() {
    let req = decode_request(
        r#"{"command_type":"execute","project_path":"/p","prompt":"q","model":"m"}"#,
    )
    .unwrap();
    let inv = dispatch(req).expect("dispatchable");
    assert!(matches!(inv.mode, Mode::Start));
    assert_eq!(inv.model, "m");

    let req = decode_request(r#"{"command_type":"continue","project_path":"/p","prompt":"q"}"#)
        .unwrap();
    let inv = dispatch(req).expect("dispatchable");
    assert!(matches!(inv.mode, Mode::Continue));
    assert_eq!(inv.model, "");
}

#[test]
fn dispatch_resume_carries_token() {
    let req = decode_request(
        r#"{"command_type":"resume","project_path":"/p","prompt":"q","session_id":"abc"}"#,
    )
    .unwrap();
    let inv = dispatch(req).expect("dispatchable");
    match inv.mode {
        Mode::Resume { prior_session } => assert_eq!(prior_session, "abc"),
        _ => panic!("wrong mode"),
    }
}

#[test]
fn dispatch_rejects_empty_resume_token() {
    let empty = decode_request(
        r#"{"command_type":"resume","project_path":"/p","prompt":"q","session_id":""}"#,
    )
    .unwrap();
    let r = dispatch(empty);
    assert_eq!(r.err().unwrap(), "Resume requires a non-empty session_id");

    let absent =
        decode_request(r#"{"command_type":"resume","project_path":"/p","prompt":"q"}"#).unwrap();
    let r = dispatch(absent);
    assert_eq!(r.err().unwrap(), "Resume requires a non-empty session_id");
}

#[test]
fn dispatch_rejects_unknown_command() {
    let req =
        decode_request(r#"{"command_type":"restart","project_path":"/p","prompt":"q"}"#).unwrap();
    assert_eq!(dispatch(req).err().unwrap(), "Unknown command type");
}

#[test]
fn args_for_each_mode() {
    let req = decode_request(
        r#"{"command_type":"execute","project_path":"/p","prompt":"hi","model":"m1"}"#,
    )
    .unwrap();
    let inv = dispatch(req).unwrap();
    assert_eq!(
        build_args(&inv),
        vec![
            "-p",
            "hi",
            "--model",
            "m1",
            "--output-format",
            "stream-json",
            "--verbose",
            "--dangerously-skip-permissions",
        ]
    );

    let req =
        decode_request(r#"{"command_type":"continue","project_path":"/p","prompt":"hi"}"#).unwrap();
    let inv = dispatch(req).unwrap();
    assert_eq!(build_args(&inv)[0], "-c");
    assert_eq!(build_args(&inv).len(), 9);

    let req = decode_request(
        r#"{"command_type":"resume","project_path":"/p","prompt":"hi","session_id":"tok"}"#,
    )
    .unwrap();
    let inv = dispatch(req).unwrap();
    let args = build_args(&inv);
    assert_eq!(&args[0..2], &["--resume", "tok"]);
    assert_eq!(args.len(), 10);
}

#[test]
fn start_envelopes_name_each_mode() {
    assert_eq!(
        start_envelope(&Mode::Start).encode(),
        r#"{"message":"Starting execution...","type":"start"}"#
    );
    assert_eq!(
        start_envelope(&Mode::Continue).encode(),
        r#"{"message":"Continuing session...","type":"start"}"#
    );
    assert_eq!(
        start_envelope(&Mode::Resume {
            prior_session: "t".to_string()
        })
        .encode(),
        r#"{"message":"Resuming session...","type":"start"}"#
    );
}

#[test]
fn envelope_encoding_escapes_content() {
    let e = Envelope::Output {
        content: "a\"b\\c\nd\te\u{8}f\u{1f}".to_string(),
    };
    assert_eq!(
        e.encode(),
        "{\"content\":\"a\\\"b\\\\c\\nd\\te\\bf\\u001f\",\"type\":\"output\"}"
    );
}

#[test]
fn completion_envelopes() {
    let ok = Envelope::Completion { error: None };
    assert_eq!(ok.encode(), r#"{"status":"success","type":"completion"}"#);
    let failed = Envelope::Completion {
        error: Some("boom".to_string()),
    };
    assert_eq!(
        failed.encode(),
        r#"{"error":"boom","status":"error","type":"completion"}"#
    );
}

#[test]
fn failure_reasons_embed_the_detail() {
    assert_eq!(
        resolve_failure_reason("nothing at /x"),
        "Binary not found: nothing at /x"
    );
    assert_eq!(
        spawn_failure_reason("permission denied"),
        "Failed to spawn process: permission denied"
    );
    assert_eq!(
        wait_failure_reason("interrupted"),
        "Failed to wait for process: interrupted"
    );
    assert_eq!(stdout_failure_reason(), "Failed to get stdout");
}

#[test]
fn exit_results() {
    assert!(exit_result(ProcessExit::Code(0)).is_ok());
    assert_eq!(
        exit_result(ProcessExit::Code(2)).err().unwrap(),
        "Execution failed with exit code: 2"
    );
    assert_eq!(
        exit_result(ProcessExit::Code(-559038737)).err().unwrap(),
        "Execution failed with exit code: -559038737"
    );
    assert_eq!(
        exit_result(ProcessExit::Signal).err().unwrap(),
        "Execution failed with exit code: unknown (terminated by signal)"
    );
}
