use opcode_web::envelope::Envelope;
use opcode_web::json::decode_request;

#[test]
fn encoded_output_envelope_is_valid_json() {
    let content = "weird \"quotes\" \\slashes\\ \nnewline \ttab \u{8}\u{c}\u{1}\u{1f} raw \u{1f600}\u{e9}";
    let e = Envelope::Output {
        content: content.to_string(),
    };
    let v: serde_json::Value = serde_json::from_str(&e.encode()).expect("wire text is JSON");
    assert_eq!(v["type"].as_str(), Some("output"));
    assert_eq!(v["content"].as_str(), Some(content));
}

#[test]
fn encoded_completion_envelopes_are_valid_json() {
    let ok = Envelope::Completion { error: None };
    let v: serde_json::Value = serde_json::from_str(&ok.encode()).unwrap();
    assert_eq!(v["type"].as_str(), Some("completion"));
    assert_eq!(v["status"].as_str(), Some("success"));

    let failed = Envelope::Completion {
        error: Some("went \"wrong\"\n".to_string()),
    };
    let v: serde_json::Value = serde_json::from_str(&failed.encode()).unwrap();
    assert_eq!(v["status"].as_str(), Some("error"));
    assert_eq!(v["error"].as_str(), Some("went \"wrong\"\n"));
}

#[test]
fn encoded_error_envelope_is_valid_json() {
    let e = Envelope::Error {
        message: "bad frame: \u{3c0} \u{0}".to_string(),
    };
    let v: serde_json::Value = serde_json::from_str(&e.encode()).unwrap();
    assert_eq!(v["type"].as_str(), Some("error"));
    assert_eq!(v["message"].as_str(), Some("bad frame: \u{3c0} \u{0}"));
}

#[test]
fn decode_agrees_with_reference_json_parser() {
    let frames = [
        r#"{"command_type":"execute","project_path":"/tmp/proj","prompt":"hi","model":"m1"}"#,
        r#"{"command_type":"resume","project_path":"/p","prompt":"q A\n","session_id":"tok"}"#,
        " { \"prompt\" : \"spaced\" , \"project_path\" : \"/a b\" , \"command_type\" : \"continue\" } ",
        r#"{"command_type":"execute","project_path":"/p","prompt":"pair \ud83d\ude00 bmp \u00e9","model":"m"}"#,
    ];
    for text in frames {
        let req = decode_request(text).expect("well-formed frame");
        let v: serde_json::Value = serde_json::from_str(text).expect("reference parser agrees");
        assert_eq!(Some(req.project_path.as_str()), v["project_path"].as_str());
        assert_eq!(Some(req.prompt.as_str()), v["prompt"].as_str());
        assert_eq!(Some(req.command_type.as_str()), v["command_type"].as_str());
        assert_eq!(req.model.as_deref(), v.get("model").and_then(|m| m.as_str()));
        assert_eq!(
            req.session_id.as_deref(),
            v.get("session_id").and_then(|m| m.as_str())
        );
    }
}

#[test]
fn frames_refused_here_are_refused_or_out_of_shape_for_the_reference_parser() {
    // every frame the library refuses is either not JSON at all, not an
    // object, or lacks a usable mandatory field for the reference parser
    let refused = [
        "not json",
        "{",
        r#"[1,2]"#,
        r#"{"command_type":"execute","project_path":"/p"}"#,
        r#"{"command_type":7,"project_path":"/p","prompt":"q"}"#,
        r#"{"command_type":"execute","project_path":"/p","prompt":"q","n":01}"#,
        r#"{"command_type":"execute","project_path":"/p","prompt":"q","n":1e++5}"#,
    ];
    for text in refused {
        assert!(decode_request(text).is_err());
        let ok_shape = serde_json::from_str::<serde_json::Value>(text)
            .ok()
            .map(|v| {
                v.is_object()
                    && v["command_type"].is_string()
                    && v["project_path"].is_string()
                    && v["prompt"].is_string()
            })
            .unwrap_or(false);
        assert!(!ok_shape, "reference parser accepts what the library refuses: {text}");
    }
}
