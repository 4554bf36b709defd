use taunote_llm::errors::LlmError;
use taunote_llm::wire::completion_body;
use taunote_llm::wire::completion_request_body;
use taunote_llm::wire::completion_url;
use taunote_llm::wire::interpret_raw_response;
use taunote_llm::wire::json_escape;
use taunote_llm::wire::readiness_probe_body;
use taunote_llm::wire::server_addr;

#[test]
fn request_body_is_exact() {
    let body = completion_request_body("hello", 7, 512);
    assert_eq!(
        body,
        "{\"prompt\":\"hello\",\"stream\":false,\"temperature\":0.7,\"n_predict\":512}"
    );
}

#[test]
fn completion_body_uses_the_fixed_temperature() {
    assert_eq!(completion_body("hello", 512), completion_request_body("hello", 7, 512));
}

#[test]
fn readiness_probe_body_is_exact() {
    let body = readiness_probe_body();
    assert_eq!(
        body,
        "{\"prompt\":\"ping\",\"stream\":false,\"temperature\":0.0,\"n_predict\":1}"
    );
}

#[test]
fn request_body_escapes_the_prompt() {
    let body = completion_request_body("say \"hi\\\"\nplease\t", 7, 16);
    assert_eq!(
        body,
        "{\"prompt\":\"say \\\"hi\\\\\\\"\\nplease\\t\",\"stream\":false,\"temperature\":0.7,\"n_predict\":16}"
    );
}

#[test]
fn json_escape_handles_control_characters() {
    assert_eq!(json_escape("a\u{1}b"), "a\\u0001b");
    assert_eq!(json_escape("\u{1f}"), "\\u001f");
    assert_eq!(json_escape("plain"), "plain");
}

#[test]
fn request_body_round_trips_through_a_json_parser() {
    let prompt = "line one\nline \"two\" \\ done";
    let body = completion_request_body(prompt, 7, 512);
    let v: serde_json::Value = serde_json::from_str(&body).expect("body must be valid JSON");
    assert_eq!(v.get("prompt").and_then(|p| p.as_str()), Some(prompt));
    assert_eq!(v.get("stream").and_then(|s| s.as_bool()), Some(false));
    assert_eq!(v.get("temperature").and_then(|t| t.as_f64()), Some(0.7));
    assert_eq!(v.get("n_predict").and_then(|n| n.as_u64()), Some(512));
}

#[test]
fn completion_url_is_exact() {
    assert_eq!(completion_url("127.0.0.1", 8081), "http://127.0.0.1:8081/completions");
}

#[test]
fn server_addr_is_exact() {
    assert_eq!(server_addr("127.0.0.1", 8081), "127.0.0.1:8081");
}

#[test]
fn missing_content_field_yields_empty_string() {
    assert_eq!(interpret_raw_response("{}"), Ok(String::new()));
}

#[test]
fn non_string_content_yields_empty_string() {
    assert_eq!(interpret_raw_response("{\"content\":5}"), Ok(String::new()));
}

#[test]
fn content_field_is_returned() {
    assert_eq!(
        interpret_raw_response("{\"content\":\"a summary\"}"),
        Ok("a summary".to_string())
    );
}

#[test]
fn error_field_wins_over_content() {
    let r = interpret_raw_response("{\"error\":\"boom\",\"content\":\"hi\"}");
    assert_eq!(r, Err(LlmError::Model("\"boom\"".to_string())));
}

#[test]
fn structured_error_field_is_reported() {
    let r = interpret_raw_response("{\"error\":{\"code\":500,\"message\":\"loading model\"}}");
    match r {
        Err(LlmError::Model(msg)) => {
            assert!(msg.contains("loading model"));
            assert!(msg.contains("500"));
        }
        other => panic!("expected a model error, got {:?}", other),
    }
}

#[test]
fn non_json_reply_is_a_transport_failure() {
    match interpret_raw_response("<html>bad gateway</html>") {
        Err(LlmError::Transport(_)) => {}
        other => panic!("expected a transport error, got {:?}", other),
    }
}
