use coto::client::{Reply, TransportError};
use coto::commands::gen::{finish, run, Emit, ErrorKind, GenError, Step};
use coto::config::Config;
use coto::extract::SchemaError;
use coto::payload::{Role, BASE_INSTRUCTION};
use coto::resolve::Environment;

fn some(text: &str) -> Option<String> {
    Some(text.to_string())
}

fn environment(key: Option<&str>) -> Environment {
    Environment { credential: key.map(str::to_string) }
}

fn answered(status: u16, body: &str) -> Reply {
    Reply::Answered { status, body: body.to_string() }
}

const GOOD_BODY: &str = r#"{"output": [{"content": [{"text": "{\"code\": \"print(1)\"}"}]}]}"#;

#[test]
fn dry_run_with_environment_credential_shows_the_payload() {
    let outcome = run(
        some("list s3 buckets"),
        None,
        None,
        None,
        None,
        true,
        &Config::default(),
        &environment(Some("sk-env")),
    );
    let rendered = match outcome {
        Ok(Step::Show { rendered }) => rendered,
        other => panic!("expected the payload to be shown, got {:?}", other),
    };
    let shown: serde_json::Value = serde_json::from_str(&rendered).unwrap();
    assert!(shown["model"].is_null());
    assert_eq!(shown["input"].as_array().unwrap().len(), 2);
    assert_eq!(shown["input"][0]["role"].as_str(), Some("system"));
    assert_eq!(shown["input"][0]["content"].as_str(), Some(BASE_INSTRUCTION));
    assert_eq!(shown["input"][1]["role"].as_str(), Some("user"));
    assert_eq!(shown["input"][1]["content"].as_str(), Some("list s3 buckets"));
    assert!(!rendered.contains("sk-env"));
}

#[test]
fn dry_run_never_leads_to_a_send() {
    for model in [None, some("m")] {
        for output in [None, some("out.py")] {
            let outcome = run(
                some("p"),
                some("eu-west-1"),
                some("ops"),
                model.clone(),
                output.clone(),
                true,
                &Config::default(),
                &environment(Some("k")),
            );
            assert!(matches!(outcome, Ok(Step::Show { .. })));
        }
    }
}

#[test]
fn a_real_run_leads_to_a_send_with_the_resolved_request() {
    let cfg = Config {
        openai_key: some("sk-stored"),
        default_profile: some("ops"),
        default_region: None,
        model: some("o4-mini"),
    };
    let outcome = run(
        some("list s3 buckets"),
        some("us-west-2"),
        None,
        None,
        some("out.py"),
        false,
        &cfg,
        &environment(Some("sk-env")),
    );
    match outcome {
        Ok(Step::Send { credential, payload, output }) => {
            assert_eq!(credential, "sk-stored");
            assert_eq!(output, some("out.py"));
            assert_eq!(payload.model, some("o4-mini"));
            assert_eq!(payload.messages.len(), 2);
            assert_eq!(payload.messages[0].role, Role::System);
            assert_eq!(
                payload.messages[0].content,
                format!(
                    "{} Use AWS CLI profile 'ops'. Set region_name to 'us-west-2'.",
                    BASE_INSTRUCTION
                )
            );
            assert_eq!(payload.messages[1].role, Role::User);
            assert_eq!(payload.messages[1].content, "list s3 buckets");
        }
        other => panic!("expected a request to send, got {:?}", other),
    }
}

#[test]
fn run_without_prompt_fails_before_anything_else() {
    let outcome = run(None, None, None, None, None, false, &Config::default(), &environment(None));
    assert_eq!(outcome, Err(GenError::MissingPrompt));
    let outcome = run(None, None, None, None, None, true, &Config::default(), &environment(Some("k")));
    assert_eq!(outcome, Err(GenError::MissingPrompt));
}

#[test]
fn run_without_credential_fails_even_for_a_dry_run() {
    let outcome = run(some("p"), None, None, None, None, true, &Config::default(), &environment(None));
    assert_eq!(outcome, Err(GenError::MissingCredential));
    let outcome = run(some("p"), None, None, None, None, false, &Config::default(), &environment(None));
    assert_eq!(outcome, Err(GenError::MissingCredential));
}

#[test]
fn conforming_reply_goes_to_standard_output() {
    assert_eq!(finish(answered(200, GOOD_BODY), None), Ok(Emit::Stdout { code: "print(1)".to_string() }));
}

#[test]
fn conforming_reply_goes_to_the_file_asked_for() {
    assert_eq!(
        finish(answered(200, GOOD_BODY), some("out.py")),
        Ok(Emit::File { path: "out.py".to_string(), code: "print(1)".to_string() })
    );
}

#[test]
fn schema_errors_emit_nothing() {
    let not_json = r#"{"output": [{"content": [{"text": "not json"}]}]}"#;
    assert_eq!(
        finish(answered(200, not_json), some("out.py")),
        Err(GenError::Schema(SchemaError::SchemaViolation))
    );
    let wrong_key = r#"{"output": [{"content": [{"text": "{\"wrong\": \"x\"}"}]}]}"#;
    assert_eq!(
        finish(answered(200, wrong_key), None),
        Err(GenError::Schema(SchemaError::SchemaViolation))
    );
    assert_eq!(
        finish(answered(200, "{}"), None),
        Err(GenError::Schema(SchemaError::MalformedEnvelope))
    );
}

#[test]
fn any_status_but_success_is_a_transport_error() {
    for status in [0u16, 100, 199, 300, 301, 400, 401, 404, 429, 500, 503, 599, 600, u16::MAX] {
        assert_eq!(
            finish(answered(status, GOOD_BODY), None),
            Err(GenError::Transport(TransportError::Status { status, body: GOOD_BODY.to_string() }))
        );
    }
}

#[test]
fn every_success_status_is_read() {
    for status in [200u16, 201, 204, 250, 299] {
        assert_eq!(
            finish(answered(status, GOOD_BODY), None),
            Ok(Emit::Stdout { code: "print(1)".to_string() })
        );
    }
}

#[test]
fn an_unreachable_service_is_a_transport_error() {
    let reply = Reply::Unreachable { reason: "connection refused".to_string() };
    let outcome = finish(reply, some("out.py"));
    assert_eq!(
        outcome,
        Err(GenError::Transport(TransportError::Unreachable {
            reason: "connection refused".to_string()
        }))
    );
}

#[test]
fn errors_are_sorted_by_kind() {
    assert_eq!(GenError::MissingPrompt.kind(), ErrorKind::UserInput);
    assert_eq!(GenError::MissingCredential.kind(), ErrorKind::Configuration);
    assert_eq!(GenError::Unrenderable.kind(), ErrorKind::Internal);
    let unreachable = TransportError::Unreachable { reason: String::new() };
    assert_eq!(GenError::Transport(unreachable).kind(), ErrorKind::Transport);
    let status = TransportError::Status { status: 500, body: String::new() };
    assert_eq!(GenError::Transport(status).kind(), ErrorKind::Transport);
    assert_eq!(GenError::Schema(SchemaError::MalformedEnvelope).kind(), ErrorKind::Schema);
    assert_eq!(GenError::Schema(SchemaError::SchemaViolation).kind(), ErrorKind::Schema);
}

#[test]
fn error_headlines() {
    assert_eq!(GenError::MissingPrompt.headline(), "Error: --prompt is required for gen");
    assert_eq!(
        GenError::MissingCredential.headline(),
        "OpenAI API key not set; run `coto config openai-key <KEY>` or set OPENAI_API_KEY"
    );
    assert_eq!(GenError::Unrenderable.headline(), "Failed to render the request payload");
    assert_eq!(
        GenError::Transport(TransportError::Unreachable { reason: "x".to_string() }).headline(),
        "Failed to send request to OpenAI"
    );
    assert_eq!(
        GenError::Transport(TransportError::Status { status: 401, body: String::new() }).headline(),
        "OpenAI API returned an error status"
    );
    assert_eq!(
        GenError::Schema(SchemaError::MalformedEnvelope).headline(),
        "No content in OpenAI response"
    );
    assert_eq!(
        GenError::Schema(SchemaError::SchemaViolation).headline(),
        SchemaError::SchemaViolation.message()
    );
}
