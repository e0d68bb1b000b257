use coto::client::{receive, Reply, TransportError};
use coto::client::{CREDENTIAL_VARIABLE, ENDPOINT};

fn answered(status: u16, body: &str) -> Reply {
    Reply::Answered { status, body: body.to_string() }
}

#[test]
fn fixed_names_of_the_service() {
    assert_eq!(ENDPOINT, "https://api.openai.com/v1/responses");
    assert_eq!(CREDENTIAL_VARIABLE, "OPENAI_API_KEY");
}

#[test]
fn a_success_status_hands_the_body_on() {
    assert_eq!(receive(answered(200, "{}")), Ok("{}".to_string()));
    assert_eq!(receive(answered(299, "")), Ok(String::new()));
}

#[test]
fn the_edges_of_the_success_range() {
    assert!(receive(answered(199, "b")).is_err());
    assert!(receive(answered(200, "b")).is_ok());
    assert!(receive(answered(299, "b")).is_ok());
    assert!(receive(answered(300, "b")).is_err());
}

#[test]
fn a_failure_status_keeps_status_and_body() {
    assert_eq!(
        receive(answered(429, "slow down")),
        Err(TransportError::Status { status: 429, body: "slow down".to_string() })
    );
    assert_eq!(
        receive(answered(302, "")),
        Err(TransportError::Status { status: 302, body: String::new() })
    );
}

#[test]
fn an_exchange_without_answer_keeps_the_reason() {
    assert_eq!(
        receive(Reply::Unreachable { reason: "dns failure".to_string() }),
        Err(TransportError::Unreachable { reason: "dns failure".to_string() })
    );
}

#[test]
fn transport_headlines() {
    assert_eq!(
        TransportError::Unreachable { reason: String::new() }.headline(),
        "Failed to send request to OpenAI"
    );
    assert_eq!(
        TransportError::Status { status: 500, body: String::new() }.headline(),
        "OpenAI API returned an error status"
    );
}
