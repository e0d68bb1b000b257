use coto::extract::{code_field, extract, extract_code, generated_text, SchemaError};

/// A reply envelope that carries `text` as the generated text.
fn envelope_with(text: &str) -> String {
    let mut part = serde_json::Map::new();
    part.insert("text".to_string(), serde_json::Value::String(text.to_string()));
    let mut output = serde_json::Map::new();
    output.insert(
        "content".to_string(),
        serde_json::Value::Array(vec![serde_json::Value::Object(part)]),
    );
    let mut envelope = serde_json::Map::new();
    envelope.insert(
        "output".to_string(),
        serde_json::Value::Array(vec![serde_json::Value::Object(output)]),
    );
    serde_json::Value::Object(envelope).to_string()
}

fn parsed(text: &str) -> serde_json::Value {
    serde_json::from_str(text).unwrap()
}

#[test]
fn code_is_extracted_from_a_conforming_reply() {
    let reply = envelope_with("{\"code\": \"print(1)\"}");
    assert_eq!(extract(&reply), Ok("print(1)".to_string()));
}

#[test]
fn code_is_extracted_from_a_literal_reply() {
    let reply = r#"{"id": "resp_1", "output": [{"type": "message", "content": [{"type": "output_text", "text": "{\"code\": \"import boto3\\nprint(boto3.client('s3').list_buckets())\"}"}]}]}"#;
    assert_eq!(
        extract(reply),
        Ok("import boto3\nprint(boto3.client('s3').list_buckets())".to_string())
    );
}

#[test]
fn generated_text_that_is_no_json_is_a_schema_violation() {
    assert_eq!(extract(&envelope_with("not json")), Err(SchemaError::SchemaViolation));
}

#[test]
fn generated_text_without_code_is_a_schema_violation() {
    assert_eq!(extract(&envelope_with("{\"wrong\": \"x\"}")), Err(SchemaError::SchemaViolation));
}

#[test]
fn code_that_is_no_string_is_a_schema_violation() {
    assert_eq!(extract(&envelope_with("{\"code\": 1}")), Err(SchemaError::SchemaViolation));
    assert_eq!(extract(&envelope_with("{\"code\": null}")), Err(SchemaError::SchemaViolation));
    assert_eq!(extract(&envelope_with("{\"code\": [\"x\"]}")), Err(SchemaError::SchemaViolation));
}

#[test]
fn generated_text_that_is_no_object_is_a_schema_violation() {
    assert_eq!(extract(&envelope_with("[1, 2]")), Err(SchemaError::SchemaViolation));
    assert_eq!(extract(&envelope_with("\"code\"")), Err(SchemaError::SchemaViolation));
    assert_eq!(extract(&envelope_with("")), Err(SchemaError::SchemaViolation));
}

#[test]
fn further_keys_beside_code_are_a_schema_violation() {
    let reply = envelope_with("{\"code\": \"x = 1\", \"note\": \"hi\"}");
    assert_eq!(extract(&reply), Err(SchemaError::SchemaViolation));
    let reply = envelope_with("{\"a\": 1, \"code\": \"x = 1\"}");
    assert_eq!(extract(&reply), Err(SchemaError::SchemaViolation));
}

#[test]
fn a_repeated_code_key_counts_once() {
    let reply = envelope_with("{\"code\": \"first\", \"code\": \"last\"}");
    assert_eq!(extract(&reply), Ok("last".to_string()));
}

#[test]
fn further_keys_in_the_envelope_are_let_through() {
    let reply = r#"{"id": "r1", "status": "completed", "output": [{"id": "m1", "content": [{"type": "output_text", "annotations": [], "text": "{\"code\": \"x = 1\"}"}]}]}"#;
    assert_eq!(extract(reply), Ok("x = 1".to_string()));
}

#[test]
fn empty_code_is_extracted_as_it_is() {
    assert_eq!(extract(&envelope_with("{\"code\": \"\"}")), Ok(String::new()));
}

#[test]
fn reply_that_is_no_json_is_a_malformed_envelope() {
    assert_eq!(extract("<html>502</html>"), Err(SchemaError::MalformedEnvelope));
    assert_eq!(extract(""), Err(SchemaError::MalformedEnvelope));
}

#[test]
fn reply_without_the_text_path_is_a_malformed_envelope() {
    assert_eq!(extract("{}"), Err(SchemaError::MalformedEnvelope));
    assert_eq!(extract("{\"output\": []}"), Err(SchemaError::MalformedEnvelope));
    assert_eq!(extract("{\"output\": [{\"content\": []}]}"), Err(SchemaError::MalformedEnvelope));
    assert_eq!(
        extract("{\"output\": [{\"content\": [{\"text\": 5}]}]}"),
        Err(SchemaError::MalformedEnvelope)
    );
    assert_eq!(
        extract("{\"output\": {\"content\": [{\"text\": \"{}\"}]}}"),
        Err(SchemaError::MalformedEnvelope)
    );
    assert_eq!(extract("[1]"), Err(SchemaError::MalformedEnvelope));
    assert_eq!(extract("null"), Err(SchemaError::MalformedEnvelope));
}

#[test]
fn only_the_first_output_and_the_first_part_are_read() {
    let reply = r#"{"output": [{"content": [{"text": "{\"code\": \"first\"}"}, {"text": "{\"code\": \"second\"}"}]}, {"content": [{"text": "{\"code\": \"third\"}"}]}]}"#;
    assert_eq!(extract(reply), Ok("first".to_string()));
    let reply = r#"{"output": [{"content": [{"other": 1}, {"text": "{\"code\": \"second\"}"}]}]}"#;
    assert_eq!(extract(reply), Err(SchemaError::MalformedEnvelope));
}

#[test]
fn generated_text_is_found_in_a_parsed_envelope() {
    let envelope = parsed(&envelope_with("hello"));
    assert_eq!(generated_text(&envelope), Some("hello"));
    assert_eq!(generated_text(&parsed("{\"output\": 3}")), None);
    assert_eq!(generated_text(&serde_json::Value::Null), None);
}

#[test]
fn code_field_is_found_in_a_parsed_document() {
    assert_eq!(code_field(&parsed("{\"code\": \"print(1)\"}")), Some("print(1)"));
    assert_eq!(code_field(&parsed("{\"wrong\": \"x\"}")), None);
    assert_eq!(code_field(&parsed("{\"code\": true}")), None);
    assert_eq!(code_field(&parsed("{\"code\": \"x\", \"more\": \"y\"}")), None);
    assert_eq!(code_field(&parsed("{}")), None);
    assert_eq!(code_field(&parsed("[\"code\"]")), None);
    assert_eq!(code_field(&serde_json::Value::String("code".to_string())), None);
}

#[test]
fn second_stage_on_its_own() {
    assert_eq!(extract_code("{\"code\": \"print(1)\"}"), Ok("print(1)".to_string()));
    assert_eq!(extract_code("not json"), Err(SchemaError::SchemaViolation));
    assert_eq!(extract_code("{\"wrong\": \"x\"}"), Err(SchemaError::SchemaViolation));
}

#[test]
fn schema_errors_say_what_went_wrong() {
    assert_eq!(SchemaError::MalformedEnvelope.message(), "No content in OpenAI response");
    assert_eq!(
        SchemaError::SchemaViolation.message(),
        "LLM response is not JSON of the form {'code': '<python_code_snippet>'}. Ensure the model follows the output schema."
    );
}
