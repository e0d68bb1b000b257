//! Validating a reply of the generation service and taking the snippet out.
//!
//! A reply is read in two stages. The outer envelope must be JSON that holds
//! the generated text at `output[0].content[0].text`. That text must itself be
//! a JSON object with one member and no other: a string under `code`. Nothing
//! is salvaged from a reply that fails either stage.

use vstd::prelude::*;
use crate::json::{as_text, at_index, at_key, json_parse, json_view, member_count, parse};
use crate::json::JsonView;

verus! {

/// Why a reply was turned down.
#[derive(Debug, Clone, Copy, PartialEq, Eq)]
pub enum SchemaError {
    /// The reply is no JSON, or holds no generated text where it is expected.
    MalformedEnvelope,
    /// The generated text is no JSON object that holds a string under `code`
    /// and nothing else: the model did not keep to the output schema.
    SchemaViolation,
}

/// The generated text inside a reply envelope, where the envelope has one.
pub open spec fn envelope_text(envelope: JsonView) -> Option<Seq<char>> {
    envelope.at_key("output"@).at_index(0).at_key("content"@).at_index(0).at_key("text"@).as_text()
}

/// The snippet inside a generated document: the string under `code`, where
/// the document is an object with that member and no other.
pub open spec fn code_of(doc: JsonView) -> Option<Seq<char>> {
    match doc {
        JsonView::Object(members) => if members.dom() == set!["code"@] {
            members["code"@].as_text()
        } else {
            None
        },
        _ => None,
    }
}

/// The second stage: the snippet that a generated text yields.
pub open spec fn code_in(text: Seq<char>) -> Result<Seq<char>, SchemaError> {
    match json_parse(text) {
        None => Err(SchemaError::SchemaViolation),
        Some(doc) => match code_of(doc) {
            None => Err(SchemaError::SchemaViolation),
            Some(code) => Ok(code),
        },
    }
}

/// Both stages: the snippet that a raw reply yields.
pub open spec fn extraction(raw_reply: Seq<char>) -> Result<Seq<char>, SchemaError> {
    match json_parse(raw_reply) {
        None => Err(SchemaError::MalformedEnvelope),
        Some(envelope) => match envelope_text(envelope) {
            None => Err(SchemaError::MalformedEnvelope),
            Some(text) => code_in(text),
        },
    }
}

/// An extraction's outcome as mathematical values.
pub open spec fn outcome_view(outcome: Result<String, SchemaError>) -> Result<
    Seq<char>,
    SchemaError,
> {
    match outcome {
        Ok(code) => Ok(code@),
        Err(e) => Err(e),
    }
}

impl SchemaError {
    /// What to tell the user about this error.
    pub open spec fn message_text(self) -> Seq<char> {
        match self {
            SchemaError::MalformedEnvelope => "No content in OpenAI response"@,
            SchemaError::SchemaViolation =>
                "LLM response is not JSON of the form {'code': '<python_code_snippet>'}. Ensure the model follows the output schema."@,
        }
    }

    /// The diagnostic for this error.
    pub fn message(&self) -> (text: &'static str)
        ensures
            text@ == self.message_text(),
    {
        match self {
            SchemaError::MalformedEnvelope => "No content in OpenAI response",
            SchemaError::SchemaViolation =>
                "LLM response is not JSON of the form {'code': '<python_code_snippet>'}. Ensure the model follows the output schema.",
        }
    }
}

/// Each verdict on a reply, by the stage that gives it: the envelope is
/// malformed exactly when the first stage finds no generated text, the schema
/// is violated exactly when the first stage finds a text that the second
/// turns down, and the second stage never blames the envelope.
pub proof fn law_extraction_stages(raw_reply: Seq<char>, text: Seq<char>)
    ensures
        extraction(raw_reply) == Err::<Seq<char>, SchemaError>(SchemaError::MalformedEnvelope)
            <==> (json_parse(raw_reply) is None || envelope_text(json_parse(raw_reply)->0)
            is None),
        extraction(raw_reply) == Err::<Seq<char>, SchemaError>(SchemaError::SchemaViolation)
            <==> ({
            &&& json_parse(raw_reply) matches Some(envelope)
            &&& envelope_text(envelope) matches Some(generated)
            &&& code_in(generated) is Err
        }),
        extraction(raw_reply) matches Ok(code) ==> {
            &&& json_parse(raw_reply) matches Some(envelope)
            &&& envelope_text(envelope) matches Some(generated)
            &&& json_parse(generated) matches Some(doc)
            &&& code_of(doc) == Some(code)
        },
        code_in(text) != Err::<Seq<char>, SchemaError>(SchemaError::MalformedEnvelope),
        code_in(text) is Ok <==> (json_parse(text) is Some && code_of(json_parse(text)->0)
            is Some),
{
}

/// Finds the generated text in a parsed reply envelope.
pub fn generated_text<'a>(envelope: &'a serde_json::Value) -> (found: Option<&'a str>)
    ensures
        match found {
            Some(text) => envelope_text(json_view(*envelope)) == Some(text@),
            None => envelope_text(json_view(*envelope)) is None,
        },
{
    let output = at_key(envelope, "output");
    let first = at_index(output, 0);
    let content = at_key(first, "content");
    let part = at_index(content, 0);
    as_text(at_key(part, "text"))
}

/// Finds the snippet in a parsed generated document.
pub fn code_field<'a>(doc: &'a serde_json::Value) -> (found: Option<&'a str>)
    ensures
        match found {
            Some(code) => code_of(json_view(*doc)) == Some(code@),
            None => code_of(json_view(*doc)) is None,
        },
{
    match member_count(doc) {
        Some(1) => {
            proof {
                let keys = json_view(*doc)->Object_0.dom();
                Set::lemma_is_singleton(keys);
                if keys.contains("code"@) {
                    assert(keys =~= set!["code"@]);
                }
            }
            as_text(at_key(doc, "code"))
        },
        _ => {
            assert(set!["code"@].len() == 1);
            None
        },
    }
}

/// The second stage on its own: parses a generated text and takes the
/// snippet out of it.
pub fn extract_code(text: &str) -> (outcome: Result<String, SchemaError>)
    ensures
        outcome_view(outcome) == code_in(text@),
{
    match parse(text) {
        Err(_) => Err(SchemaError::SchemaViolation),
        Ok(doc) => match code_field(&doc) {
            None => Err(SchemaError::SchemaViolation),
            Some(code) => Ok(code.to_owned()),
        },
    }
}

/// Validates a raw reply and takes the snippet out of it.
pub fn extract(raw_reply: &str) -> (outcome: Result<String, SchemaError>)
    ensures
        outcome_view(outcome) == extraction(raw_reply@),
{
    match parse(raw_reply) {
        Err(_) => Err(SchemaError::MalformedEnvelope),
        Ok(envelope) => match generated_text(&envelope) {
            None => Err(SchemaError::MalformedEnvelope),
            Some(text) => extract_code(text),
        },
    }
}

} // verus!
