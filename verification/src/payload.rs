//! Putting the request payload together.
//!
//! The payload is the model's name and two messages: a system message that
//! fixes the reply's shape and carries the profile and region hints, and a
//! user message that is the prompt as given. The same parameters always give
//! the same payload.

use vstd::prelude::*;
use vstd::string::*;
use crate::text::{copy_of, text_of};
use crate::json::{json_pretty, json_view, list, null, object, pretty, text, JsonView};
use crate::json::{distinct_keys, members_of, views_of};
use crate::resolve::{ResolvedParams, ResolvedView};

verus! {

/// The instruction every system message starts with: the assistant's role and
/// the one shape a reply may have.
pub const BASE_INSTRUCTION: &'static str =
    "You are an expert Python and Boto3 code generation assistant. Given a user request for a boto3 Python snippet, you must respond with valid JSON only, following this schema: `{'code': '<python_code_snippet>'}`. Do NOT include any explanations or extra keys. Only output the JSON object.";

/// The sentence that names the AWS CLI profile; empty where none is set.
pub open spec fn profile_hint(profile: Option<Seq<char>>) -> Seq<char> {
    match profile {
        Some(name) => " Use AWS CLI profile '"@ + name + "'."@,
        None => Seq::empty(),
    }
}

/// The sentence that names the AWS region; empty where none is set.
pub open spec fn region_hint(region: Option<Seq<char>>) -> Seq<char> {
    match region {
        Some(name) => " Set region_name to '"@ + name + "'."@,
        None => Seq::empty(),
    }
}

/// The system message: the base instruction, then the profile hint, then the
/// region hint.
pub open spec fn system_prompt_text(profile: Option<Seq<char>>, region: Option<Seq<char>>) -> Seq<
    char,
> {
    BASE_INSTRUCTION@ + profile_hint(profile) + region_hint(region)
}

/// Who speaks in a message.
#[derive(Debug, Clone, Copy, PartialEq, Eq)]
pub enum Role {
    System,
    User,
}

impl Role {
    /// The role's tag on the wire.
    pub open spec fn tag_text(self) -> Seq<char> {
        match self {
            Role::System => "system"@,
            Role::User => "user"@,
        }
    }

    /// The role's tag on the wire.
    pub fn tag(&self) -> (tag: &'static str)
        ensures
            tag@ == self.tag_text(),
    {
        match self {
            Role::System => "system",
            Role::User => "user",
        }
    }
}

/// One message of a payload.
#[derive(Debug, Clone, PartialEq, Eq)]
pub struct Message {
    pub role: Role,
    pub content: String,
}

/// What a [`Message`] holds, as mathematical values.
pub struct MessageView {
    pub role: Role,
    pub content: Seq<char>,
}

impl View for Message {
    type V = MessageView;

    open spec fn view(&self) -> MessageView {
        MessageView { role: self.role, content: self.content@ }
    }
}

/// The body of one request to the generation service.
#[derive(Debug, Clone, PartialEq, Eq)]
pub struct GenerationPayload {
    pub model: Option<String>,
    pub messages: Vec<Message>,
}

/// What a [`GenerationPayload`] holds, as mathematical values.
pub struct PayloadView {
    pub model: Option<Seq<char>>,
    pub messages: Seq<MessageView>,
}

impl View for GenerationPayload {
    type V = PayloadView;

    open spec fn view(&self) -> PayloadView {
        PayloadView {
            model: text_of(self.model),
            messages: self.messages@.map_values(|m: Message| m@),
        }
    }
}

impl PayloadView {
    /// One system message, then one user message, and no other.
    pub open spec fn well_formed(self) -> bool {
        &&& self.messages.len() == 2
        &&& self.messages[0].role == Role::System
        &&& self.messages[1].role == Role::User
    }
}

/// The payload that a request's parameters call for.
pub open spec fn payload_for(params: ResolvedView) -> PayloadView {
    PayloadView {
        model: params.model,
        messages: seq![
            MessageView {
                role: Role::System,
                content: system_prompt_text(params.profile, params.region),
            },
            MessageView { role: Role::User, content: params.prompt },
        ],
    }
}

/// A message as a JSON object: its role's tag and its content.
pub open spec fn message_doc(message: MessageView) -> JsonView {
    JsonView::Object(
        Map::empty().insert("role"@, JsonView::Text(message.role.tag_text())).insert(
            "content"@,
            JsonView::Text(message.content),
        ),
    )
}

/// The model's name as a JSON value: a string, or null where none is set.
pub open spec fn model_doc(model: Option<Seq<char>>) -> JsonView {
    match model {
        Some(name) => JsonView::Text(name),
        None => JsonView::Null,
    }
}

/// A payload as a JSON object: the model under `model`, the messages in
/// order under `input`.
pub open spec fn payload_doc(payload: PayloadView) -> JsonView {
    JsonView::Object(
        Map::empty().insert("model"@, model_doc(payload.model)).insert(
            "input"@,
            JsonView::List(payload.messages.map_values(|m: MessageView| message_doc(m))),
        ),
    )
}

/// A payload could not be written as JSON text.
#[derive(Debug, Clone, Copy, PartialEq, Eq)]
pub struct RenderError;

/// Writes the system message for a profile and a region, each of which may be
/// absent.
pub fn system_prompt(profile: &Option<String>, region: &Option<String>) -> (prompt: String)
    ensures
        prompt@ == system_prompt_text(text_of(*profile), text_of(*region)),
{
    let mut prompt = String::from_str(BASE_INSTRUCTION);
    if let Some(name) = profile {
        prompt.append(" Use AWS CLI profile '");
        prompt.append(name.as_str());
        prompt.append("'.");
        assert(prompt@ =~= BASE_INSTRUCTION@ + profile_hint(text_of(*profile)));
    }
    let ghost with_profile = prompt@;
    if let Some(name) = region {
        prompt.append(" Set region_name to '");
        prompt.append(name.as_str());
        prompt.append("'.");
        assert(prompt@ =~= with_profile + region_hint(text_of(*region)));
    }
    assert(prompt@ =~= system_prompt_text(text_of(*profile), text_of(*region)));
    prompt
}

/// Builds the payload of a request from its parameters.
pub fn build(params: &ResolvedParams) -> (payload: GenerationPayload)
    ensures
        payload@ == payload_for(params@),
        payload@.well_formed(),
{
    let system = Message {
        role: Role::System,
        content: system_prompt(&params.profile, &params.region),
    };
    let user = Message { role: Role::User, content: params.prompt.clone() };
    let mut messages: Vec<Message> = Vec::new();
    messages.push(system);
    messages.push(user);
    let payload = GenerationPayload { model: copy_of(&params.model), messages };
    assert(payload@.messages =~= payload_for(params@).messages);
    payload
}

impl Message {
    /// The message as a JSON value.
    pub fn to_json(&self) -> (value: serde_json::Value)
        ensures
            json_view(value) == message_doc(self@),
    {
        let mut fields: Vec<(String, serde_json::Value)> = Vec::new();
        fields.push((String::from_str("role"), text(self.role.tag())));
        fields.push((String::from_str("content"), text(self.content.as_str())));
        proof {
            reveal_strlit("role");
            reveal_strlit("content");
            assert(fields@[0].0@ == "role"@ && fields@[1].0@ == "content"@);
            assert("role"@.len() != "content"@.len());
            lemma_two_members(fields@);
        }
        object(fields)
    }
}

impl GenerationPayload {
    /// The payload as a JSON value.
    pub fn to_json(&self) -> (value: serde_json::Value)
        ensures
            json_view(value) == payload_doc(self@),
    {
        let mut items: Vec<serde_json::Value> = Vec::new();
        let mut i: usize = 0;
        while i < self.messages.len()
            invariant
                i <= self.messages.len(),
                items.len() == i,
                forall|j: int|
                    0 <= j < i ==> json_view(#[trigger] items[j]) == message_doc(
                        self.messages[j]@,
                    ),
            decreases self.messages.len() - i,
        {
            items.push(self.messages[i].to_json());
            i += 1;
        }
        assert(views_of(items@) =~= self@.messages.map_values(|m: MessageView| message_doc(m)));
        let model = match &self.model {
            Some(name) => text(name.as_str()),
            None => null(),
        };
        let mut fields: Vec<(String, serde_json::Value)> = Vec::new();
        fields.push((String::from_str("model"), model));
        fields.push((String::from_str("input"), list(items)));
        proof {
            reveal_strlit("model");
            reveal_strlit("input");
            assert(fields@[0].0@ == "model"@ && fields@[1].0@ == "input"@);
            assert("model"@[0] != "input"@[0]);
            lemma_two_members(fields@);
        }
        object(fields)
    }

    /// The payload as indented JSON text, as a dry run shows it.
    pub fn render(&self) -> (rendered: Result<String, RenderError>)
        ensures
            match rendered {
                Ok(shown) => json_pretty(payload_doc(self@)) == Some(shown@),
                Err(_) => json_pretty(payload_doc(self@)) is None,
            },
    {
        let value = self.to_json();
        match pretty(&value) {
            Ok(shown) => Ok(shown),
            Err(_) => Err(RenderError),
        }
    }
}

/// The system message is the base instruction, then at most one profile
/// sentence, then at most one region sentence: with neither set it is the base
/// instruction alone, and a sentence that is left out leaves nothing behind.
pub proof fn law_system_prompt_shape(profile: Seq<char>, region: Seq<char>)
    ensures
        system_prompt_text(None, None) == BASE_INSTRUCTION@,
        system_prompt_text(Some(profile), None) == BASE_INSTRUCTION@ + " Use AWS CLI profile '"@
            + profile + "'."@,
        system_prompt_text(None, Some(region)) == BASE_INSTRUCTION@ + " Set region_name to '"@
            + region + "'."@,
        system_prompt_text(Some(profile), Some(region)) == BASE_INSTRUCTION@
            + " Use AWS CLI profile '"@ + profile + "'."@ + " Set region_name to '"@ + region
            + "'."@,
{
    let base = BASE_INSTRUCTION@;
    let empty = Seq::<char>::empty();
    assert(base + empty + empty =~= base);
    assert(base + profile_hint(Some(profile)) + empty =~= base + " Use AWS CLI profile '"@
        + profile + "'."@);
    assert(base + empty + region_hint(Some(region)) =~= base + " Set region_name to '"@ + region
        + "'."@);
    assert(base + profile_hint(Some(profile)) + region_hint(Some(region)) =~= base
        + " Use AWS CLI profile '"@ + profile + "'."@ + " Set region_name to '"@ + region
        + "'."@);
}

/// Every system message starts with the base instruction, whatever the hints.
pub proof fn law_system_prompt_starts_with_base(
    profile: Option<Seq<char>>,
    region: Option<Seq<char>>,
)
    ensures
        BASE_INSTRUCTION@.is_prefix_of(system_prompt_text(profile, region)),
{
    let base = BASE_INSTRUCTION@;
    let whole = system_prompt_text(profile, region);
    assert(whole.subrange(0, base.len() as int) =~= base);
}

/// A built payload is one system message followed by one user message, and
/// the user message is the prompt, letter for letter.
pub proof fn law_payload_shape(params: ResolvedView)
    ensures
        payload_for(params).well_formed(),
        payload_for(params).messages[1].content == params.prompt,
        payload_for(params).model == params.model,
{
}

/// The JSON body of a built payload has the model under `model` and, under
/// `input`, the system message and then the user message, each with its role
/// and its content, and nothing else at either level.
pub proof fn law_payload_document_shape(params: ResolvedView)
    ensures
        ({
            let doc = payload_doc(payload_for(params));
            let input = doc.at_key("input"@);
            &&& doc matches JsonView::Object(members) && members.dom() == set!["model"@, "input"@]
            &&& doc.at_key("model"@) == model_doc(params.model)
            &&& input matches JsonView::List(items) && items.len() == 2
            &&& input.at_index(0) matches JsonView::Object(system) && system.dom()
                == set!["role"@, "content"@]
            &&& input.at_index(0).at_key("role"@).as_text() == Some("system"@)
            &&& input.at_index(0).at_key("content"@).as_text() == Some(
                system_prompt_text(params.profile, params.region),
            )
            &&& input.at_index(1) matches JsonView::Object(user) && user.dom()
                == set!["role"@, "content"@]
            &&& input.at_index(1).at_key("role"@).as_text() == Some("user"@)
            &&& input.at_index(1).at_key("content"@).as_text() == Some(params.prompt)
        }),
{
    reveal_strlit("model");
    reveal_strlit("input");
    reveal_strlit("role");
    reveal_strlit("content");
    assert("model"@[0] != "input"@[0]);
    assert("role"@.len() != "content"@.len());
    let payload = payload_for(params);
    let doc = payload_doc(payload);
    let items = payload.messages.map_values(|m: MessageView| message_doc(m));
    assert(items.len() == 2);
    assert(doc->Object_0.dom() =~= set!["model"@, "input"@]);
    assert(items[0]->Object_0.dom() =~= set!["role"@, "content"@]);
    assert(items[1]->Object_0.dom() =~= set!["role"@, "content"@]);
}

/// Two pairs under different keys give an object its two members.
proof fn lemma_two_members(fields: Seq<(String, serde_json::Value)>)
    requires
        fields.len() == 2,
        fields[0].0@ != fields[1].0@,
    ensures
        distinct_keys(fields),
        members_of(fields) == Map::<Seq<char>, JsonView>::empty().insert(
            fields[0].0@,
            json_view(fields[0].1),
        ).insert(fields[1].0@, json_view(fields[1].1)),
{
    let head = fields.drop_last();
    assert(head.len() == 1);
    assert(head.last() == fields[0]);
    assert(head.drop_last().len() == 0);
    assert(members_of(head.drop_last()) == Map::<Seq<char>, JsonView>::empty());
    assert(members_of(head) == Map::<Seq<char>, JsonView>::empty().insert(
        fields[0].0@,
        json_view(fields[0].1),
    ));
}

} // verus!
