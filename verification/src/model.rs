//! The provider-neutral model contract.
//!
//! Requests carry messages and a semantic output contract. Nothing in them selects a
//! model, a provider or a transport.

use vstd::prelude::*;
use vstd::string::*;

use crate::json::Double;

verus! {

/// Roles in the provider-neutral conversation contract.
#[derive(Debug, Clone, Copy, PartialEq, Eq, Structural)]
pub enum ModelRole {
    System,
    User,
    Assistant,
}

/// The JSON name of a role.
pub open spec fn role_name(role: ModelRole) -> Seq<char> {
    match role {
        ModelRole::System => "system"@,
        ModelRole::User => "user"@,
        ModelRole::Assistant => "assistant"@,
    }
}

impl ModelRole {
    /// The JSON name of a role.
    pub fn name(self) -> (name: &'static str)
        ensures
            name@ == role_name(self),
    {
        match self {
            ModelRole::System => "system",
            ModelRole::User => "user",
            ModelRole::Assistant => "assistant",
        }
    }
}

#[derive(Debug)]
pub struct ModelMessage {
    pub role: ModelRole,
    pub content: String,
}

/// The model of a message: its role and its content.
pub type MessageModel = (ModelRole, Seq<char>);

impl View for ModelMessage {
    type V = MessageModel;

    open spec fn view(&self) -> MessageModel {
        (self.role, self.content@)
    }
}

impl Clone for ModelMessage {
    fn clone(&self) -> (copy: Self)
        ensures
            copy@ == self@,
    {
        ModelMessage { role: self.role, content: self.content.clone() }
    }
}

impl ModelMessage {
    pub fn system(content: &str) -> (made: Self)
        ensures
            made@ == (ModelRole::System, content@),
    {
        ModelMessage { role: ModelRole::System, content: content.to_owned() }
    }

    pub fn user(content: &str) -> (made: Self)
        ensures
            made@ == (ModelRole::User, content@),
    {
        ModelMessage { role: ModelRole::User, content: content.to_owned() }
    }

    pub fn assistant(content: &str) -> (made: Self)
        ensures
            made@ == (ModelRole::Assistant, content@),
    {
        ModelMessage { role: ModelRole::Assistant, content: content.to_owned() }
    }
}

/// The model of a list of messages.
pub open spec fn messages_model(messages: Seq<ModelMessage>) -> Seq<MessageModel> {
    messages.map_values(|message: ModelMessage| message@)
}

/// Semantic output contract requested by a component.
///
/// An adapter may meet it with a native schema feature, constrained decoding, prompting,
/// or another mechanism.
#[derive(Debug, Clone, Copy, PartialEq, Eq, Structural)]
pub enum ModelOutput {
    Text,
    JsonObject,
}

#[derive(Debug)]
pub struct ModelRequest {
    pub messages: Vec<ModelMessage>,
    pub temperature: Double,
    pub output: ModelOutput,
    pub max_output_tokens: Option<u32>,
}

/// The model of a request; the temperature is given by its bits and its text.
pub struct RequestModel {
    pub messages: Seq<MessageModel>,
    pub temperature: (u64, Seq<char>),
    pub output: ModelOutput,
    pub max_output_tokens: Option<u32>,
}

impl View for ModelRequest {
    type V = RequestModel;

    open spec fn view(&self) -> RequestModel {
        RequestModel {
            messages: messages_model(self.messages@),
            temperature: (self.temperature.bits, self.temperature.text@),
            output: self.output,
            max_output_tokens: self.max_output_tokens,
        }
    }
}

/// A request for one JSON object.
pub open spec fn json_request(
    messages: Seq<MessageModel>,
    temperature: (u64, Seq<char>),
) -> RequestModel {
    RequestModel { messages, temperature, output: ModelOutput::JsonObject, max_output_tokens: None }
}

impl ModelRequest {
    /// Request one JSON object. Used by the structured control surfaces.
    pub fn json(messages: Vec<ModelMessage>, temperature: Double) -> (made: Self)
        ensures
            made@ == json_request(
                messages_model(messages@),
                (temperature.bits, temperature.text@),
            ),
    {
        ModelRequest {
            messages,
            temperature,
            output: ModelOutput::JsonObject,
            max_output_tokens: None,
        }
    }

    /// Request unconstrained text.
    pub fn text(messages: Vec<ModelMessage>, temperature: Double) -> (made: Self)
        ensures
            made@ == (RequestModel {
                messages: messages_model(messages@),
                temperature: (temperature.bits, temperature.text@),
                output: ModelOutput::Text,
                max_output_tokens: None,
            }),
    {
        ModelRequest { messages, temperature, output: ModelOutput::Text, max_output_tokens: None }
    }

    pub fn with_max_output_tokens(self, max_output_tokens: u32) -> (made: Self)
        ensures
            made@ == (RequestModel { max_output_tokens: Some(max_output_tokens), ..self@ }),
    {
        ModelRequest { max_output_tokens: Some(max_output_tokens), ..self }
    }
}

/// Provider- and transport-neutral failures crossing the model seam.
#[derive(Debug)]
pub enum ModelError {
    Transport(String),
    InvalidResponse(String),
    MissingOutput,
    Other(String),
}

impl ModelError {
    /// The message of a failure.
    pub open spec fn text(self) -> Seq<char> {
        match self {
            ModelError::Transport(detail) => "model transport error: "@ + detail@,
            ModelError::InvalidResponse(detail) => "model returned an invalid response: "@
                + detail@,
            ModelError::MissingOutput => "model returned no output"@,
            ModelError::Other(detail) => "model error: "@ + detail@,
        }
    }

    /// The message of a failure.
    pub fn message(&self) -> (text: String)
        ensures
            text@ == self.text(),
    {
        match self {
            ModelError::Transport(detail) => labelled("model transport error: ", detail.as_str()),
            ModelError::InvalidResponse(detail) => labelled(
                "model returned an invalid response: ",
                detail.as_str(),
            ),
            ModelError::MissingOutput => "model returned no output".to_owned(),
            ModelError::Other(detail) => labelled("model error: ", detail.as_str()),
        }
    }
}

/// What became of a model call that was to yield a structured value: the call failed, its
/// output could not be read as such a value, or it was read.
#[derive(Debug)]
pub enum ModelReply<T> {
    Failed(ModelError),
    Unreadable(String),
    Read(T),
}

/// A label followed by a detail.
pub fn labelled(label: &str, detail: &str) -> (text: String)
    ensures
        text@ == label@ + detail@,
{
    let mut text = label.to_owned();
    text.append(detail);
    text
}

/// A double with the given bits and shortest decimal text.
pub fn double(bits: u64, text: &str) -> (made: Double)
    ensures
        made.bits == bits,
        made.text@ == text@,
{
    Double { bits, text: text.to_owned() }
}

// ---- laws ---------------------------------------------------------------------------

/// Every role has its own name, and a failure's message says its kind and its detail.
pub proof fn model_names_are_stable(role: ModelRole, detail: String)
    ensures
        role is System <==> role_name(role) == "system"@,
        role is User <==> role_name(role) == "user"@,
        role is Assistant <==> role_name(role) == "assistant"@,
        ModelError::Transport(detail).text() == "model transport error: "@ + detail@,
        ModelError::InvalidResponse(detail).text() == "model returned an invalid response: "@
            + detail@,
        ModelError::MissingOutput.text() == "model returned no output"@,
        ModelError::Other(detail).text() == "model error: "@ + detail@,
{
    reveal_strlit("system");
    reveal_strlit("user");
    reveal_strlit("assistant");
    assert("system"@.len() == 6 && "user"@.len() == 4 && "assistant"@.len() == 9);
}

/// A request for JSON asks for one object, with exactly the given messages and temperature
/// and without a limit.
pub proof fn a_json_request_keeps_its_messages(
    messages: Seq<MessageModel>,
    temperature: (u64, Seq<char>),
)
    ensures
        json_request(messages, temperature).messages == messages,
        json_request(messages, temperature).temperature == temperature,
        json_request(messages, temperature).output is JsonObject,
        json_request(messages, temperature).max_output_tokens is None,
{
}

/// A message and a request stand for exactly what they hold.
pub proof fn requests_stand_for_what_they_hold(request: ModelRequest, i: int)
    ensures
        request@.messages.len() == request.messages@.len(),
        0 <= i < request.messages@.len() ==> request@.messages[i] == (
            request.messages@[i].role,
            request.messages@[i].content@,
        ),
        request@.temperature == (request.temperature.bits, request.temperature.text@),
        request@.output == request.output,
        request@.max_output_tokens == request.max_output_tokens,
{
}

} // verus!
