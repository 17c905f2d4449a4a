//! Adapter for gateways that accept the chat-completions JSON request shape while owning
//! model selection and routing themselves.
//!
//! The adapter decides what is sent and how a reply is read; sending is left to the
//! program around it.

use vstd::prelude::*;
use vstd::string::*;

use crate::json::{count, member, object, object1, object2, string, Double, Json, Member, Number};
use crate::model::{ModelError, ModelMessage, ModelOutput, ModelRequest};

#[allow(unused_imports)]
use crate::json::{Num, Tree};
#[allow(unused_imports)]
use crate::model::{MessageModel, RequestModel};

verus! {

/// The default time limit of one request, in nanoseconds: 60 seconds.
pub const DEFAULT_TIMEOUT: u128 = 60_000_000_000;

/// How to reach one gateway. It names no model.
#[derive(Debug)]
pub struct ChatCompletionsClient {
    base_url: String,
    api_key: Option<String>,
    timeout_nanos: u128,
}

/// A text without its trailing slashes.
pub open spec fn without_slashes(s: Seq<char>) -> Seq<char>
    decreases s.len(),
{
    if s.len() > 0 && s.last() == '/' {
        without_slashes(s.drop_last())
    } else {
        s
    }
}

/// A text without its trailing slashes.
fn trim_slashes(s: &str) -> (out: String)
    ensures
        out@ == without_slashes(s@),
{
    let mut end: usize = s.unicode_len();
    assert(s@.take(end as int) =~= s@);
    while end > 0 && s.get_char(end - 1) == '/'
        invariant
            end <= s@.len(),
            without_slashes(s@) == without_slashes(s@.take(end as int)),
        decreases end,
    {
        assert(s@.take(end as int).drop_last() =~= s@.take(end - 1));
        end = end - 1;
    }
    s.substring_char(0, end).to_owned()
}

/// One message as JSON.
pub open spec fn message_tree(message: MessageModel) -> Tree {
    Tree::Object(
        seq![
            ("content"@, Tree::Text(message.1)),
            ("role"@, Tree::Text(crate::model::role_name(message.0))),
        ],
    )
}

/// The body that is sent for a request.
pub open spec fn payload_tree(request: RequestModel) -> Tree {
    Tree::Object(
        (match request.max_output_tokens {
            Some(n) => seq![("max_tokens"@, Tree::Number(Num::Int(n as int)))],
            None => seq![],
        }) + seq![
            ("messages"@, Tree::Array(request.messages.map_values(|m: MessageModel| message_tree(m)))),
        ] + (if request.output is JsonObject {
            seq![
                (
                    "response_format"@,
                    Tree::Object(seq![("type"@, Tree::Text("json_object"@))]),
                ),
            ]
        } else {
            seq![]
        }) + seq![
            (
                "temperature"@,
                Tree::Number(Num::Float(request.temperature.0, request.temperature.1)),
            ),
        ],
    )
}

/// One HTTP request: where to, with which body, and as whom.
#[derive(Debug)]
pub struct HttpCall {
    pub url: String,
    pub body: Json,
    pub bearer: Option<String>,
}

/// What came back of an HTTP request: why nothing arrived, why the body could not be
/// read, or the contents of the choices in it.
#[derive(Debug)]
pub enum HttpReply {
    TransportFailed(String),
    InvalidBody(String),
    Choices(Vec<Option<String>>),
}

fn messages_json(messages: &Vec<ModelMessage>) -> (made: Json)
    ensures
        made@ == Tree::Array(
            crate::model::messages_model(messages@).map_values(|m: MessageModel| message_tree(m)),
        ),
{
    let ghost goal = crate::model::messages_model(messages@).map_values(
        |m: MessageModel| message_tree(m),
    );
    let mut values: Vec<Json> = Vec::new();
    let mut i: usize = 0;
    while i < messages.len()
        invariant
            i <= messages.len(),
            values.len() == i,
            goal.len() == messages.len(),
            goal == crate::model::messages_model(messages@).map_values(
                |m: MessageModel| message_tree(m),
            ),
            forall|j: int| 0 <= j < i ==> (#[trigger] values[j])@ == goal[j],
        decreases messages.len() - i,
    {
        let content = string(messages[i].content.as_str());
        proof {
            reveal_strlit("content");
            reveal_strlit("role");
            crate::ordering::smaller_at("content"@, "role"@, 0);
        }
        values.push(object2("content", content, "role", string(messages[i].role.name())));
        i = i + 1;
    }
    let made = Json::Array(values);
    assert(made@->Array_0 =~= goal);
    made
}

fn number(d: &Double) -> (made: Json)
    ensures
        made@ == Tree::Number(Num::Float(d.bits, d.text@)),
{
    Json::Number(Number::Float(Double { bits: d.bits, text: d.text.clone() }))
}

fn json_object_format() -> (made: Json)
    ensures
        made@ == Tree::Object(seq![("type"@, Tree::Text("json_object"@))]),
{
    object1("type", string("json_object"))
}

impl ChatCompletionsClient {
    pub closed spec fn base(self) -> Seq<char> {
        self.base_url@
    }

    pub closed spec fn key(self) -> Option<Seq<char>> {
        match self.api_key {
            Some(key) => Some(key@),
            None => None,
        }
    }

    pub closed spec fn time_limit(self) -> u128 {
        self.timeout_nanos
    }

    pub fn new(base_url: &str, api_key: Option<String>) -> (client: Self)
        ensures
            client.base() == without_slashes(base_url@),
            client.key() == (match api_key {
                Some(key) => Some(key@),
                None => None,
            }),
            client.time_limit() == DEFAULT_TIMEOUT == 60_000_000_000,
    {
        ChatCompletionsClient::with_timeout(base_url, api_key, DEFAULT_TIMEOUT)
    }

    pub fn with_timeout(base_url: &str, api_key: Option<String>, timeout_nanos: u128) -> (client:
        Self)
        ensures
            client.base() == without_slashes(base_url@),
            client.key() == (match api_key {
                Some(key) => Some(key@),
                None => None,
            }),
            client.time_limit() == timeout_nanos,
    {
        ChatCompletionsClient { base_url: trim_slashes(base_url), api_key, timeout_nanos }
    }

    /// The time limit of one request, in nanoseconds.
    pub fn timeout_nanos(&self) -> (nanos: u128)
        ensures
            nanos == self.time_limit(),
    {
        self.timeout_nanos
    }

    /// The body that is sent for a request.
    pub fn payload(&self, request: &ModelRequest) -> (body: Json)
        ensures
            body@ == payload_tree(request@),
    {
        let mut members: Vec<Member> = Vec::new();
        if let Some(max_output_tokens) = request.max_output_tokens {
            members.push(member("max_tokens", count(max_output_tokens as u64)));
        }
        members.push(member("messages", messages_json(&request.messages)));
        if request.output == ModelOutput::JsonObject {
            members.push(member("response_format", json_object_format()));
        }
        members.push(member("temperature", number(&request.temperature)));
        proof {
            assert(crate::json::given(members@) =~= payload_tree(request@)->Object_0);
            crate::ordering::payloads_are_ordered(request@);
        }
        object(members)
    }

    /// The HTTP request that asks the gateway to complete a request.
    pub fn complete(&self, request: &ModelRequest) -> (call: HttpCall)
        ensures
            call.url@ == self.base() + "/v1/chat/completions"@,
            call.body@ == payload_tree(request@),
            (match call.bearer {
                Some(key) => Some(key@),
                None => None,
            }) == self.key(),
    {
        let mut url = self.base_url.clone();
        url.append("/v1/chat/completions");
        let bearer = match &self.api_key {
            Some(key) => Some(key.clone()),
            None => None,
        };
        HttpCall { url, body: self.payload(request), bearer }
    }

    /// What the model said: the content of the first choice.
    pub fn completed(&self, reply: HttpReply) -> (output: Result<String, ModelError>)
        ensures
            match reply {
                HttpReply::TransportFailed(detail) => output == Err::<String, _>(
                    ModelError::Transport(detail),
                ),
                HttpReply::InvalidBody(detail) => output == Err::<String, _>(
                    ModelError::InvalidResponse(detail),
                ),
                HttpReply::Choices(choices) => if choices.len() > 0 && choices[0] is Some {
                    output == Ok::<_, ModelError>(choices[0]->0)
                } else {
                    output == Err::<String, _>(ModelError::MissingOutput)
                },
            },
    {
        match reply {
            HttpReply::TransportFailed(detail) => Err(ModelError::Transport(detail)),
            HttpReply::InvalidBody(detail) => Err(ModelError::InvalidResponse(detail)),
            HttpReply::Choices(choices) => {
                let mut choices = choices;
                if choices.len() == 0 {
                    return Err(ModelError::MissingOutput);
                }
                match choices.remove(0) {
                    Some(content) => Ok(content),
                    None => Err(ModelError::MissingOutput),
                }
            },
        }
    }
}

/// No request selects a model, and a request for unconstrained text without a limit
/// carries neither an output format nor a limit.
pub proof fn the_payload_selects_no_model(request: RequestModel)
    ensures
        payload_tree(request).get("model"@) is None,
        request.output is Text ==> payload_tree(request).get("response_format"@) is None,
        request.max_output_tokens is None ==> payload_tree(request).get("max_tokens"@) is None,
{
    reveal_strlit("model");
    reveal_strlit("max_tokens");
    reveal_strlit("messages");
    reveal_strlit("response_format");
    reveal_strlit("temperature");
    assert("model"@.len() == 5);
    assert("max_tokens"@.len() == 10);
    assert("messages"@.len() == 8);
    assert("response_format"@.len() == 15);
    assert("temperature"@.len() == 11);
    let members = payload_tree(request)->Object_0;
    crate::keyed::find_finds_entries(members, "model"@);
    crate::keyed::find_finds_entries(members, "response_format"@);
    crate::keyed::find_finds_entries(members, "max_tokens"@);
    assert forall|i: int| 0 <= i < members.len() implies (#[trigger] members[i]).0 == "messages"@
        || members[i].0 == "temperature"@ || (members[i].0 == "max_tokens"@
        && request.max_output_tokens is Some) || (members[i].0 == "response_format"@
        && request.output is JsonObject) by {}
}

/// The body carries the request: every message in order with its role and content, the
/// temperature, the JSON format exactly where an object is asked for, and the limit where
/// there is one.
pub proof fn the_payload_carries_the_request(request: RequestModel, i: int)
    ensures
        ({
            let body = payload_tree(request);
            &&& body.get("messages"@) matches Some(Tree::Array(items)) && items.len()
                == request.messages.len() && (0 <= i < items.len() ==> items[i].get("content"@)
                == Some(Tree::Text(request.messages[i].1)) && items[i].get("role"@) == Some(
                Tree::Text(
                    match request.messages[i].0 {
                        crate::model::ModelRole::System => "system"@,
                        crate::model::ModelRole::User => "user"@,
                        crate::model::ModelRole::Assistant => "assistant"@,
                    },
                ),
            ))
            &&& body.get("temperature"@) == Some(
                Tree::Number(Num::Float(request.temperature.0, request.temperature.1)),
            )
            &&& request.output is JsonObject ==> (body.get("response_format"@) matches Some(format)
                && format.get("type"@) == Some(Tree::Text("json_object"@)))
            &&& request.max_output_tokens matches Some(n) ==> body.get("max_tokens"@) == Some(
                Tree::Number(Num::Int(n as int)),
            )
        }),
{
    crate::ordering::payloads_are_ordered(request);
    let members = payload_tree(request)->Object_0;
    let first = if request.max_output_tokens is Some {
        1int
    } else {
        0int
    };
    if request.max_output_tokens is Some {
        assert(members[0].0 == "max_tokens"@);
        crate::ordering::a_member_is_found(members, 0);
    }
    assert(members[first].0 == "messages"@);
    crate::ordering::a_member_is_found(members, first);
    if request.output is JsonObject {
        assert(members[first + 1].0 == "response_format"@);
        crate::ordering::a_member_is_found(members, first + 1);
        let format = members[first + 1].1;
        crate::json::members_are_read_by_name(format->Object_0, 0, ""@);
    }
    assert(members[members.len() - 1].0 == "temperature"@);
    crate::ordering::a_member_is_found(members, members.len() - 1);
    if 0 <= i < request.messages.len() {
        reveal_strlit("content");
        reveal_strlit("role");
        assert("content"@.len() == 7 && "role"@.len() == 4);
        let message = message_tree(request.messages[i])->Object_0;
        crate::json::members_are_read_by_name(message, 0, ""@);
        crate::json::members_are_read_by_name(message, 1, ""@);
    }
}

/// An address loses exactly the slashes that it ends with.
pub proof fn an_address_loses_its_trailing_slashes(s: Seq<char>)
    ensures
        without_slashes(s).len() <= s.len(),
        without_slashes(s) == s.take(without_slashes(s).len() as int),
        without_slashes(s).len() > 0 ==> without_slashes(s).last() != '/',
        forall|i: int| without_slashes(s).len() <= i < s.len() ==> #[trigger] s[i] == '/',
    decreases s.len(),
{
    if s.len() > 0 && s.last() == '/' {
        let shorter = s.drop_last();
        an_address_loses_its_trailing_slashes(shorter);
        assert(without_slashes(s) =~= s.take(without_slashes(s).len() as int));
        assert forall|i: int| without_slashes(s).len() <= i < s.len() implies #[trigger] s[i]
            == '/' by {
            if i < shorter.len() {
                assert(shorter[i] == '/');
            }
        }
    } else {
        assert(s.take(s.len() as int) =~= s);
    }
}

/// A request goes to the gateway's own address under its key, and its reply is the first
/// choice; a reply without one, or that could not be read or did not arrive, is an error of
/// its own kind.
pub proof fn a_gateway_is_asked_and_heard(
    client: ChatCompletionsClient,
    request: ModelRequest,
    call: HttpCall,
    reply: HttpReply,
    output: Result<String, ModelError>,
)
    ensures
        call_ensures(ChatCompletionsClient::complete, (&client, &request), call) ==> call.url@
            == client.base() + "/v1/chat/completions"@ && call.body@ == payload_tree(request@) && (
        call.bearer matches Some(key) ==> client.key() == Some(key@)) && (call.bearer is None
            ==> client.key() is None),
        call_ensures(ChatCompletionsClient::completed, (&client, reply), output) ==> {
            &&& reply matches HttpReply::Choices(choices) ==> (choices@.len() > 0 && choices@[0]
                is Some ==> (output matches Ok(text) && Some(text) == choices@[0])) && (
            choices@.len() == 0 || choices@[0] is None ==> (output matches Err(error) && error
                is MissingOutput))
            &&& reply matches HttpReply::TransportFailed(why) ==> output == Err::<String, _>(
                ModelError::Transport(why),
            )
            &&& reply matches HttpReply::InvalidBody(why) ==> output == Err::<String, _>(
                ModelError::InvalidResponse(why),
            )
        },
{
}

} // verus!
