use seam::chat_completions::{ChatCompletionsClient, HttpReply, DEFAULT_TIMEOUT};
use seam::json::{Double, Json};
use seam::model::{double, ModelError, ModelMessage, ModelOutput, ModelRequest, ModelRole};
use serde_json::Value;

fn warmth(value: f32) -> Double {
    let wide = f64::from(value);
    double(wide.to_bits(), &Value::from(wide).to_string())
}

fn parsed(body: &Json) -> Value {
    let text = body.to_text();
    let value: Value = serde_json::from_str(&text).expect("JSON");
    assert_eq!(value.to_string(), text);
    value
}

#[test]
fn adapter_maps_output_contract_without_selecting_a_model() {
    let client = ChatCompletionsClient::new("http://localhost:1234", None);
    let request = ModelRequest::json(vec![ModelMessage::user("work")], warmth(0.1))
        .with_max_output_tokens(512);

    let payload = client.payload(&request);

    assert!(payload.get("model").is_none());
    let payload = parsed(&payload);
    assert!(payload.get("model").is_none());
    assert_eq!(payload["messages"][0]["role"], "user");
    assert_eq!(payload["messages"][0]["content"], "work");
    assert_eq!(payload["response_format"]["type"], "json_object");
    assert_eq!(payload["max_tokens"], 512);
    assert_eq!(payload["temperature"], f64::from(0.1f32));
}

#[test]
fn text_requests_do_not_gain_adapter_specific_json_constraints() {
    let client = ChatCompletionsClient::new("http://localhost:1234", None);
    let payload =
        client.payload(&ModelRequest::text(vec![ModelMessage::user("work")], warmth(0.1)));

    assert!(payload.get("response_format").is_none());
    assert!(payload.get("max_tokens").is_none());
}

#[test]
fn requests_say_what_they_were_built_with() {
    let request = ModelRequest::text(
        vec![ModelMessage::system("s"), ModelMessage::user("u"), ModelMessage::assistant("a")],
        warmth(0.5),
    );
    assert_eq!(request.output, ModelOutput::Text);
    assert_eq!(request.max_output_tokens, None);
    let roles: Vec<ModelRole> = request.messages.iter().map(|m| m.role).collect();
    assert_eq!(roles, [ModelRole::System, ModelRole::User, ModelRole::Assistant]);
    let payload =
        parsed(&ChatCompletionsClient::new("x", None).payload(&request));
    assert_eq!(payload["messages"][0]["role"], "system");
    assert_eq!(payload["messages"][2]["role"], "assistant");
    assert_eq!(payload["temperature"], 0.5);
}

#[test]
fn the_address_is_joined_without_doubled_slashes() {
    for base in ["http://h:1", "http://h:1/", "http://h:1///"] {
        let client = ChatCompletionsClient::new(base, Some("SECRET".to_string()));
        let call = client.complete(&ModelRequest::text(Vec::new(), warmth(0.0)));
        assert_eq!(call.url, "http://h:1/v1/chat/completions");
        assert_eq!(call.bearer.as_deref(), Some("SECRET"));
        assert_eq!(call.body.to_text(), r#"{"messages":[],"temperature":0.0}"#);
        assert_eq!(client.timeout_nanos(), DEFAULT_TIMEOUT);
    }
    let client = ChatCompletionsClient::with_timeout("///", None, 5);
    let call = client.complete(&ModelRequest::text(Vec::new(), warmth(0.0)));
    assert_eq!(call.url, "/v1/chat/completions");
    assert!(call.bearer.is_none());
    assert_eq!(client.timeout_nanos(), 5);
    assert_eq!(DEFAULT_TIMEOUT, 60 * 1_000_000_000);
}

#[test]
fn the_first_choice_is_the_output() {
    let client = ChatCompletionsClient::new("x", None);
    let choices = |items: Vec<Option<&str>>| {
        client.completed(HttpReply::Choices(
            items.into_iter().map(|c| c.map(|t| t.to_string())).collect(),
        ))
    };
    assert_eq!(choices(vec![Some("one"), Some("two")]).expect("output"), "one");
    assert!(matches!(choices(vec![]), Err(ModelError::MissingOutput)));
    assert!(matches!(choices(vec![None, Some("two")]), Err(ModelError::MissingOutput)));
    let error = client
        .completed(HttpReply::TransportFailed("refused".to_string()))
        .expect_err("no transport");
    assert_eq!(error.message(), "model transport error: refused");
    let error = client
        .completed(HttpReply::InvalidBody("not JSON".to_string()))
        .expect_err("no body");
    assert_eq!(error.message(), "model returned an invalid response: not JSON");
    assert_eq!(ModelError::MissingOutput.message(), "model returned no output");
    assert_eq!(ModelError::Other("x".to_string()).message(), "model error: x");
}
