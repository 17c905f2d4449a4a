use std::sync::Arc;

use seam::authority::{BrokerError, InMemoryTicketAuthorityStore};
use seam::broker::{
    worker_result, CapabilityBroker, CapabilityDescriptor, OperationalMemory, ProviderEntry,
    SlmTranslator, TRANSLATOR_PROMPT,
};
use seam::capability_set::CapabilitySet;
use seam::json::{object, Double, Json, Member, Number};
use seam::model::{ModelError, ModelOutput, ModelReply, ModelRole};
use seam::protocol::{
    AuthorityEnvelope, CapabilityFailure, CapabilityInvocation, CapabilityRequest,
    CapabilityResult, LocalAuthority,
};
use serde_json::Value;
use uuid::Uuid;

fn tree(value: &Value) -> Json {
    match value {
        Value::Null => Json::Null,
        Value::Bool(b) => Json::Bool(*b),
        Value::Number(n) => Json::Number(if let Some(u) = n.as_u64() {
            Number::PosInt(u)
        } else if let Some(i) = n.as_i64() {
            Number::NegInt(i)
        } else {
            Number::Float(Double {
                bits: n.as_f64().expect("a double").to_bits(),
                text: n.to_string(),
            })
        }),
        Value::String(s) => Json::String(s.clone()),
        Value::Array(items) => Json::Array(items.iter().map(tree).collect()),
        Value::Object(members) => object(
            members
                .iter()
                .map(|(name, value)| Member { name: name.clone(), value: tree(value) })
                .collect(),
        ),
    }
}

fn json(text: &str) -> Json {
    tree(&serde_json::from_str(text).expect("JSON"))
}

fn new_id() -> u128 {
    Uuid::new_v4().as_u128()
}

fn search_descriptor() -> CapabilityDescriptor {
    CapabilityDescriptor {
        name: "web.search".to_string(),
        description: "Search the public web.".to_string(),
        argument_schema: json(
            r#"{
                "type": "object",
                "properties": {"query": {"type": "string"}},
                "required": ["query"],
                "additionalProperties": false
            }"#,
        ),
    }
}

fn envelope(capabilities: &[&str]) -> AuthorityEnvelope {
    AuthorityEnvelope {
        local: LocalAuthority::default(),
        external_capabilities: CapabilitySet::from_names(
            capabilities.iter().map(|c| c.to_string()).collect(),
        ),
    }
}

fn invocation(capability: &str, arguments: &str) -> CapabilityInvocation {
    CapabilityInvocation { capability: capability.to_string(), arguments: json(arguments) }
}

fn search_invocation() -> CapabilityInvocation {
    invocation("web.search", r#"{"query": "seam"}"#)
}

/// The rank that the deployment's scoring gives: cost, latency, then health.
fn rank(cost: f64, latency_ms: u64, health: f64) -> u64 {
    (cost * 1000.0 + latency_ms as f64 / 1000.0 + (1.0 - health.clamp(0.0, 1.0)) * 100.0).to_bits()
}

struct Harness {
    broker: CapabilityBroker<(), ()>,
    store: InMemoryTicketAuthorityStore,
    /// How often each provider ran, by number.
    calls: Vec<usize>,
    ranks: Vec<u64>,
    answer: Result<Json, BrokerError>,
    shortlist: Vec<String>,
    ticket_id: u128,
    worker_id: u128,
}

impl Harness {
    fn with_providers(providers: &[(&str, u64)]) -> Self {
        let mut broker = CapabilityBroker::new(Arc::new(()), Arc::new(()));
        broker.register_capability(search_descriptor());
        for (id, _) in providers {
            broker.register_provider(ProviderEntry {
                id: id.to_string(),
                capability: "web.search".to_string(),
            });
        }
        Harness {
            broker,
            store: InMemoryTicketAuthorityStore::default(),
            calls: vec![0; providers.len()],
            ranks: providers.iter().map(|(_, rank)| *rank).collect(),
            answer: Ok(json(r#"{"found": true}"#)),
            shortlist: Vec::new(),
            ticket_id: new_id(),
            worker_id: new_id(),
        }
    }

    fn new() -> Self {
        Harness::with_providers(&[("demo.search", rank(0.0, 5, 1.0))])
    }

    fn grant(&mut self, capabilities: &[&str]) {
        self.store.grant(self.ticket_id, self.worker_id, envelope(capabilities));
    }

    fn execute(
        &mut self,
        translated: Result<CapabilityInvocation, BrokerError>,
    ) -> Result<CapabilityResult, BrokerError> {
        let request = CapabilityRequest {
            worker_id: self.worker_id,
            ticket_id: self.ticket_id,
            request: "find the seam docs".to_string(),
        };
        let call = self.broker.execute(request);
        let authority = self.store.authority_for(call.ticket_id, call.worker_id);
        let call = self.broker.authorized(call, authority)?;
        self.shortlist = call.candidates.iter().map(|c| c.name.clone()).collect();
        let scoring = self.broker.translated(call, translated)?;
        let ranks = scoring.providers.iter().map(|p| self.ranks[*p]).collect();
        let call = self.broker.scored(scoring, &ranks)?;
        self.calls[call.provider] += 1;
        let answer = match &self.answer {
            Ok(data) => Ok(data.clone()),
            Err(error) => Err(BrokerError::Provider(error.message())),
        };
        assert!(self.broker.operational_memory().has_room(
            &call.provider_id,
            5_000_000,
            answer.is_ok()
        ));
        self.broker.completed(call, 5_000_000, answer)
    }

    fn provider_calls(&self) -> usize {
        self.calls.iter().sum()
    }
}

#[test]
fn executes_a_valid_authorized_invocation() {
    let mut harness = Harness::new();
    harness.grant(&["web.search"]);

    let result = harness.execute(Ok(search_invocation())).expect("execute");
    assert_eq!(result.capability, "web.search");
    assert_eq!(result.data.to_text(), r#"{"found":true}"#);
    assert_eq!(result.metadata.to_text(), "{}");
    assert_eq!(harness.provider_calls(), 1);
}

#[test]
fn a_worker_cannot_act_on_a_ticket_it_was_not_assigned() {
    let mut harness = Harness::new();
    // The grant belongs to a different worker.
    harness.store.grant(harness.ticket_id, new_id(), envelope(&["web.search"]));

    let error = harness.execute(Ok(search_invocation())).expect_err("must be denied");
    assert!(matches!(error, BrokerError::Denied(_)), "{}", error.message());
    assert_eq!(error.message(), "capability denied: worker is not assigned to this ticket");
    assert_eq!(harness.provider_calls(), 0);
}

#[test]
fn a_request_with_no_registered_grant_is_denied() {
    let mut harness = Harness::new();
    // Nothing granted: the broker has no record of this ticket.
    let error = harness.execute(Ok(search_invocation())).expect_err("must be denied");
    assert!(matches!(error, BrokerError::Denied(_)), "{}", error.message());
    assert_eq!(error.message(), "capability denied: no grant for this ticket");
    assert_eq!(harness.provider_calls(), 0);
}

#[test]
fn a_revoked_grant_stops_further_calls() {
    let mut harness = Harness::new();
    harness.grant(&["web.search"]);
    harness.execute(Ok(search_invocation())).expect("first call succeeds");

    harness.store.revoke(harness.ticket_id);

    let error =
        harness.execute(Ok(search_invocation())).expect_err("must be denied after revoke");
    assert!(matches!(error, BrokerError::Denied(_)), "{}", error.message());
    assert_eq!(harness.provider_calls(), 1, "no provider call after revoke");
}

#[test]
fn invalid_slm_arguments_never_reach_a_provider() {
    let mut harness = Harness::new();
    harness.grant(&["web.search"]);

    // No `query`, plus a property the schema does not permit.
    let error = harness
        .execute(Ok(invocation("web.search", r#"{"command": "rm -rf /"}"#)))
        .expect_err("invalid arguments refused");
    assert!(matches!(error, BrokerError::InvalidArguments(_)), "{}", error.message());
    assert_eq!(
        error.message(),
        "invalid capability arguments: arguments: missing required property `query`"
    );
    assert_eq!(harness.provider_calls(), 0, "provider must not be invoked");
}

#[test]
fn a_capability_outside_the_granted_authority_is_denied() {
    let mut harness = Harness::new();
    harness.grant(&["web.search"]);

    // The SLM names a capability the ticket's grant does not carry.
    let error = harness
        .execute(Ok(invocation("infrastructure.host.inspect", "{}")))
        .expect_err("unauthorized capability");
    assert!(matches!(error, BrokerError::Denied(_)), "{}", error.message());
    assert_eq!(error.message(), "capability denied: infrastructure.host.inspect");
    assert_eq!(harness.provider_calls(), 0);
}

#[test]
fn a_grant_with_no_capabilities_reports_a_gap() {
    let mut harness = Harness::new();
    harness.grant(&[]);

    let error = harness.execute(Ok(search_invocation())).expect_err("no candidates");
    assert!(matches!(error, BrokerError::CapabilityGap), "{}", error.message());
}

#[test]
fn the_cheapest_healthy_provider_is_selected_deterministically() {
    let mut harness = Harness::with_providers(&[
        ("expensive", rank(1.0, 5, 1.0)),
        ("cheap", rank(0.0, 5, 1.0)),
    ]);
    harness.grant(&["web.search"]);

    harness.execute(Ok(search_invocation())).expect("execute");

    assert_eq!(harness.calls[1], 1);
    assert_eq!(harness.calls[0], 0);
}

#[test]
fn successful_calls_are_recorded_in_operational_memory() {
    let mut harness = Harness::new();
    harness.grant(&["web.search"]);

    harness.execute(Ok(search_invocation())).expect("execute");

    // The provider is named in telemetry, which is exactly where it should be.
    let snapshot = harness.broker.operational_memory().snapshot();
    let telemetry = snapshot
        .iter()
        .find(|entry| entry.provider == "demo.search")
        .expect("telemetry")
        .telemetry;
    assert_eq!(telemetry.calls, 1);
    assert_eq!(telemetry.failures, 0);
    assert_eq!(telemetry.total_latency_ms, 5);
}

#[test]
fn worker_facing_codes_do_not_leak_provider_detail() {
    let error = BrokerError::Provider("github-mcp socket error: 503 at 10.0.0.4".into());
    assert_eq!(error.code(), "CAPABILITY_TEMPORARILY_UNAVAILABLE");
    assert!(!error.code().contains("10.0.0.4"));
}

#[test]
fn every_error_has_its_code_and_message() {
    let cases = [
        (BrokerError::Denied("x".into()), "CAPABILITY_DENIED", "capability denied: x"),
        (BrokerError::CapabilityGap, "CAPABILITY_GAP", "no capability matches request"),
        (
            BrokerError::ProviderUnavailable("x".into()),
            "CAPABILITY_TEMPORARILY_UNAVAILABLE",
            "no provider is available for x",
        ),
        (
            BrokerError::Translation("x".into()),
            "CAPABILITY_REQUEST_NOT_UNDERSTOOD",
            "invalid SLM translation: x",
        ),
        (
            BrokerError::InvalidArguments("x".into()),
            "CAPABILITY_ARGUMENTS_INVALID",
            "invalid capability arguments: x",
        ),
        (
            BrokerError::Provider("x".into()),
            "CAPABILITY_TEMPORARILY_UNAVAILABLE",
            "provider failed: x",
        ),
    ];
    for (error, code, message) in cases {
        assert_eq!(error.code(), code);
        assert_eq!(error.failure().code(), code);
        assert_eq!(error.message(), message);
    }
    let messages = [
        (CapabilityFailure::Denied, "capability denied"),
        (CapabilityFailure::Gap, "no capability matches the request"),
        (CapabilityFailure::TemporarilyUnavailable, "capability temporarily unavailable"),
        (CapabilityFailure::RequestNotUnderstood, "capability request not understood"),
        (CapabilityFailure::InvalidArguments, "capability arguments invalid"),
    ];
    for (failure, message) in messages {
        assert_eq!(failure.message(), message);
    }
}

#[test]
fn a_failed_provider_is_recorded_and_its_error_returned() {
    let mut harness = Harness::new();
    harness.grant(&["web.search"]);
    harness.answer = Err(BrokerError::Provider("timeout".to_string()));

    let error = harness.execute(Ok(search_invocation())).expect_err("provider failed");
    assert!(matches!(error, BrokerError::Provider(_)));
    let told = worker_result(Err(error)).expect_err("the worker is told");
    assert_eq!(told, CapabilityFailure::TemporarilyUnavailable);
    let telemetry = harness.broker.operational_memory().telemetry("demo.search");
    assert_eq!((telemetry.calls, telemetry.failures), (1, 1));
}

#[test]
fn a_granted_but_unregistered_capability_is_a_gap() {
    let mut harness = Harness::new();
    harness.grant(&["web.search", "web.fetch"]);
    let error = harness.execute(Ok(invocation("web.fetch", "{}"))).expect_err("gap");
    assert!(matches!(error, BrokerError::CapabilityGap));
    assert_eq!(harness.shortlist, ["web.search"]);
}

#[test]
fn a_capability_without_a_provider_is_unavailable() {
    let mut harness = Harness::with_providers(&[]);
    harness.grant(&["web.search"]);
    let error = harness.execute(Ok(search_invocation())).expect_err("nobody serves it");
    assert_eq!(error.message(), "no provider is available for web.search");
    assert_eq!(error.code(), "CAPABILITY_TEMPORARILY_UNAVAILABLE");
}

#[test]
fn a_translation_failure_is_passed_on() {
    let mut harness = Harness::new();
    harness.grant(&["web.search"]);
    let error = harness
        .execute(Err(BrokerError::Translation("no idea".to_string())))
        .expect_err("not understood");
    assert_eq!(error.message(), "invalid SLM translation: no idea");
    assert_eq!(harness.provider_calls(), 0);
}

#[test]
fn equal_ranks_go_to_the_first_registered_provider() {
    let cases: [(&[f64], usize); 6] = [
        (&[1.0, 1.0, 1.0], 0),
        (&[2.0, 1.0, 1.0], 1),
        (&[0.0, -0.0], 1),
        (&[-1.0, -2.0, 3.0], 1),
        (&[f64::NAN, f64::INFINITY], 1),
        (&[5.0, f64::NEG_INFINITY, -1e300], 1),
    ];
    for (ranks, expected) in cases {
        let providers: Vec<(&str, u64)> = ranks.iter().map(|r| ("p", r.to_bits())).collect();
        let mut harness = Harness::with_providers(&providers);
        harness.grant(&["web.search"]);
        harness.execute(Ok(search_invocation())).expect("execute");
        assert_eq!(harness.calls[expected], 1, "{ranks:?}");
        let by_std = ranks
            .iter()
            .enumerate()
            .min_by(|a, b| a.1.total_cmp(b.1))
            .map(|(at, _)| at)
            .expect("a rank");
        assert_eq!(by_std, expected);
    }
}

#[test]
fn grants_are_read_back_for_their_worker_alone() {
    let mut store = InMemoryTicketAuthorityStore::default();
    store.grant(1, 10, envelope(&["a", "b"]));
    store.grant(2, 20, envelope(&["c"]));
    let granted = store.authority_for(1, 10).expect("granted");
    assert_eq!(granted.external_capabilities.names().as_slice(), ["a", "b"]);
    assert!(granted.local.read_workspace && !granted.local.write_workspace);
    assert!(store.authority_for(1, 20).is_err());
    store.grant(1, 11, envelope(&[]));
    assert!(store.authority_for(1, 10).is_err());
    store.revoke(1);
    assert!(store.authority_for(1, 11).is_err());
    assert!(store.authority_for(2, 20).is_ok());
}

#[test]
fn registering_a_capability_again_replaces_it() {
    let mut harness = Harness::new();
    harness.broker.register_capability(CapabilityDescriptor {
        name: "web.search".to_string(),
        description: "Anything goes.".to_string(),
        argument_schema: json("true"),
    });
    harness.grant(&["web.search"]);
    harness.execute(Ok(invocation("web.search", "[1]"))).expect("the new schema counts");
    assert_eq!(harness.shortlist, ["web.search"]);
}

#[test]
fn the_memory_counts_each_provider_on_its_own() {
    let mut memory = OperationalMemory::default();
    memory.record("a", 1_999_999, true);
    memory.record("b", 3_000_000, false);
    memory.record("a", 2_000_001, false);
    let a = memory.telemetry("a");
    assert_eq!((a.calls, a.failures, a.total_latency_ms), (2, 1, 3));
    let b = memory.telemetry("b");
    assert_eq!((b.calls, b.failures, b.total_latency_ms), (1, 1, 3));
    let unknown = memory.telemetry("c");
    assert_eq!((unknown.calls, unknown.failures, unknown.total_latency_ms), (0, 0, 0));
    assert!(memory.has_room("a", u128::MAX, true));
    let names: Vec<String> = memory.snapshot().into_iter().map(|e| e.provider).collect();
    assert_eq!(names, ["a", "b"]);
}

#[test]
fn the_translator_shows_the_request_and_the_shortlist_alone() {
    let translator = SlmTranslator::new(Arc::new(()));
    let request = CapabilityRequest {
        worker_id: 1,
        ticket_id: 2,
        request: "find \"docs\"".to_string(),
    };
    let asked = translator.translate(&request, &vec![search_descriptor()]);
    assert_eq!(asked.output, ModelOutput::JsonObject);
    assert_eq!(asked.max_output_tokens, None);
    assert_eq!(asked.temperature.bits, f64::from(0.0f32).to_bits());
    assert_eq!(asked.messages.len(), 2);
    assert_eq!(asked.messages[0].role, ModelRole::System);
    assert_eq!(asked.messages[0].content, TRANSLATOR_PROMPT);
    assert_eq!(asked.messages[1].role, ModelRole::User);
    let shown: Value = serde_json::from_str(&asked.messages[1].content).expect("JSON");
    assert_eq!(shown.to_string(), asked.messages[1].content);
    assert_eq!(shown["request"], "find \"docs\"");
    assert_eq!(shown["capabilities"][0]["name"], "web.search");
    assert_eq!(shown["capabilities"][0]["argument_schema"]["required"][0], "query");
}

#[test]
fn a_translation_is_read_from_the_reply() {
    let translator = SlmTranslator::new(Arc::new(()));
    let read = translator.translated(ModelReply::Read(search_invocation())).expect("read");
    assert_eq!(read.capability, "web.search");
    let error = translator
        .translated(ModelReply::Failed(ModelError::MissingOutput))
        .expect_err("the model failed");
    assert_eq!(error.message(), "invalid SLM translation: model returned no output");
    let error = translator
        .translated(ModelReply::Unreadable("expected value".to_string()))
        .expect_err("unreadable");
    assert_eq!(error.message(), "invalid SLM translation: expected value");
}

#[test]
fn full_counters_have_no_room() {
    let mut memory = OperationalMemory::default();
    let mut calls: u64 = 0;
    while memory.has_room("slow", u128::MAX, true) {
        memory.record("slow", u128::MAX, true);
        calls += 1;
    }
    assert_eq!(calls, 1_000_000);
    assert_eq!(memory.telemetry("slow").total_latency_ms, u128::MAX / 1_000_000 * 1_000_000);
    assert!(memory.has_room("slow", 999_999, true));
    assert!(memory.has_room("other", u128::MAX, true));
}
