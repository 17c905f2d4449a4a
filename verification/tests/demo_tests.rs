use std::sync::Arc;

use seam::api::{ClientEvent, MessageRole, TicketState, TicketView};
use seam::authority::BrokerError;
use seam::demo::gateway::{gateway_for, DemoGateway, LiveConfig, Role, ScriptedGateway};
use seam::demo::narration::{
    describe, event_text, operation_text, outcome_texts, short_id_text, translation_texts,
};
use seam::demo::script::{
    broker_script, orchestrator_script, requested_capabilities, search_result, worker_script,
};
use seam::demo::support::{
    DemoWorkController, InMemoryConversationStore, NarratingTranslator, NarratingWorkbench,
    PrintingSink, RecordingMemory,
};
use seam::json::{count, member, object, string, strings, truth, Json};
use seam::model::{double, ModelError, ModelMessage, ModelRequest};
use seam::protocol::{
    ArtifactRef, AuthorityEnvelope, CapabilityInvocation, Ticket, WorkState, WorkerReport,
    WorkerStatus,
};
use seam::workbench::WorkerError;
use serde_json::Value;
use uuid::Uuid;

fn request() -> ModelRequest {
    ModelRequest::text(Vec::new(), double(0, "0.0"))
}

fn ticket(id: u128) -> Ticket {
    Ticket {
        id,
        conversation_id: 1,
        objective: "inspect CI".to_string(),
        context: Vec::new(),
        constraints: Vec::new(),
        deliverable: "a cause".to_string(),
        authority: AuthorityEnvelope::default(),
    }
}

#[test]
fn a_script_is_replayed_and_then_repeats_its_last_reply() {
    let mut gateway = ScriptedGateway::new(
        Role::Worker,
        vec!["one".to_string(), "two".to_string(), "three".to_string()],
    );
    let replies: Vec<String> =
        (0..5).map(|_| gateway.complete(&request()).expect("a reply")).collect();
    assert_eq!(replies, ["one", "two", "three", "three", "three"]);
    let mut empty = ScriptedGateway::new(Role::BrokerSlm, Vec::new());
    assert!(matches!(
        empty.complete(&request()),
        Err(ModelError::Other(detail)) if detail == "broker SLM script empty"
    ));
    assert_eq!(Role::Orchestrator.label(), "orchestrator (frontier)");
    assert_eq!(Role::Worker.label(), "worker");
}

#[test]
fn a_gateway_is_live_exactly_if_an_address_is_configured() {
    assert!(LiveConfig::from_env(None, Some("key".to_string())).is_none());
    let config = LiveConfig::from_env(Some("http://h/".to_string()), None).expect("configured");
    match gateway_for(Role::Worker, Some(&config), Vec::new()) {
        DemoGateway::Live(client) => {
            assert_eq!(client.complete(&request()).url, "http://h/v1/chat/completions");
        }
        other => panic!("{other:?}"),
    }
    match gateway_for(Role::Worker, None, vec!["hi".to_string()]) {
        DemoGateway::Scripted(mut scripted) => {
            assert_eq!(scripted.complete(&request()).expect("a reply"), "hi");
        }
        other => panic!("{other:?}"),
    }
}

#[test]
fn the_conversation_store_gives_the_latest_messages_of_one_conversation() {
    let mut store = InMemoryConversationStore::default();
    for n in 0..6u128 {
        store
            .append(n % 2, ModelMessage::user(&format!("m{n}")))
            .expect("appended");
    }
    let texts = |conversation: u128, limit: usize| -> Vec<String> {
        store
            .recent(conversation, limit)
            .expect("recent")
            .into_iter()
            .map(|m| m.content)
            .collect()
    };
    assert_eq!(texts(0, 24), ["m0", "m2", "m4"]);
    assert_eq!(texts(1, 2), ["m3", "m5"]);
    assert!(texts(1, 0).is_empty());
    assert!(texts(7, 5).is_empty());
}

#[test]
fn the_memory_records_what_is_admitted() {
    let mut memory = RecordingMemory::default();
    assert!(memory.admitted().is_empty());
    memory.store("one").expect("stored");
    memory.store("two").expect("stored");
    assert_eq!(memory.admitted(), ["one", "two"]);
    assert!(memory.retrieve("one", 8).expect("retrieved").is_empty());
}

#[test]
fn the_dispatcher_hands_each_ticket_out_once() {
    let mut work = DemoWorkController::default();
    work.submit(ticket(1)).expect("submitted");
    work.submit(ticket(2)).expect("submitted");
    let pending: Vec<u128> = work.take_pending().into_iter().map(|t| t.id).collect();
    assert_eq!(pending, [1, 2]);
    assert!(work.take_pending().is_empty());
    work.assign(1, 9).expect("assigned");
    work.update(1, Vec::new()).expect("updated");
    assert_eq!(work.ticket_owner(1).expect("owner"), Some(1));
    let report = WorkerReport {
        worker_id: 9,
        ticket_id: 1,
        conversation_id: 1,
        status: WorkerStatus::Completed,
        summary: "done".to_string(),
        artifacts: Vec::new(),
        notes: Vec::new(),
    };
    work.accept_report(&report).expect("accepted");
    assert!(work.accept_report(&report).is_err());
    let active = work.active_work(1).expect("active");
    assert_eq!(active.len(), 1);
    assert_eq!((active[0].id, active[0].state), (2, WorkState::Queued));
    work.cancel(2).expect("cancelled");
    assert!(work.cancel(2).is_err());
    assert!(work.assign(3, 9).is_err());
}

#[test]
fn the_scripts_are_the_json_that_the_models_would_give() {
    let orchestrator = orchestrator_script();
    assert_eq!(orchestrator.len(), 2);
    for text in orchestrator.iter().chain(worker_script().iter()).chain(broker_script().iter()) {
        let value: Value = serde_json::from_str(text).expect("JSON");
        assert_eq!(&value.to_string(), text);
    }
    let first: Value = serde_json::from_str(&orchestrator[0]).expect("JSON");
    assert_eq!(first["actions"][0]["type"], "respond");
    assert_eq!(first["actions"][1]["type"], "submit");
    let authority = &first["actions"][1]["ticket"]["authority"];
    assert_eq!(authority["local"]["execute_local"], true);
    let asked: Vec<&str> = authority["external_capabilities"]
        .as_array()
        .expect("array")
        .iter()
        .map(|c| c.as_str().expect("text"))
        .collect();
    assert_eq!(asked, requested_capabilities());
    assert_eq!(asked, ["web.search", "communication.email.send"]);
    let second: Value = serde_json::from_str(&orchestrator[1]).expect("JSON");
    assert_eq!(
        second["memory_proposals"][0],
        "The Seam workspace targets the Rust 2024 edition."
    );
    let worker = worker_script();
    assert_eq!(worker.len(), 5);
    assert_eq!(
        worker[1],
        r#"{"arguments":{"limit":400,"path":"Cargo.toml"},"operation":"read_file","type":"local"}"#
    );
    assert_eq!(
        broker_script(),
        [r#"{"arguments":{"query":"Rust 2024 edition changes"},"capability":"web.search"}"#]
    );
}

#[test]
fn the_search_provider_echoes_its_arguments() {
    let answer = search_result(object(vec![member("query", string("seam"))]));
    let value: Value = serde_json::from_str(&answer.to_text()).expect("JSON");
    assert_eq!(value["echoed_arguments"]["query"], "seam");
    assert_eq!(value["results"][0]["title"], "Rust 2024 edition — release notes");
}

#[test]
fn results_are_described_in_one_line() {
    let entries = object(vec![member(
        "entries",
        strings(&vec!["a".to_string(), "b".to_string()]),
    )]);
    assert_eq!(describe(&entries), "2 entries");
    let read = object(vec![
        member("bytes_returned", count(400)),
        member("total_bytes", count(1234)),
        member("truncated", truth(true)),
    ]);
    assert_eq!(describe(&read), "400 of 1234 bytes (truncated=true)");
    let bare = object(vec![member("total_bytes", count(3))]);
    assert_eq!(describe(&bare), "0 of 3 bytes (truncated=false)");
    assert_eq!(describe(&string("é")), "\"é\"");
    let long = "é".repeat(100);
    let shown = describe(&string(&long));
    assert_eq!(shown.chars().count(), 60);
    assert!(shown.starts_with("\"éé"));
}

#[test]
fn events_are_narrated() {
    let id = 0x0123_4567_89ab_cdef_0123_4567_89ab_cdef;
    assert_eq!(short_id_text(id), "01234567");
    assert_eq!(short_id_text(id), Uuid::from_u128(id).to_string()[..8].to_string());
    let line = |event: ClientEvent| event_text(&event);
    assert_eq!(
        line(ClientEvent::MessageCreated {
            message_id: 1,
            role: MessageRole::User,
            text: "hi".to_string()
        }),
        "  [event] message_created   User: hi"
    );
    assert_eq!(
        line(ClientEvent::TicketCreated { ticket: TicketView::from(&ticket(id)) }),
        "  [event] ticket_created    01234567 — inspect CI"
    );
    assert_eq!(
        line(ClientEvent::TicketUpdated { ticket_id: id, context: Vec::new() }),
        "  [event] ticket_updated    01234567"
    );
    assert_eq!(
        line(ClientEvent::TicketStateChanged {
            ticket_id: id,
            state: TicketState::Running,
            summary: None
        }),
        "  [event] ticket_state      01234567 -> Running"
    );
    assert_eq!(
        line(ClientEvent::ArtifactCreated {
            ticket_id: id,
            artifact: ArtifactRef { name: "log".to_string(), uri: "u".to_string() }
        }),
        "  [event] artifact_created  log"
    );
}

#[test]
fn operations_and_translations_are_narrated() {
    let arguments = object(vec![
        member("path", string("src")),
        member("program", string("ls")),
    ]);
    assert_eq!(operation_text("read_file", &arguments), "  [local ] read_file src");
    assert_eq!(operation_text("exec", &arguments), "  [local ] exec ls");
    assert_eq!(operation_text("list_dir", &Json::Null), "  [local ] list_dir .");
    assert_eq!(operation_text("exec", &Json::Null), "  [local ] exec ?");
    assert_eq!(operation_text("other", &arguments), "  [local ] other ");
    assert_eq!(outcome_texts(&Ok(Json::Null)), ["           -> ok  null"]);
    let denied = outcome_texts(&Err(WorkerError::Denied("no".to_string())));
    assert_eq!(denied.len(), 3);
    assert_eq!(denied[0], "           -> DENIED  local authority denied: no");
    assert_eq!(
        outcome_texts(&Err(WorkerError::Local("no".to_string()))),
        ["           -> error  local workbench error: no"]
    );
    let invocation =
        CapabilityInvocation { capability: "web.search".to_string(), arguments: Json::Null };
    assert_eq!(
        translation_texts(&Ok(invocation))[0],
        "           SLM translated -> web.search null"
    );
    assert_eq!(
        translation_texts(&Err(BrokerError::CapabilityGap)),
        ["           translation failed: no capability matches request"]
    );
}

#[test]
fn decorators_hold_what_they_decorate() {
    let projection = Arc::new(7);
    assert_eq!(*PrintingSink::new(projection).projection, 7);
    assert_eq!(NarratingWorkbench(1).0, 1);
    assert_eq!(NarratingTranslator("t").0, "t");
}
