use std::sync::Arc;

use seam::api::{
    ApiError, ApiReply, ApiRun, ApiStage, ClientCommand, ClientEvent, CommandAck, EventEnvelope,
    KernelRequest, MessageRole, OrchestrationApi, TicketState, TicketView, API_VERSION,
};
use seam::kernel::{KernelOutcome, KernelTicketEvent};
use seam::projection::InMemoryProjection;
use seam::protocol::{
    ArtifactRef, AuthorityEnvelope, ContextItem, Ticket, WorkerReport, WorkerStatus,
};
use seam::work::KernelError;
use uuid::Uuid;

fn api() -> OrchestrationApi<(), ()> {
    OrchestrationApi::new(Arc::new(()), Arc::new(()))
}

fn ticket(id: u128) -> Ticket {
    Ticket {
        id,
        conversation_id: 1,
        objective: "inspect CI".to_string(),
        context: vec![ContextItem { label: "a".to_string(), value: "b".to_string() }],
        constraints: vec!["c".to_string()],
        deliverable: "a cause".to_string(),
        authority: AuthorityEnvelope::default(),
    }
}

fn report(ticket_id: u128) -> WorkerReport {
    WorkerReport {
        worker_id: 5,
        ticket_id,
        conversation_id: 1,
        status: WorkerStatus::Blocked,
        summary: "stuck".to_string(),
        artifacts: vec![
            ArtifactRef { name: "one".to_string(), uri: "u1".to_string() },
            ArtifactRef { name: "two".to_string(), uri: "u2".to_string() },
        ],
        notes: Vec::new(),
    }
}

/// Publishes into a projection and answers the kernel's requests with one outcome.
struct Shell {
    projection: InMemoryProjection,
    published: Vec<String>,
    asked: Vec<String>,
    event_ids: Vec<u128>,
    outcome: Option<Result<KernelOutcome, KernelError>>,
    /// The sink refuses the event of this number.
    refuse_at: Option<usize>,
}

fn tell(event: &ClientEvent) -> String {
    match event {
        ClientEvent::MessageCreated { role, text, .. } => format!("message {role:?} {text}"),
        ClientEvent::TicketCreated { ticket } => format!("created {} {:?}", ticket.id, ticket.state),
        ClientEvent::TicketUpdated { ticket_id, context } => {
            format!("updated {ticket_id} {}", context.len())
        }
        ClientEvent::TicketStateChanged { ticket_id, state, summary } => {
            format!("state {ticket_id} {state:?} {summary:?}")
        }
        ClientEvent::ArtifactCreated { ticket_id, artifact } => {
            format!("artifact {ticket_id} {}", artifact.name)
        }
    }
}

impl Shell {
    fn new(outcome: Result<KernelOutcome, KernelError>) -> Self {
        Shell {
            projection: InMemoryProjection::default(),
            published: Vec::new(),
            asked: Vec::new(),
            event_ids: Vec::new(),
            outcome: Some(outcome),
            refuse_at: None,
        }
    }

    fn publish(&mut self, envelope: &EventEnvelope) -> Result<(), ApiError> {
        if self.refuse_at == Some(self.published.len()) {
            return Err(ApiError::EventSink("closed".to_string()));
        }
        assert_eq!(envelope.api_version, API_VERSION);
        self.published.push(tell(&envelope.event));
        self.event_ids.push(envelope.event_id);
        self.projection.publish(envelope.clone())
    }

    fn drive(
        &mut self,
        api: &OrchestrationApi<(), ()>,
        run: ApiRun,
    ) -> Result<Option<CommandAck>, ApiError> {
        let mut run = run;
        loop {
            let reply = match &run.stage {
                ApiStage::Publishing { envelope, .. } => {
                    ApiReply::Published(self.publish(envelope))
                }
                ApiStage::Asking { request } => {
                    self.asked.push(match request {
                        KernelRequest::UserTurn { text } => format!("turn {text}"),
                        KernelRequest::CancelTicket { ticket_id } => format!("cancel {ticket_id}"),
                        KernelRequest::UpdateTicket { ticket_id, context } => {
                            format!("update {ticket_id} {}", context.len())
                        }
                        KernelRequest::WorkerResult { report } => {
                            format!("report {}", report.ticket_id)
                        }
                    });
                    ApiReply::Outcome(self.outcome.take().expect("an outcome"))
                }
                ApiStage::Finished { .. } => break,
            };
            run = api.step(run, reply);
        }
        match run.stage {
            ApiStage::Finished { result } => result,
            _ => unreachable!(),
        }
    }
}

fn outcome(messages: &[&str], ticket_events: Vec<KernelTicketEvent>) -> KernelOutcome {
    KernelOutcome {
        user_messages: messages.iter().map(|m| m.to_string()).collect(),
        ticket_events,
    }
}

#[test]
fn a_message_is_published_then_taken_up_then_answered() {
    let api = api();
    let mut shell = Shell::new(Ok(outcome(
        &["working on it", "more"],
        vec![
            KernelTicketEvent::Submitted { ticket: ticket(9) },
            KernelTicketEvent::Cancelled { ticket_id: 4 },
        ],
    )));
    let command =
        ClientCommand::SendMessage { conversation_id: 1, text: "why is CI failing?".to_string() };
    let ack = shell.drive(&api, api.execute(command)).expect("accepted").expect("an ack");
    assert_eq!(ack.api_version, "v1");
    assert!(ack.accepted);
    assert_eq!(Uuid::from_u128(ack.command_id).get_version_num(), 4);
    assert_eq!(shell.asked, ["turn why is CI failing?"]);
    assert_eq!(
        shell.published,
        [
            "message User why is CI failing?",
            "message Assistant working on it",
            "message Assistant more",
            "created 9 Queued",
            "state 4 Cancelled None",
        ]
    );
    let mut ids = shell.event_ids.clone();
    ids.sort();
    ids.dedup();
    assert_eq!(ids.len(), 5, "every event has its own identifier");

    let view = shell.projection.conversation(1).expect("projection");
    let messages: Vec<(MessageRole, &str)> =
        view.messages.iter().map(|m| (m.role, m.text.as_str())).collect();
    assert_eq!(
        messages,
        [
            (MessageRole::User, "why is CI failing?"),
            (MessageRole::Assistant, "working on it"),
            (MessageRole::Assistant, "more"),
        ]
    );
    assert_eq!(view.tickets.len(), 1);
    let seen = shell.projection.ticket(9).expect("read").expect("the ticket");
    assert_eq!(seen.objective, "inspect CI");
    assert_eq!(seen.context[0].value, "b");
    assert_eq!(seen.state, TicketState::Queued);
    assert!(shell.projection.ticket(4).expect("read").is_none());
}

#[test]
fn a_refused_command_is_answered_with_its_error_and_publishes_nothing() {
    let api = api();
    let mut shell = Shell::new(Err(KernelError::TicketNotInConversation(3)));
    let command = ClientCommand::CancelTicket { conversation_id: 1, ticket_id: 3 };
    let error = shell.drive(&api, api.execute(command)).expect_err("refused");
    assert_eq!(
        error.message(),
        format!(
            "orchestration kernel error: ticket {} does not belong to this conversation",
            Uuid::from_u128(3)
        )
    );
    assert_eq!(shell.asked, ["cancel 3"]);
    assert!(shell.published.is_empty());
}

#[test]
fn an_update_is_announced() {
    let api = api();
    let context = vec![ContextItem { label: "x".to_string(), value: "y".to_string() }];
    let mut shell = Shell::new(Ok(outcome(
        &[],
        vec![KernelTicketEvent::Updated {
            ticket_id: 3,
            context: context.iter().map(|c| c.clone()).collect(),
        }],
    )));
    let command = ClientCommand::UpdateTicket { conversation_id: 1, ticket_id: 3, context };
    assert!(shell.drive(&api, api.execute(command)).expect("accepted").is_some());
    assert_eq!(shell.asked, ["update 3 1"]);
    assert_eq!(shell.published, ["updated 3 1"]);
}

#[test]
fn a_closed_sink_stops_a_message_before_its_turn() {
    let api = api();
    let mut shell = Shell::new(Ok(outcome(&[], Vec::new())));
    shell.refuse_at = Some(0);
    let command = ClientCommand::SendMessage { conversation_id: 1, text: "hi".to_string() };
    let error = shell.drive(&api, api.execute(command)).expect_err("closed");
    assert_eq!(error.message(), "event sink error: closed");
    assert!(shell.asked.is_empty());
}

#[test]
fn a_sink_that_closes_midway_stops_the_rest() {
    let api = api();
    let mut shell = Shell::new(Ok(outcome(&["a", "b", "c"], Vec::new())));
    shell.refuse_at = Some(2);
    let command = ClientCommand::SendMessage { conversation_id: 1, text: "hi".to_string() };
    assert!(shell.drive(&api, api.execute(command)).is_err());
    assert_eq!(shell.published, ["message User hi", "message Assistant a"]);
}

#[test]
fn a_ticket_is_followed_from_start_to_report() {
    let api = api();
    let mut shell = Shell::new(Ok(outcome(
        &["it is stuck"],
        vec![KernelTicketEvent::WorkerReported { report: report(9) }],
    )));
    shell
        .projection
        .publish(EventEnvelope {
            api_version: API_VERSION.to_string(),
            event_id: 0,
            conversation_id: 1,
            event: ClientEvent::TicketCreated { ticket: TicketView::from(&ticket(9)) },
        })
        .expect("published");
    assert!(shell.drive(&api, api.ticket_started(1, 9)).expect("started").is_none());
    assert_eq!(
        shell.projection.ticket(9).expect("read").expect("the ticket").state,
        TicketState::Running
    );
    assert!(shell.drive(&api, api.worker_report(report(9))).expect("reported").is_none());
    assert_eq!(shell.asked, ["report 9"]);
    assert_eq!(
        shell.published,
        [
            "state 9 Running None",
            "message Assistant it is stuck",
            "state 9 Blocked Some(\"stuck\")",
            "artifact 9 one",
            "artifact 9 two",
        ]
    );
    let seen = shell.projection.ticket(9).expect("read").expect("the ticket");
    assert_eq!(seen.state, TicketState::Blocked);
    assert_eq!(seen.summary.as_deref(), Some("stuck"));
    let names: Vec<&str> = seen.artifacts.iter().map(|a| a.name.as_str()).collect();
    assert_eq!(names, ["one", "two"]);
}

#[test]
fn given_identifiers_are_used_as_they_are() {
    let api = api();
    let command = ClientCommand::SendMessage { conversation_id: 1, text: "hi".to_string() };
    let run = api.execute_with(command, 10, 11, 12);
    assert_eq!(run.command_id, Some(10));
    match &run.stage {
        ApiStage::Publishing { envelope, .. } => {
            assert_eq!(envelope.event_id, 12);
            assert!(matches!(
                &envelope.event,
                ClientEvent::MessageCreated { message_id: 11, role: MessageRole::User, .. }
            ));
        }
        other => panic!("{other:?}"),
    }
    let run = api.step_with(run, ApiReply::Published(Ok(())), 13, &Vec::new());
    let run = api.step_with(
        run,
        ApiReply::Outcome(Ok(outcome(&["yes"], Vec::new()))),
        14,
        &vec![15],
    );
    match &run.stage {
        ApiStage::Publishing { envelope, .. } => {
            assert_eq!(envelope.event_id, 14);
            assert!(matches!(
                &envelope.event,
                ClientEvent::MessageCreated { message_id: 15, role: MessageRole::Assistant, .. }
            ));
        }
        other => panic!("{other:?}"),
    }
}

#[test]
fn events_on_unknown_tickets_and_other_conversations_change_nothing() {
    let mut projection = InMemoryProjection::default();
    let mut publish = |conversation_id: u128, event: ClientEvent| {
        projection
            .publish(EventEnvelope {
                api_version: API_VERSION.to_string(),
                event_id: 0,
                conversation_id,
                event,
            })
            .expect("published");
    };
    publish(1, ClientEvent::TicketCreated { ticket: TicketView::from(&ticket(9)) });
    publish(
        2,
        ClientEvent::TicketStateChanged {
            ticket_id: 9,
            state: TicketState::Failed,
            summary: None,
        },
    );
    publish(
        1,
        ClientEvent::ArtifactCreated {
            ticket_id: 8,
            artifact: ArtifactRef { name: "n".to_string(), uri: "u".to_string() },
        },
    );
    publish(
        1,
        ClientEvent::TicketUpdated {
            ticket_id: 9,
            context: vec![ContextItem { label: "x".to_string(), value: "y".to_string() }],
        },
    );
    let view = projection.conversation(1).expect("projection");
    assert_eq!(view.tickets.len(), 1);
    assert_eq!(view.tickets[&9].state, TicketState::Queued);
    assert_eq!(view.tickets[&9].context.len(), 2);
    assert_eq!(view.tickets[&9].context[1].label, "x");
    assert!(projection.conversation(2).expect("projection").tickets.is_empty());
    let blank = projection.conversation(3).expect("projection");
    assert!(blank.messages.is_empty() && blank.tickets.is_empty());
}

#[test]
fn a_status_becomes_a_state() {
    assert_eq!(TicketState::from(&WorkerStatus::Completed), TicketState::Completed);
    assert_eq!(TicketState::from(&WorkerStatus::Blocked), TicketState::Blocked);
    assert_eq!(TicketState::from(&WorkerStatus::Failed), TicketState::Failed);
    let error = ApiError::from(KernelError::Work("x".to_string()));
    assert_eq!(error.message(), "orchestration kernel error: work controller error: x");
}
