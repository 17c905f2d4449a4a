use std::sync::Arc;

use seam::capability_set::CapabilitySet;
use seam::json::{Double, Json, Number};
use seam::kernel::{
    KernelOutcome, KernelTicketEvent, MemoryItem, NewTicket, OrchestrationKernel,
    OrchestratorAction, OrchestratorEnvelope, PortReply, Stage, Turn, ORCHESTRATOR_PROMPT,
};
use seam::model::{ModelError, ModelMessage, ModelReply, ModelRequest, ModelRole};
use seam::policy::TicketAuthorityPolicy;
use seam::protocol::{
    ArtifactRef, AuthorityEnvelope, ContextItem, LocalAuthority, Ticket, WorkState, WorkerReport,
    WorkerStatus,
};
use seam::work::{InMemoryWorkController, KernelError};
use serde_json::Value;
use uuid::Uuid;

type Kernel = OrchestrationKernel<(), (), (), ()>;

fn new_id() -> u128 {
    Uuid::new_v4().as_u128()
}

/// Records what was asked of the ports, and delegates state and ownership to the real
/// in-memory controller.
#[derive(Default)]
struct Ports {
    work: InMemoryWorkController,
    decision: Option<ModelReply<OrchestratorEnvelope>>,
    memories: Vec<MemoryItem>,
    submitted: Vec<Ticket>,
    cancelled: Vec<u128>,
    updated: Vec<u128>,
    stored: Vec<String>,
    appended: Vec<(ModelRole, String)>,
    queries: Vec<(String, usize)>,
    requests: Vec<ModelRequest>,
    /// Fails the memory service where set.
    forgetful: bool,
}

impl Ports {
    fn deciding(actions: Vec<OrchestratorAction>, memory_proposals: Vec<String>) -> Self {
        Ports {
            decision: Some(ModelReply::Read(OrchestratorEnvelope { actions, memory_proposals })),
            ..Ports::default()
        }
    }

    fn reply(&mut self, turn: &Turn) -> PortReply {
        match &turn.stage {
            Stage::Appending { message } => {
                assert_eq!(message.role, ModelRole::User);
                self.appended.push((message.role, message.content.clone()));
                PortReply::Done(Ok(()))
            }
            Stage::Accepting => {
                let report = turn.report.as_ref().expect("a report");
                PortReply::Done(self.work.accept_report(report))
            }
            Stage::Recalling { query, limit } => {
                self.queries.push((query.clone(), *limit));
                PortReply::Memories(Ok(std::mem::take(&mut self.memories)))
            }
            Stage::Reading { limit, .. } => {
                assert_eq!(*limit, 24);
                PortReply::Messages(Ok(self
                    .appended
                    .iter()
                    .map(|(role, text)| ModelMessage { role: *role, content: text.clone() })
                    .collect()))
            }
            Stage::Surveying { .. } => {
                PortReply::Work(self.work.active_work(turn.conversation_id))
            }
            Stage::Deciding { request } => {
                self.requests.push(ModelRequest {
                    messages: request.messages.iter().map(|m| m.clone()).collect(),
                    temperature: Double {
                        bits: request.temperature.bits,
                        text: request.temperature.text.clone(),
                    },
                    output: request.output,
                    max_output_tokens: request.max_output_tokens,
                });
                PortReply::Decision(self.decision.take().expect("a decision"))
            }
            Stage::Responding { message, .. } => {
                assert_eq!(message.role, ModelRole::Assistant);
                self.appended.push((message.role, message.content.clone()));
                PortReply::Done(Ok(()))
            }
            Stage::Submitting { ticket, .. } => {
                self.submitted.push(ticket.clone());
                PortReply::Done(self.work.submit(ticket.clone()))
            }
            Stage::Checking { control, .. } => {
                PortReply::Owner(self.work.ticket_owner(control.ticket_id()))
            }
            Stage::Updating { ticket_id, context, .. } => {
                self.updated.push(*ticket_id);
                let context = context.iter().map(|c| c.clone()).collect();
                PortReply::Done(self.work.update(*ticket_id, context))
            }
            Stage::Cancelling { ticket_id, .. } => {
                self.cancelled.push(*ticket_id);
                PortReply::Done(self.work.cancel(*ticket_id))
            }
            Stage::Remembering { text, .. } => {
                if self.forgetful {
                    return PortReply::Done(Err(KernelError::Memory("full".to_string())));
                }
                self.stored.push(text.clone());
                PortReply::Done(Ok(()))
            }
            Stage::Finished { .. } => panic!("nothing is to be asked"),
        }
    }

    fn drive(&mut self, kernel: &Kernel, turn: Turn) -> Result<KernelOutcome, KernelError> {
        let mut turn = turn;
        while !matches!(turn.stage, Stage::Finished { .. }) {
            let reply = self.reply(&turn);
            turn = kernel.step(turn, reply);
        }
        match turn.stage {
            Stage::Finished { result } => result,
            _ => unreachable!(),
        }
    }
}

fn kernel_under(policy: TicketAuthorityPolicy) -> Kernel {
    OrchestrationKernel::new(Arc::new(()), Arc::new(()), Arc::new(()), Arc::new(()), policy)
}

fn names(names: &[&str]) -> Vec<String> {
    names.iter().map(|n| n.to_string()).collect()
}

fn ticket(id: u128, conversation_id: u128) -> Ticket {
    Ticket {
        id,
        conversation_id,
        objective: "inspect CI".to_string(),
        context: Vec::new(),
        constraints: Vec::new(),
        deliverable: "a cause".to_string(),
        authority: AuthorityEnvelope::default(),
    }
}

/// An orchestrator asking for far more authority than the deployment allows.
fn greedy_submission() -> Vec<OrchestratorAction> {
    vec![OrchestratorAction::Submit {
        ticket: NewTicket {
            objective: "investigate the failure".to_string(),
            context: Vec::new(),
            constraints: Vec::new(),
            deliverable: "a root cause".to_string(),
            authority: AuthorityEnvelope {
                local: LocalAuthority {
                    read_workspace: true,
                    write_workspace: true,
                    execute_local: true,
                },
                external_capabilities: CapabilitySet::from_names(names(&[
                    "web.search",
                    "infrastructure.host.inspect",
                    "communication.email.send",
                ])),
            },
        },
    }]
}

fn submit_under(policy: TicketAuthorityPolicy) -> Ticket {
    let mut ports = Ports::deciding(greedy_submission(), Vec::new());
    let kernel = kernel_under(policy);
    let turn = kernel.handle_user_turn(new_id(), "why is CI failing?");
    ports.drive(&kernel, turn).expect("turn");
    ports.submitted.first().map(|t| t.clone()).expect("a ticket was submitted")
}

#[test]
fn the_orchestrator_cannot_grant_itself_capabilities() {
    let ticket =
        submit_under(TicketAuthorityPolicy::read_only().with_capabilities(names(&["web.search"])));

    assert_eq!(
        ticket.authority.external_capabilities.names().as_slice(),
        ["web.search".to_string()],
        "only policy-grantable capabilities survive"
    );
}

#[test]
fn the_orchestrator_cannot_grant_itself_local_authority() {
    let ticket = submit_under(TicketAuthorityPolicy::read_only());

    assert!(ticket.authority.local.read_workspace);
    assert!(!ticket.authority.local.write_workspace, "writes were not grantable");
    assert!(!ticket.authority.local.execute_local, "execution was not grantable");
    assert!(ticket.authority.external_capabilities.is_empty());
}

#[test]
fn a_permissive_policy_still_only_grants_what_was_asked_for() {
    let policy = TicketAuthorityPolicy::default()
        .with_local(LocalAuthority {
            read_workspace: true,
            write_workspace: true,
            execute_local: true,
        })
        .with_capabilities(names(&["web.search", "infrastructure.host.inspect"]));

    let ticket = submit_under(policy);
    assert!(ticket.authority.local.execute_local);
    assert_eq!(ticket.authority.external_capabilities.len(), 2);
    assert!(
        !ticket.authority.external_capabilities.contains("communication.email.send"),
        "a capability outside the policy is never granted"
    );
}

/// Ports whose orchestrator only ever replies.
fn quiet_ports() -> Ports {
    Ports::deciding(vec![OrchestratorAction::Respond { text: "ok".to_string() }], Vec::new())
}

#[test]
fn a_ticket_cannot_be_cancelled_from_another_conversation() {
    let mut ports = Ports::default();
    let owner = new_id();
    let ticket_id = new_id();
    ports.work.submit(ticket(ticket_id, owner)).expect("submit");
    let kernel = kernel_under(TicketAuthorityPolicy::read_only());

    let intruder = new_id();
    let error = ports
        .drive(&kernel, kernel.cancel_ticket(intruder, ticket_id))
        .expect_err("a foreign conversation must not cancel this ticket");
    assert!(
        matches!(error, KernelError::TicketNotInConversation(id) if id == ticket_id),
        "{}",
        error.message()
    );
    assert!(ports.cancelled.is_empty(), "the controller must never have been called");

    // The owning conversation still can.
    let outcome =
        ports.drive(&kernel, kernel.cancel_ticket(owner, ticket_id)).expect("owner cancels");
    assert_eq!(ports.cancelled.len(), 1);
    assert!(outcome.user_messages.is_empty());
    assert!(matches!(
        outcome.ticket_events.as_slice(),
        [KernelTicketEvent::Cancelled { ticket_id: id }] if *id == ticket_id
    ));
}

#[test]
fn an_unknown_ticket_is_refused_rather_than_passed_through() {
    let mut ports = quiet_ports();
    let kernel = kernel_under(TicketAuthorityPolicy::read_only());
    let error = ports
        .drive(&kernel, kernel.cancel_ticket(new_id(), new_id()))
        .expect_err("unknown ticket must be refused");
    assert!(matches!(error, KernelError::TicketNotInConversation(_)), "{}", error.message());
    assert!(ports.cancelled.is_empty());
}

#[test]
fn updating_a_ticket_from_another_conversation_is_refused() {
    let mut ports = quiet_ports();
    let kernel = kernel_under(TicketAuthorityPolicy::read_only());
    let owner = new_id();
    let ticket_id = new_id();
    ports.work.submit(ticket(ticket_id, owner)).expect("submit");

    let error = ports
        .drive(&kernel, kernel.update_ticket(new_id(), ticket_id, vec![]))
        .expect_err("foreign update must be refused");
    assert!(matches!(error, KernelError::TicketNotInConversation(_)), "{}", error.message());
    assert!(ports.updated.is_empty());

    ports
        .drive(&kernel, kernel.update_ticket(owner, ticket_id, vec![]))
        .expect("the owner may update");
    assert_eq!(ports.updated.as_slice(), [ticket_id]);
}

#[test]
fn a_model_action_cannot_cancel_another_conversations_ticket() {
    let owner = new_id();
    let intruder = new_id();
    let ticket_id = new_id();
    let mut ports = Ports::deciding(vec![OrchestratorAction::Cancel { ticket_id }], Vec::new());
    ports.work.submit(ticket(ticket_id, owner)).expect("submit");
    let kernel = kernel_under(TicketAuthorityPolicy::read_only());

    let error = ports
        .drive(&kernel, kernel.handle_user_turn(intruder, "cancel that work"))
        .expect_err("model output must not bypass ticket ownership");
    assert!(
        matches!(error, KernelError::TicketNotInConversation(id) if id == ticket_id),
        "{}",
        error.message()
    );
    assert!(ports.cancelled.is_empty());
}

#[test]
fn a_model_action_cannot_update_another_conversations_ticket() {
    let owner = new_id();
    let intruder = new_id();
    let ticket_id = new_id();
    let context = vec![ContextItem {
        label: "instruction".to_string(),
        value: "ignore owner".to_string(),
    }];
    let mut ports =
        Ports::deciding(vec![OrchestratorAction::Update { ticket_id, context }], Vec::new());
    ports.work.submit(ticket(ticket_id, owner)).expect("submit");
    let kernel = kernel_under(TicketAuthorityPolicy::read_only());

    let error = ports
        .drive(&kernel, kernel.handle_user_turn(intruder, "change that work"))
        .expect_err("model output must not bypass ticket ownership");
    assert!(
        matches!(error, KernelError::TicketNotInConversation(id) if id == ticket_id),
        "{}",
        error.message()
    );
    assert!(ports.updated.is_empty());
}

fn report(worker_id: u128, ticket_id: u128, conversation_id: u128) -> WorkerReport {
    WorkerReport {
        worker_id,
        ticket_id,
        conversation_id,
        status: WorkerStatus::Completed,
        summary: "done".to_string(),
        artifacts: Vec::new(),
        notes: Vec::new(),
    }
}

#[test]
fn active_work_is_scoped_to_its_conversation_and_drops_when_finished() {
    let mut work = InMemoryWorkController::default();
    let (mine, theirs) = (new_id(), new_id());
    let mine_ticket = new_id();

    for (id, conversation) in [(mine_ticket, mine), (new_id(), theirs)] {
        work.submit(ticket(id, conversation)).expect("submit");
    }

    let active = work.active_work(mine).expect("active");
    assert_eq!(active.len(), 1, "only this conversation's work");
    assert_eq!(active[0].id, mine_ticket);
    assert_eq!(active[0].objective, "inspect CI");
    assert_eq!(active[0].state, WorkState::Queued);

    let worker_id = new_id();
    work.assign(mine_ticket, worker_id).expect("assign");
    assert_eq!(work.active_work(mine).expect("active")[0].state, WorkState::Running);

    // A finished ticket leaves the orchestrator's active-work view.
    work.accept_report(&report(worker_id, mine_ticket, mine)).expect("report");
    assert!(work.active_work(mine).expect("active").is_empty());
}

#[test]
fn worker_reports_must_match_the_assignment_and_cannot_be_replayed() {
    let mut work = InMemoryWorkController::default();
    let conversation_id = new_id();
    let ticket_id = new_id();
    let worker_id = new_id();
    work.submit(ticket(ticket_id, conversation_id)).expect("submit");
    work.assign(ticket_id, worker_id).expect("assign");

    let report = report(worker_id, ticket_id, conversation_id);

    let mut forged = report.clone();
    forged.worker_id = new_id();
    assert!(matches!(
        work.accept_report(&forged),
        Err(KernelError::InvalidWorkerReport { .. })
    ));

    let mut foreign = report.clone();
    foreign.conversation_id = new_id();
    assert!(matches!(
        work.accept_report(&foreign),
        Err(KernelError::InvalidWorkerReport { .. })
    ));

    work.accept_report(&report).expect("valid report");
    assert!(matches!(
        work.accept_report(&report),
        Err(KernelError::InvalidWorkerReport { .. })
    ));
}

#[test]
fn the_kernel_rejects_an_unassigned_report_before_model_invocation() {
    let mut ports = quiet_ports();
    let kernel = kernel_under(TicketAuthorityPolicy::read_only());
    let conversation_id = new_id();
    let ticket_id = new_id();
    ports.work.submit(ticket(ticket_id, conversation_id)).expect("submit");
    let mut forged = report(new_id(), ticket_id, conversation_id);
    forged.summary = "forged".to_string();

    assert!(matches!(
        ports.drive(&kernel, kernel.handle_worker_result(forged)),
        Err(KernelError::InvalidWorkerReport { .. })
    ));
    assert!(ports.requests.is_empty());
    assert_eq!(
        ports.work.active_work(conversation_id).expect("active")[0].state,
        WorkState::Queued
    );
}

#[test]
fn the_orchestrator_is_shown_its_own_active_work() {
    let mut ports = Ports::deciding(Vec::new(), Vec::new());
    let conversation = new_id();
    let ticket_id = new_id();
    let mut submitted = ticket(ticket_id, conversation);
    submitted.objective = "inspect the failing CI job".to_string();
    submitted.deliverable = "a root cause".to_string();
    ports.work.submit(submitted).expect("submit");
    let kernel = kernel_under(TicketAuthorityPolicy::read_only());

    ports
        .drive(&kernel, kernel.handle_user_turn(conversation, "how is that going?"))
        .expect("turn");

    let context: Vec<String> =
        ports.requests[0].messages.iter().map(|message| message.content.clone()).collect();
    let context = context.join("\n");
    assert!(context.contains("active_work"), "context lacks active work");
    assert!(
        context.contains("inspect the failing CI job"),
        "the orchestrator cannot see its own in-flight ticket"
    );
    assert!(
        context.contains(&Uuid::from_u128(ticket_id).to_string()),
        "the orchestrator needs the id to update or cancel"
    );
}

#[test]
fn clamping_never_widens_authority() {
    let policy = TicketAuthorityPolicy::default().with_capabilities(names(&["web.search"]));
    let clamped = policy.clamp(AuthorityEnvelope::default());
    assert!(
        clamped.external_capabilities.is_empty(),
        "an unasked-for capability is not added"
    );
}

#[test]
fn clamping_is_an_intersection_and_settles_at_once() {
    let policy = TicketAuthorityPolicy::default()
        .with_local(LocalAuthority {
            read_workspace: false,
            write_workspace: true,
            execute_local: false,
        })
        .with_capabilities(names(&["b", "c", "d"]));
    let proposed = AuthorityEnvelope {
        local: LocalAuthority {
            read_workspace: true,
            write_workspace: true,
            execute_local: false,
        },
        external_capabilities: CapabilitySet::from_names(names(&["a", "c", "b"])),
    };
    let once = policy.clamp(proposed);
    assert_eq!(once.external_capabilities.names().as_slice(), ["b", "c"]);
    assert!(!once.local.read_workspace && once.local.write_workspace && !once.local.execute_local);
    let twice = policy.clamp(once.clone());
    assert_eq!(twice.external_capabilities.names(), once.external_capabilities.names());
    assert_eq!(twice.local, once.local);
}

#[test]
fn the_lifecycle_refuses_what_does_not_fit() {
    let mut work = InMemoryWorkController::default();
    let message = |result: Result<(), KernelError>| result.expect_err("refused").message();
    let id_text = Uuid::from_u128(7).to_string();
    assert_eq!(
        message(work.assign(7, 1)),
        format!("invalid work transition for ticket {id_text}: ticket does not exist")
    );
    assert_eq!(
        message(work.cancel(7)),
        format!("invalid work transition for ticket {id_text}: ticket does not exist")
    );
    assert_eq!(
        message(work.accept_report(&report(1, 7, 3))),
        format!("worker report rejected for ticket {id_text}: ticket does not exist")
    );
    work.submit(ticket(7, 3)).expect("submit");
    assert_eq!(
        message(work.accept_report(&report(1, 7, 4))),
        format!(
            "worker report rejected for ticket {id_text}: conversation does not own this ticket"
        )
    );
    assert_eq!(
        message(work.accept_report(&report(1, 7, 3))),
        format!(
            "worker report rejected for ticket {id_text}: worker is not assigned to this ticket"
        )
    );
    work.assign(7, 1).expect("assign");
    assert_eq!(
        message(work.assign(7, 2)),
        format!(
            "invalid work transition for ticket {id_text}: expected queued ticket, found Running"
        )
    );
    work.cancel(7).expect("cancel");
    assert_eq!(
        message(work.cancel(7)),
        format!(
            "invalid work transition for ticket {id_text}: cannot cancel ticket in Cancelled state"
        )
    );
    assert_eq!(
        message(work.accept_report(&report(1, 7, 3))),
        format!(
            "worker report rejected for ticket {id_text}: expected running ticket, found Cancelled"
        )
    );
    assert!(work.update(7, Vec::new()).is_ok());
    assert_eq!(work.ticket_owner(7).expect("owner"), Some(3));
    assert_eq!(work.ticket_owner(8).expect("owner"), None);
}

#[test]
fn a_report_leaves_its_ticket_in_the_reported_state() {
    for (status, state) in [
        (WorkerStatus::Completed, "Completed"),
        (WorkerStatus::Blocked, "Blocked"),
        (WorkerStatus::Failed, "Failed"),
    ] {
        let mut work = InMemoryWorkController::default();
        work.submit(ticket(1, 2)).expect("submit");
        work.assign(1, 3).expect("assign");
        let mut told = report(3, 1, 2);
        told.status = status;
        work.accept_report(&told).expect("accepted");
        assert_eq!(WorkState::from(&status).label(), state);
        let error = work.assign(1, 3).expect_err("finished").message();
        assert!(error.ends_with(&format!("found {state}")), "{error}");
    }
}

#[test]
fn a_turn_does_what_was_decided_in_order() {
    let conversation = new_id();
    let known = new_id();
    let mut actions = vec![
        OrchestratorAction::Respond { text: "first".to_string() },
        OrchestratorAction::Update {
            ticket_id: known,
            context: vec![ContextItem { label: "l".to_string(), value: "v".to_string() }],
        },
    ];
    actions.extend(greedy_submission());
    actions.push(OrchestratorAction::Cancel { ticket_id: known });
    actions.push(OrchestratorAction::Respond { text: "second".to_string() });
    let mut ports = Ports::deciding(actions, names(&["fact one", "fact two"]));
    ports.work.submit(ticket(known, conversation)).expect("submit");
    let kernel = kernel_under(TicketAuthorityPolicy::read_only());

    let outcome = ports
        .drive(&kernel, kernel.handle_user_turn(conversation, "go"))
        .expect("turn");

    assert_eq!(outcome.user_messages, ["first", "second"]);
    assert_eq!(ports.stored, ["fact one", "fact two"]);
    assert_eq!(
        ports.appended,
        [
            (ModelRole::User, "go".to_string()),
            (ModelRole::Assistant, "first".to_string()),
            (ModelRole::Assistant, "second".to_string()),
        ]
    );
    let submitted_id = ports.submitted[0].id;
    assert_eq!(ports.submitted[0].conversation_id, conversation);
    match outcome.ticket_events.as_slice() {
        [KernelTicketEvent::Updated { ticket_id: updated, context }, KernelTicketEvent::Submitted { ticket }, KernelTicketEvent::Cancelled { ticket_id: cancelled }] =>
        {
            assert_eq!((*updated, *cancelled), (known, known));
            assert_eq!(context[0].value, "v");
            assert_eq!(ticket.id, submitted_id);
            assert_eq!(ticket.objective, "investigate the failure");
            // A version 4 identifier of the usual variant.
            let id = Uuid::from_u128(ticket.id);
            assert_eq!(id.get_version_num(), 4);
            assert_eq!(id.get_variant(), uuid::Variant::RFC4122);
        }
        other => panic!("{other:?}"),
    }
}

#[test]
fn fresh_tickets_get_different_identifiers() {
    let first = submit_under(TicketAuthorityPolicy::read_only());
    let second = submit_under(TicketAuthorityPolicy::read_only());
    assert_ne!(first.id, second.id);
}

#[test]
fn a_failed_memory_service_fails_the_turn() {
    let mut ports = Ports::deciding(
        vec![OrchestratorAction::Respond { text: "said".to_string() }],
        names(&["fact"]),
    );
    ports.forgetful = true;
    let kernel = kernel_under(TicketAuthorityPolicy::read_only());
    let error = ports
        .drive(&kernel, kernel.handle_user_turn(new_id(), "go"))
        .expect_err("the store failed");
    assert_eq!(error.message(), "memory error: full");
    // The action before it had its effect.
    assert_eq!(ports.appended.len(), 2);
}

#[test]
fn a_failed_or_unreadable_decision_fails_the_turn() {
    let kernel = kernel_under(TicketAuthorityPolicy::read_only());
    let mut ports = Ports {
        decision: Some(ModelReply::Failed(ModelError::Transport("down".to_string()))),
        ..Ports::default()
    };
    let error = ports
        .drive(&kernel, kernel.handle_user_turn(new_id(), "go"))
        .expect_err("no model");
    assert_eq!(error.message(), "model error: model transport error: down");
    ports.decision = Some(ModelReply::Unreadable("expected value at line 1".to_string()));
    let error = ports
        .drive(&kernel, kernel.handle_user_turn(new_id(), "go"))
        .expect_err("no decision");
    assert_eq!(error.message(), "invalid orchestrator response: expected value at line 1");
}

#[test]
fn a_report_leads_the_events_of_its_turn_and_is_shown_to_the_orchestrator() {
    let mut ports = quiet_ports();
    ports.memories = vec![MemoryItem {
        text: "remembered".to_string(),
        relevance: Json::Number(Number::Float(Double {
            bits: 0.5f64.to_bits(),
            text: "0.5".to_string(),
        })),
    }];
    let kernel = kernel_under(TicketAuthorityPolicy::read_only());
    let conversation = new_id();
    let (ticket_id, worker_id) = (new_id(), new_id());
    ports.work.submit(ticket(ticket_id, conversation)).expect("submit");
    ports.work.assign(ticket_id, worker_id).expect("assign");
    let mut told = report(worker_id, ticket_id, conversation);
    told.artifacts.push(ArtifactRef { name: "log".to_string(), uri: "file:///log".to_string() });

    let outcome =
        ports.drive(&kernel, kernel.handle_worker_result(told)).expect("accepted");

    assert_eq!(outcome.user_messages, ["ok"]);
    assert!(matches!(
        &outcome.ticket_events[0],
        KernelTicketEvent::WorkerReported { report } if report.ticket_id == ticket_id
    ));
    let request = &ports.requests[0];
    assert_eq!(request.messages[0].content, ORCHESTRATOR_PROMPT);
    assert_eq!(f64::from_bits(request.temperature.bits), f64::from(0.2f32));
    assert_eq!(request.temperature.text, Value::from(f64::from(0.2f32)).to_string());
    let context: Value = serde_json::from_str(&request.messages[1].content).expect("JSON");
    assert_eq!(context.to_string(), request.messages[1].content);
    assert_eq!(context["retrieved_memories"][0]["text"], "remembered");
    assert_eq!(context["retrieved_memories"][0]["relevance"], 0.5);
    assert!(context["active_work"].as_array().expect("array").is_empty());
    let event = context["external_event"].as_str().expect("text");
    assert_eq!((event.to_string(), 4), ports.queries[0]);
    let event: Value = serde_json::from_str(event).expect("JSON");
    assert_eq!(event["worker_result"]["status"], "completed");
    assert_eq!(event["worker_result"]["artifacts"][0]["uri"], "file:///log");
    assert_eq!(
        event["worker_result"]["worker_id"],
        Uuid::from_u128(worker_id).to_string().as_str()
    );
}

#[test]
fn a_users_turn_is_assembled_from_memory_and_conversation() {
    let mut ports = quiet_ports();
    ports.appended.push((ModelRole::Assistant, "earlier".to_string()));
    let kernel = kernel_under(TicketAuthorityPolicy::read_only());
    ports.drive(&kernel, kernel.handle_user_turn(9, "hello")).expect("turn");
    assert_eq!(ports.queries, [("hello".to_string(), 8)]);
    let messages = &ports.requests[0].messages;
    assert_eq!(messages.len(), 4);
    assert_eq!(
        messages[1].content,
        r#"{"active_work":[],"external_event":null,"retrieved_memories":[]}"#
    );
    assert_eq!(messages[2].content, "earlier");
    assert_eq!((messages[3].role, messages[3].content.as_str()), (ModelRole::User, "hello"));
}

#[test]
fn kernel_errors_have_their_messages() {
    let id = Uuid::from_u128(5);
    let cases = [
        (KernelError::Work("x".into()), "work controller error: x".to_string()),
        (KernelError::Store("x".into()), "conversation store error: x".to_string()),
        (
            KernelError::TicketNotInConversation(5),
            format!("ticket {id} does not belong to this conversation"),
        ),
    ];
    for (error, message) in cases {
        assert_eq!(error.message(), message);
    }
}
