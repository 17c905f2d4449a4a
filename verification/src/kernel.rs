//! The orchestration kernel: context assembly, ticket and memory policy.
//!
//! A turn is a machine. Its [`Stage`] says which port is to be asked next and with what;
//! [`OrchestrationKernel::step`] takes the port's reply and gives the next stage. The
//! program around the library asks the ports.

use std::sync::Arc;

use vstd::prelude::*;
use vstd::string::*;

use crate::ids::{fresh_id, ConversationId, TicketId};
use crate::json::{object1, object2, object3, string, Json};
use crate::model::{double, ModelMessage, ModelReply, ModelRequest};
use crate::policy::TicketAuthorityPolicy;
use crate::protocol::{AuthorityEnvelope, ContextItem, Ticket, WorkerReport};
use crate::work::{active_json, ActiveWork, KernelError};

#[allow(unused_imports)]
use crate::json::Tree;
#[allow(unused_imports)]
use crate::model::{MessageModel, ModelRole, RequestModel};
#[allow(unused_imports)]
use crate::protocol::{AuthorityModel, ContextModel, ReportModel, TicketModel};
#[allow(unused_imports)]
use crate::work::{ActiveModel, ErrorModel};

verus! {

// ---- what the orchestrator decides --------------------------------------------------

/// One retrieved memory; its relevance is JSON: a number, or null where it is not finite.
#[derive(Debug)]
pub struct MemoryItem {
    pub text: String,
    pub relevance: Json,
}

/// The model of a memory: its text and its relevance.
pub type MemoryModel = (Seq<char>, Tree);

impl View for MemoryItem {
    type V = MemoryModel;

    open spec fn view(&self) -> MemoryModel {
        (self.text@, self.relevance@)
    }
}

/// The model of a list of memories.
pub open spec fn memories_model(items: Seq<MemoryItem>) -> Seq<MemoryModel> {
    items.map_values(|item: MemoryItem| item@)
}

/// A ticket as the orchestrator proposes it.
#[derive(Debug)]
pub struct NewTicket {
    pub objective: String,
    pub context: Vec<ContextItem>,
    pub constraints: Vec<String>,
    pub deliverable: String,
    pub authority: AuthorityEnvelope,
}

/// The model of a proposed ticket.
pub struct NewTicketModel {
    pub objective: Seq<char>,
    pub context: Seq<ContextModel>,
    pub constraints: Seq<Seq<char>>,
    pub deliverable: Seq<char>,
    pub authority: AuthorityModel,
}

impl View for NewTicket {
    type V = NewTicketModel;

    open spec fn view(&self) -> NewTicketModel {
        NewTicketModel {
            objective: self.objective@,
            context: crate::protocol::context_model(self.context@),
            constraints: crate::json::texts(self.constraints@),
            deliverable: self.deliverable@,
            authority: self.authority@,
        }
    }
}

/// One control-plane action of the orchestrator.
#[derive(Debug)]
pub enum OrchestratorAction {
    Respond { text: String },
    Submit { ticket: NewTicket },
    Update { ticket_id: TicketId, context: Vec<ContextItem> },
    Cancel { ticket_id: TicketId },
}

/// The model of an action.
pub enum ActionModel {
    Respond(Seq<char>),
    Submit(NewTicketModel),
    Update(TicketId, Seq<ContextModel>),
    Cancel(TicketId),
}

impl View for OrchestratorAction {
    type V = ActionModel;

    open spec fn view(&self) -> ActionModel {
        match *self {
            OrchestratorAction::Respond { text } => ActionModel::Respond(text@),
            OrchestratorAction::Submit { ticket } => ActionModel::Submit(ticket@),
            OrchestratorAction::Update { ticket_id, context } => ActionModel::Update(
                ticket_id,
                crate::protocol::context_model(context@),
            ),
            OrchestratorAction::Cancel { ticket_id } => ActionModel::Cancel(ticket_id),
        }
    }
}

/// The model of a list of actions.
pub open spec fn actions_model(items: Seq<OrchestratorAction>) -> Seq<ActionModel> {
    items.map_values(|item: OrchestratorAction| item@)
}

/// What the orchestrator decided in one turn.
#[derive(Debug)]
pub struct OrchestratorEnvelope {
    pub actions: Vec<OrchestratorAction>,
    pub memory_proposals: Vec<String>,
}

// ---- what a turn yields -------------------------------------------------------------

/// Domain-level events produced by the kernel. They know no transport and no UI.
#[derive(Debug)]
pub enum KernelTicketEvent {
    Submitted { ticket: Ticket },
    Updated { ticket_id: TicketId, context: Vec<ContextItem> },
    Cancelled { ticket_id: TicketId },
    WorkerReported { report: WorkerReport },
}

/// The model of an event.
pub enum EventModel {
    Submitted(TicketModel),
    Updated(TicketId, Seq<ContextModel>),
    Cancelled(TicketId),
    WorkerReported(ReportModel),
}

impl View for KernelTicketEvent {
    type V = EventModel;

    open spec fn view(&self) -> EventModel {
        match *self {
            KernelTicketEvent::Submitted { ticket } => EventModel::Submitted(ticket@),
            KernelTicketEvent::Updated { ticket_id, context } => EventModel::Updated(
                ticket_id,
                crate::protocol::context_model(context@),
            ),
            KernelTicketEvent::Cancelled { ticket_id } => EventModel::Cancelled(ticket_id),
            KernelTicketEvent::WorkerReported { report } => EventModel::WorkerReported(report@),
        }
    }
}

/// The model of a list of events.
pub open spec fn events_model(items: Seq<KernelTicketEvent>) -> Seq<EventModel> {
    items.map_values(|item: KernelTicketEvent| item@)
}

#[derive(Debug)]
pub struct KernelOutcome {
    pub user_messages: Vec<String>,
    pub ticket_events: Vec<KernelTicketEvent>,
}

/// The model of an outcome.
pub struct OutcomeModel {
    pub messages: Seq<Seq<char>>,
    pub events: Seq<EventModel>,
}

impl View for KernelOutcome {
    type V = OutcomeModel;

    open spec fn view(&self) -> OutcomeModel {
        OutcomeModel {
            messages: crate::json::texts(self.user_messages@),
            events: events_model(self.ticket_events@),
        }
    }
}

/// The outcome of having done nothing.
pub open spec fn no_outcome() -> OutcomeModel {
    OutcomeModel { messages: seq![], events: seq![] }
}

impl Default for KernelOutcome {
    fn default() -> (made: Self)
        ensures
            made@ == no_outcome(),
    {
        let made = KernelOutcome { user_messages: Vec::new(), ticket_events: Vec::new() };
        assert(made@.messages =~= seq![]);
        assert(made@.events =~= seq![]);
        made
    }
}

// ---- the orchestrator's context -----------------------------------------------------

/// The charter of the orchestrating model.
pub const ORCHESTRATOR_PROMPT: &'static str = r#"
You are the persistent orchestrator.

Responsibilities:
- understand the user and maintain the big picture;
- decompose work into self-contained tickets;
- decide what context each worker needs;
- evaluate bounded worker results;
- synthesize and communicate.

You DO NOT perform operational work and you have NO operational tools.
You cannot use shell, files, web, MCP, APIs, databases, code-hosting services, cloud, or the Capability Broker.
Assume work can be attempted unless a worker reports otherwise.

Your only control-plane actions are:
- respond to the user;
- submit a work ticket;
- update a ticket;
- cancel a ticket.

`active_work` lists the tickets you have created that are still in flight, with their
ids and states. Use those ids when updating or cancelling. It is a summary of your own
work, not worker logs — a worker's findings reach you only through its report.

Workers have NO durable memory. A worker knows only what you put in its ticket plus its task-local observations. Tickets must therefore be self-contained.

A ticket's authority is a request, not a grant. The kernel clamps every ticket to a
deterministic policy, so requesting more authority than the deployment permits simply
removes it. Ask only for the authority the task needs.

Return JSON:
{
  "actions": [
    {"type":"respond","text":"..."},
    {"type":"submit","ticket":{...}},
    {"type":"update","ticket_id":"uuid","context":[]},
    {"type":"cancel","ticket_id":"uuid"}
  ],
  "memory_proposals": ["only durable facts/decisions worth retaining"]
}
"#;

/// How many memories are retrieved for a user's message.
pub const USER_MEMORIES: usize = 8;

/// How many memories are retrieved for a worker's report.
pub const REPORT_MEMORIES: usize = 4;

/// How many messages of a conversation the orchestrator is shown.
pub const RECENT_MESSAGES: usize = 24;

/// One memory as JSON.
pub open spec fn memory_tree(item: MemoryModel) -> Tree {
    Tree::Object(seq![("relevance"@, item.1), ("text"@, Tree::Text(item.0))])
}

/// What the orchestrator is told of a report.
pub open spec fn report_event(report: ReportModel) -> Seq<char> {
    Tree::Object(seq![("worker_result"@, report.tree())]).text()
}

/// The context that the orchestrator is shown beside the conversation.
pub open spec fn orchestrator_context(
    memories: Seq<MemoryModel>,
    active: Seq<ActiveModel>,
    report: Option<ReportModel>,
) -> Tree {
    Tree::Object(
        seq![
            ("active_work"@, crate::work::active_tree(active)),
            (
                "external_event"@,
                match report {
                    Some(report) => Tree::Text(report_event(report)),
                    None => Tree::Null,
                },
            ),
            (
                "retrieved_memories"@,
                Tree::Array(memories.map_values(|item: MemoryModel| memory_tree(item))),
            ),
        ],
    )
}

/// The model request that asks the orchestrator for a decision.
pub open spec fn decision_request(
    memories: Seq<MemoryModel>,
    recent: Seq<MessageModel>,
    active: Seq<ActiveModel>,
    report: Option<ReportModel>,
) -> RequestModel {
    crate::model::json_request(
        seq![
            (ModelRole::System, ORCHESTRATOR_PROMPT@),
            (ModelRole::System, orchestrator_context(memories, active, report).text()),
        ] + recent,
        (0x3FC9_9999_A000_0000, "0.20000000298023224"@),
    )
}

// ---- the machine --------------------------------------------------------------------

/// An update or a cancellation that waits for its ownership check.
#[derive(Debug)]
pub enum Control {
    Update { ticket_id: TicketId, context: Vec<ContextItem> },
    Cancel { ticket_id: TicketId },
}

/// The model of a control action.
pub enum ControlModel {
    Update(TicketId, Seq<ContextModel>),
    Cancel(TicketId),
}

impl View for Control {
    type V = ControlModel;

    open spec fn view(&self) -> ControlModel {
        match *self {
            Control::Update { ticket_id, context } => ControlModel::Update(
                ticket_id,
                crate::protocol::context_model(context@),
            ),
            Control::Cancel { ticket_id } => ControlModel::Cancel(ticket_id),
        }
    }
}

impl ControlModel {
    /// The ticket that is to be controlled.
    pub open spec fn ticket(self) -> TicketId {
        match self {
            ControlModel::Update(id, _) => id,
            ControlModel::Cancel(id) => id,
        }
    }
}

impl Control {
    /// The ticket that is to be controlled.
    pub fn ticket_id(&self) -> (id: TicketId)
        ensures
            id == self@.ticket(),
    {
        match self {
            Control::Update { ticket_id, .. } => *ticket_id,
            Control::Cancel { ticket_id } => *ticket_id,
        }
    }
}

/// What is left to do in a turn, and what it has yielded so far.
#[derive(Debug)]
pub struct Plan {
    pub actions: Vec<OrchestratorAction>,
    pub proposals: Vec<String>,
    pub outcome: KernelOutcome,
}

/// The model of a plan.
pub struct PlanModel {
    pub actions: Seq<ActionModel>,
    pub proposals: Seq<Seq<char>>,
    pub outcome: OutcomeModel,
}

impl View for Plan {
    type V = PlanModel;

    open spec fn view(&self) -> PlanModel {
        PlanModel {
            actions: actions_model(self.actions@),
            proposals: crate::json::texts(self.proposals@),
            outcome: self.outcome@,
        }
    }
}

/// Where a turn stands: which port is to be asked, and with what.
#[derive(Debug)]
pub enum Stage {
    /// The conversation store is to append the user's message.
    Appending { message: ModelMessage },
    /// The work controller is to accept the turn's report.
    Accepting,
    /// The memory service is to retrieve what matters for a query.
    Recalling { query: String, limit: usize },
    /// The conversation store is to give the recent messages.
    Reading { memories: Vec<MemoryItem>, limit: usize },
    /// The work controller is to list the active work.
    Surveying { memories: Vec<MemoryItem>, recent: Vec<ModelMessage> },
    /// The model is to decide.
    Deciding { request: ModelRequest },
    /// The conversation store is to append the assistant's message.
    Responding { message: ModelMessage, plan: Plan },
    /// The work controller is to take in a ticket.
    Submitting { ticket: Ticket, plan: Plan },
    /// The work controller is to name the owner of a ticket.
    Checking { control: Control, plan: Plan },
    /// The work controller is to update a ticket.
    Updating { ticket_id: TicketId, context: Vec<ContextItem>, plan: Plan },
    /// The work controller is to cancel a ticket.
    Cancelling { ticket_id: TicketId, plan: Plan },
    /// The memory service is to store a text.
    Remembering { text: String, plan: Plan },
    /// Nothing is to be done any more.
    Finished { result: Result<KernelOutcome, KernelError> },
}

/// The model of a stage.
pub enum StageModel {
    Appending(MessageModel),
    Accepting,
    Recalling(Seq<char>, usize),
    Reading(Seq<MemoryModel>, usize),
    Surveying(Seq<MemoryModel>, Seq<MessageModel>),
    Deciding(RequestModel),
    Responding(MessageModel, PlanModel),
    Submitting(TicketModel, PlanModel),
    Checking(ControlModel, PlanModel),
    Updating(TicketId, Seq<ContextModel>, PlanModel),
    Cancelling(TicketId, PlanModel),
    Remembering(Seq<char>, PlanModel),
    Finished(Result<OutcomeModel, ErrorModel>),
}

/// The model of a result.
pub open spec fn outcome_model(result: Result<KernelOutcome, KernelError>) -> Result<
    OutcomeModel,
    ErrorModel,
> {
    match result {
        Ok(outcome) => Ok(outcome@),
        Err(error) => Err(error@),
    }
}

impl View for Stage {
    type V = StageModel;

    open spec fn view(&self) -> StageModel {
        match *self {
            Stage::Appending { message } => StageModel::Appending(message@),
            Stage::Accepting => StageModel::Accepting,
            Stage::Recalling { query, limit } => StageModel::Recalling(query@, limit),
            Stage::Reading { memories, limit } => StageModel::Reading(
                memories_model(memories@),
                limit,
            ),
            Stage::Surveying { memories, recent } => StageModel::Surveying(
                memories_model(memories@),
                crate::model::messages_model(recent@),
            ),
            Stage::Deciding { request } => StageModel::Deciding(request@),
            Stage::Responding { message, plan } => StageModel::Responding(message@, plan@),
            Stage::Submitting { ticket, plan } => StageModel::Submitting(ticket@, plan@),
            Stage::Checking { control, plan } => StageModel::Checking(control@, plan@),
            Stage::Updating { ticket_id, context, plan } => StageModel::Updating(
                ticket_id,
                crate::protocol::context_model(context@),
                plan@,
            ),
            Stage::Cancelling { ticket_id, plan } => StageModel::Cancelling(ticket_id, plan@),
            Stage::Remembering { text, plan } => StageModel::Remembering(text@, plan@),
            Stage::Finished { result } => StageModel::Finished(outcome_model(result)),
        }
    }
}

/// The model of the report that started a turn, where one did.
pub open spec fn report_model(report: Option<WorkerReport>) -> Option<ReportModel> {
    match report {
        Some(report) => Some(report@),
        None => None,
    }
}

/// One turn of a conversation; `report` is there where a worker's report started it.
#[derive(Debug)]
pub struct Turn {
    pub conversation_id: ConversationId,
    pub report: Option<WorkerReport>,
    pub stage: Stage,
}

/// The model of a turn.
pub struct TurnModel {
    pub conversation_id: ConversationId,
    pub report: Option<ReportModel>,
    pub stage: StageModel,
}

impl View for Turn {
    type V = TurnModel;

    open spec fn view(&self) -> TurnModel {
        TurnModel {
            conversation_id: self.conversation_id,
            report: report_model(self.report),
            stage: self.stage@,
        }
    }
}

/// What a port replied.
#[derive(Debug)]
pub enum PortReply {
    Done(Result<(), KernelError>),
    Memories(Result<Vec<MemoryItem>, KernelError>),
    Messages(Result<Vec<ModelMessage>, KernelError>),
    Work(Result<Vec<ActiveWork>, KernelError>),
    Owner(Result<Option<ConversationId>, KernelError>),
    Decision(ModelReply<OrchestratorEnvelope>),
}

/// The model of a reply.
pub enum ReplyModel {
    Done,
    Memories(Seq<MemoryModel>),
    Messages(Seq<MessageModel>),
    Work(Seq<ActiveModel>),
    Owner(Option<ConversationId>),
    Decision(Seq<ActionModel>, Seq<Seq<char>>),
    Failed(ErrorModel),
}

impl View for PortReply {
    type V = ReplyModel;

    open spec fn view(&self) -> ReplyModel {
        match *self {
            PortReply::Done(Ok(_)) => ReplyModel::Done,
            PortReply::Done(Err(error)) => ReplyModel::Failed(error@),
            PortReply::Memories(Ok(items)) => ReplyModel::Memories(memories_model(items@)),
            PortReply::Memories(Err(error)) => ReplyModel::Failed(error@),
            PortReply::Messages(Ok(items)) => ReplyModel::Messages(
                crate::model::messages_model(items@),
            ),
            PortReply::Messages(Err(error)) => ReplyModel::Failed(error@),
            PortReply::Work(Ok(items)) => ReplyModel::Work(crate::work::active_model(items@)),
            PortReply::Work(Err(error)) => ReplyModel::Failed(error@),
            PortReply::Owner(Ok(owner)) => ReplyModel::Owner(owner),
            PortReply::Owner(Err(error)) => ReplyModel::Failed(error@),
            PortReply::Decision(ModelReply::Read(envelope)) => ReplyModel::Decision(
                actions_model(envelope.actions@),
                crate::json::texts(envelope.memory_proposals@),
            ),
            PortReply::Decision(ModelReply::Failed(error)) => ReplyModel::Failed(
                ErrorModel::Model(error.text()),
            ),
            PortReply::Decision(ModelReply::Unreadable(why)) => ReplyModel::Failed(
                ErrorModel::InvalidDecision(why@),
            ),
        }
    }
}

/// Whether a reply is of the kind that a stage waits for.
pub open spec fn answers(stage: Stage, reply: PortReply) -> bool {
    match stage {
        Stage::Recalling { .. } => reply is Memories,
        Stage::Reading { .. } => reply is Messages,
        Stage::Surveying { .. } => reply is Work,
        Stage::Deciding { .. } => reply is Decision,
        Stage::Checking { .. } => reply is Owner,
        Stage::Finished { .. } => false,
        _ => reply is Done,
    }
}

/// The ticket that is made of a proposal: the proposal's work under the clamped authority.
pub open spec fn made_ticket(
    ceiling: AuthorityModel,
    conversation: ConversationId,
    id: TicketId,
    proposal: NewTicketModel,
) -> TicketModel {
    TicketModel {
        id,
        conversation_id: conversation,
        objective: proposal.objective,
        context: proposal.context,
        constraints: proposal.constraints,
        deliverable: proposal.deliverable,
        authority: crate::policy::clamped(ceiling, proposal.authority),
    }
}

/// The outcome of a turn that has done everything: a report that started it comes first.
pub open spec fn final_outcome(report: Option<ReportModel>, outcome: OutcomeModel) -> OutcomeModel {
    match report {
        Some(report) => OutcomeModel {
            messages: outcome.messages,
            events: seq![EventModel::WorkerReported(report)] + outcome.events,
        },
        None => outcome,
    }
}

/// The stage that carries out what a plan has next: its actions in order, then its memory
/// proposals in order, then the end.
pub open spec fn next_of_plan(
    ceiling: AuthorityModel,
    conversation: ConversationId,
    report: Option<ReportModel>,
    plan: PlanModel,
    id: TicketId,
) -> StageModel {
    if plan.actions.len() > 0 {
        let rest = PlanModel { actions: plan.actions.drop_first(), ..plan };
        match plan.actions[0] {
            ActionModel::Respond(text) => StageModel::Responding(
                (ModelRole::Assistant, text),
                rest,
            ),
            ActionModel::Submit(proposal) => StageModel::Submitting(
                made_ticket(ceiling, conversation, id, proposal),
                rest,
            ),
            ActionModel::Update(ticket, context) => StageModel::Checking(
                ControlModel::Update(ticket, context),
                rest,
            ),
            ActionModel::Cancel(ticket) => StageModel::Checking(ControlModel::Cancel(ticket), rest),
        }
    } else if plan.proposals.len() > 0 {
        StageModel::Remembering(
            plan.proposals[0],
            PlanModel { proposals: plan.proposals.drop_first(), ..plan },
        )
    } else {
        StageModel::Finished(Ok(final_outcome(report, plan.outcome)))
    }
}

/// A plan that has yielded one more message.
pub open spec fn with_message(plan: PlanModel, text: Seq<char>) -> PlanModel {
    PlanModel {
        outcome: OutcomeModel {
            messages: plan.outcome.messages.push(text),
            events: plan.outcome.events,
        },
        ..plan
    }
}

/// A plan that has yielded one more event.
pub open spec fn with_event(plan: PlanModel, event: EventModel) -> PlanModel {
    PlanModel {
        outcome: OutcomeModel {
            messages: plan.outcome.messages,
            events: plan.outcome.events.push(event),
        },
        ..plan
    }
}

/// The stage that follows a stage and its port's reply. A port's failure ends the turn.
pub open spec fn next_stage(
    ceiling: AuthorityModel,
    turn: TurnModel,
    reply: ReplyModel,
    id: TicketId,
) -> StageModel {
    let conversation = turn.conversation_id;
    let report = turn.report;
    match (turn.stage, reply) {
        (_, ReplyModel::Failed(error)) => StageModel::Finished(Err(error)),
        (StageModel::Appending(message), _) => StageModel::Recalling(message.1, USER_MEMORIES),
        (StageModel::Accepting, _) => StageModel::Recalling(
            match report {
                Some(report) => report_event(report),
                None => seq![],
            },
            REPORT_MEMORIES,
        ),
        (StageModel::Recalling(_, _), ReplyModel::Memories(memories)) => StageModel::Reading(
            memories,
            RECENT_MESSAGES,
        ),
        (StageModel::Reading(memories, _), ReplyModel::Messages(recent)) => StageModel::Surveying(
            memories,
            recent,
        ),
        (StageModel::Surveying(memories, recent), ReplyModel::Work(active)) => StageModel::Deciding(
            decision_request(memories, recent, active, report),
        ),
        (StageModel::Deciding(_), ReplyModel::Decision(actions, proposals)) => next_of_plan(
            ceiling,
            conversation,
            report,
            PlanModel { actions, proposals, outcome: no_outcome() },
            id,
        ),
        (StageModel::Responding(message, plan), _) => next_of_plan(
            ceiling,
            conversation,
            report,
            with_message(plan, message.1),
            id,
        ),
        (StageModel::Submitting(ticket, plan), _) => next_of_plan(
            ceiling,
            conversation,
            report,
            with_event(plan, EventModel::Submitted(ticket)),
            id,
        ),
        (StageModel::Checking(control, plan), ReplyModel::Owner(owner)) => if owner == Some(
            conversation,
        ) {
            match control {
                ControlModel::Update(ticket, context) => StageModel::Updating(
                    ticket,
                    context,
                    plan,
                ),
                ControlModel::Cancel(ticket) => StageModel::Cancelling(ticket, plan),
            }
        } else {
            StageModel::Finished(Err(ErrorModel::TicketNotInConversation(control.ticket())))
        },
        (StageModel::Updating(ticket, context, plan), _) => next_of_plan(
            ceiling,
            conversation,
            report,
            with_event(plan, EventModel::Updated(ticket, context)),
            id,
        ),
        (StageModel::Cancelling(ticket, plan), _) => next_of_plan(
            ceiling,
            conversation,
            report,
            with_event(plan, EventModel::Cancelled(ticket)),
            id,
        ),
        (StageModel::Remembering(_, plan), _) => next_of_plan(
            ceiling,
            conversation,
            report,
            plan,
            id,
        ),
        (stage, _) => stage,
    }
}

/// The turn that follows a turn and its port's reply.
pub open spec fn turn_step(
    ceiling: AuthorityModel,
    turn: TurnModel,
    reply: ReplyModel,
    id: TicketId,
) -> TurnModel {
    TurnModel { stage: next_stage(ceiling, turn, reply, id), ..turn }
}

// ---- the kernel ---------------------------------------------------------------------

fn memories_json(items: &Vec<MemoryItem>) -> (made: Json)
    ensures
        made@ == Tree::Array(
            memories_model(items@).map_values(|item: MemoryModel| memory_tree(item)),
        ),
{
    let ghost goal = memories_model(items@).map_values(|item: MemoryModel| memory_tree(item));
    let mut values: Vec<Json> = Vec::new();
    let mut i: usize = 0;
    while i < items.len()
        invariant
            i <= items.len(),
            values.len() == i,
            goal.len() == items.len(),
            goal == memories_model(items@).map_values(|item: MemoryModel| memory_tree(item)),
            forall|j: int| 0 <= j < i ==> (#[trigger] values[j])@ == goal[j],
        decreases items.len() - i,
    {
        let relevance = items[i].relevance.clone();
        let text = string(items[i].text.as_str());
        proof {
            reveal_strlit("relevance");
            reveal_strlit("text");
            crate::ordering::smaller_at("relevance"@, "text"@, 0);
        }
        values.push(object2("relevance", relevance, "text", text));
        i = i + 1;
    }
    let made = Json::Array(values);
    assert(made@->Array_0 =~= goal);
    made
}

fn report_event_text(report: &WorkerReport) -> (text: String)
    ensures
        text@ == report_event(report@),
{
    let event = object1("worker_result", report.to_json());
    event.to_text()
}

fn null() -> (made: Json)
    ensures
        made@ == Tree::Null,
{
    Json::Null
}

/// The model request that asks the orchestrator for a decision.
fn ask_orchestrator(
    memories: &Vec<MemoryItem>,
    recent: Vec<ModelMessage>,
    active: &Vec<ActiveWork>,
    report: &Option<WorkerReport>,
) -> (request: ModelRequest)
    ensures
        request@ == decision_request(
            memories_model(memories@),
            crate::model::messages_model(recent@),
            crate::work::active_model(active@),
            report_model(*report),
        ),
{
    let ghost told = report_model(*report);
    let event = match report {
        Some(report) => {
            let text = report_event_text(report);
            string(text.as_str())
        },
        None => null(),
    };
    proof {
        reveal_strlit("active_work");
        reveal_strlit("external_event");
        reveal_strlit("retrieved_memories");
        crate::ordering::smaller_at("active_work"@, "external_event"@, 0);
        crate::ordering::smaller_at("external_event"@, "retrieved_memories"@, 0);
    }
    let context = object3(
        "active_work",
        active_json(active),
        "external_event",
        event,
        "retrieved_memories",
        memories_json(memories),
    );
    assert(context@->Object_0 =~= orchestrator_context(
        memories_model(memories@),
        crate::work::active_model(active@),
        told,
    )->Object_0);
    let text = context.to_text();
    let mut messages = vec![
        ModelMessage::system(ORCHESTRATOR_PROMPT),
        ModelMessage::system(text.as_str()),
    ];
    let ghost shown = crate::model::messages_model(recent@);
    let mut recent = recent;
    messages.append(&mut recent);
    let ghost sent = crate::model::messages_model(messages@);
    let request = ModelRequest::json(messages, double(0x3FC9_9999_A000_0000, "0.20000000298023224"));
    assert(sent =~= seq![
        (ModelRole::System, ORCHESTRATOR_PROMPT@),
        (ModelRole::System, text@),
    ] + shown);
    request
}

/// The tool-blind orchestration kernel.
#[derive(Debug)]
pub struct OrchestrationKernel<M, Mem, Store, Work> {
    pub model: Arc<M>,
    pub memory: Arc<Mem>,
    pub store: Arc<Store>,
    pub work: Arc<Work>,
    pub authority_policy: TicketAuthorityPolicy,
}

impl<M, Mem, Store, Work> OrchestrationKernel<M, Mem, Store, Work> {
    pub fn new(
        model: Arc<M>,
        memory: Arc<Mem>,
        store: Arc<Store>,
        work: Arc<Work>,
        authority_policy: TicketAuthorityPolicy,
    ) -> (kernel: Self)
        ensures
            kernel.model == model,
            kernel.memory == memory,
            kernel.store == store,
            kernel.work == work,
            kernel.authority_policy == authority_policy,
    {
        OrchestrationKernel { model, memory, store, work, authority_policy }
    }

    /// Starts the turn of a user's message: the message is appended before anything else.
    pub fn handle_user_turn(&self, conversation_id: ConversationId, user_text: &str) -> (turn: Turn)
        ensures
            turn@ == (TurnModel {
                conversation_id,
                report: None,
                stage: StageModel::Appending((ModelRole::User, user_text@)),
            }),
    {
        Turn {
            conversation_id,
            report: None,
            stage: Stage::Appending { message: ModelMessage::user(user_text) },
        }
    }

    /// Starts the turn of a worker's report.
    ///
    /// A report is untrusted ingress until the work controller binds all three ids and
    /// accepts the transition from running to terminal, so that is asked first.
    pub fn handle_worker_result(&self, report: WorkerReport) -> (turn: Turn)
        ensures
            turn@ == (TurnModel {
                conversation_id: report.conversation_id,
                report: Some(report@),
                stage: StageModel::Accepting,
            }),
    {
        Turn {
            conversation_id: report.conversation_id,
            report: Some(report),
            stage: Stage::Accepting,
        }
    }

    /// Starts a direct control-plane cancellation. No model round-trip is required.
    pub fn cancel_ticket(&self, conversation_id: ConversationId, ticket_id: TicketId) -> (turn:
        Turn)
        ensures
            turn@ == (TurnModel {
                conversation_id,
                report: None,
                stage: StageModel::Checking(ControlModel::Cancel(ticket_id), empty_plan()),
            }),
    {
        Turn {
            conversation_id,
            report: None,
            stage: Stage::Checking {
                control: Control::Cancel { ticket_id },
                plan: no_plan(),
            },
        }
    }

    /// Starts a direct control-plane ticket context update. It changes the active ticket,
    /// not a worker's memory.
    pub fn update_ticket(
        &self,
        conversation_id: ConversationId,
        ticket_id: TicketId,
        context: Vec<ContextItem>,
    ) -> (turn: Turn)
        ensures
            turn@ == (TurnModel {
                conversation_id,
                report: None,
                stage: StageModel::Checking(
                    ControlModel::Update(ticket_id, crate::protocol::context_model(context@)),
                    empty_plan(),
                ),
            }),
    {
        Turn {
            conversation_id,
            report: None,
            stage: Stage::Checking {
                control: Control::Update { ticket_id, context },
                plan: no_plan(),
            },
        }
    }

    /// Carries a turn on with its port's reply.
    ///
    /// A ticket that is submitted next gets a fresh identifier.
    pub fn step(&self, turn: Turn, reply: PortReply) -> (next: Turn)
        requires
            answers(turn.stage, reply),
        ensures
            exists|id: TicketId| #[trigger]
                crate::ids::is_random_id(id) && next@ == turn_step(
                    self.authority_policy@,
                    turn@,
                    reply@,
                    id,
                ),
    {
        self.step_with(turn, reply, fresh_id())
    }

    /// Carries a turn on with its port's reply; `id` is for a ticket that is submitted next.
    pub fn step_with(&self, turn: Turn, reply: PortReply, id: TicketId) -> (next: Turn)
        requires
            answers(turn.stage, reply),
        ensures
            next@ == turn_step(self.authority_policy@, turn@, reply@, id),
    {
        let conversation_id = turn.conversation_id;
        let report = turn.report;
        let stage = match (turn.stage, reply) {
            (Stage::Recalling { .. }, PortReply::Memories(Ok(memories))) => {
                Stage::Reading { memories, limit: RECENT_MESSAGES }
            },
            (Stage::Reading { memories, .. }, PortReply::Messages(Ok(recent))) => {
                Stage::Surveying { memories, recent }
            },
            (Stage::Surveying { memories, recent }, PortReply::Work(Ok(active))) => {
                Stage::Deciding { request: ask_orchestrator(&memories, recent, &active, &report) }
            },
            (Stage::Deciding { .. }, PortReply::Decision(ModelReply::Read(envelope))) => {
                let plan = Plan {
                    actions: envelope.actions,
                    proposals: envelope.memory_proposals,
                    outcome: KernelOutcome::default(),
                };
                self.next_of(conversation_id, &report, plan, id)
            },
            (Stage::Checking { control, plan }, PortReply::Owner(Ok(owner))) => {
                self.ensure_ticket_in_conversation(conversation_id, owner, control, plan)
            },
            (stage, PortReply::Done(Ok(_))) => {
                self.done(conversation_id, &report, stage, id)
            },
            (_, PortReply::Done(Err(error))) => Stage::Finished { result: Err(error) },
            (_, PortReply::Memories(Err(error))) => Stage::Finished { result: Err(error) },
            (_, PortReply::Messages(Err(error))) => Stage::Finished { result: Err(error) },
            (_, PortReply::Work(Err(error))) => Stage::Finished { result: Err(error) },
            (_, PortReply::Owner(Err(error))) => Stage::Finished { result: Err(error) },
            (_, PortReply::Decision(ModelReply::Failed(error))) => {
                Stage::Finished { result: Err(KernelError::Model(error.message())) }
            },
            (_, PortReply::Decision(ModelReply::Unreadable(why))) => {
                Stage::Finished { result: Err(KernelError::InvalidDecision(why)) }
            },
            (stage, _) => stage,
        };
        Turn { conversation_id, report, stage }
    }

    /// A ticket id is not a capability: an update or a cancellation goes on only if the
    /// ticket belongs to the conversation. An unknown ticket is refused rather than passed
    /// through.
    fn ensure_ticket_in_conversation(
        &self,
        conversation_id: ConversationId,
        owner: Option<ConversationId>,
        control: Control,
        plan: Plan,
    ) -> (stage: Stage)
        ensures
            stage@ == (if owner == Some(conversation_id) {
                match control@ {
                    ControlModel::Update(ticket, context) => StageModel::Updating(
                        ticket,
                        context,
                        plan@,
                    ),
                    ControlModel::Cancel(ticket) => StageModel::Cancelling(ticket, plan@),
                }
            } else {
                StageModel::Finished(
                    Err(ErrorModel::TicketNotInConversation(control@.ticket())),
                )
            }),
    {
        let owned = match owner {
            Some(owner) => owner == conversation_id,
            None => false,
        };
        if !owned {
            return Stage::Finished {
                result: Err(KernelError::TicketNotInConversation(control.ticket_id())),
            };
        }
        match control {
            Control::Update { ticket_id, context } => Stage::Updating { ticket_id, context, plan },
            Control::Cancel { ticket_id } => Stage::Cancelling { ticket_id, plan },
        }
    }

    /// The stage that follows one whose port did what it was asked.
    fn done(
        &self,
        conversation_id: ConversationId,
        report: &Option<WorkerReport>,
        stage: Stage,
        id: TicketId,
    ) -> (next: Stage)
        requires
            answers(stage, PortReply::Done(Ok(()))),
        ensures
            next@ == next_stage(
                self.authority_policy@,
                TurnModel {
                    conversation_id,
                    report: report_model(*report),
                    stage: stage@,
                },
                ReplyModel::Done,
                id,
            ),
    {
        match stage {
            Stage::Appending { message } => Stage::Recalling {
                query: message.content,
                limit: USER_MEMORIES,
            },
            Stage::Accepting => {
                let query = match report {
                    Some(report) => report_event_text(report),
                    None => String::new(),
                };
                assert(*report is None ==> query@ =~= seq![]);
                Stage::Recalling { query, limit: REPORT_MEMORIES }
            },
            Stage::Responding { message, plan } => {
                let ghost after = with_message(plan@, message@.1);
                let mut plan = plan;
                plan.outcome.user_messages.push(message.content);
                assert(plan@.outcome.messages =~= after.outcome.messages);
                self.next_of(conversation_id, report, plan, id)
            },
            Stage::Submitting { ticket, plan } => {
                let event = KernelTicketEvent::Submitted { ticket };
                self.next_of(conversation_id, report, push_event(plan, event), id)
            },
            Stage::Updating { ticket_id, context, plan } => {
                let event = KernelTicketEvent::Updated { ticket_id, context };
                self.next_of(conversation_id, report, push_event(plan, event), id)
            },
            Stage::Cancelling { ticket_id, plan } => {
                let event = KernelTicketEvent::Cancelled { ticket_id };
                self.next_of(conversation_id, report, push_event(plan, event), id)
            },
            Stage::Remembering { plan, .. } => self.next_of(conversation_id, report, plan, id),
            other => other,
        }
    }

    /// The stage that carries out what a plan has next.
    fn next_of(
        &self,
        conversation_id: ConversationId,
        report: &Option<WorkerReport>,
        plan: Plan,
        id: TicketId,
    ) -> (stage: Stage)
        ensures
            stage@ == next_of_plan(
                self.authority_policy@,
                conversation_id,
                report_model(*report),
                plan@,
                id,
            ),
    {
        let ghost before = plan@;
        let mut plan = plan;
        if plan.actions.len() > 0 {
            let action = plan.actions.remove(0);
            assert(plan@.actions =~= before.actions.drop_first());
            match action {
                OrchestratorAction::Respond { text } => Stage::Responding {
                    message: ModelMessage::assistant(text.as_str()),
                    plan,
                },
                OrchestratorAction::Submit { ticket } => {
                    let ticket = Ticket {
                        id,
                        conversation_id,
                        objective: ticket.objective,
                        context: ticket.context,
                        constraints: ticket.constraints,
                        deliverable: ticket.deliverable,
                        authority: self.authority_policy.clamp(ticket.authority),
                    };
                    Stage::Submitting { ticket, plan }
                },
                OrchestratorAction::Update { ticket_id, context } => Stage::Checking {
                    control: Control::Update { ticket_id, context },
                    plan,
                },
                OrchestratorAction::Cancel { ticket_id } => Stage::Checking {
                    control: Control::Cancel { ticket_id },
                    plan,
                },
            }
        } else if plan.proposals.len() > 0 {
            let text = plan.proposals.remove(0);
            assert(plan@.proposals =~= before.proposals.drop_first());
            Stage::Remembering { text, plan }
        } else {
            let mut outcome = plan.outcome;
            if let Some(report) = report {
                let ghost events = outcome@.events;
                let event = KernelTicketEvent::WorkerReported { report: report.clone() };
                outcome.ticket_events.insert(0, event);
                assert(outcome@.events =~= seq![EventModel::WorkerReported(report@)] + events);
            }
            Stage::Finished { result: Ok(outcome) }
        }
    }
}

/// The plan without anything to do.
pub open spec fn empty_plan() -> PlanModel {
    PlanModel { actions: seq![], proposals: seq![], outcome: no_outcome() }
}

fn no_plan() -> (plan: Plan)
    ensures
        plan@ == empty_plan(),
{
    let plan = Plan {
        actions: Vec::new(),
        proposals: Vec::new(),
        outcome: KernelOutcome::default(),
    };
    assert(plan@.actions =~= seq![]);
    assert(plan@.proposals =~= seq![]);
    plan
}

fn push_event(plan: Plan, event: KernelTicketEvent) -> (next: Plan)
    ensures
        next@ == with_event(plan@, event@),
{
    let ghost after = with_event(plan@, event@);
    let mut plan = plan;
    plan.outcome.ticket_events.push(event);
    assert(plan@.outcome.events =~= after.outcome.events);
    plan
}

// ---- laws ---------------------------------------------------------------------------

/// A ticket is updated or cancelled only right after its owner was asked for and turned
/// out to be the turn's conversation. This holds for clients and for model output alike.
pub proof fn control_follows_an_ownership_check(
    ceiling: AuthorityModel,
    turn: TurnModel,
    reply: ReplyModel,
    id: TicketId,
)
    ensures
        next_stage(ceiling, turn, reply, id) matches StageModel::Cancelling(ticket, _) ==> (
        turn.stage matches StageModel::Checking(ControlModel::Cancel(checked), _) && checked
            == ticket && reply == ReplyModel::Owner(Some(turn.conversation_id))),
        next_stage(ceiling, turn, reply, id) matches StageModel::Updating(ticket, context, _) ==> (
        turn.stage matches StageModel::Checking(ControlModel::Update(checked, given), _) && checked
            == ticket && given == context && reply == ReplyModel::Owner(
            Some(turn.conversation_id),
        )),
{
}

/// A ticket of another conversation, or one that nobody knows, ends the turn with a
/// refusal that names it.
pub proof fn a_foreign_or_unknown_ticket_is_refused(
    ceiling: AuthorityModel,
    turn: TurnModel,
    control: ControlModel,
    plan: PlanModel,
    owner: Option<ConversationId>,
    id: TicketId,
)
    requires
        turn.stage == StageModel::Checking(control, plan),
        owner != Some(turn.conversation_id),
    ensures
        next_stage(ceiling, turn, ReplyModel::Owner(owner), id) == StageModel::Finished(
            Err(ErrorModel::TicketNotInConversation(control.ticket())),
        ),
{
}

/// A ticket that is about to be submitted belongs to the turn's conversation, has the
/// fresh identifier, and carries no authority beyond the policy.
pub proof fn submitted_tickets_are_clamped(
    ceiling: AuthorityModel,
    turn: TurnModel,
    reply: ReplyModel,
    id: TicketId,
)
    ensures
        next_stage(ceiling, turn, reply, id) matches StageModel::Submitting(ticket, _) ==> {
            &&& ticket.id == id
            &&& ticket.conversation_id == turn.conversation_id
            &&& ticket.authority.within(ceiling)
        },
{
    if let StageModel::Submitting(ticket, _) = next_stage(ceiling, turn, reply, id) {
        let plan = match turn.stage {
            StageModel::Deciding(_) => PlanModel {
                actions: reply->Decision_0,
                proposals: reply->Decision_1,
                outcome: no_outcome(),
            },
            StageModel::Responding(message, plan) => with_message(plan, message.1),
            StageModel::Submitting(made, plan) => with_event(plan, EventModel::Submitted(made)),
            StageModel::Updating(ticket, context, plan) => with_event(
                plan,
                EventModel::Updated(ticket, context),
            ),
            StageModel::Cancelling(ticket, plan) => with_event(plan, EventModel::Cancelled(ticket)),
            StageModel::Remembering(_, plan) => plan,
            _ => empty_plan(),
        };
        crate::policy::clamping_only_narrows(ceiling, plan.actions[0]->Submit_0.authority);
    }
}

/// Memory proposals are admitted only once no action is left.
pub proof fn memories_are_admitted_last(
    ceiling: AuthorityModel,
    turn: TurnModel,
    reply: ReplyModel,
    id: TicketId,
)
    ensures
        next_stage(ceiling, turn, reply, id) matches StageModel::Remembering(_, plan)
            ==> plan.actions.len() == 0,
{
}

/// Whatever a turn waits for, its port's failure is its result.
pub proof fn a_failure_ends_the_turn(
    ceiling: AuthorityModel,
    turn: TurnModel,
    error: ErrorModel,
    id: TicketId,
)
    ensures
        next_stage(ceiling, turn, ReplyModel::Failed(error), id) == StageModel::Finished(
            Err(error),
        ),
{
}

/// A report's turn reaches the model only if the report was accepted first.
pub proof fn a_rejected_report_reaches_no_model(
    ceiling: AuthorityModel,
    turn: TurnModel,
    reply: ReplyModel,
    id: TicketId,
)
    requires
        turn.stage is Accepting,
    ensures
        next_stage(ceiling, turn, reply, id) matches StageModel::Finished(result)
            ==> reply matches ReplyModel::Failed(error) && result == Err::<OutcomeModel, _>(error),
        !(next_stage(ceiling, turn, reply, id) is Deciding),
        !(reply is Failed) ==> next_stage(ceiling, turn, reply, id) is Recalling,
{
}

/// A turn carried on with a sequence of replies, each with the identifier drawn for it.
pub open spec fn run_turn(
    ceiling: AuthorityModel,
    turn: TurnModel,
    replies: Seq<(ReplyModel, TicketId)>,
) -> TurnModel
    decreases replies.len(),
{
    if replies.len() == 0 {
        turn
    } else {
        run_turn(
            ceiling,
            turn_step(ceiling, turn, replies[0].0, replies[0].1),
            replies.drop_first(),
        )
    }
}

/// The texts that were stored on the way, in order.
pub open spec fn stored_on_the_way(
    ceiling: AuthorityModel,
    turn: TurnModel,
    replies: Seq<(ReplyModel, TicketId)>,
) -> Seq<Seq<char>>
    decreases replies.len(),
{
    if replies.len() == 0 {
        seq![]
    } else {
        let here = if turn.stage is Remembering && !(replies[0].0 is Failed) {
            seq![turn.stage->Remembering_0]
        } else {
            seq![]
        };
        here + stored_on_the_way(
            ceiling,
            turn_step(ceiling, turn, replies[0].0, replies[0].1),
            replies.drop_first(),
        )
    }
}

/// The messages that actions respond with, in order.
pub open spec fn responses(actions: Seq<ActionModel>) -> Seq<Seq<char>>
    decreases actions.len(),
{
    if actions.len() == 0 {
        seq![]
    } else {
        (match actions[0] {
            ActionModel::Respond(text) => seq![text],
            _ => seq![],
        }) + responses(actions.drop_first())
    }
}

/// An event without the identifier that was drawn for its ticket.
pub open spec fn unnamed(event: EventModel) -> EventModel {
    match event {
        EventModel::Submitted(ticket) => EventModel::Submitted(TicketModel { id: 0, ..ticket }),
        other => other,
    }
}

/// Events without the identifiers that were drawn for their tickets.
pub open spec fn unnamed_all(events: Seq<EventModel>) -> Seq<EventModel> {
    events.map_values(|event: EventModel| unnamed(event))
}

/// The events that actions lead to, in order, without drawn identifiers.
pub open spec fn effects(
    ceiling: AuthorityModel,
    conversation: ConversationId,
    actions: Seq<ActionModel>,
) -> Seq<EventModel>
    decreases actions.len(),
{
    if actions.len() == 0 {
        seq![]
    } else {
        (match actions[0] {
            ActionModel::Respond(_) => seq![],
            ActionModel::Submit(proposal) => seq![
                EventModel::Submitted(made_ticket(ceiling, conversation, 0, proposal)),
            ],
            ActionModel::Update(ticket, context) => seq![EventModel::Updated(ticket, context)],
            ActionModel::Cancel(ticket) => seq![EventModel::Cancelled(ticket)],
        }) + effects(ceiling, conversation, actions.drop_first())
    }
}

/// What the report of a turn contributes to its events.
pub open spec fn leading(report: Option<ReportModel>) -> Seq<EventModel> {
    match report {
        Some(report) => seq![EventModel::WorkerReported(report)],
        None => seq![],
    }
}

/// What a turn will have said, done and stored if nothing fails from here on.
pub struct Promise {
    pub messages: Seq<Seq<char>>,
    pub events: Seq<EventModel>,
    pub stores: Seq<Seq<char>>,
}

/// What a plan will have said, done and stored if nothing fails.
pub open spec fn plan_promise(
    ceiling: AuthorityModel,
    conversation: ConversationId,
    report: Option<ReportModel>,
    plan: PlanModel,
) -> Promise {
    Promise {
        messages: plan.outcome.messages + responses(plan.actions),
        events: leading(report) + unnamed_all(plan.outcome.events) + effects(
            ceiling,
            conversation,
            plan.actions,
        ),
        stores: plan.proposals,
    }
}

/// What a stage that carries out a plan promises.
pub open spec fn promise(ceiling: AuthorityModel, turn: TurnModel) -> Option<Promise> {
    let conversation = turn.conversation_id;
    let report = turn.report;
    match turn.stage {
        StageModel::Responding(message, plan) => Some(
            plan_promise(ceiling, conversation, report, with_message(plan, message.1)),
        ),
        StageModel::Submitting(ticket, plan) => Some(
            plan_promise(
                ceiling,
                conversation,
                report,
                with_event(plan, EventModel::Submitted(ticket)),
            ),
        ),
        StageModel::Checking(ControlModel::Update(ticket, context), plan) => Some(
            plan_promise(
                ceiling,
                conversation,
                report,
                with_event(plan, EventModel::Updated(ticket, context)),
            ),
        ),
        StageModel::Checking(ControlModel::Cancel(ticket), plan) => Some(
            plan_promise(
                ceiling,
                conversation,
                report,
                with_event(plan, EventModel::Cancelled(ticket)),
            ),
        ),
        StageModel::Updating(ticket, context, plan) => Some(
            plan_promise(
                ceiling,
                conversation,
                report,
                with_event(plan, EventModel::Updated(ticket, context)),
            ),
        ),
        StageModel::Cancelling(ticket, plan) => Some(
            plan_promise(
                ceiling,
                conversation,
                report,
                with_event(plan, EventModel::Cancelled(ticket)),
            ),
        ),
        StageModel::Remembering(text, plan) => {
            let kept = plan_promise(ceiling, conversation, report, plan);
            Some(Promise { stores: seq![text] + kept.stores, ..kept })
        },
        StageModel::Finished(Ok(outcome)) => Some(
            Promise {
                messages: outcome.messages,
                events: unnamed_all(outcome.events),
                stores: seq![],
            },
        ),
        _ => None,
    }
}

proof fn a_plan_keeps_its_promise(
    ceiling: AuthorityModel,
    turn: TurnModel,
    plan: PlanModel,
    id: TicketId,
)
    requires
        turn.stage == next_of_plan(ceiling, turn.conversation_id, turn.report, plan, id),
    ensures
        promise(ceiling, turn) == Some(
            plan_promise(ceiling, turn.conversation_id, turn.report, plan),
        ),
{
    let conversation = turn.conversation_id;
    let report = turn.report;
    let goal = plan_promise(ceiling, conversation, report, plan);
    let found = promise(ceiling, turn)->0;
    if plan.actions.len() > 0 {
        let rest = PlanModel { actions: plan.actions.drop_first(), ..plan };
        let told = match plan.actions[0] {
            ActionModel::Respond(text) => with_message(rest, text),
            ActionModel::Submit(proposal) => with_event(
                rest,
                EventModel::Submitted(made_ticket(ceiling, conversation, id, proposal)),
            ),
            ActionModel::Update(ticket, context) => with_event(
                rest,
                EventModel::Updated(ticket, context),
            ),
            ActionModel::Cancel(ticket) => with_event(rest, EventModel::Cancelled(ticket)),
        };
        assert(found == plan_promise(ceiling, conversation, report, told));
        assert(found.messages =~= goal.messages);
        assert(found.events =~= goal.events);
    } else if plan.proposals.len() > 0 {
        assert(found.stores =~= goal.stores);
        assert(found.messages =~= goal.messages);
        assert(found.events =~= goal.events);
    } else {
        assert(found.messages =~= goal.messages);
        assert(found.events =~= goal.events);
        assert(found.stores =~= goal.stores);
    }
}

proof fn a_run_keeps_its_promise(
    ceiling: AuthorityModel,
    turn: TurnModel,
    replies: Seq<(ReplyModel, TicketId)>,
)
    requires
        promise(ceiling, turn) is Some,
    ensures
        run_turn(ceiling, turn, replies).stage matches StageModel::Finished(Ok(outcome)) ==> promise(
            ceiling,
            turn,
        ) == Some(
            Promise {
                messages: outcome.messages,
                events: unnamed_all(outcome.events),
                stores: stored_on_the_way(ceiling, turn, replies),
            },
        ),
    decreases replies.len(),
{
    if replies.len() > 0 {
        let (reply, id) = replies[0];
        let next = turn_step(ceiling, turn, reply, id);
        let later = replies.drop_first();
        if reply is Failed {
            a_failed_turn_stays_failed(ceiling, next, later);
        } else {
            match turn.stage {
                StageModel::Responding(message, plan) => {
                    a_plan_keeps_its_promise(ceiling, next, with_message(plan, message.1), id);
                },
                StageModel::Submitting(ticket, plan) => {
                    let event = EventModel::Submitted(ticket);
                    a_plan_keeps_its_promise(ceiling, next, with_event(plan, event), id);
                },
                StageModel::Updating(ticket, context, plan) => {
                    let event = EventModel::Updated(ticket, context);
                    a_plan_keeps_its_promise(ceiling, next, with_event(plan, event), id);
                },
                StageModel::Cancelling(ticket, plan) => {
                    let event = EventModel::Cancelled(ticket);
                    a_plan_keeps_its_promise(ceiling, next, with_event(plan, event), id);
                },
                StageModel::Remembering(_, plan) => {
                    a_plan_keeps_its_promise(ceiling, next, plan, id);
                },
                _ => {},
            }
            if next.stage is Finished && next.stage->Finished_0 is Err {
                a_failed_turn_stays_failed(ceiling, next, later);
            } else {
                a_run_keeps_its_promise(ceiling, next, later);
                assert(stored_on_the_way(ceiling, turn, replies) =~= (if turn.stage is Remembering {
                    seq![turn.stage->Remembering_0]
                } else {
                    seq![]
                }) + stored_on_the_way(ceiling, next, later));
            }
        }
    }
}

proof fn a_failed_turn_stays_failed(
    ceiling: AuthorityModel,
    turn: TurnModel,
    replies: Seq<(ReplyModel, TicketId)>,
)
    requires
        turn.stage is Finished,
        turn.stage->Finished_0 is Err,
    ensures
        run_turn(ceiling, turn, replies).stage is Finished,
        run_turn(ceiling, turn, replies).stage->Finished_0 is Err,
    decreases replies.len(),
{
    if replies.len() > 0 {
        a_failed_turn_stays_failed(
            ceiling,
            turn_step(ceiling, turn, replies[0].0, replies[0].1),
            replies.drop_first(),
        );
    }
}

/// A turn that ends well has done what was decided and nothing else: its messages are
/// the responses in order; its events are a leading report and the effects of the other
/// actions in order, tickets clamped; and it stored the memory proposals in order.
pub proof fn a_finished_turn_did_what_was_decided(
    ceiling: AuthorityModel,
    turn: TurnModel,
    actions: Seq<ActionModel>,
    proposals: Seq<Seq<char>>,
    id: TicketId,
    later: Seq<(ReplyModel, TicketId)>,
)
    requires
        turn.stage is Deciding,
    ensures
        ({
            let decided = turn_step(ceiling, turn, ReplyModel::Decision(actions, proposals), id);
            run_turn(ceiling, decided, later).stage matches StageModel::Finished(Ok(outcome)) ==> {
                &&& outcome.messages == responses(actions)
                &&& unnamed_all(outcome.events) == leading(turn.report) + effects(
                    ceiling,
                    turn.conversation_id,
                    actions,
                )
                &&& stored_on_the_way(ceiling, decided, later) == proposals
            }
        }),
{
    let decided = turn_step(ceiling, turn, ReplyModel::Decision(actions, proposals), id);
    let plan = PlanModel { actions, proposals, outcome: no_outcome() };
    a_plan_keeps_its_promise(ceiling, decided, plan, id);
    a_run_keeps_its_promise(ceiling, decided, later);
    assert(no_outcome().messages + responses(actions) =~= responses(actions));
    assert(leading(turn.report) + unnamed_all(no_outcome().events) + effects(
        ceiling,
        turn.conversation_id,
        actions,
    ) =~= leading(turn.report) + effects(ceiling, turn.conversation_id, actions));
}

/// The orchestrator is shown its own active work: every listed ticket, with its id,
/// objective and state, stands in the context it is asked with.
pub proof fn the_orchestrator_sees_its_active_work(
    memories: Seq<MemoryModel>,
    recent: Seq<MessageModel>,
    active: Seq<ActiveModel>,
    report: Option<ReportModel>,
    i: int,
)
    requires
        0 <= i < active.len(),
    ensures
        decision_request(memories, recent, active, report).messages[1] == (
            ModelRole::System,
            orchestrator_context(memories, active, report).text(),
        ),
        orchestrator_context(memories, active, report).get("active_work"@) matches Some(
            Tree::Array(items),
        ) && items.len() == active.len() && items[i] == crate::work::active_item_tree(active[i]),
{
    let context = orchestrator_context(memories, active, report);
    assert(context->Object_0[0].0 == "active_work"@);
}

/// Whatever a turn has done so far, its next action is carried out as it was decided: a
/// response is said by the assistant; a submitted ticket carries the proposed objective,
/// context, constraints and deliverable, and of the proposed authority exactly what the
/// policy permits; an update and a cancellation are checked with the ticket and context
/// that they name. The actions behind it are left to do.
pub proof fn the_next_action_is_carried_out_as_decided(
    ceiling: AuthorityModel,
    turn: TurnModel,
    reply: ReplyModel,
    id: TicketId,
    actions: Seq<ActionModel>,
    name: Seq<char>,
)
    requires
        actions.len() > 0,
        ({
            ||| turn.stage is Deciding && (reply matches ReplyModel::Decision(decided, _) && decided
                == actions)
            ||| reply is Done && (turn.stage matches StageModel::Responding(_, plan) && plan.actions
                == actions)
            ||| reply is Done && (turn.stage matches StageModel::Submitting(_, plan) && plan.actions
                == actions)
            ||| reply is Done && (turn.stage matches StageModel::Updating(_, _, plan)
                && plan.actions == actions)
            ||| reply is Done && (turn.stage matches StageModel::Cancelling(_, plan) && plan.actions
                == actions)
            ||| reply is Done && (turn.stage matches StageModel::Remembering(_, plan)
                && plan.actions == actions)
        }),
    ensures
        ({
            let next = next_stage(ceiling, turn, reply, id);
            match actions[0] {
                ActionModel::Respond(said) => next matches StageModel::Responding(message, left)
                    && message.0 is Assistant && message.1 == said && left.actions
                    == actions.drop_first(),
                ActionModel::Submit(asked) => next matches StageModel::Submitting(ticket, left)
                    && ticket.objective == asked.objective && ticket.context == asked.context
                    && ticket.constraints == asked.constraints && ticket.deliverable
                    == asked.deliverable && ticket.id == id && ticket.conversation_id
                    == turn.conversation_id && (ticket.authority.local.read_workspace
                    <==> asked.authority.local.read_workspace && ceiling.local.read_workspace) && (
                ticket.authority.local.write_workspace <==> asked.authority.local.write_workspace
                    && ceiling.local.write_workspace) && (ticket.authority.local.execute_local
                    <==> asked.authority.local.execute_local && ceiling.local.execute_local) && (
                ticket.authority.external.contains(name) <==> asked.authority.external.contains(
                    name,
                ) && ceiling.external.contains(name)) && left.actions == actions.drop_first(),
                ActionModel::Update(ticket, added) => next matches StageModel::Checking(
                    control,
                    left,
                ) && control == ControlModel::Update(ticket, added) && left.actions
                    == actions.drop_first(),
                ActionModel::Cancel(ticket) => next matches StageModel::Checking(control, left)
                    && control == ControlModel::Cancel(ticket) && left.actions
                    == actions.drop_first(),
            }
        }),
{
    if let ActionModel::Submit(asked) = actions[0] {
        crate::policy::clamping_intersects(ceiling, asked.authority, name);
    }
}

/// Once no action is left, the memory proposals are stored one by one, and then the turn
/// ends well.
pub proof fn proposals_are_stored_in_order(
    ceiling: AuthorityModel,
    turn: TurnModel,
    stored: Seq<char>,
    plan: PlanModel,
    id: TicketId,
)
    requires
        turn.stage == StageModel::Remembering(stored, plan),
        plan.actions.len() == 0,
    ensures
        ({
            let next = next_stage(ceiling, turn, ReplyModel::Done, id);
            if plan.proposals.len() > 0 {
                next matches StageModel::Remembering(text, left) && text == plan.proposals[0]
                    && left.proposals == plan.proposals.drop_first() && left.outcome
                    == plan.outcome && left.actions.len() == 0
            } else {
                next matches StageModel::Finished(Ok(outcome)) && outcome.messages
                    == plan.outcome.messages && outcome.events.len() == plan.outcome.events.len()
                    + (if turn.report is Some {
                    1int
                } else {
                    0int
                })
            }
        }),
{
}

/// A ticket of the turn's own conversation is updated with the named context, or cancelled,
/// and the rest of the plan stays as it is; every other one is refused by its own name.
pub proof fn control_acts_on_the_named_ticket(
    ceiling: AuthorityModel,
    turn: TurnModel,
    ticket: TicketId,
    added: Seq<ContextModel>,
    plan: PlanModel,
    owner: Option<ConversationId>,
    id: TicketId,
)
    ensures
        ({
            let asked = ReplyModel::Owner(owner);
            let update = TurnModel {
                stage: StageModel::Checking(ControlModel::Update(ticket, added), plan),
                ..turn
            };
            let cancel = TurnModel {
                stage: StageModel::Checking(ControlModel::Cancel(ticket), plan),
                ..turn
            };
            let refused = StageModel::Finished(Err(ErrorModel::TicketNotInConversation(ticket)));
            &&& owner == Some(turn.conversation_id) ==> next_stage(ceiling, update, asked, id)
                == StageModel::Updating(ticket, added, plan)
            &&& owner == Some(turn.conversation_id) ==> next_stage(ceiling, cancel, asked, id)
                == StageModel::Cancelling(ticket, plan)
            &&& owner != Some(turn.conversation_id) ==> next_stage(ceiling, update, asked, id)
                == refused
            &&& owner != Some(turn.conversation_id) ==> next_stage(ceiling, cancel, asked, id)
                == refused
        }),
{
}

/// A turn gathers its context port by port, and hands on what each port gave: a user's
/// message is what memories are recalled for, eight at most; for a report it is the report
/// as JSON, four at most; then the last 24 messages are read; then the active work.
pub proof fn a_turn_gathers_its_context(
    ceiling: AuthorityModel,
    turn: TurnModel,
    message: MessageModel,
    query: Seq<char>,
    limit: usize,
    memories: Seq<MemoryModel>,
    recent: Seq<MessageModel>,
    id: TicketId,
)
    ensures
        turn.stage == StageModel::Appending(message) ==> next_stage(
            ceiling,
            turn,
            ReplyModel::Done,
            id,
        ) == StageModel::Recalling(message.1, 8),
        turn.stage is Accepting ==> (turn.report matches Some(report) ==> next_stage(
            ceiling,
            turn,
            ReplyModel::Done,
            id,
        ) == StageModel::Recalling(
            Tree::Object(seq![("worker_result"@, report.tree())]).text(),
            4,
        )),
        turn.stage == StageModel::Recalling(query, limit) ==> next_stage(
            ceiling,
            turn,
            ReplyModel::Memories(memories),
            id,
        ) == StageModel::Reading(memories, 24),
        turn.stage == StageModel::Reading(memories, limit) ==> next_stage(
            ceiling,
            turn,
            ReplyModel::Messages(recent),
            id,
        ) == StageModel::Surveying(memories, recent),
{
}

/// The model is asked for one JSON object, with its charter, then the context, then the
/// recent messages in their order. The context tells of the report that started the turn,
/// of every recalled memory with its relevance, and of every piece of active work.
pub proof fn the_orchestrator_is_asked_with_its_context(
    ceiling: AuthorityModel,
    turn: TurnModel,
    memories: Seq<MemoryModel>,
    recent: Seq<MessageModel>,
    active: Seq<ActiveModel>,
    id: TicketId,
    i: int,
    j: int,
    k: int,
)
    requires
        turn.stage == StageModel::Surveying(memories, recent),
    ensures
        next_stage(ceiling, turn, ReplyModel::Work(active), id) matches StageModel::Deciding(
            request,
        ) && request.messages.len() == recent.len() + 2 && request.messages[0] == (
            ModelRole::System,
            ORCHESTRATOR_PROMPT@,
        ) && request.messages[1].0 is System && (0 <= i < recent.len()
            ==> request.messages[i + 2] == recent[i]) && request.output is JsonObject && request.max_output_tokens is None
            && request.temperature.0 == 0x3FC9_9999_A000_0000 && exists|context: Tree| #[trigger]
            context.text() == request.messages[1].1 && context.get("external_event"@) == Some(
                match turn.report {
                    Some(report) => Tree::Text(
                        Tree::Object(seq![("worker_result"@, report.tree())]).text(),
                    ),
                    None => Tree::Null,
                },
            ) && (context.get("retrieved_memories"@) matches Some(Tree::Array(shown)) && shown.len()
            == memories.len() && (0 <= j < memories.len() ==> shown[j].get("text"@) == Some(
            Tree::Text(memories[j].0),
        ) && shown[j].get("relevance"@) == Some(memories[j].1))) && (context.get("active_work"@)
            matches Some(Tree::Array(listed)) && listed.len() == active.len() && (0 <= k
            < active.len() ==> listed[k].get("id"@) == Some(
            Tree::Text(crate::ids::id_chars(active[k].0)),
        ) && listed[k].get("objective"@) == Some(Tree::Text(active[k].1)) && listed[k].get(
            "state"@,
        ) == Some(Tree::Text(crate::protocol::state_name(active[k].2))))),
{
    reveal_strlit("active_work");
    reveal_strlit("external_event");
    reveal_strlit("retrieved_memories");
    reveal_strlit("relevance");
    reveal_strlit("text");
    let context = orchestrator_context(memories, active, turn.report);
    let members = context->Object_0;
    assert("active_work"@.len() == 11);
    assert("external_event"@.len() == 14);
    assert("retrieved_memories"@.len() == 18);
    assert("relevance"@.len() == 9);
    assert("text"@.len() == 4);
    crate::json::members_are_read_by_name(members, 0, ""@);
    crate::json::members_are_read_by_name(members, 1, ""@);
    crate::json::members_are_read_by_name(members, 2, ""@);
    if 0 <= j < memories.len() {
        let memory = memory_tree(memories[j])->Object_0;
        crate::json::members_are_read_by_name(memory, 0, ""@);
        crate::json::members_are_read_by_name(memory, 1, ""@);
    }
    if 0 <= k < active.len() {
        crate::work::active_work_is_shown_whole(active[k]);
    }
    let request = decision_request(memories, recent, active, turn.report);
    if 0 <= i < recent.len() {
        assert(request.messages[i + 2] == recent[i]);
    }
    assert(request.messages[1].1 == context.text());
}

proof fn responses_are_what_is_said(actions: Seq<ActionModel>)
    ensures
        ({
            let spoken = actions.filter(|action: ActionModel| action is Respond);
            &&& responses(actions).len() == spoken.len()
            &&& forall|i: int|
                0 <= i < spoken.len() ==> spoken[i] == ActionModel::Respond(
                    #[trigger] responses(actions)[i],
                )
        }),
    decreases actions.len(),
{
    let speaks = |action: ActionModel| action is Respond;
    let spoken = actions.filter(speaks);
    if actions.len() == 0 {
        reveal(Seq::filter);
    } else {
        let head = seq![actions[0]];
        let rest = actions.drop_first();
        responses_are_what_is_said(rest);
        assert(head + rest =~= actions);
        Seq::filter_distributes_over_add(head, rest, speaks);
        assert(head.drop_last() =~= Seq::<ActionModel>::empty());
        assert(head.filter(speaks) =~= if speaks(actions[0]) {
            head
        } else {
            Seq::<ActionModel>::empty()
        }) by {
            reveal(Seq::filter);
            reveal_with_fuel(Seq::filter, 2);
        }
        let before = head.filter(speaks);
        let later = rest.filter(speaks);
        assert(spoken == before + later);
        assert forall|i: int| 0 <= i < spoken.len() implies spoken[i] == ActionModel::Respond(
            #[trigger] responses(actions)[i],
        ) by {
            if i >= before.len() {
                assert(responses(actions)[i] == responses(rest)[i - before.len()]);
            }
        }
    }
}

proof fn effects_are_what_is_done(
    ceiling: AuthorityModel,
    conversation: ConversationId,
    actions: Seq<ActionModel>,
)
    ensures
        ({
            let done = actions.filter(|action: ActionModel| !(action is Respond));
            let found = effects(ceiling, conversation, actions);
            &&& found.len() == done.len()
            &&& forall|i: int|
                0 <= i < done.len() ==> match #[trigger] done[i] {
                    ActionModel::Respond(_) => false,
                    ActionModel::Submit(asked) => found[i] == EventModel::Submitted(
                        made_ticket(ceiling, conversation, 0, asked),
                    ),
                    ActionModel::Update(ticket, added) => found[i] == EventModel::Updated(
                        ticket,
                        added,
                    ),
                    ActionModel::Cancel(ticket) => found[i] == EventModel::Cancelled(ticket),
                }
        }),
    decreases actions.len(),
{
    let acts = |action: ActionModel| !(action is Respond);
    let done = actions.filter(acts);
    let found = effects(ceiling, conversation, actions);
    if actions.len() == 0 {
        reveal(Seq::filter);
    } else {
        let head = seq![actions[0]];
        let rest = actions.drop_first();
        effects_are_what_is_done(ceiling, conversation, rest);
        assert(head + rest =~= actions);
        Seq::filter_distributes_over_add(head, rest, acts);
        assert(head.drop_last() =~= Seq::<ActionModel>::empty());
        assert(head.filter(acts) =~= if acts(actions[0]) {
            head
        } else {
            Seq::<ActionModel>::empty()
        }) by {
            reveal(Seq::filter);
            reveal_with_fuel(Seq::filter, 2);
        }
        let before = head.filter(acts);
        let later = rest.filter(acts);
        assert(done == before + later);
        let after = effects(ceiling, conversation, rest);
        assert forall|i: int| 0 <= i < done.len() implies match #[trigger] done[i] {
            ActionModel::Respond(_) => false,
            ActionModel::Submit(asked) => found[i] == EventModel::Submitted(
                made_ticket(ceiling, conversation, 0, asked),
            ),
            ActionModel::Update(ticket, added) => found[i] == EventModel::Updated(ticket, added),
            ActionModel::Cancel(ticket) => found[i] == EventModel::Cancelled(ticket),
        } by {
            if i >= before.len() {
                assert(done[i] == later[i - before.len()]);
                assert(found[i] == after[i - before.len()]);
            }
        }
    }
}

/// A turn that ends well has said exactly what was responded, in order. Behind the report
/// that started it, where one did, its events are exactly the other actions, in order: a
/// submission with the objective, context, constraints and deliverable that were proposed,
/// in the turn's conversation; an update with its ticket and context; a cancellation with
/// its ticket.
pub proof fn a_finished_turn_tells_what_was_decided(
    ceiling: AuthorityModel,
    turn: TurnModel,
    actions: Seq<ActionModel>,
    proposals: Seq<Seq<char>>,
    id: TicketId,
    later: Seq<(ReplyModel, TicketId)>,
)
    requires
        turn.stage is Deciding,
    ensures
        ({
            let decided = turn_step(ceiling, turn, ReplyModel::Decision(actions, proposals), id);
            let spoken = actions.filter(|action: ActionModel| action is Respond);
            let done = actions.filter(|action: ActionModel| !(action is Respond));
            let first = if turn.report is Some {
                1int
            } else {
                0int
            };
            run_turn(ceiling, decided, later).stage matches StageModel::Finished(Ok(outcome)) ==> {
                &&& outcome.messages.len() == spoken.len()
                &&& forall|i: int|
                    0 <= i < spoken.len() ==> spoken[i] == ActionModel::Respond(
                        #[trigger] outcome.messages[i],
                    )
                &&& outcome.events.len() == first + done.len()
                &&& turn.report matches Some(report) ==> outcome.events[0]
                    == EventModel::WorkerReported(report)
                &&& forall|i: int|
                    0 <= i < done.len() ==> match #[trigger] done[i] {
                        ActionModel::Respond(_) => false,
                        ActionModel::Submit(asked) => outcome.events[first + i] matches
                            EventModel::Submitted(ticket) && ticket.objective == asked.objective
                            && ticket.context == asked.context && ticket.constraints
                            == asked.constraints && ticket.deliverable == asked.deliverable
                            && ticket.conversation_id == turn.conversation_id,
                        ActionModel::Update(ticket, added) => outcome.events[first + i]
                            == EventModel::Updated(ticket, added),
                        ActionModel::Cancel(ticket) => outcome.events[first + i]
                            == EventModel::Cancelled(ticket),
                    }
            }
        }),
{
    a_finished_turn_did_what_was_decided(ceiling, turn, actions, proposals, id, later);
    responses_are_what_is_said(actions);
    effects_are_what_is_done(ceiling, turn.conversation_id, actions);
    let decided = turn_step(ceiling, turn, ReplyModel::Decision(actions, proposals), id);
    if let StageModel::Finished(Ok(outcome)) = run_turn(ceiling, decided, later).stage {
        let done = actions.filter(|action: ActionModel| !(action is Respond));
        let found = effects(ceiling, turn.conversation_id, actions);
        let told = unnamed_all(outcome.events);
        let before = leading(turn.report);
        assert(told == before + found);
        assert(told.len() == outcome.events.len());
        if turn.report is Some {
            assert(told[0] == unnamed(outcome.events[0]));
        }
        assert forall|i: int| 0 <= i < done.len() implies match #[trigger] done[i] {
            ActionModel::Respond(_) => false,
            ActionModel::Submit(asked) => outcome.events[before.len() + i] matches
                EventModel::Submitted(ticket) && ticket.objective == asked.objective
                && ticket.context == asked.context && ticket.constraints == asked.constraints
                && ticket.deliverable == asked.deliverable && ticket.conversation_id
                == turn.conversation_id,
            ActionModel::Update(ticket, added) => outcome.events[before.len() + i]
                == EventModel::Updated(ticket, added),
            ActionModel::Cancel(ticket) => outcome.events[before.len() + i]
                == EventModel::Cancelled(ticket),
        } by {
            assert(told[before.len() + i] == found[i]);
            assert(told[before.len() + i] == unnamed(outcome.events[before.len() + i]));
        }
    }
}

/// What a port replied is taken as it came: its failure by its own error, a model's failure
/// by its message, an unreadable decision by the reason, and everything else by its contents.
pub proof fn replies_are_taken_as_they_came(
    error: KernelError,
    failure: crate::model::ModelError,
    why: String,
    envelope: OrchestratorEnvelope,
    owner: Option<ConversationId>,
    items: Vec<MemoryItem>,
)
    ensures
        PortReply::Done(Err(error))@ == ReplyModel::Failed(error@),
        PortReply::Memories(Err(error))@ == ReplyModel::Failed(error@),
        PortReply::Messages(Err(error))@ == ReplyModel::Failed(error@),
        PortReply::Work(Err(error))@ == ReplyModel::Failed(error@),
        PortReply::Owner(Err(error))@ == ReplyModel::Failed(error@),
        PortReply::Done(Ok(()))@ is Done,
        PortReply::Owner(Ok(owner))@ == ReplyModel::Owner(owner),
        PortReply::Decision(ModelReply::Failed(failure))@ == ReplyModel::Failed(
            ErrorModel::Model(failure.text()),
        ),
        PortReply::Decision(ModelReply::Unreadable(why))@ == ReplyModel::Failed(
            ErrorModel::InvalidDecision(why@),
        ),
        PortReply::Memories(Ok(items))@ matches ReplyModel::Memories(found) && found.len()
            == items@.len() && forall|i: int|
            0 <= i < items@.len() ==> #[trigger] found[i] == (
                items@[i].text@,
                items@[i].relevance@,
            ),
        PortReply::Decision(ModelReply::Read(envelope))@ matches ReplyModel::Decision(
            actions,
            proposals,
        ) && actions.len() == envelope.actions@.len() && proposals.len()
            == envelope.memory_proposals@.len() && (forall|i: int|
            0 <= i < actions.len() ==> #[trigger] actions[i] == envelope.actions@[i]@) && forall|
            i: int,
        |
            0 <= i < proposals.len() ==> #[trigger] proposals[i] == envelope.memory_proposals@[i]@,
{
}

/// An action stands for exactly what it holds: its text, its ticket, its context, and every
/// field of a proposal.
pub proof fn actions_stand_for_what_they_hold(
    text: String,
    ticket_id: TicketId,
    context: Vec<ContextItem>,
    ticket: NewTicket,
)
    ensures
        (OrchestratorAction::Respond { text })@ == ActionModel::Respond(text@),
        (OrchestratorAction::Cancel { ticket_id })@ == ActionModel::Cancel(ticket_id),
        (OrchestratorAction::Update { ticket_id, context })@ matches ActionModel::Update(id, added)
            && id == ticket_id && added.len() == context@.len() && forall|i: int|
            0 <= i < added.len() ==> #[trigger] added[i] == (context@[i].label@, context@[i].value@),
        (OrchestratorAction::Submit { ticket })@ matches ActionModel::Submit(asked)
            && asked.objective == ticket.objective@ && asked.deliverable == ticket.deliverable@
            && asked.authority == ticket.authority@ && asked.context.len() == ticket.context@.len()
            && asked.constraints.len() == ticket.constraints@.len() && (forall|i: int|
            0 <= i < asked.context.len() ==> #[trigger] asked.context[i] == (
                ticket.context@[i].label@,
                ticket.context@[i].value@,
            )) && forall|i: int|
            0 <= i < asked.constraints.len() ==> #[trigger] asked.constraints[i]
                == ticket.constraints@[i]@,
{
}

/// An event, and a turn with its stage, stand for exactly what they hold.
pub proof fn events_and_turns_stand_for_what_they_hold(
    event: KernelTicketEvent,
    turn: Turn,
    i: int,
)
    ensures
        event matches KernelTicketEvent::Submitted { ticket } ==> event@ == EventModel::Submitted(
            ticket@,
        ),
        event matches KernelTicketEvent::Cancelled { ticket_id } ==> event@
            == EventModel::Cancelled(ticket_id),
        event matches KernelTicketEvent::WorkerReported { report } ==> event@
            == EventModel::WorkerReported(report@),
        event matches KernelTicketEvent::Updated { ticket_id, context } ==> (event@ matches
            EventModel::Updated(id, added) && id == ticket_id && added.len() == context@.len() && (0
            <= i < context@.len() ==> added[i] == (context@[i].label@, context@[i].value@))),
        turn@.conversation_id == turn.conversation_id,
        turn.report matches Some(report) ==> turn@.report == Some(report@),
        turn.report is None ==> turn@.report is None,
        turn.stage matches Stage::Appending { message } ==> turn@.stage == StageModel::Appending(
            (message.role, message.content@),
        ),
        turn.stage matches Stage::Recalling { query, limit } ==> turn@.stage
            == StageModel::Recalling(query@, limit),
        turn.stage matches Stage::Deciding { request } ==> turn@.stage == StageModel::Deciding(
            request@,
        ),
        turn.stage matches Stage::Responding { message, plan } ==> turn@.stage
            == StageModel::Responding((message.role, message.content@), plan@),
        turn.stage matches Stage::Submitting { ticket, plan } ==> turn@.stage
            == StageModel::Submitting(ticket@, plan@),
        turn.stage matches Stage::Cancelling { ticket_id, plan } ==> turn@.stage
            == StageModel::Cancelling(ticket_id, plan@),
        turn.stage matches Stage::Updating { ticket_id, context, plan } ==> (turn@.stage matches
            StageModel::Updating(id, added, left) && id == ticket_id && left == plan@ && added.len()
            == context@.len() && (0 <= i < context@.len() ==> added[i] == (
            context@[i].label@,
            context@[i].value@,
        ))),
        turn.stage matches Stage::Remembering { text, plan } ==> turn@.stage
            == StageModel::Remembering(text@, plan@),
        turn.stage matches Stage::Finished { result: Ok(outcome) } ==> (turn@.stage matches
            StageModel::Finished(Ok(told)) && told.messages.len() == outcome.user_messages@.len()
            && told.events.len() == outcome.ticket_events@.len() && (0 <= i
            < told.messages.len() ==> told.messages[i] == outcome.user_messages@[i]@) && (0 <= i
            < told.events.len() ==> told.events[i] == outcome.ticket_events@[i]@)),
        turn.stage matches Stage::Finished { result: Err(error) } ==> turn@.stage
            == StageModel::Finished(Err(error@)),
{
}

/// How turns start: a user's with the message to be appended to the conversation; a report's
/// with the report to be accepted, in the report's conversation; a direct control with the
/// check of the named ticket, and with nothing else to do.
pub proof fn a_turn_starts_with_its_cause<M, Mem, Store, Work>(
    kernel: OrchestrationKernel<M, Mem, Store, Work>,
    conversation: ConversationId,
    text: &str,
    report: WorkerReport,
    ticket: TicketId,
    context: Vec<ContextItem>,
    turn: Turn,
    i: int,
)
    ensures
        call_ensures(
            OrchestrationKernel::<M, Mem, Store, Work>::handle_user_turn,
            (&kernel, conversation, text),
            turn,
        ) ==> turn@.conversation_id == conversation && turn@.report is None && (turn@.stage matches
            StageModel::Appending(message) && message.0 is User && message.1 == text@),
        call_ensures(
            OrchestrationKernel::<M, Mem, Store, Work>::handle_worker_result,
            (&kernel, report),
            turn,
        ) ==> turn@.conversation_id == report.conversation_id && turn@.report == Some(report@)
            && turn@.stage is Accepting,
        call_ensures(
            OrchestrationKernel::<M, Mem, Store, Work>::cancel_ticket,
            (&kernel, conversation, ticket),
            turn,
        ) ==> turn@.conversation_id == conversation && turn@.report is None && (turn@.stage matches
            StageModel::Checking(control, plan) && control == ControlModel::Cancel(ticket)
            && plan.actions.len() == 0 && plan.proposals.len() == 0 && plan.outcome.messages.len()
            == 0 && plan.outcome.events.len() == 0),
        call_ensures(
            OrchestrationKernel::<M, Mem, Store, Work>::update_ticket,
            (&kernel, conversation, ticket, context),
            turn,
        ) ==> turn@.conversation_id == conversation && turn@.report is None && (turn@.stage matches
            StageModel::Checking(ControlModel::Update(named, added), plan) && named == ticket
            && added.len() == context@.len() && (0 <= i < context@.len() ==> added[i] == (
            context@[i].label@,
            context@[i].value@,
        )) && plan.actions.len() == 0 && plan.proposals.len() == 0 && plan.outcome.messages.len()
            == 0 && plan.outcome.events.len() == 0),
{
}

/// A step out of a decision whose first action is a submission leads to the submission of a
/// ticket with the objective, context, constraints and deliverable that were proposed, under
/// the drawn identifier and in the turn's conversation.
pub proof fn a_step_submits_what_was_proposed<M, Mem, Store, Work>(
    kernel: OrchestrationKernel<M, Mem, Store, Work>,
    turn: Turn,
    envelope: OrchestratorEnvelope,
    id: TicketId,
    next: Turn,
)
    requires
        turn.stage is Deciding,
        envelope.actions@.len() > 0,
        envelope.actions@[0] is Submit,
        call_ensures(
            OrchestrationKernel::<M, Mem, Store, Work>::step_with,
            (&kernel, turn, PortReply::Decision(ModelReply::Read(envelope)), id),
            next,
        ),
    ensures
        ({
            let asked = envelope.actions@[0]->Submit_ticket;
            next.stage matches Stage::Submitting { ticket, .. } && ticket.id == id
                && ticket.conversation_id == turn.conversation_id && ticket.objective@
                == asked.objective@ && ticket.deliverable@ == asked.deliverable@
                && ticket.context@.len() == asked.context@.len() && ticket.constraints@.len()
                == asked.constraints@.len() && (forall|i: int|
                0 <= i < ticket.context@.len() ==> (#[trigger] ticket.context@[i]).label@
                    == asked.context@[i].label@ && ticket.context@[i].value@
                    == asked.context@[i].value@) && forall|i: int|
                0 <= i < ticket.constraints@.len() ==> (#[trigger] ticket.constraints@[i])@
                    == asked.constraints@[i]@
        }),
{
    let asked = envelope.actions@[0]->Submit_ticket;
    let reply = PortReply::Decision(ModelReply::Read(envelope));
    let actions = actions_model(envelope.actions@);
    assert(actions[0] == ActionModel::Submit(asked@));
    the_next_action_is_carried_out_as_decided(
        kernel.authority_policy@,
        turn@,
        reply@,
        id,
        actions,
        Seq::empty(),
    );
    if let Stage::Submitting { ticket, plan } = next.stage {
        assert(next.stage@ == StageModel::Submitting(ticket@, plan@));
        assert(ticket@.context == asked@.context);
        assert(ticket@.constraints == asked@.constraints);
        assert(ticket@.context.len() == ticket.context@.len());
        assert(ticket@.constraints.len() == ticket.constraints@.len());
        assert forall|i: int| 0 <= i < ticket.context@.len() implies (
        #[trigger] ticket.context@[i]).label@ == asked.context@[i].label@
            && ticket.context@[i].value@ == asked.context@[i].value@ by {
            assert(ticket@.context[i] == (ticket.context@[i].label@, ticket.context@[i].value@));
            assert(asked@.context[i] == (asked.context@[i].label@, asked.context@[i].value@));
        }
        assert forall|i: int| 0 <= i < ticket.constraints@.len() implies (
        #[trigger] ticket.constraints@[i])@ == asked.constraints@[i]@ by {
            assert(ticket@.constraints[i] == ticket.constraints@[i]@);
            assert(asked@.constraints[i] == asked.constraints@[i]@);
        }
    }
}

} // verus!
