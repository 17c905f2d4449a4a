//! Transport-agnostic seam between presentation clients and the orchestration kernel.
//!
//! A web UI, CLI, desktop client or chat bridge depends on these commands and events
//! rather than on workers, the broker, model providers or memory. A command is a machine:
//! its [`ApiStage`] says what is to be published or asked of the kernel next, and
//! [`OrchestrationApi::step`] takes what came of it.

use std::sync::Arc;

use vstd::prelude::*;
use vstd::string::*;

use crate::capability_set::copy_names;
use crate::ids::{fresh_id, ConversationId, TicketId};
use crate::kernel::{KernelOutcome, KernelTicketEvent};
use crate::model::labelled;
use crate::protocol::{
    copy_artifacts, copy_context, ArtifactRef, ContextItem, Ticket, WorkerReport, WorkerStatus,
};
use crate::work::KernelError;

#[allow(unused_imports)]
use crate::kernel::{EventModel, OutcomeModel};
#[allow(unused_imports)]
use crate::protocol::{ArtifactModel, ContextModel, ReportModel, TicketModel};
#[allow(unused_imports)]
use crate::work::ErrorModel;

verus! {

pub const API_VERSION: &'static str = "v1";

// ---- what clients see ---------------------------------------------------------------

#[derive(Debug, Clone, Copy, PartialEq, Eq, Structural)]
pub enum MessageRole {
    User,
    Assistant,
}

#[derive(Debug, Clone, Copy, PartialEq, Eq, Structural)]
pub enum TicketState {
    Queued,
    Running,
    Completed,
    Blocked,
    Failed,
    Cancelled,
}

/// The state that a report leaves a ticket in, as clients see it.
pub open spec fn reported_state(status: WorkerStatus) -> TicketState {
    match status {
        WorkerStatus::Completed => TicketState::Completed,
        WorkerStatus::Blocked => TicketState::Blocked,
        WorkerStatus::Failed => TicketState::Failed,
    }
}

impl<'a> From<&'a WorkerStatus> for TicketState {
    fn from(status: &'a WorkerStatus) -> (state: Self) {
        match status {
            WorkerStatus::Completed => TicketState::Completed,
            WorkerStatus::Blocked => TicketState::Blocked,
            WorkerStatus::Failed => TicketState::Failed,
        }
    }
}

impl<'a> vstd::std_specs::convert::FromSpecImpl<&'a WorkerStatus> for TicketState {
    open spec fn obeys_from_spec() -> bool {
        true
    }

    open spec fn from_spec(status: &'a WorkerStatus) -> Self {
        reported_state(*status)
    }
}

/// The text of an optional string.
pub open spec fn maybe_text(text: Option<String>) -> Option<Seq<char>> {
    match text {
        Some(text) => Some(text@),
        None => None,
    }
}

fn copy_maybe(text: &Option<String>) -> (copy: Option<String>)
    ensures
        maybe_text(copy) == maybe_text(*text),
{
    match text {
        Some(text) => Some(text.clone()),
        None => None,
    }
}

/// One ticket as a client sees it.
#[derive(Debug)]
pub struct TicketView {
    pub id: TicketId,
    pub objective: String,
    pub deliverable: String,
    pub constraints: Vec<String>,
    pub context: Vec<ContextItem>,
    pub state: TicketState,
    pub summary: Option<String>,
    pub artifacts: Vec<ArtifactRef>,
}

/// The model of a ticket as a client sees it.
pub struct TicketViewModel {
    pub id: TicketId,
    pub objective: Seq<char>,
    pub deliverable: Seq<char>,
    pub constraints: Seq<Seq<char>>,
    pub context: Seq<ContextModel>,
    pub state: TicketState,
    pub summary: Option<Seq<char>>,
    pub artifacts: Seq<ArtifactModel>,
}

impl View for TicketView {
    type V = TicketViewModel;

    open spec fn view(&self) -> TicketViewModel {
        TicketViewModel {
            id: self.id,
            objective: self.objective@,
            deliverable: self.deliverable@,
            constraints: crate::json::texts(self.constraints@),
            context: crate::protocol::context_model(self.context@),
            state: self.state,
            summary: maybe_text(self.summary),
            artifacts: crate::protocol::artifacts_model(self.artifacts@),
        }
    }
}

impl Clone for TicketView {
    fn clone(&self) -> (copy: Self)
        ensures
            copy@ == self@,
    {
        TicketView {
            id: self.id,
            objective: self.objective.clone(),
            deliverable: self.deliverable.clone(),
            constraints: copy_names(&self.constraints),
            context: copy_context(&self.context),
            state: self.state,
            summary: copy_maybe(&self.summary),
            artifacts: copy_artifacts(&self.artifacts),
        }
    }
}

/// How a new ticket looks to clients: queued, without a summary or artifacts, and without
/// its authority.
pub open spec fn new_view(ticket: TicketModel) -> TicketViewModel {
    TicketViewModel {
        id: ticket.id,
        objective: ticket.objective,
        deliverable: ticket.deliverable,
        constraints: ticket.constraints,
        context: ticket.context,
        state: TicketState::Queued,
        summary: None,
        artifacts: seq![],
    }
}

impl<'a> From<&'a Ticket> for TicketView {
    fn from(ticket: &'a Ticket) -> (view: Self)
        ensures
            view@ == new_view(ticket@),
    {
        let view = TicketView {
            id: ticket.id,
            objective: ticket.objective.clone(),
            deliverable: ticket.deliverable.clone(),
            constraints: copy_names(&ticket.constraints),
            context: copy_context(&ticket.context),
            state: TicketState::Queued,
            summary: None,
            artifacts: Vec::new(),
        };
        assert(view@.artifacts =~= seq![]);
        view
    }
}

impl<'a> vstd::std_specs::convert::FromSpecImpl<&'a Ticket> for TicketView {
    open spec fn obeys_from_spec() -> bool {
        false
    }

    open spec fn from_spec(ticket: &'a Ticket) -> Self {
        arbitrary()
    }
}

/// Stable presentation events. They expose work, not worker or broker internals.
#[derive(Debug)]
pub enum ClientEvent {
    MessageCreated { message_id: u128, role: MessageRole, text: String },
    TicketCreated { ticket: TicketView },
    TicketUpdated { ticket_id: TicketId, context: Vec<ContextItem> },
    TicketStateChanged { ticket_id: TicketId, state: TicketState, summary: Option<String> },
    ArtifactCreated { ticket_id: TicketId, artifact: ArtifactRef },
}

/// The model of an event.
pub enum ClientEventModel {
    MessageCreated(u128, MessageRole, Seq<char>),
    TicketCreated(TicketViewModel),
    TicketUpdated(TicketId, Seq<ContextModel>),
    TicketStateChanged(TicketId, TicketState, Option<Seq<char>>),
    ArtifactCreated(TicketId, ArtifactModel),
}

impl View for ClientEvent {
    type V = ClientEventModel;

    open spec fn view(&self) -> ClientEventModel {
        match *self {
            ClientEvent::MessageCreated { message_id, role, text } =>
                ClientEventModel::MessageCreated(message_id, role, text@),
            ClientEvent::TicketCreated { ticket } => ClientEventModel::TicketCreated(ticket@),
            ClientEvent::TicketUpdated { ticket_id, context } => ClientEventModel::TicketUpdated(
                ticket_id,
                crate::protocol::context_model(context@),
            ),
            ClientEvent::TicketStateChanged { ticket_id, state, summary } =>
                ClientEventModel::TicketStateChanged(ticket_id, state, maybe_text(summary)),
            ClientEvent::ArtifactCreated { ticket_id, artifact } =>
                ClientEventModel::ArtifactCreated(ticket_id, artifact@),
        }
    }
}

impl Clone for ClientEvent {
    fn clone(&self) -> (copy: Self)
        ensures
            copy@ == self@,
    {
        match self {
            ClientEvent::MessageCreated { message_id, role, text } => ClientEvent::MessageCreated {
                message_id: *message_id,
                role: *role,
                text: text.clone(),
            },
            ClientEvent::TicketCreated { ticket } => ClientEvent::TicketCreated {
                ticket: ticket.clone(),
            },
            ClientEvent::TicketUpdated { ticket_id, context } => ClientEvent::TicketUpdated {
                ticket_id: *ticket_id,
                context: copy_context(context),
            },
            ClientEvent::TicketStateChanged { ticket_id, state, summary } =>
                ClientEvent::TicketStateChanged {
                    ticket_id: *ticket_id,
                    state: *state,
                    summary: copy_maybe(summary),
                },
            ClientEvent::ArtifactCreated { ticket_id, artifact } => ClientEvent::ArtifactCreated {
                ticket_id: *ticket_id,
                artifact: artifact.clone(),
            },
        }
    }
}

/// The model of a list of events.
pub open spec fn client_events_model(items: Seq<ClientEvent>) -> Seq<ClientEventModel> {
    items.map_values(|item: ClientEvent| item@)
}

#[derive(Debug)]
pub struct EventEnvelope {
    pub api_version: String,
    pub event_id: u128,
    pub conversation_id: ConversationId,
    pub event: ClientEvent,
}

/// The model of an envelope.
pub struct EnvelopeModel {
    pub api_version: Seq<char>,
    pub event_id: u128,
    pub conversation_id: ConversationId,
    pub event: ClientEventModel,
}

impl View for EventEnvelope {
    type V = EnvelopeModel;

    open spec fn view(&self) -> EnvelopeModel {
        EnvelopeModel {
            api_version: self.api_version@,
            event_id: self.event_id,
            conversation_id: self.conversation_id,
            event: self.event@,
        }
    }
}

impl Clone for EventEnvelope {
    fn clone(&self) -> (copy: Self)
        ensures
            copy@ == self@,
    {
        EventEnvelope {
            api_version: self.api_version.clone(),
            event_id: self.event_id,
            conversation_id: self.conversation_id,
            event: self.event.clone(),
        }
    }
}

/// An event in its envelope.
pub open spec fn enclosed(
    conversation: ConversationId,
    event_id: u128,
    event: ClientEventModel,
) -> EnvelopeModel {
    EnvelopeModel { api_version: API_VERSION@, event_id, conversation_id: conversation, event }
}

#[derive(Debug)]
pub struct CommandAck {
    pub api_version: String,
    pub command_id: u128,
    pub accepted: bool,
}

/// The model of an acknowledgement.
pub type AckModel = (Seq<char>, u128, bool);

impl View for CommandAck {
    type V = AckModel;

    open spec fn view(&self) -> AckModel {
        (self.api_version@, self.command_id, self.accepted)
    }
}

/// Commands are semantic user or client intentions, not transport requests.
#[derive(Debug)]
pub enum ClientCommand {
    SendMessage { conversation_id: ConversationId, text: String },
    CancelTicket { conversation_id: ConversationId, ticket_id: TicketId },
    UpdateTicket { conversation_id: ConversationId, ticket_id: TicketId, context: Vec<ContextItem> },
}

#[derive(Debug)]
pub enum ApiError {
    Kernel(KernelError),
    EventSink(String),
}

/// The model of an error.
pub enum ApiErrorModel {
    Kernel(ErrorModel),
    EventSink(Seq<char>),
}

impl View for ApiError {
    type V = ApiErrorModel;

    open spec fn view(&self) -> ApiErrorModel {
        match *self {
            ApiError::Kernel(error) => ApiErrorModel::Kernel(error@),
            ApiError::EventSink(detail) => ApiErrorModel::EventSink(detail@),
        }
    }
}

impl ApiErrorModel {
    /// The message of an error.
    pub open spec fn text(self) -> Seq<char> {
        match self {
            ApiErrorModel::Kernel(error) => "orchestration kernel error: "@ + error.text(),
            ApiErrorModel::EventSink(detail) => "event sink error: "@ + detail,
        }
    }
}

impl ApiError {
    /// The message of an error.
    pub fn message(&self) -> (text: String)
        ensures
            text@ == self@.text(),
    {
        match self {
            ApiError::Kernel(error) => {
                let detail = error.message();
                labelled("orchestration kernel error: ", detail.as_str())
            },
            ApiError::EventSink(detail) => labelled("event sink error: ", detail.as_str()),
        }
    }
}

impl From<KernelError> for ApiError {
    fn from(error: KernelError) -> (made: Self) {
        ApiError::Kernel(error)
    }
}

impl vstd::std_specs::convert::FromSpecImpl<KernelError> for ApiError {
    open spec fn obeys_from_spec() -> bool {
        true
    }

    open spec fn from_spec(error: KernelError) -> Self {
        ApiError::Kernel(error)
    }
}

// ---- what an outcome announces ------------------------------------------------------

/// What a report announces: the new state with the summary, then the artifacts in order.
pub open spec fn report_announcements(report: ReportModel) -> Seq<ClientEventModel> {
    seq![
        ClientEventModel::TicketStateChanged(
            report.ticket_id,
            reported_state(report.status),
            Some(report.summary),
        ),
    ] + report.artifacts.map_values(
        |artifact: ArtifactModel| ClientEventModel::ArtifactCreated(report.ticket_id, artifact),
    )
}

/// What one kernel event announces.
pub open spec fn announcements(event: EventModel) -> Seq<ClientEventModel> {
    match event {
        EventModel::Submitted(ticket) => seq![ClientEventModel::TicketCreated(new_view(ticket))],
        EventModel::Updated(ticket, context) => seq![
            ClientEventModel::TicketUpdated(ticket, context),
        ],
        EventModel::Cancelled(ticket) => seq![
            ClientEventModel::TicketStateChanged(ticket, TicketState::Cancelled, None),
        ],
        EventModel::WorkerReported(report) => report_announcements(report),
    }
}

/// What the first `n` kernel events announce, in order.
pub open spec fn announcements_of(events: Seq<EventModel>, n: int) -> Seq<ClientEventModel>
    decreases n,
{
    if n <= 0 {
        seq![]
    } else {
        announcements_of(events, n - 1) + announcements(events[n - 1])
    }
}

/// The messages of an outcome as events; message `i` has the identifier `ids[i]`.
pub open spec fn message_events(messages: Seq<Seq<char>>, ids: Seq<u128>) -> Seq<ClientEventModel> {
    Seq::new(
        messages.len(),
        |i: int| ClientEventModel::MessageCreated(ids[i], MessageRole::Assistant, messages[i]),
    )
}

/// Everything that an outcome announces: its messages, then its ticket events.
pub open spec fn outcome_events(outcome: OutcomeModel, ids: Seq<u128>) -> Seq<ClientEventModel> {
    message_events(outcome.messages, ids) + announcements_of(
        outcome.events,
        outcome.events.len() as int,
    )
}

fn push_report(events: Vec<ClientEvent>, report: WorkerReport) -> (out: Vec<ClientEvent>)
    ensures
        client_events_model(out@) == client_events_model(events@) + report_announcements(report@),
{
    let ghost before = client_events_model(events@);
    let ghost told = report_announcements(report@);
    let ticket_id = report.ticket_id;
    let mut out = events;
    out.push(
        ClientEvent::TicketStateChanged {
            ticket_id,
            state: TicketState::from(&report.status),
            summary: Some(report.summary),
        },
    );
    let artifacts = report.artifacts;
    let mut i: usize = 0;
    assert(client_events_model(out@) =~= before + told.take(1));
    while i < artifacts.len()
        invariant
            i <= artifacts.len(),
            told.len() == 1 + artifacts.len(),
            forall|j: int|
                0 <= j < artifacts.len() ==> #[trigger] told[j + 1]
                    == ClientEventModel::ArtifactCreated(ticket_id, artifacts[j]@),
            client_events_model(out@) == before + told.take(i + 1),
        decreases artifacts.len() - i,
    {
        let ghost sent = client_events_model(out@);
        let ghost next = told[i + 1];
        out.push(ClientEvent::ArtifactCreated { ticket_id, artifact: artifacts[i].clone() });
        proof {
            assert(client_events_model(out@) =~= sent.push(next));
            assert(told.take(i + 2) =~= told.take(i + 1).push(next));
            assert(before + told.take(i + 2) =~= (before + told.take(i + 1)).push(next));
        }
        i = i + 1;
    }
    assert(told.take(artifacts.len() + 1) =~= told);
    out
}

fn push_event(events: Vec<ClientEvent>, event: KernelTicketEvent) -> (out: Vec<ClientEvent>)
    ensures
        client_events_model(out@) == client_events_model(events@) + announcements(event@),
{
    let ghost before = client_events_model(events@);
    let ghost told = announcements(event@);
    let mut out = events;
    match event {
        KernelTicketEvent::Submitted { ticket } => {
            out.push(ClientEvent::TicketCreated { ticket: TicketView::from(&ticket) });
        },
        KernelTicketEvent::Updated { ticket_id, context } => {
            out.push(ClientEvent::TicketUpdated { ticket_id, context });
        },
        KernelTicketEvent::Cancelled { ticket_id } => {
            out.push(
                ClientEvent::TicketStateChanged {
                    ticket_id,
                    state: TicketState::Cancelled,
                    summary: None,
                },
            );
        },
        KernelTicketEvent::WorkerReported { report } => {
            return push_report(out, report);
        },
    }
    assert(client_events_model(out@) =~= before + told);
    out
}

/// Everything that an outcome announces: its messages, then its ticket events.
fn outcome_announcements(outcome: KernelOutcome, ids: &Vec<u128>) -> (out: Vec<ClientEvent>)
    requires
        ids@.len() == outcome@.messages.len(),
    ensures
        client_events_model(out@) == outcome_events(outcome@, ids@),
{
    let ghost told = outcome@;
    let messages = outcome.user_messages;
    let mut ticket_events = outcome.ticket_events;
    let mut out: Vec<ClientEvent> = Vec::new();
    let mut i: usize = 0;
    let ghost said = message_events(told.messages, ids@);
    assert(client_events_model(out@) =~= said.take(0));
    while i < messages.len()
        invariant
            i <= messages.len(),
            messages.len() == ids.len(),
            told.messages == crate::json::texts(messages@),
            said == message_events(told.messages, ids@),
            client_events_model(out@) == said.take(i as int),
        decreases messages.len() - i,
    {
        let ghost sent = client_events_model(out@);
        out.push(
            ClientEvent::MessageCreated {
                message_id: ids[i],
                role: MessageRole::Assistant,
                text: messages[i].clone(),
            },
        );
        assert(client_events_model(out@) =~= sent.push(said[i as int]));
        assert(said.take(i + 1) =~= said.take(i as int).push(said[i as int]));
        i = i + 1;
    }
    assert(said.take(messages.len() as int) =~= said);
    let n = ticket_events.len();
    let mut k: usize = 0;
    assert(said + announcements_of(told.events, 0) =~= said);
    while k < n
        invariant
            k <= n,
            n == told.events.len(),
            crate::kernel::events_model(ticket_events@) == told.events.skip(k as int),
            client_events_model(out@) == said + announcements_of(told.events, k as int),
        decreases n - k,
    {
        let ghost left = crate::kernel::events_model(ticket_events@);
        assert(left.len() == ticket_events.len());
        assert(left[0] == told.events[k as int]);
        let event = ticket_events.remove(0);
        proof {
            assert(crate::kernel::events_model(ticket_events@) =~= left.drop_first());
            assert(left.drop_first() =~= told.events.skip(k + 1));
            assert(event@ == told.events[k as int]);
            assert(said + announcements_of(told.events, k as int) + announcements(event@) =~= said
                + announcements_of(told.events, k + 1));
        }
        out = push_event(out, event);
        k = k + 1;
    }
    out
}

// ---- the machine --------------------------------------------------------------------

/// What the kernel is to be asked.
#[derive(Debug)]
pub enum KernelRequest {
    UserTurn { text: String },
    CancelTicket { ticket_id: TicketId },
    UpdateTicket { ticket_id: TicketId, context: Vec<ContextItem> },
    WorkerResult { report: WorkerReport },
}

/// The model of a request to the kernel.
pub enum KernelRequestModel {
    UserTurn(Seq<char>),
    CancelTicket(TicketId),
    UpdateTicket(TicketId, Seq<ContextModel>),
    WorkerResult(ReportModel),
}

impl View for KernelRequest {
    type V = KernelRequestModel;

    open spec fn view(&self) -> KernelRequestModel {
        match *self {
            KernelRequest::UserTurn { text } => KernelRequestModel::UserTurn(text@),
            KernelRequest::CancelTicket { ticket_id } => KernelRequestModel::CancelTicket(
                ticket_id,
            ),
            KernelRequest::UpdateTicket { ticket_id, context } => KernelRequestModel::UpdateTicket(
                ticket_id,
                crate::protocol::context_model(context@),
            ),
            KernelRequest::WorkerResult { report } => KernelRequestModel::WorkerResult(report@),
        }
    }
}

/// The model of an optional request to the kernel.
pub open spec fn maybe_request(request: Option<KernelRequest>) -> Option<KernelRequestModel> {
    match request {
        Some(request) => Some(request@),
        None => None,
    }
}

/// Where a command stands: what is to be done next.
#[derive(Debug)]
pub enum ApiStage {
    /// The sink is to publish an event; `rest` is published after it, and then the kernel
    /// is asked where `then_ask` says so.
    Publishing { envelope: EventEnvelope, rest: Vec<ClientEvent>, then_ask: Option<KernelRequest> },
    /// The kernel is to be asked.
    Asking { request: KernelRequest },
    /// Nothing is to be done any more. A command is acknowledged; a notification is not.
    Finished { result: Result<Option<CommandAck>, ApiError> },
}

/// The model of a stage.
pub enum ApiStageModel {
    Publishing(EnvelopeModel, Seq<ClientEventModel>, Option<KernelRequestModel>),
    Asking(KernelRequestModel),
    Finished(Result<Option<AckModel>, ApiErrorModel>),
}

/// The model of a result.
pub open spec fn ack_model(result: Result<Option<CommandAck>, ApiError>) -> Result<
    Option<AckModel>,
    ApiErrorModel,
> {
    match result {
        Ok(Some(ack)) => Ok(Some(ack@)),
        Ok(None) => Ok(None),
        Err(error) => Err(error@),
    }
}

impl View for ApiStage {
    type V = ApiStageModel;

    open spec fn view(&self) -> ApiStageModel {
        match *self {
            ApiStage::Publishing { envelope, rest, then_ask } => ApiStageModel::Publishing(
                envelope@,
                client_events_model(rest@),
                maybe_request(then_ask),
            ),
            ApiStage::Asking { request } => ApiStageModel::Asking(request@),
            ApiStage::Finished { result } => ApiStageModel::Finished(ack_model(result)),
        }
    }
}

/// One command, or one notification, on its way.
#[derive(Debug)]
pub struct ApiRun {
    pub conversation_id: ConversationId,
    /// The identifier of a command; a notification has none.
    pub command_id: Option<u128>,
    pub stage: ApiStage,
}

/// The model of a command on its way.
pub struct ApiRunModel {
    pub conversation_id: ConversationId,
    pub command_id: Option<u128>,
    pub stage: ApiStageModel,
}

impl View for ApiRun {
    type V = ApiRunModel;

    open spec fn view(&self) -> ApiRunModel {
        ApiRunModel {
            conversation_id: self.conversation_id,
            command_id: self.command_id,
            stage: self.stage@,
        }
    }
}

/// What came of a stage.
#[derive(Debug)]
pub enum ApiReply {
    Published(Result<(), ApiError>),
    Outcome(Result<KernelOutcome, KernelError>),
}

/// The model of a reply.
pub enum ApiReplyModel {
    Published,
    Outcome(OutcomeModel),
    Failed(ApiErrorModel),
}

impl View for ApiReply {
    type V = ApiReplyModel;

    open spec fn view(&self) -> ApiReplyModel {
        match *self {
            ApiReply::Published(Ok(_)) => ApiReplyModel::Published,
            ApiReply::Published(Err(error)) => ApiReplyModel::Failed(error@),
            ApiReply::Outcome(Ok(outcome)) => ApiReplyModel::Outcome(outcome@),
            ApiReply::Outcome(Err(error)) => ApiReplyModel::Failed(ApiErrorModel::Kernel(error@)),
        }
    }
}

/// Whether a reply is of the kind that a stage waits for.
pub open spec fn answers(stage: ApiStage, reply: ApiReply) -> bool {
    match stage {
        ApiStage::Publishing { .. } => reply is Published,
        ApiStage::Asking { .. } => reply is Outcome,
        ApiStage::Finished { .. } => false,
    }
}

/// The end of a run in which nothing failed.
pub open spec fn accepted(command_id: Option<u128>) -> ApiStageModel {
    ApiStageModel::Finished(
        Ok(
            match command_id {
                Some(id) => Some((API_VERSION@, id, true)),
                None => None,
            },
        ),
    )
}

/// The stage that publishes events in order, and asks the kernel after them.
pub open spec fn publish_all(
    run: ApiRunModel,
    events: Seq<ClientEventModel>,
    then_ask: Option<KernelRequestModel>,
    event_id: u128,
) -> ApiStageModel {
    if events.len() > 0 {
        ApiStageModel::Publishing(
            enclosed(run.conversation_id, event_id, events[0]),
            events.drop_first(),
            then_ask,
        )
    } else {
        match then_ask {
            Some(request) => ApiStageModel::Asking(request),
            None => accepted(run.command_id),
        }
    }
}

/// The run that follows a run and what came of its stage; `event_id` is for the event that
/// is published next and `ids` for the messages of an outcome.
pub open spec fn api_step(
    run: ApiRunModel,
    reply: ApiReplyModel,
    event_id: u128,
    ids: Seq<u128>,
) -> ApiRunModel {
    let stage = match (run.stage, reply) {
        (_, ApiReplyModel::Failed(error)) => ApiStageModel::Finished(Err(error)),
        (ApiStageModel::Publishing(_, rest, then_ask), ApiReplyModel::Published) => publish_all(
            run,
            rest,
            then_ask,
            event_id,
        ),
        (ApiStageModel::Asking(_), ApiReplyModel::Outcome(outcome)) => publish_all(
            run,
            outcome_events(outcome, ids),
            None,
            event_id,
        ),
        (stage, _) => stage,
    };
    ApiRunModel { stage, ..run }
}

/// The run that a command starts: a message is published before its turn is taken.
pub open spec fn command_run(
    command: ClientCommand,
    command_id: u128,
    message_id: u128,
    event_id: u128,
) -> ApiRunModel {
    match command {
        ClientCommand::SendMessage { conversation_id, text } => ApiRunModel {
            conversation_id,
            command_id: Some(command_id),
            stage: ApiStageModel::Publishing(
                enclosed(
                    conversation_id,
                    event_id,
                    ClientEventModel::MessageCreated(message_id, MessageRole::User, text@),
                ),
                seq![],
                Some(KernelRequestModel::UserTurn(text@)),
            ),
        },
        ClientCommand::CancelTicket { conversation_id, ticket_id } => ApiRunModel {
            conversation_id,
            command_id: Some(command_id),
            stage: ApiStageModel::Asking(KernelRequestModel::CancelTicket(ticket_id)),
        },
        ClientCommand::UpdateTicket { conversation_id, ticket_id, context } => ApiRunModel {
            conversation_id,
            command_id: Some(command_id),
            stage: ApiStageModel::Asking(
                KernelRequestModel::UpdateTicket(
                    ticket_id,
                    crate::protocol::context_model(context@),
                ),
            ),
        },
    }
}

// ---- the API ------------------------------------------------------------------------

/// The semantic UI seam. It knows nothing of providers, workers or models beyond the
/// kernel behind `K`.
#[derive(Debug)]
pub struct OrchestrationApi<K, E> {
    pub kernel: Arc<K>,
    pub events: Arc<E>,
}

fn enclose(conversation_id: ConversationId, event_id: u128, event: ClientEvent) -> (envelope:
    EventEnvelope)
    ensures
        envelope@ == enclosed(conversation_id, event_id, event@),
{
    EventEnvelope { api_version: API_VERSION.to_owned(), event_id, conversation_id, event }
}

fn fresh_ids(n: usize) -> (ids: Vec<u128>)
    ensures
        ids@.len() == n,
        forall|i: int| 0 <= i < n ==> crate::ids::is_random_id(#[trigger] ids@[i]),
{
    let mut ids: Vec<u128> = Vec::new();
    while ids.len() < n
        invariant
            ids.len() <= n,
            forall|i: int| 0 <= i < ids.len() ==> crate::ids::is_random_id(#[trigger] ids@[i]),
        decreases n - ids.len(),
    {
        ids.push(fresh_id());
    }
    ids
}

impl<K, E> OrchestrationApi<K, E> {
    pub fn new(kernel: Arc<K>, events: Arc<E>) -> (api: Self)
        ensures
            api.kernel == kernel,
            api.events == events,
    {
        OrchestrationApi { kernel, events }
    }

    /// Starts a command. It gets a fresh identifier, as do the message and the event of a
    /// message that is sent.
    pub fn execute(&self, command: ClientCommand) -> (run: ApiRun)
        ensures
            exists|command_id: u128, message_id: u128, event_id: u128|
                crate::ids::is_random_id(command_id) && crate::ids::is_random_id(message_id)
                    && crate::ids::is_random_id(event_id) && run@ == #[trigger] command_run(
                    command,
                    command_id,
                    message_id,
                    event_id,
                ),
    {
        self.execute_with(command, fresh_id(), fresh_id(), fresh_id())
    }

    /// Starts a command with given identifiers.
    pub fn execute_with(
        &self,
        command: ClientCommand,
        command_id: u128,
        message_id: u128,
        event_id: u128,
    ) -> (run: ApiRun)
        ensures
            run@ == command_run(command, command_id, message_id, event_id),
    {
        let command_id = Some(command_id);
        match command {
            ClientCommand::SendMessage { conversation_id, text } => {
                let event = ClientEvent::MessageCreated {
                    message_id,
                    role: MessageRole::User,
                    text: text.clone(),
                };
                let rest: Vec<ClientEvent> = Vec::new();
                assert(client_events_model(rest@) =~= seq![]);
                ApiRun {
                    conversation_id,
                    command_id,
                    stage: ApiStage::Publishing {
                        envelope: enclose(conversation_id, event_id, event),
                        rest,
                        then_ask: Some(KernelRequest::UserTurn { text }),
                    },
                }
            },
            ClientCommand::CancelTicket { conversation_id, ticket_id } => ApiRun {
                conversation_id,
                command_id,
                stage: ApiStage::Asking { request: KernelRequest::CancelTicket { ticket_id } },
            },
            ClientCommand::UpdateTicket { conversation_id, ticket_id, context } => ApiRun {
                conversation_id,
                command_id,
                stage: ApiStage::Asking {
                    request: KernelRequest::UpdateTicket { ticket_id, context },
                },
            },
        }
    }

    /// Called by the durable work controller when a queued ticket starts executing.
    pub fn ticket_started(&self, conversation_id: ConversationId, ticket_id: TicketId) -> (run:
        ApiRun)
        ensures
            exists|event_id: u128| #[trigger]
                crate::ids::is_random_id(event_id) && run@ == (ApiRunModel {
                    conversation_id,
                    command_id: None,
                    stage: ApiStageModel::Publishing(
                        enclosed(
                            conversation_id,
                            event_id,
                            ClientEventModel::TicketStateChanged(
                                ticket_id,
                                TicketState::Running,
                                None,
                            ),
                        ),
                        seq![],
                        None,
                    ),
                }),
    {
        let event_id = fresh_id();
        let event = ClientEvent::TicketStateChanged {
            ticket_id,
            state: TicketState::Running,
            summary: None,
        };
        let rest: Vec<ClientEvent> = Vec::new();
        assert(client_events_model(rest@) =~= seq![]);
        ApiRun {
            conversation_id,
            command_id: None,
            stage: ApiStage::Publishing {
                envelope: enclose(conversation_id, event_id, event),
                rest,
                then_ask: None,
            },
        }
    }

    /// Called by the durable worker controller when a worker finishes, blocks or fails.
    pub fn worker_report(&self, report: WorkerReport) -> (run: ApiRun)
        ensures
            run@ == (ApiRunModel {
                conversation_id: report.conversation_id,
                command_id: None,
                stage: ApiStageModel::Asking(KernelRequestModel::WorkerResult(report@)),
            }),
    {
        ApiRun {
            conversation_id: report.conversation_id,
            command_id: None,
            stage: ApiStage::Asking { request: KernelRequest::WorkerResult { report } },
        }
    }

    /// Carries a run on with what came of its stage. Events and messages get fresh
    /// identifiers.
    pub fn step(&self, run: ApiRun, reply: ApiReply) -> (next: ApiRun)
        requires
            answers(run.stage, reply),
        ensures
            exists|event_id: u128, ids: Seq<u128>|
                crate::ids::is_random_id(event_id) && (forall|i: int|
                    0 <= i < ids.len() ==> crate::ids::is_random_id(#[trigger] ids[i])) && (
                reply@ matches ApiReplyModel::Outcome(outcome) ==> ids.len()
                    == outcome.messages.len()) && next@ == #[trigger] api_step(
                    run@,
                    reply@,
                    event_id,
                    ids,
                ),
    {
        let count = match &reply {
            ApiReply::Outcome(Ok(outcome)) => outcome.user_messages.len(),
            _ => 0,
        };
        let ids = fresh_ids(count);
        self.step_with(run, reply, fresh_id(), &ids)
    }

    /// Carries a run on with what came of its stage and with given identifiers, one for
    /// each message of an outcome.
    pub fn step_with(&self, run: ApiRun, reply: ApiReply, event_id: u128, ids: &Vec<u128>) -> (next:
        ApiRun)
        requires
            answers(run.stage, reply),
            reply@ matches ApiReplyModel::Outcome(outcome) ==> ids@.len() == outcome.messages.len(),
        ensures
            next@ == api_step(run@, reply@, event_id, ids@),
    {
        let conversation_id = run.conversation_id;
        let command_id = run.command_id;
        let stage = match (run.stage, reply) {
            (_, ApiReply::Published(Err(error))) => ApiStage::Finished { result: Err(error) },
            (_, ApiReply::Outcome(Err(error))) => {
                ApiStage::Finished { result: Err(ApiError::from(error)) }
            },
            (ApiStage::Publishing { rest, then_ask, .. }, ApiReply::Published(Ok(_))) => {
                self.publish(conversation_id, command_id, rest, then_ask, event_id)
            },
            (ApiStage::Asking { .. }, ApiReply::Outcome(Ok(outcome))) => {
                self.publish_outcome(conversation_id, command_id, outcome, event_id, ids)
            },
            (stage, _) => stage,
        };
        ApiRun { conversation_id, command_id, stage }
    }

    /// The stage that publishes everything that an outcome announces.
    fn publish_outcome(
        &self,
        conversation_id: ConversationId,
        command_id: Option<u128>,
        outcome: KernelOutcome,
        event_id: u128,
        ids: &Vec<u128>,
    ) -> (stage: ApiStage)
        requires
            ids@.len() == outcome@.messages.len(),
        ensures
            forall|run: ApiRunModel|
                run.conversation_id == conversation_id && run.command_id == command_id ==> stage@
                    == #[trigger] publish_all(run, outcome_events(outcome@, ids@), None, event_id),
    {
        let events = outcome_announcements(outcome, ids);
        self.publish(conversation_id, command_id, events, None, event_id)
    }

    /// The stage that publishes events in order, and asks the kernel after them.
    fn publish(
        &self,
        conversation_id: ConversationId,
        command_id: Option<u128>,
        events: Vec<ClientEvent>,
        then_ask: Option<KernelRequest>,
        event_id: u128,
    ) -> (stage: ApiStage)
        ensures
            forall|run: ApiRunModel|
                run.conversation_id == conversation_id && run.command_id == command_id ==> stage@
                    == #[trigger] publish_all(
                    run,
                    client_events_model(events@),
                    maybe_request(then_ask),
                    event_id,
                ),
    {
        let ghost all = client_events_model(events@);
        let mut rest = events;
        if rest.len() > 0 {
            let event = rest.remove(0);
            assert(client_events_model(rest@) =~= all.drop_first());
            assert(event@ == all[0]);
            return ApiStage::Publishing {
                envelope: enclose(conversation_id, event_id, event),
                rest,
                then_ask,
            };
        }
        match then_ask {
            Some(request) => ApiStage::Asking { request },
            None => {
                let ack = match command_id {
                    Some(command_id) => Some(
                        CommandAck {
                            api_version: API_VERSION.to_owned(),
                            command_id,
                            accepted: true,
                        },
                    ),
                    None => None,
                };
                ApiStage::Finished { result: Ok(ack) }
            },
        }
    }
}

// ---- laws ---------------------------------------------------------------------------

/// Every event is published on the conversation of its run and under this version.
pub proof fn events_stay_on_their_conversation(
    run: ApiRunModel,
    reply: ApiReplyModel,
    event_id: u128,
    ids: Seq<u128>,
)
    requires
        run.stage matches ApiStageModel::Publishing(envelope, _, _) ==> envelope.conversation_id
            == run.conversation_id && envelope.api_version == API_VERSION@,
    ensures
        api_step(run, reply, event_id, ids).conversation_id == run.conversation_id,
        api_step(run, reply, event_id, ids).stage matches ApiStageModel::Publishing(envelope, _, _)
            ==> envelope.conversation_id == run.conversation_id && envelope.api_version
            == API_VERSION@,
{
}

/// A message is published before its turn is taken: the kernel is asked only once the sink
/// has taken the user's message.
pub proof fn a_message_is_published_before_its_turn(
    command: ClientCommand,
    command_id: u128,
    message_id: u128,
    event_id: u128,
    reply: ApiReplyModel,
    next_id: u128,
    ids: Seq<u128>,
)
    requires
        command is SendMessage,
    ensures
        ({
            let run = command_run(command, command_id, message_id, event_id);
            let text = command->SendMessage_text@;
            &&& run.stage matches ApiStageModel::Publishing(envelope, _, _) && envelope.event
                == ClientEventModel::MessageCreated(message_id, MessageRole::User, text)
            &&& api_step(run, reply, next_id, ids).stage is Asking ==> reply is Published
                && api_step(run, reply, next_id, ids).stage == ApiStageModel::Asking(
                KernelRequestModel::UserTurn(text),
            )
        }),
{
}

/// A refused request is answered with its error and publishes nothing more.
pub proof fn a_failure_ends_the_run(
    run: ApiRunModel,
    error: ApiErrorModel,
    event_id: u128,
    ids: Seq<u128>,
)
    ensures
        api_step(run, ApiReplyModel::Failed(error), event_id, ids).stage
            == ApiStageModel::Finished(Err(error)),
{
}

/// A run carried on with a sequence of replies, each with the identifier drawn for it.
pub open spec fn run_api(run: ApiRunModel, replies: Seq<(ApiReplyModel, u128)>) -> ApiRunModel
    decreases replies.len(),
{
    if replies.len() == 0 {
        run
    } else {
        run_api(api_step(run, replies[0].0, replies[0].1, seq![]), replies.drop_first())
    }
}

/// The events that were published on the way, in order.
pub open spec fn published_on_the_way(
    run: ApiRunModel,
    replies: Seq<(ApiReplyModel, u128)>,
) -> Seq<ClientEventModel>
    decreases replies.len(),
{
    if replies.len() == 0 {
        seq![]
    } else {
        (match (run.stage, replies[0].0) {
            (ApiStageModel::Publishing(envelope, _, _), ApiReplyModel::Published) => seq![
                envelope.event,
            ],
            _ => seq![],
        }) + published_on_the_way(
            api_step(run, replies[0].0, replies[0].1, seq![]),
            replies.drop_first(),
        )
    }
}

proof fn a_failed_run_stays_failed(run: ApiRunModel, replies: Seq<(ApiReplyModel, u128)>)
    requires
        run.stage is Finished,
        run.stage->Finished_0 is Err,
    ensures
        run_api(run, replies).stage is Finished,
        run_api(run, replies).stage->Finished_0 is Err,
    decreases replies.len(),
{
    if replies.len() > 0 {
        a_failed_run_stays_failed(
            api_step(run, replies[0].0, replies[0].1, seq![]),
            replies.drop_first(),
        );
    }
}

proof fn a_finished_run_publishes_nothing(run: ApiRunModel, replies: Seq<(ApiReplyModel, u128)>)
    requires
        run.stage is Finished,
    ensures
        published_on_the_way(run, replies) == Seq::<ClientEventModel>::empty(),
        run_api(run, replies).stage matches ApiStageModel::Finished(Ok(ack)) ==> run.stage
            == ApiStageModel::Finished(Ok(ack)),
    decreases replies.len(),
{
    if replies.len() > 0 {
        let next = api_step(run, replies[0].0, replies[0].1, seq![]);
        a_finished_run_publishes_nothing(next, replies.drop_first());
        if next.stage->Finished_0 is Err {
            a_failed_run_stays_failed(next, replies.drop_first());
        }
    }
}

proof fn a_queue_is_published_in_order(
    run: ApiRunModel,
    events: Seq<ClientEventModel>,
    event_id: u128,
    replies: Seq<(ApiReplyModel, u128)>,
)
    requires
        run.stage == publish_all(run, events, None, event_id),
    ensures
        run_api(run, replies).stage matches ApiStageModel::Finished(Ok(ack)) ==> {
            &&& published_on_the_way(run, replies) == events
            &&& ApiStageModel::Finished(Ok(ack)) == accepted(run.command_id)
        },
    decreases replies.len(), events.len(),
{
    if events.len() == 0 {
        a_finished_run_publishes_nothing(run, replies);
        assert(events =~= seq![]);
    } else if replies.len() > 0 {
        let next = api_step(run, replies[0].0, replies[0].1, seq![]);
        let later = replies.drop_first();
        match replies[0].0 {
            ApiReplyModel::Failed(_) => {
                a_failed_run_stays_failed(next, later);
            },
            ApiReplyModel::Published => {
                a_queue_is_published_in_order(next, events.drop_first(), replies[0].1, later);
                assert(seq![events[0]] + events.drop_first() =~= events);
            },
            ApiReplyModel::Outcome(_) => {
                a_queue_is_published_in_order(next, events, event_id, later);
                assert(published_on_the_way(run, replies) =~= published_on_the_way(next, later));
            },
        }
    }
}

/// A run that ends well after the kernel's outcome has published exactly what the outcome
/// announces, in order, and acknowledges the command under this version.
pub proof fn an_outcome_is_published_whole_and_in_order(
    run: ApiRunModel,
    outcome: OutcomeModel,
    event_id: u128,
    ids: Seq<u128>,
    later: Seq<(ApiReplyModel, u128)>,
)
    requires
        run.stage is Asking,
    ensures
        ({
            let next = api_step(run, ApiReplyModel::Outcome(outcome), event_id, ids);
            run_api(next, later).stage matches ApiStageModel::Finished(Ok(ack)) ==> {
                &&& published_on_the_way(next, later) == outcome_events(outcome, ids)
                &&& ApiStageModel::Finished(Ok(ack)) == accepted(run.command_id)
            }
        }),
{
    let next = api_step(run, ApiReplyModel::Outcome(outcome), event_id, ids);
    a_queue_is_published_in_order(next, outcome_events(outcome, ids), event_id, later);
}

/// What is announced of a submitted ticket is the ticket itself, field by field: its id,
/// objective, deliverable, constraints and context, queued, without a summary or artifacts.
pub proof fn a_submission_announces_its_ticket(submitted: TicketModel)
    ensures
        announcements(EventModel::Submitted(submitted)).len() == 1,
        announcements(EventModel::Submitted(submitted))[0] matches ClientEventModel::TicketCreated(
            shown,
        ) && shown.id == submitted.id && shown.objective == submitted.objective
            && shown.deliverable == submitted.deliverable && shown.constraints
            == submitted.constraints && shown.context == submitted.context && shown.state is Queued
            && shown.summary is None && shown.artifacts.len() == 0,
{
}

/// An update announces its ticket and context; a cancellation its ticket, cancelled and
/// without a summary.
pub proof fn control_announces_its_ticket(ticket: TicketId, added: Seq<ContextModel>)
    ensures
        announcements(EventModel::Updated(ticket, added)).len() == 1,
        announcements(EventModel::Updated(ticket, added))[0] matches
            ClientEventModel::TicketUpdated(id, context) && id == ticket && context == added,
        announcements(EventModel::Cancelled(ticket)).len() == 1,
        announcements(EventModel::Cancelled(ticket))[0] matches
            ClientEventModel::TicketStateChanged(id, state, summary) && id == ticket
            && state is Cancelled && summary is None,
{
}

/// A report announces its ticket in the state of its status, with its summary, and then each
/// of its artifacts under that ticket, in order.
pub proof fn a_report_announces_its_contents(report: ReportModel, i: int)
    ensures
        ({
            let told = announcements(EventModel::WorkerReported(report));
            &&& told.len() == 1 + report.artifacts.len()
            &&& told[0] matches ClientEventModel::TicketStateChanged(id, state, summary) && id
                == report.ticket_id && summary == Some(report.summary) && (state is Completed
                <==> report.status is Completed) && (state is Blocked <==> report.status is Blocked)
                && (state is Failed <==> report.status is Failed)
            &&& 0 <= i < report.artifacts.len() ==> told[i + 1]
                == ClientEventModel::ArtifactCreated(report.ticket_id, report.artifacts[i])
        }),
{
}

/// An outcome announces its messages first, each as the assistant's under its own
/// identifier, and then what each of its events announces, in order.
pub proof fn an_outcome_announces_messages_then_events(
    messages: Seq<Seq<char>>,
    events: Seq<EventModel>,
    next: EventModel,
    ids: Seq<u128>,
    i: int,
)
    ensures
        ({
            let said = outcome_events(OutcomeModel { messages, events: Seq::empty() }, ids);
            &&& said.len() == messages.len()
            &&& 0 <= i < messages.len() ==> said[i] == ClientEventModel::MessageCreated(
                ids[i],
                MessageRole::Assistant,
                messages[i],
            )
        }),
        outcome_events(OutcomeModel { messages, events: events.push(next) }, ids)
            == outcome_events(OutcomeModel { messages, events }, ids) + announcements(next),
{
    let longer = events.push(next);
    let n = events.len() as int;
    earlier_announcements_stay(events, next, n);
    assert(longer[n] == next);
    assert(outcome_events(OutcomeModel { messages, events: longer }, ids) =~= outcome_events(
        OutcomeModel { messages, events },
        ids,
    ) + announcements(next));
}

proof fn earlier_announcements_stay(events: Seq<EventModel>, next: EventModel, n: int)
    requires
        0 <= n <= events.len(),
    ensures
        announcements_of(events.push(next), n) == announcements_of(events, n),
    decreases n,
{
    if n > 0 {
        earlier_announcements_stay(events, next, n - 1);
        assert(events.push(next)[n - 1] == events[n - 1]);
    }
}

/// Wherever an outcome has a submission, what is published of that outcome shows the ticket
/// with its own id, objective, deliverable, constraints and context, queued and untouched.
pub proof fn a_submitted_ticket_is_published(
    run: ApiRunModel,
    outcome: OutcomeModel,
    event_id: u128,
    ids: Seq<u128>,
    later: Seq<(ApiReplyModel, u128)>,
    i: int,
)
    requires
        run.stage is Asking,
        0 <= i < outcome.events.len(),
        outcome.events[i] is Submitted,
    ensures
        ({
            let next = api_step(run, ApiReplyModel::Outcome(outcome), event_id, ids);
            let submitted = outcome.events[i]->Submitted_0;
            run_api(next, later).stage matches ApiStageModel::Finished(Ok(_)) ==> exists|k: int|
                0 <= k < published_on_the_way(next, later).len() && (#[trigger] published_on_the_way(
                    next,
                    later,
                )[k] matches ClientEventModel::TicketCreated(shown) && shown.id == submitted.id
                    && shown.objective == submitted.objective && shown.deliverable
                    == submitted.deliverable && shown.constraints == submitted.constraints
                    && shown.context == submitted.context && shown.state is Queued && shown.summary
                    is None && shown.artifacts.len() == 0)
        }),
{
    an_outcome_is_published_whole_and_in_order(run, outcome, event_id, ids, later);
    let n = outcome.events.len() as int;
    let submitted = outcome.events[i]->Submitted_0;
    a_submission_announces_its_ticket(submitted);
    an_announcement_has_its_place(outcome.events, n, i);
    let before = announcements_of(outcome.events, i).len() as int;
    let all = announcements_of(outcome.events, n);
    let said = message_events(outcome.messages, ids);
    let next = api_step(run, ApiReplyModel::Outcome(outcome), event_id, ids);
    if run_api(next, later).stage is Finished && run_api(next, later).stage->Finished_0 is Ok {
        assert(outcome_events(outcome, ids)[said.len() + before] == all[before]);
        assert(published_on_the_way(next, later)[said.len() + before] == all[before]);
    }
}

proof fn an_announcement_has_its_place(events: Seq<EventModel>, n: int, i: int)
    requires
        0 <= i < n <= events.len(),
        announcements(events[i]).len() > 0,
    ensures
        ({
            let before = announcements_of(events, i).len() as int;
            &&& before < announcements_of(events, n).len()
            &&& announcements_of(events, n)[before] == announcements(events[i])[0]
        }),
    decreases n,
{
    let before = announcements_of(events, i).len() as int;
    if i == n - 1 {
        assert(announcements_of(events, n)[before] == announcements(events[i])[0]);
    } else {
        an_announcement_has_its_place(events, n - 1, i);
        assert(announcements_of(events, n)[before] == announcements_of(events, n - 1)[before]);
    }
}

/// A command starts with what it asks for, in its own conversation and under its own
/// identifier: a message is published as the user's and handed to the kernel word for word;
/// a cancellation and an update ask the kernel for the ticket and context that they name.
pub proof fn a_command_asks_for_what_it_says(
    conversation_id: ConversationId,
    text: String,
    ticket_id: TicketId,
    context: Vec<ContextItem>,
    command: u128,
    message: u128,
    event: u128,
    i: int,
)
    ensures
        ({
            let run = command_run(
                ClientCommand::SendMessage { conversation_id, text },
                command,
                message,
                event,
            );
            &&& run.conversation_id == conversation_id
            &&& run.command_id == Some(command)
            &&& run.stage matches ApiStageModel::Publishing(envelope, rest, Some(asked))
                && envelope.api_version == "v1"@ && envelope.event_id == event
                && envelope.conversation_id == conversation_id && envelope.event
                == ClientEventModel::MessageCreated(message, MessageRole::User, text@) && rest.len()
                == 0 && asked == KernelRequestModel::UserTurn(text@)
        }),
        ({
            let run = command_run(
                ClientCommand::CancelTicket { conversation_id, ticket_id },
                command,
                message,
                event,
            );
            &&& run.conversation_id == conversation_id
            &&& run.command_id == Some(command)
            &&& run.stage == ApiStageModel::Asking(KernelRequestModel::CancelTicket(ticket_id))
        }),
        ({
            let run = command_run(
                ClientCommand::UpdateTicket { conversation_id, ticket_id, context },
                command,
                message,
                event,
            );
            &&& run.conversation_id == conversation_id
            &&& run.command_id == Some(command)
            &&& run.stage matches ApiStageModel::Asking(
                KernelRequestModel::UpdateTicket(asked, added),
            ) && asked == ticket_id && added.len() == context@.len() && (0 <= i < context@.len()
                ==> added[i] == (context@[i].label@, context@[i].value@))
        }),
{
}

/// After an event was published the next one is, in an envelope of its own with the run's
/// conversation and this version; after the last one the kernel is asked where it is to be,
/// and otherwise a command is acknowledged by its own identifier, and a notification not.
pub proof fn a_run_goes_on_event_by_event(
    run: ApiRunModel,
    sent: EnvelopeModel,
    rest: Seq<ClientEventModel>,
    then_ask: Option<KernelRequestModel>,
    event_id: u128,
    ids: Seq<u128>,
)
    requires
        run.stage == ApiStageModel::Publishing(sent, rest, then_ask),
    ensures
        ({
            let next = api_step(run, ApiReplyModel::Published, event_id, ids);
            &&& next.conversation_id == run.conversation_id
            &&& next.command_id == run.command_id
            &&& rest.len() > 0 ==> (next.stage matches ApiStageModel::Publishing(
                envelope,
                left,
                still,
            ) && envelope.event == rest[0] && envelope.event_id == event_id
                && envelope.conversation_id == run.conversation_id && envelope.api_version == "v1"@
                && left == rest.drop_first() && still == then_ask)
            &&& rest.len() == 0 ==> (then_ask matches Some(asked) ==> next.stage
                == ApiStageModel::Asking(asked))
            &&& rest.len() == 0 && then_ask is None ==> (next.stage matches ApiStageModel::Finished(
                Ok(ack),
            ) && (run.command_id matches Some(id) ==> ack == Some(("v1"@, id, true))) && (
            run.command_id is None ==> ack is None))
        }),
{
}

/// What came back is taken as it came.
pub proof fn replies_are_taken_as_they_came(
    error: ApiError,
    failure: KernelError,
    outcome: KernelOutcome,
)
    ensures
        ApiReply::Published(Ok(()))@ is Published,
        ApiReply::Published(Err(error))@ == ApiReplyModel::Failed(error@),
        ApiReply::Outcome(Err(failure))@ == ApiReplyModel::Failed(ApiErrorModel::Kernel(failure@)),
        ApiReply::Outcome(Ok(outcome))@ matches ApiReplyModel::Outcome(told) && told.messages.len()
            == outcome.user_messages@.len() && told.events.len() == outcome.ticket_events@.len() && (
        forall|i: int|
            0 <= i < told.messages.len() ==> #[trigger] told.messages[i]
                == outcome.user_messages@[i]@) && forall|i: int|
            0 <= i < told.events.len() ==> #[trigger] told.events[i] == outcome.ticket_events@[i]@,
{
}

/// A ticket that clients see stands for exactly what it holds.
pub proof fn a_view_stands_for_what_it_holds(view: TicketView, i: int)
    ensures
        view@.id == view.id,
        view@.objective == view.objective@,
        view@.deliverable == view.deliverable@,
        view@.state == view.state,
        view.summary matches Some(summary) ==> view@.summary == Some(summary@),
        view.summary is None ==> view@.summary is None,
        view@.constraints.len() == view.constraints@.len(),
        view@.context.len() == view.context@.len(),
        view@.artifacts.len() == view.artifacts@.len(),
        0 <= i < view.constraints@.len() ==> view@.constraints[i] == view.constraints@[i]@,
        0 <= i < view.context@.len() ==> view@.context[i] == (
            view.context@[i].label@,
            view.context@[i].value@,
        ),
        0 <= i < view.artifacts@.len() ==> view@.artifacts[i] == (
            view.artifacts@[i].name@,
            view.artifacts@[i].uri@,
        ),
{
}

/// The message of an error says where it came from and what it was.
pub proof fn api_errors_say_their_kind(error: ErrorModel, detail: Seq<char>)
    ensures
        ApiErrorModel::Kernel(error).text() == "orchestration kernel error: "@ + error.text(),
        ApiErrorModel::EventSink(detail).text() == "event sink error: "@ + detail,
{
}

/// An event and its envelope stand for exactly what they hold.
pub proof fn events_stand_for_what_they_hold(envelope: EventEnvelope, ack: CommandAck, i: int)
    ensures
        envelope@.api_version == envelope.api_version@,
        envelope@.event_id == envelope.event_id,
        envelope@.conversation_id == envelope.conversation_id,
        ack@ == (ack.api_version@, ack.command_id, ack.accepted),
        envelope.event matches ClientEvent::MessageCreated { message_id, role, text }
            ==> envelope@.event == ClientEventModel::MessageCreated(message_id, role, text@),
        envelope.event matches ClientEvent::TicketCreated { ticket } ==> envelope@.event
            == ClientEventModel::TicketCreated(ticket@),
        envelope.event matches ClientEvent::TicketUpdated { ticket_id, context } ==> (
        envelope@.event matches ClientEventModel::TicketUpdated(id, added) && id == ticket_id
            && added.len() == context@.len() && (0 <= i < context@.len() ==> added[i] == (
            context@[i].label@,
            context@[i].value@,
        ))),
        envelope.event matches ClientEvent::TicketStateChanged { ticket_id, state, summary } ==> (
        envelope@.event matches ClientEventModel::TicketStateChanged(id, now, told) && id
            == ticket_id && now == state && (summary matches Some(text) ==> told == Some(text@)) && (
        summary is None ==> told is None)),
        envelope.event matches ClientEvent::ArtifactCreated { ticket_id, artifact }
            ==> envelope@.event == ClientEventModel::ArtifactCreated(
            ticket_id,
            (artifact.name@, artifact.uri@),
        ),
{
}

/// A ticket that started is announced as running, on its conversation and without a summary;
/// a worker's report is handed to the kernel as it came, on the report's conversation; and
/// neither is acknowledged.
pub proof fn notifications_tell_what_happened<K, E>(
    api: OrchestrationApi<K, E>,
    conversation: ConversationId,
    ticket: TicketId,
    report: WorkerReport,
    run: ApiRun,
)
    ensures
        call_ensures(
            OrchestrationApi::<K, E>::ticket_started,
            (&api, conversation, ticket),
            run,
        ) ==> run@.conversation_id == conversation && run@.command_id is None && (run@.stage matches
            ApiStageModel::Publishing(envelope, rest, then_ask) && envelope.conversation_id
            == conversation && envelope.api_version == "v1"@ && envelope.event
            == ClientEventModel::TicketStateChanged(ticket, TicketState::Running, None)
            && rest.len() == 0 && then_ask is None),
        call_ensures(OrchestrationApi::<K, E>::worker_report, (&api, report), run)
            ==> run@.conversation_id == report.conversation_id && run@.command_id is None
            && run@.stage == ApiStageModel::Asking(KernelRequestModel::WorkerResult(report@)),
{
}

} // verus!
