//! Ownership and lifecycle of tickets.

use std::collections::HashMap;

use vstd::prelude::*;
use vstd::string::*;

use crate::ids::{id_text, ConversationId, TicketId, WorkerId};
use crate::json::{identifier, object3, string, Json};
use crate::model::labelled;
use crate::protocol::{ContextItem, Ticket, WorkState, WorkerReport};

#[allow(unused_imports)]
use crate::json::Tree;
#[allow(unused_imports)]
use crate::protocol::{ReportModel, TicketModel};

verus! {

// ---- errors -------------------------------------------------------------------------

#[derive(Debug)]
pub enum KernelError {
    Model(String),
    InvalidDecision(String),
    Memory(String),
    Work(String),
    Store(String),
    TicketNotInConversation(TicketId),
    InvalidWorkTransition { ticket_id: TicketId, reason: String },
    InvalidWorkerReport { ticket_id: TicketId, reason: String },
}

/// The model of an error.
pub enum ErrorModel {
    Model(Seq<char>),
    InvalidDecision(Seq<char>),
    Memory(Seq<char>),
    Work(Seq<char>),
    Store(Seq<char>),
    TicketNotInConversation(TicketId),
    InvalidWorkTransition(TicketId, Seq<char>),
    InvalidWorkerReport(TicketId, Seq<char>),
}

impl View for KernelError {
    type V = ErrorModel;

    open spec fn view(&self) -> ErrorModel {
        match *self {
            KernelError::Model(detail) => ErrorModel::Model(detail@),
            KernelError::InvalidDecision(detail) => ErrorModel::InvalidDecision(detail@),
            KernelError::Memory(detail) => ErrorModel::Memory(detail@),
            KernelError::Work(detail) => ErrorModel::Work(detail@),
            KernelError::Store(detail) => ErrorModel::Store(detail@),
            KernelError::TicketNotInConversation(id) => ErrorModel::TicketNotInConversation(id),
            KernelError::InvalidWorkTransition { ticket_id, reason } =>
                ErrorModel::InvalidWorkTransition(ticket_id, reason@),
            KernelError::InvalidWorkerReport { ticket_id, reason } =>
                ErrorModel::InvalidWorkerReport(ticket_id, reason@),
        }
    }
}

impl ErrorModel {
    /// The message of an error.
    pub open spec fn text(self) -> Seq<char> {
        match self {
            ErrorModel::Model(detail) => "model error: "@ + detail,
            ErrorModel::InvalidDecision(detail) => "invalid orchestrator response: "@ + detail,
            ErrorModel::Memory(detail) => "memory error: "@ + detail,
            ErrorModel::Work(detail) => "work controller error: "@ + detail,
            ErrorModel::Store(detail) => "conversation store error: "@ + detail,
            ErrorModel::TicketNotInConversation(id) => "ticket "@ + crate::ids::id_chars(id)
                + " does not belong to this conversation"@,
            ErrorModel::InvalidWorkTransition(id, reason) =>
                "invalid work transition for ticket "@ + crate::ids::id_chars(id) + ": "@ + reason,
            ErrorModel::InvalidWorkerReport(id, reason) => "worker report rejected for ticket "@
                + crate::ids::id_chars(id) + ": "@ + reason,
        }
    }
}

impl KernelError {
    /// The message of an error.
    pub fn message(&self) -> (text: String)
        ensures
            text@ == self@.text(),
    {
        match self {
            KernelError::Model(detail) => labelled("model error: ", detail.as_str()),
            KernelError::InvalidDecision(detail) => labelled(
                "invalid orchestrator response: ",
                detail.as_str(),
            ),
            KernelError::Memory(detail) => labelled("memory error: ", detail.as_str()),
            KernelError::Work(detail) => labelled("work controller error: ", detail.as_str()),
            KernelError::Store(detail) => labelled("conversation store error: ", detail.as_str()),
            KernelError::TicketNotInConversation(id) => {
                let id = id_text(*id);
                let mut text = labelled("ticket ", id.as_str());
                text.append(" does not belong to this conversation");
                text
            },
            KernelError::InvalidWorkTransition { ticket_id, reason } => {
                let id = id_text(*ticket_id);
                let mut text = labelled("invalid work transition for ticket ", id.as_str());
                text.append(": ");
                text.append(reason.as_str());
                text
            },
            KernelError::InvalidWorkerReport { ticket_id, reason } => {
                let id = id_text(*ticket_id);
                let mut text = labelled("worker report rejected for ticket ", id.as_str());
                text.append(": ");
                text.append(reason.as_str());
                text
            },
        }
    }
}

/// Whether a call refused a transition of this ticket for this reason.
pub open spec fn refused_transition(
    result: Result<(), KernelError>,
    id: TicketId,
    why: Seq<char>,
) -> bool {
    result matches Err(error) && error@ == ErrorModel::InvalidWorkTransition(id, why)
}

/// Whether a call rejected a report on this ticket for this reason.
pub open spec fn rejected_report(
    result: Result<(), KernelError>,
    id: TicketId,
    why: Seq<char>,
) -> bool {
    result matches Err(error) && error@ == ErrorModel::InvalidWorkerReport(id, why)
}

// ---- the lifecycle ------------------------------------------------------------------

/// What is known of one ticket.
pub struct TrackedModel {
    pub conversation_id: ConversationId,
    pub objective: Seq<char>,
    pub state: WorkState,
    pub assigned_worker: Option<WorkerId>,
}

/// What is known of all tickets.
pub type WorkModel = Map<TicketId, TrackedModel>;

/// A queued ticket has no worker; one that runs, or has been reported on, has one.
pub open spec fn consistent(tickets: WorkModel) -> bool {
    forall|id: TicketId| #[trigger]
        tickets.contains_key(id) ==> {
            &&& tickets[id].state is Queued ==> tickets[id].assigned_worker is None
            &&& !(tickets[id].state is Queued) && !(tickets[id].state is Cancelled)
                ==> tickets[id].assigned_worker is Some
        }
}

/// A ticket is taken in as queued work of its conversation.
pub open spec fn submitted(tickets: WorkModel, ticket: TicketModel) -> WorkModel {
    tickets.insert(
        ticket.id,
        TrackedModel {
            conversation_id: ticket.conversation_id,
            objective: ticket.objective,
            state: WorkState::Queued,
            assigned_worker: None,
        },
    )
}

/// Why a ticket cannot be assigned.
pub open spec fn assign_refusal(tickets: WorkModel, id: TicketId) -> Option<Seq<char>> {
    if !tickets.contains_key(id) {
        Some("ticket does not exist"@)
    } else if !(tickets[id].state is Queued) {
        Some("expected queued ticket, found "@ + crate::protocol::state_label(tickets[id].state))
    } else {
        None
    }
}

/// A ticket is bound to a worker and runs.
pub open spec fn assigned(tickets: WorkModel, id: TicketId, worker: WorkerId) -> WorkModel {
    tickets.insert(
        id,
        TrackedModel {
            state: WorkState::Running,
            assigned_worker: Some(worker),
            ..tickets[id]
        },
    )
}

/// Why a ticket cannot be cancelled.
pub open spec fn cancel_refusal(tickets: WorkModel, id: TicketId) -> Option<Seq<char>> {
    if !tickets.contains_key(id) {
        Some("ticket does not exist"@)
    } else if !tickets[id].state.active() {
        Some(
            "cannot cancel ticket in "@ + crate::protocol::state_label(tickets[id].state)
                + " state"@,
        )
    } else {
        None
    }
}

/// A ticket is cancelled.
pub open spec fn cancelled(tickets: WorkModel, id: TicketId) -> WorkModel {
    tickets.insert(id, TrackedModel { state: WorkState::Cancelled, ..tickets[id] })
}

/// Why a report is rejected: the first of the four conditions that it fails.
pub open spec fn report_refusal(tickets: WorkModel, report: ReportModel) -> Option<Seq<char>> {
    let id = report.ticket_id;
    if !tickets.contains_key(id) {
        Some("ticket does not exist"@)
    } else if tickets[id].conversation_id != report.conversation_id {
        Some("conversation does not own this ticket"@)
    } else if tickets[id].assigned_worker != Some(report.worker_id) {
        Some("worker is not assigned to this ticket"@)
    } else if !(tickets[id].state is Running) {
        Some("expected running ticket, found "@ + crate::protocol::state_label(tickets[id].state))
    } else {
        None
    }
}

/// A report moves its ticket to the state that it names.
pub open spec fn reported(tickets: WorkModel, report: ReportModel) -> WorkModel {
    tickets.insert(
        report.ticket_id,
        TrackedModel {
            state: crate::protocol::terminal_state(report.status),
            ..tickets[report.ticket_id]
        },
    )
}

/// Whether a ticket is in flight for a conversation.
pub open spec fn in_flight(tickets: WorkModel, conversation: ConversationId, id: TicketId) -> bool {
    tickets.contains_key(id) && tickets[id].conversation_id == conversation
        && tickets[id].state.active()
}

/// The conversation that a ticket belongs to.
pub open spec fn owner(tickets: WorkModel, id: TicketId) -> Option<ConversationId> {
    if tickets.contains_key(id) {
        Some(tickets[id].conversation_id)
    } else {
        None
    }
}

/// One unit of work as the orchestrator sees it.
///
/// It has three fields: the orchestrator needs to know what work it has in flight, and
/// nothing more.
#[derive(Debug)]
pub struct ActiveWork {
    pub id: TicketId,
    pub objective: String,
    pub state: WorkState,
}

/// The model of a unit of active work: its ticket, objective and state.
pub type ActiveModel = (TicketId, Seq<char>, WorkState);

impl View for ActiveWork {
    type V = ActiveModel;

    open spec fn view(&self) -> ActiveModel {
        (self.id, self.objective@, self.state)
    }
}

/// The model of a list of active work.
pub open spec fn active_model(items: Seq<ActiveWork>) -> Seq<ActiveModel> {
    items.map_values(|item: ActiveWork| item@)
}

/// One unit of active work as JSON.
pub open spec fn active_item_tree(item: ActiveModel) -> Tree {
    Tree::Object(
        seq![
            ("id"@, crate::json::id_tree(item.0)),
            ("objective"@, Tree::Text(item.1)),
            ("state"@, Tree::Text(crate::protocol::state_name(item.2))),
        ],
    )
}

/// A list of active work as JSON.
pub open spec fn active_tree(items: Seq<ActiveModel>) -> Tree {
    Tree::Array(items.map_values(|item: ActiveModel| active_item_tree(item)))
}

/// A list of active work as JSON.
pub fn active_json(items: &Vec<ActiveWork>) -> (made: Json)
    ensures
        made@ == active_tree(active_model(items@)),
{
    let ghost goal = active_tree(active_model(items@))->Array_0;
    let mut values: Vec<Json> = Vec::new();
    let mut i: usize = 0;
    while i < items.len()
        invariant
            i <= items.len(),
            values.len() == i,
            goal.len() == items.len(),
            goal == active_tree(active_model(items@))->Array_0,
            forall|j: int| 0 <= j < i ==> (#[trigger] values[j])@ == goal[j],
        decreases items.len() - i,
    {
        let objective = string(items[i].objective.as_str());
        let state = string(items[i].state.name());
        proof {
            reveal_strlit("id");
            reveal_strlit("objective");
            reveal_strlit("state");
            crate::ordering::smaller_at("id"@, "objective"@, 0);
            crate::ordering::smaller_at("objective"@, "state"@, 0);
        }
        values.push(
            object3("id", identifier(items[i].id), "objective", objective, "state", state),
        );
        i = i + 1;
    }
    let made = Json::Array(values);
    assert(made@->Array_0 =~= goal);
    made
}

/// Whether a list holds exactly the work in flight for a conversation, each ticket once.
pub open spec fn lists_active_work(
    tickets: WorkModel,
    conversation: ConversationId,
    listed: Seq<ActiveModel>,
) -> bool {
    &&& forall|i: int|
        0 <= i < listed.len() ==> {
            let item = #[trigger] listed[i];
            &&& in_flight(tickets, conversation, item.0)
            &&& item.1 == tickets[item.0].objective
            &&& item.2 == tickets[item.0].state
        }
    &&& forall|id: TicketId| #[trigger]
        in_flight(tickets, conversation, id) ==> exists|i: int|
            0 <= i < listed.len() && (#[trigger] listed[i]).0 == id
    &&& forall|i: int, j: int|
        0 <= i < j < listed.len() ==> (#[trigger] listed[i]).0 != (#[trigger] listed[j]).0
}

// ---- the controller -----------------------------------------------------------------

#[derive(Debug)]
struct TrackedTicket {
    conversation_id: ConversationId,
    objective: String,
    state: WorkState,
    assigned_worker: Option<WorkerId>,
}

impl TrackedTicket {
    spec fn model(self) -> TrackedModel {
        TrackedModel {
            conversation_id: self.conversation_id,
            objective: self.objective@,
            state: self.state,
            assigned_worker: self.assigned_worker,
        }
    }
}

/// Prototype work controller: tracks ticket ownership and state in memory.
#[derive(Debug)]
pub struct InMemoryWorkController {
    tickets: HashMap<TicketId, TrackedTicket>,
}

impl View for InMemoryWorkController {
    type V = WorkModel;

    closed spec fn view(&self) -> WorkModel {
        self.tickets@.map_values(|ticket: TrackedTicket| ticket.model())
    }
}

impl Default for InMemoryWorkController {
    fn default() -> (controller: Self)
        ensures
            controller@ == Map::<TicketId, TrackedModel>::empty(),
    {
        broadcast use vstd::std_specs::hash::group_hash_axioms;

        let tickets: HashMap<TicketId, TrackedTicket> = HashMap::new();
        let ghost models = tickets@.map_values(|ticket: TrackedTicket| ticket.model());
        assert(models =~= Map::<TicketId, TrackedModel>::empty());
        InMemoryWorkController { tickets }
    }
}

fn transition_error(ticket_id: TicketId, reason: String) -> (result: Result<(), KernelError>)
    ensures
        refused_transition(result, ticket_id, reason@),
{
    Err(KernelError::InvalidWorkTransition { ticket_id, reason })
}

fn report_error(ticket_id: TicketId, reason: String) -> (result: Result<(), KernelError>)
    ensures
        rejected_report(result, ticket_id, reason@),
{
    Err(KernelError::InvalidWorkerReport { ticket_id, reason })
}

impl InMemoryWorkController {
    #[verifier::type_invariant]
    closed spec fn lifecycle(self) -> bool {
        consistent(self@)
    }

    /// Puts what is known of a ticket in place of what was known.
    fn put(&mut self, id: TicketId, ticket: TrackedTicket)
        requires
            consistent(old(self)@),
            consistent(old(self)@.insert(id, ticket.model())),
        ensures
            final(self)@ == old(self)@.insert(id, ticket.model()),
    {
        broadcast use vstd::std_specs::hash::group_hash_axioms;

        let ghost before = self@;
        let ghost model = ticket.model();
        let mut tickets: HashMap<TicketId, TrackedTicket> = HashMap::new();
        assert(tickets@.map_values(|t: TrackedTicket| t.model()) =~= Map::<
            TicketId,
            TrackedModel,
        >::empty());
        std::mem::swap(&mut tickets, &mut self.tickets);
        tickets.insert(id, ticket);
        assert(tickets@.map_values(|t: TrackedTicket| t.model()) =~= before.insert(id, model));
        self.tickets = tickets;
    }

    /// Takes a ticket in as queued work of its conversation.
    pub fn submit(&mut self, ticket: Ticket) -> (result: Result<(), KernelError>)
        ensures
            result is Ok,
            final(self)@ == submitted(old(self)@, ticket@),
    {
        proof {
            use_type_invariant(&*self);
        }
        self.put(
            ticket.id,
            TrackedTicket {
                conversation_id: ticket.conversation_id,
                objective: ticket.objective,
                state: WorkState::Queued,
                assigned_worker: None,
            },
        );
        Ok(())
    }

    /// Binds a queued ticket to the worker selected by the dispatcher and marks it
    /// running. Worker reports are accepted only from this identity.
    pub fn assign(&mut self, ticket_id: TicketId, worker_id: WorkerId) -> (result: Result<
        (),
        KernelError,
    >)
        ensures
            match assign_refusal(old(self)@, ticket_id) {
                None => result is Ok && final(self)@ == assigned(old(self)@, ticket_id, worker_id),
                Some(why) => refused_transition(result, ticket_id, why) && final(self)@ == old(
                    self,
                )@,
            },
    {
        proof {
            use_type_invariant(&*self);
        }
        broadcast use vstd::std_specs::hash::group_hash_axioms;

        let (conversation_id, objective) = match self.tickets.get(&ticket_id) {
            None => {
                return transition_error(ticket_id, "ticket does not exist".to_owned());
            },
            Some(known) => {
                if known.state != WorkState::Queued {
                    return transition_error(
                        ticket_id,
                        labelled("expected queued ticket, found ", known.state.label()),
                    );
                }
                (known.conversation_id, known.objective.clone())
            },
        };
        self.put(
            ticket_id,
            TrackedTicket {
                conversation_id,
                objective,
                state: WorkState::Running,
                assigned_worker: Some(worker_id),
            },
        );
        Ok(())
    }

    /// Accepts new context for a ticket. This controller keeps no context.
    pub fn update(&mut self, ticket_id: TicketId, context: Vec<ContextItem>) -> (result: Result<
        (),
        KernelError,
    >)
        ensures
            result is Ok,
            final(self)@ == old(self)@,
    {
        Ok(())
    }

    /// Cancels work in flight.
    pub fn cancel(&mut self, ticket_id: TicketId) -> (result: Result<(), KernelError>)
        ensures
            match cancel_refusal(old(self)@, ticket_id) {
                None => result is Ok && final(self)@ == cancelled(old(self)@, ticket_id),
                Some(why) => refused_transition(result, ticket_id, why) && final(self)@ == old(
                    self,
                )@,
            },
    {
        proof {
            use_type_invariant(&*self);
        }
        broadcast use vstd::std_specs::hash::group_hash_axioms;

        let (conversation_id, objective, assigned_worker) = match self.tickets.get(&ticket_id) {
            None => {
                return transition_error(ticket_id, "ticket does not exist".to_owned());
            },
            Some(known) => {
                if !matches!(known.state, WorkState::Queued | WorkState::Running) {
                    let mut reason = labelled("cannot cancel ticket in ", known.state.label());
                    reason.append(" state");
                    return transition_error(ticket_id, reason);
                }
                (known.conversation_id, known.objective.clone(), known.assigned_worker)
            },
        };
        self.put(
            ticket_id,
            TrackedTicket {
                conversation_id,
                objective,
                state: WorkState::Cancelled,
                assigned_worker,
            },
        );
        Ok(())
    }

    /// Validates a terminal worker report against ticket ownership, assignment and
    /// lifecycle state, then applies its state transition.
    pub fn accept_report(&mut self, report: &WorkerReport) -> (result: Result<(), KernelError>)
        ensures
            match report_refusal(old(self)@, report@) {
                None => result is Ok && final(self)@ == reported(old(self)@, report@),
                Some(why) => rejected_report(result, report.ticket_id, why) && final(self)@ == old(
                    self,
                )@,
            },
    {
        proof {
            use_type_invariant(&*self);
        }
        broadcast use vstd::std_specs::hash::group_hash_axioms;

        let ticket_id = report.ticket_id;
        let (objective, assigned_worker) = match self.tickets.get(&ticket_id) {
            None => {
                return report_error(ticket_id, "ticket does not exist".to_owned());
            },
            Some(known) => {
                if known.conversation_id != report.conversation_id {
                    return report_error(
                        ticket_id,
                        "conversation does not own this ticket".to_owned(),
                    );
                }
                let from_the_assigned = match known.assigned_worker {
                    Some(worker) => worker == report.worker_id,
                    None => false,
                };
                if !from_the_assigned {
                    return report_error(
                        ticket_id,
                        "worker is not assigned to this ticket".to_owned(),
                    );
                }
                if known.state != WorkState::Running {
                    return report_error(
                        ticket_id,
                        labelled("expected running ticket, found ", known.state.label()),
                    );
                }
                (known.objective.clone(), known.assigned_worker)
            },
        };
        self.put(
            ticket_id,
            TrackedTicket {
                conversation_id: report.conversation_id,
                objective,
                state: WorkState::from(&report.status),
                assigned_worker,
            },
        );
        Ok(())
    }

    /// Work still in flight for a conversation, for orchestrator context assembly. The
    /// order is left open.
    pub fn active_work(&self, conversation_id: ConversationId) -> (result: Result<
        Vec<ActiveWork>,
        KernelError,
    >)
        ensures
            result matches Ok(listed) && lists_active_work(
                self@,
                conversation_id,
                active_model(listed@),
            ),
    {
        broadcast use vstd::std_specs::hash::group_hash_axioms;

        let ghost all = vstd::std_specs::iter::IteratorSpec::remaining(
            &vstd::std_specs::hash::spec_hash_map_iter(&self.tickets),
        );
        let mut listed: Vec<ActiveWork> = Vec::new();
        let ghost mut from: Seq<int> = Seq::empty();
        for entry in walk: self.tickets.iter()
            invariant
                walk.seq() == all,
                all.no_duplicates(),
                forall|i: int|
                    #![trigger all[i]]
                    0 <= i < all.len() ==> self.tickets@.contains_key(*all[i].0)
                        && self.tickets@[*all[i].0] == *all[i].1,
                forall|id: TicketId| #[trigger]
                    self.tickets@.contains_key(id) ==> all.contains((&id, &self.tickets@[id])),
                from.len() == listed.len(),
                forall|j: int|
                    0 <= j < from.len() ==> {
                        let k = #[trigger] from[j];
                        &&& 0 <= k < walk.index()
                        &&& in_flight(self@, conversation_id, *all[k].0)
                        &&& listed[j]@ == (
                            *all[k].0,
                            self@[*all[k].0].objective,
                            self@[*all[k].0].state,
                        )
                    },
                forall|i: int, j: int| 0 <= i < j < from.len() ==> from[i] < from[j],
                forall|k: int|
                    #![trigger all[k]]
                    0 <= k < walk.index() && in_flight(self@, conversation_id, *all[k].0)
                        ==> from.contains(k),
        {
            let (id, known) = entry;
            let ghost here = walk.index();
            let ghost earlier = from;
            assert(self.tickets@.contains_key(*all[here].0));
            assert(self@[*id] == known.model());
            let active = matches!(known.state, WorkState::Queued | WorkState::Running);
            if known.conversation_id == conversation_id && active {
                listed.push(
                    ActiveWork { id: *id, objective: known.objective.clone(), state: known.state },
                );
                proof {
                    from = from.push(here as int);
                    assert(from[from.len() - 1] == here);
                    assert forall|k: int| earlier.contains(k) implies from.contains(k) by {
                        let j = choose|j: int| 0 <= j < earlier.len() && earlier[j] == k;
                        assert(from[j] == k);
                    }
                }
            }
        }
        proof {
            let models = active_model(listed@);
            assert forall|i: int| 0 <= i < models.len() implies {
                let item = #[trigger] models[i];
                &&& in_flight(self@, conversation_id, item.0)
                &&& item.1 == self@[item.0].objective
                &&& item.2 == self@[item.0].state
            } by {
                assert(models[i] == listed[i]@);
                let k = from[i];
            }
            assert forall|id: TicketId| #[trigger]
                in_flight(self@, conversation_id, id) implies exists|i: int|
                0 <= i < models.len() && (#[trigger] models[i]).0 == id by {
                assert(self.tickets@.contains_key(id));
                let pair = (&id, &self.tickets@[id]);
                assert(all.contains(pair));
                let k = choose|k: int| 0 <= k < all.len() && all[k] == pair;
                assert(from.contains(k));
                let j = choose|j: int| 0 <= j < from.len() && from[j] == k;
                assert(models[j] == listed[j]@);
                assert(models[j].0 == id);
            }
            assert forall|i: int, j: int| 0 <= i < j < models.len() implies (
            #[trigger] models[i]).0 != (#[trigger] models[j]).0 by {
                assert(models[i] == listed[i]@ && models[j] == listed[j]@);
                assert(from[i] < from[j]);
                if models[i].0 == models[j].0 {
                    assert(all[from[i]] == all[from[j]]);
                }
            }
        }
        Ok(listed)
    }

    /// Which conversation a ticket belongs to, for ownership checks. `None` if unknown.
    pub fn ticket_owner(&self, ticket_id: TicketId) -> (result: Result<
        Option<ConversationId>,
        KernelError,
    >)
        ensures
            result == Ok::<_, KernelError>(owner(self@, ticket_id)),
    {
        broadcast use vstd::std_specs::hash::group_hash_axioms;

        match self.tickets.get(&ticket_id) {
            Some(known) => Ok(Some(known.conversation_id)),
            None => Ok(None),
        }
    }
}

// ---- laws ---------------------------------------------------------------------------

/// Every operation keeps the lifecycle consistent.
pub proof fn the_lifecycle_stays_consistent(
    tickets: WorkModel,
    ticket: TicketModel,
    id: TicketId,
    worker: WorkerId,
    report: ReportModel,
)
    requires
        consistent(tickets),
    ensures
        consistent(submitted(tickets, ticket)),
        assign_refusal(tickets, id) is None ==> consistent(assigned(tickets, id, worker)),
        cancel_refusal(tickets, id) is None ==> consistent(cancelled(tickets, id)),
        report_refusal(tickets, report) is None ==> consistent(reported(tickets, report)),
{
}

/// A terminal report is accepted exactly if the ticket exists, belongs to the named
/// conversation, is assigned to the reporting worker, and runs.
pub proof fn a_report_needs_its_assignment(tickets: WorkModel, report: ReportModel)
    ensures
        report_refusal(tickets, report) is None <==> {
            &&& tickets.contains_key(report.ticket_id)
            &&& tickets[report.ticket_id].conversation_id == report.conversation_id
            &&& tickets[report.ticket_id].assigned_worker == Some(report.worker_id)
            &&& tickets[report.ticket_id].state is Running
        },
{
}

/// A ticket that is no longer in flight can be neither assigned nor cancelled, and no
/// report on it is accepted.
pub proof fn finished_work_stays_finished(
    tickets: WorkModel,
    id: TicketId,
    report: ReportModel,
)
    requires
        tickets.contains_key(id),
        !tickets[id].state.active(),
        report.ticket_id == id,
    ensures
        assign_refusal(tickets, id) is Some,
        cancel_refusal(tickets, id) is Some,
        report_refusal(tickets, report) is Some,
{
}

/// An accepted report cannot be replayed, nor followed by another one, nor does one on a
/// cancelled ticket get through.
pub proof fn a_report_is_accepted_once(
    tickets: WorkModel,
    report: ReportModel,
    again: ReportModel,
    id: TicketId,
)
    requires
        again.ticket_id == id,
    ensures
        report_refusal(tickets, report) is None && report.ticket_id == id ==> report_refusal(
            reported(tickets, report),
            again,
        ) is Some,
        cancel_refusal(tickets, id) is None ==> report_refusal(cancelled(tickets, id), again)
            is Some,
{
}

/// Of two dispatches of one ticket the second is refused.
pub proof fn a_ticket_is_assigned_once(tickets: WorkModel, id: TicketId, worker: WorkerId)
    requires
        assign_refusal(tickets, id) is None,
    ensures
        assign_refusal(assigned(tickets, id, worker), id) is Some,
{
}

/// A submitted ticket is in flight for its conversation until it is cancelled or reported
/// on, and being assigned keeps it in flight.
pub proof fn work_is_active_until_it_ends(
    tickets: WorkModel,
    ticket: TicketModel,
    id: TicketId,
    worker: WorkerId,
    report: ReportModel,
    conversation: ConversationId,
)
    ensures
        in_flight(submitted(tickets, ticket), ticket.conversation_id, ticket.id),
        assign_refusal(tickets, id) is None ==> (in_flight(
            assigned(tickets, id, worker),
            conversation,
            id,
        ) <==> in_flight(tickets, conversation, id)),
        cancel_refusal(tickets, id) is None ==> !in_flight(
            cancelled(tickets, id),
            conversation,
            id,
        ),
        report_refusal(tickets, report) is None ==> !in_flight(
            reported(tickets, report),
            conversation,
            report.ticket_id,
        ),
{
}

/// No operation on one ticket changes another, and none but a submission changes whose a
/// ticket is.
pub proof fn operations_touch_one_ticket(
    tickets: WorkModel,
    ticket: TicketModel,
    id: TicketId,
    worker: WorkerId,
    report: ReportModel,
    other: TicketId,
)
    ensures
        other != ticket.id ==> owner(submitted(tickets, ticket), other) == owner(tickets, other)
            && submitted(tickets, ticket)[other] == tickets[other],
        other != id ==> assigned(tickets, id, worker)[other] == tickets[other] && cancelled(
            tickets,
            id,
        )[other] == tickets[other],
        other != report.ticket_id ==> reported(tickets, report)[other] == tickets[other],
        assign_refusal(tickets, id) is None ==> owner(assigned(tickets, id, worker), other)
            == owner(tickets, other),
        cancel_refusal(tickets, id) is None ==> owner(cancelled(tickets, id), other) == owner(
            tickets,
            other,
        ),
        report_refusal(tickets, report) is None ==> owner(reported(tickets, report), other)
            == owner(tickets, other),
{
}

/// What the orchestrator is shown of a piece of work is its ticket, objective and state.
pub proof fn active_work_is_shown_whole(item: ActiveModel)
    ensures
        active_item_tree(item).get("id"@) == Some(Tree::Text(crate::ids::id_chars(item.0))),
        active_item_tree(item).get("objective"@) == Some(Tree::Text(item.1)),
        active_item_tree(item).get("state"@) == Some(
            Tree::Text(crate::protocol::state_name(item.2)),
        ),
{
    reveal_strlit("id");
    reveal_strlit("objective");
    reveal_strlit("state");
    assert("id"@.len() == 2);
    assert("objective"@.len() == 9);
    assert("state"@.len() == 5);
    let members = active_item_tree(item)->Object_0;
    crate::json::members_are_read_by_name(members, 0, ""@);
    crate::json::members_are_read_by_name(members, 1, ""@);
    crate::json::members_are_read_by_name(members, 2, ""@);
}

/// A submitted ticket is taken in with its own conversation and objective, queued and without
/// a worker; an assigned one runs under its worker; a cancelled one is cancelled; and one that
/// was reported on has the state of the report's status. Whatever is not named stays.
pub proof fn a_ticket_moves_through_its_states(
    tickets: WorkModel,
    ticket: TicketModel,
    id: TicketId,
    worker: WorkerId,
    report: ReportModel,
)
    ensures
        ({
            let taken = submitted(tickets, ticket);
            &&& taken.contains_key(ticket.id)
            &&& taken[ticket.id].conversation_id == ticket.conversation_id
            &&& taken[ticket.id].objective == ticket.objective
            &&& taken[ticket.id].state is Queued
            &&& taken[ticket.id].assigned_worker is None
        }),
        tickets.contains_key(id) ==> {
            let running = assigned(tickets, id, worker)[id];
            &&& running.state is Running
            &&& running.assigned_worker == Some(worker)
            &&& running.conversation_id == tickets[id].conversation_id
            &&& running.objective == tickets[id].objective
        },
        tickets.contains_key(id) ==> {
            let stopped = cancelled(tickets, id)[id];
            &&& stopped.state is Cancelled
            &&& stopped.assigned_worker == tickets[id].assigned_worker
            &&& stopped.conversation_id == tickets[id].conversation_id
            &&& stopped.objective == tickets[id].objective
        },
        tickets.contains_key(report.ticket_id) ==> {
            let known = tickets[report.ticket_id];
            let ended = reported(tickets, report)[report.ticket_id];
            &&& ended.state is Completed <==> report.status is Completed
            &&& ended.state is Blocked <==> report.status is Blocked
            &&& ended.state is Failed <==> report.status is Failed
            &&& ended.assigned_worker == known.assigned_worker
            &&& ended.conversation_id == known.conversation_id
            &&& ended.objective == known.objective
        },
{
}

/// Every operation knows the tickets that were known before, and none but a submission makes
/// one known.
pub proof fn no_ticket_is_forgotten(
    tickets: WorkModel,
    ticket: TicketModel,
    id: TicketId,
    worker: WorkerId,
    report: ReportModel,
    other: TicketId,
)
    ensures
        submitted(tickets, ticket).contains_key(other) <==> tickets.contains_key(other) || other
            == ticket.id,
        tickets.contains_key(id) ==> (assigned(tickets, id, worker).contains_key(other)
            <==> tickets.contains_key(other)),
        tickets.contains_key(id) ==> (cancelled(tickets, id).contains_key(other)
            <==> tickets.contains_key(other)),
        tickets.contains_key(report.ticket_id) ==> (reported(tickets, report).contains_key(other)
            <==> tickets.contains_key(other)),
{
}

/// A ticket is assigned exactly if it is known and queued, and cancelled exactly if it is
/// known and in flight. Each refusal says what is wrong, with the state that was found.
pub proof fn a_refusal_says_what_is_wrong(tickets: WorkModel, id: TicketId, report: ReportModel)
    ensures
        assign_refusal(tickets, id) is None <==> tickets.contains_key(id) && tickets[id].state
            is Queued,
        cancel_refusal(tickets, id) is None <==> tickets.contains_key(id) && (tickets[id].state
            is Queued || tickets[id].state is Running),
        !tickets.contains_key(id) ==> assign_refusal(tickets, id) == Some("ticket does not exist"@)
            && cancel_refusal(tickets, id) == Some("ticket does not exist"@),
        tickets.contains_key(id) ==> {
            let label = crate::protocol::state_label(tickets[id].state);
            &&& assign_refusal(tickets, id) matches Some(why) ==> why
                == "expected queued ticket, found "@ + label
            &&& cancel_refusal(tickets, id) matches Some(why) ==> why == "cannot cancel ticket in "@
                + label + " state"@
        },
        ({
            let known = tickets.contains_key(report.ticket_id);
            let found = tickets[report.ticket_id];
            let owned = found.conversation_id == report.conversation_id;
            let bound = found.assigned_worker == Some(report.worker_id);
            &&& !known ==> report_refusal(tickets, report) == Some("ticket does not exist"@)
            &&& known && !owned ==> report_refusal(tickets, report) == Some(
                "conversation does not own this ticket"@,
            )
            &&& known && owned && !bound ==> report_refusal(tickets, report) == Some(
                "worker is not assigned to this ticket"@,
            )
            &&& known && owned && bound && !(found.state is Running) ==> report_refusal(
                tickets,
                report,
            ) == Some(
                "expected running ticket, found "@ + crate::protocol::state_label(found.state),
            )
        }),
{
}

/// A list of active work holds a ticket exactly if it is known, belongs to the conversation
/// and is queued or running; and it says that ticket's objective and state.
pub proof fn active_work_is_what_is_in_flight(
    tickets: WorkModel,
    conversation: ConversationId,
    listed: Seq<ActiveModel>,
    id: TicketId,
    i: int,
)
    requires
        lists_active_work(tickets, conversation, listed),
    ensures
        (exists|k: int| 0 <= k < listed.len() && (#[trigger] listed[k]).0 == id) <==> (
        tickets.contains_key(id) && tickets[id].conversation_id == conversation && (
        tickets[id].state is Queued || tickets[id].state is Running)),
        0 <= i < listed.len() ==> listed[i].1 == tickets[listed[i].0].objective && listed[i].2
            == tickets[listed[i].0].state,
        owner(tickets, id) is Some <==> tickets.contains_key(id),
        tickets.contains_key(id) ==> owner(tickets, id) == Some(tickets[id].conversation_id),
{
    if exists|k: int| 0 <= k < listed.len() && (#[trigger] listed[k]).0 == id {
        let k = choose|k: int| 0 <= k < listed.len() && (#[trigger] listed[k]).0 == id;
        assert(in_flight(tickets, conversation, listed[k].0));
    }
    if tickets.contains_key(id) && tickets[id].conversation_id == conversation && (
    tickets[id].state is Queued || tickets[id].state is Running) {
        assert(in_flight(tickets, conversation, id));
    }
}

/// The message of an error says its kind, its ticket where it has one, and its detail.
pub proof fn kernel_errors_say_their_kind(detail: Seq<char>, id: TicketId)
    ensures
        ErrorModel::Model(detail).text() == "model error: "@ + detail,
        ErrorModel::InvalidDecision(detail).text() == "invalid orchestrator response: "@ + detail,
        ErrorModel::Memory(detail).text() == "memory error: "@ + detail,
        ErrorModel::Work(detail).text() == "work controller error: "@ + detail,
        ErrorModel::Store(detail).text() == "conversation store error: "@ + detail,
        ErrorModel::TicketNotInConversation(id).text() == "ticket "@ + crate::ids::id_chars(id)
            + " does not belong to this conversation"@,
        ErrorModel::InvalidWorkTransition(id, detail).text()
            == "invalid work transition for ticket "@ + crate::ids::id_chars(id) + ": "@ + detail,
        ErrorModel::InvalidWorkerReport(id, detail).text() == "worker report rejected for ticket "@
            + crate::ids::id_chars(id) + ": "@ + detail,
{
}

/// An error stands for exactly what it holds.
pub proof fn errors_stand_for_what_they_hold(detail: String, id: TicketId)
    ensures
        KernelError::Model(detail)@ == ErrorModel::Model(detail@),
        KernelError::InvalidDecision(detail)@ == ErrorModel::InvalidDecision(detail@),
        KernelError::Memory(detail)@ == ErrorModel::Memory(detail@),
        KernelError::Work(detail)@ == ErrorModel::Work(detail@),
        KernelError::Store(detail)@ == ErrorModel::Store(detail@),
        KernelError::TicketNotInConversation(id)@ == ErrorModel::TicketNotInConversation(id),
        (KernelError::InvalidWorkTransition { ticket_id: id, reason: detail })@
            == ErrorModel::InvalidWorkTransition(id, detail@),
        (KernelError::InvalidWorkerReport { ticket_id: id, reason: detail })@
            == ErrorModel::InvalidWorkerReport(id, detail@),
{
}

} // verus!
