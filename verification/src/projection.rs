//! The read side: what a client reloads.

use std::collections::HashMap;

use vstd::prelude::*;

use crate::api::{ApiError, ClientEvent, EventEnvelope, MessageRole, TicketView};
use crate::ids::{ConversationId, TicketId};

#[allow(unused_imports)]
use crate::api::{ClientEventModel, EnvelopeModel, TicketState, TicketViewModel};
#[allow(unused_imports)]
use crate::protocol::ContextModel;

verus! {

#[derive(Debug)]
pub struct MessageView {
    pub id: u128,
    pub role: MessageRole,
    pub text: String,
}

/// The model of a message as a client sees it.
pub type MessageViewModel = (u128, MessageRole, Seq<char>);

impl View for MessageView {
    type V = MessageViewModel;

    open spec fn view(&self) -> MessageViewModel {
        (self.id, self.role, self.text@)
    }
}

/// The model of a list of messages.
pub open spec fn messages_model(items: Seq<MessageView>) -> Seq<MessageViewModel> {
    items.map_values(|item: MessageView| item@)
}

/// The model of the tickets of a conversation.
pub open spec fn tickets_model(tickets: Map<TicketId, TicketView>) -> Map<
    TicketId,
    TicketViewModel,
> {
    tickets.map_values(|ticket: TicketView| ticket@)
}

/// One conversation as a client reloads it.
#[derive(Debug)]
pub struct ConversationProjection {
    pub messages: Vec<MessageView>,
    pub tickets: HashMap<TicketId, TicketView>,
}

/// The model of a conversation as a client reloads it.
pub struct ProjectionModel {
    pub messages: Seq<MessageViewModel>,
    pub tickets: Map<TicketId, TicketViewModel>,
}

impl View for ConversationProjection {
    type V = ProjectionModel;

    open spec fn view(&self) -> ProjectionModel {
        ProjectionModel {
            messages: messages_model(self.messages@),
            tickets: tickets_model(self.tickets@),
        }
    }
}

/// A conversation of which nothing was published.
pub open spec fn blank() -> ProjectionModel {
    ProjectionModel { messages: seq![], tickets: Map::empty() }
}

impl Default for ConversationProjection {
    fn default() -> (made: Self)
        ensures
            made@ == blank(),
    {
        let made = ConversationProjection { messages: Vec::new(), tickets: HashMap::new() };
        assert(made@.messages =~= seq![]);
        assert(made@.tickets =~= Map::<TicketId, TicketViewModel>::empty());
        made
    }
}

// ---- what an event changes ----------------------------------------------------------

/// A conversation after one more event. Events on tickets that it does not know change
/// nothing.
pub open spec fn projected(before: ProjectionModel, event: ClientEventModel) -> ProjectionModel {
    match event {
        ClientEventModel::MessageCreated(id, role, text) => ProjectionModel {
            messages: before.messages.push((id, role, text)),
            tickets: before.tickets,
        },
        ClientEventModel::TicketCreated(ticket) => ProjectionModel {
            messages: before.messages,
            tickets: before.tickets.insert(ticket.id, ticket),
        },
        ClientEventModel::TicketUpdated(id, context) => if before.tickets.contains_key(id) {
            ProjectionModel {
                messages: before.messages,
                tickets: before.tickets.insert(
                    id,
                    TicketViewModel {
                        context: before.tickets[id].context + context,
                        ..before.tickets[id]
                    },
                ),
            }
        } else {
            before
        },
        ClientEventModel::TicketStateChanged(id, state, summary) => if before.tickets.contains_key(
            id,
        ) {
            ProjectionModel {
                messages: before.messages,
                tickets: before.tickets.insert(
                    id,
                    TicketViewModel { state, summary, ..before.tickets[id] },
                ),
            }
        } else {
            before
        },
        ClientEventModel::ArtifactCreated(id, artifact) => if before.tickets.contains_key(id) {
            ProjectionModel {
                messages: before.messages,
                tickets: before.tickets.insert(
                    id,
                    TicketViewModel {
                        artifacts: before.tickets[id].artifacts.push(artifact),
                        ..before.tickets[id]
                    },
                ),
            }
        } else {
            before
        },
    }
}

/// All conversations that something was published on.
pub type ConversationsModel = Map<ConversationId, ProjectionModel>;

/// What is known of a conversation.
pub open spec fn known(
    conversations: ConversationsModel,
    conversation: ConversationId,
) -> ProjectionModel {
    if conversations.contains_key(conversation) {
        conversations[conversation]
    } else {
        blank()
    }
}

/// All conversations after one more event.
pub open spec fn published(
    conversations: ConversationsModel,
    envelope: EnvelopeModel,
) -> ConversationsModel {
    conversations.insert(
        envelope.conversation_id,
        projected(known(conversations, envelope.conversation_id), envelope.event),
    )
}

impl ConversationProjection {
    /// Takes a ticket out, changes it, and puts it back; an unknown ticket changes nothing.
    fn apply(self, event: ClientEvent) -> (after: ConversationProjection)
        ensures
            after@ == projected(self@, event@),
    {
        broadcast use vstd::std_specs::hash::group_hash_axioms;

        let ghost before = self@;
        let ghost goal = projected(self@, event@);
        let mut projection = self;
        match event {
            ClientEvent::MessageCreated { message_id, role, text } => {
                projection.messages.push(MessageView { id: message_id, role, text });
            },
            ClientEvent::TicketCreated { ticket } => {
                projection.tickets.insert(ticket.id, ticket);
            },
            ClientEvent::TicketUpdated { ticket_id, context } => {
                if let Some(ticket) = projection.tickets.remove(&ticket_id) {
                    let mut ticket = ticket;
                    let mut context = context;
                    let ghost old_context = crate::protocol::context_model(ticket.context@);
                    let ghost added = crate::protocol::context_model(context@);
                    ticket.context.append(&mut context);
                    assert(crate::protocol::context_model(ticket.context@) =~= old_context + added);
                    projection.tickets.insert(ticket_id, ticket);
                }
            },
            ClientEvent::TicketStateChanged { ticket_id, state, summary } => {
                if let Some(ticket) = projection.tickets.remove(&ticket_id) {
                    let mut ticket = ticket;
                    ticket.state = state;
                    ticket.summary = summary;
                    projection.tickets.insert(ticket_id, ticket);
                }
            },
            ClientEvent::ArtifactCreated { ticket_id, artifact } => {
                if let Some(ticket) = projection.tickets.remove(&ticket_id) {
                    let mut ticket = ticket;
                    let ghost old_artifacts = crate::protocol::artifacts_model(ticket.artifacts@);
                    let ghost added = artifact@;
                    ticket.artifacts.push(artifact);
                    assert(crate::protocol::artifacts_model(ticket.artifacts@)
                        =~= old_artifacts.push(added));
                    projection.tickets.insert(ticket_id, ticket);
                }
            },
        }
        assert(projection@.messages =~= goal.messages);
        assert(projection@.tickets =~= goal.tickets);
        projection
    }
}

// ---- the projection -----------------------------------------------------------------

/// Minimal projection useful for prototypes and tests: the UI as a pure projection of
/// semantic events.
#[derive(Debug)]
pub struct InMemoryProjection {
    conversations: HashMap<ConversationId, ConversationProjection>,
}

impl View for InMemoryProjection {
    type V = ConversationsModel;

    closed spec fn view(&self) -> ConversationsModel {
        self.conversations@.map_values(|projection: ConversationProjection| projection@)
    }
}

impl Default for InMemoryProjection {
    fn default() -> (made: Self)
        ensures
            made@ == Map::<ConversationId, ProjectionModel>::empty(),
    {
        let made = InMemoryProjection { conversations: HashMap::new() };
        assert(made@ =~= Map::<ConversationId, ProjectionModel>::empty());
        made
    }
}

impl InMemoryProjection {
    /// Takes an event in.
    pub fn publish(&mut self, envelope: EventEnvelope) -> (result: Result<(), ApiError>)
        ensures
            result is Ok,
            final(self)@ == published(old(self)@, envelope@),
    {
        broadcast use vstd::std_specs::hash::group_hash_axioms;

        let ghost before = self@;
        let conversation_id = envelope.conversation_id;
        let projection = match self.conversations.remove(&conversation_id) {
            Some(projection) => projection,
            None => ConversationProjection::default(),
        };
        let after = projection.apply(envelope.event);
        self.conversations.insert(conversation_id, after);
        assert(self@ =~= published(before, envelope@));
        Ok(())
    }

    /// One conversation, blank if nothing was published on it.
    pub fn conversation(&self, conversation_id: ConversationId) -> (result: Result<
        ConversationProjection,
        ApiError,
    >)
        ensures
            result matches Ok(found) && found@ == known(self@, conversation_id),
    {
        broadcast use vstd::std_specs::hash::group_hash_axioms;

        match self.conversations.get(&conversation_id) {
            Some(projection) => Ok(projection.clone()),
            None => Ok(ConversationProjection::default()),
        }
    }

    /// One ticket, of whichever conversation has it.
    pub fn ticket(&self, ticket_id: TicketId) -> (result: Result<Option<TicketView>, ApiError>)
        ensures
            match result {
                Ok(Some(found)) => exists|conversation: ConversationId| #[trigger]
                    self@.contains_key(conversation) && self@[conversation].tickets.contains_key(
                        ticket_id,
                    ) && found@ == self@[conversation].tickets[ticket_id],
                Ok(None) => forall|conversation: ConversationId| #[trigger]
                    self@.contains_key(conversation)
                        ==> !self@[conversation].tickets.contains_key(ticket_id),
                Err(_) => false,
            },
    {
        broadcast use vstd::std_specs::hash::group_hash_axioms;

        let ghost all = vstd::std_specs::iter::IteratorSpec::remaining(
            &vstd::std_specs::hash::spec_hash_map_iter(&self.conversations),
        );
        for entry in walk: self.conversations.iter()
            invariant
                walk.seq() == all,
                forall|i: int|
                    #![trigger all[i]]
                    0 <= i < all.len() ==> self.conversations@.contains_key(*all[i].0)
                        && self.conversations@[*all[i].0] == *all[i].1,
                forall|id: ConversationId| #[trigger]
                    self.conversations@.contains_key(id) ==> all.contains(
                        (&id, &self.conversations@[id]),
                    ),
                forall|i: int|
                    #![trigger all[i]]
                    0 <= i < walk.index() ==> !self@[*all[i].0].tickets.contains_key(ticket_id),
        {
            let (id, projection) = entry;
            assert(self.conversations@.contains_key(*all[walk.index()].0));
            assert(self@[*id] == projection@);
            if let Some(ticket) = projection.tickets.get(&ticket_id) {
                assert(self@.contains_key(*id));
                assert(self@[*id].tickets.contains_key(ticket_id));
                return Ok(Some(ticket.clone()));
            }
        }
        assert forall|conversation: ConversationId| #[trigger]
            self@.contains_key(conversation) implies !self@[conversation].tickets.contains_key(
            ticket_id,
        ) by {
            let pair = (&conversation, &self.conversations@[conversation]);
            assert(self.conversations@.contains_key(conversation));
            assert(all.contains(pair));
            let i = choose|i: int| 0 <= i < all.len() && all[i] == pair;
            assert(!self@[*all[i].0].tickets.contains_key(ticket_id));
        }
        Ok(None)
    }
}

impl Clone for ConversationProjection {
    fn clone(&self) -> (copy: Self)
        ensures
            copy@ == self@,
    {
        broadcast use vstd::std_specs::hash::group_hash_axioms;

        let mut messages: Vec<MessageView> = Vec::new();
        let mut i: usize = 0;
        while i < self.messages.len()
            invariant
                i <= self.messages.len(),
                messages.len() == i,
                forall|j: int| 0 <= j < i ==> (#[trigger] messages[j])@ == self.messages[j]@,
            decreases self.messages.len() - i,
        {
            messages.push(
                MessageView {
                    id: self.messages[i].id,
                    role: self.messages[i].role,
                    text: self.messages[i].text.clone(),
                },
            );
            i = i + 1;
        }
        let ghost all = vstd::std_specs::iter::IteratorSpec::remaining(
            &vstd::std_specs::hash::spec_hash_map_iter(&self.tickets),
        );
        let mut tickets: HashMap<TicketId, TicketView> = HashMap::new();
        for entry in walk: self.tickets.iter()
            invariant
                walk.seq() == all,
                forall|i: int|
                    #![trigger all[i]]
                    0 <= i < all.len() ==> self.tickets@.contains_key(*all[i].0)
                        && self.tickets@[*all[i].0] == *all[i].1,
                forall|id: TicketId| #[trigger]
                    self.tickets@.contains_key(id) ==> all.contains((&id, &self.tickets@[id])),
                forall|id: TicketId| #[trigger]
                    tickets@.contains_key(id) ==> self.tickets@.contains_key(id) && tickets@[id]@
                        == self.tickets@[id]@,
                forall|i: int|
                    #![trigger all[i]]
                    0 <= i < walk.index() ==> tickets@.contains_key(*all[i].0),
        {
            let (id, ticket) = entry;
            assert(self.tickets@.contains_key(*all[walk.index()].0));
            tickets.insert(*id, ticket.clone());
        }
        proof {
            assert forall|id: TicketId| #[trigger]
                self.tickets@.contains_key(id) implies tickets@.contains_key(id) by {
                let pair = (&id, &self.tickets@[id]);
                assert(all.contains(pair));
                let i = choose|i: int| 0 <= i < all.len() && all[i] == pair;
                assert(tickets@.contains_key(*all[i].0));
            }
        }
        let copy = ConversationProjection { messages, tickets };
        assert(copy@.messages =~= self@.messages);
        assert(copy@.tickets =~= self@.tickets);
        copy
    }
}

// ---- laws ---------------------------------------------------------------------------

/// An event changes the conversation that it was published on and no other.
pub proof fn an_event_changes_one_conversation(
    conversations: ConversationsModel,
    envelope: EnvelopeModel,
    other: ConversationId,
)
    ensures
        known(published(conversations, envelope), envelope.conversation_id) == projected(
            known(conversations, envelope.conversation_id),
            envelope.event,
        ),
        other != envelope.conversation_id ==> known(published(conversations, envelope), other)
            == known(conversations, other),
{
}

/// A created ticket is read back as it was created; its updates, states and artifacts are
/// read back from then on; and no event on one ticket changes another.
pub proof fn a_ticket_is_read_back(
    before: ProjectionModel,
    ticket: TicketViewModel,
    context: Seq<ContextModel>,
    state: TicketState,
    summary: Option<Seq<char>>,
    artifact: crate::protocol::ArtifactModel,
    other: TicketId,
)
    ensures
        ({
            let created = projected(before, ClientEventModel::TicketCreated(ticket));
            let id = ticket.id;
            &&& created.tickets.contains_key(id) && created.tickets[id] == ticket
            &&& projected(
                created,
                ClientEventModel::TicketUpdated(id, context),
            ).tickets[id] == (TicketViewModel { context: ticket.context + context, ..ticket })
            &&& projected(
                created,
                ClientEventModel::TicketStateChanged(id, state, summary),
            ).tickets[id] == (TicketViewModel { state, summary, ..ticket })
            &&& projected(
                created,
                ClientEventModel::ArtifactCreated(id, artifact),
            ).tickets[id] == (TicketViewModel {
                artifacts: ticket.artifacts.push(artifact),
                ..ticket
            })
            &&& other != id ==> created.tickets.contains_key(other) == before.tickets.contains_key(
                other,
            ) && created.tickets[other] == before.tickets[other]
            &&& other != id ==> projected(
                created,
                ClientEventModel::TicketUpdated(id, context),
            ).tickets[other] == before.tickets[other]
            &&& other != id ==> projected(
                created,
                ClientEventModel::TicketStateChanged(id, state, summary),
            ).tickets[other] == before.tickets[other]
            &&& other != id ==> projected(
                created,
                ClientEventModel::ArtifactCreated(id, artifact),
            ).tickets[other] == before.tickets[other]
        }),
{
}

/// An event on a ticket that a conversation does not know changes nothing there.
pub proof fn unknown_tickets_change_nothing(
    before: ProjectionModel,
    id: TicketId,
    context: Seq<ContextModel>,
    state: TicketState,
    summary: Option<Seq<char>>,
    artifact: crate::protocol::ArtifactModel,
)
    requires
        !before.tickets.contains_key(id),
    ensures
        projected(before, ClientEventModel::TicketUpdated(id, context)) == before,
        projected(before, ClientEventModel::TicketStateChanged(id, state, summary)) == before,
        projected(before, ClientEventModel::ArtifactCreated(id, artifact)) == before,
{
}

/// Messages are read back in the order in which they were published, and nothing but a
/// message changes them.
pub proof fn messages_are_read_back_in_order(
    before: ProjectionModel,
    event: ClientEventModel,
)
    ensures
        projected(before, event).messages == (match event {
            ClientEventModel::MessageCreated(id, role, text) => before.messages.push(
                (id, role, text),
            ),
            _ => before.messages,
        }),
{
}

/// A client that reloads right after a submission was announced sees the ticket as it was
/// submitted: its objective, deliverable, constraints and context, queued and untouched.
pub proof fn a_submitted_ticket_is_read_back(
    before: ProjectionModel,
    submitted: crate::protocol::TicketModel,
)
    ensures
        ({
            let told = crate::api::announcements(crate::kernel::EventModel::Submitted(submitted));
            let after = projected(before, told[0]);
            &&& after.tickets.contains_key(submitted.id)
            &&& after.tickets[submitted.id].id == submitted.id
            &&& after.tickets[submitted.id].objective == submitted.objective
            &&& after.tickets[submitted.id].deliverable == submitted.deliverable
            &&& after.tickets[submitted.id].constraints == submitted.constraints
            &&& after.tickets[submitted.id].context == submitted.context
            &&& after.tickets[submitted.id].state is Queued
            &&& after.tickets[submitted.id].summary is None
            &&& after.tickets[submitted.id].artifacts.len() == 0
            &&& after.messages == before.messages
        }),
{
}

/// A conversation of which nothing was published has neither messages nor tickets, and an
/// event on a ticket keeps every other ticket known.
pub proof fn an_event_keeps_what_is_known(
    conversations: ConversationsModel,
    conversation: ConversationId,
    before: ProjectionModel,
    event: ClientEventModel,
    other: TicketId,
)
    ensures
        !conversations.contains_key(conversation) ==> known(
            conversations,
            conversation,
        ).messages.len() == 0 && known(conversations, conversation).tickets == Map::<
            TicketId,
            TicketViewModel,
        >::empty(),
        conversations.contains_key(conversation) ==> known(conversations, conversation)
            == conversations[conversation],
        before.tickets.contains_key(other) ==> projected(before, event).tickets.contains_key(other),
        projected(before, event).tickets.contains_key(other) && !before.tickets.contains_key(other)
            ==> (event matches ClientEventModel::TicketCreated(ticket) && ticket.id == other),
{
}

/// A conversation that a client reloads stands for exactly what it holds.
pub proof fn a_conversation_stands_for_what_it_holds(
    conversation: ConversationProjection,
    id: TicketId,
    i: int,
)
    ensures
        conversation@.messages.len() == conversation.messages@.len(),
        0 <= i < conversation.messages@.len() ==> conversation@.messages[i] == (
            conversation.messages@[i].id,
            conversation.messages@[i].role,
            conversation.messages@[i].text@,
        ),
        conversation@.tickets.contains_key(id) <==> conversation.tickets@.contains_key(id),
        conversation.tickets@.contains_key(id) ==> conversation@.tickets[id]
            == conversation.tickets@[id]@,
{
}

} // verus!
