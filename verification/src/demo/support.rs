//! Throwaway implementations of the ports that the kernel depends on, plus the dispatcher.

use std::sync::Arc;

use vstd::prelude::*;

use crate::capability_set::copy_names;
use crate::ids::{ConversationId, TicketId, WorkerId};
use crate::kernel::MemoryItem;
use crate::model::ModelMessage;
use crate::protocol::{ContextItem, Ticket, WorkerReport};
use crate::work::{ActiveWork, InMemoryWorkController, KernelError};

#[allow(unused_imports)]
use crate::model::MessageModel;
#[allow(unused_imports)]
use crate::protocol::TicketModel;
#[allow(unused_imports)]
use crate::work::WorkModel;

verus! {

// ---- conversations ------------------------------------------------------------------

/// Conversation history in a `Vec`. A deployment swaps in a durable log.
#[derive(Debug)]
pub struct InMemoryConversationStore {
    messages: Vec<(ConversationId, ModelMessage)>,
}

impl View for InMemoryConversationStore {
    type V = Seq<(ConversationId, MessageModel)>;

    closed spec fn view(&self) -> Seq<(ConversationId, MessageModel)> {
        self.messages@.map_values(|entry: (ConversationId, ModelMessage)| (entry.0, entry.1@))
    }
}

/// The messages of one conversation, in order.
pub open spec fn conversation_of(
    log: Seq<(ConversationId, MessageModel)>,
    conversation: ConversationId,
) -> Seq<MessageModel>
    decreases log.len(),
{
    if log.len() == 0 {
        seq![]
    } else if log.last().0 == conversation {
        conversation_of(log.drop_last(), conversation).push(log.last().1)
    } else {
        conversation_of(log.drop_last(), conversation)
    }
}

/// The last messages, as many as the limit permits.
pub open spec fn latest(messages: Seq<MessageModel>, limit: nat) -> Seq<MessageModel> {
    if messages.len() > limit {
        messages.skip(messages.len() - limit)
    } else {
        messages
    }
}

impl Default for InMemoryConversationStore {
    fn default() -> (store: Self)
        ensures
            store@ == Seq::<(ConversationId, MessageModel)>::empty(),
    {
        let store = InMemoryConversationStore { messages: Vec::new() };
        assert(store@ =~= Seq::<(ConversationId, MessageModel)>::empty());
        store
    }
}

impl InMemoryConversationStore {
    /// The last messages of a conversation, oldest first.
    pub fn recent(&self, conversation_id: ConversationId, limit: usize) -> (result: Result<
        Vec<ModelMessage>,
        KernelError,
    >)
        ensures
            result matches Ok(found) && crate::model::messages_model(found@) == latest(
                conversation_of(self@, conversation_id),
                limit as nat,
            ),
    {
        let ghost log = self@;
        let mut all: Vec<ModelMessage> = Vec::new();
        let mut i: usize = 0;
        assert(crate::model::messages_model(all@) =~= conversation_of(
            log.take(0),
            conversation_id,
        ));
        while i < self.messages.len()
            invariant
                i <= self.messages.len(),
                log == self@,
                crate::model::messages_model(all@) == conversation_of(
                    log.take(i as int),
                    conversation_id,
                ),
            decreases self.messages.len() - i,
        {
            let ghost before = crate::model::messages_model(all@);
            proof {
                assert(log.take(i + 1).drop_last() =~= log.take(i as int));
                assert(log.take(i + 1).last() == log[i as int]);
            }
            if self.messages[i].0 == conversation_id {
                all.push(self.messages[i].1.clone());
                assert(crate::model::messages_model(all@) =~= before.push(log[i as int].1));
            }
            i = i + 1;
        }
        assert(log.take(self.messages.len() as int) =~= log);
        let ghost whole = crate::model::messages_model(all@);
        if all.len() > limit {
            let start = all.len() - limit;
            let tail = all.split_off(start);
            assert(crate::model::messages_model(tail@) =~= whole.skip(start as int));
            Ok(tail)
        } else {
            Ok(all)
        }
    }

    pub fn append(&mut self, conversation_id: ConversationId, message: ModelMessage) -> (result:
        Result<(), KernelError>)
        ensures
            result is Ok,
            final(self)@ == old(self)@.push((conversation_id, message@)),
    {
        let ghost before = self@;
        self.messages.push((conversation_id, message));
        assert(self@ =~= before.push((conversation_id, message@)));
        Ok(())
    }
}

/// An appended message is the latest of its conversation and changes no other.
pub proof fn an_appended_message_is_the_latest(
    log: Seq<(ConversationId, MessageModel)>,
    conversation: ConversationId,
    message: MessageModel,
    other: ConversationId,
    limit: nat,
)
    ensures
        ({
            let after = conversation_of(log.push((conversation, message)), conversation);
            &&& after == conversation_of(log, conversation).push(message)
            &&& limit > 0 ==> latest(after, limit).last() == message
            &&& latest(after, limit).len() <= limit || after.len() <= limit
        }),
        other != conversation ==> conversation_of(log.push((conversation, message)), other)
            == conversation_of(log, other),
{
    let longer = log.push((conversation, message));
    assert(longer.drop_last() =~= log);
    assert(longer.last() == (conversation, message));
}

// ---- memory -------------------------------------------------------------------------

/// Memory that records what the kernel admits, so that the admission point can be shown.
#[derive(Debug)]
pub struct RecordingMemory {
    admitted: Vec<String>,
}

impl View for RecordingMemory {
    type V = Seq<Seq<char>>;

    closed spec fn view(&self) -> Seq<Seq<char>> {
        crate::json::texts(self.admitted@)
    }
}

impl Default for RecordingMemory {
    fn default() -> (memory: Self)
        ensures
            memory@ == Seq::<Seq<char>>::empty(),
    {
        let memory = RecordingMemory { admitted: Vec::new() };
        assert(memory@ =~= Seq::<Seq<char>>::empty());
        memory
    }
}

impl RecordingMemory {
    /// Everything that was admitted, in order.
    pub fn admitted(&self) -> (texts: Vec<String>)
        ensures
            crate::json::texts(texts@) == self@,
    {
        copy_names(&self.admitted)
    }

    /// Nothing: this memory does not recall.
    pub fn retrieve(&self, query: &str, limit: usize) -> (result: Result<
        Vec<MemoryItem>,
        KernelError,
    >)
        ensures
            result matches Ok(found) && found@.len() == 0,
    {
        Ok(Vec::new())
    }

    pub fn store(&mut self, text: &str) -> (result: Result<(), KernelError>)
        ensures
            result is Ok,
            final(self)@ == old(self)@.push(text@),
    {
        let ghost before = self@;
        self.admitted.push(text.to_owned());
        assert(self@ =~= before.push(text@));
        Ok(())
    }
}

// ---- the dispatcher -----------------------------------------------------------------

/// The model of a list of tickets.
pub open spec fn tickets_model(items: Seq<Ticket>) -> Seq<TicketModel> {
    items.map_values(|item: Ticket| item@)
}

/// The dispatcher seam.
///
/// It wraps the work controller and additionally queues the full submitted tickets,
/// because dispatching is this component's job: it assigns worker identity and registers
/// the broker grant. The kernel cannot do that itself.
#[derive(Debug)]
pub struct DemoWorkController {
    inner: InMemoryWorkController,
    pending: Vec<Ticket>,
}

impl Default for DemoWorkController {
    fn default() -> (controller: Self)
        ensures
            controller.tickets() == Map::<TicketId, crate::work::TrackedModel>::empty(),
            controller.queued() == Seq::<TicketModel>::empty(),
    {
        let controller = DemoWorkController {
            inner: InMemoryWorkController::default(),
            pending: Vec::new(),
        };
        assert(controller.queued() =~= Seq::<TicketModel>::empty());
        controller
    }
}

impl DemoWorkController {
    /// What is known of all tickets.
    pub closed spec fn tickets(self) -> WorkModel {
        self.inner@
    }

    /// The tickets that wait to be dispatched.
    pub closed spec fn queued(self) -> Seq<TicketModel> {
        tickets_model(self.pending@)
    }

    /// Take the tickets queued since the last call, for dispatch.
    pub fn take_pending(&mut self) -> (taken: Vec<Ticket>)
        ensures
            tickets_model(taken@) == old(self).queued(),
            final(self).queued() == Seq::<TicketModel>::empty(),
            final(self).tickets() == old(self).tickets(),
    {
        let mut taken: Vec<Ticket> = Vec::new();
        std::mem::swap(&mut taken, &mut self.pending);
        assert(self.queued() =~= Seq::<TicketModel>::empty());
        taken
    }

    pub fn submit(&mut self, ticket: Ticket) -> (result: Result<(), KernelError>)
        ensures
            result is Ok,
            final(self).queued() == old(self).queued().push(ticket@),
            final(self).tickets() == crate::work::submitted(old(self).tickets(), ticket@),
    {
        let ghost before = self.queued();
        self.pending.push(ticket.clone());
        assert(self.queued() =~= before.push(ticket@));
        self.inner.submit(ticket)
    }

    pub fn assign(&mut self, ticket_id: TicketId, worker_id: WorkerId) -> (result: Result<
        (),
        KernelError,
    >)
        ensures
            final(self).queued() == old(self).queued(),
            match crate::work::assign_refusal(old(self).tickets(), ticket_id) {
                None => result is Ok && final(self).tickets() == crate::work::assigned(
                    old(self).tickets(),
                    ticket_id,
                    worker_id,
                ),
                Some(why) => crate::work::refused_transition(result, ticket_id, why) && final(self).tickets() == old(self).tickets(),
            },
    {
        self.inner.assign(ticket_id, worker_id)
    }

    pub fn update(&mut self, ticket_id: TicketId, context: Vec<ContextItem>) -> (result: Result<
        (),
        KernelError,
    >)
        ensures
            result is Ok,
            final(self).queued() == old(self).queued(),
            final(self).tickets() == old(self).tickets(),
    {
        self.inner.update(ticket_id, context)
    }

    pub fn cancel(&mut self, ticket_id: TicketId) -> (result: Result<(), KernelError>)
        ensures
            final(self).queued() == old(self).queued(),
            match crate::work::cancel_refusal(old(self).tickets(), ticket_id) {
                None => result is Ok && final(self).tickets() == crate::work::cancelled(
                    old(self).tickets(),
                    ticket_id,
                ),
                Some(why) => crate::work::refused_transition(result, ticket_id, why) && final(self).tickets() == old(self).tickets(),
            },
    {
        self.inner.cancel(ticket_id)
    }

    pub fn accept_report(&mut self, report: &WorkerReport) -> (result: Result<(), KernelError>)
        ensures
            final(self).queued() == old(self).queued(),
            match crate::work::report_refusal(old(self).tickets(), report@) {
                None => result is Ok && final(self).tickets() == crate::work::reported(
                    old(self).tickets(),
                    report@,
                ),
                Some(why) => crate::work::rejected_report(result, report.ticket_id, why) && final(self).tickets() == old(self).tickets(),
            },
    {
        self.inner.accept_report(report)
    }

    pub fn active_work(&self, conversation_id: ConversationId) -> (result: Result<
        Vec<ActiveWork>,
        KernelError,
    >)
        ensures
            result matches Ok(listed) && crate::work::lists_active_work(
                self.tickets(),
                conversation_id,
                crate::work::active_model(listed@),
            ),
    {
        self.inner.active_work(conversation_id)
    }

    pub fn ticket_owner(&self, ticket_id: TicketId) -> (result: Result<
        Option<ConversationId>,
        KernelError,
    >)
        ensures
            result == Ok::<_, KernelError>(crate::work::owner(self.tickets(), ticket_id)),
    {
        self.inner.ticket_owner(ticket_id)
    }
}

// ---- decorators ---------------------------------------------------------------------

/// Stands in for a UI transport: narrates each semantic event, then feeds the read
/// projection that a client would reload from.
#[derive(Debug)]
pub struct PrintingSink<P> {
    pub projection: Arc<P>,
}

impl<P> PrintingSink<P> {
    pub fn new(projection: Arc<P>) -> (sink: Self)
        ensures
            sink.projection == projection,
    {
        PrintingSink { projection }
    }
}

/// Narrates every local workbench operation and its outcome.
#[derive(Debug)]
pub struct NarratingWorkbench<W>(pub W);

/// Narrates the natural-language request crossing the worker to broker seam, and the
/// capability that it was translated into.
#[derive(Debug)]
pub struct NarratingTranslator<T>(pub T);

/// The recent messages are the last ones in their order, as many as there are within the
/// limit.
pub proof fn the_recent_messages_are_the_last_ones(messages: Seq<MessageModel>, limit: nat, i: int)
    ensures
        latest(messages, limit).len() == (if messages.len() < limit {
            messages.len()
        } else {
            limit
        }),
        0 <= i < latest(messages, limit).len() ==> latest(messages, limit)[i] == messages[i
            + messages.len() - latest(messages, limit).len()],
        conversation_of(Seq::empty(), 0).len() == 0,
{
}

} // verus!
