//! The broker's errors and its trusted source of ticket authority.

use std::collections::HashMap;

use vstd::prelude::*;
use vstd::string::*;

use crate::ids::{TicketId, WorkerId};
use crate::model::labelled;
use crate::protocol::{AuthorityEnvelope, CapabilityFailure};

#[allow(unused_imports)]
use crate::protocol::AuthorityModel;

verus! {

#[derive(Debug)]
pub enum BrokerError {
    Denied(String),
    CapabilityGap,
    ProviderUnavailable(String),
    Translation(String),
    InvalidArguments(String),
    Provider(String),
}

impl BrokerError {
    /// The message of an error, for the broker's own records.
    pub open spec fn text(self) -> Seq<char> {
        match self {
            BrokerError::Denied(detail) => "capability denied: "@ + detail@,
            BrokerError::CapabilityGap => "no capability matches request"@,
            BrokerError::ProviderUnavailable(detail) => "no provider is available for "@ + detail@,
            BrokerError::Translation(detail) => "invalid SLM translation: "@ + detail@,
            BrokerError::InvalidArguments(detail) => "invalid capability arguments: "@ + detail@,
            BrokerError::Provider(detail) => "provider failed: "@ + detail@,
        }
    }

    /// The message of an error, for the broker's own records.
    pub fn message(&self) -> (text: String)
        ensures
            text@ == self.text(),
    {
        match self {
            BrokerError::Denied(detail) => labelled("capability denied: ", detail.as_str()),
            BrokerError::CapabilityGap => "no capability matches request".to_owned(),
            BrokerError::ProviderUnavailable(detail) => labelled(
                "no provider is available for ",
                detail.as_str(),
            ),
            BrokerError::Translation(detail) => labelled(
                "invalid SLM translation: ",
                detail.as_str(),
            ),
            BrokerError::InvalidArguments(detail) => labelled(
                "invalid capability arguments: ",
                detail.as_str(),
            ),
            BrokerError::Provider(detail) => labelled("provider failed: ", detail.as_str()),
        }
    }

    /// What the worker is told of an error.
    pub open spec fn worker_failure(self) -> CapabilityFailure {
        match self {
            BrokerError::Denied(_) => CapabilityFailure::Denied,
            BrokerError::CapabilityGap => CapabilityFailure::Gap,
            BrokerError::ProviderUnavailable(_) => CapabilityFailure::TemporarilyUnavailable,
            BrokerError::Translation(_) => CapabilityFailure::RequestNotUnderstood,
            BrokerError::InvalidArguments(_) => CapabilityFailure::InvalidArguments,
            BrokerError::Provider(_) => CapabilityFailure::TemporarilyUnavailable,
        }
    }

    /// What the worker is told of an error.
    pub fn failure(&self) -> (failure: CapabilityFailure)
        ensures
            failure == self.worker_failure(),
    {
        match self {
            BrokerError::Denied(_) => CapabilityFailure::Denied,
            BrokerError::CapabilityGap => CapabilityFailure::Gap,
            BrokerError::ProviderUnavailable(_) => CapabilityFailure::TemporarilyUnavailable,
            BrokerError::Translation(_) => CapabilityFailure::RequestNotUnderstood,
            BrokerError::InvalidArguments(_) => CapabilityFailure::InvalidArguments,
            BrokerError::Provider(_) => CapabilityFailure::TemporarilyUnavailable,
        }
    }

    /// Stable, worker-facing code.
    ///
    /// Provider topology, transport errors and credential-bearing detail stay inside the
    /// broker; the worker gets something actionable that leaks nothing about how the
    /// capability is implemented.
    pub fn code(&self) -> (code: &'static str)
        ensures
            code@ == crate::protocol::failure_code(self.worker_failure()),
    {
        self.failure().code()
    }
}

/// What the worker sees depends on the kind of an error alone, never on its detail.
pub proof fn the_worker_sees_no_detail(detail: String, other: String)
    ensures
        BrokerError::Denied(detail).worker_failure() == BrokerError::Denied(other).worker_failure(),
        BrokerError::ProviderUnavailable(detail).worker_failure()
            == BrokerError::ProviderUnavailable(other).worker_failure(),
        BrokerError::Translation(detail).worker_failure() == BrokerError::Translation(
            other,
        ).worker_failure(),
        BrokerError::InvalidArguments(detail).worker_failure() == BrokerError::InvalidArguments(
            other,
        ).worker_failure(),
        BrokerError::Provider(detail).worker_failure() == BrokerError::Provider(
            other,
        ).worker_failure(),
        BrokerError::Provider(detail).worker_failure() == BrokerError::ProviderUnavailable(
            other,
        ).worker_failure(),
{
}

// ---- grants -------------------------------------------------------------------------

/// The grants that were registered: for each ticket its worker and its authority.
pub type GrantModel = Map<TicketId, (WorkerId, AuthorityModel)>;

/// Why a pairing of ticket and worker is denied. An unknown ticket or a mismatched worker
/// is a denial, not an empty grant.
pub open spec fn denial(grants: GrantModel, ticket: TicketId, worker: WorkerId) -> Option<
    Seq<char>,
> {
    if !grants.contains_key(ticket) {
        Some("no grant for this ticket"@)
    } else if grants[ticket].0 != worker {
        Some("worker is not assigned to this ticket"@)
    } else {
        None
    }
}

/// Prototype authority source.
///
/// A worker presents only its identity and its ticket; the authoritative grant is
/// resolved here.
#[derive(Debug)]
pub struct InMemoryTicketAuthorityStore {
    grants: HashMap<TicketId, (WorkerId, AuthorityEnvelope)>,
}

impl View for InMemoryTicketAuthorityStore {
    type V = GrantModel;

    closed spec fn view(&self) -> GrantModel {
        self.grants@.map_values(|grant: (WorkerId, AuthorityEnvelope)| (grant.0, grant.1@))
    }
}

impl Default for InMemoryTicketAuthorityStore {
    fn default() -> (store: Self)
        ensures
            store@ == Map::<TicketId, (WorkerId, AuthorityModel)>::empty(),
    {
        let store = InMemoryTicketAuthorityStore { grants: HashMap::new() };
        assert(store@ =~= Map::<TicketId, (WorkerId, AuthorityModel)>::empty());
        store
    }
}

impl InMemoryTicketAuthorityStore {
    /// Record the grant for a dispatched ticket. Called by whatever assigns work to a
    /// worker, never by the worker itself.
    pub fn grant(&mut self, ticket_id: TicketId, worker_id: WorkerId, authority: AuthorityEnvelope)
        ensures
            final(self)@ == old(self)@.insert(ticket_id, (worker_id, authority@)),
    {
        broadcast use vstd::std_specs::hash::group_hash_axioms;

        let ghost before = self@;
        self.grants.insert(ticket_id, (worker_id, authority));
        assert(self@ =~= before.insert(ticket_id, (worker_id, authority@)));
    }

    /// Drop a grant once its ticket is finished or cancelled.
    pub fn revoke(&mut self, ticket_id: TicketId)
        ensures
            final(self)@ == old(self)@.remove(ticket_id),
    {
        broadcast use vstd::std_specs::hash::group_hash_axioms;

        let ghost before = self@;
        self.grants.remove(&ticket_id);
        assert(self@ =~= before.remove(ticket_id));
    }

    /// Resolve the grant for `ticket_id`, confirming `worker_id` is the worker actually
    /// assigned to it.
    pub fn authority_for(&self, ticket_id: TicketId, worker_id: WorkerId) -> (result: Result<
        AuthorityEnvelope,
        BrokerError,
    >)
        ensures
            match denial(self@, ticket_id, worker_id) {
                None => result matches Ok(authority) && authority@ == self@[ticket_id].1,
                Some(why) => result matches Err(BrokerError::Denied(detail)) && detail@ == why,
            },
    {
        broadcast use vstd::std_specs::hash::group_hash_axioms;

        match self.grants.get(&ticket_id) {
            Some(grant) => {
                if grant.0 == worker_id {
                    Ok(grant.1.clone())
                } else {
                    Err(BrokerError::Denied("worker is not assigned to this ticket".to_owned()))
                }
            },
            None => Err(BrokerError::Denied("no grant for this ticket".to_owned())),
        }
    }
}

/// A grant is resolved for its worker alone, exactly as it was registered, until it is
/// revoked; granting and revoking change no other ticket.
pub proof fn a_grant_holds_for_its_worker_until_revoked(
    grants: GrantModel,
    ticket: TicketId,
    worker: WorkerId,
    authority: AuthorityModel,
    other_ticket: TicketId,
    other_worker: WorkerId,
)
    ensures
        ({
            let granted = grants.insert(ticket, (worker, authority));
            &&& denial(granted, ticket, worker) is None
            &&& granted[ticket].1 == authority
            &&& other_worker != worker ==> denial(granted, ticket, other_worker) is Some
            &&& other_ticket != ticket ==> denial(granted, other_ticket, other_worker) == denial(
                grants,
                other_ticket,
                other_worker,
            ) && granted[other_ticket] == grants[other_ticket]
        }),
        ({
            let revoked = grants.remove(ticket);
            &&& denial(revoked, ticket, other_worker) is Some
            &&& other_ticket != ticket ==> denial(revoked, other_ticket, other_worker) == denial(
                grants,
                other_ticket,
                other_worker,
            ) && revoked[other_ticket] == grants[other_ticket]
        }),
{
}

/// A pairing is denied exactly if the ticket has no grant or its grant is another worker's,
/// and the denial says which.
pub proof fn a_denial_says_what_is_wrong(grants: GrantModel, ticket: TicketId, worker: WorkerId)
    ensures
        denial(grants, ticket, worker) is None <==> grants.contains_key(ticket)
            && grants[ticket].0 == worker,
        !grants.contains_key(ticket) ==> denial(grants, ticket, worker) == Some(
            "no grant for this ticket"@,
        ),
        grants.contains_key(ticket) && grants[ticket].0 != worker ==> denial(grants, ticket, worker)
            == Some("worker is not assigned to this ticket"@),
{
}

/// Each kind of error has its own failure on the worker's side; what is wrong with a provider
/// is never more than that the capability is unavailable for now.
pub proof fn each_error_is_told_as_its_failure(error: BrokerError)
    ensures
        error.worker_failure() is Denied <==> error is Denied,
        error.worker_failure() is Gap <==> error is CapabilityGap,
        error.worker_failure() is RequestNotUnderstood <==> error is Translation,
        error.worker_failure() is InvalidArguments <==> error is InvalidArguments,
        error.worker_failure() is TemporarilyUnavailable <==> error is ProviderUnavailable
            || error is Provider,
{
}

/// The broker's own message of an error says its kind and its detail.
pub proof fn broker_errors_say_their_kind(detail: String)
    ensures
        BrokerError::Denied(detail).text() == "capability denied: "@ + detail@,
        BrokerError::CapabilityGap.text() == "no capability matches request"@,
        BrokerError::ProviderUnavailable(detail).text() == "no provider is available for "@
            + detail@,
        BrokerError::Translation(detail).text() == "invalid SLM translation: "@ + detail@,
        BrokerError::InvalidArguments(detail).text() == "invalid capability arguments: "@ + detail@,
        BrokerError::Provider(detail).text() == "provider failed: "@ + detail@,
{
}

/// A resolved grant is the one that was registered for the ticket, and only its own worker
/// gets it; every other pairing is denied.
pub proof fn a_grant_is_resolved_as_registered(
    store: InMemoryTicketAuthorityStore,
    ticket: TicketId,
    worker: WorkerId,
    result: Result<AuthorityEnvelope, BrokerError>,
)
    requires
        call_ensures(
            InMemoryTicketAuthorityStore::authority_for,
            (&store, ticket, worker),
            result,
        ),
    ensures
        store@.contains_key(ticket) && store@[ticket].0 == worker ==> (result matches Ok(found)
            && found@ == store@[ticket].1),
        !(store@.contains_key(ticket) && store@[ticket].0 == worker) ==> (result matches Err(error)
            && error is Denied),
{
}

} // verus!
