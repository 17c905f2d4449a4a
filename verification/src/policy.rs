//! The deterministic ceiling on the authority that a ticket may carry.

use vstd::prelude::*;

use crate::capability_set::CapabilitySet;
use crate::protocol::{AuthorityEnvelope, LocalAuthority};

#[allow(unused_imports)]
use crate::protocol::AuthorityModel;

verus! {

/// Deterministic ceiling on the authority a ticket may carry.
///
/// The orchestrator proposes a ticket, authority envelope included, but a model must not
/// be the thing that decides what a worker is allowed to do. Every proposal is clamped to
/// this policy.
#[derive(Debug)]
pub struct TicketAuthorityPolicy {
    pub max_local: LocalAuthority,
    pub grantable_capabilities: CapabilitySet,
}

impl View for TicketAuthorityPolicy {
    type V = AuthorityModel;

    open spec fn view(&self) -> AuthorityModel {
        AuthorityModel { local: self.max_local, external: self.grantable_capabilities@ }
    }
}

/// What is left of a proposed authority under a ceiling: the local permissions that both
/// have, and the proposed capabilities that the ceiling grants.
pub open spec fn clamped(ceiling: AuthorityModel, proposed: AuthorityModel) -> AuthorityModel {
    AuthorityModel {
        local: LocalAuthority {
            read_workspace: proposed.local.read_workspace && ceiling.local.read_workspace,
            write_workspace: proposed.local.write_workspace && ceiling.local.write_workspace,
            execute_local: proposed.local.execute_local && ceiling.local.execute_local,
        },
        external: proposed.external.filter(|name: Seq<char>| ceiling.external.contains(name)),
    }
}

impl Default for TicketAuthorityPolicy {
    fn default() -> (policy: Self)
        ensures
            policy.max_local == (LocalAuthority {
                read_workspace: true,
                write_workspace: false,
                execute_local: false,
            }),
            policy.grantable_capabilities@ == Seq::<Seq<char>>::empty(),
    {
        TicketAuthorityPolicy {
            max_local: LocalAuthority::default(),
            grantable_capabilities: CapabilitySet::new(),
        }
    }
}

impl TicketAuthorityPolicy {
    /// Local reads only, no external capabilities.
    pub fn read_only() -> (policy: Self)
        ensures
            policy.max_local == (LocalAuthority {
                read_workspace: true,
                write_workspace: false,
                execute_local: false,
            }),
            policy.grantable_capabilities@ == Seq::<Seq<char>>::empty(),
    {
        TicketAuthorityPolicy::default()
    }

    pub fn with_local(self, local: LocalAuthority) -> (policy: Self)
        ensures
            policy@ == (AuthorityModel { local, ..self@ }),
    {
        TicketAuthorityPolicy {
            max_local: local,
            grantable_capabilities: self.grantable_capabilities,
        }
    }

    pub fn with_capabilities(self, capabilities: Vec<String>) -> (policy: Self)
        ensures
            policy.max_local == self.max_local,
            crate::capability_set::ascending(policy.grantable_capabilities@),
            forall|name: Seq<char>|
                policy.grantable_capabilities@.contains(name) <==> crate::json::texts(
                    capabilities@,
                ).contains(name),
    {
        TicketAuthorityPolicy {
            max_local: self.max_local,
            grantable_capabilities: CapabilitySet::from_names(capabilities),
        }
    }

    /// Intersect a proposed envelope with the policy. Never widens.
    pub fn clamp(&self, proposed: AuthorityEnvelope) -> (granted: AuthorityEnvelope)
        ensures
            granted@ == clamped(self@, proposed@),
    {
        AuthorityEnvelope {
            local: LocalAuthority {
                read_workspace: proposed.local.read_workspace && self.max_local.read_workspace,
                write_workspace: proposed.local.write_workspace && self.max_local.write_workspace,
                execute_local: proposed.local.execute_local && self.max_local.execute_local,
            },
            external_capabilities: proposed.external_capabilities.restricted_to(
                &self.grantable_capabilities,
            ),
        }
    }
}

/// A capability survives the clamp exactly if it was asked for and is grantable.
pub proof fn clamping_intersects(ceiling: AuthorityModel, proposed: AuthorityModel, name: Seq<char>)
    ensures
        clamped(ceiling, proposed).external.contains(name) <==> proposed.external.contains(name)
            && ceiling.external.contains(name),
{
    broadcast use vstd::seq_lib::group_filter_ensures;

    let keep = |n: Seq<char>| ceiling.external.contains(n);
    let kept = proposed.external.filter(keep);
    if kept.contains(name) {
        let i = choose|i: int| 0 <= i < kept.len() && kept[i] == name;
        assert(keep(kept[i]));
        filtered_items_come_from(proposed.external, keep, i);
    }
    if proposed.external.contains(name) && ceiling.external.contains(name) {
        let i = choose|i: int| 0 <= i < proposed.external.len() && proposed.external[i] == name;
        assert(keep(proposed.external[i]));
        assert(kept.contains(proposed.external[i]));
    }
}

proof fn filtered_items_come_from(
    names: Seq<Seq<char>>,
    keep: spec_fn(Seq<char>) -> bool,
    i: int,
)
    requires
        0 <= i < names.filter(keep).len(),
    ensures
        names.contains(names.filter(keep)[i]),
    decreases names.len(),
{
    reveal(Seq::filter);
    let rest = names.drop_last();
    let kept = rest.filter(keep);
    if i < kept.len() {
        filtered_items_come_from(rest, keep, i);
        let k = choose|k: int| 0 <= k < rest.len() && rest[k] == kept[i];
        assert(names[k] == kept[i]);
    } else {
        assert(names[names.len() - 1] == names.filter(keep)[i]);
    }
}

/// Clamping never widens: what is granted is within what was proposed and within the
/// policy.
pub proof fn clamping_only_narrows(ceiling: AuthorityModel, proposed: AuthorityModel)
    ensures
        clamped(ceiling, proposed).within(proposed),
        clamped(ceiling, proposed).within(ceiling),
{
    assert forall|name: Seq<char>| #[trigger]
        clamped(ceiling, proposed).external.contains(name) implies proposed.external.contains(name)
        && ceiling.external.contains(name) by {
        clamping_intersects(ceiling, proposed, name);
    }
}

/// Asking again for what was granted grants the same.
pub proof fn clamping_again_changes_nothing(ceiling: AuthorityModel, proposed: AuthorityModel)
    ensures
        clamped(ceiling, clamped(ceiling, proposed)) == clamped(ceiling, proposed),
{
    broadcast use vstd::seq_lib::group_filter_ensures;

    let keep = |n: Seq<char>| ceiling.external.contains(n);
    let kept = proposed.external.filter(keep);
    assert forall|i: int| 0 <= i < kept.len() implies keep(#[trigger] kept[i]) by {}
    filter_keeps_all(kept, keep);
}

proof fn filter_keeps_all(names: Seq<Seq<char>>, keep: spec_fn(Seq<char>) -> bool)
    requires
        forall|i: int| 0 <= i < names.len() ==> keep(#[trigger] names[i]),
    ensures
        names.filter(keep) == names,
    decreases names.len(),
{
    reveal(Seq::filter);
    if names.len() > 0 {
        filter_keeps_all(names.drop_last(), keep);
        assert(keep(names[names.len() - 1]));
        assert(names =~= names.drop_last().push(names.last()));
    }
}

/// Asking for more never grants less, and a wider policy never grants less.
pub proof fn clamping_is_monotone(
    ceiling: AuthorityModel,
    wider_ceiling: AuthorityModel,
    proposed: AuthorityModel,
    wider_proposal: AuthorityModel,
)
    requires
        ceiling.within(wider_ceiling),
        proposed.within(wider_proposal),
    ensures
        clamped(ceiling, proposed).within(clamped(wider_ceiling, wider_proposal)),
{
    assert forall|name: Seq<char>| #[trigger]
        clamped(ceiling, proposed).external.contains(name) implies clamped(
        wider_ceiling,
        wider_proposal,
    ).external.contains(name) by {
        clamping_intersects(ceiling, proposed, name);
        clamping_intersects(wider_ceiling, wider_proposal, name);
    }
}

/// A local permission survives the clamp exactly if it was asked for and the policy has it.
pub proof fn clamping_keeps_what_both_permit(ceiling: AuthorityModel, proposed: AuthorityModel)
    ensures
        clamped(ceiling, proposed).local.read_workspace <==> proposed.local.read_workspace
            && ceiling.local.read_workspace,
        clamped(ceiling, proposed).local.write_workspace <==> proposed.local.write_workspace
            && ceiling.local.write_workspace,
        clamped(ceiling, proposed).local.execute_local <==> proposed.local.execute_local
            && ceiling.local.execute_local,
{
}

/// An authority is within another exactly if every permission and every capability that it
/// has is the other's too.
pub proof fn being_within_is_having_no_more(
    inner: AuthorityModel,
    outer: AuthorityModel,
    name: Seq<char>,
)
    requires
        inner.within(outer),
    ensures
        inner.local.read_workspace ==> outer.local.read_workspace,
        inner.local.write_workspace ==> outer.local.write_workspace,
        inner.local.execute_local ==> outer.local.execute_local,
        inner.external.contains(name) ==> outer.external.contains(name),
{
}

/// What the policy grants of a proposal: each local permission and each capability exactly if
/// it was proposed and the policy has it.
pub proof fn the_policy_grants_what_both_have(
    policy: TicketAuthorityPolicy,
    proposed: AuthorityEnvelope,
    granted: AuthorityEnvelope,
    name: Seq<char>,
)
    requires
        call_ensures(TicketAuthorityPolicy::clamp, (&policy, proposed), granted),
    ensures
        granted.local.read_workspace <==> proposed.local.read_workspace
            && policy.max_local.read_workspace,
        granted.local.write_workspace <==> proposed.local.write_workspace
            && policy.max_local.write_workspace,
        granted.local.execute_local <==> proposed.local.execute_local
            && policy.max_local.execute_local,
        granted.external_capabilities@.contains(name)
            <==> proposed.external_capabilities@.contains(name)
            && policy.grantable_capabilities@.contains(name),
{
    clamping_intersects(policy@, proposed@, name);
    assert(granted@ == clamped(policy@, proposed@));
}

} // verus!
