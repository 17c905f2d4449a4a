//! What holds across the seams: from the policy to the providers, and from a worker's
//! report to the client.

use vstd::prelude::*;

#[allow(unused_imports)]
use crate::api::{ClientEventModel, TicketViewModel};
#[allow(unused_imports)]
use crate::broker::DescriptorModel;
#[allow(unused_imports)]
use crate::ids::{TicketId, WorkerId};
#[allow(unused_imports)]
use crate::json::Tree;
#[allow(unused_imports)]
use crate::projection::ProjectionModel;
#[allow(unused_imports)]
use crate::protocol::{ArtifactModel, AuthorityModel, ReportModel, TicketModel, WorkerStatus};
#[allow(unused_imports)]
use crate::work::WorkModel;
#[allow(unused_imports)]
use crate::worker::RunModel;

verus! {

/// Whatever an orchestrator proposes and whatever a translator produces, the only
/// capabilities that reach a provider, or are even shown to the translator, are ones that
/// the deployment's policy grants and that were asked for.
pub proof fn the_policy_bounds_external_calls(
    ceiling: AuthorityModel,
    proposed: AuthorityModel,
    catalog: Seq<DescriptorModel>,
    providers: Seq<(Seq<char>, Seq<char>)>,
    capability: Seq<char>,
    arguments: Tree,
    item: DescriptorModel,
)
    ensures
        ({
            let granted = crate::policy::clamped(ceiling, proposed).external;
            &&& crate::broker::invocation_refusal(
                catalog,
                providers,
                granted,
                capability,
                arguments,
            ) is None ==> ceiling.external.contains(capability) && proposed.external.contains(
                capability,
            )
            &&& crate::broker::shortlist(catalog, granted).contains(item)
                ==> ceiling.external.contains(item.0) && proposed.external.contains(item.0)
        }),
{
    let granted = crate::policy::clamped(ceiling, proposed).external;
    crate::policy::clamping_intersects(ceiling, proposed, capability);
    crate::policy::clamping_intersects(ceiling, proposed, item.0);
    crate::broker::the_shortlist_is_what_is_granted(catalog, granted, item);
}

/// Whatever an orchestrator proposes, a local operation runs only within the deployment's
/// policy and the workbench's own ceiling.
pub proof fn the_policy_bounds_local_work(
    ceiling: AuthorityModel,
    proposed: AuthorityModel,
    allow_write: bool,
    allow_execute: bool,
    operation: Seq<char>,
    arguments: Tree,
)
    ensures
        crate::workbench::planned(
            allow_write,
            allow_execute,
            operation,
            arguments,
            crate::policy::clamped(ceiling, proposed).local,
        ) matches Ok(found) ==> {
            &&& found is ReadFile || found is ListDir ==> ceiling.local.read_workspace
            &&& found is WriteFile ==> ceiling.local.write_workspace && allow_write
            &&& found is Exec ==> ceiling.local.execute_local && allow_execute
        },
{
}

/// The report of a worker on the ticket that it was dispatched with is accepted, and a
/// report on that ticket by any other worker is not.
pub proof fn a_dispatched_worker_can_report(
    tickets: WorkModel,
    run: RunModel,
    status: WorkerStatus,
    summary: Seq<char>,
    artifacts: Seq<ArtifactModel>,
    other: WorkerId,
)
    ensures
        ({
            let queued = crate::work::submitted(tickets, run.ticket);
            let running = crate::work::assigned(queued, run.ticket.id, run.worker_id);
            let report = crate::worker::report_of(run, status, summary, artifacts);
            &&& crate::work::assign_refusal(queued, run.ticket.id) is None
            &&& crate::work::report_refusal(running, report) is None
            &&& crate::work::reported(running, report)[run.ticket.id].state
                == crate::protocol::terminal_state(status)
            &&& other != run.worker_id ==> crate::work::report_refusal(
                running,
                ReportModel { worker_id: other, ..report },
            ) is Some
        }),
{
}

/// A conversation after a sequence of events.
pub open spec fn project_all(
    before: ProjectionModel,
    events: Seq<ClientEventModel>,
) -> ProjectionModel
    decreases events.len(),
{
    if events.len() == 0 {
        before
    } else {
        crate::projection::projected(project_all(before, events.drop_last()), events.last())
    }
}

proof fn artifacts_are_projected(
    before: ProjectionModel,
    id: TicketId,
    artifacts: Seq<ArtifactModel>,
)
    requires
        before.tickets.contains_key(id),
    ensures
        ({
            let events = artifacts.map_values(
                |artifact: ArtifactModel| ClientEventModel::ArtifactCreated(id, artifact),
            );
            project_all(before, events) == (ProjectionModel {
                messages: before.messages,
                tickets: before.tickets.insert(
                    id,
                    TicketViewModel {
                        artifacts: before.tickets[id].artifacts + artifacts,
                        ..before.tickets[id]
                    },
                ),
            })
        }),
    decreases artifacts.len(),
{
    let events = artifacts.map_values(
        |artifact: ArtifactModel| ClientEventModel::ArtifactCreated(id, artifact),
    );
    let after = project_all(before, events);
    if artifacts.len() == 0 {
        assert(before.tickets[id].artifacts + artifacts =~= before.tickets[id].artifacts);
        assert(before.tickets =~= before.tickets.insert(id, before.tickets[id]));
    } else {
        let rest = artifacts.drop_last();
        artifacts_are_projected(before, id, rest);
        assert(events.drop_last() =~= rest.map_values(
            |artifact: ArtifactModel| ClientEventModel::ArtifactCreated(id, artifact),
        ));
        assert((before.tickets[id].artifacts + rest).push(artifacts.last())
            =~= before.tickets[id].artifacts + artifacts);
        assert(after.tickets =~= before.tickets.insert(
            id,
            TicketViewModel {
                artifacts: before.tickets[id].artifacts + artifacts,
                ..before.tickets[id]
            },
        ));
    }
}

proof fn projecting_a_concatenation(
    before: ProjectionModel,
    first: Seq<ClientEventModel>,
    second: Seq<ClientEventModel>,
)
    ensures
        project_all(before, first + second) == project_all(project_all(before, first), second),
    decreases second.len(),
{
    if second.len() == 0 {
        assert(first + second =~= first);
    } else {
        projecting_a_concatenation(before, first, second.drop_last());
        assert((first + second).drop_last() =~= first + second.drop_last());
    }
}

/// What the client reloads after a report: the ticket has the reported state and summary
/// and the reported artifacts behind those it had, and nothing else has changed.
pub proof fn a_report_reaches_the_client(before: ProjectionModel, report: ReportModel)
    requires
        before.tickets.contains_key(report.ticket_id),
    ensures
        ({
            let id = report.ticket_id;
            project_all(before, crate::api::report_announcements(report)) == (ProjectionModel {
                messages: before.messages,
                tickets: before.tickets.insert(
                    id,
                    TicketViewModel {
                        state: crate::api::reported_state(report.status),
                        summary: Some(report.summary),
                        artifacts: before.tickets[id].artifacts + report.artifacts,
                        ..before.tickets[id]
                    },
                ),
            })
        }),
{
    let id = report.ticket_id;
    let changed = ClientEventModel::TicketStateChanged(
        id,
        crate::api::reported_state(report.status),
        Some(report.summary),
    );
    let later = report.artifacts.map_values(
        |artifact: ArtifactModel| ClientEventModel::ArtifactCreated(id, artifact),
    );
    projecting_a_concatenation(before, seq![changed], later);
    assert(seq![changed].drop_last() =~= seq![]);
    assert(project_all(before, seq![changed].drop_last()) == before);
    let middle = project_all(before, seq![changed]);
    assert(middle == crate::projection::projected(before, changed));
    artifacts_are_projected(middle, id, report.artifacts);
    assert(project_all(before, crate::api::report_announcements(report)).tickets
        =~= before.tickets.insert(
        id,
        TicketViewModel {
            state: crate::api::reported_state(report.status),
            summary: Some(report.summary),
            artifacts: before.tickets[id].artifacts + report.artifacts,
            ..before.tickets[id]
        },
    ));
}

/// What an orchestrator proposes reaches the worker: the worker's model is asked with the
/// proposed objective, context, constraints and deliverable.
pub proof fn a_proposal_reaches_the_worker(
    ceiling: AuthorityModel,
    turn: crate::kernel::TurnModel,
    actions: Seq<crate::kernel::ActionModel>,
    proposals: Seq<Seq<char>>,
    asked: crate::kernel::NewTicketModel,
    id: TicketId,
    run: RunModel,
)
    requires
        turn.stage is Deciding,
        actions.len() > 0,
        actions[0] == crate::kernel::ActionModel::Submit(asked),
        run.steps_left > 0,
        ({
            let next = crate::kernel::next_stage(
                ceiling,
                turn,
                crate::kernel::ReplyModel::Decision(actions, proposals),
                id,
            );
            next matches crate::kernel::StageModel::Submitting(ticket, _) ==> run.ticket == ticket
        }),
    ensures
        crate::worker::think(run).stage matches crate::worker::WorkerStageModel::Thinking(request)
            && exists|shown: Tree| #[trigger]
            shown.text() == request.messages[1].1 && (shown.get("ticket"@) matches Some(ticket)
                && ticket.get("objective"@) == Some(Tree::Text(asked.objective)) && ticket.get(
                "deliverable"@,
            ) == Some(Tree::Text(asked.deliverable)) && ticket.get("constraints"@) == Some(
                crate::json::text_array(asked.constraints),
            ) && ticket.get("context"@) == Some(crate::protocol::context_tree(asked.context))
                && ticket.get("id"@) == Some(Tree::Text(crate::ids::id_chars(id)))),
{
    crate::kernel::the_next_action_is_carried_out_as_decided(
        ceiling,
        turn,
        crate::kernel::ReplyModel::Decision(actions, proposals),
        id,
        actions,
        Seq::empty(),
    );
    crate::worker::the_model_is_asked_about_its_ticket(run, 0);
    crate::protocol::a_ticket_is_shown_whole(run.ticket);
}

/// What a worker finishes with reaches the client: its ticket is announced as completed, with
/// its summary and with each of its artifacts; what it is blocked by is announced likewise.
pub proof fn a_finished_task_reaches_the_client(
    run: RunModel,
    summary: Seq<char>,
    artifacts: Seq<ArtifactModel>,
    i: int,
)
    requires
        run.stage is Thinking,
    ensures
        ({
            let finish = crate::worker::ActionModel::Finish(summary, artifacts);
            let next = crate::worker::run_step(
                run,
                crate::worker::WorkerReplyModel::Action(finish),
            );
            next.stage matches crate::worker::WorkerStageModel::Finished(Ok(report)) && {
                let told = crate::api::announcements(
                    crate::kernel::EventModel::WorkerReported(report),
                );
                &&& told.len() == 1 + artifacts.len()
                &&& told[0] == ClientEventModel::TicketStateChanged(
                    run.ticket.id,
                    crate::api::TicketState::Completed,
                    Some(summary),
                )
                &&& 0 <= i < artifacts.len() ==> told[i + 1] == ClientEventModel::ArtifactCreated(
                    run.ticket.id,
                    artifacts[i],
                )
            }
        }),
        ({
            let blocked = crate::worker::ActionModel::Blocked(summary);
            let next = crate::worker::run_step(
                run,
                crate::worker::WorkerReplyModel::Action(blocked),
            );
            next.stage matches crate::worker::WorkerStageModel::Finished(Ok(report)) && {
                let told = crate::api::announcements(
                    crate::kernel::EventModel::WorkerReported(report),
                );
                told.len() == 1 && told[0] == ClientEventModel::TicketStateChanged(
                    run.ticket.id,
                    crate::api::TicketState::Blocked,
                    Some(summary),
                )
            }
        }),
{
}

} // verus!
