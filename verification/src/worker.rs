//! The task-scoped worker loop.
//!
//! A run is a machine. Its [`WorkerStage`] says what is to be done next; the program
//! around the library does it and hands what came of it to [`WorkerRuntime::step`].

use std::sync::Arc;

use vstd::prelude::*;
use vstd::string::*;

use crate::ids::WorkerId;
use crate::json::{object1, object2, string, strings, Json};
use crate::model::{double, labelled, ModelMessage, ModelReply, ModelRequest};
use crate::protocol::{
    ArtifactRef, CapabilityFailure, CapabilityRequest, CapabilityResult, LocalAuthority, Ticket,
    WorkerReport, WorkerStatus,
};
use crate::text::{clip_text, text_bytes};
use crate::workbench::WorkerError;

#[allow(unused_imports)]
use crate::json::Tree;
#[allow(unused_imports)]
use crate::model::{ModelRole, RequestModel};
#[allow(unused_imports)]
use crate::protocol::{ArtifactModel, ReportModel, TicketModel};
#[allow(unused_imports)]
use crate::workbench::WorkerErrorModel;

verus! {

/// How many model calls a worker makes at most.
pub const DEFAULT_MAX_STEPS: usize = 128;

/// How many unreadable replies in a row are corrected before the task is failed.
pub const MAX_CORRECTIONS: usize = 3;

/// How many observations a worker's context holds at most.
pub const WINDOW_COUNT: usize = 16;

/// How many bytes one observation takes at most.
pub const MAX_OBSERVATION_BYTES: u64 = 32_768;

/// How many bytes the observations in a worker's context take at most together.
pub const WINDOW_BYTES: u64 = 131_072;

/// What marks an observation that was cut.
pub const CUT_MARK: &'static str = " [truncated]";

/// The bytes of [`CUT_MARK`].
pub const CUT_MARK_BYTES: u64 = 12;

// ---- actions ------------------------------------------------------------------------

/// One action that the worker's model decides on.
#[derive(Debug)]
pub enum WorkerAction {
    Local { operation: String, arguments: Json },
    Capability { request: String },
    Finish { summary: String, artifacts: Vec<ArtifactRef> },
    Blocked { reason: String },
}

/// The model of an action.
pub enum ActionModel {
    Local(Seq<char>, Tree),
    Capability(Seq<char>),
    Finish(Seq<char>, Seq<ArtifactModel>),
    Blocked(Seq<char>),
}

impl View for WorkerAction {
    type V = ActionModel;

    open spec fn view(&self) -> ActionModel {
        match *self {
            WorkerAction::Local { operation, arguments } => ActionModel::Local(
                operation@,
                arguments@,
            ),
            WorkerAction::Capability { request } => ActionModel::Capability(request@),
            WorkerAction::Finish { summary, artifacts } => ActionModel::Finish(
                summary@,
                crate::protocol::artifacts_model(artifacts@),
            ),
            WorkerAction::Blocked { reason } => ActionModel::Blocked(reason@),
        }
    }
}

// ---- observations -------------------------------------------------------------------

/// The observation of a local operation that ran.
pub open spec fn local_observation(operation: Seq<char>, result: Tree) -> Tree {
    Tree::Object(seq![("local_operation"@, Tree::Text(operation)), ("result"@, result)])
}

/// The observation of a local operation that was denied.
pub open spec fn denied_observation(operation: Seq<char>, why: Seq<char>) -> Tree {
    Tree::Object(seq![("denied"@, Tree::Text(why)), ("local_operation"@, Tree::Text(operation))])
}

/// The observation of a capability that succeeded.
pub open spec fn capability_observation(result: Tree) -> Tree {
    Tree::Object(seq![("capability_result"@, result)])
}

/// The observation of a capability that failed: its stable code and nothing else.
pub open spec fn failure_observation(failure: CapabilityFailure) -> Tree {
    Tree::Object(
        seq![("capability_error"@, Tree::Text(crate::protocol::failure_code(failure)))],
    )
}

/// The observation of a reply that could not be read as an action.
pub open spec fn correction_observation(why: Seq<char>) -> Tree {
    Tree::Object(seq![("invalid_action"@, Tree::Text(why))])
}

/// An observation within its cap: whole, or cut and marked.
pub open spec fn bounded(observation: Seq<char>) -> Seq<char> {
    if crate::text::byte_len(observation) <= MAX_OBSERVATION_BYTES {
        observation
    } else {
        crate::text::clip(observation, (MAX_OBSERVATION_BYTES - CUT_MARK_BYTES) as nat) + CUT_MARK@
    }
}

/// How many of the latest observations fit a count and a number of bytes.
pub open spec fn window_len(observations: Seq<Seq<char>>, count: nat, budget: nat) -> nat
    decreases observations.len(),
{
    if observations.len() == 0 || count == 0 || crate::text::byte_len(observations.last())
        > budget {
        0
    } else {
        1 + window_len(
            observations.drop_last(),
            (count - 1) as nat,
            (budget - crate::text::byte_len(observations.last())) as nat,
        )
    }
}

/// The latest observations that the worker's context holds.
pub open spec fn window(observations: Seq<Seq<char>>) -> Seq<Seq<char>> {
    observations.skip(
        observations.len() - window_len(observations, WINDOW_COUNT as nat, WINDOW_BYTES as nat),
    )
}

/// How many bytes texts take together.
pub open spec fn total_bytes(items: Seq<Seq<char>>) -> nat
    decreases items.len(),
{
    if items.len() == 0 {
        0
    } else {
        total_bytes(items.drop_last()) + crate::text::byte_len(items.last())
    }
}

/// The texts of observations within their cap.
fn bound_observation(observation: String) -> (out: String)
    ensures
        out@ == bounded(observation@),
{
    if text_bytes(observation.as_str()) as u64 <= MAX_OBSERVATION_BYTES {
        observation
    } else {
        let mut out = clip_text(
            observation.as_str(),
            MAX_OBSERVATION_BYTES - CUT_MARK_BYTES,
        ).to_owned();
        out.append(CUT_MARK);
        out
    }
}

/// The latest observations that the worker's context holds.
fn take_window(observations: &Vec<String>) -> (out: Vec<String>)
    ensures
        crate::json::texts(out@) == window(crate::json::texts(observations@)),
{
    let ghost all = crate::json::texts(observations@);
    let ghost full = window_len(all, WINDOW_COUNT as nat, WINDOW_BYTES as nat);
    let mut start: usize = observations.len();
    let mut count: usize = WINDOW_COUNT;
    let mut budget: u64 = WINDOW_BYTES;
    assert(all.take(start as int) =~= all);
    while start > 0 && count > 0 && text_bytes(observations[start - 1].as_str()) as u64 <= budget
        invariant
            start <= observations.len(),
            all == crate::json::texts(observations@),
            full == (observations.len() - start) + window_len(
                all.take(start as int),
                count as nat,
                budget as nat,
            ),
        decreases start,
    {
        proof {
            assert(all.take(start as int).drop_last() =~= all.take(start - 1));
            assert(all.take(start as int).last() == observations[start - 1]@);
        }
        budget = budget - text_bytes(observations[start - 1].as_str()) as u64;
        count = count - 1;
        start = start - 1;
    }
    proof {
        if start > 0 {
            assert(all.take(start as int).last() == observations[start - 1]@);
        }
        assert(window_len(all.take(start as int), count as nat, budget as nat) == 0);
    }
    let mut out: Vec<String> = Vec::new();
    let mut i: usize = start;
    while i < observations.len()
        invariant
            start <= i <= observations.len(),
            out.len() == i - start,
            forall|j: int| 0 <= j < i - start ==> (#[trigger] out[j])@ == observations[start + j]@,
        decreases observations.len() - i,
    {
        out.push(observations[i].clone());
        i = i + 1;
    }
    assert(crate::json::texts(out@) =~= window(all));
    out
}

// ---- the worker's context -----------------------------------------------------------

/// The charter of the worker's model.
pub const WORKER_PROMPT: &'static str = r#"
You are a task-scoped worker. You know only the supplied ticket and observations.
You have no durable memory and should not infer a larger project context.

You may:
1. Use local workspace primitives directly.
2. Request an EXTERNAL capability through the Capability Broker.
3. Finish or report that you are blocked.

Local operations available:
- read_file {path, offset, limit}
- write_file {path, content}
- list_dir {path}
- exec {program, args[], cwd}

The offset and limit of read_file are optional and count bytes. A result that is marked truncated is a part of the file: to read on, add its bytes_returned to the offset.

Paths must be workspace-relative. Absolute paths and parent traversal are refused.
Your ticket's authority decides which local operations are permitted; a denial is final.

Anything outside the sandbox (web, remote APIs, MCP, messaging, cloud, remote git, secrets, etc.) MUST be requested as a capability in plain language.

Return exactly one JSON action:
{"type":"local","operation":"...","arguments":{...}}
{"type":"capability","request":"..."}
{"type":"finish","summary":"...","artifacts":[]}
{"type":"blocked","reason":"..."}
"#;

/// What the worker's model is shown: its ticket and its latest observations, nothing else.
pub open spec fn worker_context(ticket: TicketModel, observations: Seq<Seq<char>>) -> Tree {
    Tree::Object(
        seq![
            ("recent_observations"@, crate::json::text_array(window(observations))),
            ("ticket"@, ticket.tree()),
        ],
    )
}

/// The model request that asks the worker's model for an action.
pub open spec fn action_request(ticket: TicketModel, observations: Seq<Seq<char>>) -> RequestModel {
    crate::model::json_request(
        seq![
            (ModelRole::System, WORKER_PROMPT@),
            (ModelRole::User, worker_context(ticket, observations).text()),
        ],
        (0x3FB9_9999_A000_0000, "0.10000000149011612"@),
    )
}

fn next_action(ticket: &Ticket, observations: &Vec<String>) -> (request: ModelRequest)
    ensures
        request@ == action_request(ticket@, crate::json::texts(observations@)),
{
    let recent = take_window(observations);
    proof {
        reveal_strlit("recent_observations");
        reveal_strlit("ticket");
        crate::ordering::smaller_at("recent_observations"@, "ticket"@, 0);
    }
    let context = object2("recent_observations", strings(&recent), "ticket", ticket.to_json());
    let ghost goal = action_request(ticket@, crate::json::texts(observations@));
    let text = context.to_text();
    let messages = vec![ModelMessage::system(WORKER_PROMPT), ModelMessage::user(text.as_str())];
    let request = ModelRequest::json(messages, double(0x3FB9_9999_A000_0000, "0.10000000149011612"));
    assert(request@.messages =~= goal.messages);
    request
}

// ---- the machine --------------------------------------------------------------------

/// Where a run stands: what is to be done next.
#[derive(Debug)]
pub enum WorkerStage {
    /// The worker's model is to be asked for an action.
    Thinking { prompt: ModelRequest },
    /// The workbench is to run an operation under the ticket's authority.
    Operating { operation: String, arguments: Json, authority: LocalAuthority },
    /// The broker is to be asked for a capability.
    Requesting { request: CapabilityRequest },
    /// Nothing is to be done any more.
    Finished { result: Result<WorkerReport, WorkerError> },
}

/// The model of a stage.
pub enum WorkerStageModel {
    Thinking(RequestModel),
    Operating(Seq<char>, Tree, LocalAuthority),
    Requesting(crate::ids::WorkerId, crate::ids::TicketId, Seq<char>),
    Finished(Result<ReportModel, WorkerErrorModel>),
}

/// The model of a result.
pub open spec fn result_model(result: Result<WorkerReport, WorkerError>) -> Result<
    ReportModel,
    WorkerErrorModel,
> {
    match result {
        Ok(report) => Ok(report@),
        Err(error) => Err(error@),
    }
}

impl View for WorkerStage {
    type V = WorkerStageModel;

    open spec fn view(&self) -> WorkerStageModel {
        match *self {
            WorkerStage::Thinking { prompt } => WorkerStageModel::Thinking(prompt@),
            WorkerStage::Operating { operation, arguments, authority } =>
                WorkerStageModel::Operating(operation@, arguments@, authority),
            WorkerStage::Requesting { request } => WorkerStageModel::Requesting(
                request.worker_id,
                request.ticket_id,
                request.request@,
            ),
            WorkerStage::Finished { result } => WorkerStageModel::Finished(result_model(result)),
        }
    }
}

/// One run of a worker on its ticket.
#[derive(Debug)]
pub struct WorkerRun {
    pub worker_id: WorkerId,
    pub ticket: Ticket,
    pub observations: Vec<String>,
    /// How many more times the model may be asked.
    pub steps_left: usize,
    /// How many replies in a row could not be read.
    pub corrections: usize,
    pub stage: WorkerStage,
}

/// The model of a run.
pub struct RunModel {
    pub worker_id: WorkerId,
    pub ticket: TicketModel,
    pub observations: Seq<Seq<char>>,
    pub steps_left: usize,
    pub corrections: usize,
    pub stage: WorkerStageModel,
}

impl View for WorkerRun {
    type V = RunModel;

    open spec fn view(&self) -> RunModel {
        RunModel {
            worker_id: self.worker_id,
            ticket: self.ticket@,
            observations: crate::json::texts(self.observations@),
            steps_left: self.steps_left,
            corrections: self.corrections,
            stage: self.stage@,
        }
    }
}

/// What came of a stage.
#[derive(Debug)]
pub enum WorkerReply {
    Action(ModelReply<WorkerAction>),
    Local(Result<Json, WorkerError>),
    Capability(Result<CapabilityResult, CapabilityFailure>),
}

/// The model of a reply.
pub enum WorkerReplyModel {
    Action(ActionModel),
    Unreadable(Seq<char>),
    ModelFailed(Seq<char>),
    Local(Tree),
    LocalFailed(WorkerErrorModel),
    Capability(Tree),
    CapabilityFailed(CapabilityFailure),
}

impl View for WorkerReply {
    type V = WorkerReplyModel;

    open spec fn view(&self) -> WorkerReplyModel {
        match *self {
            WorkerReply::Action(ModelReply::Read(action)) => WorkerReplyModel::Action(action@),
            WorkerReply::Action(ModelReply::Unreadable(why)) => WorkerReplyModel::Unreadable(why@),
            WorkerReply::Action(ModelReply::Failed(error)) => WorkerReplyModel::ModelFailed(
                error.text(),
            ),
            WorkerReply::Local(Ok(result)) => WorkerReplyModel::Local(result@),
            WorkerReply::Local(Err(error)) => WorkerReplyModel::LocalFailed(error@),
            WorkerReply::Capability(Ok(result)) => WorkerReplyModel::Capability(result.tree()),
            WorkerReply::Capability(Err(failure)) => WorkerReplyModel::CapabilityFailed(failure),
        }
    }
}

/// Whether a reply is of the kind that a stage waits for.
pub open spec fn answers(stage: WorkerStage, reply: WorkerReply) -> bool {
    match stage {
        WorkerStage::Thinking { .. } => reply is Action,
        WorkerStage::Operating { .. } => reply is Local,
        WorkerStage::Requesting { .. } => reply is Capability,
        WorkerStage::Finished { .. } => false,
    }
}

/// A report of this run: its worker, ticket and conversation are the run's own.
pub open spec fn report_of(
    run: RunModel,
    status: WorkerStatus,
    summary: Seq<char>,
    artifacts: Seq<ArtifactModel>,
) -> ReportModel {
    ReportModel {
        worker_id: run.worker_id,
        ticket_id: run.ticket.id,
        conversation_id: run.ticket.conversation_id,
        status,
        summary,
        artifacts,
        notes: seq![],
    }
}

/// The run asks its model again, unless it has no step left.
pub open spec fn think(run: RunModel) -> RunModel {
    if run.steps_left == 0 {
        RunModel {
            stage: WorkerStageModel::Finished(Err(WorkerErrorModel::StepLimit)),
            ..run
        }
    } else {
        RunModel {
            steps_left: (run.steps_left - 1) as usize,
            stage: WorkerStageModel::Thinking(action_request(run.ticket, run.observations)),
            ..run
        }
    }
}

/// The run takes an observation in and goes on.
pub open spec fn observe(run: RunModel, observation: Tree) -> RunModel {
    think(
        RunModel { observations: run.observations.push(bounded(observation.text())), ..run },
    )
}

/// The run ends.
pub open spec fn end(run: RunModel, result: Result<ReportModel, WorkerErrorModel>) -> RunModel {
    RunModel { stage: WorkerStageModel::Finished(result), ..run }
}

/// The run carries out an action.
pub open spec fn act(run: RunModel, action: ActionModel) -> RunModel {
    let run = RunModel { corrections: 0, ..run };
    match action {
        ActionModel::Local(operation, arguments) => RunModel {
            stage: WorkerStageModel::Operating(
                operation,
                arguments,
                run.ticket.authority.local,
            ),
            ..run
        },
        ActionModel::Capability(request) => RunModel {
            stage: WorkerStageModel::Requesting(run.worker_id, run.ticket.id, request),
            ..run
        },
        ActionModel::Finish(summary, artifacts) => end(
            run,
            Ok(report_of(run, WorkerStatus::Completed, summary, artifacts)),
        ),
        ActionModel::Blocked(reason) => end(
            run,
            Ok(report_of(run, WorkerStatus::Blocked, reason, seq![])),
        ),
    }
}

/// The run takes in a reply that could not be read: it corrects its model a bounded number
/// of times, as far as it has steps left, then the task has failed.
pub open spec fn correct(run: RunModel, why: Seq<char>) -> RunModel {
    if run.corrections >= MAX_CORRECTIONS || run.steps_left == 0 {
        end(
            run,
            Ok(
                report_of(
                    run,
                    WorkerStatus::Failed,
                    "worker output is not an action: "@ + why,
                    seq![],
                ),
            ),
        )
    } else {
        observe(
            RunModel { corrections: (run.corrections + 1) as usize, ..run },
            correction_observation(why),
        )
    }
}

/// The run that follows a run and what came of its stage.
pub open spec fn run_step(run: RunModel, reply: WorkerReplyModel) -> RunModel {
    match (run.stage, reply) {
        (WorkerStageModel::Thinking(_), WorkerReplyModel::Action(action)) => act(run, action),
        (WorkerStageModel::Thinking(_), WorkerReplyModel::Unreadable(why)) => correct(run, why),
        (WorkerStageModel::Thinking(_), WorkerReplyModel::ModelFailed(why)) => end(
            run,
            Err(WorkerErrorModel::Model(why)),
        ),
        (WorkerStageModel::Operating(operation, _, _), WorkerReplyModel::Local(result)) => observe(
            run,
            local_observation(operation, result),
        ),
        // A denial is an observation, not a crash: the model should be able to see the
        // boundary and choose another route or report blocked.
        // An operation that could not be done fails the task by a report; an error is kept
        // for a harness that broke.
        (WorkerStageModel::Operating(operation, _, _), WorkerReplyModel::LocalFailed(error)) =>
            if error is Denied {
                observe(run, denied_observation(operation, error.text()))
            } else if error is Local {
                end(run, Ok(report_of(run, WorkerStatus::Failed, error.text(), seq![])))
            } else {
                end(run, Err(error))
            },
        (WorkerStageModel::Requesting(_, _, _), WorkerReplyModel::Capability(result)) => observe(
            run,
            capability_observation(result),
        ),
        (WorkerStageModel::Requesting(_, _, _), WorkerReplyModel::CapabilityFailed(failure)) =>
            observe(run, failure_observation(failure)),
        _ => run,
    }
}

// ---- the runtime --------------------------------------------------------------------

/// The worker runtime: a model, a way to the broker, a workbench, and a bound on steps.
#[derive(Debug)]
pub struct WorkerRuntime<M, C, W> {
    pub model: Arc<M>,
    pub capabilities: Arc<C>,
    pub workbench: Arc<W>,
    pub max_steps: usize,
}

fn observation_text(observation: Json) -> (out: String)
    ensures
        out@ == bounded(observation@.text()),
{
    bound_observation(observation.to_text())
}

impl WorkerRun {
    /// The run asks its model again, unless it has no step left.
    fn think(self) -> (next: WorkerRun)
        ensures
            next@ == think(self@),
    {
        let mut next = self;
        if next.steps_left == 0 {
            next.stage = WorkerStage::Finished { result: Err(WorkerError::StepLimit) };
        } else {
            next.stage = WorkerStage::Thinking {
                prompt: next_action(&next.ticket, &next.observations),
            };
            next.steps_left = next.steps_left - 1;
        }
        next
    }

    /// The run takes an observation in and goes on.
    fn observe(self, observation: Json) -> (next: WorkerRun)
        ensures
            next@ == observe(self@, observation@),
    {
        let ghost before = self@;
        let ghost seen = bounded(observation@.text());
        let mut run = self;
        run.observations.push(observation_text(observation));
        assert(run@.observations =~= before.observations.push(seen));
        run.think()
    }

    /// The run ends.
    fn end(self, result: Result<WorkerReport, WorkerError>) -> (next: WorkerRun)
        ensures
            next@ == end(self@, result_model(result)),
    {
        let mut next = self;
        next.stage = WorkerStage::Finished { result };
        next
    }

    /// A report of this run.
    fn report(&self, status: WorkerStatus, summary: String, artifacts: Vec<ArtifactRef>) -> (report:
        WorkerReport)
        ensures
            report@ == report_of(
                self@,
                status,
                summary@,
                crate::protocol::artifacts_model(artifacts@),
            ),
    {
        let report = WorkerReport {
            worker_id: self.worker_id,
            ticket_id: self.ticket.id,
            conversation_id: self.ticket.conversation_id,
            status,
            summary,
            artifacts,
            notes: Vec::new(),
        };
        assert(report@.notes =~= seq![]);
        report
    }

    /// The run carries out an action.
    fn act(self, action: WorkerAction) -> (next: WorkerRun)
        ensures
            next@ == act(self@, action@),
    {
        let mut run = self;
        run.corrections = 0;
        match action {
            WorkerAction::Local { operation, arguments } => {
                let authority = run.ticket.authority.local;
                run.stage = WorkerStage::Operating { operation, arguments, authority };
                run
            },
            WorkerAction::Capability { request } => {
                run.stage = WorkerStage::Requesting {
                    request: CapabilityRequest {
                        worker_id: run.worker_id,
                        ticket_id: run.ticket.id,
                        request,
                    },
                };
                run
            },
            WorkerAction::Finish { summary, artifacts } => {
                let report = run.report(WorkerStatus::Completed, summary, artifacts);
                run.end(Ok(report))
            },
            WorkerAction::Blocked { reason } => {
                let report = run.report(WorkerStatus::Blocked, reason, Vec::new());
                assert(report@.artifacts =~= seq![]);
                run.end(Ok(report))
            },
        }
    }

    /// The run takes in a reply that could not be read.
    fn correct(self, why: String) -> (next: WorkerRun)
        ensures
            next@ == correct(self@, why@),
    {
        if self.corrections >= MAX_CORRECTIONS || self.steps_left == 0 {
            let summary = labelled("worker output is not an action: ", why.as_str());
            let report = self.report(WorkerStatus::Failed, summary, Vec::new());
            assert(report@.artifacts =~= seq![]);
            self.end(Ok(report))
        } else {
            let mut run = self;
            run.corrections = run.corrections + 1;
            run.observe(object1("invalid_action", Json::String(why)))
        }
    }
}

impl<M, C, W> WorkerRuntime<M, C, W> {
    pub fn new(model: Arc<M>, capabilities: Arc<C>, workbench: Arc<W>) -> (runtime: Self)
        ensures
            runtime.model == model,
            runtime.capabilities == capabilities,
            runtime.workbench == workbench,
            runtime.max_steps == DEFAULT_MAX_STEPS == 128,
    {
        WorkerRuntime { model, capabilities, workbench, max_steps: DEFAULT_MAX_STEPS }
    }

    pub fn with_max_steps(self, max_steps: usize) -> (runtime: Self)
        ensures
            runtime == (WorkerRuntime { max_steps, ..self }),
    {
        WorkerRuntime { max_steps, ..self }
    }

    /// Starts the run of a worker on its ticket.
    ///
    /// The worker's identity is assigned by the dispatcher, because the broker binds
    /// authority to it.
    pub fn run(&self, worker_id: WorkerId, ticket: Ticket) -> (run: WorkerRun)
        ensures
            run@ == think(
                RunModel {
                    worker_id,
                    ticket: ticket@,
                    observations: seq![],
                    steps_left: self.max_steps,
                    corrections: 0,
                    stage: WorkerStageModel::Finished(Err(WorkerErrorModel::StepLimit)),
                },
            ),
    {
        let run = WorkerRun {
            worker_id,
            ticket,
            observations: Vec::new(),
            steps_left: self.max_steps,
            corrections: 0,
            stage: WorkerStage::Finished { result: Err(WorkerError::StepLimit) },
        };
        assert(run@.observations =~= seq![]);
        run.think()
    }

    /// Carries a run on with what came of its stage.
    pub fn step(&self, run: WorkerRun, reply: WorkerReply) -> (next: WorkerRun)
        requires
            answers(run.stage, reply),
        ensures
            next@ == run_step(run@, reply@),
    {
        match reply {
            WorkerReply::Action(ModelReply::Read(action)) => run.act(action),
            WorkerReply::Action(ModelReply::Unreadable(why)) => run.correct(why),
            WorkerReply::Action(ModelReply::Failed(error)) => {
                run.end(Err(WorkerError::Model(error.message())))
            },
            WorkerReply::Local(result) => self.operated(run, result),
            WorkerReply::Capability(Ok(result)) => {
                let observation = object1("capability_result", result.to_json());
                run.observe(observation)
            },
            WorkerReply::Capability(Err(failure)) => {
                let observation = object1("capability_error", string(failure.code()));
                run.observe(observation)
            },
        }
    }

    /// Carries a run on with what came of a local operation.
    fn operated(&self, run: WorkerRun, result: Result<Json, WorkerError>) -> (next: WorkerRun)
        requires
            run.stage is Operating,
        ensures
            next@ == run_step(run@, WorkerReply::Local(result)@),
    {
        let operation = match &run.stage {
            WorkerStage::Operating { operation, .. } => string(operation.as_str()),
            _ => Json::Null,
        };
        match result {
            Ok(result) => {
                proof {
                    reveal_strlit("local_operation");
                    reveal_strlit("result");
                    crate::ordering::smaller_at("local_operation"@, "result"@, 0);
                }
                let observation = object2("local_operation", operation, "result", result);
                run.observe(observation)
            },
            Err(error) => {
                if matches!(error, WorkerError::Denied(_)) {
                    let why = error.message();
                    let denied = string(why.as_str());
                    proof {
                        reveal_strlit("denied");
                        reveal_strlit("local_operation");
                        crate::ordering::smaller_at("denied"@, "local_operation"@, 0);
                    }
                    let observation = object2("denied", denied, "local_operation", operation);
                    run.observe(observation)
                } else if matches!(error, WorkerError::Local(_)) {
                    let report = run.report(WorkerStatus::Failed, error.message(), Vec::new());
                    assert(report@.artifacts =~= seq![]);
                    run.end(Ok(report))
                } else {
                    run.end(Err(error))
                }
            },
        }
    }
}

// ---- laws ---------------------------------------------------------------------------

/// A run keeps its worker and its ticket, and whatever it reports names them.
pub proof fn a_report_names_its_run(run: RunModel, reply: WorkerReplyModel)
    requires
        !(run.stage is Finished),
    ensures
        run_step(run, reply).worker_id == run.worker_id,
        run_step(run, reply).ticket == run.ticket,
        run_step(run, reply).stage matches WorkerStageModel::Finished(Ok(report)) ==> {
            &&& report.worker_id == run.worker_id
            &&& report.ticket_id == run.ticket.id
            &&& report.conversation_id == run.ticket.conversation_id
        },
{
}

/// Every local operation runs under the ticket's own local authority, and every capability
/// is requested under the run's own identity and ticket.
pub proof fn a_run_acts_under_its_own_authority(run: RunModel, reply: WorkerReplyModel)
    requires
        run.stage is Thinking,
    ensures
        run_step(run, reply).stage matches WorkerStageModel::Operating(_, _, authority) ==> authority
            == run.ticket.authority.local,
        run_step(run, reply).stage matches WorkerStageModel::Requesting(worker, ticket, _) ==> worker
            == run.worker_id && ticket == run.ticket.id,
{
}

/// A denial and a failed capability are observations: they end no run that has a step
/// left, and the worker sees of a failed capability its code alone.
pub proof fn refusals_are_observed(
    run: RunModel,
    why: Seq<char>,
    failure: CapabilityFailure,
)
    requires
        run.steps_left > 0,
    ensures
        run.stage matches WorkerStageModel::Operating(operation, _, _) ==> {
            let next = run_step(
                run,
                WorkerReplyModel::LocalFailed(WorkerErrorModel::Denied(why)),
            );
            &&& next.stage is Thinking
            &&& next.observations == run.observations.push(
                bounded(
                    denied_observation(operation, WorkerErrorModel::Denied(why).text()).text(),
                ),
            )
        },
        run.stage is Requesting ==> {
            let next = run_step(run, WorkerReplyModel::CapabilityFailed(failure));
            &&& next.stage is Thinking
            &&& next.observations == run.observations.push(
                bounded(failure_observation(failure).text()),
            )
        },
{
}

/// An unreadable reply is corrected while corrections and steps are left, and then fails
/// the task by a report, not by an error; a readable one starts the count anew.
pub proof fn unreadable_replies_are_corrected_then_fail_the_task(
    run: RunModel,
    why: Seq<char>,
    action: ActionModel,
)
    requires
        run.stage is Thinking,
        run.corrections <= MAX_CORRECTIONS,
    ensures
        ({
            let next = run_step(run, WorkerReplyModel::Unreadable(why));
            &&& next.corrections <= MAX_CORRECTIONS
            &&& run.corrections < MAX_CORRECTIONS && run.steps_left > 0 ==> next.stage is Thinking
                && next.corrections == run.corrections + 1 && next.observations
                == run.observations.push(bounded(correction_observation(why).text()))
            &&& run.corrections == MAX_CORRECTIONS || run.steps_left == 0 ==> (next.stage matches
                WorkerStageModel::Finished(Ok(report)) && report.status is Failed
                && report.ticket_id == run.ticket.id && report.conversation_id
                == run.ticket.conversation_id)
        }),
        run_step(run, WorkerReplyModel::Action(action)).corrections == 0,
{
}

/// A local operation that could not be done fails the task: the run ends with a report of
/// its ticket and conversation whose status is failed and whose summary says why, not with
/// an error.
pub proof fn a_failed_operation_fails_the_task(run: RunModel, why: Seq<char>)
    requires
        run.stage is Operating,
    ensures
        run_step(
            run,
            WorkerReplyModel::LocalFailed(WorkerErrorModel::Local(why)),
        ).stage matches WorkerStageModel::Finished(Ok(report)) && report.status is Failed
            && report.worker_id == run.worker_id && report.ticket_id == run.ticket.id
            && report.conversation_id == run.ticket.conversation_id && report.summary
            == WorkerErrorModel::Local(why).text(),
{
}

/// A run that is under way ends with an error only if the harness broke: its model could
/// not be reached, its workbench neither ran nor refused nor failed the operation, or its
/// steps are used up.
pub proof fn only_a_broken_harness_gives_an_error(run: RunModel, reply: WorkerReplyModel)
    requires
        !(run.stage is Finished),
    ensures
        run_step(run, reply).stage matches WorkerStageModel::Finished(Err(error)) ==> {
            ||| reply matches WorkerReplyModel::ModelFailed(why) && error
                == WorkerErrorModel::Model(why)
            ||| reply == WorkerReplyModel::LocalFailed(error) && !(error is Denied) && !(
            error is Local)
            ||| error is StepLimit && run.steps_left == 0
        },
{
}

/// How often a run asks its model on the way through a sequence of replies.
pub open spec fn asked_again(run: RunModel, replies: Seq<WorkerReplyModel>) -> nat
    decreases replies.len(),
{
    if replies.len() == 0 {
        0
    } else {
        let next = run_step(run, replies[0]);
        (if next != run && next.stage is Thinking {
            1nat
        } else {
            0nat
        }) + asked_again(next, replies.drop_first())
    }
}

proof fn steps_bound_the_questions(run: RunModel, replies: Seq<WorkerReplyModel>)
    ensures
        asked_again(run, replies) <= run.steps_left,
    decreases replies.len(),
{
    if replies.len() > 0 {
        steps_bound_the_questions(run_step(run, replies[0]), replies.drop_first());
    }
}

/// A run asks its model at most as often as its runtime permits, whatever comes back.
pub proof fn a_run_is_bounded(start: RunModel, replies: Seq<WorkerReplyModel>)
    ensures
        (if think(start).stage is Thinking {
            1nat
        } else {
            0nat
        }) + asked_again(think(start), replies) <= start.steps_left,
{
    steps_bound_the_questions(think(start), replies);
}

/// The mark takes the bytes that are set aside for it.
proof fn the_mark_has_its_bytes()
    ensures
        crate::text::byte_len(CUT_MARK@) == CUT_MARK_BYTES,
{
    reveal_strlit(" [truncated]");
    reveal_with_fuel(crate::text::byte_len, 13);
    assert(CUT_MARK@.len() == 12);
    let s = CUT_MARK@;
    assert(s.drop_first().len() == 11);
}

/// One observation never passes its cap, and is cut only where it would.
pub proof fn observations_are_bounded(observation: Seq<char>)
    ensures
        crate::text::byte_len(bounded(observation)) <= MAX_OBSERVATION_BYTES,
        crate::text::byte_len(observation) <= MAX_OBSERVATION_BYTES ==> bounded(observation)
            == observation,
{
    let room = (MAX_OBSERVATION_BYTES - CUT_MARK_BYTES) as nat;
    crate::text::clip_is_the_longest_prefix_within(observation, room);
    crate::text::byte_len_concat(crate::text::clip(observation, room), CUT_MARK@);
    the_mark_has_its_bytes();
}

proof fn a_window_keeps_its_limits(observations: Seq<Seq<char>>, count: nat, budget: nat)
    ensures
        window_len(observations, count, budget) <= observations.len(),
        window_len(observations, count, budget) <= count,
        total_bytes(
            observations.skip(observations.len() - window_len(observations, count, budget)),
        ) <= budget,
        ({
            let n = window_len(observations, count, budget);
            n < observations.len() && n < count ==> total_bytes(
                observations.skip(observations.len() - n - 1),
            ) > budget
        }),
    decreases observations.len(),
{
    let n = window_len(observations, count, budget);
    if observations.len() == 0 || count == 0 {
        assert(observations.skip(observations.len() as int) =~= seq![]);
    } else if crate::text::byte_len(observations.last()) > budget {
        assert(observations.skip(observations.len() as int) =~= seq![]);
        let tail = observations.skip(observations.len() - 1);
        assert(tail.drop_last() =~= seq![]);
        assert(tail.last() == observations.last());
        assert(total_bytes(tail.drop_last()) == 0);
    } else {
        let rest = observations.drop_last();
        let left = (budget - crate::text::byte_len(observations.last())) as nat;
        a_window_keeps_its_limits(rest, (count - 1) as nat, left);
        let m = window_len(rest, (count - 1) as nat, left);
        assert(n == m + 1);
        let shown = observations.skip(observations.len() - n);
        assert(shown.drop_last() =~= rest.skip(rest.len() - m));
        assert(shown.last() == observations.last());
        if n < observations.len() && n < count {
            let more = observations.skip(observations.len() - n - 1);
            assert(more.drop_last() =~= rest.skip(rest.len() - m - 1));
            assert(more.last() == observations.last());
        }
    }
}

/// The worker's context holds the latest observations, as many as fit its limits: never
/// more than the count or the bytes, and one more would pass one of them.
pub proof fn the_context_is_bounded(observations: Seq<Seq<char>>)
    ensures
        WINDOW_COUNT == 16,
        WINDOW_BYTES == 131_072,
        MAX_OBSERVATION_BYTES == 32_768,
        window(observations).len() <= WINDOW_COUNT,
        total_bytes(window(observations)) <= WINDOW_BYTES,
        window(observations) == observations.skip(
            observations.len() - window(observations).len(),
        ),
        window(observations).len() < observations.len() && window(observations).len()
            < WINDOW_COUNT ==> total_bytes(
            observations.skip(observations.len() - window(observations).len() - 1),
        ) > WINDOW_BYTES,
{
    a_window_keeps_its_limits(observations, WINDOW_COUNT as nat, WINDOW_BYTES as nat);
}

/// The latest observation is always in the worker's context.
pub proof fn the_latest_observation_is_shown(observations: Seq<Seq<char>>, latest: Seq<char>)
    ensures
        window(observations.push(bounded(latest))).len() > 0,
        window(observations.push(bounded(latest))).last() == bounded(latest),
{
    let all = observations.push(bounded(latest));
    observations_are_bounded(latest);
    a_window_keeps_its_limits(all, WINDOW_COUNT as nat, WINDOW_BYTES as nat);
    assert(all.last() == bounded(latest));
}

/// A finished task is reported as completed with the action's own summary and artifacts,
/// whatever they are, and a blocked one as blocked with its reason; the report names the
/// run's worker, ticket and conversation and carries no notes.
pub proof fn a_final_action_is_reported_as_such(run: RunModel, action: ActionModel)
    requires
        run.stage is Thinking,
    ensures
        ({
            let next = run_step(run, WorkerReplyModel::Action(action));
            &&& action matches ActionModel::Finish(summary, artifacts) ==> (next.stage matches
                WorkerStageModel::Finished(Ok(report)) && report.status is Completed
                && report.summary == summary && report.artifacts == artifacts && report.notes.len()
                == 0 && report.worker_id == run.worker_id && report.ticket_id == run.ticket.id
                && report.conversation_id == run.ticket.conversation_id)
            &&& action matches ActionModel::Blocked(reason) ==> (next.stage matches
                WorkerStageModel::Finished(Ok(report)) && report.status is Blocked && report.summary
                == reason && report.artifacts.len() == 0 && report.notes.len() == 0
                && report.worker_id == run.worker_id && report.ticket_id == run.ticket.id
                && report.conversation_id == run.ticket.conversation_id)
        }),
{
}

/// A run that is under way is reported as completed only by a finishing action, as blocked
/// only by a blocked one, and as failed only after an unreadable reply or an operation that
/// could not be done.
pub proof fn a_status_has_its_own_cause(run: RunModel, reply: WorkerReplyModel)
    requires
        !(run.stage is Finished),
    ensures
        run_step(run, reply).stage matches WorkerStageModel::Finished(Ok(report)) ==> {
            &&& report.status is Completed <==> (reply matches WorkerReplyModel::Action(action)
                && action is Finish)
            &&& report.status is Blocked <==> (reply matches WorkerReplyModel::Action(action)
                && action is Blocked)
            &&& report.status is Failed <==> (reply is Unreadable || (reply matches
                WorkerReplyModel::LocalFailed(error) && error is Local))
        },
{
}

/// An operation goes to the workbench, and a request to the broker, as the model asked for
/// it; neither ends the run, uses a step up or is observed yet.
pub proof fn an_action_is_passed_on_as_asked(
    run: RunModel,
    operation: Seq<char>,
    arguments: Tree,
    wanted: Seq<char>,
)
    requires
        run.stage is Thinking,
    ensures
        ({
            let next = run_step(
                run,
                WorkerReplyModel::Action(ActionModel::Local(operation, arguments)),
            );
            next.stage == WorkerStageModel::Operating(
                operation,
                arguments,
                run.ticket.authority.local,
            ) && next.observations == run.observations && next.steps_left == run.steps_left
        }),
        ({
            let next = run_step(run, WorkerReplyModel::Action(ActionModel::Capability(wanted)));
            next.stage == WorkerStageModel::Requesting(run.worker_id, run.ticket.id, wanted)
                && next.observations == run.observations && next.steps_left == run.steps_left
        }),
{
}

/// The model is asked with its charter and, as JSON, the run's ticket and its latest
/// observations, for one JSON object; that takes one step and changes nothing else. A run
/// without a step left ends at its limit.
pub proof fn the_model_is_asked_about_its_ticket(run: RunModel, i: int)
    ensures
        think(run).ticket == run.ticket,
        think(run).worker_id == run.worker_id,
        think(run).observations == run.observations,
        think(run).corrections == run.corrections,
        run.steps_left == 0 ==> think(run).stage == WorkerStageModel::Finished(
            Err(WorkerErrorModel::StepLimit),
        ),
        run.steps_left > 0 ==> think(run).steps_left == run.steps_left - 1 && (think(run).stage
            matches WorkerStageModel::Thinking(request) && request.messages.len() == 2
            && request.messages[0] == (ModelRole::System, WORKER_PROMPT@) && request.messages[1].0
            is User && request.output is JsonObject && request.max_output_tokens is None
            && request.temperature.0 == 0x3FB9_9999_A000_0000 && exists|context: Tree| #[trigger]
            context.text() == request.messages[1].1 && context.get("ticket"@) == Some(
                run.ticket.tree(),
            ) && (context.get("recent_observations"@) matches Some(Tree::Array(shown))
                && shown.len() == window(run.observations).len() && (0 <= i < shown.len()
                ==> shown[i] == Tree::Text(window(run.observations)[i])))),
{
    reveal_strlit("recent_observations");
    reveal_strlit("ticket");
    assert("recent_observations"@.len() == 19 && "ticket"@.len() == 6);
    let context = worker_context(run.ticket, run.observations);
    let members = context->Object_0;
    crate::json::members_are_read_by_name(members, 0, ""@);
    crate::json::members_are_read_by_name(members, 1, ""@);
    assert(action_request(run.ticket, run.observations).messages[1].1 == context.text());
}

proof fn observations_hold_what_they_tell(operation: Seq<char>, result: Tree, why: Seq<char>)
    ensures
        local_observation(operation, result).get("local_operation"@) == Some(Tree::Text(operation)),
        local_observation(operation, result).get("result"@) == Some(result),
        denied_observation(operation, why).get("local_operation"@) == Some(Tree::Text(operation)),
        denied_observation(operation, why).get("denied"@) == Some(Tree::Text(why)),
        capability_observation(result).get("capability_result"@) == Some(result),
{
    reveal_strlit("local_operation");
    reveal_strlit("result");
    reveal_strlit("denied");
    assert("local_operation"@.len() == 15);
    assert("result"@.len() == 6 && "denied"@.len() == 6);
    let ran = local_observation(operation, result)->Object_0;
    crate::json::members_are_read_by_name(ran, 0, ""@);
    crate::json::members_are_read_by_name(ran, 1, ""@);
    let denied = denied_observation(operation, why)->Object_0;
    crate::json::members_are_read_by_name(denied, 0, ""@);
    crate::json::members_are_read_by_name(denied, 1, ""@);
    crate::json::members_are_read_by_name(capability_observation(result)->Object_0, 0, ""@);
}

/// What came of an operation that ran is the run's next observation: the operation with its
/// result.
pub proof fn a_result_is_observed(run: RunModel, result: Tree)
    requires
        run.stage is Operating,
    ensures
        ({
            let next = run_step(run, WorkerReplyModel::Local(result));
            exists|seen: Tree|
                seen.get("local_operation"@) == Some(Tree::Text(run.stage->Operating_0))
                    && seen.get("result"@) == Some(result) && next.observations
                    == run.observations.push(bounded(#[trigger] seen.text()))
        }),
{
    let operation = run.stage->Operating_0;
    observations_hold_what_they_tell(operation, result, Seq::empty());
    let seen = local_observation(operation, result);
    let told = bounded(seen.text());
    assert(run_step(run, WorkerReplyModel::Local(result)).observations == run.observations.push(
        told,
    ));
}

/// What came of an operation that was denied is the run's next observation: the operation
/// with the denial.
pub proof fn a_denial_is_observed(run: RunModel, why: Seq<char>)
    requires
        run.stage is Operating,
    ensures
        ({
            let denied = WorkerReplyModel::LocalFailed(WorkerErrorModel::Denied(why));
            exists|seen: Tree|
                seen.get("local_operation"@) == Some(Tree::Text(run.stage->Operating_0))
                    && seen.get("denied"@) == Some(Tree::Text("local authority denied: "@ + why))
                    && run_step(run, denied).observations == run.observations.push(
                    bounded(#[trigger] seen.text()),
                )
        }),
{
    let operation = run.stage->Operating_0;
    let message = "local authority denied: "@ + why;
    observations_hold_what_they_tell(operation, Tree::Null, message);
    let seen = denied_observation(operation, message);
    let told = bounded(seen.text());
    let denied = WorkerReplyModel::LocalFailed(WorkerErrorModel::Denied(why));
    assert(run_step(run, denied).observations == run.observations.push(told));
}

/// What came of a request is the run's next observation: the capability's result, or its
/// failure's code and nothing else.
pub proof fn what_came_of_a_request_is_observed(
    run: RunModel,
    result: Tree,
    failure: CapabilityFailure,
)
    requires
        run.stage is Requesting,
    ensures
        ({
            let next = run_step(run, WorkerReplyModel::Capability(result));
            exists|seen: Tree|
                seen.get("capability_result"@) == Some(result) && next.observations
                    == run.observations.push(bounded(#[trigger] seen.text()))
        }),
        ({
            let next = run_step(run, WorkerReplyModel::CapabilityFailed(failure));
            let code = match failure {
                CapabilityFailure::Denied => "CAPABILITY_DENIED"@,
                CapabilityFailure::Gap => "CAPABILITY_GAP"@,
                CapabilityFailure::TemporarilyUnavailable => "CAPABILITY_TEMPORARILY_UNAVAILABLE"@,
                CapabilityFailure::RequestNotUnderstood => "CAPABILITY_REQUEST_NOT_UNDERSTOOD"@,
                CapabilityFailure::InvalidArguments => "CAPABILITY_ARGUMENTS_INVALID"@,
            };
            next.observations == run.observations.push(
                bounded(Tree::Object(seq![("capability_error"@, Tree::Text(code))]).text()),
            )
        }),
{
    observations_hold_what_they_tell(Seq::empty(), result, Seq::empty());
    let seen = capability_observation(result);
    let told = bounded(seen.text());
    assert(run_step(run, WorkerReplyModel::Capability(result)).observations
        == run.observations.push(told));
}

/// A reply that could not be read is corrected by telling the model why; the report that
/// ends the corrections says why as well.
pub proof fn a_correction_says_why(run: RunModel, why: Seq<char>)
    requires
        run.stage is Thinking,
    ensures
        ({
            let next = run_step(run, WorkerReplyModel::Unreadable(why));
            &&& run.corrections < 3 && run.steps_left > 0 ==> next.observations
                == run.observations.push(
                bounded(Tree::Object(seq![("invalid_action"@, Tree::Text(why))]).text()),
            ) && next.corrections == run.corrections + 1 && next.steps_left == run.steps_left - 1
            &&& run.corrections >= 3 || run.steps_left == 0 ==> (next.stage matches
                WorkerStageModel::Finished(Ok(report)) && report.status is Failed && report.summary
                == "worker output is not an action: "@ + why && report.artifacts.len() == 0)
        }),
{
}

/// An observation that passes its cap keeps its beginning, as much of it as fits beside the
/// mark, and ends with the mark.
pub proof fn a_cut_observation_keeps_its_beginning(observation: Seq<char>)
    requires
        crate::text::byte_len(observation) > MAX_OBSERVATION_BYTES,
    ensures
        ({
            let kept = bounded(observation).len() - CUT_MARK@.len();
            &&& 0 <= kept < observation.len()
            &&& bounded(observation).take(kept) == observation.take(kept)
            &&& bounded(observation).skip(kept) == CUT_MARK@
            &&& crate::text::byte_len(observation.take(kept)) + crate::text::char_width(
                observation[kept],
            ) + crate::text::byte_len(CUT_MARK@) > MAX_OBSERVATION_BYTES
        }),
{
    let room = (MAX_OBSERVATION_BYTES - CUT_MARK_BYTES) as nat;
    crate::text::clip_is_the_longest_prefix_within(observation, room);
    the_mark_has_its_bytes();
    let k = crate::text::clip_len(observation, room) as int;
    if k == observation.len() {
        assert(observation.take(k) =~= observation);
    }
    assert(bounded(observation).take(k) =~= observation.take(k));
    assert(bounded(observation).skip(k) =~= CUT_MARK@);
}

/// What came of a stage is taken as it came: an action with everything it holds, a failed
/// model by its message, an unreadable reply by the reason, and a result by its contents.
pub proof fn replies_are_taken_as_they_came(
    operation: String,
    arguments: Json,
    text: String,
    artifacts: Vec<ArtifactRef>,
    failure: crate::model::ModelError,
    error: WorkerError,
    result: CapabilityResult,
    refused: CapabilityFailure,
)
    ensures
        WorkerReply::Action(ModelReply::Read(WorkerAction::Local { operation, arguments }))@
            == WorkerReplyModel::Action(ActionModel::Local(operation@, arguments@)),
        WorkerReply::Action(ModelReply::Read(WorkerAction::Capability { request: text }))@
            == WorkerReplyModel::Action(ActionModel::Capability(text@)),
        WorkerReply::Action(ModelReply::Read(WorkerAction::Blocked { reason: text }))@
            == WorkerReplyModel::Action(ActionModel::Blocked(text@)),
        WorkerReply::Action(
            ModelReply::Read(WorkerAction::Finish { summary: text, artifacts }),
        )@ matches WorkerReplyModel::Action(ActionModel::Finish(summary, found)) && summary
            == text@ && found.len() == artifacts@.len() && forall|i: int|
            0 <= i < found.len() ==> #[trigger] found[i] == (
                artifacts@[i].name@,
                artifacts@[i].uri@,
            ),
        WorkerReply::Action(ModelReply::Unreadable(text))@ == WorkerReplyModel::Unreadable(text@),
        WorkerReply::Action(ModelReply::Failed(failure))@ == WorkerReplyModel::ModelFailed(
            failure.text(),
        ),
        WorkerReply::Local(Ok(arguments))@ == WorkerReplyModel::Local(arguments@),
        WorkerReply::Local(Err(error))@ == WorkerReplyModel::LocalFailed(error@),
        WorkerReply::Capability(Err(refused))@ == WorkerReplyModel::CapabilityFailed(refused),
        WorkerReply::Capability(Ok(result))@ == WorkerReplyModel::Capability(
            crate::protocol::result_tree(result.capability@, result.data@, result.metadata@),
        ),
{
}

/// After whatever it observed, a run asks its model again with that observation behind the
/// earlier ones, or ends at its limit: its worker, its ticket and its count of corrections
/// stay. A broken harness ends it with the error as it came.
pub proof fn a_run_goes_on_after_an_observation(
    run: RunModel,
    result: Tree,
    why: Seq<char>,
    error: WorkerErrorModel,
    failure: CapabilityFailure,
    reply: WorkerReplyModel,
)
    requires
        reply == WorkerReplyModel::Local(result) || reply == WorkerReplyModel::LocalFailed(
            WorkerErrorModel::Denied(why),
        ) ==> run.stage is Operating,
        reply == WorkerReplyModel::Capability(result) || reply
            == WorkerReplyModel::CapabilityFailed(failure) ==> run.stage is Requesting,
    ensures
        ({
            let next = run_step(run, reply);
            let observed = reply == WorkerReplyModel::Local(result) || reply
                == WorkerReplyModel::LocalFailed(WorkerErrorModel::Denied(why)) || reply
                == WorkerReplyModel::Capability(result) || reply
                == WorkerReplyModel::CapabilityFailed(failure);
            &&& observed ==> next.observations.len() == run.observations.len() + 1
                && next.observations.drop_last() == run.observations && next == think(
                RunModel { observations: next.observations, ..run },
            )
            &&& run.stage is Thinking && reply == WorkerReplyModel::ModelFailed(why) ==> next.stage
                == WorkerStageModel::Finished(Err(WorkerErrorModel::Model(why)))
            &&& run.stage is Operating && reply == WorkerReplyModel::LocalFailed(error) && !(
            error is Denied) && !(error is Local) ==> next.stage == WorkerStageModel::Finished(
                Err(error),
            )
        }),
{
    let next = run_step(run, reply);
    assert(run.observations.push(next.observations.last()).drop_last() =~= run.observations);
}

/// A run stands for exactly what it holds.
pub proof fn a_run_stands_for_what_it_holds(run: WorkerRun, i: int)
    ensures
        run@.worker_id == run.worker_id,
        run@.ticket == run.ticket@,
        run@.steps_left == run.steps_left,
        run@.corrections == run.corrections,
        run@.observations.len() == run.observations@.len(),
        0 <= i < run.observations@.len() ==> run@.observations[i] == run.observations@[i]@,
        run.stage matches WorkerStage::Thinking { prompt } ==> run@.stage
            == WorkerStageModel::Thinking(prompt@),
        run.stage matches WorkerStage::Operating { operation, arguments, authority } ==> run@.stage
            == WorkerStageModel::Operating(operation@, arguments@, authority),
        run.stage matches WorkerStage::Requesting { request } ==> run@.stage
            == WorkerStageModel::Requesting(
            request.worker_id,
            request.ticket_id,
            request.request@,
        ),
        run.stage matches WorkerStage::Finished { result: Ok(report) } ==> run@.stage
            == WorkerStageModel::Finished(Ok(report@)),
        run.stage matches WorkerStage::Finished { result: Err(error) } ==> run@.stage
            == WorkerStageModel::Finished(Err(error@)),
{
}

/// A step on a finishing action ends the run with a report of status completed that has the
/// action's summary and artifacts; a step on a blocked one with status blocked and the reason.
pub proof fn a_step_reports_the_final_action<M, C, W>(
    runtime: WorkerRuntime<M, C, W>,
    run: WorkerRun,
    text: String,
    artifacts: Vec<ArtifactRef>,
    next: WorkerRun,
)
    requires
        run.stage is Thinking,
    ensures
        call_ensures(
            WorkerRuntime::<M, C, W>::step,
            (
                &runtime,
                run,
                WorkerReply::Action(
                    ModelReply::Read(WorkerAction::Finish { summary: text, artifacts }),
                ),
            ),
            next,
        ) ==> (next.stage matches WorkerStage::Finished { result: Ok(report) } && report.status
            is Completed && report.summary@ == text@ && report.worker_id == run.worker_id
            && report.ticket_id == run.ticket.id && report.conversation_id
            == run.ticket.conversation_id && report.notes@.len() == 0 && report.artifacts@.len()
            == artifacts@.len() && forall|i: int|
            0 <= i < artifacts@.len() ==> (#[trigger] report.artifacts@[i]).name@
                == artifacts@[i].name@ && report.artifacts@[i].uri@ == artifacts@[i].uri@),
        call_ensures(
            WorkerRuntime::<M, C, W>::step,
            (
                &runtime,
                run,
                WorkerReply::Action(ModelReply::Read(WorkerAction::Blocked { reason: text })),
            ),
            next,
        ) ==> (next.stage matches WorkerStage::Finished { result: Ok(report) } && report.status
            is Blocked && report.summary@ == text@ && report.artifacts@.len() == 0
            && report.ticket_id == run.ticket.id),
{
    let told = crate::protocol::artifacts_model(artifacts@);
    let finish = ActionModel::Finish(text@, told);
    a_final_action_is_reported_as_such(run@, finish);
    a_final_action_is_reported_as_such(run@, ActionModel::Blocked(text@));
    if let WorkerStage::Finished { result: Ok(report) } = next.stage {
        assert(next.stage@ == WorkerStageModel::Finished(Ok(report@)));
        assert(report@.artifacts.len() == report.artifacts@.len());
        assert(report@.notes.len() == report.notes@.len());
        if report@.artifacts == told {
            assert forall|i: int| 0 <= i < artifacts@.len() implies (
            #[trigger] report.artifacts@[i]).name@ == artifacts@[i].name@
                && report.artifacts@[i].uri@ == artifacts@[i].uri@ by {
                assert(report@.artifacts[i] == (
                    report.artifacts@[i].name@,
                    report.artifacts@[i].uri@,
                ));
                assert(told[i] == (artifacts@[i].name@, artifacts@[i].uri@));
            }
        }
    }
}

/// A run starts with its own worker and ticket, without observations, and asks its model,
/// which takes one of the runtime's steps; without steps it ends at its limit.
pub proof fn a_run_starts_on_its_ticket<M, C, W>(
    runtime: WorkerRuntime<M, C, W>,
    worker_id: WorkerId,
    ticket: Ticket,
    run: WorkerRun,
)
    requires
        call_ensures(WorkerRuntime::<M, C, W>::run, (&runtime, worker_id, ticket), run),
    ensures
        run.worker_id == worker_id,
        run.ticket@ == ticket@,
        run.observations@.len() == 0,
        run.corrections == 0,
        runtime.max_steps > 0 ==> run.stage is Thinking && run.steps_left == runtime.max_steps - 1,
        runtime.max_steps == 0 ==> run@.stage == WorkerStageModel::Finished(
            Err(WorkerErrorModel::StepLimit),
        ),
{
    assert(run@.observations.len() == run.observations@.len());
}

} // verus!
