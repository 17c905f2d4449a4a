//! Shared tickets, authority and result types.

use vstd::prelude::*;
use vstd::string::*;

use crate::capability_set::{copy_names, CapabilitySet};
use crate::ids::{ConversationId, TicketId, WorkerId};
use crate::json::{identifier, member, object, object2, object3, string, strings, truth, Json};

#[allow(unused_imports)]
use crate::json::Tree;

verus! {

// ---- authority ----------------------------------------------------------------------

#[derive(Debug, Clone, Copy, PartialEq, Eq, Structural)]
pub struct LocalAuthority {
    pub read_workspace: bool,
    pub write_workspace: bool,
    pub execute_local: bool,
}

impl Default for LocalAuthority {
    fn default() -> (made: Self)
        ensures
            made.read_workspace,
            !made.write_workspace,
            !made.execute_local,
    {
        LocalAuthority { read_workspace: true, write_workspace: false, execute_local: false }
    }
}

impl LocalAuthority {
    /// As JSON.
    pub open spec fn tree(self) -> Tree {
        Tree::Object(
            seq![
                ("execute_local"@, Tree::Bool(self.execute_local)),
                ("read_workspace"@, Tree::Bool(self.read_workspace)),
                ("write_workspace"@, Tree::Bool(self.write_workspace)),
            ],
        )
    }

    /// Whether this authority permits nothing that `other` does not.
    pub open spec fn within(self, other: LocalAuthority) -> bool {
        &&& self.read_workspace ==> other.read_workspace
        &&& self.write_workspace ==> other.write_workspace
        &&& self.execute_local ==> other.execute_local
    }

    /// As JSON.
    pub fn to_json(&self) -> (made: Json)
        ensures
            made@ == self.tree(),
    {
        proof {
            reveal_strlit("execute_local");
            reveal_strlit("read_workspace");
            reveal_strlit("write_workspace");
            crate::ordering::smaller_at("execute_local"@, "read_workspace"@, 0);
            crate::ordering::smaller_at("read_workspace"@, "write_workspace"@, 0);
        }
        object3(
            "execute_local",
            truth(self.execute_local),
            "read_workspace",
            truth(self.read_workspace),
            "write_workspace",
            truth(self.write_workspace),
        )
    }
}

/// The model of an authority envelope; `external` is the ascending listing of the
/// capability names.
pub struct AuthorityModel {
    pub local: LocalAuthority,
    pub external: Seq<Seq<char>>,
}

impl AuthorityModel {
    /// As JSON.
    pub open spec fn tree(self) -> Tree {
        Tree::Object(
            seq![
                ("external_capabilities"@, crate::json::text_array(self.external)),
                ("local"@, self.local.tree()),
            ],
        )
    }

    /// Whether this authority permits nothing that `other` does not.
    pub open spec fn within(self, other: AuthorityModel) -> bool {
        &&& self.local.within(other.local)
        &&& forall|name: Seq<char>|
            #[trigger] self.external.contains(name) ==> other.external.contains(name)
    }
}

/// What a ticket permits its worker to do.
#[derive(Debug)]
pub struct AuthorityEnvelope {
    pub local: LocalAuthority,
    pub external_capabilities: CapabilitySet,
}

impl View for AuthorityEnvelope {
    type V = AuthorityModel;

    open spec fn view(&self) -> AuthorityModel {
        AuthorityModel { local: self.local, external: self.external_capabilities@ }
    }
}

impl Default for AuthorityEnvelope {
    fn default() -> (made: Self)
        ensures
            made.local.read_workspace,
            !made.local.write_workspace,
            !made.local.execute_local,
            made.external_capabilities@ == Seq::<Seq<char>>::empty(),
    {
        AuthorityEnvelope {
            local: LocalAuthority::default(),
            external_capabilities: CapabilitySet::new(),
        }
    }
}

impl Clone for AuthorityEnvelope {
    fn clone(&self) -> (copy: Self)
        ensures
            copy@ == self@,
    {
        AuthorityEnvelope {
            local: self.local,
            external_capabilities: self.external_capabilities.clone(),
        }
    }
}

impl AuthorityEnvelope {
    /// As JSON.
    pub fn to_json(&self) -> (made: Json)
        ensures
            made@ == self@.tree(),
    {
        let names = strings(self.external_capabilities.names());
        proof {
            reveal_strlit("external_capabilities");
            reveal_strlit("local");
            crate::ordering::smaller_at("external_capabilities"@, "local"@, 0);
        }
        object2("external_capabilities", names, "local", self.local.to_json())
    }
}

// ---- tickets ------------------------------------------------------------------------

/// One labelled fact that a ticket carries.
#[derive(Debug)]
pub struct ContextItem {
    pub label: String,
    pub value: String,
}

/// The model of a context item: its label and its value.
pub type ContextModel = (Seq<char>, Seq<char>);

impl View for ContextItem {
    type V = ContextModel;

    open spec fn view(&self) -> ContextModel {
        (self.label@, self.value@)
    }
}

impl Clone for ContextItem {
    fn clone(&self) -> (copy: Self)
        ensures
            copy@ == self@,
    {
        ContextItem { label: self.label.clone(), value: self.value.clone() }
    }
}

/// The model of a list of context items.
pub open spec fn context_model(items: Seq<ContextItem>) -> Seq<ContextModel> {
    items.map_values(|item: ContextItem| item@)
}

/// A list of context items as JSON.
pub open spec fn context_tree(items: Seq<ContextModel>) -> Tree {
    Tree::Array(
        items.map_values(
            |item: ContextModel|
                Tree::Object(
                    seq![("label"@, Tree::Text(item.0)), ("value"@, Tree::Text(item.1))],
                ),
        ),
    )
}

/// A copy of a list of context items.
pub fn copy_context(items: &Vec<ContextItem>) -> (copy: Vec<ContextItem>)
    ensures
        context_model(copy@) == context_model(items@),
{
    let mut copy: Vec<ContextItem> = Vec::new();
    let mut i: usize = 0;
    while i < items.len()
        invariant
            i <= items.len(),
            copy.len() == i,
            forall|j: int| 0 <= j < i ==> (#[trigger] copy[j])@ == items[j]@,
        decreases items.len() - i,
    {
        copy.push(items[i].clone());
        i = i + 1;
    }
    assert(context_model(copy@) =~= context_model(items@));
    copy
}

/// A list of context items as JSON.
pub fn context_json(items: &Vec<ContextItem>) -> (made: Json)
    ensures
        made@ == context_tree(context_model(items@)),
{
    let ghost goal = context_tree(context_model(items@))->Array_0;
    let mut values: Vec<Json> = Vec::new();
    let mut i: usize = 0;
    while i < items.len()
        invariant
            i <= items.len(),
            values.len() == i,
            goal.len() == items.len(),
            goal == context_tree(context_model(items@))->Array_0,
            forall|j: int| 0 <= j < i ==> (#[trigger] values[j])@ == goal[j],
        decreases items.len() - i,
    {
        let label = string(items[i].label.as_str());
        let value = string(items[i].value.as_str());
        proof {
            reveal_strlit("label");
            reveal_strlit("value");
            crate::ordering::smaller_at("label"@, "value"@, 0);
        }
        values.push(object2("label", label, "value", value));
        i = i + 1;
    }
    let made = Json::Array(values);
    assert(made@->Array_0 =~= goal);
    made
}

/// A bounded unit of delegated work.
#[derive(Debug)]
pub struct Ticket {
    pub id: TicketId,
    pub conversation_id: ConversationId,
    pub objective: String,
    pub context: Vec<ContextItem>,
    pub constraints: Vec<String>,
    pub deliverable: String,
    pub authority: AuthorityEnvelope,
}

/// The model of a ticket.
pub struct TicketModel {
    pub id: TicketId,
    pub conversation_id: ConversationId,
    pub objective: Seq<char>,
    pub context: Seq<ContextModel>,
    pub constraints: Seq<Seq<char>>,
    pub deliverable: Seq<char>,
    pub authority: AuthorityModel,
}

impl View for Ticket {
    type V = TicketModel;

    open spec fn view(&self) -> TicketModel {
        TicketModel {
            id: self.id,
            conversation_id: self.conversation_id,
            objective: self.objective@,
            context: context_model(self.context@),
            constraints: crate::json::texts(self.constraints@),
            deliverable: self.deliverable@,
            authority: self.authority@,
        }
    }
}

impl TicketModel {
    /// As JSON.
    pub open spec fn tree(self) -> Tree {
        Tree::Object(
            seq![
                ("authority"@, self.authority.tree()),
                ("constraints"@, crate::json::text_array(self.constraints)),
                ("context"@, context_tree(self.context)),
                ("conversation_id"@, crate::json::id_tree(self.conversation_id)),
                ("deliverable"@, Tree::Text(self.deliverable)),
                ("id"@, crate::json::id_tree(self.id)),
                ("objective"@, Tree::Text(self.objective)),
            ],
        )
    }
}

impl Clone for Ticket {
    fn clone(&self) -> (copy: Self)
        ensures
            copy@ == self@,
    {
        Ticket {
            id: self.id,
            conversation_id: self.conversation_id,
            objective: self.objective.clone(),
            context: copy_context(&self.context),
            constraints: copy_names(&self.constraints),
            deliverable: self.deliverable.clone(),
            authority: self.authority.clone(),
        }
    }
}

impl Ticket {
    /// As JSON.
    pub fn to_json(&self) -> (made: Json)
        ensures
            made@ == self@.tree(),
    {
        let members = vec![
            member("authority", self.authority.to_json()),
            member("constraints", strings(&self.constraints)),
            member("context", context_json(&self.context)),
            member("conversation_id", identifier(self.conversation_id)),
            member("deliverable", string(self.deliverable.as_str())),
            member("id", identifier(self.id)),
            member("objective", string(self.objective.as_str())),
        ];
        proof {
            assert(crate::json::given(members@) =~= self@.tree()->Object_0);
            crate::ordering::tickets_are_ordered(self@);
        }
        object(members)
    }
}

// ---- capabilities -------------------------------------------------------------------

/// What a worker presents to the broker: who it is, for which ticket, and what it wants.
#[derive(Debug)]
pub struct CapabilityRequest {
    pub worker_id: WorkerId,
    pub ticket_id: TicketId,
    /// Natural-language operational intent. No project or user memory is attached.
    pub request: String,
}

impl Clone for CapabilityRequest {
    fn clone(&self) -> (copy: Self)
        ensures
            copy.worker_id == self.worker_id,
            copy.ticket_id == self.ticket_id,
            copy.request@ == self.request@,
    {
        CapabilityRequest {
            worker_id: self.worker_id,
            ticket_id: self.ticket_id,
            request: self.request.clone(),
        }
    }
}

/// One logical capability call.
#[derive(Debug)]
pub struct CapabilityInvocation {
    pub capability: String,
    pub arguments: Json,
}

/// What the worker sees when a capability succeeds.
///
/// There is no provider in it: which adapter served the call is the broker's business.
#[derive(Debug)]
pub struct CapabilityResult {
    pub capability: String,
    pub data: Json,
    pub metadata: Json,
}

/// A capability result as JSON.
pub open spec fn result_tree(capability: Seq<char>, data: Tree, metadata: Tree) -> Tree {
    Tree::Object(
        seq![("capability"@, Tree::Text(capability)), ("data"@, data), ("metadata"@, metadata)],
    )
}

impl CapabilityResult {
    /// As JSON.
    pub open spec fn tree(self) -> Tree {
        result_tree(self.capability@, self.data@, self.metadata@)
    }

    /// As JSON.
    pub fn to_json(&self) -> (made: Json)
        ensures
            made@ == self.tree(),
    {
        let capability = string(self.capability.as_str());
        let data = self.data.clone();
        let metadata = self.metadata.clone();
        proof {
            reveal_strlit("capability");
            reveal_strlit("data");
            reveal_strlit("metadata");
            crate::ordering::smaller_at("capability"@, "data"@, 0);
            crate::ordering::smaller_at("data"@, "metadata"@, 0);
        }
        object3("capability", capability, "data", data, "metadata", metadata)
    }
}

/// Stable failure surface exposed across the worker/broker seam.
///
/// Provider identities, transport failures and credential-bearing details remain inside
/// the broker.
#[derive(Debug, Clone, Copy, PartialEq, Eq, Structural)]
pub enum CapabilityFailure {
    Denied,
    Gap,
    TemporarilyUnavailable,
    RequestNotUnderstood,
    InvalidArguments,
}

/// The stable code of a failure.
pub open spec fn failure_code(failure: CapabilityFailure) -> Seq<char> {
    match failure {
        CapabilityFailure::Denied => "CAPABILITY_DENIED"@,
        CapabilityFailure::Gap => "CAPABILITY_GAP"@,
        CapabilityFailure::TemporarilyUnavailable => "CAPABILITY_TEMPORARILY_UNAVAILABLE"@,
        CapabilityFailure::RequestNotUnderstood => "CAPABILITY_REQUEST_NOT_UNDERSTOOD"@,
        CapabilityFailure::InvalidArguments => "CAPABILITY_ARGUMENTS_INVALID"@,
    }
}

/// The message of a failure.
pub open spec fn failure_message(failure: CapabilityFailure) -> Seq<char> {
    match failure {
        CapabilityFailure::Denied => "capability denied"@,
        CapabilityFailure::Gap => "no capability matches the request"@,
        CapabilityFailure::TemporarilyUnavailable => "capability temporarily unavailable"@,
        CapabilityFailure::RequestNotUnderstood => "capability request not understood"@,
        CapabilityFailure::InvalidArguments => "capability arguments invalid"@,
    }
}

impl CapabilityFailure {
    /// The stable code of a failure.
    pub fn code(self) -> (code: &'static str)
        ensures
            code@ == failure_code(self),
    {
        match self {
            CapabilityFailure::Denied => "CAPABILITY_DENIED",
            CapabilityFailure::Gap => "CAPABILITY_GAP",
            CapabilityFailure::TemporarilyUnavailable => "CAPABILITY_TEMPORARILY_UNAVAILABLE",
            CapabilityFailure::RequestNotUnderstood => "CAPABILITY_REQUEST_NOT_UNDERSTOOD",
            CapabilityFailure::InvalidArguments => "CAPABILITY_ARGUMENTS_INVALID",
        }
    }

    /// The message of a failure.
    pub fn message(self) -> (text: &'static str)
        ensures
            text@ == failure_message(self),
    {
        match self {
            CapabilityFailure::Denied => "capability denied",
            CapabilityFailure::Gap => "no capability matches the request",
            CapabilityFailure::TemporarilyUnavailable => "capability temporarily unavailable",
            CapabilityFailure::RequestNotUnderstood => "capability request not understood",
            CapabilityFailure::InvalidArguments => "capability arguments invalid",
        }
    }
}

// ---- work ---------------------------------------------------------------------------

#[derive(Debug, Clone, Copy, PartialEq, Eq, Structural)]
pub enum WorkerStatus {
    Completed,
    Blocked,
    Failed,
}

/// The JSON name of a status.
pub open spec fn status_name(status: WorkerStatus) -> Seq<char> {
    match status {
        WorkerStatus::Completed => "completed"@,
        WorkerStatus::Blocked => "blocked"@,
        WorkerStatus::Failed => "failed"@,
    }
}

impl WorkerStatus {
    /// The JSON name of a status.
    pub fn name(self) -> (name: &'static str)
        ensures
            name@ == status_name(self),
    {
        match self {
            WorkerStatus::Completed => "completed",
            WorkerStatus::Blocked => "blocked",
            WorkerStatus::Failed => "failed",
        }
    }
}

/// Lifecycle state of a unit of work, shared by the kernel and the client API.
#[derive(Debug, Clone, Copy, PartialEq, Eq, Structural)]
pub enum WorkState {
    Queued,
    Running,
    Completed,
    Blocked,
    Failed,
    Cancelled,
}

/// The JSON name of a state.
pub open spec fn state_name(state: WorkState) -> Seq<char> {
    match state {
        WorkState::Queued => "queued"@,
        WorkState::Running => "running"@,
        WorkState::Completed => "completed"@,
        WorkState::Blocked => "blocked"@,
        WorkState::Failed => "failed"@,
        WorkState::Cancelled => "cancelled"@,
    }
}

/// The name of a state in messages.
pub open spec fn state_label(state: WorkState) -> Seq<char> {
    match state {
        WorkState::Queued => "Queued"@,
        WorkState::Running => "Running"@,
        WorkState::Completed => "Completed"@,
        WorkState::Blocked => "Blocked"@,
        WorkState::Failed => "Failed"@,
        WorkState::Cancelled => "Cancelled"@,
    }
}

/// The state in which a report leaves its ticket.
pub open spec fn terminal_state(status: WorkerStatus) -> WorkState {
    match status {
        WorkerStatus::Completed => WorkState::Completed,
        WorkerStatus::Blocked => WorkState::Blocked,
        WorkerStatus::Failed => WorkState::Failed,
    }
}

impl WorkState {
    /// The JSON name of a state.
    pub fn name(self) -> (name: &'static str)
        ensures
            name@ == state_name(self),
    {
        match self {
            WorkState::Queued => "queued",
            WorkState::Running => "running",
            WorkState::Completed => "completed",
            WorkState::Blocked => "blocked",
            WorkState::Failed => "failed",
            WorkState::Cancelled => "cancelled",
        }
    }

    /// The name of a state in messages.
    pub fn label(self) -> (label: &'static str)
        ensures
            label@ == state_label(self),
    {
        match self {
            WorkState::Queued => "Queued",
            WorkState::Running => "Running",
            WorkState::Completed => "Completed",
            WorkState::Blocked => "Blocked",
            WorkState::Failed => "Failed",
            WorkState::Cancelled => "Cancelled",
        }
    }

    /// Whether work in this state is still in flight.
    pub open spec fn active(self) -> bool {
        self is Queued || self is Running
    }
}

impl<'a> From<&'a WorkerStatus> for WorkState {
    fn from(status: &'a WorkerStatus) -> (state: Self) {
        match status {
            WorkerStatus::Completed => WorkState::Completed,
            WorkerStatus::Blocked => WorkState::Blocked,
            WorkerStatus::Failed => WorkState::Failed,
        }
    }
}

impl<'a> vstd::std_specs::convert::FromSpecImpl<&'a WorkerStatus> for WorkState {
    open spec fn obeys_from_spec() -> bool {
        true
    }

    open spec fn from_spec(status: &'a WorkerStatus) -> Self {
        terminal_state(*status)
    }
}

/// A named result that a worker left behind.
#[derive(Debug)]
pub struct ArtifactRef {
    pub name: String,
    pub uri: String,
}

/// The model of an artifact: its name and where it lies.
pub type ArtifactModel = (Seq<char>, Seq<char>);

impl View for ArtifactRef {
    type V = ArtifactModel;

    open spec fn view(&self) -> ArtifactModel {
        (self.name@, self.uri@)
    }
}

impl Clone for ArtifactRef {
    fn clone(&self) -> (copy: Self)
        ensures
            copy@ == self@,
    {
        ArtifactRef { name: self.name.clone(), uri: self.uri.clone() }
    }
}

/// The model of a list of artifacts.
pub open spec fn artifacts_model(items: Seq<ArtifactRef>) -> Seq<ArtifactModel> {
    items.map_values(|item: ArtifactRef| item@)
}

/// A list of artifacts as JSON.
pub open spec fn artifacts_tree(items: Seq<ArtifactModel>) -> Tree {
    Tree::Array(
        items.map_values(
            |item: ArtifactModel|
                Tree::Object(seq![("name"@, Tree::Text(item.0)), ("uri"@, Tree::Text(item.1))]),
        ),
    )
}

/// A copy of a list of artifacts.
pub fn copy_artifacts(items: &Vec<ArtifactRef>) -> (copy: Vec<ArtifactRef>)
    ensures
        artifacts_model(copy@) == artifacts_model(items@),
{
    let mut copy: Vec<ArtifactRef> = Vec::new();
    let mut i: usize = 0;
    while i < items.len()
        invariant
            i <= items.len(),
            copy.len() == i,
            forall|j: int| 0 <= j < i ==> (#[trigger] copy[j])@ == items[j]@,
        decreases items.len() - i,
    {
        copy.push(items[i].clone());
        i = i + 1;
    }
    assert(artifacts_model(copy@) =~= artifacts_model(items@));
    copy
}

fn artifacts_json(items: &Vec<ArtifactRef>) -> (made: Json)
    ensures
        made@ == artifacts_tree(artifacts_model(items@)),
{
    let ghost goal = artifacts_tree(artifacts_model(items@))->Array_0;
    let mut values: Vec<Json> = Vec::new();
    let mut i: usize = 0;
    while i < items.len()
        invariant
            i <= items.len(),
            values.len() == i,
            goal.len() == items.len(),
            goal == artifacts_tree(artifacts_model(items@))->Array_0,
            forall|j: int| 0 <= j < i ==> (#[trigger] values[j])@ == goal[j],
        decreases items.len() - i,
    {
        let name = string(items[i].name.as_str());
        let uri = string(items[i].uri.as_str());
        proof {
            reveal_strlit("name");
            reveal_strlit("uri");
            crate::ordering::smaller_at("name"@, "uri"@, 0);
        }
        values.push(object2("name", name, "uri", uri));
        i = i + 1;
    }
    let made = Json::Array(values);
    assert(made@->Array_0 =~= goal);
    made
}

/// How a worker reports the end of its ticket.
#[derive(Debug)]
pub struct WorkerReport {
    pub worker_id: WorkerId,
    pub ticket_id: TicketId,
    pub conversation_id: ConversationId,
    pub status: WorkerStatus,
    pub summary: String,
    pub artifacts: Vec<ArtifactRef>,
    pub notes: Vec<String>,
}

/// The model of a worker report.
pub struct ReportModel {
    pub worker_id: WorkerId,
    pub ticket_id: TicketId,
    pub conversation_id: ConversationId,
    pub status: WorkerStatus,
    pub summary: Seq<char>,
    pub artifacts: Seq<ArtifactModel>,
    pub notes: Seq<Seq<char>>,
}

impl View for WorkerReport {
    type V = ReportModel;

    open spec fn view(&self) -> ReportModel {
        ReportModel {
            worker_id: self.worker_id,
            ticket_id: self.ticket_id,
            conversation_id: self.conversation_id,
            status: self.status,
            summary: self.summary@,
            artifacts: artifacts_model(self.artifacts@),
            notes: crate::json::texts(self.notes@),
        }
    }
}

impl ReportModel {
    /// As JSON.
    pub open spec fn tree(self) -> Tree {
        Tree::Object(
            seq![
                ("artifacts"@, artifacts_tree(self.artifacts)),
                ("conversation_id"@, crate::json::id_tree(self.conversation_id)),
                ("notes"@, crate::json::text_array(self.notes)),
                ("status"@, Tree::Text(status_name(self.status))),
                ("summary"@, Tree::Text(self.summary)),
                ("ticket_id"@, crate::json::id_tree(self.ticket_id)),
                ("worker_id"@, crate::json::id_tree(self.worker_id)),
            ],
        )
    }
}

impl Clone for WorkerReport {
    fn clone(&self) -> (copy: Self)
        ensures
            copy@ == self@,
    {
        WorkerReport {
            worker_id: self.worker_id,
            ticket_id: self.ticket_id,
            conversation_id: self.conversation_id,
            status: self.status,
            summary: self.summary.clone(),
            artifacts: copy_artifacts(&self.artifacts),
            notes: copy_names(&self.notes),
        }
    }
}

impl WorkerReport {
    /// As JSON.
    pub fn to_json(&self) -> (made: Json)
        ensures
            made@ == self@.tree(),
    {
        let members = vec![
            member("artifacts", artifacts_json(&self.artifacts)),
            member("conversation_id", identifier(self.conversation_id)),
            member("notes", strings(&self.notes)),
            member("status", string(self.status.name())),
            member("summary", string(self.summary.as_str())),
            member("ticket_id", identifier(self.ticket_id)),
            member("worker_id", identifier(self.worker_id)),
        ];
        proof {
            assert(crate::json::given(members@) =~= self@.tree()->Object_0);
            crate::ordering::reports_are_ordered(self@);
        }
        object(members)
    }
}

// ---- laws ---------------------------------------------------------------------------

/// A list of context items or artifacts is shown item by item, in order, each with both of
/// its parts.
pub proof fn lists_are_shown_item_by_item(
    context: Seq<ContextModel>,
    artifacts: Seq<ArtifactModel>,
    texts: Seq<Seq<char>>,
    i: int,
)
    ensures
        context_tree(context) matches Tree::Array(items) && items.len() == context.len() && (0 <= i
            < context.len() ==> items[i].get("label"@) == Some(Tree::Text(context[i].0))
            && items[i].get("value"@) == Some(Tree::Text(context[i].1))),
        artifacts_tree(artifacts) matches Tree::Array(items) && items.len() == artifacts.len() && (
        0 <= i < artifacts.len() ==> items[i].get("name"@) == Some(Tree::Text(artifacts[i].0))
            && items[i].get("uri"@) == Some(Tree::Text(artifacts[i].1))),
        crate::json::text_array(texts) matches Tree::Array(items) && items.len() == texts.len() && (
        0 <= i < texts.len() ==> items[i] == Tree::Text(texts[i])),
{
    reveal_strlit("label");
    reveal_strlit("value");
    reveal_strlit("name");
    reveal_strlit("uri");
    assert("label"@[0] == 'l' && "value"@[0] == 'v');
    assert("name"@.len() == 4 && "uri"@.len() == 3);
    if 0 <= i < context.len() {
        let members = context_tree(context)->Array_0[i]->Object_0;
        crate::json::members_are_read_by_name(members, 0, ""@);
        crate::json::members_are_read_by_name(members, 1, ""@);
    }
    if 0 <= i < artifacts.len() {
        let members = artifacts_tree(artifacts)->Array_0[i]->Object_0;
        crate::json::members_are_read_by_name(members, 0, ""@);
        crate::json::members_are_read_by_name(members, 1, ""@);
    }
}

/// A ticket is shown whole: every field under its own name, and of its authority every
/// permission.
pub proof fn a_ticket_is_shown_whole(ticket: TicketModel)
    ensures
        ticket.tree().get("id"@) == Some(Tree::Text(crate::ids::id_chars(ticket.id))),
        ticket.tree().get("conversation_id"@) == Some(
            Tree::Text(crate::ids::id_chars(ticket.conversation_id)),
        ),
        ticket.tree().get("objective"@) == Some(Tree::Text(ticket.objective)),
        ticket.tree().get("deliverable"@) == Some(Tree::Text(ticket.deliverable)),
        ticket.tree().get("constraints"@) == Some(crate::json::text_array(ticket.constraints)),
        ticket.tree().get("context"@) == Some(context_tree(ticket.context)),
        ticket.tree().get("authority"@) matches Some(authority) && authority.get(
            "external_capabilities"@,
        ) == Some(crate::json::text_array(ticket.authority.external)) && (authority.get("local"@)
            matches Some(local) && local.get("read_workspace"@) == Some(
            Tree::Bool(ticket.authority.local.read_workspace),
        ) && local.get("write_workspace"@) == Some(
            Tree::Bool(ticket.authority.local.write_workspace),
        ) && local.get("execute_local"@) == Some(
            Tree::Bool(ticket.authority.local.execute_local),
        )),
{
    crate::ordering::tickets_are_ordered(ticket);
    let members = ticket.tree()->Object_0;
    crate::ordering::a_member_is_found(members, 0);
    crate::ordering::a_member_is_found(members, 1);
    crate::ordering::a_member_is_found(members, 2);
    crate::ordering::a_member_is_found(members, 3);
    crate::ordering::a_member_is_found(members, 4);
    crate::ordering::a_member_is_found(members, 5);
    crate::ordering::a_member_is_found(members, 6);
    let authority = ticket.authority.tree()->Object_0;
    crate::ordering::a_member_is_found(authority, 0);
    crate::ordering::a_member_is_found(authority, 1);
    let local = ticket.authority.local.tree()->Object_0;
    crate::ordering::a_member_is_found(local, 0);
    crate::ordering::a_member_is_found(local, 1);
    crate::ordering::a_member_is_found(local, 2);
}

/// A report is shown whole: every field under its own name.
pub proof fn a_report_is_shown_whole(report: ReportModel)
    ensures
        report.tree().get("worker_id"@) == Some(
            Tree::Text(crate::ids::id_chars(report.worker_id)),
        ),
        report.tree().get("ticket_id"@) == Some(
            Tree::Text(crate::ids::id_chars(report.ticket_id)),
        ),
        report.tree().get("conversation_id"@) == Some(
            Tree::Text(crate::ids::id_chars(report.conversation_id)),
        ),
        report.tree().get("summary"@) == Some(Tree::Text(report.summary)),
        report.tree().get("artifacts"@) == Some(artifacts_tree(report.artifacts)),
        report.tree().get("notes"@) == Some(crate::json::text_array(report.notes)),
        report.tree().get("status"@) == Some(
            Tree::Text(
                match report.status {
                    WorkerStatus::Completed => "completed"@,
                    WorkerStatus::Blocked => "blocked"@,
                    WorkerStatus::Failed => "failed"@,
                },
            ),
        ),
{
    crate::ordering::reports_are_ordered(report);
    let members = report.tree()->Object_0;
    crate::ordering::a_member_is_found(members, 0);
    crate::ordering::a_member_is_found(members, 1);
    crate::ordering::a_member_is_found(members, 2);
    crate::ordering::a_member_is_found(members, 3);
    crate::ordering::a_member_is_found(members, 4);
    crate::ordering::a_member_is_found(members, 5);
    crate::ordering::a_member_is_found(members, 6);
}

/// A capability's result is shown with its capability, its data and its metadata, and with
/// nothing else: no provider is named in it.
pub proof fn a_result_is_shown_without_its_provider(
    capability: Seq<char>,
    data: Tree,
    metadata: Tree,
    name: Seq<char>,
)
    ensures
        result_tree(capability, data, metadata).get("capability"@) == Some(Tree::Text(capability)),
        result_tree(capability, data, metadata).get("data"@) == Some(data),
        result_tree(capability, data, metadata).get("metadata"@) == Some(metadata),
        result_tree(capability, data, metadata).get(name) is Some ==> name == "capability"@ || name
            == "data"@ || name == "metadata"@,
{
    reveal_strlit("capability");
    reveal_strlit("data");
    reveal_strlit("metadata");
    assert("capability"@.len() == 10 && "data"@.len() == 4 && "metadata"@.len() == 8);
    let members = result_tree(capability, data, metadata)->Object_0;
    crate::json::members_are_read_by_name(members, 0, name);
    crate::json::members_are_read_by_name(members, 1, name);
    crate::json::members_are_read_by_name(members, 2, name);
}

/// The codes, names and labels are the stable ones, and a report leaves its ticket in the
/// state of its own status.
pub proof fn the_names_are_stable(failure: CapabilityFailure, state: WorkState, status: WorkerStatus)
    ensures
        failure is Denied ==> failure_code(failure) == "CAPABILITY_DENIED"@,
        failure is Gap ==> failure_code(failure) == "CAPABILITY_GAP"@,
        failure is TemporarilyUnavailable ==> failure_code(failure)
            == "CAPABILITY_TEMPORARILY_UNAVAILABLE"@,
        failure is RequestNotUnderstood ==> failure_code(failure)
            == "CAPABILITY_REQUEST_NOT_UNDERSTOOD"@,
        failure is InvalidArguments ==> failure_code(failure) == "CAPABILITY_ARGUMENTS_INVALID"@,
        failure is Denied ==> failure_message(failure) == "capability denied"@,
        failure is Gap ==> failure_message(failure) == "no capability matches the request"@,
        failure is TemporarilyUnavailable ==> failure_message(failure)
            == "capability temporarily unavailable"@,
        failure is RequestNotUnderstood ==> failure_message(failure)
            == "capability request not understood"@,
        failure is InvalidArguments ==> failure_message(failure) == "capability arguments invalid"@,
        state is Queued ==> state_name(state) == "queued"@ && state_label(state) == "Queued"@,
        state is Running ==> state_name(state) == "running"@ && state_label(state) == "Running"@,
        state is Completed ==> state_name(state) == "completed"@ && state_label(state)
            == "Completed"@,
        state is Blocked ==> state_name(state) == "blocked"@ && state_label(state) == "Blocked"@,
        state is Failed ==> state_name(state) == "failed"@ && state_label(state) == "Failed"@,
        state is Cancelled ==> state_name(state) == "cancelled"@ && state_label(state)
            == "Cancelled"@,
        state.active() <==> state is Queued || state is Running,
        status is Completed <==> terminal_state(status) is Completed,
        status is Blocked <==> terminal_state(status) is Blocked,
        status is Failed <==> terminal_state(status) is Failed,
        status is Completed <==> status_name(status) == "completed"@,
        status is Blocked <==> status_name(status) == "blocked"@,
        status is Failed <==> status_name(status) == "failed"@,
{
    reveal_strlit("completed");
    reveal_strlit("blocked");
    reveal_strlit("failed");
    assert("completed"@.len() == 9 && "blocked"@.len() == 7 && "failed"@.len() == 6);
}

/// A ticket stands for exactly what it holds, field by field and item by item.
pub proof fn a_ticket_stands_for_what_it_holds(ticket: Ticket, i: int)
    ensures
        ticket@.id == ticket.id,
        ticket@.conversation_id == ticket.conversation_id,
        ticket@.objective == ticket.objective@,
        ticket@.deliverable == ticket.deliverable@,
        ticket@.authority.local == ticket.authority.local,
        ticket@.authority.external == ticket.authority.external_capabilities@,
        ticket@.context.len() == ticket.context@.len(),
        ticket@.constraints.len() == ticket.constraints@.len(),
        0 <= i < ticket.context@.len() ==> ticket@.context[i] == (
            ticket.context@[i].label@,
            ticket.context@[i].value@,
        ),
        0 <= i < ticket.constraints@.len() ==> ticket@.constraints[i] == ticket.constraints@[i]@,
{
}

/// A report stands for exactly what it holds, field by field and item by item.
pub proof fn a_report_stands_for_what_it_holds(report: WorkerReport, i: int)
    ensures
        report@.worker_id == report.worker_id,
        report@.ticket_id == report.ticket_id,
        report@.conversation_id == report.conversation_id,
        report@.status == report.status,
        report@.summary == report.summary@,
        report@.artifacts.len() == report.artifacts@.len(),
        report@.notes.len() == report.notes@.len(),
        0 <= i < report.artifacts@.len() ==> report@.artifacts[i] == (
            report.artifacts@[i].name@,
            report.artifacts@[i].uri@,
        ),
        0 <= i < report.notes@.len() ==> report@.notes[i] == report.notes@[i]@,
{
}

} // verus!
