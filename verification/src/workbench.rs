//! The worker's local workbench: workspace-constrained primitives.
//!
//! This is not a substitute for an OS or container sandbox. Two independent limits apply
//! to every call: the deployment ceiling configured here and the per-ticket
//! [`LocalAuthority`]. An operation must be permitted by both.
//!
//! [`FsProcessWorkbench::execute`] decides whether an operation may run and with what;
//! [`FsProcessWorkbench::resolve`] decides which file it may touch; and
//! [`FsProcessWorkbench::completed`] gives its bounded result. The program around the
//! library touches the file system and runs the processes.

use std::path::PathBuf;

use vstd::prelude::*;
use vstd::string::*;

use crate::authority::BrokerError;
use crate::json::{count, member, object, object1, string, strings, truth, Json, Number};
use crate::model::labelled;
use crate::paths::{is_relative, last_entry, starts_with, ResolvedPath};
use crate::protocol::LocalAuthority;
use crate::text::{clip_rest_text, clip_text, decimal_text, same_text, text_bytes};

#[allow(unused_imports)]
use crate::json::{Num, Tree};
#[allow(unused_imports)]
use crate::paths::PathModel;

verus! {

/// The default time limit of one command, in nanoseconds: 120 seconds.
pub const DEFAULT_EXEC_TIMEOUT: u128 = 120_000_000_000;

/// The most bytes of a file that one read returns.
pub const MAX_READ_BYTES: u64 = 16_384;

/// The most bytes of each of a command's two outputs that are returned.
pub const MAX_OUTPUT_BYTES: u64 = 8_192;

// ---- errors -------------------------------------------------------------------------

#[derive(Debug)]
pub enum WorkerError {
    Model(String),
    InvalidAction(String),
    Local(String),
    Denied(String),
    Broker(BrokerError),
    StepLimit,
}

/// The model of an error.
pub enum WorkerErrorModel {
    Model(Seq<char>),
    InvalidAction(Seq<char>),
    Local(Seq<char>),
    Denied(Seq<char>),
    Broker(BrokerError),
    StepLimit,
}

impl View for WorkerError {
    type V = WorkerErrorModel;

    open spec fn view(&self) -> WorkerErrorModel {
        match *self {
            WorkerError::Model(detail) => WorkerErrorModel::Model(detail@),
            WorkerError::InvalidAction(detail) => WorkerErrorModel::InvalidAction(detail@),
            WorkerError::Local(detail) => WorkerErrorModel::Local(detail@),
            WorkerError::Denied(detail) => WorkerErrorModel::Denied(detail@),
            WorkerError::Broker(error) => WorkerErrorModel::Broker(error),
            WorkerError::StepLimit => WorkerErrorModel::StepLimit,
        }
    }
}

impl WorkerErrorModel {
    /// The message of an error.
    pub open spec fn text(self) -> Seq<char> {
        match self {
            WorkerErrorModel::Model(detail) => "model error: "@ + detail,
            WorkerErrorModel::InvalidAction(detail) => "invalid worker action: "@ + detail,
            WorkerErrorModel::Local(detail) => "local workbench error: "@ + detail,
            WorkerErrorModel::Denied(detail) => "local authority denied: "@ + detail,
            WorkerErrorModel::Broker(error) => "capability broker error: "@ + error.text(),
            WorkerErrorModel::StepLimit => "worker exceeded step limit"@,
        }
    }
}

impl WorkerError {
    /// The message of an error.
    pub fn message(&self) -> (text: String)
        ensures
            text@ == self@.text(),
    {
        match self {
            WorkerError::Model(detail) => labelled("model error: ", detail.as_str()),
            WorkerError::InvalidAction(detail) => labelled(
                "invalid worker action: ",
                detail.as_str(),
            ),
            WorkerError::Local(detail) => labelled("local workbench error: ", detail.as_str()),
            WorkerError::Denied(detail) => labelled("local authority denied: ", detail.as_str()),
            WorkerError::Broker(error) => {
                let detail = error.message();
                labelled("capability broker error: ", detail.as_str())
            },
            WorkerError::StepLimit => "worker exceeded step limit".to_owned(),
        }
    }
}

impl From<BrokerError> for WorkerError {
    fn from(error: BrokerError) -> (made: Self) {
        WorkerError::Broker(error)
    }
}

impl vstd::std_specs::convert::FromSpecImpl<BrokerError> for WorkerError {
    open spec fn obeys_from_spec() -> bool {
        true
    }

    open spec fn from_spec(error: BrokerError) -> Self {
        WorkerError::Broker(error)
    }
}

fn denied<T>(why: &str) -> (result: Result<T, WorkerError>)
    ensures
        result matches Err(error) && error@ == WorkerErrorModel::Denied(why@),
{
    Err(WorkerError::Denied(why.to_owned()))
}

fn failed<T>(why: &str) -> (result: Result<T, WorkerError>)
    ensures
        result matches Err(error) && error@ == WorkerErrorModel::Local(why@),
{
    Err(WorkerError::Local(why.to_owned()))
}

// ---- operations ---------------------------------------------------------------------

/// An operation that is permitted, with its checked arguments.
#[derive(Debug)]
pub enum LocalOperation {
    ReadFile { path: String, offset: u64, limit: u64 },
    WriteFile { path: String, content: String },
    ListDir { path: String },
    Exec { program: String, args: Vec<String>, cwd: String },
}

/// The model of an operation.
pub enum OperationModel {
    ReadFile(Seq<char>, u64, u64),
    WriteFile(Seq<char>, Seq<char>),
    ListDir(Seq<char>),
    Exec(Seq<char>, Seq<Seq<char>>, Seq<char>),
}

impl View for LocalOperation {
    type V = OperationModel;

    open spec fn view(&self) -> OperationModel {
        match *self {
            LocalOperation::ReadFile { path, offset, limit } => OperationModel::ReadFile(
                path@,
                offset,
                limit,
            ),
            LocalOperation::WriteFile { path, content } => OperationModel::WriteFile(
                path@,
                content@,
            ),
            LocalOperation::ListDir { path } => OperationModel::ListDir(path@),
            LocalOperation::Exec { program, args, cwd } => OperationModel::Exec(
                program@,
                crate::json::texts(args@),
                cwd@,
            ),
        }
    }
}

impl OperationModel {
    /// The workspace-relative path that an operation works on.
    pub open spec fn path(self) -> Seq<char> {
        match self {
            OperationModel::ReadFile(path, _, _) => path,
            OperationModel::WriteFile(path, _) => path,
            OperationModel::ListDir(path) => path,
            OperationModel::Exec(_, _, cwd) => cwd,
        }
    }

    /// Whether the path has to exist already: only a write may create it.
    pub open spec fn must_exist(self) -> bool {
        !(self is WriteFile)
    }
}

impl LocalOperation {
    /// The workspace-relative path that an operation works on.
    pub fn path(&self) -> (path: &str)
        ensures
            path@ == self@.path(),
    {
        match self {
            LocalOperation::ReadFile { path, .. } => path.as_str(),
            LocalOperation::WriteFile { path, .. } => path.as_str(),
            LocalOperation::ListDir { path } => path.as_str(),
            LocalOperation::Exec { cwd, .. } => cwd.as_str(),
        }
    }

    /// Whether the path has to exist already: only a write may create it.
    pub fn must_exist(&self) -> (must: bool)
        ensures
            must == self@.must_exist(),
    {
        !matches!(self, LocalOperation::WriteFile { .. })
    }
}

/// The strings among the items of an array, in order.
pub open spec fn text_items(items: Seq<Tree>) -> Seq<Seq<char>>
    decreases items.len(),
{
    if items.len() == 0 {
        seq![]
    } else {
        let before = text_items(items.drop_last());
        match items.last().as_text() {
            Some(text) => before.push(text),
            None => before,
        }
    }
}

/// The text of a member, or another text where there is none.
pub open spec fn text_or(arguments: Tree, name: Seq<char>, other: Seq<char>) -> Seq<char> {
    match arguments.text_at(name) {
        Some(text) => text,
        None => other,
    }
}

/// The smaller of a read's requested and permitted lengths.
pub open spec fn read_limit(requested: Option<u64>) -> u64 {
    match requested {
        Some(n) => if n < MAX_READ_BYTES {
            n
        } else {
            MAX_READ_BYTES
        },
        None => MAX_READ_BYTES,
    }
}

/// What a read is to do.
pub open spec fn planned_read(arguments: Tree, authority: LocalAuthority) -> Result<
    OperationModel,
    WorkerErrorModel,
> {
    if !authority.read_workspace {
        Err(WorkerErrorModel::Denied("workspace reads denied"@))
    } else {
        match arguments.text_at("path"@) {
            None => Err(WorkerErrorModel::Local("read_file requires path"@)),
            Some(path) => Ok(
                OperationModel::ReadFile(
                    path,
                    match arguments.count_at("offset"@) {
                        Some(offset) => offset,
                        None => 0,
                    },
                    read_limit(arguments.count_at("limit"@)),
                ),
            ),
        }
    }
}

/// What a write is to do.
pub open spec fn planned_write(
    allow_write: bool,
    arguments: Tree,
    authority: LocalAuthority,
) -> Result<OperationModel, WorkerErrorModel> {
    if !allow_write {
        Err(WorkerErrorModel::Denied("workspace writes denied"@))
    } else if !authority.write_workspace {
        Err(WorkerErrorModel::Denied("ticket does not grant workspace writes"@))
    } else {
        match (arguments.text_at("path"@), arguments.text_at("content"@)) {
            (None, _) => Err(WorkerErrorModel::Local("write_file requires path"@)),
            (_, None) => Err(WorkerErrorModel::Local("write_file requires content"@)),
            (Some(path), Some(content)) => Ok(OperationModel::WriteFile(path, content)),
        }
    }
}

/// What a listing is to do.
pub open spec fn planned_list(arguments: Tree, authority: LocalAuthority) -> Result<
    OperationModel,
    WorkerErrorModel,
> {
    if !authority.read_workspace {
        Err(WorkerErrorModel::Denied("workspace reads denied"@))
    } else {
        Ok(OperationModel::ListDir(text_or(arguments, "path"@, "."@)))
    }
}

/// What a command is to do.
pub open spec fn planned_exec(
    allow_execute: bool,
    arguments: Tree,
    authority: LocalAuthority,
) -> Result<OperationModel, WorkerErrorModel> {
    if !allow_execute {
        Err(WorkerErrorModel::Denied("local execution denied"@))
    } else if !authority.execute_local {
        Err(WorkerErrorModel::Denied("ticket does not grant local execution"@))
    } else {
        match arguments.text_at("program"@) {
            None => Err(WorkerErrorModel::Local("exec requires program"@)),
            Some(program) => Ok(
                OperationModel::Exec(
                    program,
                    match arguments.get("args"@) {
                        Some(Tree::Array(items)) => text_items(items),
                        _ => seq![],
                    },
                    text_or(arguments, "cwd"@, "."@),
                ),
            ),
        }
    }
}

/// What an operation is to do, or why it may not.
pub open spec fn planned(
    allow_write: bool,
    allow_execute: bool,
    operation: Seq<char>,
    arguments: Tree,
    authority: LocalAuthority,
) -> Result<OperationModel, WorkerErrorModel> {
    if operation == "read_file"@ {
        planned_read(arguments, authority)
    } else if operation == "write_file"@ {
        planned_write(allow_write, arguments, authority)
    } else if operation == "list_dir"@ {
        planned_list(arguments, authority)
    } else if operation == "exec"@ {
        planned_exec(allow_execute, arguments, authority)
    } else {
        Err(WorkerErrorModel::Local("unknown local operation: "@ + operation))
    }
}

/// The model of a planned operation.
pub open spec fn plan_model(result: Result<LocalOperation, WorkerError>) -> Result<
    OperationModel,
    WorkerErrorModel,
> {
    match result {
        Ok(operation) => Ok(operation@),
        Err(error) => Err(error@),
    }
}

fn collect_texts(items: &Vec<Json>) -> (found: Vec<String>)
    ensures
        crate::json::texts(found@) == text_items(crate::json::items_of(*items)),
{
    let ghost all = crate::json::items_of(*items);
    let mut found: Vec<String> = Vec::new();
    let mut i: usize = 0;
    assert(crate::json::texts(found@) =~= text_items(all.take(0)));
    while i < items.len()
        invariant
            i <= items.len(),
            all == crate::json::items_of(*items),
            crate::json::texts(found@) == text_items(all.take(i as int)),
        decreases items.len() - i,
    {
        let ghost before = crate::json::texts(found@);
        proof {
            assert(all.take(i + 1).drop_last() =~= all.take(i as int));
            assert(all.take(i + 1).last() == items[i as int]@);
        }
        if let Some(text) = items[i].as_str() {
            found.push(text.to_owned());
            assert(crate::json::texts(found@) =~= before.push(text@));
        }
        i = i + 1;
    }
    assert(all.take(items.len() as int) =~= all);
    found
}

fn text_or_default(arguments: &Json, name: &str, other: &str) -> (text: String)
    ensures
        text@ == text_or(arguments@, name@, other@),
{
    match arguments.str_at(name) {
        Some(text) => text.to_owned(),
        None => other.to_owned(),
    }
}

// ---- what an operation yields -------------------------------------------------------

/// What came of an operation outside the library.
#[derive(Debug)]
pub enum LocalOutput {
    /// The whole text of a file.
    Content(String),
    /// A file was written.
    Written,
    /// The names in a directory.
    Entries(Vec<String>),
    /// A command ended; `status` is missing where a signal ended it.
    Exited { status: Option<i32>, stdout: String, stderr: String },
    /// A command was killed at its time limit.
    TimedOut,
    /// The file system or the process could not be used.
    Failed(String),
}

/// Whether an output can come of an operation.
pub open spec fn yields(operation: OperationModel, output: LocalOutput) -> bool {
    match output {
        LocalOutput::Content(_) => operation is ReadFile,
        LocalOutput::Written => operation is WriteFile,
        LocalOutput::Entries(_) => operation is ListDir,
        LocalOutput::Exited { .. } => operation is Exec,
        LocalOutput::TimedOut => operation is Exec,
        LocalOutput::Failed(_) => true,
    }
}

/// The part of a file that a read returns.
pub open spec fn read_window(content: Seq<char>, offset: u64, limit: u64) -> Seq<char> {
    crate::text::clip(crate::text::clip_rest(content, offset as nat), limit as nat)
}

/// The result of a read: a part of the file, and whether that is all of it.
pub open spec fn read_result(content: Seq<char>, offset: u64, limit: u64) -> Tree {
    let part = read_window(content, offset, limit);
    Tree::Object(
        seq![
            ("bytes_returned"@, Tree::Number(Num::Int(crate::text::byte_len(part) as int))),
            ("content"@, Tree::Text(part)),
            ("total_bytes"@, Tree::Number(Num::Int(crate::text::byte_len(content) as int))),
            (
                "truncated"@,
                Tree::Bool(crate::text::byte_len(part) < crate::text::byte_len(content)),
            ),
        ],
    )
}

/// The exit status of a command as JSON.
pub open spec fn status_tree(status: Option<i32>) -> Tree {
    match status {
        Some(code) => Tree::Number(Num::Int(code as int)),
        None => Tree::Null,
    }
}

/// The part of a command's output that is returned.
pub open spec fn capped(output: Seq<char>) -> Seq<char> {
    crate::text::clip(output, MAX_OUTPUT_BYTES as nat)
}

/// Whether a command's output is too long to be returned whole.
pub open spec fn over_the_cap(output: Seq<char>) -> bool {
    crate::text::byte_len(output) > MAX_OUTPUT_BYTES
}

/// The result of a command.
pub open spec fn exec_result(status: Option<i32>, stdout: Seq<char>, stderr: Seq<char>) -> Tree {
    Tree::Object(
        seq![
            ("status"@, status_tree(status)),
            ("stderr"@, Tree::Text(capped(stderr))),
            ("stderr_truncated"@, Tree::Bool(over_the_cap(stderr))),
            ("stdout"@, Tree::Text(capped(stdout))),
            ("stdout_truncated"@, Tree::Bool(over_the_cap(stdout))),
        ],
    )
}

fn read_json(content: &str, offset: u64, limit: u64) -> (made: Json)
    ensures
        made@ == read_result(content@, offset, limit),
{
    let rest = clip_rest_text(content, offset);
    let part = clip_text(rest, limit);
    let returned = text_bytes(part) as u64;
    let total = text_bytes(content) as u64;
    let members = vec![
        member("bytes_returned", count(returned)),
        member("content", string(part)),
        member("total_bytes", count(total)),
        member("truncated", truth(returned < total)),
    ];
    proof {
        assert(crate::json::given(members@) =~= read_result(content@, offset, limit)->Object_0);
        crate::ordering::reads_are_ordered(content@, offset, limit);
    }
    object(members)
}

fn status_json(status: Option<i32>) -> (made: Json)
    ensures
        made@ == status_tree(status),
{
    match status {
        Some(code) => if code >= 0 {
            Json::Number(Number::PosInt(code as u64))
        } else {
            Json::Number(Number::NegInt(code as i64))
        },
        None => Json::Null,
    }
}

fn exec_json(status: Option<i32>, stdout: &str, stderr: &str) -> (made: Json)
    ensures
        made@ == exec_result(status, stdout@, stderr@),
{
    let members = vec![
        member("status", status_json(status)),
        member("stderr", string(clip_text(stderr, MAX_OUTPUT_BYTES))),
        member("stderr_truncated", truth(text_bytes(stderr) as u64 > MAX_OUTPUT_BYTES)),
        member("stdout", string(clip_text(stdout, MAX_OUTPUT_BYTES))),
        member("stdout_truncated", truth(text_bytes(stdout) as u64 > MAX_OUTPUT_BYTES)),
    ];
    proof {
        assert(crate::json::given(members@) =~= exec_result(status, stdout@, stderr@)->Object_0);
        crate::ordering::commands_are_ordered(status, stdout@, stderr@);
    }
    object(members)
}

fn written_json() -> (made: Json)
    ensures
        made@ == Tree::Object(seq![("ok"@, Tree::Bool(true))]),
{
    object1("ok", truth(true))
}

fn entries_json(entries: &Vec<String>) -> (made: Json)
    ensures
        made@ == Tree::Object(
            seq![("entries"@, crate::json::text_array(crate::json::texts(entries@)))],
        ),
{
    object1("entries", strings(entries))
}

// ---- the environment of commands ----------------------------------------------------

/// One variable of a process's environment; its value is the operating system's bytes.
#[derive(Debug)]
pub struct EnvVar {
    pub name: String,
    pub value: Vec<u8>,
}

/// The model of an environment: each variable's name and value.
pub type EnvModel = Seq<(Seq<char>, Seq<u8>)>;

/// The model of an environment.
pub open spec fn env_model(vars: Seq<EnvVar>) -> EnvModel {
    vars.map_values(|var: EnvVar| (var.name@, var.value@))
}

/// What a command is given of an environment: the listed variables that are set there.
pub open spec fn passed_through(names: Seq<Seq<char>>, ambient: EnvModel) -> EnvModel
    decreases names.len(),
{
    if names.len() == 0 {
        seq![]
    } else {
        let before = passed_through(names.drop_last(), ambient);
        match crate::keyed::find(ambient, names.last()) {
            Some(value) => before.push((names.last(), value)),
            None => before,
        }
    }
}

/// The value of a variable.
fn value_of(ambient: &Vec<EnvVar>, name: &str) -> (value: Option<Vec<u8>>)
    ensures
        match value {
            Some(value) => crate::keyed::find(env_model(ambient@), name@) == Some(value@),
            None => crate::keyed::find(env_model(ambient@), name@) is None,
        },
{
    let ghost all = env_model(ambient@);
    let mut i: usize = 0;
    assert(all.skip(0) =~= all);
    while i < ambient.len()
        invariant
            i <= ambient.len(),
            all == env_model(ambient@),
            crate::keyed::find(all, name@) == crate::keyed::find(all.skip(i as int), name@),
        decreases ambient.len() - i,
    {
        assert(all.skip(i as int)[0] == (ambient[i as int].name@, ambient[i as int].value@));
        if same_text(ambient[i].name.as_str(), name) {
            return Some(copy_bytes(&ambient[i].value));
        }
        assert(all.skip(i as int).drop_first() =~= all.skip(i + 1));
        i = i + 1;
    }
    None
}

// ---- paths --------------------------------------------------------------------------

/// What the file system says of a path: each part as far as it was asked for.
#[derive(Debug)]
pub struct PathLookup {
    /// The workspace's root, with symbolic links resolved, or why it cannot be.
    pub root: Result<ResolvedPath, String>,
    /// The path below the root, with symbolic links resolved, or why it cannot be.
    pub target: Result<ResolvedPath, String>,
    /// Whether anything is present at the path, be it a dangling link.
    pub present: bool,
    /// The directory that holds the path, with symbolic links resolved, or why it cannot
    /// be.
    pub parent: Result<ResolvedPath, String>,
}

/// Where a path leads before it is known to lie in the workspace.
pub open spec fn leads_to(relative: Seq<char>, must_exist: bool, lookup: PathLookup) -> Result<
    PathModel,
    Seq<char>,
>
    recommends
        lookup.root is Ok,
{
    let below = crate::paths::path_model(lookup.root->Ok_0@) + crate::paths::entries(relative);
    match lookup.target {
        Ok(path) => Ok(crate::paths::path_model(path@)),
        Err(why) => if must_exist {
            Err(why@)
        } else if lookup.present {
            Err("path escapes workspace"@)
        } else if below.len() == 0 {
            Err("invalid path"@)
        } else {
            match lookup.parent {
                Ok(parent) => Ok(crate::paths::path_model(parent@).push(below.last())),
                Err(_) => Err(why@),
            }
        },
    }
}

/// Which file a workspace-relative path names, or why it names none.
pub open spec fn resolved(relative: Seq<char>, must_exist: bool, lookup: PathLookup) -> Result<
    PathModel,
    Seq<char>,
> {
    if !crate::paths::stays_below(relative) {
        Err("path must be workspace-relative: "@ + relative)
    } else {
        match lookup.root {
            Err(why) => Err(why@),
            Ok(root) => match leads_to(relative, must_exist, lookup) {
                Err(why) => Err(why),
                Ok(path) => if crate::paths::lies_in(path, crate::paths::path_model(root@)) {
                    Ok(path)
                } else {
                    Err("path escapes workspace"@)
                },
            },
        }
    }
}

fn copy_path(path: &ResolvedPath) -> (copy: ResolvedPath)
    ensures
        crate::paths::path_model(copy@) == crate::paths::path_model(path@),
{
    let mut copy: ResolvedPath = Vec::new();
    let mut i: usize = 0;
    while i < path.len()
        invariant
            i <= path.len(),
            copy.len() == i,
            forall|j: int| 0 <= j < i ==> (#[trigger] copy[j])@ == path[j]@,
        decreases path.len() - i,
    {
        copy.push(copy_bytes(&path[i]));
        i = i + 1;
    }
    assert(crate::paths::path_model(copy@) =~= crate::paths::path_model(path@));
    copy
}

fn copy_bytes(bytes: &Vec<u8>) -> (copy: Vec<u8>)
    ensures
        copy@ == bytes@,
{
    let mut copy: Vec<u8> = Vec::new();
    let mut i: usize = 0;
    while i < bytes.len()
        invariant
            i <= bytes.len(),
            copy@ == bytes@.take(i as int),
        decreases bytes.len() - i,
    {
        copy.push(bytes[i]);
        assert(bytes@.take(i + 1) =~= bytes@.take(i as int).push(bytes@[i as int]));
        i = i + 1;
    }
    assert(bytes@.take(bytes.len() as int) =~= bytes@);
    copy
}

/// The last entry of a path below a root.
fn last_name(root: &ResolvedPath, relative: &str) -> (name: Option<Vec<u8>>)
    ensures
        ({
            let below = crate::paths::path_model(root@) + crate::paths::entries(relative@);
            match name {
                Some(name) => below.len() > 0 && name@ == below.last(),
                None => below.len() == 0,
            }
        }),
{
    match last_entry(relative) {
        Some(name) => Some(name),
        None => {
            let n = root.len();
            if n == 0 {
                None
            } else {
                Some(copy_bytes(&root[n - 1]))
            }
        },
    }
}

// ---- the workbench ------------------------------------------------------------------

/// A path in the operating system's own form, carried as it is.
#[verifier::external_type_specification]
#[verifier::external_body]
pub struct ExPathBuf(std::path::PathBuf);

/// Workspace-constrained primitives.
#[derive(Debug)]
pub struct FsProcessWorkbench {
    pub root: PathBuf,
    pub allow_write: bool,
    pub allow_execute: bool,
    pub exec_timeout_nanos: u128,
    /// Environment variables passed through to child processes. Everything else is
    /// cleared so a worker cannot read ambient host credentials out of its own env.
    pub exec_env_allowlist: Vec<String>,
}

impl FsProcessWorkbench {
    pub fn new(root: PathBuf, allow_write: bool, allow_execute: bool) -> (workbench: Self)
        ensures
            workbench.root == root,
            workbench.allow_write == allow_write,
            workbench.allow_execute == allow_execute,
            workbench.exec_timeout_nanos == DEFAULT_EXEC_TIMEOUT == 120_000_000_000,
            crate::json::texts(workbench.exec_env_allowlist@) == seq!["PATH"@],
    {
        let workbench = FsProcessWorkbench {
            root,
            allow_write,
            allow_execute,
            exec_timeout_nanos: DEFAULT_EXEC_TIMEOUT,
            exec_env_allowlist: vec!["PATH".to_owned()],
        };
        assert(crate::json::texts(workbench.exec_env_allowlist@) =~= seq!["PATH"@]);
        workbench
    }

    pub fn with_exec_timeout(self, timeout_nanos: u128) -> (workbench: Self)
        ensures
            workbench == (FsProcessWorkbench { exec_timeout_nanos: timeout_nanos, ..self }),
    {
        FsProcessWorkbench { exec_timeout_nanos: timeout_nanos, ..self }
    }

    pub fn with_exec_env_allowlist(self, names: Vec<String>) -> (workbench: Self)
        ensures
            workbench == (FsProcessWorkbench { exec_env_allowlist: names, ..self }),
    {
        FsProcessWorkbench { exec_env_allowlist: names, ..self }
    }

    /// Resolve a workspace-relative path, refusing anything that leaves the workspace.
    ///
    /// Symbolic links are resolved on the final component too. Checking only the parent
    /// directory would let a link inside the workspace redirect a write to an arbitrary
    /// host path. A path that does not resolve while something is present there is a
    /// dangling link, and is refused.
    pub fn resolve(&self, relative: &str, must_exist: bool, lookup: &PathLookup) -> (result: Result<
        ResolvedPath,
        WorkerError,
    >)
        ensures
            match resolved(relative@, must_exist, *lookup) {
                Ok(path) => result matches Ok(found) && crate::paths::path_model(found@) == path,
                Err(why) => result matches Err(error) && error@ == WorkerErrorModel::Local(why),
            },
    {
        if !is_relative(relative) {
            let why = labelled("path must be workspace-relative: ", relative);
            return Err(WorkerError::Local(why));
        }
        let root = match &lookup.root {
            Ok(root) => root,
            Err(why) => {
                return failed(why.as_str());
            },
        };
        let found = match &lookup.target {
            Ok(path) => copy_path(path),
            Err(why) => {
                if must_exist {
                    return failed(why.as_str());
                }
                if lookup.present {
                    return failed("path escapes workspace");
                }
                let name = match last_name(root, relative) {
                    Some(name) => name,
                    None => {
                        return failed("invalid path");
                    },
                };
                match &lookup.parent {
                    Ok(parent) => {
                        let mut path = copy_path(parent);
                        let ghost before = crate::paths::path_model(path@);
                        let ghost added = name@;
                        path.push(name);
                        assert(crate::paths::path_model(path@) =~= before.push(added));
                        path
                    },
                    Err(_) => {
                        return failed(why.as_str());
                    },
                }
            },
        };
        if !starts_with(&found, root) {
            return failed("path escapes workspace");
        }
        Ok(found)
    }

    /// Decides whether an operation may run, and with what.
    ///
    /// `authority` is the ticket's local authority: the upper bound on what the operation
    /// may do, beside the ceiling of this workbench.
    pub fn execute(&self, operation: &str, arguments: &Json, authority: &LocalAuthority) -> (result:
        Result<LocalOperation, WorkerError>)
        ensures
            plan_model(result) == planned(
                self.allow_write,
                self.allow_execute,
                operation@,
                arguments@,
                *authority,
            ),
    {
        if same_text(operation, "read_file") {
            self.plan_read(arguments, authority)
        } else if same_text(operation, "write_file") {
            self.plan_write(arguments, authority)
        } else if same_text(operation, "list_dir") {
            if !authority.read_workspace {
                return denied("workspace reads denied");
            }
            Ok(LocalOperation::ListDir { path: text_or_default(arguments, "path", ".") })
        } else if same_text(operation, "exec") {
            self.plan_exec(arguments, authority)
        } else {
            Err(WorkerError::Local(labelled("unknown local operation: ", operation)))
        }
    }

    fn plan_read(&self, arguments: &Json, authority: &LocalAuthority) -> (result: Result<
        LocalOperation,
        WorkerError,
    >)
        ensures
            plan_model(result) == planned_read(arguments@, *authority),
    {
        if !authority.read_workspace {
            return denied("workspace reads denied");
        }
        match arguments.str_at("path") {
            None => failed("read_file requires path"),
            Some(path) => {
                let offset: u64 = match arguments.u64_at("offset") {
                    Some(offset) => offset,
                    None => 0,
                };
                let limit: u64 = match arguments.u64_at("limit") {
                    Some(limit) => if limit < MAX_READ_BYTES {
                        limit
                    } else {
                        MAX_READ_BYTES
                    },
                    None => MAX_READ_BYTES,
                };
                Ok(LocalOperation::ReadFile { path: path.to_owned(), offset, limit })
            },
        }
    }

    fn plan_write(&self, arguments: &Json, authority: &LocalAuthority) -> (result: Result<
        LocalOperation,
        WorkerError,
    >)
        ensures
            plan_model(result) == planned_write(self.allow_write, arguments@, *authority),
    {
        if !self.allow_write {
            return denied("workspace writes denied");
        }
        if !authority.write_workspace {
            return denied("ticket does not grant workspace writes");
        }
        match arguments.str_at("path") {
            None => failed("write_file requires path"),
            Some(path) => match arguments.str_at("content") {
                None => failed("write_file requires content"),
                Some(content) => Ok(
                    LocalOperation::WriteFile {
                        path: path.to_owned(),
                        content: content.to_owned(),
                    },
                ),
            },
        }
    }

    fn plan_exec(&self, arguments: &Json, authority: &LocalAuthority) -> (result: Result<
        LocalOperation,
        WorkerError,
    >)
        ensures
            plan_model(result) == planned_exec(self.allow_execute, arguments@, *authority),
    {
        if !self.allow_execute {
            return denied("local execution denied");
        }
        if !authority.execute_local {
            return denied("ticket does not grant local execution");
        }
        match arguments.str_at("program") {
            None => failed("exec requires program"),
            Some(program) => {
                let args = match arguments.get("args") {
                    Some(Json::Array(items)) => collect_texts(items),
                    _ => Vec::new(),
                };
                assert(!(arguments@.get("args"@) matches Some(Tree::Array(_)))
                    ==> crate::json::texts(args@) =~= seq![]);
                Ok(
                    LocalOperation::Exec {
                        program: program.to_owned(),
                        args,
                        cwd: text_or_default(arguments, "cwd", "."),
                    },
                )
            },
        }
    }

    /// The environment that a command starts with, out of the ambient one: everything that
    /// is not listed is left out.
    pub fn child_env(&self, ambient: &Vec<EnvVar>) -> (vars: Vec<EnvVar>)
        ensures
            env_model(vars@) == passed_through(
                crate::json::texts(self.exec_env_allowlist@),
                env_model(ambient@),
            ),
    {
        let ghost names = crate::json::texts(self.exec_env_allowlist@);
        let mut vars: Vec<EnvVar> = Vec::new();
        let mut i: usize = 0;
        assert(env_model(vars@) =~= passed_through(names.take(0), env_model(ambient@)));
        while i < self.exec_env_allowlist.len()
            invariant
                i <= self.exec_env_allowlist.len(),
                names == crate::json::texts(self.exec_env_allowlist@),
                env_model(vars@) == passed_through(names.take(i as int), env_model(ambient@)),
            decreases self.exec_env_allowlist.len() - i,
        {
            let name = self.exec_env_allowlist[i].as_str();
            let ghost before = env_model(vars@);
            proof {
                assert(names.take(i + 1).drop_last() =~= names.take(i as int));
                assert(names.take(i + 1).last() == name@);
            }
            if let Some(value) = value_of(ambient, name) {
                let ghost set = value@;
                vars.push(EnvVar { name: name.to_owned(), value });
                assert(env_model(vars@) =~= before.push((name@, set)));
            }
            i = i + 1;
        }
        assert(names.take(names.len() as int) =~= names);
        vars
    }

    /// The bounded result of an operation.
    pub fn completed(&self, operation: &LocalOperation, output: LocalOutput) -> (result: Result<
        Json,
        WorkerError,
    >)
        requires
            yields(operation@, output),
        ensures
            match output {
                LocalOutput::Content(content) => result matches Ok(made) && made@ == read_result(
                    content@,
                    operation@->ReadFile_1,
                    operation@->ReadFile_2,
                ),
                LocalOutput::Written => result matches Ok(made) && made@ == Tree::Object(
                    seq![("ok"@, Tree::Bool(true))],
                ),
                LocalOutput::Entries(entries) => result matches Ok(made) && made@ == Tree::Object(
                    seq![("entries"@, crate::json::text_array(crate::json::texts(entries@)))],
                ),
                LocalOutput::Exited { status, stdout, stderr } => result matches Ok(made) && made@
                    == exec_result(status, stdout@, stderr@),
                LocalOutput::TimedOut => result matches Err(error) && error@
                    == WorkerErrorModel::Local(
                    "command exceeded "@ + crate::text::decimal(
                        (self.exec_timeout_nanos / 1_000_000_000) as nat,
                    ) + "s timeout"@,
                ),
                LocalOutput::Failed(why) => result matches Err(error) && error@
                    == WorkerErrorModel::Local(why@),
            },
    {
        match output {
            LocalOutput::Content(content) => {
                let (offset, limit): (u64, u64) = match operation {
                    LocalOperation::ReadFile { offset, limit, .. } => (*offset, *limit),
                    _ => (0, MAX_READ_BYTES),
                };
                Ok(read_json(content.as_str(), offset, limit))
            },
            LocalOutput::Written => Ok(written_json()),
            LocalOutput::Entries(entries) => Ok(entries_json(&entries)),
            LocalOutput::Exited { status, stdout, stderr } => Ok(
                exec_json(status, stdout.as_str(), stderr.as_str()),
            ),
            LocalOutput::TimedOut => {
                let mut why = "command exceeded ".to_owned();
                let seconds = decimal_text(self.exec_timeout_nanos / 1_000_000_000);
                why.append(seconds.as_str());
                why.append("s timeout");
                Err(WorkerError::Local(why))
            },
            LocalOutput::Failed(why) => Err(WorkerError::Local(why)),
        }
    }
}

// ---- laws ---------------------------------------------------------------------------

/// An operation is permitted only by the ticket's authority and the workbench's ceiling
/// together, whatever its arguments are.
pub proof fn an_operation_needs_both_authorities(
    allow_write: bool,
    allow_execute: bool,
    operation: Seq<char>,
    arguments: Tree,
    authority: LocalAuthority,
)
    ensures
        planned(allow_write, allow_execute, operation, arguments, authority) matches Ok(found) ==> {
            &&& found is ReadFile ==> authority.read_workspace
            &&& found is ListDir ==> authority.read_workspace
            &&& found is WriteFile ==> allow_write && authority.write_workspace
            &&& found is Exec ==> allow_execute && authority.execute_local
        },
{
}

/// An operation is denied exactly if the ticket or the ceiling lacks what it needs; any
/// other refusal is an error of the call.
pub proof fn a_denial_means_a_lack_of_authority(
    allow_write: bool,
    allow_execute: bool,
    operation: Seq<char>,
    arguments: Tree,
    authority: LocalAuthority,
)
    ensures
        (planned(allow_write, allow_execute, operation, arguments, authority) matches Err(error)
            && error is Denied) <==> {
            ||| (operation == "read_file"@ || operation == "list_dir"@)
                && !authority.read_workspace
            ||| operation == "write_file"@ && !(allow_write && authority.write_workspace)
            ||| operation == "exec"@ && !(allow_execute && authority.execute_local)
        },
{
    reveal_strlit("read_file");
    reveal_strlit("write_file");
    reveal_strlit("list_dir");
    reveal_strlit("exec");
    assert("read_file"@.len() == 9);
    assert("write_file"@.len() == 10);
    assert("list_dir"@.len() == 8);
    assert("exec"@.len() == 4);
}

/// A command sees exactly the listed variables that are set in the ambient environment,
/// with their values, and none that is not listed.
pub proof fn a_command_sees_listed_variables_alone(
    names: Seq<Seq<char>>,
    ambient: EnvModel,
    name: Seq<char>,
    value: Seq<u8>,
)
    ensures
        passed_through(names, ambient).contains((name, value)) <==> names.contains(name)
            && crate::keyed::find(ambient, name) == Some(value),
    decreases names.len(),
{
    let passed = passed_through(names, ambient);
    if names.len() > 0 {
        let rest = names.drop_last();
        let before = passed_through(rest, ambient);
        a_command_sees_listed_variables_alone(rest, ambient, name, value);
        assert(names =~= rest.push(names.last()));
        if names.contains(name) && name != names.last() {
            let i = choose|i: int| 0 <= i < names.len() && names[i] == name;
            assert(rest[i] == name);
        }
        if rest.contains(name) {
            let i = choose|i: int| 0 <= i < rest.len() && rest[i] == name;
            assert(names[i] == name);
        }
        assert(names[names.len() - 1] == names.last());
        if let Some(set) = crate::keyed::find(ambient, names.last()) {
            assert(passed =~= before.push((names.last(), set)));
            assert(passed[before.len() as int] == (names.last(), set));
            if before.contains((name, value)) {
                let i = choose|i: int| 0 <= i < before.len() && before[i] == (name, value);
                assert(passed[i] == (name, value));
            }
            if passed.contains((name, value)) && (name, value) != (names.last(), set) {
                let i = choose|i: int| 0 <= i < passed.len() && passed[i] == (name, value);
                assert(before[i] == (name, value));
            }
        }
    }
}

/// A resolved path lies in the resolved workspace, wherever links lead.
pub proof fn a_resolved_path_lies_in_the_workspace(
    relative: Seq<char>,
    must_exist: bool,
    lookup: PathLookup,
)
    ensures
        resolved(relative, must_exist, lookup) matches Ok(path) ==> lookup.root matches Ok(root)
            && crate::paths::lies_in(path, crate::paths::path_model(root@)),
{
}

/// Absolute paths and parent traversal are refused before the file system counts.
pub proof fn a_path_that_leaves_is_refused(
    relative: Seq<char>,
    must_exist: bool,
    lookup: PathLookup,
)
    requires
        (relative.len() > 0 && relative[0] == '/') || crate::paths::segments(relative).contains(
            ".."@,
        ),
    ensures
        resolved(relative, must_exist, lookup) == Err::<PathModel, _>(
            "path must be workspace-relative: "@ + relative,
        ),
{
}

/// Neither a link out of the workspace nor a dangling link can be written through.
pub proof fn a_link_out_is_refused(relative: Seq<char>, must_exist: bool, lookup: PathLookup)
    requires
        crate::paths::stays_below(relative),
        lookup.root is Ok,
        (lookup.target matches Ok(target) && !crate::paths::lies_in(
            crate::paths::path_model(target@),
            crate::paths::path_model(lookup.root->Ok_0@),
        )) || (lookup.target is Err && !must_exist && lookup.present),
    ensures
        resolved(relative, must_exist, lookup) == Err::<PathModel, _>("path escapes workspace"@),
{
}

proof fn only_the_empty_text_has_no_bytes(s: Seq<char>)
    ensures
        crate::text::byte_len(s) == 0 <==> s.len() == 0,
{
}

/// A read returns no more than was asked for and permitted, and is marked as truncated
/// exactly if it is not the whole file.
pub proof fn reads_are_bounded_and_marked(content: Seq<char>, offset: u64, limit: u64)
    ensures
        crate::text::byte_len(read_window(content, offset, limit)) <= limit,
        read_limit(Some(limit)) <= MAX_READ_BYTES,
        read_limit(None) <= MAX_READ_BYTES,
        crate::text::byte_len(read_window(content, offset, limit)) < crate::text::byte_len(content)
            <==> read_window(content, offset, limit) != content,
{
    let skipped = crate::text::clip(content, offset as nat);
    let rest = crate::text::clip_rest(content, offset as nat);
    let part = crate::text::clip(rest, limit as nat);
    let tail = crate::text::clip_rest(rest, limit as nat);
    crate::text::clip_is_the_longest_prefix_within(content, offset as nat);
    crate::text::clip_is_the_longest_prefix_within(rest, limit as nat);
    crate::text::byte_len_concat(skipped, rest);
    crate::text::byte_len_concat(part, tail);
    only_the_empty_text_has_no_bytes(skipped);
    only_the_empty_text_has_no_bytes(tail);
    if crate::text::byte_len(part) >= crate::text::byte_len(content) {
        assert(part + tail =~= part);
        assert(skipped + rest =~= rest);
    }
}

/// A read that was cut can be continued: what stands behind it in the file is read from the
/// offset plus the bytes that it returned, and nothing is skipped or repeated.
pub proof fn a_cut_read_can_be_continued(content: Seq<char>, offset: u64, limit: u64)
    requires
        crate::text::byte_len(crate::text::clip(content, offset as nat)) == offset,
    ensures
        ({
            let part = read_window(content, offset, limit);
            let next = offset as nat + crate::text::byte_len(part);
            &&& part + crate::text::clip_rest(content, next) == crate::text::clip_rest(
                content,
                offset as nat,
            )
            &&& crate::text::byte_len(crate::text::clip(content, next)) == next
        }),
{
    let rest = crate::text::clip_rest(content, offset as nat);
    let part = read_window(content, offset, limit);
    let next = offset as nat + crate::text::byte_len(part);
    let k = crate::text::clip_len(content, offset as nat) as int;
    let m = crate::text::clip_len(rest, limit as nat) as int;
    crate::text::clip_is_the_longest_prefix_within(content, offset as nat);
    crate::text::clip_is_the_longest_prefix_within(rest, limit as nat);
    assert(content.take(k + m) =~= content.take(k) + part);
    crate::text::byte_len_concat(content.take(k), part);
    crate::text::a_prefix_is_clipped_at_its_length(content, k + m);
    assert(part + crate::text::clip_rest(content, next) =~= rest);
}

/// A command's output is cut at the cap, and marked as truncated exactly if it was cut.
pub proof fn outputs_are_capped_and_marked(output: Seq<char>)
    ensures
        crate::text::byte_len(capped(output)) <= MAX_OUTPUT_BYTES,
        over_the_cap(output) <==> capped(output) != output,
{
    crate::text::clip_is_the_longest_prefix_within(output, MAX_OUTPUT_BYTES as nat);
}

proof fn operation_names_differ()
    ensures
        "read_file"@ != "write_file"@,
        "read_file"@ != "list_dir"@,
        "read_file"@ != "exec"@,
        "write_file"@ != "list_dir"@,
        "write_file"@ != "exec"@,
        "list_dir"@ != "exec"@,
{
    reveal_strlit("read_file");
    reveal_strlit("write_file");
    reveal_strlit("list_dir");
    reveal_strlit("exec");
    assert("read_file"@.len() == 9);
    assert("write_file"@.len() == 10);
    assert("list_dir"@.len() == 8);
    assert("exec"@.len() == 4);
}

/// A permitted write that names a path and a content is planned as a write of that content
/// to that path; one that lacks either says which, the path first.
pub proof fn a_write_puts_its_content_at_its_path(
    allow_execute: bool,
    arguments: Tree,
    authority: LocalAuthority,
    p: Seq<char>,
    c: Seq<char>,
)
    requires
        authority.write_workspace,
    ensures
        ({
            let plan = planned(true, allow_execute, "write_file"@, arguments, authority);
            let names_path = arguments.get("path"@) == Some(Tree::Text(p));
            let no_path = !(arguments.get("path"@) matches Some(Tree::Text(_)));
            let no_content = !(arguments.get("content"@) matches Some(Tree::Text(_)));
            &&& names_path && arguments.get("content"@) == Some(Tree::Text(c)) ==> (plan matches Ok(
                OperationModel::WriteFile(to, what),
            ) && to == p && what == c)
            &&& no_path ==> plan == Err::<OperationModel, _>(
                WorkerErrorModel::Local("write_file requires path"@),
            )
            &&& names_path && no_content ==> plan == Err::<OperationModel, _>(
                WorkerErrorModel::Local("write_file requires content"@),
            )
        }),
{
    operation_names_differ();
}

/// A permitted read that names a path is planned as a read of that path from the given
/// offset, or from the start, of as many bytes as were asked for but no more than 16384.
pub proof fn a_read_starts_at_its_offset(
    allow_write: bool,
    allow_execute: bool,
    arguments: Tree,
    authority: LocalAuthority,
    p: Seq<char>,
    n: u64,
)
    requires
        authority.read_workspace,
    ensures
        ({
            let plan = planned(allow_write, allow_execute, "read_file"@, arguments, authority);
            let counts = |value: Option<Tree>|
                value matches Some(Tree::Number(Num::Int(m))) && 0 <= m <= u64::MAX;
            let given = Some(Tree::Number(Num::Int(n as int)));
            &&& arguments.get("path"@) == Some(Tree::Text(p)) ==> (plan matches Ok(
                OperationModel::ReadFile(from, offset, limit),
            ) && from == p && (arguments.get("offset"@) == given ==> offset == n) && (!counts(
                arguments.get("offset"@),
            ) ==> offset == 0) && (arguments.get("limit"@) == given ==> limit == (if n < 16384 {
                n as int
            } else {
                16384
            })) && (!counts(arguments.get("limit"@)) ==> limit == 16384))
            &&& !(arguments.get("path"@) matches Some(Tree::Text(_))) ==> plan == Err::<
                OperationModel,
                _,
            >(WorkerErrorModel::Local("read_file requires path"@))
        }),
{
    operation_names_differ();
}

/// A permitted listing is of the given path, or of the workspace itself.
pub proof fn a_listing_is_of_its_path(
    allow_write: bool,
    allow_execute: bool,
    arguments: Tree,
    authority: LocalAuthority,
    p: Seq<char>,
)
    requires
        authority.read_workspace,
    ensures
        ({
            let plan = planned(allow_write, allow_execute, "list_dir"@, arguments, authority);
            &&& arguments.get("path"@) == Some(Tree::Text(p)) ==> plan == Ok::<_, WorkerErrorModel>(
                OperationModel::ListDir(p),
            )
            &&& !(arguments.get("path"@) matches Some(Tree::Text(_))) ==> plan == Ok::<
                _,
                WorkerErrorModel,
            >(OperationModel::ListDir("."@))
        }),
{
    operation_names_differ();
}

/// A permitted command is the given program with the strings of the given arguments, in the
/// given directory or in the workspace itself.
pub proof fn a_command_runs_its_program(
    allow_write: bool,
    arguments: Tree,
    authority: LocalAuthority,
    p: Seq<char>,
    items: Seq<Tree>,
    d: Seq<char>,
)
    requires
        authority.execute_local,
    ensures
        ({
            let plan = planned(allow_write, true, "exec"@, arguments, authority);
            &&& arguments.get("program"@) == Some(Tree::Text(p)) ==> (plan matches Ok(
                OperationModel::Exec(program, args, cwd),
            ) && program == p && (arguments.get("args"@) == Some(Tree::Array(items)) ==> args
                == text_items(items)) && (!(arguments.get("args"@) matches Some(Tree::Array(_)))
                ==> args.len() == 0) && (arguments.get("cwd"@) == Some(Tree::Text(d)) ==> cwd == d)
                && (!(arguments.get("cwd"@) matches Some(Tree::Text(_))) ==> cwd == "."@))
            &&& !(arguments.get("program"@) matches Some(Tree::Text(_))) ==> plan == Err::<
                OperationModel,
                _,
            >(WorkerErrorModel::Local("exec requires program"@))
        }),
{
    operation_names_differ();
}

/// The strings among some items are kept in their order, and everything else is left out.
pub proof fn only_strings_are_kept(items: Seq<Tree>, next: Tree)
    ensures
        text_items(Seq::empty()).len() == 0,
        next matches Tree::Text(text) ==> text_items(items.push(next)) == text_items(items).push(
            text,
        ),
        !(next is Text) ==> text_items(items.push(next)) == text_items(items),
{
    assert(items.push(next).drop_last() =~= items);
    assert(items.push(next).last() == next);
}

/// An operation that is none of the four is refused by its name; and whoever lacks an
/// authority is told which, the workbench's ceiling first.
pub proof fn a_refusal_says_what_is_lacking(
    allow_write: bool,
    allow_execute: bool,
    operation: Seq<char>,
    arguments: Tree,
    authority: LocalAuthority,
)
    ensures
        ({
            let plan = planned(allow_write, allow_execute, operation, arguments, authority);
            let reads = operation == "read_file"@ || operation == "list_dir"@;
            let refused = |why: Seq<char>|
                plan == Err::<OperationModel, _>(WorkerErrorModel::Denied(why));
            &&& !reads && operation != "write_file"@ && operation != "exec"@ ==> plan == Err::<
                OperationModel,
                _,
            >(WorkerErrorModel::Local("unknown local operation: "@ + operation))
            &&& reads && !authority.read_workspace ==> refused("workspace reads denied"@)
            &&& operation == "write_file"@ && !allow_write ==> refused("workspace writes denied"@)
            &&& operation == "write_file"@ && allow_write && !authority.write_workspace ==> refused(
                "ticket does not grant workspace writes"@,
            )
            &&& operation == "exec"@ && !allow_execute ==> refused("local execution denied"@)
            &&& operation == "exec"@ && allow_execute && !authority.execute_local ==> refused(
                "ticket does not grant local execution"@,
            )
        }),
{
    operation_names_differ();
}

/// An operation works on the path that it was planned with, a command in its directory; only
/// a write may be to a path that is not there yet.
pub proof fn an_operation_works_on_its_path(
    p: Seq<char>,
    c: Seq<char>,
    offset: u64,
    limit: u64,
    args: Seq<Seq<char>>,
)
    ensures
        OperationModel::ReadFile(p, offset, limit).path() == p,
        OperationModel::WriteFile(p, c).path() == p,
        OperationModel::ListDir(p).path() == p,
        OperationModel::Exec(c, args, p).path() == p,
        OperationModel::ReadFile(p, offset, limit).must_exist(),
        OperationModel::ListDir(p).must_exist(),
        OperationModel::Exec(c, args, p).must_exist(),
        !OperationModel::WriteFile(p, c).must_exist(),
{
}

/// A read returns the longest part of the file that starts at the offset and keeps within
/// the limit. Its result tells that part, how many bytes it has, how many the file has, and
/// whether the two differ.
pub proof fn a_read_returns_what_stands_there(content: Seq<char>, offset: u64, limit: u64)
    ensures
        ({
            let part = read_window(content, offset, limit);
            let result = read_result(content, offset, limit);
            &&& result.get("content"@) == Some(Tree::Text(part))
            &&& result.get("bytes_returned"@) == Some(
                Tree::Number(Num::Int(vstd::utf8::encode_utf8(part).len() as int)),
            )
            &&& result.get("total_bytes"@) == Some(
                Tree::Number(Num::Int(vstd::utf8::encode_utf8(content).len() as int)),
            )
            &&& result.get("truncated"@) == Some(Tree::Bool(part != content))
            &&& exists|start: int| #[trigger]
                starts_at(content, offset, start) && start + part.len() <= content.len() && part
                    == content.subrange(start, start + part.len()) && crate::text::byte_len(part)
                    <= limit && (start + part.len() < content.len() ==> crate::text::byte_len(part)
                    + crate::text::char_width(content[start + part.len()]) > limit)
        }),
{
    let part = read_window(content, offset, limit);
    let members = read_result(content, offset, limit)->Object_0;
    crate::ordering::reads_are_ordered(content, offset, limit);
    crate::ordering::a_member_is_found(members, 0);
    crate::ordering::a_member_is_found(members, 1);
    crate::ordering::a_member_is_found(members, 2);
    crate::ordering::a_member_is_found(members, 3);
    crate::text::byte_len_is_utf8_len(part);
    crate::text::byte_len_is_utf8_len(content);
    reads_are_bounded_and_marked(content, offset, limit);
    let start = crate::text::clip_len(content, offset as nat) as int;
    let rest = crate::text::clip_rest(content, offset as nat);
    crate::text::clip_is_the_longest_prefix_within(content, offset as nat);
    crate::text::clip_is_the_longest_prefix_within(rest, limit as nat);
    assert(part =~= content.subrange(start, start + part.len()));
    assert(starts_at(content, offset, start));
}

/// Whether the character at a position is where a byte offset leads: as many whole
/// characters stand before it as fit the offset.
pub open spec fn starts_at(content: Seq<char>, offset: u64, start: int) -> bool {
    &&& 0 <= start <= content.len()
    &&& crate::text::byte_len(content.take(start)) <= offset
    &&& start < content.len() ==> crate::text::byte_len(content.take(start))
        + crate::text::char_width(content[start]) > offset
}

/// A command's result tells its exit status, and of each output its own beginning and
/// whether it was cut.
pub proof fn a_command_tells_both_outputs(status: Option<i32>, out: Seq<char>, err: Seq<char>)
    ensures
        ({
            let result = exec_result(status, out, err);
            &&& result.get("status"@) == Some(
                match status {
                    Some(code) => Tree::Number(Num::Int(code as int)),
                    None => Tree::Null,
                },
            )
            &&& result.get("stdout"@) matches Some(Tree::Text(shown)) && shown
                == crate::text::clip(out, 8192) && result.get("stdout_truncated"@) == Some(
                Tree::Bool(shown != out),
            )
            &&& result.get("stderr"@) matches Some(Tree::Text(shown)) && shown
                == crate::text::clip(err, 8192) && result.get("stderr_truncated"@) == Some(
                Tree::Bool(shown != err),
            )
        }),
{
    let members = exec_result(status, out, err)->Object_0;
    crate::ordering::commands_are_ordered(status, out, err);
    crate::ordering::a_member_is_found(members, 0);
    crate::ordering::a_member_is_found(members, 1);
    crate::ordering::a_member_is_found(members, 2);
    crate::ordering::a_member_is_found(members, 3);
    crate::ordering::a_member_is_found(members, 4);
    outputs_are_capped_and_marked(out);
    outputs_are_capped_and_marked(err);
}

/// A path that stays below the workspace leads to what the file system resolves it to. One
/// that is not there is an error where it has to be there; otherwise it is the last entry of
/// the path in the directory that holds it. Either way it has to lie in the workspace.
pub proof fn a_path_leads_where_it_resolves(
    relative: Seq<char>,
    must_exist: bool,
    lookup: PathLookup,
)
    requires
        crate::paths::stays_below(relative),
    ensures
        lookup.root matches Err(why) ==> resolved(relative, must_exist, lookup) == Err::<
            PathModel,
            _,
        >(why@),
        lookup.root matches Ok(root) ==> {
            let base = crate::paths::path_model(root@);
            let named = base + crate::paths::entries(relative);
            let found = resolved(relative, must_exist, lookup);
            &&& lookup.target matches Ok(target) ==> {
                let path = crate::paths::path_model(target@);
                &&& crate::paths::lies_in(path, base) ==> found == Ok::<_, Seq<char>>(path)
                &&& !crate::paths::lies_in(path, base) ==> found == Err::<PathModel, _>(
                    "path escapes workspace"@,
                )
            }
            &&& lookup.target matches Err(why) ==> {
                &&& must_exist ==> found == Err::<PathModel, _>(why@)
                &&& !must_exist && lookup.present ==> found == Err::<PathModel, _>(
                    "path escapes workspace"@,
                )
                &&& !must_exist && !lookup.present && named.len() == 0 ==> found == Err::<
                    PathModel,
                    _,
                >("invalid path"@)
                &&& !must_exist && !lookup.present && named.len() > 0 ==> match lookup.parent {
                    Err(_) => found == Err::<PathModel, _>(why@),
                    Ok(parent) => {
                        let path = crate::paths::path_model(parent@).push(named[named.len() - 1]);
                        if crate::paths::lies_in(path, base) {
                            found == Ok::<_, Seq<char>>(path)
                        } else {
                            found == Err::<PathModel, _>("path escapes workspace"@)
                        }
                    },
                }
            }
        },
{
}

/// An operation stands for exactly what it holds.
pub proof fn operations_stand_for_what_they_hold(
    path: String,
    content: String,
    offset: u64,
    limit: u64,
    args: Vec<String>,
)
    ensures
        (LocalOperation::ReadFile { path, offset, limit })@ == OperationModel::ReadFile(
            path@,
            offset,
            limit,
        ),
        (LocalOperation::WriteFile { path, content })@ == OperationModel::WriteFile(
            path@,
            content@,
        ),
        (LocalOperation::ListDir { path })@ == OperationModel::ListDir(path@),
        (LocalOperation::Exec { program: content, args, cwd: path })@ matches OperationModel::Exec(
            program,
            given,
            cwd,
        ) && program == content@ && cwd == path@ && given.len() == args@.len() && forall|i: int|
            0 <= i < given.len() ==> #[trigger] given[i] == args@[i]@,
{
}

/// The message of an error says its kind and its detail.
pub proof fn worker_errors_say_their_kind(
    detail: Seq<char>,
    error: BrokerError,
)
    ensures
        WorkerErrorModel::Model(detail).text() == "model error: "@ + detail,
        WorkerErrorModel::InvalidAction(detail).text() == "invalid worker action: "@ + detail,
        WorkerErrorModel::Local(detail).text() == "local workbench error: "@ + detail,
        WorkerErrorModel::Denied(detail).text() == "local authority denied: "@ + detail,
        WorkerErrorModel::Broker(error).text() == "capability broker error: "@ + error.text(),
        WorkerErrorModel::StepLimit.text() == "worker exceeded step limit"@,
{
}

/// Variables are passed on in the order in which they are listed.
pub proof fn variables_are_passed_in_order(
    names: Seq<Seq<char>>,
    name: Seq<char>,
    ambient: EnvModel,
)
    ensures
        passed_through(Seq::empty(), ambient).len() == 0,
        passed_through(names.push(name), ambient) == (match crate::keyed::find(ambient, name) {
            Some(value) => passed_through(names, ambient).push((name, value)),
            None => passed_through(names, ambient),
        }),
{
    assert(names.push(name).drop_last() =~= names);
    assert(names.push(name).last() == name);
}

/// What the workbench plans for a permitted write, read, listing and command is what the
/// arguments say: the content and the path, the path, the path, and the program.
pub proof fn the_workbench_plans_what_is_asked(
    workbench: FsProcessWorkbench,
    arguments: Json,
    authority: LocalAuthority,
    operation: &str,
    p: Seq<char>,
    c: Seq<char>,
    result: Result<LocalOperation, WorkerError>,
)
    requires
        workbench.allow_write,
        workbench.allow_execute,
        authority.read_workspace,
        authority.write_workspace,
        authority.execute_local,
        call_ensures(
            FsProcessWorkbench::execute,
            (&workbench, operation, &arguments, &authority),
            result,
        ),
    ensures
        operation@ == "write_file"@ && arguments@.get("path"@) == Some(Tree::Text(p))
            && arguments@.get("content"@) == Some(Tree::Text(c)) ==> (result matches Ok(
            LocalOperation::WriteFile { path, content },
        ) && path@ == p && content@ == c),
        operation@ == "read_file"@ && arguments@.get("path"@) == Some(Tree::Text(p)) ==> (
        result matches Ok(LocalOperation::ReadFile { path, .. }) && path@ == p),
        operation@ == "list_dir"@ && arguments@.get("path"@) == Some(Tree::Text(p)) ==> (
        result matches Ok(LocalOperation::ListDir { path }) && path@ == p),
        operation@ == "exec"@ && arguments@.get("program"@) == Some(Tree::Text(p))
            && arguments@.get("cwd"@) == Some(Tree::Text(c)) ==> (result matches Ok(
            LocalOperation::Exec { program, cwd, .. },
        ) && program@ == p && cwd@ == c),
{
    operation_names_differ();
    if let Ok(found) = result {
        assert(plan_model(result) == Ok::<_, WorkerErrorModel>(found@));
    }
}

/// What an operation yields: a file's part as it was asked for, an acknowledgement of a
/// write, the entries of a directory in order, and both outputs of a command. A time limit
/// and a failure are errors of the workbench.
pub proof fn an_operation_yields_its_own_result(
    workbench: FsProcessWorkbench,
    operation: LocalOperation,
    output: LocalOutput,
    result: Result<Json, WorkerError>,
)
    requires
        yields(operation@, output),
        call_ensures(FsProcessWorkbench::completed, (&workbench, &operation, output), result),
    ensures
        output is Written ==> (result matches Ok(made) && made@ == Tree::Object(
            seq![("ok"@, Tree::Bool(true))],
        )),
        output matches LocalOutput::Entries(entries) ==> (result matches Ok(made) && (made@.get(
            "entries"@,
        ) matches Some(Tree::Array(items)) && items.len() == entries@.len() && forall|i: int|
            0 <= i < items.len() ==> #[trigger] items[i] == Tree::Text(entries@[i]@))),
        output matches LocalOutput::Content(content) ==> (result matches Ok(made) && (operation@
            matches OperationModel::ReadFile(_, offset, limit) && made@.get("content"@) == Some(
            Tree::Text(read_window(content@, offset, limit)),
        ))),
        output matches LocalOutput::Exited { status, stdout, stderr } ==> (result matches Ok(made)
            && made@.get("stdout"@) == Some(Tree::Text(crate::text::clip(stdout@, 8192)))
            && made@.get("stderr"@) == Some(Tree::Text(crate::text::clip(stderr@, 8192)))
            && made@.get("status"@) == Some(
            match status {
                Some(code) => Tree::Number(Num::Int(code as int)),
                None => Tree::Null,
            },
        )),
        output matches LocalOutput::Failed(why) ==> (result matches Err(error) && error@
            == WorkerErrorModel::Local(why@)),
        output is TimedOut ==> (result matches Err(error) && error@ == WorkerErrorModel::Local(
            "command exceeded "@ + crate::text::decimal(
                (workbench.exec_timeout_nanos / 1_000_000_000) as nat,
            ) + "s timeout"@,
        )),
{
    match output {
        LocalOutput::Entries(entries) => {
            let made = Tree::Object(
                seq![("entries"@, crate::json::text_array(crate::json::texts(entries@)))],
            );
            crate::json::members_are_read_by_name(made->Object_0, 0, ""@);
        },
        LocalOutput::Content(content) => {
            a_read_returns_what_stands_there(
                content@,
                operation@->ReadFile_1,
                operation@->ReadFile_2,
            );
        },
        LocalOutput::Exited { status, stdout, stderr } => {
            a_command_tells_both_outputs(status, stdout@, stderr@);
        },
        _ => {},
    }
}

} // verus!
