//! What the walkthrough says about the seams that it crosses.

use vstd::prelude::*;
use vstd::string::*;

use crate::api::{ClientEvent, MessageRole, TicketState};
use crate::authority::BrokerError;
use crate::ids::{id_text, TicketId};
use crate::json::Json;
use crate::model::labelled;
use crate::protocol::CapabilityInvocation;
use crate::text::{decimal_text, same_text};
use crate::workbench::WorkerError;

#[allow(unused_imports)]
use crate::api::ClientEventModel;
#[allow(unused_imports)]
use crate::json::Tree;

verus! {

/// The first characters of an identifier's text.
pub open spec fn short_id(id: u128) -> Seq<char> {
    crate::ids::id_chars(id).take(8)
}

/// The first characters of an identifier's text.
pub fn short_id_text(id: TicketId) -> (text: String)
    ensures
        text@ == short_id(id),
{
    let text = id_text(id);
    assert(text@.len() == 36);
    let short = text.as_str().substring_char(0, 8).to_owned();
    assert(short@ =~= short_id(id));
    short
}

/// The name of a role in the narration.
pub open spec fn role_label(role: MessageRole) -> Seq<char> {
    match role {
        MessageRole::User => "User"@,
        MessageRole::Assistant => "Assistant"@,
    }
}

/// The name of a state in the narration.
pub open spec fn state_label(state: TicketState) -> Seq<char> {
    match state {
        TicketState::Queued => "Queued"@,
        TicketState::Running => "Running"@,
        TicketState::Completed => "Completed"@,
        TicketState::Blocked => "Blocked"@,
        TicketState::Failed => "Failed"@,
        TicketState::Cancelled => "Cancelled"@,
    }
}

/// The name of a role in the narration.
pub fn role_text(role: MessageRole) -> (label: &'static str)
    ensures
        label@ == role_label(role),
{
    match role {
        MessageRole::User => "User",
        MessageRole::Assistant => "Assistant",
    }
}

/// The name of a state in the narration.
pub fn state_text(state: TicketState) -> (label: &'static str)
    ensures
        label@ == state_label(state),
{
    match state {
        TicketState::Queued => "Queued",
        TicketState::Running => "Running",
        TicketState::Completed => "Completed",
        TicketState::Blocked => "Blocked",
        TicketState::Failed => "Failed",
        TicketState::Cancelled => "Cancelled",
    }
}

// ---- events -------------------------------------------------------------------------

/// The line that tells of an event.
pub open spec fn event_line(event: ClientEventModel) -> Seq<char> {
    match event {
        ClientEventModel::MessageCreated(_, role, text) => "  [event] message_created   "@
            + role_label(role) + ": "@ + text,
        ClientEventModel::TicketCreated(ticket) => "  [event] ticket_created    "@ + short_id(
            ticket.id,
        ) + " — "@ + ticket.objective,
        ClientEventModel::TicketUpdated(id, _) => "  [event] ticket_updated    "@ + short_id(id),
        ClientEventModel::TicketStateChanged(id, state, _) => "  [event] ticket_state      "@
            + short_id(id) + " -> "@ + state_label(state),
        ClientEventModel::ArtifactCreated(_, artifact) => "  [event] artifact_created  "@
            + artifact.0,
    }
}

fn line_of(label: &str, first: &str, between: &str, second: &str) -> (line: String)
    ensures
        line@ == label@ + first@ + between@ + second@,
{
    let mut line = labelled(label, first);
    line.append(between);
    line.append(second);
    line
}

/// The line that tells of an event.
pub fn event_text(event: &ClientEvent) -> (line: String)
    ensures
        line@ == event_line(event@),
{
    match event {
        ClientEvent::MessageCreated { role, text, .. } => line_of(
            "  [event] message_created   ",
            role_text(*role),
            ": ",
            text.as_str(),
        ),
        ClientEvent::TicketCreated { ticket } => {
            let id = short_id_text(ticket.id);
            line_of(
                "  [event] ticket_created    ",
                id.as_str(),
                " — ",
                ticket.objective.as_str(),
            )
        },
        ClientEvent::TicketUpdated { ticket_id, .. } => {
            let id = short_id_text(*ticket_id);
            labelled("  [event] ticket_updated    ", id.as_str())
        },
        ClientEvent::TicketStateChanged { ticket_id, state, .. } => {
            let id = short_id_text(*ticket_id);
            line_of("  [event] ticket_state      ", id.as_str(), " -> ", state_text(*state))
        },
        ClientEvent::ArtifactCreated { artifact, .. } => labelled(
            "  [event] artifact_created  ",
            artifact.name.as_str(),
        ),
    }
}

// ---- local operations ---------------------------------------------------------------

/// What a local operation works on, in a word.
pub open spec fn operation_subject(operation: Seq<char>, arguments: Tree) -> Seq<char> {
    if operation == "read_file"@ || operation == "write_file"@ || operation == "list_dir"@ {
        crate::workbench::text_or(arguments, "path"@, "."@)
    } else if operation == "exec"@ {
        crate::workbench::text_or(arguments, "program"@, "?"@)
    } else {
        seq![]
    }
}

/// The line that tells of a local operation.
pub fn operation_text(operation: &str, arguments: &Json) -> (line: String)
    ensures
        line@ == "  [local ] "@ + operation@ + " "@ + operation_subject(operation@, arguments@),
{
    let subject = if same_text(operation, "read_file") || same_text(operation, "write_file")
        || same_text(operation, "list_dir") {
        match arguments.str_at("path") {
            Some(path) => path,
            None => ".",
        }
    } else if same_text(operation, "exec") {
        match arguments.str_at("program") {
            Some(program) => program,
            None => "?",
        }
    } else {
        proof {
            reveal_strlit("");
        }
        ""
    };
    let line = line_of("  [local ] ", operation, " ", subject);
    assert(subject@ =~= operation_subject(operation@, arguments@));
    line
}

/// One-line summary of an operation's result, so that a file's contents never flood the
/// narration.
pub open spec fn description(value: Tree) -> Seq<char> {
    match value.get("entries"@) {
        Some(Tree::Array(entries)) => crate::text::decimal(entries.len()) + " entries"@,
        _ => match value.count_at("total_bytes"@) {
            Some(total) => crate::text::decimal(
                (match value.count_at("bytes_returned"@) {
                    Some(n) => n,
                    None => 0,
                }) as nat,
            ) + " of "@ + crate::text::decimal(total as nat) + " bytes (truncated="@
                + crate::json::bool_text(value.get("truncated"@) == Some(Tree::Bool(true))) + ")"@,
            None => if value.text().len() > 60 {
                value.text().take(60)
            } else {
                value.text()
            },
        },
    }
}

/// One-line summary of an operation's result.
pub fn describe(value: &Json) -> (text: String)
    ensures
        text@ == description(value@),
{
    if let Some(Json::Array(entries)) = value.get("entries") {
        let mut text = decimal_text(entries.len() as u128);
        text.append(" entries");
        return text;
    }
    if let Some(total) = value.u64_at("total_bytes") {
        let returned: u64 = match value.u64_at("bytes_returned") {
            Some(n) => n,
            None => 0,
        };
        let truncated = match value.get("truncated") {
            Some(Json::Bool(true)) => "true",
            _ => "false",
        };
        let mut text = decimal_text(returned as u128);
        text.append(" of ");
        let total = decimal_text(total as u128);
        text.append(total.as_str());
        text.append(" bytes (truncated=");
        text.append(truncated);
        text.append(")");
        return text;
    }
    let text = value.to_text();
    if text.as_str().unicode_len() > 60 {
        let short = text.as_str().substring_char(0, 60).to_owned();
        assert(short@ =~= text@.take(60));
        return short;
    }
    text
}

/// The lines that tell what came of a local operation.
pub open spec fn outcome_lines(result: Result<Json, WorkerError>) -> Seq<Seq<char>> {
    match result {
        Ok(value) => seq!["           -> ok  "@ + description(value@)],
        Err(error) => if error is Denied {
            seq![
                "           -> DENIED  "@ + error@.text(),
                "              (the ticket's authority does not permit this; the"@,
                "               worker sees the refusal and continues)"@,
            ]
        } else {
            seq!["           -> error  "@ + error@.text()]
        },
    }
}

/// The lines that tell what came of a local operation.
pub fn outcome_texts(result: &Result<Json, WorkerError>) -> (lines: Vec<String>)
    ensures
        crate::json::texts(lines@) == outcome_lines(*result),
{
    let lines = match result {
        Ok(value) => {
            let found = describe(value);
            vec![labelled("           -> ok  ", found.as_str())]
        },
        Err(error) => {
            let detail = error.message();
            if matches!(error, WorkerError::Denied(_)) {
                vec![
                    labelled("           -> DENIED  ", detail.as_str()),
                    "              (the ticket's authority does not permit this; the".to_owned(),
                    "               worker sees the refusal and continues)".to_owned(),
                ]
            } else {
                vec![labelled("           -> error  ", detail.as_str())]
            }
        },
    };
    assert(crate::json::texts(lines@) =~= outcome_lines(*result));
    lines
}

// ---- translation --------------------------------------------------------------------

/// The lines that tell what a request was translated into.
pub open spec fn translation_lines(result: Result<CapabilityInvocation, BrokerError>) -> Seq<
    Seq<char>,
> {
    match result {
        Ok(invocation) => seq![
            "           SLM translated -> "@ + invocation.capability@ + " "@
                + invocation.arguments@.text(),
            "           (arguments are schema-validated before any provider runs)"@,
        ],
        Err(error) => seq!["           translation failed: "@ + error.text()],
    }
}

/// The lines that tell what a request was translated into.
pub fn translation_texts(result: &Result<CapabilityInvocation, BrokerError>) -> (lines: Vec<String>)
    ensures
        crate::json::texts(lines@) == translation_lines(*result),
{
    let lines = match result {
        Ok(invocation) => {
            let arguments = invocation.arguments.to_text();
            vec![
                line_of(
                    "           SLM translated -> ",
                    invocation.capability.as_str(),
                    " ",
                    arguments.as_str(),
                ),
                "           (arguments are schema-validated before any provider runs)".to_owned(),
            ]
        },
        Err(error) => {
            let detail = error.message();
            vec![labelled("           translation failed: ", detail.as_str())]
        },
    };
    assert(crate::json::texts(lines@) =~= translation_lines(*result));
    lines
}

// ---- laws ---------------------------------------------------------------------------

/// A line tells its event: a message with who said it and what; a new ticket with its short
/// id and objective; an update with its short id; a state with the short id and its name; an
/// artifact with its name.
pub proof fn a_line_tells_its_event(
    id: u128,
    text: Seq<char>,
    ticket: crate::api::TicketViewModel,
    context: Seq<crate::protocol::ContextModel>,
    state: TicketState,
    summary: Option<Seq<char>>,
    artifact: crate::protocol::ArtifactModel,
)
    ensures
        event_line(ClientEventModel::MessageCreated(id, MessageRole::User, text))
            == "  [event] message_created   "@ + "User"@ + ": "@ + text,
        event_line(ClientEventModel::MessageCreated(id, MessageRole::Assistant, text))
            == "  [event] message_created   "@ + "Assistant"@ + ": "@ + text,
        event_line(ClientEventModel::TicketCreated(ticket)) == "  [event] ticket_created    "@
            + crate::ids::id_chars(ticket.id).take(8) + " — "@ + ticket.objective,
        event_line(ClientEventModel::TicketUpdated(id, context))
            == "  [event] ticket_updated    "@ + crate::ids::id_chars(id).take(8),
        event_line(ClientEventModel::TicketStateChanged(id, state, summary))
            == "  [event] ticket_state      "@ + crate::ids::id_chars(id).take(8) + " -> "@ + (
        match state {
            TicketState::Queued => "Queued"@,
            TicketState::Running => "Running"@,
            TicketState::Completed => "Completed"@,
            TicketState::Blocked => "Blocked"@,
            TicketState::Failed => "Failed"@,
            TicketState::Cancelled => "Cancelled"@,
        }),
        event_line(ClientEventModel::ArtifactCreated(id, artifact))
            == "  [event] artifact_created  "@ + artifact.0,
{
}

/// An operation on the workspace is told by its path, or by a dot, and a command by its
/// program, or by a question mark.
pub proof fn an_operation_is_told_by_its_subject(
    operation: Seq<char>,
    arguments: Tree,
    subject: Seq<char>,
)
    ensures
        ({
            let on_path = operation == "read_file"@ || operation == "write_file"@ || operation
                == "list_dir"@;
            let path = arguments.get("path"@);
            let program = arguments.get("program"@);
            let told = operation_subject(operation, arguments);
            &&& on_path && path == Some(Tree::Text(subject)) ==> told == subject
            &&& on_path && !(path matches Some(Tree::Text(_))) ==> told == "."@
            &&& operation == "exec"@ && program == Some(Tree::Text(subject)) ==> told == subject
            &&& operation == "exec"@ && !(program matches Some(Tree::Text(_))) ==> told == "?"@
            &&& !on_path && operation != "exec"@ ==> told.len() == 0
        }),
{
    reveal_strlit("read_file");
    reveal_strlit("write_file");
    reveal_strlit("list_dir");
    reveal_strlit("exec");
    assert("exec"@.len() == 4 && "read_file"@.len() == 9);
    assert("write_file"@.len() == 10 && "list_dir"@.len() == 8);
}

/// A listing is told by how many entries it has, a read by how many bytes of how many and
/// whether it was cut, and anything else by its first sixty characters at most.
pub proof fn a_result_is_told_in_one_line(value: Tree, items: Seq<Tree>, n: u64, total: u64, cut: bool)
    ensures
        value.get("entries"@) == Some(Tree::Array(items)) ==> description(value)
            == crate::text::decimal(items.len()) + " entries"@,
        !(value.get("entries"@) matches Some(Tree::Array(_))) && value.get("total_bytes"@) == Some(
            Tree::Number(crate::json::Num::Int(total as int)),
        ) && value.get("bytes_returned"@) == Some(
            Tree::Number(crate::json::Num::Int(n as int)),
        ) && value.get("truncated"@) == Some(Tree::Bool(cut)) ==> description(value)
            == crate::text::decimal(n as nat) + " of "@ + crate::text::decimal(total as nat)
            + " bytes (truncated="@ + (if cut {
            "true"@
        } else {
            "false"@
        }) + ")"@,
        !(value.get("entries"@) matches Some(Tree::Array(_))) && !(value.get("total_bytes"@) matches
            Some(Tree::Number(crate::json::Num::Int(_)))) ==> description(value).len() <= 60
            && description(value) == value.text().take(description(value).len() as int) && (
        value.text().len() <= 60 ==> description(value) == value.text()),
{
    assert(value.text().take(value.text().len() as int) =~= value.text());
}

/// An operation that ran is told with its result, a denied one with the denial and a remark,
/// and one that failed with its error; a translation is told with its capability and
/// arguments, or with why it failed.
pub proof fn an_outcome_is_told_as_it_came(
    value: Json,
    error: WorkerError,
    invocation: CapabilityInvocation,
    failure: BrokerError,
)
    ensures
        outcome_lines(Ok(value)).len() == 1 && outcome_lines(Ok(value))[0]
            == "           -> ok  "@ + description(value@),
        error is Denied ==> outcome_lines(Err(error)).len() == 3 && outcome_lines(Err(error))[0]
            == "           -> DENIED  "@ + error@.text(),
        !(error is Denied) ==> outcome_lines(Err(error)).len() == 1 && outcome_lines(
            Err(error),
        )[0] == "           -> error  "@ + error@.text(),
        translation_lines(Ok(invocation))[0] == "           SLM translated -> "@
            + invocation.capability@ + " "@ + invocation.arguments@.text(),
        translation_lines(Err(failure)).len() == 1 && translation_lines(Err(failure))[0]
            == "           translation failed: "@ + failure.text(),
{
}

} // verus!
