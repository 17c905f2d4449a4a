use std::sync::Arc;

use seam::json::{count, member, object, string, Json};
use seam::model::{ModelError, ModelOutput, ModelReply};
use seam::protocol::{
    ArtifactRef, AuthorityEnvelope, CapabilityFailure, CapabilityResult, ContextItem,
    LocalAuthority, Ticket, WorkerReport, WorkerStatus,
};
use seam::workbench::WorkerError;
use seam::worker::{
    WorkerAction, WorkerReply, WorkerRun, WorkerRuntime, WorkerStage, CUT_MARK, CUT_MARK_BYTES,
    DEFAULT_MAX_STEPS, MAX_CORRECTIONS, MAX_OBSERVATION_BYTES, WINDOW_BYTES, WINDOW_COUNT,
    WORKER_PROMPT,
};
use serde_json::Value;
use uuid::Uuid;

type Runtime = WorkerRuntime<(), (), ()>;

fn runtime() -> Runtime {
    WorkerRuntime::new(Arc::new(()), Arc::new(()), Arc::new(()))
}

fn ticket() -> Ticket {
    let mut authority = AuthorityEnvelope::default();
    authority.external_capabilities.insert("web.search".to_string());
    Ticket {
        id: 21,
        conversation_id: 22,
        objective: "look around".to_string(),
        context: vec![ContextItem { label: "l".to_string(), value: "v".to_string() }],
        constraints: vec!["quietly".to_string()],
        deliverable: "a summary".to_string(),
        authority,
    }
}

fn local(operation: &str) -> WorkerReply {
    WorkerReply::Action(ModelReply::Read(WorkerAction::Local {
        operation: operation.to_string(),
        arguments: object(vec![member("path", string("."))]),
    }))
}

fn capability(request: &str) -> WorkerReply {
    WorkerReply::Action(ModelReply::Read(WorkerAction::Capability {
        request: request.to_string(),
    }))
}

fn shown(run: &WorkerRun) -> Value {
    match &run.stage {
        WorkerStage::Thinking { prompt } => {
            let text = &prompt.messages[1].content;
            let value: Value = serde_json::from_str(text).expect("JSON");
            assert_eq!(&value.to_string(), text);
            value
        }
        other => panic!("{other:?}"),
    }
}

fn finished(run: WorkerRun) -> Result<WorkerReport, WorkerError> {
    match run.stage {
        WorkerStage::Finished { result } => result,
        other => panic!("{other:?}"),
    }
}

#[test]
fn a_worker_is_shown_its_ticket_and_nothing_else() {
    let run = runtime().run(7, ticket());
    match &run.stage {
        WorkerStage::Thinking { prompt } => {
            assert_eq!(prompt.messages.len(), 2);
            assert_eq!(prompt.messages[0].content, WORKER_PROMPT);
            assert_eq!(prompt.output, ModelOutput::JsonObject);
            assert_eq!(f64::from_bits(prompt.temperature.bits), f64::from(0.1f32));
            assert_eq!(prompt.temperature.text, Value::from(f64::from(0.1f32)).to_string());
        }
        other => panic!("{other:?}"),
    }
    let value = shown(&run);
    let object = value.as_object().expect("object");
    assert_eq!(object.len(), 2);
    assert_eq!(value["recent_observations"].as_array().expect("array").len(), 0);
    let ticket = &value["ticket"];
    assert_eq!(ticket["id"], Uuid::from_u128(21).to_string().as_str());
    assert_eq!(ticket["conversation_id"], Uuid::from_u128(22).to_string().as_str());
    assert_eq!(ticket["objective"], "look around");
    assert_eq!(ticket["context"][0]["label"], "l");
    assert_eq!(ticket["constraints"][0], "quietly");
    assert_eq!(ticket["deliverable"], "a summary");
    assert_eq!(ticket["authority"]["local"]["read_workspace"], true);
    assert_eq!(ticket["authority"]["local"]["write_workspace"], false);
    assert_eq!(ticket["authority"]["external_capabilities"][0], "web.search");
}

#[test]
fn a_run_goes_through_the_workbench_and_the_broker_to_a_report() {
    let runtime = runtime();
    let run = runtime.run(7, ticket());
    let run = runtime.step(run, local("list_dir"));
    match &run.stage {
        WorkerStage::Operating { operation, arguments, authority } => {
            assert_eq!(operation, "list_dir");
            assert_eq!(arguments.to_text(), r#"{"path":"."}"#);
            assert_eq!(*authority, LocalAuthority::default());
        }
        other => panic!("{other:?}"),
    }
    let run = runtime.step(run, WorkerReply::Local(Ok(count(3))));
    assert_eq!(run.observations, [r#"{"local_operation":"list_dir","result":3}"#]);

    let run = runtime.step(run, local("write_file"));
    let denied = WorkerError::Denied("ticket does not grant workspace writes".to_string());
    let run = runtime.step(run, WorkerReply::Local(Err(denied)));
    assert_eq!(
        run.observations[1],
        concat_text(&[
            r#"{"denied":"local authority denied: ticket does not grant workspace writes","#,
            r#""local_operation":"write_file"}"#,
        ])
    );

    let run = runtime.step(run, capability("find docs"));
    match &run.stage {
        WorkerStage::Requesting { request } => {
            assert_eq!((request.worker_id, request.ticket_id), (7, 21));
            assert_eq!(request.request, "find docs");
        }
        other => panic!("{other:?}"),
    }
    let result = CapabilityResult {
        capability: "web.search".to_string(),
        data: string("found"),
        metadata: object(Vec::new()),
    };
    let run = runtime.step(run, WorkerReply::Capability(Ok(result)));
    assert_eq!(
        run.observations[2],
        r#"{"capability_result":{"capability":"web.search","data":"found","metadata":{}}}"#
    );
    let run = runtime.step(run, capability("again"));
    let failure = CapabilityFailure::TemporarilyUnavailable;
    let run = runtime.step(run, WorkerReply::Capability(Err(failure)));
    assert_eq!(
        run.observations[3],
        r#"{"capability_error":"CAPABILITY_TEMPORARILY_UNAVAILABLE"}"#
    );
    assert_eq!(shown(&run)["recent_observations"].as_array().expect("array").len(), 4);

    let finish = WorkerAction::Finish {
        summary: "done".to_string(),
        artifacts: vec![ArtifactRef { name: "n".to_string(), uri: "u".to_string() }],
    };
    let run = runtime.step(run, WorkerReply::Action(ModelReply::Read(finish)));
    let report = finished(run).expect("a report");
    assert_eq!((report.worker_id, report.ticket_id, report.conversation_id), (7, 21, 22));
    assert_eq!(report.status, WorkerStatus::Completed);
    assert_eq!(report.summary, "done");
    assert_eq!(report.artifacts[0].uri, "u");
    assert!(report.notes.is_empty());
}

fn concat_text(parts: &[&str]) -> String {
    parts.concat()
}

#[test]
fn a_blocked_worker_reports_its_reason() {
    let runtime = runtime();
    let run = runtime.run(7, ticket());
    let blocked = WorkerAction::Blocked { reason: "no access".to_string() };
    let run = runtime.step(run, WorkerReply::Action(ModelReply::Read(blocked)));
    let report = finished(run).expect("a report");
    assert_eq!(report.status, WorkerStatus::Blocked);
    assert_eq!(report.summary, "no access");
    assert!(report.artifacts.is_empty());
}

#[test]
fn unreadable_output_is_corrected_and_then_fails_the_task() {
    let runtime = runtime();
    let mut run = runtime.run(7, ticket());
    let unreadable = || WorkerReply::Action(ModelReply::Unreadable("expected value".to_string()));
    for _ in 0..MAX_CORRECTIONS {
        run = runtime.step(run, unreadable());
        assert_eq!(
            run.observations.last().map(|o| o.as_str()),
            Some(r#"{"invalid_action":"expected value"}"#)
        );
    }
    let run = runtime.step(run, unreadable());
    let report = finished(run).expect("a task that failed is a report");
    assert_eq!(report.status, WorkerStatus::Failed);
    assert_eq!(report.summary, "worker output is not an action: expected value");
    assert_eq!((report.worker_id, report.ticket_id, report.conversation_id), (7, 21, 22));
}

#[test]
fn a_readable_action_starts_the_corrections_anew() {
    let runtime = runtime();
    let mut run = runtime.run(7, ticket());
    for _ in 0..3 {
        for _ in 0..MAX_CORRECTIONS {
            run = runtime.step(
                run,
                WorkerReply::Action(ModelReply::Unreadable("no".to_string())),
            );
        }
        run = runtime.step(run, local("list_dir"));
        run = runtime.step(run, WorkerReply::Local(Ok(Json::Null)));
    }
    assert!(matches!(run.stage, WorkerStage::Thinking { .. }));
}

#[test]
fn runtime_errors_are_not_reports() {
    let runtime = runtime();
    let run = runtime.run(7, ticket());
    let failed = ModelError::InvalidResponse("bad".to_string());
    let run = runtime.step(run, WorkerReply::Action(ModelReply::Failed(failed)));
    let error = finished(run).expect_err("an error");
    assert_eq!(error.message(), "model error: model returned an invalid response: bad");

    let run = runtime.run(7, ticket());
    let run = runtime.step(run, local("read_file"));
    let broken = WorkerError::InvalidAction("lost".to_string());
    let run = runtime.step(run, WorkerReply::Local(Err(broken)));
    let error = finished(run).expect_err("an error");
    assert_eq!(error.message(), "invalid worker action: lost");
}

#[test]
fn a_failed_operation_is_a_failed_task() {
    let runtime = runtime();
    let run = runtime.run(7, ticket());
    let run = runtime.step(run, local("read_file"));
    let run = runtime.step(run, WorkerReply::Local(Err(WorkerError::Local("gone".to_string()))));
    let report = finished(run).expect("a task that failed is a report");
    assert_eq!(report.status, WorkerStatus::Failed);
    assert_eq!(report.summary, "local workbench error: gone");
    assert_eq!((report.worker_id, report.ticket_id, report.conversation_id), (7, 21, 22));
    assert!(report.artifacts.is_empty());
    assert!(report.notes.is_empty());
}

#[test]
fn unreadable_output_fails_the_task_where_no_step_is_left() {
    let runtime = runtime().with_max_steps(2);
    let run = runtime.run(7, ticket());
    let unreadable = || WorkerReply::Action(ModelReply::Unreadable("no".to_string()));
    let run = runtime.step(run, unreadable());
    assert!(matches!(run.stage, WorkerStage::Thinking { .. }));
    let run = runtime.step(run, unreadable());
    let report = finished(run).expect("a task that failed is a report");
    assert_eq!(report.status, WorkerStatus::Failed);
    assert_eq!(report.summary, "worker output is not an action: no");
}

#[test]
fn the_model_is_asked_at_most_as_often_as_permitted() {
    for limit in [0usize, 1, 2, 5] {
        let runtime = runtime().with_max_steps(limit);
        let mut run = runtime.run(7, ticket());
        let mut asked: usize = 0;
        while let WorkerStage::Thinking { .. } = run.stage {
            asked += 1;
            run = runtime.step(run, local("list_dir"));
            run = runtime.step(run, WorkerReply::Local(Ok(Json::Null)));
        }
        assert_eq!(asked, limit);
        assert!(matches!(finished(run), Err(WorkerError::StepLimit)));
    }
    assert_eq!(runtime().max_steps, DEFAULT_MAX_STEPS);
    assert_eq!(DEFAULT_MAX_STEPS, 128);
}

#[test]
fn the_latest_observations_are_shown_within_their_count() {
    let runtime = runtime();
    let mut run = runtime.run(7, ticket());
    for n in 0..20u64 {
        run = runtime.step(run, local("list_dir"));
        run = runtime.step(run, WorkerReply::Local(Ok(count(n))));
    }
    assert_eq!(run.observations.len(), 20);
    let value = shown(&run);
    let recent = value["recent_observations"].as_array().expect("array");
    assert_eq!(recent.len(), WINDOW_COUNT);
    assert_eq!(recent[0], r#"{"local_operation":"list_dir","result":4}"#);
    assert_eq!(recent[15], r#"{"local_operation":"list_dir","result":19}"#);
}

#[test]
fn observations_and_their_window_are_bounded() {
    let runtime = runtime();
    let mut run = runtime.run(7, ticket());
    for _ in 0..6 {
        run = runtime.step(run, local("read_file"));
        let long = "é".repeat(MAX_OBSERVATION_BYTES as usize);
        run = runtime.step(run, WorkerReply::Local(Ok(string(&long))));
    }
    for observation in &run.observations {
        assert!(observation.len() as u64 <= MAX_OBSERVATION_BYTES);
        assert!(observation.len() as u64 > MAX_OBSERVATION_BYTES - CUT_MARK_BYTES);
        assert!(observation.ends_with(CUT_MARK));
    }
    assert_eq!(CUT_MARK.len() as u64, CUT_MARK_BYTES);
    let value = shown(&run);
    let recent = value["recent_observations"].as_array().expect("array");
    let total: usize = recent.iter().map(|o| o.as_str().expect("text").len()).sum();
    assert!(total as u64 <= WINDOW_BYTES);
    assert_eq!(recent.len(), 4);
}

#[test]
fn an_observation_at_its_cap_is_kept_whole() {
    let runtime = runtime();
    let run = runtime.run(7, ticket());
    let run = runtime.step(run, local("x"));
    // The frame `{"local_operation":"x","result":""}` takes 35 bytes.
    let fitting = "y".repeat(MAX_OBSERVATION_BYTES as usize - 35);
    let run = runtime.step(run, WorkerReply::Local(Ok(string(&fitting))));
    assert_eq!(run.observations[0].len() as u64, MAX_OBSERVATION_BYTES);
    assert!(run.observations[0].ends_with("\"}"));
    let run = runtime.step(run, local("x"));
    let over = "y".repeat(MAX_OBSERVATION_BYTES as usize - 34);
    let run = runtime.step(run, WorkerReply::Local(Ok(string(&over))));
    assert!(run.observations[1].ends_with(CUT_MARK));
    assert_eq!(run.observations[1].len() as u64, MAX_OBSERVATION_BYTES);
}
