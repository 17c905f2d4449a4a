use std::path::PathBuf;

use seam::authority::BrokerError;
use seam::json::{object, Double, Json, Member, Number};
use seam::paths::{is_relative, last_entry, split_path, starts_with, ResolvedPath};
use seam::protocol::LocalAuthority;
use seam::workbench::{
    EnvVar, FsProcessWorkbench, LocalOperation, LocalOutput, PathLookup, WorkerError,
    DEFAULT_EXEC_TIMEOUT, MAX_OUTPUT_BYTES, MAX_READ_BYTES,
};
use serde_json::Value;

fn tree(value: &Value) -> Json {
    match value {
        Value::Null => Json::Null,
        Value::Bool(b) => Json::Bool(*b),
        Value::Number(n) => Json::Number(if let Some(u) = n.as_u64() {
            Number::PosInt(u)
        } else if let Some(i) = n.as_i64() {
            Number::NegInt(i)
        } else {
            Number::Float(Double {
                bits: n.as_f64().expect("a double").to_bits(),
                text: n.to_string(),
            })
        }),
        Value::String(s) => Json::String(s.clone()),
        Value::Array(items) => Json::Array(items.iter().map(tree).collect()),
        Value::Object(members) => object(
            members
                .iter()
                .map(|(name, value)| Member { name: name.clone(), value: tree(value) })
                .collect(),
        ),
    }
}

fn json(text: &str) -> Json {
    tree(&serde_json::from_str(text).expect("JSON"))
}

fn full_authority() -> LocalAuthority {
    LocalAuthority { read_workspace: true, write_workspace: true, execute_local: true }
}

fn workspace() -> FsProcessWorkbench {
    FsProcessWorkbench::new(PathBuf::from("/tmp/workspace"), true, true)
}

fn path(text: &str) -> ResolvedPath {
    text.split('/').filter(|part| !part.is_empty()).map(|part| part.as_bytes().to_vec()).collect()
}

fn missing() -> Result<ResolvedPath, String> {
    Err("No such file or directory (os error 2)".to_string())
}

/// The lookup of a path that resolves to `target` in a workspace at /tmp/workspace.
fn resolving_to(target: &str) -> PathLookup {
    PathLookup {
        root: Ok(path("/tmp/workspace")),
        target: Ok(path(target)),
        present: true,
        parent: missing(),
    }
}

#[test]
fn reads_and_writes_inside_the_workspace() {
    let workbench = workspace();
    let write = workbench
        .execute(
            "write_file",
            &json(r#"{"path": "notes.txt", "content": "hello"}"#),
            &full_authority(),
        )
        .expect("write");
    let lookup = PathLookup {
        root: Ok(path("/tmp/workspace")),
        target: missing(),
        present: false,
        parent: Ok(path("/tmp/workspace")),
    };
    let file = workbench.resolve(write.path(), write.must_exist(), &lookup).expect("resolves");
    assert_eq!(file, path("/tmp/workspace/notes.txt"));
    assert_eq!(
        workbench.completed(&write, LocalOutput::Written).expect("written").to_text(),
        r#"{"ok":true}"#
    );

    let read = workbench
        .execute("read_file", &json(r#"{"path": "notes.txt"}"#), &full_authority())
        .expect("read");
    let lookup = resolving_to("/tmp/workspace/notes.txt");
    let file = workbench.resolve(read.path(), read.must_exist(), &lookup).expect("resolves");
    assert_eq!(file, path("/tmp/workspace/notes.txt"));
    let result = workbench
        .completed(&read, LocalOutput::Content("hello".to_string()))
        .expect("content");
    assert_eq!(result.str_at("content"), Some("hello"));
    assert_eq!(
        result.to_text(),
        r#"{"bytes_returned":5,"content":"hello","total_bytes":5,"truncated":false}"#
    );
}

#[test]
fn write_through_a_symlink_cannot_escape_the_workspace() {
    let error = workspace()
        .resolve("link.txt", false, &resolving_to("/tmp/outside.txt"))
        .expect_err("symlink write must be refused");
    assert!(error.message().contains("escapes workspace"), "{}", error.message());
}

#[test]
fn write_through_a_dangling_symlink_cannot_escape_the_workspace() {
    let lookup = PathLookup {
        root: Ok(path("/tmp/workspace")),
        target: missing(),
        present: true,
        parent: Ok(path("/tmp/workspace")),
    };
    let error = workspace()
        .resolve("link.txt", false, &lookup)
        .expect_err("dangling symlink write must be refused");
    assert!(error.message().contains("escapes workspace"), "{}", error.message());
}

#[test]
fn reading_a_symlink_out_of_the_workspace_is_refused() {
    let error = workspace()
        .resolve("link.txt", true, &resolving_to("/tmp/secret.txt"))
        .expect_err("symlink read must be refused");
    assert!(error.message().contains("escapes workspace"), "{}", error.message());
}

#[test]
fn absolute_and_traversal_paths_are_refused() {
    let workbench = workspace();
    for path in ["/etc/passwd", "../escape.txt", "sub/../../escape.txt"] {
        let operation = workbench
            .execute(
                "write_file",
                &object(vec![
                    Member { name: "path".to_string(), value: Json::String(path.to_string()) },
                    Member { name: "content".to_string(), value: Json::String("x".to_string()) },
                ]),
                &full_authority(),
            )
            .expect("permitted so far");
        let error = workbench
            .resolve(operation.path(), operation.must_exist(), &resolving_to("/tmp/workspace/x"))
            .expect_err("must be refused");
        assert!(error.message().contains("workspace-relative"), "{path}: {}", error.message());
    }
}

#[test]
fn ticket_authority_gates_each_operation() {
    let workbench = workspace();
    let read_only =
        LocalAuthority { read_workspace: true, write_workspace: false, execute_local: false };

    let error = workbench
        .execute("write_file", &json(r#"{"path": "a.txt", "content": "x"}"#), &read_only)
        .expect_err("write must be denied by ticket authority");
    assert!(matches!(error, WorkerError::Denied(_)), "{}", error.message());

    let error = workbench
        .execute("exec", &json(r#"{"program": "true"}"#), &read_only)
        .expect_err("exec must be denied by ticket authority");
    assert!(matches!(error, WorkerError::Denied(_)), "{}", error.message());

    let no_read = LocalAuthority { read_workspace: false, ..read_only };
    let error = workbench
        .execute("list_dir", &json("{}"), &no_read)
        .expect_err("read must be denied by ticket authority");
    assert!(matches!(error, WorkerError::Denied(_)), "{}", error.message());
}

#[test]
fn a_permissive_ticket_cannot_exceed_the_deployment_ceiling() {
    let workbench = FsProcessWorkbench::new(PathBuf::from("/tmp/workspace"), false, false);

    let error = workbench
        .execute(
            "write_file",
            &json(r#"{"path": "a.txt", "content": "x"}"#),
            &full_authority(),
        )
        .expect_err("the workbench ceiling still applies");
    assert!(matches!(error, WorkerError::Denied(_)), "{}", error.message());
}

#[test]
fn exec_enforces_a_timeout() {
    let workbench = workspace().with_exec_timeout(200_000_000);
    let operation = workbench
        .execute("exec", &json(r#"{"program": "sleep", "args": ["30"]}"#), &full_authority())
        .expect("permitted");
    let error = workbench
        .completed(&operation, LocalOutput::TimedOut)
        .expect_err("a hung command must not hang the worker");
    assert!(error.message().contains("timeout"), "{}", error.message());
    assert_eq!(error.message(), "local workbench error: command exceeded 0s timeout");
    let error = workspace()
        .completed(&operation, LocalOutput::TimedOut)
        .expect_err("the default limit");
    assert_eq!(error.message(), "local workbench error: command exceeded 120s timeout");
}

#[test]
fn a_new_workbench_passes_the_search_path_alone() {
    let workbench = workspace();
    assert_eq!(workbench.exec_env_allowlist, ["PATH"]);
    assert_eq!(workbench.exec_timeout_nanos, DEFAULT_EXEC_TIMEOUT);
    assert_eq!(DEFAULT_EXEC_TIMEOUT, 120 * 1_000_000_000);
    assert_eq!(workbench.root, PathBuf::from("/tmp/workspace"));
    let workbench = workbench.with_exec_env_allowlist(vec!["HOME".to_string()]);
    assert_eq!(workbench.exec_env_allowlist, ["HOME"]);
}

#[test]
fn exec_does_not_inherit_ambient_host_environment() {
    let var = |name: &str, value: &str| EnvVar {
        name: name.to_string(),
        value: value.as_bytes().to_vec(),
    };
    let ambient = vec![
        var("SEAM_TEST_AMBIENT_SECRET", "leaked"),
        var("PATH", "/usr/bin"),
        var("HOME", "/root"),
    ];
    let seen = |workbench: &FsProcessWorkbench| -> Vec<(String, Vec<u8>)> {
        workbench.child_env(&ambient).into_iter().map(|var| (var.name, var.value)).collect()
    };
    assert_eq!(seen(&workspace()), [("PATH".to_string(), b"/usr/bin".to_vec())]);
    let listing = workspace().with_exec_env_allowlist(vec![
        "HOME".to_string(),
        "UNSET".to_string(),
        "PATH".to_string(),
    ]);
    assert_eq!(
        seen(&listing),
        [
            ("HOME".to_string(), b"/root".to_vec()),
            ("PATH".to_string(), b"/usr/bin".to_vec()),
        ]
    );
    assert!(workspace().child_env(&Vec::new()).is_empty());
}

#[test]
fn every_refusal_has_its_reason() {
    let workbench = workspace();
    let ceiling = FsProcessWorkbench::new(PathBuf::from("/"), false, false);
    let nothing =
        LocalAuthority { read_workspace: false, write_workspace: false, execute_local: false };
    let message = |bench: &FsProcessWorkbench, op: &str, args: &str, auth: &LocalAuthority| {
        bench.execute(op, &json(args), auth).expect_err("refused").message()
    };
    let all = full_authority();
    let denied = "local authority denied: ";
    let local = "local workbench error: ";
    let cases = [
        (message(&workbench, "read_file", "{}", &nothing), denied, "workspace reads denied"),
        (message(&workbench, "list_dir", "{}", &nothing), denied, "workspace reads denied"),
        (message(&ceiling, "write_file", "{}", &all), denied, "workspace writes denied"),
        (
            message(&workbench, "write_file", "{}", &nothing),
            denied,
            "ticket does not grant workspace writes",
        ),
        (message(&ceiling, "exec", "{}", &all), denied, "local execution denied"),
        (
            message(&workbench, "exec", "{}", &nothing),
            denied,
            "ticket does not grant local execution",
        ),
        (message(&workbench, "read_file", r#"{"path": 1}"#, &all), local, "read_file requires path"),
        (
            message(&workbench, "write_file", r#"{"content": "x"}"#, &all),
            local,
            "write_file requires path",
        ),
        (
            message(&workbench, "write_file", r#"{"path": "x"}"#, &all),
            local,
            "write_file requires content",
        ),
        (message(&workbench, "exec", "{}", &all), local, "exec requires program"),
        (message(&workbench, "format", "{}", &all), local, "unknown local operation: format"),
    ];
    for (found, kind, why) in cases {
        assert_eq!(found, format!("{kind}{why}"));
    }
}

#[test]
fn arguments_have_defaults() {
    let workbench = workspace();
    let all = full_authority();
    match workbench.execute("list_dir", &json("{}"), &all).expect("list") {
        LocalOperation::ListDir { path } => assert_eq!(path, "."),
        other => panic!("{other:?}"),
    }
    let exec = workbench
        .execute("exec", &json(r#"{"program": "ls", "args": ["-l", 7, "x"]}"#), &all)
        .expect("exec");
    assert!(exec.must_exist());
    match exec {
        LocalOperation::Exec { program, args, cwd } => {
            assert_eq!(program, "ls");
            assert_eq!(args, ["-l", "x"]);
            assert_eq!(cwd, ".");
        }
        other => panic!("{other:?}"),
    }
    match workbench
        .execute("exec", &json(r#"{"program": "ls", "args": "-l", "cwd": "sub"}"#), &all)
        .expect("exec")
    {
        LocalOperation::Exec { args, cwd, .. } => {
            assert!(args.is_empty());
            assert_eq!(cwd, "sub");
        }
        other => panic!("{other:?}"),
    }
    match workbench
        .execute("read_file", &json(r#"{"path": "f", "offset": 3, "limit": 99999999}"#), &all)
        .expect("read")
    {
        LocalOperation::ReadFile { offset, limit, .. } => {
            assert_eq!((offset, limit), (3, MAX_READ_BYTES));
        }
        other => panic!("{other:?}"),
    }
}

#[test]
fn reads_are_windowed_and_marked() {
    let workbench = workspace();
    let read = |args: &str, content: &str| {
        let operation =
            workbench.execute("read_file", &json(args), &full_authority()).expect("read");
        workbench
            .completed(&operation, LocalOutput::Content(content.to_string()))
            .expect("content")
            .to_text()
    };
    assert_eq!(
        read(r#"{"path": "f", "limit": 3}"#, "abcdef"),
        r#"{"bytes_returned":3,"content":"abc","total_bytes":6,"truncated":true}"#
    );
    assert_eq!(
        read(r#"{"path": "f", "offset": 4, "limit": 3}"#, "abcdef"),
        r#"{"bytes_returned":2,"content":"ef","total_bytes":6,"truncated":true}"#
    );
    assert_eq!(
        read(r#"{"path": "f", "limit": 2}"#, "éa"),
        r#"{"bytes_returned":2,"content":"é","total_bytes":3,"truncated":true}"#
    );
    assert_eq!(
        read(r#"{"path": "f", "limit": 2}"#, ""),
        r#"{"bytes_returned":0,"content":"","total_bytes":0,"truncated":false}"#
    );
    let long = "x".repeat(MAX_READ_BYTES as usize + 1);
    let found: Value = serde_json::from_str(&read(r#"{"path": "f"}"#, &long)).expect("JSON");
    assert_eq!(found["bytes_returned"], MAX_READ_BYTES);
    assert_eq!(found["total_bytes"], MAX_READ_BYTES + 1);
    assert_eq!(found["truncated"], true);
    let whole = "x".repeat(MAX_READ_BYTES as usize);
    let found: Value = serde_json::from_str(&read(r#"{"path": "f"}"#, &whole)).expect("JSON");
    assert_eq!(found["truncated"], false);
}

#[test]
fn command_output_is_capped_and_marked() {
    let workbench = workspace();
    let operation = workbench
        .execute("exec", &json(r#"{"program": "x"}"#), &full_authority())
        .expect("exec");
    let run = |status: Option<i32>, stdout: &str, stderr: &str| {
        let output = LocalOutput::Exited {
            status,
            stdout: stdout.to_string(),
            stderr: stderr.to_string(),
        };
        let text = workbench.completed(&operation, output).expect("exited").to_text();
        serde_json::from_str::<Value>(&text).expect("JSON")
    };
    let found = run(Some(0), "out", "err");
    assert_eq!(found["status"], 0);
    assert_eq!(found["stdout"], "out");
    assert_eq!(found["stderr"], "err");
    assert_eq!(found["stdout_truncated"], false);
    assert_eq!(found["stderr_truncated"], false);
    let cap = MAX_OUTPUT_BYTES as usize;
    let found = run(Some(-9), &"o".repeat(cap), &"e".repeat(cap + 1));
    assert_eq!(found["status"], -9);
    assert_eq!(found["stdout_truncated"], false);
    assert_eq!(found["stderr_truncated"], true);
    assert_eq!(found["stderr"].as_str().expect("text").len(), cap);
    assert!(run(None, "", "")["status"].is_null());
}

#[test]
fn listings_and_failures_are_returned() {
    let workbench = workspace();
    let list =
        workbench.execute("list_dir", &json("{}"), &full_authority()).expect("list");
    let entries = LocalOutput::Entries(vec!["b".to_string(), "a".to_string()]);
    assert_eq!(
        workbench.completed(&list, entries).expect("entries").to_text(),
        r#"{"entries":["b","a"]}"#
    );
    let error = workbench
        .completed(&list, LocalOutput::Failed("Permission denied (os error 13)".to_string()))
        .expect_err("failed");
    assert_eq!(error.message(), "local workbench error: Permission denied (os error 13)");
}

#[test]
fn paths_are_split_and_judged_by_their_text() {
    assert_eq!(split_path("a//b/."), ["a", "", "b", "."]);
    assert_eq!(split_path(""), [""]);
    assert_eq!(split_path("/"), ["", ""]);
    for relative in ["", ".", "a", "./a", "a/b", "a//b", "...", "a..b", "..a", "a/"] {
        assert!(is_relative(relative), "{relative}");
    }
    for refused in ["/", "/a", "..", "a/..", "../a", "a/../b", "./..", "a//.."] {
        assert!(!is_relative(refused), "{refused}");
    }
    assert_eq!(last_entry("a/b"), Some(b"b".to_vec()));
    assert_eq!(last_entry("a/b/."), Some(b"b".to_vec()));
    assert_eq!(last_entry("é/"), Some("é".as_bytes().to_vec()));
    assert_eq!(last_entry("./"), None);
    assert_eq!(last_entry(""), None);
}

#[test]
fn the_judgement_of_paths_agrees_with_std() {
    let samples = [
        "", ".", "..", "a", "./a", "a/..", "a/../b", "/", "/a", "//a", "a//b", "a/./b", "a/b/",
        "...", "a/...", "../..", "é/..",
    ];
    for text in samples {
        let normal = std::path::Path::new(text).components().all(|component| {
            matches!(
                component,
                std::path::Component::Normal(_) | std::path::Component::CurDir
            )
        });
        assert_eq!(is_relative(text), normal, "{text}");
        if normal {
            let name = std::path::Path::new(text).components().rev().find_map(|component| {
                match component {
                    std::path::Component::Normal(name) => {
                        Some(name.to_str().expect("text").as_bytes().to_vec())
                    }
                    _ => None,
                }
            });
            assert_eq!(last_entry(text), name, "{text}");
        }
    }
}

#[test]
fn containment_goes_by_whole_components() {
    assert!(starts_with(&path("/a/b"), &path("/a/b")));
    assert!(starts_with(&path("/a/b/c"), &path("/a/b")));
    assert!(starts_with(&path("/a"), &path("/")));
    assert!(!starts_with(&path("/a/bc"), &path("/a/b")));
    assert!(!starts_with(&path("/a"), &path("/a/b")));
}

#[test]
fn resolution_reports_each_failure() {
    let workbench = workspace();
    let message = |relative: &str, must_exist: bool, lookup: &PathLookup| {
        workbench.resolve(relative, must_exist, lookup).expect_err("refused").message()
    };
    let lookup = PathLookup {
        root: Err("no root".to_string()),
        target: missing(),
        present: false,
        parent: missing(),
    };
    assert_eq!(message("a", true, &lookup), "local workbench error: no root");
    let lookup = PathLookup { root: Ok(path("/w")), ..lookup };
    assert_eq!(
        message("a", true, &lookup),
        "local workbench error: No such file or directory (os error 2)"
    );
    // The directory that would hold the file does not resolve either.
    assert_eq!(
        message("a/b", false, &lookup),
        "local workbench error: No such file or directory (os error 2)"
    );
    let lookup = PathLookup { root: Ok(path("/")), parent: Ok(path("/")), ..lookup };
    assert_eq!(message(".", false, &lookup), "local workbench error: invalid path");
    assert_eq!(
        message("../x", false, &lookup),
        "local workbench error: path must be workspace-relative: ../x"
    );
    // A new file in a linked directory that leads out of the workspace.
    let lookup = PathLookup {
        root: Ok(path("/w")),
        target: missing(),
        present: false,
        parent: Ok(path("/elsewhere")),
    };
    assert_eq!(
        message("linked/new", false, &lookup),
        "local workbench error: path escapes workspace"
    );
}

#[test]
fn worker_errors_have_their_messages() {
    let cases = [
        (WorkerError::Model("x".into()), "model error: x"),
        (WorkerError::InvalidAction("x".into()), "invalid worker action: x"),
        (WorkerError::Local("x".into()), "local workbench error: x"),
        (WorkerError::Denied("x".into()), "local authority denied: x"),
        (
            WorkerError::from(BrokerError::CapabilityGap),
            "capability broker error: no capability matches request",
        ),
        (WorkerError::StepLimit, "worker exceeded step limit"),
    ];
    for (error, message) in cases {
        assert_eq!(error.message(), message);
    }
}

#[test]
fn a_cut_read_is_continued_from_what_it_returned() {
    let workbench = workspace();
    let content = "aé日本\u{10348}z".repeat(9);
    let mut read = String::new();
    let mut offset: u64 = 0;
    loop {
        let arguments = json(&format!(r#"{{"path": "f", "offset": {offset}, "limit": 7}}"#));
        let operation =
            workbench.execute("read_file", &arguments, &full_authority()).expect("read");
        let result = workbench
            .completed(&operation, LocalOutput::Content(content.clone()))
            .expect("content");
        let returned = result.u64_at("bytes_returned").expect("a count");
        if returned == 0 {
            break;
        }
        read.push_str(result.str_at("content").expect("text"));
        offset += returned;
    }
    assert_eq!(read, content);
}
