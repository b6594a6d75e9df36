use sparktest::facade::CreateRunRequest;
use sparktest::records::{
    choose_suite_id, merge_definition_patch, merge_suite_patch, new_pending_run,
    validate_definition, validate_executor, validate_suite, DefinitionRecord, PatchDefinition,
    PatchSuite, SuiteRecord,
};
use sparktest::sync::{github_file_url, is_json_file, upsert_definition_plan, UpsertAction};

fn stored_definition() -> DefinitionRecord {
    DefinitionRecord {
        id: 7,
        name: "Old Name".to_string(),
        description: Some("old".to_string()),
        image: "old:1".to_string(),
        commands: vec!["old".to_string()],
        created_at: Some(1000),
        executor_id: Some(3),
        source: None,
    }
}

#[test]
fn definition_validation_in_field_order() {
    let ok = validate_definition(
        " Demo ",
        &Some("a <b>".to_string()),
        "nginx:latest",
        &vec!["echo".to_string()],
    )
    .unwrap();
    assert_eq!(ok.name, "Demo");
    assert_eq!(ok.description.as_deref(), Some("a &amp;lt;b&amp;gt;"));
    assert_eq!(ok.image, "nginx:latest");
    assert_eq!(ok.commands, vec!["echo"]);

    let e = validate_definition("", &None, "a//b", &Vec::new()).unwrap_err();
    assert_eq!(e, "Name cannot be empty");
    let e = validate_definition("ok", &None, "a//b", &Vec::new()).unwrap_err();
    assert!(e.starts_with("Invalid Docker image format"));
    let e = validate_definition("ok", &None, "nginx", &Vec::new()).unwrap_err();
    assert_eq!(e, "Commands cannot be empty");
    let long = "d".repeat(1001);
    let e = validate_definition("ok", &Some(long), "a//b", &Vec::new()).unwrap_err();
    assert_eq!(e, "Description too long: 1001 characters (max 1000)");
}

#[test]
fn definition_patch_merges_fields() {
    let patched = merge_definition_patch(
        stored_definition(),
        PatchDefinition {
            name: Some("New Name".to_string()),
            description: Some(None),
            image: None,
            commands: Some(vec!["new".to_string()]),
            executor_id: Some(None),
            source: Some(Some("url".to_string())),
        },
    );
    assert_eq!(patched.id, 7);
    assert_eq!(patched.name, "New Name");
    assert_eq!(patched.description, None);
    assert_eq!(patched.image, "old:1");
    assert_eq!(patched.commands, vec!["new"]);
    assert_eq!(patched.created_at, Some(1000));
    assert_eq!(patched.executor_id, None);
    assert_eq!(patched.source.as_deref(), Some("url"));

    let unchanged = merge_definition_patch(
        stored_definition(),
        PatchDefinition {
            name: None,
            description: None,
            image: None,
            commands: None,
            executor_id: None,
            source: None,
        },
    );
    assert_eq!(unchanged.name, "Old Name");
    assert_eq!(unchanged.executor_id, Some(3));
}

#[test]
fn suite_validation_and_patch() {
    let ok = validate_suite(
        "Suite",
        &None,
        "PARALLEL",
        &vec!["Smoke".to_string(), "smoke".to_string()],
    )
    .unwrap();
    assert_eq!(ok.name, "Suite");
    assert_eq!(ok.execution_mode, "parallel");
    assert_eq!(ok.labels, vec!["smoke"]);

    let e = validate_suite("Suite", &None, "batch", &Vec::new()).unwrap_err();
    assert_eq!(e, "Execution mode must be 'sequential' or 'parallel'");

    let current = SuiteRecord {
        id: 9,
        name: "S".to_string(),
        description: None,
        execution_mode: "sequential".to_string(),
        labels: vec!["a".to_string()],
        test_definition_ids: vec![1, 2],
        created_at: Some(5),
    };
    let patched = merge_suite_patch(
        current,
        PatchSuite {
            name: None,
            description: Some(Some("d".to_string())),
            execution_mode: Some("parallel".to_string()),
            labels: None,
            test_definition_ids: Some(vec![]),
        },
    );
    assert_eq!(patched.id, 9);
    assert_eq!(patched.name, "S");
    assert_eq!(patched.description.as_deref(), Some("d"));
    assert_eq!(patched.execution_mode, "parallel");
    assert_eq!(patched.labels, vec!["a"]);
    assert_eq!(patched.test_definition_ids, Vec::<u128>::new());

    assert_eq!(choose_suite_id(42), 42);
    assert_ne!(choose_suite_id(0), 0);
}

#[test]
fn executor_validation_takes_first_clean_command() {
    let ok = validate_executor(
        "Runner",
        "runner:1",
        &" echo hello ".to_string(),
        &Some("desc".to_string()),
    )
    .unwrap();
    assert_eq!(ok.name, "Runner");
    assert_eq!(ok.image, "runner:1");
    assert_eq!(ok.command, "echo hello");
    assert_eq!(ok.description.as_deref(), Some("desc"));

    let e = validate_executor("Runner", "runner:1", &"x; rm".to_string(), &None).unwrap_err();
    assert_eq!(e, "Command contains potentially dangerous pattern: ;");
    let e = validate_executor("Runner", "a//b", &"echo".to_string(), &None).unwrap_err();
    assert!(e.starts_with("Invalid Docker image format"));
}

#[test]
fn pending_run_starts_empty() {
    let run = new_pending_run(CreateRunRequest {
        name: "Test Run".to_string(),
        image: "test:latest".to_string(),
        commands: vec!["echo".to_string(), "hello".to_string()],
    });
    assert_eq!(run.name, "Test Run");
    assert_eq!(run.image, "test:latest");
    assert_eq!(run.status, "pending");
    assert_eq!(run.commands.len(), 2);
    assert!(run.duration.is_none());
    assert!(run.logs.is_none());
    assert!(run.k8s_job_name.is_none());
    assert!(run.completed.is_none() && run.failed.is_none());
}

#[test]
fn json_file_names() {
    assert!(is_json_file("case.json"));
    assert!(is_json_file("a.b.json"));
    assert!(is_json_file("..json"));
    assert!(!is_json_file(".json"));
    assert!(!is_json_file("json"));
    assert!(!is_json_file("case.jsonx"));
    assert!(!is_json_file("case.js"));
    assert!(!is_json_file(""));
}

#[test]
fn github_file_url_shape() {
    assert_eq!(
        github_file_url(
            "https://github.com/kevintatou/sparktest-demo-definitions.git",
            "main",
            "case.json"
        ),
        "https://github.com/kevintatou/sparktest-demo-definitions.git/blob/main/tests/case.json"
    );
}

#[test]
fn upsert_plan_defaults_and_actions() {
    let (fields, action) = upsert_definition_plan(&None, &None, &None, &None, None).unwrap();
    assert_eq!(fields.name, "Unnamed");
    assert_eq!(fields.image, "ubuntu:latest");
    assert_eq!(fields.commands, vec!["echo Hello"]);
    assert!(fields.description.is_none());
    assert_eq!(action, UpsertAction::Insert);

    let (fields, action) = upsert_definition_plan(
        &Some("Synced".to_string()),
        &Some("busybox".to_string()),
        &Some(vec!["true".to_string()]),
        &Some("from repo".to_string()),
        Some(11),
    )
    .unwrap();
    assert_eq!(fields.name, "Synced");
    assert_eq!(fields.image, "busybox");
    assert_eq!(fields.commands, vec!["true"]);
    assert_eq!(fields.description.as_deref(), Some("from repo"));
    assert_eq!(action, UpsertAction::Update { id: 11 });

    let e = upsert_definition_plan(&Some("bad!".to_string()), &None, &None, &None, None)
        .unwrap_err();
    assert_eq!(e, "Invalid name in GitHub sync");
    let e = upsert_definition_plan(&None, &Some("a//b".to_string()), &None, &None, None)
        .unwrap_err();
    assert_eq!(e, "Invalid image in GitHub sync");
    let e = upsert_definition_plan(
        &None,
        &None,
        &Some(vec!["x | y".to_string()]),
        &None,
        None,
    )
    .unwrap_err();
    assert_eq!(e, "Invalid commands in GitHub sync");
    let e = upsert_definition_plan(&None, &None, &None, &Some("d".repeat(1001)), None)
        .unwrap_err();
    assert_eq!(e, "Invalid description in GitHub sync");
}
