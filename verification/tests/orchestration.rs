use sparktest::client::{auth_start, auth_step, env_config_available, AuthFlow, AuthSource};
use sparktest::facade::{
    cluster_health, delete_response, health_check_response, health_status_code, logs_response,
    plan_test_run, status_response,
};
use sparktest::logs::{logs_step, start_logs_flow, LogsEvent, LogsFlow};
use sparktest::manifest::build_job_manifest;
use sparktest::model::{ErrorKind, JobLogs, KubeConfig, KubernetesError};
use sparktest::monitor::{
    elapsed_seconds, monitor_outcome, monitor_step, MonitorDecision, MonitorObservation, RunStatus,
    POLL_BUDGET, POLL_PAUSE_SECONDS,
};
use sparktest::naming::workload_name;
use sparktest::status::{
    job_status, job_status_or_pending, pending_reason, phase_or_unknown, JobCondition,
    JobStatusKind, PodCondition,
};

fn cond(type_: &str, status: &str) -> JobCondition {
    JobCondition {
        type_: type_.to_string(),
        status: status.to_string(),
    }
}

#[test]
fn workload_name_is_prefixed_hex() {
    assert_eq!(
        workload_name(0),
        "sparktest-job-00000000000000000000000000000000"
    );
    assert_eq!(
        workload_name(0xdeadbeef),
        "sparktest-job-000000000000000000000000deadbeef"
    );
    assert_eq!(workload_name(u128::MAX).len(), 14 + 32);
}

#[test]
fn workload_name_deterministic_and_injective() {
    let id = 0x0123456789abcdef0123456789abcdefu128;
    assert_eq!(workload_name(id), workload_name(id));
    assert_ne!(workload_name(id), workload_name(id + 1));
    assert_ne!(workload_name(1), workload_name(1 << 64));
}

#[test]
fn workload_name_matches_uuid_simple_form() {
    let uuid = uuid::Uuid::new_v4();
    let named = workload_name(uuid.as_u128());
    assert_eq!(named, format!("sparktest-job-{}", uuid.simple()));
}

#[test]
fn manifest_fields_are_fixed() {
    let command = vec!["echo".to_string(), "hi".to_string()];
    let m = build_job_manifest("sparktest-job-01", "ubuntu:latest", &command);
    assert_eq!(m.name, "sparktest-job-01");
    assert_eq!(m.container_name, "sparktest-job-01");
    assert_eq!(m.image, "ubuntu:latest");
    assert_eq!(m.command, command);
    assert_eq!(m.restart_policy, "Never");
    assert_eq!(m.backoff_limit, 0);
    assert_eq!(m.ttl_seconds_after_finished, 3600);
    assert_eq!(
        m.labels,
        vec![
            ("app".to_string(), "sparktest".to_string()),
            ("component".to_string(), "test-runner".to_string()),
        ]
    );
    assert_eq!(
        m.pod_labels,
        vec![
            ("job-name".to_string(), "sparktest-job-01".to_string()),
            ("app".to_string(), "sparktest".to_string()),
        ]
    );
}

#[test]
fn monitor_completes_within_window() {
    // A run with image ubuntu:latest and command ["echo", "hi"] whose
    // workload reports Complete=True on the second poll.
    let command = vec!["echo".to_string(), "hi".to_string()];
    let m = build_job_manifest("sparktest-job-02", "ubuntu:latest", &command);
    assert_eq!(m.backoff_limit, 0);
    let observations = vec![
        MonitorObservation::Conditions { conditions: None },
        MonitorObservation::Conditions {
            conditions: Some(vec![cond("Complete", "True")]),
        },
    ];
    assert_eq!(
        monitor_outcome(&observations, POLL_BUDGET),
        Some(RunStatus::Succeeded)
    );
    let duration = elapsed_seconds(1000, 1000 + (POLL_PAUSE_SECONDS as i64));
    assert!(duration >= 0);
    assert_eq!(duration, 2);
    assert_eq!(RunStatus::Succeeded.label(), "succeeded");
}

#[test]
fn monitor_failure_and_exhaustion() {
    let failed = vec![MonitorObservation::Conditions {
        conditions: Some(vec![cond("Failed", "True")]),
    }];
    assert_eq!(monitor_outcome(&failed, POLL_BUDGET), Some(RunStatus::Failed));

    let quiet: Vec<MonitorObservation> = (0..POLL_BUDGET)
        .map(|_| MonitorObservation::Conditions { conditions: None })
        .collect();
    assert_eq!(monitor_outcome(&quiet, POLL_BUDGET), Some(RunStatus::Running));

    let aborted = vec![MonitorObservation::FetchFailed];
    assert_eq!(monitor_outcome(&aborted, POLL_BUDGET), None);
}

#[test]
fn monitor_complete_wins_over_failed() {
    let both = MonitorObservation::Conditions {
        conditions: Some(vec![cond("Failed", "True"), cond("Complete", "True")]),
    };
    assert_eq!(
        monitor_step(POLL_BUDGET, &both),
        MonitorDecision::Write {
            status: RunStatus::Succeeded
        }
    );
    let neither = MonitorObservation::Conditions {
        conditions: Some(vec![cond("Complete", "False")]),
    };
    assert_eq!(
        monitor_step(2, &neither),
        MonitorDecision::Continue { polls_left: 1 }
    );
    assert_eq!(
        monitor_step(1, &neither),
        MonitorDecision::Write {
            status: RunStatus::Running
        }
    );
}

#[test]
fn logs_flow_pending_pod_gets_explanation() {
    let flow = start_logs_flow("sparktest-job-03".to_string());
    let flow = logs_step(
        flow,
        LogsEvent::JobFetched {
            conditions: Some(vec![]),
        },
    );
    let flow = logs_step(
        flow,
        LogsEvent::PodsListed {
            names: vec![Some("pod-a".to_string())],
        },
    );
    let flow = logs_step(
        flow,
        LogsEvent::PhaseRead {
            phase: Some("Pending".to_string()),
        },
    );
    assert!(matches!(flow, LogsFlow::FetchPendingReason { .. }));
    let flow = logs_step(
        flow,
        LogsEvent::PodConditions {
            pod_conditions: Some(vec![PodCondition {
                type_: "PodScheduled".to_string(),
                status: "False".to_string(),
                reason: Some("Unschedulable".to_string()),
            }]),
        },
    );
    match flow {
        LogsFlow::Done { logs } => {
            assert_eq!(logs.job_name, "sparktest-job-03");
            assert_eq!(logs.pod_name, "pod-a");
            assert_eq!(logs.logs, "Pod is pending: Unschedulable");
            assert_eq!(logs.status, "running");
        }
        _ => panic!("expected a completed read"),
    }
}

#[test]
fn logs_flow_pending_without_reason() {
    // The condition fetch itself failed: the default reason applies.
    let flow = start_logs_flow("j".to_string());
    let flow = logs_step(flow, LogsEvent::JobFetched { conditions: None });
    let flow = logs_step(
        flow,
        LogsEvent::PodsListed {
            names: vec![Some("p".to_string())],
        },
    );
    let flow = logs_step(
        flow,
        LogsEvent::PhaseRead {
            phase: Some("Pending".to_string()),
        },
    );
    let flow = logs_step(flow, LogsEvent::PodConditions { pod_conditions: None });
    match flow {
        LogsFlow::Done { logs } => {
            assert_eq!(logs.logs, "Pod is pending: Unknown reason");
            assert_eq!(logs.status, "unknown");
        }
        _ => panic!("expected a completed read"),
    }

    // The condition list was read but carries no usable reason: the same
    // default applies.
    let flow = start_logs_flow("j".to_string());
    let flow = logs_step(flow, LogsEvent::JobFetched { conditions: Some(vec![]) });
    let flow = logs_step(
        flow,
        LogsEvent::PodsListed {
            names: vec![Some("p".to_string())],
        },
    );
    let flow = logs_step(
        flow,
        LogsEvent::PhaseRead {
            phase: Some("Pending".to_string()),
        },
    );
    let flow = logs_step(
        flow,
        LogsEvent::PodConditions {
            pod_conditions: Some(vec![PodCondition {
                type_: "PodScheduled".to_string(),
                status: "False".to_string(),
                reason: None,
            }]),
        },
    );
    match flow {
        LogsFlow::Done { logs } => {
            assert_eq!(logs.logs, "Pod is pending: Unknown reason");
            assert_eq!(logs.status, "running");
        }
        _ => panic!("expected a completed read"),
    }
}

#[test]
fn logs_flow_tail_and_placeholder() {
    let flow = start_logs_flow("j".to_string());
    let flow = logs_step(
        flow,
        LogsEvent::JobFetched {
            conditions: Some(vec![cond("Complete", "True")]),
        },
    );
    let flow = logs_step(
        flow,
        LogsEvent::PodsListed {
            names: vec![Some("p".to_string()), Some("q".to_string())],
        },
    );
    let flow = logs_step(
        flow,
        LogsEvent::PhaseRead {
            phase: Some("Succeeded".to_string()),
        },
    );
    assert!(matches!(flow, LogsFlow::FetchTail { .. }));
    let done = logs_step(
        flow,
        LogsEvent::TailFetched {
            text: Some("2024-01-01T00:00:00Z hi\n".to_string()),
        },
    );
    match done {
        LogsFlow::Done { logs } => {
            assert_eq!(logs.pod_name, "p");
            assert_eq!(logs.logs, "2024-01-01T00:00:00Z hi\n");
            assert_eq!(logs.status, "completed");
        }
        _ => panic!("expected a completed read"),
    }

    let flow = start_logs_flow("j".to_string());
    let flow = logs_step(flow, LogsEvent::JobFetched { conditions: Some(vec![]) });
    let flow = logs_step(
        flow,
        LogsEvent::PodsListed {
            names: vec![Some("p".to_string())],
        },
    );
    let flow = logs_step(flow, LogsEvent::PhaseRead { phase: None });
    let done = logs_step(flow, LogsEvent::TailFetched { text: None });
    match done {
        LogsFlow::Done { logs } => assert_eq!(logs.logs, "No logs available yet"),
        _ => panic!("expected a completed read"),
    }
}

#[test]
fn logs_flow_missing_workload_or_pod_is_not_found() {
    let flow = start_logs_flow("absent".to_string());
    let failed = logs_step(flow, LogsEvent::JobMissing);
    assert!(matches!(
        failed,
        LogsFlow::Failed {
            kind: ErrorKind::NotFound
        }
    ));

    let flow = start_logs_flow("j".to_string());
    let flow = logs_step(flow, LogsEvent::JobFetched { conditions: Some(vec![]) });
    let failed = logs_step(flow, LogsEvent::PodsListed { names: vec![] });
    assert!(matches!(
        failed,
        LogsFlow::Failed {
            kind: ErrorKind::NotFound
        }
    ));

    let flow = start_logs_flow("j".to_string());
    let flow = logs_step(flow, LogsEvent::JobFetched { conditions: Some(vec![]) });
    let failed = logs_step(flow, LogsEvent::PodsListed { names: vec![None] });
    assert!(matches!(
        failed,
        LogsFlow::Failed {
            kind: ErrorKind::NotFound
        }
    ));
}

#[test]
fn logs_response_maps_errors_to_error_status() {
    let body = logs_response(
        "absent",
        Err((ErrorKind::NotFound, "jobs.batch \"absent\" not found".to_string())),
    );
    assert_eq!(body.status, "error");
    assert_eq!(body.job_name, "absent");
    assert_eq!(
        body.error.as_deref(),
        Some("Failed to get job logs: jobs.batch \"absent\" not found")
    );
    assert!(body.pod_name.is_none() && body.logs.is_none());

    let body = logs_response("j", Err((ErrorKind::ClientUnavailable, String::new())));
    assert_eq!(body.error.as_deref(), Some("Kubernetes client unavailable"));
    assert_eq!(body.status, "error");

    let ok = logs_response(
        "j",
        Ok(JobLogs {
            job_name: "j".to_string(),
            pod_name: "p".to_string(),
            logs: "out".to_string(),
            timestamp: 7,
            status: "completed".to_string(),
        }),
    );
    assert_eq!(ok.status, "completed");
    assert_eq!(ok.pod_name.as_deref(), Some("p"));
    assert_eq!(ok.logs.as_deref(), Some("out"));
    assert_eq!(ok.timestamp, 7);
    assert!(ok.error.is_none());
}

#[test]
fn status_and_delete_responses() {
    let ok = status_response("j", Ok("completed".to_string()));
    assert_eq!(ok.status, "completed");
    assert!(ok.error.is_none());

    let err = status_response("j", Err((ErrorKind::NotFound, "gone".to_string())));
    assert_eq!(err.status, "error");
    assert_eq!(err.error.as_deref(), Some("Failed to get job status: gone"));

    let gone = delete_response("j", Ok(()));
    assert_eq!(gone.message.as_deref(), Some("Job j deleted successfully"));
    assert!(gone.error.is_none());

    let failed = delete_response("j", Err((ErrorKind::NotFound, "missing".to_string())));
    assert_eq!(
        failed.error.as_deref(),
        Some("Failed to delete job j: missing")
    );
    let unavailable = delete_response("j", Err((ErrorKind::ClientUnavailable, String::new())));
    assert_eq!(
        unavailable.error.as_deref(),
        Some("Kubernetes client unavailable - cannot delete job j")
    );
}

#[test]
fn unreachable_cluster_reports_false_without_error_leak() {
    // Client construction failed outright: the body still comes back,
    // connected is false, and getLogs classifies as client unavailable.
    let health = cluster_health(false, None);
    assert!(!health.kubernetes_connected);
    assert_eq!(
        health.error.as_deref(),
        Some("Could not create Kubernetes client")
    );
    assert_eq!(health_status_code(health.kubernetes_connected), 503);

    let health = cluster_health(true, Some(true));
    assert!(health.kubernetes_connected);
    assert!(health.error.is_none());
    assert_eq!(health_status_code(true), 200);

    let degraded = cluster_health(true, None);
    assert!(!degraded.kubernetes_connected);
    assert_eq!(
        degraded.error.as_deref(),
        Some("Kubernetes health check failed")
    );

    let body = logs_response("any", Err((ErrorKind::ClientUnavailable, String::new())));
    assert_eq!(body.status, "error");
    assert_eq!(body.error.as_deref(), Some("Kubernetes client unavailable"));
}

#[test]
fn auth_chain_tries_sources_in_order() {
    let flow = auth_start();
    assert_eq!(
        flow,
        AuthFlow::Trying {
            source: AuthSource::InCluster
        }
    );
    let flow = auth_step(flow, false);
    assert_eq!(
        flow,
        AuthFlow::Trying {
            source: AuthSource::Kubeconfig
        }
    );
    let ready = auth_step(flow, true);
    assert_eq!(
        ready,
        AuthFlow::Ready {
            source: AuthSource::Kubeconfig
        }
    );

    let mut all_fail = auth_start();
    for _ in 0..4 {
        all_fail = auth_step(all_fail, false);
    }
    assert_eq!(all_fail, AuthFlow::Unavailable);

    assert!(env_config_available(true, true));
    assert!(!env_config_available(true, false));
    assert!(!env_config_available(false, true));
}

#[test]
fn status_derivation_defaults() {
    assert_eq!(job_status(&None), JobStatusKind::Unknown);
    assert_eq!(
        job_status(&Some(vec![cond("Complete", "True")])),
        JobStatusKind::Completed
    );
    assert_eq!(
        job_status(&Some(vec![cond("Failed", "True")])),
        JobStatusKind::Failed
    );
    assert_eq!(
        job_status(&Some(vec![cond("Complete", "False")])),
        JobStatusKind::Running
    );
    assert_eq!(job_status_or_pending(&None), "pending");
    assert_eq!(
        job_status_or_pending(&Some(vec![cond("Complete", "True")])),
        "completed"
    );
    assert_eq!(job_status_or_pending(&Some(vec![])), "running");
    assert_eq!(phase_or_unknown(Some("Running".to_string())), "Running");
    assert_eq!(phase_or_unknown(None), "Unknown");
}

#[test]
fn pending_reason_picks_first_match() {
    let conds = vec![
        PodCondition {
            type_: "Initialized".to_string(),
            status: "True".to_string(),
            reason: None,
        },
        PodCondition {
            type_: "PodScheduled".to_string(),
            status: "False".to_string(),
            reason: Some("Unschedulable".to_string()),
        },
        PodCondition {
            type_: "PodScheduled".to_string(),
            status: "False".to_string(),
            reason: Some("Later".to_string()),
        },
    ];
    assert_eq!(pending_reason(&conds), "Unschedulable");
    assert_eq!(pending_reason(&vec![]), "Unknown reason");
    let no_reason = vec![PodCondition {
        type_: "PodScheduled".to_string(),
        status: "False".to_string(),
        reason: None,
    }];
    assert_eq!(pending_reason(&no_reason), "Unknown reason");
}

#[test]
fn plan_test_run_uses_overrides_and_defaults() {
    let def_name = "Smoke Test".to_string();
    let def_image = "ubuntu:latest".to_string();
    let def_commands = vec!["echo".to_string(), "hi".to_string()];
    let plan = plan_test_run(&def_name, &def_image, &def_commands, &None, &None, &None).unwrap();
    assert_eq!(plan.name, "Smoke Test");
    assert_eq!(plan.image, "ubuntu:latest");
    assert_eq!(plan.command, def_commands);
    assert_eq!(plan.job_name, workload_name(plan.run_id));
    assert_eq!(plan.manifest.name, plan.job_name);
    assert_eq!(plan.manifest.backoff_limit, 0);

    let plan = plan_test_run(
        &def_name,
        &def_image,
        &def_commands,
        &Some("  Custom  ".to_string()),
        &Some("alpine:3".to_string()),
        &Some(vec![" ls ".to_string()]),
    )
    .unwrap();
    assert_eq!(plan.name, "Custom");
    assert_eq!(plan.image, "alpine:3");
    assert_eq!(plan.command, vec!["ls"]);

    let bad = plan_test_run(
        &def_name,
        &def_image,
        &def_commands,
        &Some("bad!".to_string()),
        &None,
        &None,
    );
    assert!(bad.is_err());
    let bad = plan_test_run(
        &def_name,
        &def_image,
        &def_commands,
        &None,
        &Some("a//b".to_string()),
        &None,
    );
    assert!(bad.is_err());
    let bad = plan_test_run(
        &def_name,
        &def_image,
        &def_commands,
        &None,
        &None,
        &Some(vec!["rm -rf /".to_string()]),
    );
    assert!(bad.is_err());
}

#[test]
fn config_defaults_and_error_wrap() {
    let config = KubeConfig::default();
    assert_eq!(config.namespace, "default");
    assert_eq!(config.timeout_seconds, 300);
    assert_eq!(config.max_log_lines, Some(1000));

    let err = KubernetesError::wrap("boom".to_string(), Some("details".to_string()));
    assert_eq!(err.error_type, "KubernetesError");
    assert_eq!(err.message, "boom");
    assert_eq!(err.details.as_deref(), Some("details"));

    let health = health_check_response();
    assert_eq!(health.status, "healthy");
    assert!(!health.timestamp.is_empty());
}
