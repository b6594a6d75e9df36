//! The public surface the request layer consumes: well-formed response
//! bodies for health, log, status and delete calls, with every
//! orchestrator failure mapped to a classified error message — a caller
//! always receives a body, never a raw error — and the planning step of
//! run creation.

use vstd::prelude::*;
use crate::clock::{now_rfc3339, now_seconds};
use crate::manifest::{build_job_manifest, manifest_well_labeled, JobManifest};
use crate::model::{ErrorKind, JobLogs};
use crate::naming::{fresh_run_id, spec_workload_name, workload_name};
use crate::validation::{
    acceptable_commands, acceptable_image, acceptable_name, commands_error, image_error,
    name_error, sanitize_commands, sanitize_name, validate_docker_image,
};
use crate::text::trim_seq;

verus! {

/// The service's own health body.
#[derive(Debug)]
pub struct HealthResponse {
    pub status: String,
    pub timestamp: String,
}

/// Builds the service health body: always healthy, stamped now with a
/// nonempty timestamp.
pub fn health_check_response() -> (r: HealthResponse)
    ensures
        r.status@ == "healthy"@,
        r.timestamp@.len() > 0,
{
    HealthResponse { status: String::from_str("healthy"), timestamp: now_rfc3339() }
}

/// A request to create and submit one run.
#[derive(Debug)]
pub struct CreateRunRequest {
    pub name: String,
    pub image: String,
    pub commands: Vec<String>,
}

/// The cluster health body: whether the orchestrator answered, and the
/// explanation where it did not.
#[derive(Debug)]
pub struct ClusterHealth {
    pub kubernetes_connected: bool,
    pub timestamp: i64,
    pub error: Option<String>,
}

/// Builds the cluster health body from the two outcomes that precede it:
/// whether a client could be built, and what the cheap list call said
/// (`None` where the call itself failed). No failure leaks as an error:
/// the body always reports plainly whether the cluster is reachable.
pub fn cluster_health(client_ok: bool, check: Option<bool>) -> (r: ClusterHealth)
    ensures
        r.kubernetes_connected == (client_ok && check == Some(true)),
        !client_ok ==> (r.error matches Some(m) && m@ == "Could not create Kubernetes client"@),
        client_ok && check is None ==> (r.error matches Some(m) && m@
            == "Kubernetes health check failed"@),
        client_ok && check is Some ==> r.error is None,
{
    if !client_ok {
        ClusterHealth {
            kubernetes_connected: false,
            timestamp: now_seconds(),
            error: Some(String::from_str("Could not create Kubernetes client")),
        }
    } else {
        match check {
            Some(connected) => ClusterHealth {
                kubernetes_connected: connected,
                timestamp: now_seconds(),
                error: None,
            },
            None => ClusterHealth {
                kubernetes_connected: false,
                timestamp: now_seconds(),
                error: Some(String::from_str("Kubernetes health check failed")),
            },
        }
    }
}

/// The status code the health endpoint answers with.
pub fn health_status_code(connected: bool) -> (r: u16)
    ensures
        connected ==> r == 200,
        !connected ==> r == 503,
{
    if connected {
        200
    } else {
        503
    }
}

/// The body of a log-read response.
#[derive(Debug)]
pub struct LogsResponse {
    pub job_name: String,
    pub pod_name: Option<String>,
    pub logs: Option<String>,
    pub error: Option<String>,
    pub timestamp: i64,
    pub status: String,
}

/// The message a failed log read reports.
pub open spec fn spec_logs_error_message(kind: ErrorKind, detail: Seq<char>) -> Seq<char> {
    if kind is ClientUnavailable {
        "Kubernetes client unavailable"@
    } else {
        "Failed to get job logs: "@ + detail
    }
}

/// Builds the log-read response body. A successful read is copied over;
/// any failure becomes a well-formed body with status `error` and a
/// classified message — never a raw error, never a panic.
pub fn logs_response(job_name: &str, outcome: Result<JobLogs, (ErrorKind, String)>) -> (r:
    LogsResponse)
    ensures
        match outcome {
            Ok(logs) => r.job_name == logs.job_name && r.pod_name == Some(logs.pod_name) && r.logs
                == Some(logs.logs) && r.status == logs.status && r.timestamp == logs.timestamp
                && r.error is None,
            Err((kind, detail)) => r.job_name@ == job_name@ && r.status@ == "error"@ && (
            r.error matches Some(m) && m@ == spec_logs_error_message(kind, detail@)) && r.pod_name
                is None && r.logs is None,
        },
{
    match outcome {
        Ok(logs) => LogsResponse {
            job_name: logs.job_name,
            pod_name: Some(logs.pod_name),
            logs: Some(logs.logs),
            error: None,
            timestamp: logs.timestamp,
            status: logs.status,
        },
        Err((kind, detail)) => {
            let message = match kind {
                ErrorKind::ClientUnavailable => String::from_str("Kubernetes client unavailable"),
                _ => {
                    let mut m = String::from_str("Failed to get job logs: ");
                    m.append(detail.as_str());
                    m
                },
            };
            LogsResponse {
                job_name: String::from_str(job_name),
                pod_name: None,
                logs: None,
                error: Some(message),
                timestamp: now_seconds(),
                status: String::from_str("error"),
            }
        },
    }
}

/// The body of a status-read response.
#[derive(Debug)]
pub struct StatusResponse {
    pub job_name: String,
    pub status: String,
    pub error: Option<String>,
    pub timestamp: i64,
}

/// The message a failed status read reports.
pub open spec fn spec_status_error_message(kind: ErrorKind, detail: Seq<char>) -> Seq<char> {
    if kind is ClientUnavailable {
        "Kubernetes client unavailable"@
    } else {
        "Failed to get job status: "@ + detail
    }
}

/// Builds the status response body: the status label on success, the
/// classified message under status `error` otherwise.
pub fn status_response(job_name: &str, outcome: Result<String, (ErrorKind, String)>) -> (r:
    StatusResponse)
    ensures
        r.job_name@ == job_name@,
        match outcome {
            Ok(label) => r.status == label && r.error is None,
            Err((kind, detail)) => r.status@ == "error"@ && (r.error matches Some(m) && m@
                == spec_status_error_message(kind, detail@)),
        },
{
    match outcome {
        Ok(label) => StatusResponse {
            job_name: String::from_str(job_name),
            status: label,
            error: None,
            timestamp: now_seconds(),
        },
        Err((kind, detail)) => {
            let message = match kind {
                ErrorKind::ClientUnavailable => String::from_str("Kubernetes client unavailable"),
                _ => {
                    let mut m = String::from_str("Failed to get job status: ");
                    m.append(detail.as_str());
                    m
                },
            };
            StatusResponse {
                job_name: String::from_str(job_name),
                status: String::from_str("error"),
                error: Some(message),
                timestamp: now_seconds(),
            }
        },
    }
}

/// The body of a delete response.
#[derive(Debug)]
pub struct DeleteResponse {
    pub message: Option<String>,
    pub error: Option<String>,
    pub timestamp: i64,
}

/// The message a delete reports, by outcome.
pub open spec fn spec_delete_message(job_name: Seq<char>) -> Seq<char> {
    "Job "@ + job_name + " deleted successfully"@
}

pub open spec fn spec_delete_error_message(
    job_name: Seq<char>,
    kind: ErrorKind,
    detail: Seq<char>,
) -> Seq<char> {
    if kind is ClientUnavailable {
        "Kubernetes client unavailable - cannot delete job "@ + job_name
    } else {
        "Failed to delete job "@ + job_name + ": "@ + detail
    }
}

/// Builds the delete response body: an acknowledgement on success, the
/// classified message otherwise.
pub fn delete_response(job_name: &str, outcome: Result<(), (ErrorKind, String)>) -> (r:
    DeleteResponse)
    ensures
        match outcome {
            Ok(_) => (r.message matches Some(m) && m@ == spec_delete_message(job_name@)) && r.error
                is None,
            Err((kind, detail)) => r.message is None && (r.error matches Some(m) && m@
                == spec_delete_error_message(job_name@, kind, detail@)),
        },
{
    match outcome {
        Ok(_) => {
            let mut m = String::from_str("Job ");
            m.append(job_name);
            m.append(" deleted successfully");
            DeleteResponse { message: Some(m), error: None, timestamp: now_seconds() }
        },
        Err((kind, detail)) => {
            let message = match kind {
                ErrorKind::ClientUnavailable => {
                    let mut m = String::from_str(
                        "Kubernetes client unavailable - cannot delete job ",
                    );
                    m.append(job_name);
                    m
                },
                _ => {
                    let mut m = String::from_str("Failed to delete job ");
                    m.append(job_name);
                    m.append(": ");
                    m.append(detail.as_str());
                    m
                },
            };
            DeleteResponse { message: None, error: Some(message), timestamp: now_seconds() }
        },
    }
}

/// Everything one run creation decides before any orchestrator call:
/// the fresh run id, the workload name derived from it, the effective
/// name, image and command, and the manifest to submit.
#[derive(Debug)]
pub struct RunPlan {
    pub run_id: u128,
    pub job_name: String,
    pub name: String,
    pub image: String,
    pub command: Vec<String>,
    pub manifest: JobManifest,
}

/// Plans one run. A requested name, image or command list overrides the
/// definition's and is validated; an absent one falls back to the
/// definition's value unchecked. The workload name is derived from the
/// fresh run id, and the manifest is built for it.
pub fn plan_test_run(
    def_name: &String,
    def_image: &String,
    def_commands: &Vec<String>,
    req_name: &Option<String>,
    req_image: &Option<String>,
    req_commands: &Option<Vec<String>>,
) -> (r: Result<RunPlan, String>)
    ensures
        match r {
            Ok(p) => {
                &&& (match req_name {
                    Some(n) => acceptable_name(n@) && p.name@ == trim_seq(n@),
                    None => p.name == def_name,
                })
                &&& (match req_image {
                    Some(i) => acceptable_image(i@) && p.image@ == trim_seq(i@),
                    None => p.image == def_image,
                })
                &&& (match req_commands {
                    Some(c) => acceptable_commands(c.deep_view())
                        && crate::validation::sanitize_commands_seq(c.deep_view()) == Ok::<
                        Seq<Seq<char>>,
                        Seq<char>,
                    >(p.command.deep_view()),
                    None => p.command@ == def_commands@,
                })
                &&& p.job_name@ == spec_workload_name(p.run_id)
                &&& p.manifest.name@ == p.job_name@
                &&& manifest_well_labeled(p.manifest)
                &&& p.manifest.image@ == p.image@
                &&& p.manifest.command@.len() == p.command@.len()
                &&& (forall|i: int|
                    0 <= i < p.command@.len() ==> p.manifest.command@[i]@ == p.command@[i]@)
                &&& p.manifest.restart_policy@ == "Never"@
                &&& p.manifest.backoff_limit == 0
                &&& p.manifest.ttl_seconds_after_finished == 3600
            },
            Err(e) => {
                ||| (req_name matches Some(n) && !acceptable_name(n@) && e@ == name_error(n@))
                ||| {
                    &&& (match req_name {
                        Some(n) => acceptable_name(n@),
                        None => true,
                    })
                    &&& (req_image matches Some(i) && !acceptable_image(i@) && e@ == image_error(
                        i@,
                    ))
                }
                ||| {
                    &&& (match req_name {
                        Some(n) => acceptable_name(n@),
                        None => true,
                    })
                    &&& (match req_image {
                        Some(i) => acceptable_image(i@),
                        None => true,
                    })
                    &&& (req_commands matches Some(c) && !acceptable_commands(c.deep_view()) && e@
                        == commands_error(c.deep_view()))
                }
            },
        },
{
    let name = match req_name {
        Some(n) => {
            match sanitize_name(n.as_str()) {
                Ok(v) => v,
                Err(e) => {
                    return Err(e);
                },
            }
        },
        None => def_name.clone(),
    };
    let image = match req_image {
        Some(i) => {
            match validate_docker_image(i.as_str()) {
                Ok(v) => v,
                Err(e) => {
                    return Err(e);
                },
            }
        },
        None => def_image.clone(),
    };
    let command = match req_commands {
        Some(c) => {
            match sanitize_commands(c) {
                Ok(v) => v,
                Err(e) => {
                    return Err(e);
                },
            }
        },
        None => clone_strings(def_commands),
    };
    let run_id = fresh_run_id();
    let job_name = workload_name(run_id);
    let manifest = build_job_manifest(job_name.as_str(), image.as_str(), &command);
    Ok(RunPlan { run_id, job_name, name, image, command, manifest })
}

/// Clones a list of strings, keeping every element.
fn clone_strings(v: &Vec<String>) -> (r: Vec<String>)
    ensures
        r@ == v@,
{
    let c = v.clone();
    proof {
        assert forall|i: int| 0 <= i < v@.len() implies c@[i] == v@[i] by {
            assert(vstd::pervasive::cloned::<String>(v@[i], c@[i]));
        }
        assert(c@ =~= v@);
    }
    c
}

} // verus!
