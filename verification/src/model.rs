//! Plain data carried through the orchestration core: client options,
//! the log-read result, the error record shown to callers, and the
//! classified error kinds.

use vstd::prelude::*;

verus! {

/// Options for talking to the orchestrator: the namespace worked in,
/// the per-call timeout, and how many log lines a read may return.
#[derive(Debug)]
pub struct KubeConfig {
    pub namespace: String,
    pub timeout_seconds: u64,
    pub max_log_lines: Option<i64>,
}

impl Default for KubeConfig {
    /// The defaults: namespace `default`, 300 s timeout, 1000 log lines.
    fn default() -> (r: Self)
        ensures
            r.namespace@ == "default"@,
            r.timeout_seconds == 300,
            r.max_log_lines == Some(1000i64),
    {
        KubeConfig {
            namespace: String::from_str("default"),
            timeout_seconds: 300,
            max_log_lines: Some(1000),
        }
    }
}

/// What one log read returns: the workload and pod looked at, the log
/// text or its placeholder, the coarse status label, and the read time
/// in seconds since the Unix epoch.
#[derive(Debug)]
pub struct JobLogs {
    pub job_name: String,
    pub pod_name: String,
    pub logs: String,
    pub timestamp: i64,
    pub status: String,
}

/// The error record callers see in place of raw orchestrator errors.
#[derive(Debug)]
pub struct KubernetesError {
    pub error_type: String,
    pub message: String,
    pub details: Option<String>,
}

impl KubernetesError {
    /// Wraps an orchestrator error message under the fixed error type.
    pub fn wrap(message: String, details: Option<String>) -> (r: Self)
        ensures
            r.error_type@ == "KubernetesError"@,
            r.message == message,
            r.details == details,
    {
        KubernetesError { error_type: String::from_str("KubernetesError"), message, details }
    }
}

/// The classified failures of the orchestration core.
#[derive(Clone, Copy, PartialEq, Eq, Structural, Debug)]
pub enum ErrorKind {
    /// No credential source yielded a working client.
    ClientUnavailable,
    /// The orchestrator rejected a submitted manifest.
    SubmitRejected,
    /// The workload or its pod is absent.
    NotFound,
    /// A log or condition fetch failed but degrades to a placeholder.
    TransientReadFailure,
    /// Writing the terminal status to the store failed.
    StoreWriteFailure,
}

} // verus!
