//! Construction of the batch workload manifest: one container, no
//! restarts, no orchestrator-side retries, identifying labels, and
//! automatic cleanup an hour after completion.

use vstd::prelude::*;

verus! {

/// The manifest the submitter hands to the orchestrator.
#[derive(Debug)]
pub struct JobManifest {
    /// Workload name; also the single container's name.
    pub name: String,
    /// Workload labels: `app` and `component`.
    pub labels: Vec<(String, String)>,
    /// Pod template labels: `job-name` and `app`.
    pub pod_labels: Vec<(String, String)>,
    pub container_name: String,
    pub image: String,
    pub command: Vec<String>,
    /// Fixed to `Never`: the pod is not restarted.
    pub restart_policy: String,
    /// Fixed to zero: the orchestrator retries nothing.
    pub backoff_limit: i32,
    /// Seconds the finished workload is kept before cleanup.
    pub ttl_seconds_after_finished: i32,
}

/// The label pairs a manifest built for `name` must carry.
pub open spec fn manifest_well_labeled(m: JobManifest) -> bool {
    &&& m.labels@.len() == 2
    &&& m.labels@[0].0@ == "app"@ && m.labels@[0].1@ == "sparktest"@
    &&& m.labels@[1].0@ == "component"@ && m.labels@[1].1@ == "test-runner"@
    &&& m.pod_labels@.len() == 2
    &&& m.pod_labels@[0].0@ == "job-name"@ && m.pod_labels@[0].1@ == m.name@
    &&& m.pod_labels@[1].0@ == "app"@ && m.pod_labels@[1].1@ == "sparktest"@
}

/// Builds the manifest for one run: a single container named after the
/// workload, running `image` with `command`, restart policy `Never`,
/// backoff limit zero, and a one-hour time to live after finishing.
pub fn build_job_manifest(job_name: &str, image: &str, command: &Vec<String>) -> (m: JobManifest)
    ensures
        m.name@ == job_name@,
        manifest_well_labeled(m),
        m.container_name@ == job_name@,
        m.image@ == image@,
        m.command@.len() == command@.len(),
        forall|i: int| 0 <= i < command@.len() ==> m.command@[i]@ == command@[i]@,
        m.restart_policy@ == "Never"@,
        m.backoff_limit == 0,
        m.ttl_seconds_after_finished == 3600,
{
    let mut labels: Vec<(String, String)> = Vec::new();
    labels.push((String::from_str("app"), String::from_str("sparktest")));
    labels.push((String::from_str("component"), String::from_str("test-runner")));
    let mut pod_labels: Vec<(String, String)> = Vec::new();
    pod_labels.push((String::from_str("job-name"), String::from_str(job_name)));
    pod_labels.push((String::from_str("app"), String::from_str("sparktest")));
    let mut cmd: Vec<String> = Vec::new();
    let mut i: usize = 0;
    while i < command.len()
        invariant
            i <= command@.len(),
            cmd@.len() == i,
            forall|j: int| 0 <= j < i ==> cmd@[j]@ == command@[j]@,
        decreases command@.len() - i,
    {
        cmd.push(command[i].clone());
        i = i + 1;
    }
    JobManifest {
        name: String::from_str(job_name),
        labels,
        pod_labels,
        container_name: String::from_str(job_name),
        image: String::from_str(image),
        command: cmd,
        restart_policy: String::from_str("Never"),
        backoff_limit: 0,
        ttl_seconds_after_finished: 3600,
    }
}

} // verus!
