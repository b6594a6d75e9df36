//! The log-read flow. Reading a workload's logs takes a fixed sequence
//! of orchestrator calls: fetch the workload, list its pods, read the
//! first pod's phase, then either explain why the pod is still pending
//! or fetch the log tail. The flow is a state machine: each non-final
//! state names the call to make next, and `logs_step` consumes the
//! call's outcome. A pending pod is explained, never tailed; a missing
//! workload or pod ends the flow with `NotFound`.

use vstd::prelude::*;
use crate::clock::now_seconds;
use crate::model::{ErrorKind, JobLogs};
use crate::status::{
    spec_job_status, spec_pending_reason, spec_phase_or_unknown, job_status, pending_reason,
    JobCondition, JobStatusKind, PodCondition,
};

verus! {

/// The log-read flow. Each non-final state is a request to the driver;
/// the driver performs the named call and hands the outcome back.
#[derive(Debug)]
pub enum LogsFlow {
    /// Fetch the workload and report its condition list.
    FetchJob { job_name: String },
    /// List the pods backing the workload.
    ListPods { job_name: String, status: JobStatusKind },
    /// Read the named pod's phase.
    ReadPhase { job_name: String, status: JobStatusKind, pod_name: String },
    /// Read the pod's conditions, for the reason it is pending.
    FetchPendingReason { job_name: String, status: JobStatusKind, pod_name: String },
    /// Fetch the bounded, timestamped log tail of the pod.
    FetchTail { job_name: String, status: JobStatusKind, pod_name: String },
    /// The read is complete.
    Done { logs: JobLogs },
    /// The read failed with a classified error.
    Failed { kind: ErrorKind },
}

/// One call's outcome, handed back to the flow.
#[derive(Debug)]
pub enum LogsEvent {
    /// The workload was fetched; its condition list, where it has one.
    JobFetched { conditions: Option<Vec<JobCondition>> },
    /// The workload could not be fetched.
    JobMissing,
    /// The pods matching the workload's selector, in the order listed;
    /// a pod that carries no name hands `None`.
    PodsListed { names: Vec<Option<String>> },
    /// The pod list call failed.
    PodListFailed,
    /// The phase read gave this phase, or nothing on missing data.
    PhaseRead { phase: Option<String> },
    /// The phase could not be read.
    PhaseReadFailed,
    /// The pod's conditions, or nothing where that fetch failed.
    PodConditions { pod_conditions: Option<Vec<PodCondition>> },
    /// The log tail, or nothing where the fetch failed.
    TailFetched { text: Option<String> },
}

/// The stage a flow stands at, its data abstracted away.
#[derive(Clone, Copy, PartialEq, Eq, Structural, Debug)]
pub enum LogsStage {
    FetchJob,
    ListPods,
    ReadPhase,
    FetchPendingReason,
    FetchTail,
    Done,
    Failed,
}

pub open spec fn stage_of(f: LogsFlow) -> LogsStage {
    match f {
        LogsFlow::FetchJob { .. } => LogsStage::FetchJob,
        LogsFlow::ListPods { .. } => LogsStage::ListPods,
        LogsFlow::ReadPhase { .. } => LogsStage::ReadPhase,
        LogsFlow::FetchPendingReason { .. } => LogsStage::FetchPendingReason,
        LogsFlow::FetchTail { .. } => LogsStage::FetchTail,
        LogsFlow::Done { .. } => LogsStage::Done,
        LogsFlow::Failed { .. } => LogsStage::Failed,
    }
}

/// What an event says, its data abstracted away.
#[derive(Clone, Copy, PartialEq, Eq, Structural, Debug)]
pub enum LogsSignal {
    JobFetched,
    JobMissing,
    /// A pod list whose first entry carries a name.
    PodFound,
    /// An empty or failed pod list, or a first pod without a name.
    PodMissing,
    PhasePending,
    PhaseOther,
    PhaseReadFailed,
    PodConditions,
    TailFetched,
}

pub open spec fn signal_of(e: LogsEvent) -> LogsSignal {
    match e {
        LogsEvent::JobFetched { .. } => LogsSignal::JobFetched,
        LogsEvent::JobMissing => LogsSignal::JobMissing,
        LogsEvent::PodsListed { names } => {
            if names@.len() > 0 && names@[0] is Some {
                LogsSignal::PodFound
            } else {
                LogsSignal::PodMissing
            }
        },
        LogsEvent::PodListFailed => LogsSignal::PodMissing,
        LogsEvent::PhaseRead { phase } => {
            if spec_phase_or_unknown(spec_opt_view(phase)) == "Pending"@ {
                LogsSignal::PhasePending
            } else {
                LogsSignal::PhaseOther
            }
        },
        LogsEvent::PhaseReadFailed => LogsSignal::PhaseReadFailed,
        LogsEvent::PodConditions { .. } => LogsSignal::PodConditions,
        LogsEvent::TailFetched { .. } => LogsSignal::TailFetched,
    }
}

/// The view of an optional string.
pub open spec fn spec_opt_view(s: Option<String>) -> Option<Seq<char>> {
    match s {
        Some(v) => Some(v@),
        None => None,
    }
}

/// The view of an optional condition list.
pub open spec fn spec_conds_view(c: Option<Vec<JobCondition>>) -> Option<Seq<JobCondition>> {
    match c {
        Some(cs) => Some(cs@),
        None => None,
    }
}

/// How the stage advances on a signal. An outcome that does not answer
/// the pending request leaves the stage as it stands.
pub open spec fn spec_stage_step(s: LogsStage, g: LogsSignal) -> LogsStage {
    match s {
        LogsStage::FetchJob => match g {
            LogsSignal::JobFetched => LogsStage::ListPods,
            LogsSignal::JobMissing => LogsStage::Failed,
            _ => s,
        },
        LogsStage::ListPods => match g {
            LogsSignal::PodFound => LogsStage::ReadPhase,
            LogsSignal::PodMissing => LogsStage::Failed,
            _ => s,
        },
        LogsStage::ReadPhase => match g {
            LogsSignal::PhasePending => LogsStage::FetchPendingReason,
            LogsSignal::PhaseOther => LogsStage::FetchTail,
            LogsSignal::PhaseReadFailed => LogsStage::Failed,
            _ => s,
        },
        LogsStage::FetchPendingReason => match g {
            LogsSignal::PodConditions => LogsStage::Done,
            _ => s,
        },
        LogsStage::FetchTail => match g {
            LogsSignal::TailFetched => LogsStage::Done,
            _ => s,
        },
        LogsStage::Done => s,
        LogsStage::Failed => s,
    }
}

/// The stage after a whole sequence of signals.
pub open spec fn spec_stage_run(s: LogsStage, gs: Seq<LogsSignal>) -> LogsStage
    decreases gs.len(),
{
    if gs.len() == 0 {
        s
    } else {
        spec_stage_run(spec_stage_step(s, gs[0]), gs.drop_first())
    }
}

/// Law: once a pod is known to be pending, the flow never asks for the
/// log tail, whatever the orchestrator reports afterwards: it either
/// still awaits the pod's conditions or has completed with the pending
/// explanation.
pub proof fn lemma_pending_never_fetches_tail(gs: Seq<LogsSignal>)
    ensures
        spec_stage_run(LogsStage::FetchPendingReason, gs) == LogsStage::FetchPendingReason
            || spec_stage_run(LogsStage::FetchPendingReason, gs) == LogsStage::Done,
    decreases gs.len(),
{
    if gs.len() > 0 {
        let next = spec_stage_step(LogsStage::FetchPendingReason, gs[0]);
        if next == LogsStage::FetchPendingReason {
            lemma_pending_never_fetches_tail(gs.drop_first());
        } else {
            lemma_final_stage_stays(next, gs.drop_first());
        }
    }
}

/// Law: a finished or failed flow does not move again.
pub proof fn lemma_final_stage_stays(s: LogsStage, gs: Seq<LogsSignal>)
    requires
        s is Done || s is Failed,
    ensures
        spec_stage_run(s, gs) == s,
    decreases gs.len(),
{
    if gs.len() > 0 {
        lemma_final_stage_stays(s, gs.drop_first());
    }
}

/// Starts a log read for a workload.
pub fn start_logs_flow(job_name: String) -> (r: LogsFlow)
    ensures
        r matches LogsFlow::FetchJob { job_name: jn } && jn == job_name,
{
    LogsFlow::FetchJob { job_name }
}

/// Advances the flow by one observed outcome. The stage moves as
/// `spec_stage_step` says; the data carried along is pinned down for
/// each transition below.
#[verifier::rlimit(30)]
pub fn logs_step(flow: LogsFlow, event: LogsEvent) -> (r: LogsFlow)
    ensures
        stage_of(r) == spec_stage_step(stage_of(flow), signal_of(event)),
        stage_of(r) == stage_of(flow) ==> r == flow,
        match flow {
            LogsFlow::FetchJob { job_name } => {
                &&& (event matches LogsEvent::JobFetched { conditions } ==> (r matches
                    LogsFlow::ListPods { job_name: jn, status } && jn == job_name && status
                    == spec_job_status(spec_conds_view(conditions))))
                &&& (event is JobMissing ==> (r matches LogsFlow::Failed { kind } && kind
                    == ErrorKind::NotFound))
            },
            LogsFlow::ListPods { job_name, status } => {
                &&& (event matches LogsEvent::PodsListed { names } ==> {
                    if names@.len() > 0 && names@[0] is Some {
                        r matches LogsFlow::ReadPhase { job_name: jn, status: st, pod_name } && jn
                            == job_name && st == status && Some(pod_name) == names@[0]
                    } else {
                        r matches LogsFlow::Failed { kind } && kind == ErrorKind::NotFound
                    }
                })
                &&& (event is PodListFailed ==> (r matches LogsFlow::Failed { kind } && kind
                    == ErrorKind::NotFound))
            },
            LogsFlow::ReadPhase { job_name, status, pod_name } => {
                &&& (event matches LogsEvent::PhaseRead { phase } ==> {
                    if spec_phase_or_unknown(spec_opt_view(phase)) == "Pending"@ {
                        r matches LogsFlow::FetchPendingReason { job_name: jn, status: st, pod_name: pn }
                            && jn == job_name && st == status && pn == pod_name
                    } else {
                        r matches LogsFlow::FetchTail { job_name: jn, status: st, pod_name: pn }
                            && jn == job_name && st == status && pn == pod_name
                    }
                })
                &&& (event is PhaseReadFailed ==> (r matches LogsFlow::Failed { kind } && kind
                    == ErrorKind::NotFound))
            },
            LogsFlow::FetchPendingReason { job_name, status, pod_name } => {
                event matches LogsEvent::PodConditions { pod_conditions } ==> (r matches LogsFlow::Done {
                    logs,
                } && logs.job_name == job_name && logs.pod_name == pod_name && logs.status@
                    == status.spec_label() && logs.logs@ == "Pod is pending: "@ + (match pod_conditions {
                    Some(cs) => spec_pending_reason(cs@),
                    None => "Unknown reason"@,
                }))
            },
            LogsFlow::FetchTail { job_name, status, pod_name } => {
                event matches LogsEvent::TailFetched { text } ==> (r matches LogsFlow::Done { logs }
                    && logs.job_name == job_name && logs.pod_name == pod_name && logs.status@
                    == status.spec_label() && logs.logs@ == (match text {
                    Some(t) => t@,
                    None => "No logs available yet"@,
                }))
            },
            LogsFlow::Done { .. } => r == flow,
            LogsFlow::Failed { .. } => r == flow,
        },
{
    match (flow, event) {
        (LogsFlow::FetchJob { job_name }, LogsEvent::JobFetched { conditions }) => {
            let status = job_status(&conditions);
            LogsFlow::ListPods { job_name, status }
        },
        (LogsFlow::FetchJob { .. }, LogsEvent::JobMissing) => {
            LogsFlow::Failed { kind: ErrorKind::NotFound }
        },
        (LogsFlow::ListPods { job_name, status }, LogsEvent::PodsListed { mut names }) => {
            if names.len() > 0 {
                let first = names.remove(0);
                match first {
                    Some(pod_name) => LogsFlow::ReadPhase { job_name, status, pod_name },
                    None => LogsFlow::Failed { kind: ErrorKind::NotFound },
                }
            } else {
                LogsFlow::Failed { kind: ErrorKind::NotFound }
            }
        },
        (LogsFlow::ListPods { .. }, LogsEvent::PodListFailed) => {
            LogsFlow::Failed { kind: ErrorKind::NotFound }
        },
        (LogsFlow::ReadPhase { job_name, status, pod_name }, LogsEvent::PhaseRead { phase }) => {
            let ph = crate::status::phase_or_unknown(phase);
            let pending = String::from_str("Pending");
            if ph == pending {
                LogsFlow::FetchPendingReason { job_name, status, pod_name }
            } else {
                LogsFlow::FetchTail { job_name, status, pod_name }
            }
        },
        (LogsFlow::ReadPhase { .. }, LogsEvent::PhaseReadFailed) => {
            LogsFlow::Failed { kind: ErrorKind::NotFound }
        },
        (
            LogsFlow::FetchPendingReason { job_name, status, pod_name },
            LogsEvent::PodConditions { pod_conditions },
        ) => {
            let reason = match &pod_conditions {
                Some(cs) => pending_reason(cs),
                None => String::from_str("Unknown reason"),
            };
            let mut text = String::from_str("Pod is pending: ");
            text.append(reason.as_str());
            LogsFlow::Done {
                logs: JobLogs {
                    job_name,
                    pod_name,
                    logs: text,
                    timestamp: now_seconds(),
                    status: status.label(),
                },
            }
        },
        (
            LogsFlow::FetchTail { job_name, status, pod_name },
            LogsEvent::TailFetched { text },
        ) => {
            let body = match text {
                Some(t) => t,
                None => String::from_str("No logs available yet"),
            };
            LogsFlow::Done {
                logs: JobLogs {
                    job_name,
                    pod_name,
                    logs: body,
                    timestamp: now_seconds(),
                    status: status.label(),
                },
            }
        },
        (f, _) => f,
    }
}

} // verus!
