//! The run monitor's decision logic. A monitor polls the workload's
//! conditions at a fixed pace, for a bounded number of attempts, and
//! writes the final status and elapsed duration back to the run record
//! exactly once: succeeded on `Complete=True`, failed on `Failed=True`,
//! or the unchanged `running` when the budget runs out first. A failed
//! workload fetch aborts the monitor without a write.

use vstd::prelude::*;
use crate::status::{has_cond, JobCondition};

verus! {

/// Lifecycle status of a run record.
#[derive(Clone, Copy, PartialEq, Eq, Structural, Debug)]
pub enum RunStatus {
    Pending,
    Running,
    Succeeded,
    Failed,
}

impl RunStatus {
    /// The status label as the run record stores it.
    pub open spec fn spec_label(self) -> Seq<char> {
        match self {
            RunStatus::Pending => "pending"@,
            RunStatus::Running => "running"@,
            RunStatus::Succeeded => "succeeded"@,
            RunStatus::Failed => "failed"@,
        }
    }

    pub fn label(&self) -> (r: String)
        ensures
            r@ == self.spec_label(),
    {
        match self {
            RunStatus::Pending => String::from_str("pending"),
            RunStatus::Running => String::from_str("running"),
            RunStatus::Succeeded => String::from_str("succeeded"),
            RunStatus::Failed => String::from_str("failed"),
        }
    }

    /// Succeeded and failed are the terminal statuses.
    pub open spec fn is_terminal(self) -> bool {
        self is Succeeded || self is Failed
    }
}

/// How many times a monitor polls before giving up.
pub const POLL_BUDGET: u32 = 30;

/// Seconds between two polls of one monitor.
pub const POLL_PAUSE_SECONDS: u64 = 2;

/// One poll's observation of the workload.
#[derive(Debug)]
pub enum MonitorObservation {
    /// The workload was fetched; its condition list, where it has one.
    Conditions { conditions: Option<Vec<JobCondition>> },
    /// The workload could not be fetched.
    FetchFailed,
}

/// What the monitor does after one poll.
#[derive(Clone, Copy, PartialEq, Eq, Structural, Debug)]
pub enum MonitorDecision {
    /// No terminal condition yet and budget left: pause, then poll again.
    Continue { polls_left: u32 },
    /// Stop and write this status and the elapsed duration, once.
    Write { status: RunStatus },
    /// Stop without any write: the workload could not be read.
    Abort,
}

/// The terminal status a condition list shows, if any: `Complete=True`
/// reads succeeded and wins over `Failed=True`, which reads failed.
pub open spec fn spec_terminal_of(conds: Option<Seq<JobCondition>>) -> Option<RunStatus> {
    match conds {
        Some(cs) => if has_cond(cs, "Complete"@) {
            Some(RunStatus::Succeeded)
        } else if has_cond(cs, "Failed"@) {
            Some(RunStatus::Failed)
        } else {
            None
        },
        None => None,
    }
}

/// The view of an observation's optional condition list.
pub open spec fn spec_obs_conds(o: MonitorObservation) -> Option<Seq<JobCondition>> {
    match o {
        MonitorObservation::Conditions { conditions: Some(cs) } => Some(cs@),
        MonitorObservation::Conditions { conditions: None } => None,
        MonitorObservation::FetchFailed => None,
    }
}

/// The observation shows a terminal condition.
pub open spec fn obs_terminal(o: MonitorObservation) -> bool {
    o is Conditions && spec_terminal_of(spec_obs_conds(o)) is Some
}

/// Decides what one poll's observation means, with `polls_left` attempts
/// (this one included) remaining of the budget.
pub fn monitor_step(polls_left: u32, obs: &MonitorObservation) -> (d: MonitorDecision)
    requires
        polls_left >= 1,
    ensures
        match obs {
            MonitorObservation::FetchFailed => d is Abort,
            MonitorObservation::Conditions { .. } => {
                match spec_terminal_of(spec_obs_conds(*obs)) {
                    Some(s) => d == MonitorDecision::Write { status: s },
                    None => if polls_left > 1 {
                        d == MonitorDecision::Continue { polls_left: (polls_left - 1) as u32 }
                    } else {
                        d == MonitorDecision::Write { status: RunStatus::Running }
                    },
                }
            },
        },
{
    match obs {
        MonitorObservation::FetchFailed => MonitorDecision::Abort,
        MonitorObservation::Conditions { conditions } => {
            let terminal = match conditions {
                Some(cs) => {
                    if crate::status::has_condition(cs, "Complete") {
                        Some(RunStatus::Succeeded)
                    } else if crate::status::has_condition(cs, "Failed") {
                        Some(RunStatus::Failed)
                    } else {
                        None
                    }
                },
                None => None,
            };
            match terminal {
                Some(s) => MonitorDecision::Write { status: s },
                None => {
                    if polls_left > 1 {
                        MonitorDecision::Continue { polls_left: polls_left - 1 }
                    } else {
                        MonitorDecision::Write { status: RunStatus::Running }
                    }
                },
            }
        },
    }
}

/// The single write a whole monitor run makes, given the observations in
/// the order they were made and the poll budget: `None` is no write at
/// all (an aborted monitor, or one that never observed anything).
pub open spec fn spec_monitor_outcome(obs: Seq<MonitorObservation>, budget: nat) -> Option<
    RunStatus,
>
    decreases obs.len(),
{
    if obs.len() == 0 || budget == 0 {
        None
    } else {
        match obs[0] {
            MonitorObservation::FetchFailed => None,
            MonitorObservation::Conditions { .. } => {
                match spec_terminal_of(spec_obs_conds(obs[0])) {
                    Some(s) => Some(s),
                    None => if budget <= 1 {
                        Some(RunStatus::Running)
                    } else {
                        spec_monitor_outcome(obs.drop_first(), (budget - 1) as nat)
                    },
                }
            },
        }
    }
}

/// Law: one monitor makes at most one write — the outcome is one
/// optional status, never two. It is terminal only where some
/// observation within the budget showed a terminal condition; and where
/// no observation ever did, the write, if any, is `running`, the value
/// the record already holds.
pub proof fn lemma_monitor_single_terminal_write(obs: Seq<MonitorObservation>, budget: nat)
    ensures
        (spec_monitor_outcome(obs, budget) matches Some(s) && s.is_terminal()) ==> exists|i: int|
            0 <= i < obs.len() && i < budget && obs_terminal(#[trigger] obs[i]),
        (forall|i: int| 0 <= i < obs.len() ==> !obs_terminal(#[trigger] obs[i])) ==> (
        spec_monitor_outcome(obs, budget) is None || spec_monitor_outcome(obs, budget) == Some(
            RunStatus::Running,
        )),
    decreases obs.len(),
{
    if obs.len() == 0 || budget == 0 {
    } else {
        match obs[0] {
            MonitorObservation::FetchFailed => {},
            MonitorObservation::Conditions { .. } => {
                match spec_terminal_of(spec_obs_conds(obs[0])) {
                    Some(s) => {
                        assert(obs_terminal(obs[0]));
                    },
                    None => {
                        if budget > 1 {
                            lemma_monitor_single_terminal_write(
                                obs.drop_first(),
                                (budget - 1) as nat,
                            );
                            if spec_monitor_outcome(obs, budget) matches Some(s) && s.is_terminal() {
                                let j = choose|j: int|
                                    0 <= j < obs.drop_first().len() && j < budget - 1
                                        && obs_terminal(#[trigger] obs.drop_first()[j]);
                                assert(obs_terminal(obs[j + 1]));
                            }
                            assert forall|i: int|
                                0 <= i < obs.drop_first().len() implies obs.drop_first()[i]
                                == obs[i + 1] by {}
                        }
                    },
                }
            },
        }
    }
}

/// Replays a whole monitor run over the observations actually made:
/// the decision the driver acts on after the last of them.
pub fn monitor_outcome(observations: &Vec<MonitorObservation>, budget: u32) -> (r: Option<
    RunStatus,
>)
    ensures
        r == spec_monitor_outcome(observations@, budget as nat),
{
    let ghost full = observations@;
    let mut i: usize = 0;
    let mut left = budget;
    proof {
        assert(full.skip(0) =~= full);
    }
    while i < observations.len() && left > 0
        invariant
            full == observations@,
            i <= observations@.len(),
            left <= budget,
            i + left >= budget || left == 0,
            spec_monitor_outcome(full, budget as nat) == spec_monitor_outcome(
                full.skip(i as int),
                left as nat,
            ),
        decreases observations@.len() - i,
    {
        let obs = &observations[i];
        proof {
            assert(full.skip(i as int)[0] == full[i as int]);
            assert(full.skip(i as int).drop_first() =~= full.skip(i + 1));
        }
        let d = monitor_step(left, obs);
        match d {
            MonitorDecision::Abort => {
                return None;
            },
            MonitorDecision::Write { status } => {
                return Some(status);
            },
            MonitorDecision::Continue { polls_left } => {
                left = polls_left;
                i = i + 1;
            },
        }
    }
    None
}

/// Wall-clock seconds elapsed between the monitor's start and its stop.
pub fn elapsed_seconds(start: i64, end: i64) -> (r: i64)
    requires
        start <= end,
        end - start <= i64::MAX,
    ensures
        r == end - start,
        r >= 0,
{
    end - start
}

} // verus!
