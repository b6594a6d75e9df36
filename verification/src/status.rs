//! Derivation of workload and pod status from observed conditions:
//! the coarse workload status read off its condition list, the pod
//! phase with its default, and the reason a pending pod gives.

use vstd::prelude::*;

verus! {

/// One condition reported on a workload.
#[derive(Debug)]
pub struct JobCondition {
    pub type_: String,
    pub status: String,
}

/// One condition reported on a pod.
#[derive(Debug)]
pub struct PodCondition {
    pub type_: String,
    pub status: String,
    pub reason: Option<String>,
}

/// The coarse status of a workload as its condition list shows it.
#[derive(Clone, Copy, PartialEq, Eq, Structural, Debug)]
pub enum JobStatusKind {
    /// A `Complete=True` condition is present.
    Completed,
    /// A `Failed=True` condition is present and no `Complete=True`.
    Failed,
    /// Conditions are present but none of the two above.
    Running,
    /// The workload reports no condition list at all.
    Unknown,
}

impl JobStatusKind {
    /// The status label as it appears in log responses.
    pub open spec fn spec_label(self) -> Seq<char> {
        match self {
            JobStatusKind::Completed => "completed"@,
            JobStatusKind::Failed => "failed"@,
            JobStatusKind::Running => "running"@,
            JobStatusKind::Unknown => "unknown"@,
        }
    }

    pub fn label(&self) -> (r: String)
        ensures
            r@ == self.spec_label(),
    {
        match self {
            JobStatusKind::Completed => String::from_str("completed"),
            JobStatusKind::Failed => String::from_str("failed"),
            JobStatusKind::Running => String::from_str("running"),
            JobStatusKind::Unknown => String::from_str("unknown"),
        }
    }
}

/// The condition has the given type and its status is `True`.
pub open spec fn cond_is(c: JobCondition, t: Seq<char>) -> bool {
    c.type_@ == t && c.status@ == "True"@
}

/// Some condition of the given type holds with status `True`.
pub open spec fn has_cond(cs: Seq<JobCondition>, t: Seq<char>) -> bool {
    exists|i: int| 0 <= i < cs.len() && cond_is(cs[i], t)
}

/// The coarse status read off a condition list, when one is present:
/// `Complete=True` wins over `Failed=True`, and anything else is running.
pub open spec fn spec_status_of(cs: Seq<JobCondition>) -> JobStatusKind {
    if has_cond(cs, "Complete"@) {
        JobStatusKind::Completed
    } else if has_cond(cs, "Failed"@) {
        JobStatusKind::Failed
    } else {
        JobStatusKind::Running
    }
}

/// The coarse status of a workload whose condition list may be absent.
pub open spec fn spec_job_status(conds: Option<Seq<JobCondition>>) -> JobStatusKind {
    match conds {
        Some(cs) => spec_status_of(cs),
        None => JobStatusKind::Unknown,
    }
}

/// Looks for a condition of type `t` with status `True`.
pub fn has_condition(conds: &Vec<JobCondition>, t: &str) -> (r: bool)
    ensures
        r == has_cond(conds@, t@),
{
    let want = String::from_str(t);
    let truthy = String::from_str("True");
    let mut i: usize = 0;
    while i < conds.len()
        invariant
            i <= conds@.len(),
            want@ == t@,
            truthy@ == "True"@,
            forall|j: int| 0 <= j < i ==> !cond_is(conds@[j], t@),
        decreases conds@.len() - i,
    {
        let c = &conds[i];
        if c.type_ == want && c.status == truthy {
            proof {
                assert(cond_is(conds@[i as int], t@));
            }
            return true;
        }
        i = i + 1;
    }
    false
}

/// The coarse workload status from an optional condition list.
pub fn job_status(conds: &Option<Vec<JobCondition>>) -> (r: JobStatusKind)
    ensures
        r == spec_job_status(match conds {
            Some(cs) => Some(cs@),
            None => None,
        }),
{
    match conds {
        Some(cs) => {
            if has_condition(cs, "Complete") {
                JobStatusKind::Completed
            } else if has_condition(cs, "Failed") {
                JobStatusKind::Failed
            } else {
                JobStatusKind::Running
            }
        },
        None => JobStatusKind::Unknown,
    }
}

/// The status label the status endpoint reports: the condition-derived
/// label where conditions exist, `pending` where the workload reports
/// none yet.
pub open spec fn spec_status_or_pending(conds: Option<Seq<JobCondition>>) -> Seq<char> {
    match conds {
        Some(cs) => spec_status_of(cs).spec_label(),
        None => "pending"@,
    }
}

/// Reads the status label for the status endpoint, where a workload
/// without conditions reads `pending`.
pub fn job_status_or_pending(conds: &Option<Vec<JobCondition>>) -> (r: String)
    ensures
        r@ == spec_status_or_pending(match conds {
            Some(cs) => Some(cs@),
            None => None,
        }),
{
    match conds {
        Some(cs) => {
            if has_condition(cs, "Complete") {
                String::from_str("completed")
            } else if has_condition(cs, "Failed") {
                String::from_str("failed")
            } else {
                String::from_str("running")
            }
        },
        None => String::from_str("pending"),
    }
}

/// A pod's phase, or `Unknown` where the pod reports none.
pub open spec fn spec_phase_or_unknown(phase: Option<Seq<char>>) -> Seq<char> {
    match phase {
        Some(p) => p,
        None => "Unknown"@,
    }
}

/// Reads a pod's phase, defaulting to `Unknown` on missing data.
pub fn phase_or_unknown(phase: Option<String>) -> (r: String)
    ensures
        r@ == spec_phase_or_unknown(match phase {
            Some(p) => Some(p@),
            None => None::<Seq<char>>,
        }),
{
    match phase {
        Some(p) => p,
        None => String::from_str("Unknown"),
    }
}

/// The reason the first `PodScheduled=False` condition gives, or the
/// default `Unknown reason` when there is no such condition or it
/// carries no reason.
pub open spec fn spec_pending_reason(cs: Seq<PodCondition>) -> Seq<char>
    decreases cs.len(),
{
    if cs.len() == 0 {
        "Unknown reason"@
    } else if cs[0].type_@ == "PodScheduled"@ && cs[0].status@ == "False"@ {
        match cs[0].reason {
            Some(r) => r@,
            None => "Unknown reason"@,
        }
    } else {
        spec_pending_reason(cs.drop_first())
    }
}

/// Extracts the reason a pod is still pending from its condition list.
pub fn pending_reason(conds: &Vec<PodCondition>) -> (r: String)
    ensures
        r@ == spec_pending_reason(conds@),
{
    let sched = String::from_str("PodScheduled");
    let falsy = String::from_str("False");
    let mut i: usize = 0;
    proof {
        assert(conds@.skip(0) =~= conds@);
    }
    while i < conds.len()
        invariant
            i <= conds@.len(),
            sched@ == "PodScheduled"@,
            falsy@ == "False"@,
            spec_pending_reason(conds@) == spec_pending_reason(conds@.skip(i as int)),
        decreases conds@.len() - i,
    {
        let c = &conds[i];
        proof {
            assert(conds@.skip(i as int)[0] == conds@[i as int]);
            assert(conds@.skip(i as int).drop_first() =~= conds@.skip(i + 1));
        }
        if c.type_ == sched && c.status == falsy {
            match &c.reason {
                Some(r) => {
                    return r.clone();
                },
                None => {
                    return String::from_str("Unknown reason");
                },
            }
        }
        i = i + 1;
    }
    proof {
        assert(conds@.skip(conds@.len() as int) =~= Seq::<PodCondition>::empty());
    }
    String::from_str("Unknown reason")
}

} // verus!
