//! The client factory's decision logic: credential sources are tried in
//! a fixed order — in-cluster identity, the conventional config file,
//! the environment-derived config, then one final default attempt — and
//! the first success wins. Only exhaustion of all four reads as the
//! cluster being unavailable.

use vstd::prelude::*;

verus! {

/// The credential sources, in the order they are tried.
#[derive(Clone, Copy, PartialEq, Eq, Structural, Debug)]
pub enum AuthSource {
    /// Service-account identity of a workload inside the cluster.
    InCluster,
    /// The conventional config file.
    Kubeconfig,
    /// Credentials built directly from the service-account files.
    EnvConfig,
    /// The unconditional default-client attempt, for diagnostics.
    DefaultClient,
}

/// The source tried after this one, where one is left.
pub open spec fn spec_next_source(s: AuthSource) -> Option<AuthSource> {
    match s {
        AuthSource::InCluster => Some(AuthSource::Kubeconfig),
        AuthSource::Kubeconfig => Some(AuthSource::EnvConfig),
        AuthSource::EnvConfig => Some(AuthSource::DefaultClient),
        AuthSource::DefaultClient => None,
    }
}

/// The state of one authentication attempt chain.
#[derive(Clone, Copy, PartialEq, Eq, Structural, Debug)]
pub enum AuthFlow {
    /// The named source is to be attempted next.
    Trying { source: AuthSource },
    /// A client was obtained from this source.
    Ready { source: AuthSource },
    /// Every source failed: the cluster is unavailable.
    Unavailable,
}

/// The chain starts with the in-cluster identity.
pub fn auth_start() -> (r: AuthFlow)
    ensures
        r == (AuthFlow::Trying { source: AuthSource::InCluster }),
{
    AuthFlow::Trying { source: AuthSource::InCluster }
}

/// Consumes one attempt's outcome: success ends the chain ready on that
/// source, failure moves to the next source or, after the last one, to
/// unavailable.
pub fn auth_step(flow: AuthFlow, succeeded: bool) -> (r: AuthFlow)
    requires
        (flow is Trying),
    ensures
        succeeded ==> r == (AuthFlow::Ready { source: flow->Trying_source }),
        !succeeded ==> r == (match spec_next_source(flow->Trying_source) {
            Some(n) => AuthFlow::Trying { source: n },
            None => AuthFlow::Unavailable,
        }),
{
    match flow {
        AuthFlow::Trying { source } => {
            if succeeded {
                AuthFlow::Ready { source }
            } else {
                match source {
                    AuthSource::InCluster => AuthFlow::Trying { source: AuthSource::Kubeconfig },
                    AuthSource::Kubeconfig => AuthFlow::Trying { source: AuthSource::EnvConfig },
                    AuthSource::EnvConfig => AuthFlow::Trying {
                        source: AuthSource::DefaultClient,
                    },
                    AuthSource::DefaultClient => AuthFlow::Unavailable,
                }
            }
        },
        _ => flow,
    }
}

/// Whether the environment-derived configuration may be attempted at
/// all: both service-account files must be present.
pub fn env_config_available(token_present: bool, ca_present: bool) -> (r: bool)
    ensures
        r == (token_present && ca_present),
{
    token_present && ca_present
}

/// The chain's outcome over the attempts' results, one per source in
/// order, starting from the source at position `from`.
pub open spec fn spec_auth_outcome_from(results: Seq<bool>, from: AuthSource) -> AuthFlow
    decreases results.len(),
{
    if results.len() == 0 {
        AuthFlow::Trying { source: from }
    } else if results[0] {
        AuthFlow::Ready { source: from }
    } else {
        match spec_next_source(from) {
            Some(n) => spec_auth_outcome_from(results.drop_first(), n),
            None => AuthFlow::Unavailable,
        }
    }
}

/// The chain's outcome over the four attempts' results, in order.
pub open spec fn spec_auth_outcome(results: Seq<bool>) -> AuthFlow {
    spec_auth_outcome_from(results, AuthSource::InCluster)
}

/// Law: with all four attempts made, the chain ends unavailable exactly
/// when every attempt failed, and ready exactly when some attempt
/// succeeded — on the first source that did.
pub proof fn lemma_auth_exhaustion(results: Seq<bool>)
    requires
        results.len() == 4,
    ensures
        spec_auth_outcome(results) is Unavailable <==> (forall|i: int|
            0 <= i < 4 ==> !(#[trigger] results[i])),
        (exists|i: int| 0 <= i < 4 && #[trigger] results[i]) ==> spec_auth_outcome(
            results,
        ) is Ready,
{
    let r1 = results.drop_first();
    let r2 = r1.drop_first();
    let r3 = r2.drop_first();
    assert(r1[0] == results[1] && r2[0] == results[2] && r3[0] == results[3]);
    assert(r3.drop_first().len() == 0);
    if !results[0] {
        assert(spec_auth_outcome(results) == spec_auth_outcome_from(r1, AuthSource::Kubeconfig));
        if !results[1] {
            assert(spec_auth_outcome_from(r1, AuthSource::Kubeconfig) == spec_auth_outcome_from(
                r2,
                AuthSource::EnvConfig,
            ));
            if !results[2] {
                assert(spec_auth_outcome_from(r2, AuthSource::EnvConfig)
                    == spec_auth_outcome_from(r3, AuthSource::DefaultClient));
                if !results[3] {
                    assert(spec_auth_outcome(results) is Unavailable);
                }
            }
        }
    }
}

} // verus!
