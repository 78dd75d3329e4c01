//! Context negotiation: which graphics-API versions are tried, in which
//! order, for a caller-chosen strategy, and what each query outcome means.
//!
//! The host query itself (asking the canvas for a rendering context) is an
//! unverified action of the shell around this crate. The shell drives a
//! [`Negotiation`] value: it queries the version given by [`Negotiation::pending`],
//! reports what the host returned through [`Negotiation::advance`], and obeys
//! the returned verdict.

use vstd::prelude::*;

verus! {

/// One of the two incompatible versions of the graphics API.
#[derive(Clone, Copy, PartialEq, Eq, Structural, Debug)]
pub enum ApiVersion {
    /// The older API version; its contexts may need the brightening workaround.
    Legacy,
    /// The newer API version; never needs a shader prefix.
    Modern,
}

/// The caller's preference for which API version to acquire.
#[derive(Clone, Copy, PartialEq, Eq, Structural, Debug)]
pub enum ContextStrategy {
    /// Try only the legacy version; fail if it is unsupported.
    ForceLegacy,
    /// Try only the modern version; fail if it is unsupported.
    ForceModern,
    /// Try the modern version first, then fall back to the legacy one.
    PreferModernThenLegacy,
    /// Try the legacy version first, then fall back to the modern one.
    PreferLegacyThenModern,
}

/// What a single host context query came back with.
#[derive(Clone, Copy, PartialEq, Eq, Structural, Debug)]
pub enum QueryOutcome {
    /// The query itself failed: a host-environment malfunction, fatal.
    Failed,
    /// The query succeeded but returned no context object: this version is
    /// unsupported; the next candidate may be tried.
    Missing,
    /// The query returned a context object of the requested version.
    Obtained,
}

/// Why negotiation ended without a context.
#[derive(Clone, Copy, PartialEq, Eq, Structural, Debug)]
pub enum ContextError {
    /// No candidate version of the strategy is supported by the host.
    Unsupported,
    /// A context query failed outright; not retried.
    QueryFailed,
}

impl ContextError {
    /// A human-readable description of the failure.
    pub fn message(&self) -> (m: &'static str)
        ensures
            m@ == self.message_spec(),
    {
        match self {
            ContextError::Unsupported => "WebGL isn't supported",
            ContextError::QueryFailed => "Failed to query the canvas for a rendering context",
        }
    }

    /// The text returned by [`ContextError::message`].
    pub open spec fn message_spec(self) -> Seq<char> {
        match self {
            ContextError::Unsupported => "WebGL isn't supported"@,
            ContextError::QueryFailed => "Failed to query the canvas for a rendering context"@,
        }
    }
}

/// What the shell must do after reporting one query outcome.
#[derive(Clone, Copy, PartialEq, Eq, Structural, Debug)]
pub enum NegotiationVerdict {
    /// Use the context just obtained for this version; negotiation is over.
    Selected(ApiVersion),
    /// Query the next pending version.
    TryNext,
    /// Negotiation is over without a context.
    Failed(ContextError),
}

/// The exact versions a strategy tries, in order.
pub open spec fn candidate_order(strategy: ContextStrategy) -> Seq<ApiVersion> {
    match strategy {
        ContextStrategy::ForceLegacy => seq![ApiVersion::Legacy],
        ContextStrategy::ForceModern => seq![ApiVersion::Modern],
        ContextStrategy::PreferModernThenLegacy => seq![ApiVersion::Modern, ApiVersion::Legacy],
        ContextStrategy::PreferLegacyThenModern => seq![ApiVersion::Legacy, ApiVersion::Modern],
    }
}

/// The negotiation in progress: the candidate versions of the chosen
/// strategy and how many of them have already been queried.
pub struct Negotiation {
    /// The strategy negotiation was started with.
    pub strategy: ContextStrategy,
    /// The candidate versions, in the order they are tried.
    pub candidates: Vec<ApiVersion>,
    /// How many candidates have been dealt with; `candidates.len()` once
    /// negotiation is over.
    pub next: usize,
}

impl Negotiation {
    /// The candidates match the strategy and the cursor is in range.
    pub open spec fn wf(self) -> bool {
        &&& self.candidates@ == candidate_order(self.strategy)
        &&& self.next <= self.candidates@.len()
    }

    /// Start negotiating with the given strategy.
    pub fn new(strategy: ContextStrategy) -> (n: Negotiation)
        ensures
            n.wf(),
            n.strategy == strategy,
            n.next == 0,
    {
        let mut candidates: Vec<ApiVersion> = Vec::new();
        match strategy {
            ContextStrategy::ForceLegacy => {
                candidates.push(ApiVersion::Legacy);
            },
            ContextStrategy::ForceModern => {
                candidates.push(ApiVersion::Modern);
            },
            ContextStrategy::PreferModernThenLegacy => {
                candidates.push(ApiVersion::Modern);
                candidates.push(ApiVersion::Legacy);
            },
            ContextStrategy::PreferLegacyThenModern => {
                candidates.push(ApiVersion::Legacy);
                candidates.push(ApiVersion::Modern);
            },
        }
        proof {
            assert(candidates@ =~= candidate_order(strategy));
        }
        Negotiation { strategy, candidates, next: 0 }
    }

    /// The version the shell must query next, or `None` once negotiation is
    /// over.
    pub fn pending(&self) -> (v: Option<ApiVersion>)
        requires
            self.wf(),
        ensures
            v == if self.next < self.candidates@.len() {
                Some(self.candidates@[self.next as int])
            } else {
                None::<ApiVersion>
            },
    {
        if self.next < self.candidates.len() {
            Some(self.candidates[self.next])
        } else {
            None
        }
    }

    /// Report what the host returned for the pending version and learn what
    /// to do next: an obtained context is selected at once (first success
    /// wins), a failed query is fatal, and a missing context moves on to the
    /// next candidate or, when none is left, ends in `Unsupported`.
    pub fn advance(&mut self, outcome: QueryOutcome) -> (v: NegotiationVerdict)
        requires
            old(self).wf(),
            old(self).next < old(self).candidates@.len(),
        ensures
            final(self).wf(),
            final(self).strategy == old(self).strategy,
            final(self).candidates@ == old(self).candidates@,
            outcome is Obtained ==> v == NegotiationVerdict::Selected(
                old(self).candidates@[old(self).next as int],
            ) && final(self).next == old(self).candidates@.len(),
            outcome is Failed ==> v == NegotiationVerdict::Failed(ContextError::QueryFailed)
                && final(self).next == old(self).candidates@.len(),
            outcome is Missing ==> final(self).next == old(self).next + 1 && v == (
            if old(self).next + 1 == old(self).candidates@.len() {
                NegotiationVerdict::Failed(ContextError::Unsupported)
            } else {
                NegotiationVerdict::TryNext
            }),
    {
        match outcome {
            QueryOutcome::Obtained => {
                let version = self.candidates[self.next];
                self.next = self.candidates.len();
                NegotiationVerdict::Selected(version)
            },
            QueryOutcome::Failed => {
                self.next = self.candidates.len();
                NegotiationVerdict::Failed(ContextError::QueryFailed)
            },
            QueryOutcome::Missing => {
                self.next = self.next + 1;
                if self.next == self.candidates.len() {
                    NegotiationVerdict::Failed(ContextError::Unsupported)
                } else {
                    NegotiationVerdict::TryNext
                }
            },
        }
    }
}

/// The position of the first outcome that is not `Missing`, or the length of
/// the sequence when every outcome is `Missing`.
pub open spec fn first_decisive(outcomes: Seq<QueryOutcome>) -> int
    decreases outcomes.len(),
{
    if outcomes.len() == 0 {
        0
    } else if outcomes[0] != QueryOutcome::Missing {
        0
    } else {
        1 + first_decisive(outcomes.skip(1))
    }
}

/// The versions a full negotiation queries, given the outcome the host
/// would return for each successive query: the strategy's candidates up to
/// and including the first decisive outcome.
pub open spec fn queried_versions(strategy: ContextStrategy, outcomes: Seq<QueryOutcome>) -> Seq<
    ApiVersion,
> {
    let c = candidate_order(strategy);
    let k = first_decisive(outcomes.take(c.len() as int));
    if k < c.len() {
        c.take(k + 1)
    } else {
        c
    }
}

/// The result of a full negotiation, given the outcome the host would
/// return for each successive query.
pub open spec fn negotiation_result(
    strategy: ContextStrategy,
    outcomes: Seq<QueryOutcome>,
) -> Result<ApiVersion, ContextError> {
    let c = candidate_order(strategy);
    let k = first_decisive(outcomes.take(c.len() as int));
    if k >= c.len() {
        Err(ContextError::Unsupported)
    } else if outcomes[k] == QueryOutcome::Obtained {
        Ok(c[k])
    } else {
        Err(ContextError::QueryFailed)
    }
}

/// When the first `k` outcomes are `Missing` and the one after them (if any)
/// is not, the first decisive position is exactly `k`.
proof fn lemma_first_decisive(outcomes: Seq<QueryOutcome>, k: int)
    requires
        0 <= k <= outcomes.len(),
        forall|t: int| 0 <= t < k ==> outcomes[t] == QueryOutcome::Missing,
        k < outcomes.len() ==> outcomes[k] != QueryOutcome::Missing,
    ensures
        first_decisive(outcomes) == k,
    decreases outcomes.len(),
{
    if outcomes.len() == 0 {
    } else if k == 0 {
    } else {
        lemma_first_decisive(outcomes.skip(1), k - 1);
    }
}

/// Run a whole negotiation, given the outcome the host would return for each
/// successive query. Returns the negotiation result and the versions that
/// were actually queried, in order: the strategy's candidates are tried in
/// their specified order and negotiation stops at the first success.
pub fn run_negotiation(strategy: ContextStrategy, outcomes: &Vec<QueryOutcome>) -> (r: (
    Result<ApiVersion, ContextError>,
    Vec<ApiVersion>,
))
    requires
        outcomes@.len() >= candidate_order(strategy).len(),
    ensures
        r.0 == negotiation_result(strategy, outcomes@),
        r.1@ == queried_versions(strategy, outcomes@),
{
    let ghost c = candidate_order(strategy);
    let mut neg = Negotiation::new(strategy);
    let mut queried: Vec<ApiVersion> = Vec::new();
    loop
        invariant
            neg.wf(),
            neg.strategy == strategy,
            neg.next < neg.candidates@.len(),
            queried@ == c.take(neg.next as int),
            outcomes@.len() >= c.len(),
            c == candidate_order(strategy),
            forall|t: int| 0 <= t < neg.next ==> outcomes@[t] == QueryOutcome::Missing,
        decreases neg.candidates@.len() - neg.next,
    {
        let ghost prev = neg.next as int;
        let version = neg.candidates[neg.next];
        let outcome = outcomes[neg.next];
        queried.push(version);
        proof {
            assert(queried@ =~= c.take(prev + 1));
        }
        let verdict = neg.advance(outcome);
        match verdict {
            NegotiationVerdict::Selected(v) => {
                proof {
                    lemma_first_decisive(outcomes@.take(c.len() as int), prev);
                }
                return (Ok(v), queried);
            },
            NegotiationVerdict::Failed(e) => {
                proof {
                    if outcome == QueryOutcome::Missing {
                        lemma_first_decisive(outcomes@.take(c.len() as int), c.len() as int);
                        assert(queried@ =~= c);
                    } else {
                        lemma_first_decisive(outcomes@.take(c.len() as int), prev);
                    }
                }
                return (Err(e), queried);
            },
            NegotiationVerdict::TryNext => {
            },
        }
    }
}

/// Law: a forcing strategy tries its one version and nothing else; when that
/// version is unsupported the result is `Unsupported`, and the other version
/// is never queried.
pub proof fn lemma_force_no_fallback(strategy: ContextStrategy, outcomes: Seq<QueryOutcome>)
    requires
        strategy == ContextStrategy::ForceLegacy || strategy == ContextStrategy::ForceModern,
        outcomes.len() >= 1,
        outcomes[0] == QueryOutcome::Missing,
    ensures
        negotiation_result(strategy, outcomes) == Err::<ApiVersion, ContextError>(
            ContextError::Unsupported,
        ),
        queried_versions(strategy, outcomes) == candidate_order(strategy),
        candidate_order(strategy).len() == 1,
        candidate_order(strategy)[0] == if strategy == ContextStrategy::ForceLegacy {
            ApiVersion::Legacy
        } else {
            ApiVersion::Modern
        },
{
    lemma_first_decisive(outcomes.take(1), 1);
}

/// Law: when every candidate version of the strategy is unsupported,
/// negotiation queries each of them, in the strategy's order, and ends in
/// `Unsupported`.
pub proof fn lemma_all_missing_exhausts(strategy: ContextStrategy, outcomes: Seq<QueryOutcome>)
    requires
        outcomes.len() >= candidate_order(strategy).len(),
        forall|t: int|
            0 <= t < candidate_order(strategy).len() ==> outcomes[t] == QueryOutcome::Missing,
    ensures
        negotiation_result(strategy, outcomes) == Err::<ApiVersion, ContextError>(
            ContextError::Unsupported,
        ),
        queried_versions(strategy, outcomes) == candidate_order(strategy),
{
    let n = candidate_order(strategy).len() as int;
    lemma_first_decisive(outcomes.take(n), n);
}

/// Law: a query that fails outright is fatal. When the first `k` candidate
/// queries find the version missing and the next query fails, negotiation
/// ends at once in `QueryFailed`; the candidates after it are never queried.
pub proof fn lemma_query_failure_fatal(
    strategy: ContextStrategy,
    outcomes: Seq<QueryOutcome>,
    k: int,
)
    requires
        outcomes.len() >= candidate_order(strategy).len(),
        0 <= k < candidate_order(strategy).len(),
        forall|t: int| 0 <= t < k ==> outcomes[t] == QueryOutcome::Missing,
        outcomes[k] == QueryOutcome::Failed,
    ensures
        negotiation_result(strategy, outcomes) == Err::<ApiVersion, ContextError>(
            ContextError::QueryFailed,
        ),
        queried_versions(strategy, outcomes) == candidate_order(strategy).take(k + 1),
{
    lemma_first_decisive(outcomes.take(candidate_order(strategy).len() as int), k);
}

/// Law: negotiation stops at the first success. When the first `k` candidate
/// queries find the version missing and the next one obtains a context,
/// negotiation selects that candidate and queries exactly the first `k + 1`
/// candidates, in the strategy's order.
pub proof fn lemma_stops_at_first_success(
    strategy: ContextStrategy,
    outcomes: Seq<QueryOutcome>,
    k: int,
)
    requires
        outcomes.len() >= candidate_order(strategy).len(),
        0 <= k < candidate_order(strategy).len(),
        forall|t: int| 0 <= t < k ==> outcomes[t] == QueryOutcome::Missing,
        outcomes[k] == QueryOutcome::Obtained,
    ensures
        negotiation_result(strategy, outcomes) == Ok::<ApiVersion, ContextError>(
            candidate_order(strategy)[k],
        ),
        queried_versions(strategy, outcomes) == candidate_order(strategy).take(k + 1),
{
    lemma_first_decisive(outcomes.take(candidate_order(strategy).len() as int), k);
}

} // verus!
