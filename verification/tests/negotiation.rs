use web_painter::negotiate::ApiVersion;
use web_painter::negotiate::ContextError;
use web_painter::negotiate::ContextStrategy;
use web_painter::negotiate::Negotiation;
use web_painter::negotiate::NegotiationVerdict;
use web_painter::negotiate::QueryOutcome;
use web_painter::negotiate::run_negotiation;

#[test]
fn force_legacy_tries_only_legacy() {
    let outcomes = vec![QueryOutcome::Missing];
    let (result, queried) = run_negotiation(ContextStrategy::ForceLegacy, &outcomes);
    assert_eq!(result, Err(ContextError::Unsupported));
    assert_eq!(queried, vec![ApiVersion::Legacy]);
}

#[test]
fn force_modern_tries_only_modern() {
    let outcomes = vec![QueryOutcome::Missing];
    let (result, queried) = run_negotiation(ContextStrategy::ForceModern, &outcomes);
    assert_eq!(result, Err(ContextError::Unsupported));
    assert_eq!(queried, vec![ApiVersion::Modern]);
}

#[test]
fn force_legacy_success() {
    let outcomes = vec![QueryOutcome::Obtained];
    let (result, queried) = run_negotiation(ContextStrategy::ForceLegacy, &outcomes);
    assert_eq!(result, Ok(ApiVersion::Legacy));
    assert_eq!(queried, vec![ApiVersion::Legacy]);
}

#[test]
fn prefer_modern_takes_modern_first() {
    // Modern query returns a context object: the legacy version is never
    // queried at all.
    let outcomes = vec![QueryOutcome::Obtained, QueryOutcome::Obtained];
    let (result, queried) = run_negotiation(ContextStrategy::PreferModernThenLegacy, &outcomes);
    assert_eq!(result, Ok(ApiVersion::Modern));
    assert_eq!(queried, vec![ApiVersion::Modern]);
}

#[test]
fn prefer_modern_falls_back_to_legacy() {
    // Modern query returns nothing, legacy query returns a context object.
    let outcomes = vec![QueryOutcome::Missing, QueryOutcome::Obtained];
    let (result, queried) = run_negotiation(ContextStrategy::PreferModernThenLegacy, &outcomes);
    assert_eq!(result, Ok(ApiVersion::Legacy));
    assert_eq!(queried, vec![ApiVersion::Modern, ApiVersion::Legacy]);
}

#[test]
fn prefer_legacy_falls_back_to_modern() {
    let outcomes = vec![QueryOutcome::Missing, QueryOutcome::Obtained];
    let (result, queried) = run_negotiation(ContextStrategy::PreferLegacyThenModern, &outcomes);
    assert_eq!(result, Ok(ApiVersion::Modern));
    assert_eq!(queried, vec![ApiVersion::Legacy, ApiVersion::Modern]);
}

#[test]
fn prefer_legacy_takes_legacy_first() {
    let outcomes = vec![QueryOutcome::Obtained, QueryOutcome::Missing];
    let (result, queried) = run_negotiation(ContextStrategy::PreferLegacyThenModern, &outcomes);
    assert_eq!(result, Ok(ApiVersion::Legacy));
    assert_eq!(queried, vec![ApiVersion::Legacy]);
}

#[test]
fn both_versions_missing_is_unsupported() {
    let outcomes = vec![QueryOutcome::Missing, QueryOutcome::Missing];
    let (result, queried) = run_negotiation(ContextStrategy::PreferModernThenLegacy, &outcomes);
    assert_eq!(result, Err(ContextError::Unsupported));
    assert_eq!(queried, vec![ApiVersion::Modern, ApiVersion::Legacy]);
}

#[test]
fn query_failure_is_fatal_not_fallback() {
    // An outright query failure ends negotiation at once; the second
    // candidate is never tried even though the strategy allows fallback.
    let outcomes = vec![QueryOutcome::Failed, QueryOutcome::Obtained];
    let (result, queried) = run_negotiation(ContextStrategy::PreferModernThenLegacy, &outcomes);
    assert_eq!(result, Err(ContextError::QueryFailed));
    assert_eq!(queried, vec![ApiVersion::Modern]);
}

#[test]
fn negotiation_state_machine_steps() {
    let mut neg = Negotiation::new(ContextStrategy::PreferModernThenLegacy);
    assert_eq!(neg.pending(), Some(ApiVersion::Modern));
    let verdict = neg.advance(QueryOutcome::Missing);
    assert_eq!(verdict, NegotiationVerdict::TryNext);
    assert_eq!(neg.pending(), Some(ApiVersion::Legacy));
    let verdict = neg.advance(QueryOutcome::Obtained);
    assert_eq!(verdict, NegotiationVerdict::Selected(ApiVersion::Legacy));
    assert_eq!(neg.pending(), None);
}

#[test]
fn error_messages_are_nonempty() {
    assert_eq!(ContextError::Unsupported.message(), "WebGL isn't supported");
    assert!(!ContextError::QueryFailed.message().is_empty());
}
