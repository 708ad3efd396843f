use laner_agent::attribution::{
    AttributionQuadrant, AttributionWeights, CoordinationAssessment, CoordinationAttributionCatalog,
    CoordinationCausalFactor, CoordinationExecutionAttribution, CoordinationExecutionAttributionReport,
    CoordinationRating, ExecutionAssessment, ExecutionCausalFactor, ExecutionRating, TeamAttributionError,
};
use laner_agent::lane::LaneOutcome;
use laner_agent::simultaneous::TeamCoordinationOutcome;

#[test]
fn quadrant_classification_and_ratings_are_exact() {
  assert_eq!(
    AttributionQuadrant::classify(8_000, 8_000).unwrap(),
    AttributionQuadrant::CoordinatedTriumph
  );
  assert_eq!(
    AttributionQuadrant::classify(8_000, 2_000).unwrap(),
    AttributionQuadrant::CoordinatedFailure
  );
  assert_eq!(
    AttributionQuadrant::classify(2_000, 8_000).unwrap(),
    AttributionQuadrant::UncoordinatedBailout
  );
  assert_eq!(
    AttributionQuadrant::classify(2_000, 2_000).unwrap(),
    AttributionQuadrant::CompoundedFailure
  );

  // Boundary cases at 5,000 bp
  assert_eq!(
    AttributionQuadrant::classify(5_000, 5_000).unwrap(),
    AttributionQuadrant::CoordinatedTriumph
  );
  assert_eq!(
    AttributionQuadrant::classify(4_999, 5_000).unwrap(),
    AttributionQuadrant::UncoordinatedBailout
  );
  assert_eq!(
    AttributionQuadrant::classify(5_000, 4_999).unwrap(),
    AttributionQuadrant::CoordinatedFailure
  );
  assert_eq!(
    AttributionQuadrant::classify(4_999, 4_999).unwrap(),
    AttributionQuadrant::CompoundedFailure
  );
}

#[test]
fn rating_tiers_and_predicates() {
  assert_eq!(
    CoordinationRating::from_basis_points(8_000).unwrap(),
    CoordinationRating::HighCoordination
  );
  assert_eq!(
    CoordinationRating::from_basis_points(6_000).unwrap(),
    CoordinationRating::ModerateCoordination
  );
  assert_eq!(
    CoordinationRating::from_basis_points(3_000).unwrap(),
    CoordinationRating::LowCoordination
  );
  assert_eq!(
    CoordinationRating::from_basis_points(1_000).unwrap(),
    CoordinationRating::FailedCoordination
  );

  assert_eq!(
    ExecutionRating::from_basis_points(9_000).unwrap(),
    ExecutionRating::FlawlessExecution
  );
  assert_eq!(
    ExecutionRating::from_basis_points(6_500).unwrap(),
    ExecutionRating::CompetentExecution
  );
  assert_eq!(
    ExecutionRating::from_basis_points(4_000).unwrap(),
    ExecutionRating::CompromisedExecution
  );
  assert_eq!(
    ExecutionRating::from_basis_points(1_500).unwrap(),
    ExecutionRating::FailedExecution
  );
}

#[test]
fn sum_conservation_enforced() {
  let valid_weights = AttributionWeights::new(5_000, 4_000, 1_000);
  assert!(valid_weights.is_ok());

  let invalid_sum = AttributionWeights::new(5_000, 4_000, 2_000);
  assert!(matches!(
    invalid_sum,
    Err(TeamAttributionError::SumConservationViolation { .. })
  ));

  let out_of_range = AttributionWeights::new(10_001, 0, 0);
  assert!(matches!(
    out_of_range,
    Err(TeamAttributionError::BasisPointOutOfRange { .. })
  ));
}

#[test]
fn chain_of_thought_is_strictly_forbidden() {
  let coord = CoordinationAssessment::new(
    TeamCoordinationOutcome::FullyCoordinated,
    8_000,
    CoordinationCausalFactor::UnanimousAlignment,
    [None, None],
  )
  .unwrap();

  let exec = ExecutionAssessment::new(
    LaneOutcome::HeldSpace,
    8_000,
    ExecutionCausalFactor::DecisiveDamageAdvantage,
    [None, None],
  )
  .unwrap();

  let weights = AttributionWeights::new(5_000, 4_000, 1_000).unwrap();

  let attr = CoordinationExecutionAttribution::new(coord, exec, weights, "Valid note").unwrap();

  let err = CoordinationExecutionAttributionReport::new(1, 100, attr, true);
  assert_eq!(err, Err(TeamAttributionError::ChainOfThoughtForbidden));
}

#[test]
fn catalog_scenarios_all_pass_validation() {
  assert!(CoordinationAttributionCatalog::all_scenarios_are_valid().is_ok());

  let gank = CoordinationAttributionCatalog::lookup("attr-coordinated-triumph-gank-v1").unwrap();
  assert_eq!(
    gank.expected_quadrant,
    AttributionQuadrant::CoordinatedTriumph
  );

  let overreach =
    CoordinationAttributionCatalog::lookup("attr-coordinated-failure-overreach-v1").unwrap();
  assert_eq!(
    overreach.expected_quadrant,
    AttributionQuadrant::CoordinatedFailure
  );

  let bailout =
    CoordinationAttributionCatalog::lookup("attr-uncoordinated-bailout-clutch-v1").unwrap();
  assert_eq!(
    bailout.expected_quadrant,
    AttributionQuadrant::UncoordinatedBailout
  );

  let deadlock =
    CoordinationAttributionCatalog::lookup("attr-compounded-failure-deadlock-v1").unwrap();
  assert_eq!(
    deadlock.expected_quadrant,
    AttributionQuadrant::CompoundedFailure
  );

  let empty_lookup = CoordinationAttributionCatalog::lookup("");
  assert_eq!(empty_lookup, Err(TeamAttributionError::InvalidScenarioName));

  let unknown_lookup = CoordinationAttributionCatalog::lookup("nonexistent-scenario");
  assert!(matches!(
    unknown_lookup,
    Err(TeamAttributionError::CatalogScenarioNotFound(_))
  ));
}

#[test]
fn markdown_report_generation() {
  let scenario =
    CoordinationAttributionCatalog::lookup("attr-coordinated-triumph-gank-v1").unwrap();

  let coord = CoordinationAssessment::new(
    scenario.coordination_outcome,
    scenario.cohesion_bp,
    scenario.primary_coord_factor,
    [Some(CoordinationCausalFactor::UnanimousAlignment), None],
  )
  .unwrap();

  let exec = ExecutionAssessment::new(
    scenario.lane_outcome,
    scenario.execution_score_bp,
    scenario.primary_exec_factor,
    [Some(ExecutionCausalFactor::ObjectiveSecured), None],
  )
  .unwrap();

  let weights = AttributionWeights::new(
    scenario.coordination_contribution_bp,
    scenario.execution_contribution_bp,
    scenario.exogenous_variance_bp,
  )
  .unwrap();

  let attr =
    CoordinationExecutionAttribution::new(coord, exec, weights, scenario.summary_notes).unwrap();

  let report = CoordinationExecutionAttributionReport::new(1, 42, attr, false).unwrap();
  let md = report.to_markdown();

  assert!(md.contains("# Strategic Attribution Debrief Report"));
  assert!(md.contains("coordinated-triumph"));
  assert!(md.contains("directive-compliance"));
  assert!(md.contains("decisive-damage-advantage"));
  assert!(md.contains("5500 bp"));
  assert!(md.contains("3500 bp"));
  assert!(md.contains("1000 bp"));
}
