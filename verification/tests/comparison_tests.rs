use laner_agent::comparison::{MAX_SCRIPTED_AGENT_MATCHED_SCENARIO_TALLY_COMPARISON_BYTES, SCRIPTED_AGENT_CALIBRATED_OUTLIER_REPLAY_RULE, SCRIPTED_AGENT_CALIBRATED_OUTLIER_REPLAY_SCHEMA, SCRIPTED_AGENT_CALIBRATED_OUTLIER_THRESHOLD_MAGNITUDE, SCRIPTED_AGENT_MATCHED_SCENARIO_TALLY_COMPARISON_SCHEMA, SCRIPTED_AGENT_TALLY_OUTLIER_THRESHOLD_MAGNITUDE, ScriptedAgentCalibratedOutlierReplayReport, ScriptedAgentCalibratedOutlierReplayStatus, ScriptedAgentMatchedScenarioTallyComparisonCodecError, ScriptedAgentMatchedScenarioTallyComparisonError, ScriptedAgentMatchedScenarioTallyComparisonReport, ScriptedAgentTallyOutlierThresholdReport, ScriptedAgentTallyOutlierThresholdStatus, ScriptedAgentTallyReplayReference, ScriptedAgentTallyReplayReferenceError};
use laner_agent::fixture::{SCRIPTED_AGENT_RIVER_SIDE_FIXTURE_SCENARIO_ID, SCRIPTED_AGENT_SAFE_FIXTURE_SCENARIO_ID, ScriptedAgentFixtureScenarioPopulation};
use laner_agent::lane::{ALLIED_AUTONOMOUS_ACTOR_ID, ActorId, DrawId, LaneIntent, LaneSnapshot, ObservationId, StreamId, observe_player};
use laner_agent::policy::{ScriptedAgent};
use laner_agent::profile::{ScriptedAgentExperimentManifest, ScriptedAgentProfile, ScriptedAgentSeedBundle};
use laner_agent::replay::{ScriptedAgentReplayRecord};
use laner_agent::sample::{ScriptedAgentMatchedScenarioSample, ScriptedAgentMatchedScenarioTallyReport};
use laner_agent::text::{lines};
#[test]
fn profile_aware_tally_comparison_preserves_rows_and_signed_deltas() {
  let manifests = [
    ScriptedAgentExperimentManifest::new(
      ScriptedAgentProfile::cautious_v1(),
      ScriptedAgentSeedBundle::new(71, StreamId::new(72), DrawId::new(73)),
    ),
    ScriptedAgentExperimentManifest::new(
      ScriptedAgentProfile::risk_taking_v1(),
      ScriptedAgentSeedBundle::new(74, StreamId::new(75), DrawId::new(76)),
    ),
    ScriptedAgentExperimentManifest::new(
      ScriptedAgentProfile::yielding_v1(),
      ScriptedAgentSeedBundle::new(77, StreamId::new(78), DrawId::new(79)),
    ),
  ];
  let baseline_population = ScriptedAgentFixtureScenarioPopulation::generate_from_scenario_ids(
    &[
      SCRIPTED_AGENT_SAFE_FIXTURE_SCENARIO_ID,
      SCRIPTED_AGENT_SAFE_FIXTURE_SCENARIO_ID,
      SCRIPTED_AGENT_SAFE_FIXTURE_SCENARIO_ID,
      SCRIPTED_AGENT_RIVER_SIDE_FIXTURE_SCENARIO_ID,
    ],
    280,
  )
  .expect("baseline population builds");
  let candidate_population = ScriptedAgentFixtureScenarioPopulation::generate_from_scenario_ids(
    &[
      SCRIPTED_AGENT_SAFE_FIXTURE_SCENARIO_ID,
      SCRIPTED_AGENT_RIVER_SIDE_FIXTURE_SCENARIO_ID,
      SCRIPTED_AGENT_RIVER_SIDE_FIXTURE_SCENARIO_ID,
      SCRIPTED_AGENT_RIVER_SIDE_FIXTURE_SCENARIO_ID,
    ],
    288,
  )
  .expect("candidate population builds");
  let baseline = baseline_population
    .matched_tally(&manifests)
    .expect("baseline tally builds");
  let candidate = candidate_population
    .matched_tally(&manifests)
    .expect("candidate tally builds");
  let comparison =
    ScriptedAgentMatchedScenarioTallyComparisonReport::from_reports(&baseline, &candidate)
      .expect("matching verified tallies compare");
  assert_eq!(
    SCRIPTED_AGENT_MATCHED_SCENARIO_TALLY_COMPARISON_SCHEMA,
    "m6-scripted-agent-matched-scenario-tally-compare-v1"
  );
  assert_eq!(
    comparison.schema(),
    "m6-scripted-agent-matched-scenario-tally-compare-v1"
  );
  let encoded = comparison.encode();
  assert_eq!(
    encoded,
    "schema=m6-scripted-agent-matched-scenario-tally-compare-v1\nobserver=1\nbaseline_pair_count=4\nbaseline_observation_count=8\ncandidate_pair_count=4\ncandidate_observation_count=8\nentries=3\nrow=cautious-laner-v1|threat-first-pressure-aware-fixed-score-v1|7|0|0|0|1|5|0|0|0|3\nrow=risk-taking-laner-v1|contest-first-fixed-score-v1|0|8|0|0|0|0|8|0|0|0\nrow=yielding-laner-v1|yield-first-fixed-score-v1|0|0|8|0|0|0|0|8|0|0\n"
  );
  assert_eq!(
    ScriptedAgentMatchedScenarioTallyComparisonReport::decode(&encoded, &comparison),
    Ok(comparison.clone())
  );
  for (malformed, error) in [
    (
      encoded.replacen(
        "schema=m6-scripted-agent-matched-scenario-tally-compare-v1",
        "schema=wrong-v1",
        1,
      ),
      ScriptedAgentMatchedScenarioTallyComparisonCodecError::UnsupportedSchema,
    ),
    (
      encoded.replacen("entries=3", "unknown=3", 1),
      ScriptedAgentMatchedScenarioTallyComparisonCodecError::UnknownField,
    ),
    (
      encoded.replacen("observer=1", "schema=wrong-v1", 1),
      ScriptedAgentMatchedScenarioTallyComparisonCodecError::DuplicateField,
    ),
    (
      encoded.replacen(
        "observer=1\nbaseline_pair_count=4",
        "baseline_pair_count=4\nobserver=1",
        1,
      ),
      ScriptedAgentMatchedScenarioTallyComparisonCodecError::DuplicateField,
    ),
    (
      encoded.replacen("cautious-laner-v1", "unknown-profile-v1", 1),
      ScriptedAgentMatchedScenarioTallyComparisonCodecError::InvalidValue,
    ),
    (
      encoded.replacen(
        "threat-first-pressure-aware-fixed-score-v1",
        "contest-first-fixed-score-v1",
        1,
      ),
      ScriptedAgentMatchedScenarioTallyComparisonCodecError::InvalidValue,
    ),
    (
      encoded.replacen("baseline_pair_count=4", "baseline_pair_count=x", 1),
      ScriptedAgentMatchedScenarioTallyComparisonCodecError::InvalidValue,
    ),
    (
      encoded.replacen("|7|0|0|0|1|5|0|0|0|3\n", "|x|0|0|0|1|5|0|0|0|3\n", 1),
      ScriptedAgentMatchedScenarioTallyComparisonCodecError::InvalidValue,
    ),
    (
      encoded.replacen("entries=3", "entries=0", 1),
      ScriptedAgentMatchedScenarioTallyComparisonCodecError::InvalidValue,
    ),
    (
      encoded.replacen("entries=3", "entries=17", 1),
      ScriptedAgentMatchedScenarioTallyComparisonCodecError::InvalidValue,
    ),
    (
      encoded.replacen(
        "row=cautious-laner-v1|threat-first-pressure-aware-fixed-score-v1|7|0|0|0|1|5|0|0|0|3\nrow=risk-taking-laner-v1|contest-first-fixed-score-v1|0|8|0|0|0|0|8|0|0|0\n",
        "row=risk-taking-laner-v1|contest-first-fixed-score-v1|0|8|0|0|0|0|8|0|0|0\nrow=cautious-laner-v1|threat-first-pressure-aware-fixed-score-v1|7|0|0|0|1|5|0|0|0|3\n",
        1,
      ),
      ScriptedAgentMatchedScenarioTallyComparisonCodecError::InputMismatch,
    ),
    (
      encoded.lines().take(6).collect::<Vec<_>>().join("\n"),
      ScriptedAgentMatchedScenarioTallyComparisonCodecError::MissingField,
    ),
    (
      encoded.replacen("|7|0|0|0|1|5|0|0|0|3\n", "|6|0|0|0|1|5|0|0|0|3\n", 1),
      ScriptedAgentMatchedScenarioTallyComparisonCodecError::InvalidValue,
    ),
    (
      format!("{encoded}extra=x\n"),
      ScriptedAgentMatchedScenarioTallyComparisonCodecError::UnexpectedLineCount {
        expected: 10,
        actual: 11,
      },
    ),
    (
      "x".repeat(MAX_SCRIPTED_AGENT_MATCHED_SCENARIO_TALLY_COMPARISON_BYTES + 1),
      ScriptedAgentMatchedScenarioTallyComparisonCodecError::Oversized,
    ),
  ] {
    assert_eq!(
      ScriptedAgentMatchedScenarioTallyComparisonReport::decode(&malformed, &comparison),
      Err(error)
    );
  }
  let tampered = encoded.replacen("|7|0|0|0|1|5|0|0|0|3\n", "|6|0|0|0|2|5|0|0|0|3\n", 1);
  assert_eq!(
    ScriptedAgentMatchedScenarioTallyComparisonReport::decode(&tampered, &comparison),
    Err(ScriptedAgentMatchedScenarioTallyComparisonCodecError::InputMismatch)
  );
  assert_eq!(comparison.observer(), baseline.observer());
  assert_eq!(comparison.baseline_pair_count(), 4);
  assert_eq!(comparison.baseline_observation_count(), 8);
  assert_eq!(comparison.candidate_pair_count(), 4);
  assert_eq!(comparison.candidate_observation_count(), 8);
  assert_eq!(comparison.entries().len(), 3);
  assert_eq!(comparison.entries()[0].profile_id(), "cautious-laner-v1");
  assert_eq!(
    comparison.entries()[0].evaluation_rule(),
    "threat-first-pressure-aware-fixed-score-v1"
  );
  assert_eq!(comparison.entries()[0].baseline_counts(), [7, 0, 0, 0, 1]);
  assert_eq!(comparison.entries()[0].candidate_counts(), [5, 0, 0, 0, 3]);
  assert_eq!(comparison.entries()[0].deltas(), [-2, 0, 0, 0, 2]);
  assert_eq!(comparison.entries()[1].profile_id(), "risk-taking-laner-v1");
  assert_eq!(
    comparison.entries()[1].evaluation_rule(),
    "contest-first-fixed-score-v1"
  );
  assert_eq!(comparison.entries()[1].baseline_counts(), [0, 8, 0, 0, 0]);
  assert_eq!(comparison.entries()[1].candidate_counts(), [0, 8, 0, 0, 0]);
  assert_eq!(comparison.entries()[1].deltas(), [0, 0, 0, 0, 0]);
  assert_eq!(comparison.entries()[2].profile_id(), "yielding-laner-v1");
  assert_eq!(
    comparison.entries()[2].evaluation_rule(),
    "yield-first-fixed-score-v1"
  );
  assert_eq!(comparison.entries()[2].baseline_counts(), [0, 0, 8, 0, 0]);
  assert_eq!(comparison.entries()[2].candidate_counts(), [0, 0, 8, 0, 0]);
  assert_eq!(comparison.entries()[2].deltas(), [0, 0, 0, 0, 0]);
  assert_eq!(
    comparison.regression_rule(),
    "m6-fixed-profile-tally-no-change-v1"
  );
  assert!(!comparison.passes_no_change_gate());
  let unchanged =
    ScriptedAgentMatchedScenarioTallyComparisonReport::from_reports(&baseline, &baseline)
      .expect("unchanged verified tallies compare");
  assert!(unchanged.passes_no_change_gate());
  assert_eq!(
    comparison,
    ScriptedAgentMatchedScenarioTallyComparisonReport::from_reports(&baseline, &candidate)
      .expect("repeated comparison is stable")
  );
  let reversed =
    ScriptedAgentMatchedScenarioTallyComparisonReport::from_reports(&candidate, &baseline)
      .expect("reversed verified tallies compare");
  assert_eq!(reversed.entries()[0].deltas(), [2, 0, 0, 0, -2]);

  let smaller_candidate_population =
    ScriptedAgentFixtureScenarioPopulation::generate_from_scenario_ids(
      &[
        SCRIPTED_AGENT_SAFE_FIXTURE_SCENARIO_ID,
        SCRIPTED_AGENT_RIVER_SIDE_FIXTURE_SCENARIO_ID,
        SCRIPTED_AGENT_RIVER_SIDE_FIXTURE_SCENARIO_ID,
      ],
      296,
    )
    .expect("smaller candidate population builds");
  let smaller_candidate = smaller_candidate_population
    .matched_tally(&manifests)
    .expect("smaller candidate tally builds");
  let changed_total = ScriptedAgentMatchedScenarioTallyComparisonReport::from_reports(
    &baseline,
    &smaller_candidate,
  )
  .expect("changed-total verified tallies compare");
  assert_eq!(changed_total.baseline_pair_count(), 4);
  assert_eq!(changed_total.candidate_pair_count(), 3);
  assert_eq!(changed_total.baseline_observation_count(), 8);
  assert_eq!(changed_total.candidate_observation_count(), 6);
  assert!(!changed_total.passes_no_change_gate());

  let redistributed_population =
    ScriptedAgentFixtureScenarioPopulation::generate_from_scenario_ids(
      &[
        SCRIPTED_AGENT_SAFE_FIXTURE_SCENARIO_ID,
        SCRIPTED_AGENT_SAFE_FIXTURE_SCENARIO_ID,
        SCRIPTED_AGENT_RIVER_SIDE_FIXTURE_SCENARIO_ID,
        SCRIPTED_AGENT_RIVER_SIDE_FIXTURE_SCENARIO_ID,
      ],
      302,
    )
    .expect("redistributed population builds");
  let redistributed = redistributed_population
    .matched_tally(&manifests)
    .expect("redistributed tally builds");
  let same_total_redistribution =
    ScriptedAgentMatchedScenarioTallyComparisonReport::from_reports(&baseline, &redistributed)
      .expect("same-total verified tallies compare");
  assert_eq!(same_total_redistribution.baseline_pair_count(), 4);
  assert_eq!(same_total_redistribution.candidate_pair_count(), 4);
  assert_eq!(same_total_redistribution.baseline_observation_count(), 8);
  assert_eq!(same_total_redistribution.candidate_observation_count(), 8);
  assert_eq!(
    same_total_redistribution.entries()[0].baseline_counts(),
    [7, 0, 0, 0, 1]
  );
  assert_eq!(
    same_total_redistribution.entries()[0].candidate_counts(),
    [6, 0, 0, 0, 2]
  );
  assert!(!same_total_redistribution.passes_no_change_gate());

  let reordered_candidate = candidate_population
    .matched_tally(&[manifests[1], manifests[0], manifests[2]])
    .expect("reordered candidate tally builds");
  assert_eq!(
    ScriptedAgentMatchedScenarioTallyComparisonReport::from_reports(
      &baseline,
      &reordered_candidate,
    ),
    Err(ScriptedAgentMatchedScenarioTallyComparisonError::MismatchedRows)
  );

  let mut alternate_observations = candidate_population.observations();
  for pair in &mut alternate_observations {
    pair[0].observer = ActorId::new(ALLIED_AUTONOMOUS_ACTOR_ID);
    pair[1].observer = ActorId::new(ALLIED_AUTONOMOUS_ACTOR_ID);
  }
  let alternate_sample =
    ScriptedAgentMatchedScenarioSample::from_observations(&alternate_observations, &manifests)
      .expect("alternate observer sample builds");
  let alternate = ScriptedAgentMatchedScenarioTallyReport::from_sample(&alternate_sample);
  assert_eq!(
    ScriptedAgentMatchedScenarioTallyComparisonReport::from_reports(&baseline, &alternate),
    Err(ScriptedAgentMatchedScenarioTallyComparisonError::MismatchedObserver)
  );
}

#[test]
fn profile_aware_tally_largest_delta_candidate_is_stable_and_bounded() {
  let manifests = [
    ScriptedAgentExperimentManifest::new(
      ScriptedAgentProfile::cautious_v1(),
      ScriptedAgentSeedBundle::new(81, StreamId::new(82), DrawId::new(83)),
    ),
    ScriptedAgentExperimentManifest::new(
      ScriptedAgentProfile::cautious_v1(),
      ScriptedAgentSeedBundle::new(84, StreamId::new(85), DrawId::new(86)),
    ),
  ];
  let baseline_population = ScriptedAgentFixtureScenarioPopulation::generate_from_scenario_ids(
    &[
      SCRIPTED_AGENT_SAFE_FIXTURE_SCENARIO_ID,
      SCRIPTED_AGENT_SAFE_FIXTURE_SCENARIO_ID,
      SCRIPTED_AGENT_SAFE_FIXTURE_SCENARIO_ID,
      SCRIPTED_AGENT_RIVER_SIDE_FIXTURE_SCENARIO_ID,
    ],
    340,
  )
  .expect("baseline candidate builds");
  let candidate_population = ScriptedAgentFixtureScenarioPopulation::generate_from_scenario_ids(
    &[
      SCRIPTED_AGENT_RIVER_SIDE_FIXTURE_SCENARIO_ID,
      SCRIPTED_AGENT_RIVER_SIDE_FIXTURE_SCENARIO_ID,
      SCRIPTED_AGENT_RIVER_SIDE_FIXTURE_SCENARIO_ID,
      SCRIPTED_AGENT_SAFE_FIXTURE_SCENARIO_ID,
    ],
    348,
  )
  .expect("candidate population builds");
  let baseline = baseline_population
    .matched_tally(&manifests)
    .expect("baseline tally builds");
  let candidate = candidate_population
    .matched_tally(&manifests)
    .expect("candidate tally builds");
  let comparison =
    ScriptedAgentMatchedScenarioTallyComparisonReport::from_reports(&baseline, &candidate)
      .expect("verified tallies compare");
  let selected = comparison
    .largest_delta_candidate()
    .expect("changed comparison has a candidate");
  assert_eq!(
    selected.schema(),
    "m6-scripted-agent-tally-outlier-candidate-v1"
  );
  assert_eq!(
    selected.selection_rule(),
    "m6-largest-absolute-intent-delta-v1"
  );
  assert_eq!(selected.row_index(), 0);
  assert_eq!(selected.profile_id(), "cautious-laner-v1");
  assert_eq!(
    selected.evaluation_rule(),
    "threat-first-pressure-aware-fixed-score-v1"
  );
  assert_eq!(selected.intent(), LaneIntent::Stabilize);
  assert_eq!(selected.delta(), -2);
  assert_eq!(selected.magnitude(), 2);
  assert_eq!(
    selected.magnitude(),
    selected.delta().unsigned_abs(),
    "magnitude retains the bounded absolute signed delta"
  );
  assert_eq!(
    comparison.largest_delta_candidate(),
    Some(selected),
    "repeated ranking is deterministic"
  );

  let reversed =
    ScriptedAgentMatchedScenarioTallyComparisonReport::from_reports(&candidate, &baseline)
      .expect("reversed verified tallies compare");
  let reversed_selected = reversed
    .largest_delta_candidate()
    .expect("reversed changed comparison has a candidate");
  assert_eq!(reversed_selected.intent(), LaneIntent::Stabilize);
  assert_eq!(reversed_selected.delta(), 2);
  assert_eq!(reversed_selected.magnitude(), 2);

  let unchanged =
    ScriptedAgentMatchedScenarioTallyComparisonReport::from_reports(&baseline, &baseline)
      .expect("unchanged verified tallies compare");
  assert_eq!(unchanged.largest_delta_candidate(), None);
}

#[test]
fn profile_aware_tally_outlier_threshold_is_provisional_and_bounded() {
  let manifest = [ScriptedAgentExperimentManifest::new(
    ScriptedAgentProfile::cautious_v1(),
    ScriptedAgentSeedBundle::new(91, StreamId::new(92), DrawId::new(93)),
  )];
  let baseline_population = ScriptedAgentFixtureScenarioPopulation::generate_from_scenario_ids(
    &[
      SCRIPTED_AGENT_SAFE_FIXTURE_SCENARIO_ID,
      SCRIPTED_AGENT_SAFE_FIXTURE_SCENARIO_ID,
      SCRIPTED_AGENT_RIVER_SIDE_FIXTURE_SCENARIO_ID,
    ],
    500,
  )
  .expect("baseline population builds");
  let candidate_population = ScriptedAgentFixtureScenarioPopulation::generate_from_scenario_ids(
    &[
      SCRIPTED_AGENT_SAFE_FIXTURE_SCENARIO_ID,
      SCRIPTED_AGENT_RIVER_SIDE_FIXTURE_SCENARIO_ID,
      SCRIPTED_AGENT_RIVER_SIDE_FIXTURE_SCENARIO_ID,
    ],
    506,
  )
  .expect("candidate population builds");
  let baseline = baseline_population
    .matched_tally(&manifest)
    .expect("baseline tally builds");
  let candidate = candidate_population
    .matched_tally(&manifest)
    .expect("candidate tally builds");
  let below =
    ScriptedAgentMatchedScenarioTallyComparisonReport::from_reports(&baseline, &candidate)
      .expect("verified tallies compare");
  assert_eq!(
    below
      .largest_delta_candidate()
      .expect("magnitude-one candidate exists")
      .magnitude(),
    1
  );
  let below_report = ScriptedAgentTallyOutlierThresholdReport::from_comparison(&below);
  assert_eq!(
    below_report.schema(),
    "m6-scripted-agent-tally-outlier-threshold-v1"
  );
  assert_eq!(
    below_report.rule(),
    "m6-fixed-intent-delta-outlier-threshold-v1"
  );
  assert_eq!(below_report.threshold(), 2);
  assert_eq!(
    below_report.status(),
    ScriptedAgentTallyOutlierThresholdStatus::BelowThreshold
  );
  assert_eq!(below_report.status().id(), "below_threshold");

  let above = ScriptedAgentFixtureScenarioPopulation::generate_from_scenario_ids(
    &[
      SCRIPTED_AGENT_RIVER_SIDE_FIXTURE_SCENARIO_ID,
      SCRIPTED_AGENT_RIVER_SIDE_FIXTURE_SCENARIO_ID,
      SCRIPTED_AGENT_RIVER_SIDE_FIXTURE_SCENARIO_ID,
      SCRIPTED_AGENT_SAFE_FIXTURE_SCENARIO_ID,
    ],
    512,
  )
  .expect("above-threshold population builds")
  .matched_tally(&manifest)
  .expect("above-threshold tally builds");
  let baseline_four = ScriptedAgentFixtureScenarioPopulation::generate_from_scenario_ids(
    &[
      SCRIPTED_AGENT_SAFE_FIXTURE_SCENARIO_ID,
      SCRIPTED_AGENT_SAFE_FIXTURE_SCENARIO_ID,
      SCRIPTED_AGENT_SAFE_FIXTURE_SCENARIO_ID,
      SCRIPTED_AGENT_RIVER_SIDE_FIXTURE_SCENARIO_ID,
    ],
    520,
  )
  .expect("four-pair baseline population builds")
  .matched_tally(&manifest)
  .expect("four-pair baseline tally builds");
  let above_comparison =
    ScriptedAgentMatchedScenarioTallyComparisonReport::from_reports(&baseline_four, &above)
      .expect("above-threshold tallies compare");
  assert_eq!(
    above_comparison
      .largest_delta_candidate()
      .expect("magnitude-two candidate exists")
      .magnitude(),
    SCRIPTED_AGENT_TALLY_OUTLIER_THRESHOLD_MAGNITUDE
  );
  let above_report = ScriptedAgentTallyOutlierThresholdReport::from_comparison(&above_comparison);
  assert_eq!(
    above_report.status(),
    ScriptedAgentTallyOutlierThresholdStatus::AboveThreshold
  );
  assert_eq!(above_report.status().id(), "above_threshold");

  let unchanged =
    ScriptedAgentMatchedScenarioTallyComparisonReport::from_reports(&baseline, &baseline)
      .expect("unchanged tallies compare");
  let unchanged_report = ScriptedAgentTallyOutlierThresholdReport::from_comparison(&unchanged);
  assert_eq!(
    unchanged_report.status(),
    ScriptedAgentTallyOutlierThresholdStatus::NoCandidate
  );
  assert_eq!(unchanged_report.status().id(), "no_candidate");
}

#[test]
fn tally_candidate_replay_reference_selects_first_verified_match() {
  let manifest = [ScriptedAgentExperimentManifest::new(
    ScriptedAgentProfile::cautious_v1(),
    ScriptedAgentSeedBundle::new(101, StreamId::new(102), DrawId::new(103)),
  )];
  let baseline = ScriptedAgentFixtureScenarioPopulation::generate_from_scenario_ids(
    &[
      SCRIPTED_AGENT_SAFE_FIXTURE_SCENARIO_ID,
      SCRIPTED_AGENT_SAFE_FIXTURE_SCENARIO_ID,
      SCRIPTED_AGENT_SAFE_FIXTURE_SCENARIO_ID,
      SCRIPTED_AGENT_RIVER_SIDE_FIXTURE_SCENARIO_ID,
    ],
    540,
  )
  .expect("baseline population builds")
  .matched_tally(&manifest)
  .expect("baseline tally builds");
  let candidate = ScriptedAgentFixtureScenarioPopulation::generate_from_scenario_ids(
    &[
      SCRIPTED_AGENT_RIVER_SIDE_FIXTURE_SCENARIO_ID,
      SCRIPTED_AGENT_RIVER_SIDE_FIXTURE_SCENARIO_ID,
      SCRIPTED_AGENT_RIVER_SIDE_FIXTURE_SCENARIO_ID,
      SCRIPTED_AGENT_SAFE_FIXTURE_SCENARIO_ID,
    ],
    548,
  )
  .expect("candidate population builds")
  .matched_tally(&manifest)
  .expect("candidate tally builds");
  let comparison =
    ScriptedAgentMatchedScenarioTallyComparisonReport::from_reports(&baseline, &candidate)
      .expect("verified tallies compare");
  let candidate = comparison
    .largest_delta_candidate()
    .expect("largest candidate exists");
  let state = LaneSnapshot::initial();
  let first_observation = observe_player(&state, ObservationId::new(600)).observation();
  let selected_observation = observe_player(&state, ObservationId::new(601)).observation();
  let later_observation = observe_player(&state, ObservationId::new(602)).observation();
  let noise = ScriptedAgentReplayRecord::capture(
    ScriptedAgent::risk_taking_v1(),
    first_observation,
    LaneIntent::Contest,
    None,
  );
  let first_match = ScriptedAgentReplayRecord::capture(
    ScriptedAgent::cautious_v1(),
    selected_observation,
    LaneIntent::Stabilize,
    None,
  );
  let later_match = ScriptedAgentReplayRecord::capture(
    ScriptedAgent::cautious_v1(),
    later_observation,
    LaneIntent::Stabilize,
    None,
  );
  let reference = ScriptedAgentTallyReplayReference::from_candidate_and_records(
    candidate,
    &[noise, first_match.clone(), later_match],
  )
  .expect("first verified matching replay is selected");
  assert_eq!(
    reference.schema(),
    "m6-scripted-agent-tally-replay-reference-v1"
  );
  assert_eq!(
    reference.selection_rule(),
    "m6-first-verified-candidate-replay-v1"
  );
  assert_eq!(reference.row_index(), candidate.row_index());
  assert_eq!(reference.profile_id(), candidate.profile_id());
  assert_eq!(reference.evaluation_rule(), candidate.evaluation_rule());
  assert_eq!(reference.intent(), candidate.intent());
  assert_eq!(reference.delta(), candidate.delta());
  assert_eq!(reference.magnitude(), candidate.magnitude());
  assert_eq!(reference.observation_id(), ObservationId::new(601));

  let mut mismatched = first_match.clone();
  mismatched
    .decision
    .candidates
    .iter_mut()
    .find(|candidate| candidate.intent() == LaneIntent::Stabilize)
    .expect("selected candidate exists")
    .score += 1;
  let later_reference = ScriptedAgentTallyReplayReference::from_candidate_and_records(
    candidate,
    &[mismatched.clone(), first_match.clone()],
  )
  .expect("later verified matching replay is selected");
  assert_eq!(later_reference.observation_id(), ObservationId::new(601));
  assert_eq!(
    ScriptedAgentTallyReplayReference::from_candidate_and_records(candidate, &[mismatched]),
    Err(ScriptedAgentTallyReplayReferenceError::DecisionMismatch)
  );
  let no_match = ScriptedAgentReplayRecord::capture(
    ScriptedAgent::yielding_v1(),
    first_observation,
    LaneIntent::Yield,
    None,
  );
  assert_eq!(
    ScriptedAgentTallyReplayReference::from_candidate_and_records(candidate, &[no_match]),
    Err(ScriptedAgentTallyReplayReferenceError::NoMatchingReplay)
  );
}

#[test]
fn calibrated_outlier_detection_and_representative_replay_is_deterministic() {
  assert_eq!(
    SCRIPTED_AGENT_CALIBRATED_OUTLIER_REPLAY_SCHEMA,
    "m6-scripted-agent-calibrated-outlier-replay-v1"
  );
  assert_eq!(
    SCRIPTED_AGENT_CALIBRATED_OUTLIER_REPLAY_RULE,
    "m6-calibrated-outlier-representative-replay-v1"
  );
  assert_eq!(SCRIPTED_AGENT_CALIBRATED_OUTLIER_THRESHOLD_MAGNITUDE, 2);
  assert_eq!(
    ScriptedAgentCalibratedOutlierReplayStatus::Qualified.id(),
    "qualified"
  );
  assert_eq!(
    ScriptedAgentCalibratedOutlierReplayStatus::BelowThreshold.id(),
    "below_threshold"
  );
  assert_eq!(
    ScriptedAgentCalibratedOutlierReplayStatus::NoCandidate.id(),
    "no_candidate"
  );
  assert_eq!(
    ScriptedAgentCalibratedOutlierReplayStatus::NoMatchingReplay.id(),
    "no_matching_replay"
  );
  assert_eq!(
    ScriptedAgentCalibratedOutlierReplayStatus::DecisionMismatch.id(),
    "decision_mismatch"
  );

  let manifest = [ScriptedAgentExperimentManifest::new(
    ScriptedAgentProfile::cautious_v1(),
    ScriptedAgentSeedBundle::new(101, StreamId::new(102), DrawId::new(103)),
  )];

  // 1. Qualified Outlier: delta >= 2 with matching verified replay record
  let baseline = ScriptedAgentFixtureScenarioPopulation::generate_from_scenario_ids(
    &[
      SCRIPTED_AGENT_SAFE_FIXTURE_SCENARIO_ID,
      SCRIPTED_AGENT_SAFE_FIXTURE_SCENARIO_ID,
      SCRIPTED_AGENT_SAFE_FIXTURE_SCENARIO_ID,
      SCRIPTED_AGENT_RIVER_SIDE_FIXTURE_SCENARIO_ID,
    ],
    540,
  )
  .expect("baseline population builds")
  .matched_tally(&manifest)
  .expect("baseline tally builds");
  let candidate_tally = ScriptedAgentFixtureScenarioPopulation::generate_from_scenario_ids(
    &[
      SCRIPTED_AGENT_RIVER_SIDE_FIXTURE_SCENARIO_ID,
      SCRIPTED_AGENT_RIVER_SIDE_FIXTURE_SCENARIO_ID,
      SCRIPTED_AGENT_RIVER_SIDE_FIXTURE_SCENARIO_ID,
      SCRIPTED_AGENT_SAFE_FIXTURE_SCENARIO_ID,
    ],
    548,
  )
  .expect("candidate population builds")
  .matched_tally(&manifest)
  .expect("candidate tally builds");
  let comparison =
    ScriptedAgentMatchedScenarioTallyComparisonReport::from_reports(&baseline, &candidate_tally)
      .expect("verified tallies compare");
  let candidate = comparison
    .largest_delta_candidate()
    .expect("largest candidate exists");
  assert!(candidate.magnitude() >= SCRIPTED_AGENT_CALIBRATED_OUTLIER_THRESHOLD_MAGNITUDE);

  let state = LaneSnapshot::initial();
  let noise_observation = observe_player(&state, ObservationId::new(700)).observation();
  let match_observation = observe_player(&state, ObservationId::new(701)).observation();
  let noise_record = ScriptedAgentReplayRecord::capture(
    ScriptedAgent::risk_taking_v1(),
    noise_observation,
    LaneIntent::Contest,
    None,
  );
  let match_record = ScriptedAgentReplayRecord::capture(
    ScriptedAgent::cautious_v1(),
    match_observation,
    LaneIntent::Stabilize,
    None,
  );

  let qualified_report = ScriptedAgentCalibratedOutlierReplayReport::from_comparison_and_records(
    &comparison,
    &[noise_record.clone(), match_record.clone()],
  );
  assert_eq!(
    qualified_report.schema(),
    SCRIPTED_AGENT_CALIBRATED_OUTLIER_REPLAY_SCHEMA
  );
  assert_eq!(
    qualified_report.rule(),
    SCRIPTED_AGENT_CALIBRATED_OUTLIER_REPLAY_RULE
  );
  assert_eq!(
    qualified_report.threshold(),
    SCRIPTED_AGENT_CALIBRATED_OUTLIER_THRESHOLD_MAGNITUDE
  );
  assert_eq!(
    qualified_report.status(),
    ScriptedAgentCalibratedOutlierReplayStatus::Qualified
  );
  assert_eq!(qualified_report.candidate(), Some(candidate));
  assert_eq!(
    qualified_report.observation_id(),
    Some(ObservationId::new(701))
  );

  // 2. Below Threshold: delta = 1
  let below_candidate = ScriptedAgentFixtureScenarioPopulation::generate_from_scenario_ids(
    &[
      SCRIPTED_AGENT_SAFE_FIXTURE_SCENARIO_ID,
      SCRIPTED_AGENT_SAFE_FIXTURE_SCENARIO_ID,
      SCRIPTED_AGENT_RIVER_SIDE_FIXTURE_SCENARIO_ID,
      SCRIPTED_AGENT_RIVER_SIDE_FIXTURE_SCENARIO_ID,
    ],
    548,
  )
  .expect("below candidate population builds")
  .matched_tally(&manifest)
  .expect("below candidate tally builds");
  let below_comparison =
    ScriptedAgentMatchedScenarioTallyComparisonReport::from_reports(&baseline, &below_candidate)
      .expect("below tallies compare");
  let below_report = ScriptedAgentCalibratedOutlierReplayReport::from_comparison_and_records(
    &below_comparison,
    std::slice::from_ref(&match_record),
  );
  assert_eq!(
    below_report.status(),
    ScriptedAgentCalibratedOutlierReplayStatus::BelowThreshold
  );
  assert!(below_report.candidate().is_some());
  assert_eq!(below_report.candidate().unwrap().magnitude(), 1);
  assert_eq!(below_report.observation_id(), None);

  // 3. No Candidate: unchanged baseline vs baseline
  let unchanged_comparison =
    ScriptedAgentMatchedScenarioTallyComparisonReport::from_reports(&baseline, &baseline)
      .expect("unchanged tallies compare");
  let no_cand_report = ScriptedAgentCalibratedOutlierReplayReport::from_comparison_and_records(
    &unchanged_comparison,
    std::slice::from_ref(&match_record),
  );
  assert_eq!(
    no_cand_report.status(),
    ScriptedAgentCalibratedOutlierReplayStatus::NoCandidate
  );
  assert_eq!(no_cand_report.candidate(), None);
  assert_eq!(no_cand_report.observation_id(), None);

  // 4. No Matching Replay: delta >= 2 but no matching record
  let no_matching_report =
    ScriptedAgentCalibratedOutlierReplayReport::from_comparison_and_records(
      &comparison,
      std::slice::from_ref(&noise_record),
    );
  assert_eq!(
    no_matching_report.status(),
    ScriptedAgentCalibratedOutlierReplayStatus::NoMatchingReplay
  );
  assert_eq!(no_matching_report.candidate(), Some(candidate));
  assert_eq!(no_matching_report.observation_id(), None);

  // 5. Decision Mismatch: delta >= 2 with corrupted replay record
  let mut corrupted = match_record;
  corrupted
    .decision
    .candidates
    .iter_mut()
    .find(|c| c.intent() == LaneIntent::Stabilize)
    .expect("candidate exists")
    .score += 1;
  let mismatch_report = ScriptedAgentCalibratedOutlierReplayReport::from_comparison_and_records(
    &comparison,
    std::slice::from_ref(&corrupted),
  );
  assert_eq!(
    mismatch_report.status(),
    ScriptedAgentCalibratedOutlierReplayStatus::DecisionMismatch
  );
  assert_eq!(mismatch_report.candidate(), Some(candidate));
  assert_eq!(
    mismatch_report.observation_id(),
    Some(ObservationId::new(701))
  );
}
