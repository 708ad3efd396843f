use laner_agent::batch::{MAX_SCRIPTED_AGENT_BATCH_MANIFESTS, ScriptedAgentBatchError};
use laner_agent::lane::{ALLIED_AUTONOMOUS_ACTOR_ID, ActorId, DrawId, JungleThreatTruth, LaneIntent, LaneSnapshot, LaneStatus, ObservationId, StreamId, observe_player};
use laner_agent::profile::{SCRIPTED_AGENT_PROFILE_ID, ScriptedAgentExperimentManifest, ScriptedAgentProfile, ScriptedAgentSeedBundle, YIELDING_SCRIPTED_AGENT_PROFILE_ID};
use laner_agent::sample::{MAX_SCRIPTED_AGENT_MATCHED_SCENARIO_SAMPLES, MAX_SCRIPTED_AGENT_MATCHED_SCENARIO_TALLY_BYTES, SCRIPTED_AGENT_MATCHED_SAMPLE_SCHEMA, ScriptedAgentMatchedSample, ScriptedAgentMatchedSampleError, ScriptedAgentMatchedScenarioSample, ScriptedAgentMatchedScenarioSampleError, ScriptedAgentMatchedScenarioTallyCodecError, ScriptedAgentMatchedScenarioTallyReport};
#[test]
fn matched_observation_sample_is_stable_and_bounded() {
  let initial = LaneSnapshot::initial();
  let threat = LaneSnapshot::new(
    initial.ruleset(),
    initial.turn(),
    LaneStatus::Open,
    initial.player(),
    initial.opponent(),
    initial.wave(),
    JungleThreatTruth::RiverSide,
  );
  let observations = [
    observe_player(&initial, ObservationId::new(60)).observation(),
    observe_player(&threat, ObservationId::new(61)).observation(),
  ];
  let manifests = [
    ScriptedAgentExperimentManifest::new(
      ScriptedAgentProfile::cautious_v1(),
      ScriptedAgentSeedBundle::new(13, StreamId::new(14), DrawId::new(15)),
    ),
    ScriptedAgentExperimentManifest::new(
      ScriptedAgentProfile::yielding_v1(),
      ScriptedAgentSeedBundle::new(16, StreamId::new(17), DrawId::new(18)),
    ),
  ];
  let sample = ScriptedAgentMatchedSample::from_observations(observations, &manifests)
    .expect("matched sample builds");
  assert_eq!(
    SCRIPTED_AGENT_MATCHED_SAMPLE_SCHEMA,
    "m6-scripted-agent-matched-sample-v1"
  );
  assert_eq!(sample.schema(), SCRIPTED_AGENT_MATCHED_SAMPLE_SCHEMA);
  assert_eq!(sample.observer(), observations[0].observer());
  assert_eq!(
    sample.observation_ids(),
    &[ObservationId::new(60), ObservationId::new(61)]
  );
  assert_eq!(sample.entries().len(), 2);
  assert_eq!(sample.entries()[0].profile_id(), SCRIPTED_AGENT_PROFILE_ID);
  assert_eq!(
    sample.entries()[0].evaluation_rule(),
    "threat-first-pressure-aware-fixed-score-v1"
  );
  assert_eq!(
    sample.entries()[0].seed_bundle(),
    manifests[0].seed_bundle()
  );
  assert_eq!(
    sample.entries()[0].selected_intents(),
    [LaneIntent::Stabilize, LaneIntent::Withdraw]
  );
  assert_eq!(
    sample.entries()[1].profile_id(),
    YIELDING_SCRIPTED_AGENT_PROFILE_ID
  );
  assert_eq!(
    sample.entries()[1].evaluation_rule(),
    "yield-first-fixed-score-v1"
  );
  assert_eq!(
    sample.entries()[1].seed_bundle(),
    manifests[1].seed_bundle()
  );
  assert_eq!(
    sample.entries()[1].selected_intents(),
    [LaneIntent::Yield, LaneIntent::Yield]
  );
  assert_eq!(
    sample,
    ScriptedAgentMatchedSample::from_observations(observations, &manifests)
      .expect("matched sample repeats")
  );

  let mut mixed_observation = observations[1];
  mixed_observation.observer = ActorId::new(ALLIED_AUTONOMOUS_ACTOR_ID);
  let mixed_actor = [observations[0], mixed_observation];
  assert_eq!(
    ScriptedAgentMatchedSample::from_observations(mixed_actor, &manifests),
    Err(ScriptedAgentMatchedSampleError::MismatchedObserver)
  );
  let duplicate_id = [
    observations[0],
    observe_player(&threat, ObservationId::new(60)).observation(),
  ];
  assert_eq!(
    ScriptedAgentMatchedSample::from_observations(duplicate_id, &manifests),
    Err(ScriptedAgentMatchedSampleError::DuplicateObservationId)
  );
  assert_eq!(
    ScriptedAgentMatchedSample::from_observations(observations, &[]),
    Err(ScriptedAgentMatchedSampleError::Batch(
      ScriptedAgentBatchError::EmptyBatch
    ))
  );
  let too_many = [manifests[0]; MAX_SCRIPTED_AGENT_BATCH_MANIFESTS + 1];
  assert_eq!(
    ScriptedAgentMatchedSample::from_observations(observations, &too_many),
    Err(ScriptedAgentMatchedSampleError::Batch(
      ScriptedAgentBatchError::BatchTooLarge {
        max: MAX_SCRIPTED_AGENT_BATCH_MANIFESTS,
        actual: MAX_SCRIPTED_AGENT_BATCH_MANIFESTS + 1,
      }
    ))
  );
}

#[test]
fn matched_scenario_sample_set_preserves_order_and_bounds() {
  let initial = LaneSnapshot::initial();
  let threat = LaneSnapshot::new(
    initial.ruleset(),
    initial.turn(),
    LaneStatus::Open,
    initial.player(),
    initial.opponent(),
    initial.wave(),
    JungleThreatTruth::RiverSide,
  );
  let manifests = [
    ScriptedAgentExperimentManifest::new(
      ScriptedAgentProfile::cautious_v1(),
      ScriptedAgentSeedBundle::new(19, StreamId::new(20), DrawId::new(21)),
    ),
    ScriptedAgentExperimentManifest::new(
      ScriptedAgentProfile::yielding_v1(),
      ScriptedAgentSeedBundle::new(22, StreamId::new(23), DrawId::new(24)),
    ),
  ];
  let pairs = [
    [
      observe_player(&initial, ObservationId::new(70)).observation(),
      observe_player(&threat, ObservationId::new(71)).observation(),
    ],
    [
      observe_player(&initial, ObservationId::new(72)).observation(),
      observe_player(&threat, ObservationId::new(73)).observation(),
    ],
  ];
  let sample = ScriptedAgentMatchedScenarioSample::from_observations(&pairs, &manifests)
    .expect("matched scenario sample builds");
  assert_eq!(sample.schema(), "m6-scripted-agent-matched-scenarios-v1");
  assert_eq!(sample.observer(), pairs[0][0].observer());
  assert_eq!(sample.samples().len(), 2);
  assert_eq!(sample.samples()[0].entries().len(), 2);
  assert_eq!(
    sample.samples()[0].entries()[0].profile_id(),
    SCRIPTED_AGENT_PROFILE_ID
  );
  assert_eq!(
    sample.samples()[0].entries()[1].profile_id(),
    YIELDING_SCRIPTED_AGENT_PROFILE_ID
  );
  assert_eq!(
    sample.samples()[0].entries()[0].seed_bundle(),
    manifests[0].seed_bundle()
  );
  assert_eq!(
    sample.samples()[0].entries()[1].seed_bundle(),
    manifests[1].seed_bundle()
  );
  assert_eq!(
    sample.samples()[0].observation_ids(),
    &[ObservationId::new(70), ObservationId::new(71)]
  );
  assert_eq!(
    sample.samples()[1].observation_ids(),
    &[ObservationId::new(72), ObservationId::new(73)]
  );
  assert_eq!(
    sample,
    ScriptedAgentMatchedScenarioSample::from_observations(&pairs, &manifests)
      .expect("matched scenario sample repeats")
  );
  let tally = ScriptedAgentMatchedScenarioTallyReport::from_sample(&sample);
  assert_eq!(
    tally.schema(),
    "m6-scripted-agent-matched-scenario-tally-v1"
  );
  assert_eq!(tally.observer(), sample.observer());
  assert_eq!(tally.pair_count(), 2);
  assert_eq!(tally.observation_count(), 4);
  assert_eq!(tally.entries().len(), 2);
  assert_eq!(tally.entries()[0].profile_id(), SCRIPTED_AGENT_PROFILE_ID);
  assert_eq!(
    tally.entries()[0].evaluation_rule(),
    "threat-first-pressure-aware-fixed-score-v1"
  );
  assert_eq!(tally.entries()[0].stabilize_count(), 2);
  assert_eq!(tally.entries()[0].contest_count(), 0);
  assert_eq!(tally.entries()[0].withdraw_count(), 2);
  assert_eq!(
    tally.entries()[0].stabilize_count()
      + tally.entries()[0].contest_count()
      + tally.entries()[0].yield_count()
      + tally.entries()[0].recall_count()
      + tally.entries()[0].withdraw_count(),
    tally.entries()[0].observation_count()
  );
  assert_eq!(
    tally.entries()[1].profile_id(),
    YIELDING_SCRIPTED_AGENT_PROFILE_ID
  );
  assert_eq!(
    tally.entries()[1].evaluation_rule(),
    "yield-first-fixed-score-v1"
  );
  assert_eq!(tally.entries()[1].yield_count(), 4);
  assert_eq!(
    tally.entries()[1].stabilize_count()
      + tally.entries()[1].contest_count()
      + tally.entries()[1].yield_count()
      + tally.entries()[1].recall_count()
      + tally.entries()[1].withdraw_count(),
    tally.entries()[1].observation_count()
  );
  assert_eq!(
    tally,
    ScriptedAgentMatchedScenarioTallyReport::from_sample(&sample)
  );
  let encoded = tally.encode();
  assert_eq!(
    encoded,
    "schema=m6-scripted-agent-matched-scenario-tally-v1\nobserver=1\npair_count=2\nobservation_count=4\nentries=2\nrow=cautious-laner-v1|threat-first-pressure-aware-fixed-score-v1|2|0|0|0|2\nrow=yielding-laner-v1|yield-first-fixed-score-v1|0|0|4|0|0\n"
  );
  assert_eq!(
    ScriptedAgentMatchedScenarioTallyReport::decode(&encoded, &tally),
    Ok(tally.clone())
  );
  for malformed in [
    (
      encoded.replacen(
        "schema=m6-scripted-agent-matched-scenario-tally-v1",
        "schema=other",
        1,
      ),
      ScriptedAgentMatchedScenarioTallyCodecError::UnsupportedSchema,
    ),
    (
      encoded.replacen("entries=2", "unknown=2", 1),
      ScriptedAgentMatchedScenarioTallyCodecError::UnknownField,
    ),
    (
      encoded.replacen("cautious-laner-v1", "unknown-profile", 1),
      ScriptedAgentMatchedScenarioTallyCodecError::InvalidValue,
    ),
    (
      encoded.replacen(
        "entries=2",
        "schema=m6-scripted-agent-matched-scenario-tally-v1",
        1,
      ),
      ScriptedAgentMatchedScenarioTallyCodecError::DuplicateField,
    ),
    (
      encoded.replacen("entries=2\n", "", 1),
      ScriptedAgentMatchedScenarioTallyCodecError::MissingField,
    ),
    (
      format!(
        "{encoded}row=cautious-laner-v1|threat-first-pressure-aware-fixed-score-v1|2|0|0|0|2\n"
      ),
      ScriptedAgentMatchedScenarioTallyCodecError::UnexpectedLineCount {
        expected: 7,
        actual: 8,
      },
    ),
    (
      encoded.replacen(
        "row=cautious-laner-v1|threat-first-pressure-aware-fixed-score-v1|2|0|0|0|2",
        "row=cautious-laner-v1|threat-first-pressure-aware-fixed-score-v1|oops|0|0|0|2",
        1,
      ),
      ScriptedAgentMatchedScenarioTallyCodecError::InvalidValue,
    ),
    (
      encoded.replacen(
        "yielding-laner-v1|yield-first-fixed-score-v1",
        "yielding-laner-v1|contest-first-fixed-score-v1",
        1,
      ),
      ScriptedAgentMatchedScenarioTallyCodecError::InvalidValue,
    ),
    (
      encoded.replacen(
        "row=cautious-laner-v1|threat-first-pressure-aware-fixed-score-v1|2|0|0|0|2",
        "row=cautious-laner-v1|threat-first-pressure-aware-fixed-score-v1|1|0|0|0|2",
        1,
      ),
      ScriptedAgentMatchedScenarioTallyCodecError::InvalidValue,
    ),
    (
      encoded.replacen("pair_count=2", "pair_count=0", 1),
      ScriptedAgentMatchedScenarioTallyCodecError::InvalidValue,
    ),
    (
      encoded.replacen("pair_count=2", "pair_count=5", 1),
      ScriptedAgentMatchedScenarioTallyCodecError::InvalidValue,
    ),
    (
      encoded.replacen("observation_count=4", "observation_count=3", 1),
      ScriptedAgentMatchedScenarioTallyCodecError::InvalidValue,
    ),
    (
      encoded.replacen("entries=2", "entries=0", 1),
      ScriptedAgentMatchedScenarioTallyCodecError::InvalidValue,
    ),
    (
      encoded.replacen("entries=2", "entries=17", 1),
      ScriptedAgentMatchedScenarioTallyCodecError::InvalidValue,
    ),
    (
      encoded.replacen(
        "row=cautious-laner-v1|threat-first-pressure-aware-fixed-score-v1|2|0|0|0|2",
        "row=cautious-laner-v1|threat-first-pressure-aware-fixed-score-v1|2|0|0",
        1,
      ),
      ScriptedAgentMatchedScenarioTallyCodecError::InvalidValue,
    ),
  ] {
    assert_eq!(
      ScriptedAgentMatchedScenarioTallyReport::decode(&malformed.0, &tally),
      Err(malformed.1)
    );
  }
  assert_eq!(
    ScriptedAgentMatchedScenarioTallyReport::decode(
      &"x".repeat(MAX_SCRIPTED_AGENT_MATCHED_SCENARIO_TALLY_BYTES + 1),
      &tally,
    ),
    Err(ScriptedAgentMatchedScenarioTallyCodecError::Oversized)
  );
  assert_eq!(
    ScriptedAgentMatchedScenarioTallyReport::decode(
      &encoded.replacen("observer=1", "observer=255", 1),
      &tally,
    ),
    Err(ScriptedAgentMatchedScenarioTallyCodecError::InputMismatch)
  );
  assert_eq!(
    ScriptedAgentMatchedScenarioTallyReport::decode(
      &encoded.replacen(
        "row=yielding-laner-v1|yield-first-fixed-score-v1|0|0|4|0|0",
        "row=yielding-laner-v1|yield-first-fixed-score-v1|0|0|2|2|0",
        1,
      ),
      &tally,
    ),
    Err(ScriptedAgentMatchedScenarioTallyCodecError::InputMismatch)
  );

  let at_capacity = [
    [
      observe_player(&initial, ObservationId::new(80)).observation(),
      observe_player(&threat, ObservationId::new(81)).observation(),
    ],
    [
      observe_player(&initial, ObservationId::new(82)).observation(),
      observe_player(&threat, ObservationId::new(83)).observation(),
    ],
    [
      observe_player(&initial, ObservationId::new(84)).observation(),
      observe_player(&threat, ObservationId::new(85)).observation(),
    ],
    [
      observe_player(&initial, ObservationId::new(86)).observation(),
      observe_player(&threat, ObservationId::new(87)).observation(),
    ],
  ];
  let capacity_sample =
    ScriptedAgentMatchedScenarioSample::from_observations(&at_capacity, &manifests)
      .expect("inclusive sample cap runs");
  assert_eq!(
    capacity_sample.samples().len(),
    MAX_SCRIPTED_AGENT_MATCHED_SCENARIO_SAMPLES
  );
  assert_eq!(
    capacity_sample.samples()[3].observation_ids(),
    &[ObservationId::new(86), ObservationId::new(87)]
  );
  let capacity_tally = ScriptedAgentMatchedScenarioTallyReport::from_sample(&capacity_sample);
  assert_eq!(capacity_tally.pair_count(), 4);
  assert_eq!(capacity_tally.observation_count(), 8);
  assert_eq!(capacity_tally.entries().len(), 2);
  assert_eq!(capacity_tally.entries()[0].stabilize_count(), 4);
  assert_eq!(capacity_tally.entries()[0].withdraw_count(), 4);
  assert_eq!(capacity_tally.entries()[1].yield_count(), 8);
  for entry in capacity_tally.entries() {
    assert_eq!(
      entry.stabilize_count()
        + entry.contest_count()
        + entry.yield_count()
        + entry.recall_count()
        + entry.withdraw_count(),
      8
    );
  }
  let capacity_encoded = capacity_tally.encode();
  assert_eq!(
    ScriptedAgentMatchedScenarioTallyReport::decode(&capacity_encoded, &capacity_tally),
    Ok(capacity_tally.clone())
  );

  let max_manifest_batch = [manifests[0]; MAX_SCRIPTED_AGENT_BATCH_MANIFESTS];
  let max_entry_sample =
    ScriptedAgentMatchedScenarioSample::from_observations(&[pairs[0]], &max_manifest_batch)
      .expect("inclusive entry cap runs");
  let max_entry_tally = ScriptedAgentMatchedScenarioTallyReport::from_sample(&max_entry_sample);
  assert_eq!(max_entry_tally.pair_count(), 1);
  assert_eq!(max_entry_tally.observation_count(), 2);
  assert_eq!(
    max_entry_tally.entries().len(),
    MAX_SCRIPTED_AGENT_BATCH_MANIFESTS
  );
  let max_entry_encoded = max_entry_tally.encode();
  assert_eq!(
    ScriptedAgentMatchedScenarioTallyReport::decode(&max_entry_encoded, &max_entry_tally),
    Ok(max_entry_tally)
  );

  assert_eq!(
    ScriptedAgentMatchedScenarioSample::from_observations(&[], &manifests),
    Err(ScriptedAgentMatchedScenarioSampleError::EmptySample)
  );
  let too_many = [pairs[0]; MAX_SCRIPTED_AGENT_MATCHED_SCENARIO_SAMPLES + 1];
  assert_eq!(
    ScriptedAgentMatchedScenarioSample::from_observations(&too_many, &manifests),
    Err(ScriptedAgentMatchedScenarioSampleError::SampleTooLarge {
      max: MAX_SCRIPTED_AGENT_MATCHED_SCENARIO_SAMPLES,
      actual: MAX_SCRIPTED_AGENT_MATCHED_SCENARIO_SAMPLES + 1,
    })
  );
  let mut mixed = pairs;
  mixed[1][1].observer = ActorId::new(ALLIED_AUTONOMOUS_ACTOR_ID);
  assert_eq!(
    ScriptedAgentMatchedScenarioSample::from_observations(&mixed, &manifests),
    Err(ScriptedAgentMatchedScenarioSampleError::MismatchedObserver)
  );
  let duplicate = [
    pairs[0],
    [
      pairs[1][0],
      observe_player(&threat, ObservationId::new(70)).observation(),
    ],
  ];
  assert_eq!(
    ScriptedAgentMatchedScenarioSample::from_observations(&duplicate, &manifests),
    Err(ScriptedAgentMatchedScenarioSampleError::DuplicateObservationId)
  );
}
