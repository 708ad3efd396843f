use laner_agent::fixture::{MAX_SCRIPTED_AGENT_DEGENERATE_POLICY_POPULATION, MAX_SCRIPTED_AGENT_EXPLOIT_SEEKING_POPULATION, MAX_SCRIPTED_AGENT_FIXTURE_SCENARIOS, MAX_SCRIPTED_AGENT_FIXTURE_SCENARIO_FREQUENCY_BYTES, SCRIPTED_AGENT_DEGENERATE_POLICY_POPULATION_SCHEMA, SCRIPTED_AGENT_EXPLOIT_SEEKING_POPULATION_SCHEMA, SCRIPTED_AGENT_FIXTURE_POPULATION_SCHEMA, SCRIPTED_AGENT_FIXTURE_SCENARIO_CATALOG_SCHEMA, SCRIPTED_AGENT_FIXTURE_SCENARIO_FREQUENCY_COMPARISON_SCHEMA, SCRIPTED_AGENT_FIXTURE_SCENARIO_FREQUENCY_SCHEMA, SCRIPTED_AGENT_RIVER_SIDE_FIXTURE_SCENARIO_ID, SCRIPTED_AGENT_SAFE_FIXTURE_SCENARIO_ID, SCRIPTED_AGENT_STRESS_POPULATION_SCHEMA, ScriptedAgentDegeneratePolicyPopulationError, ScriptedAgentDegeneratePolicyPopulationReport, ScriptedAgentExploitSeekingPopulationError, ScriptedAgentExploitSeekingPopulationReport, ScriptedAgentFixturePopulationError, ScriptedAgentFixtureScenario, ScriptedAgentFixtureScenarioFrequencyCodecError, ScriptedAgentFixtureScenarioFrequencyComparisonReport, ScriptedAgentFixtureScenarioFrequencyReport, ScriptedAgentFixtureScenarioPopulation, ScriptedAgentFixtureScenarioSelection, ScriptedAgentFixtureScenarioSelectionError, ScriptedAgentStressPopulationError, ScriptedAgentStressPopulationReport, ScriptedAgentStressResult};
use laner_agent::lane::{ALLIED_AUTONOMOUS_ACTOR_ID, ActorId, DrawId, LaneIntent, LaneSnapshot, LanerObservation, ObservationId, StreamId, observe_player};
use laner_agent::operational::{ScriptedAgentBuildComparisonError, ScriptedAgentBuildId};
use laner_agent::policy::{ScriptedAgent};
use laner_agent::profile::{RISK_TAKING_SCRIPTED_AGENT_PROFILE_ID, SCRIPTED_AGENT_PROFILE_ID, ScriptedAgentExperimentManifest, ScriptedAgentProfile, ScriptedAgentSeedBundle, YIELDING_SCRIPTED_AGENT_PROFILE_ID};
use laner_agent::sample::{SCRIPTED_AGENT_SCENARIO_DISTRIBUTION_SCALE, ScriptedAgentMatchedScenarioTallyCodecError, ScriptedAgentMatchedScenarioTallyReport};
#[test]
fn fixture_scenario_selection_is_closed_ordered_and_bounded() {
  let scenario_ids = [
    SCRIPTED_AGENT_SAFE_FIXTURE_SCENARIO_ID,
    SCRIPTED_AGENT_RIVER_SIDE_FIXTURE_SCENARIO_ID,
    SCRIPTED_AGENT_SAFE_FIXTURE_SCENARIO_ID,
    SCRIPTED_AGENT_RIVER_SIDE_FIXTURE_SCENARIO_ID,
  ];
  let observation_ids = [
    [ObservationId::new(100), ObservationId::new(101)],
    [ObservationId::new(102), ObservationId::new(103)],
    [ObservationId::new(104), ObservationId::new(105)],
    [ObservationId::new(106), ObservationId::new(107)],
  ];
  let selection =
    ScriptedAgentFixtureScenarioSelection::from_ids(&scenario_ids, &observation_ids)
      .expect("closed fixture selection builds");
  assert_eq!(
    [
      SCRIPTED_AGENT_SAFE_FIXTURE_SCENARIO_ID,
      SCRIPTED_AGENT_RIVER_SIDE_FIXTURE_SCENARIO_ID,
    ],
    ["safe-fixture-v1", "river-side-threat-v1"]
  );
  assert_eq!(
    SCRIPTED_AGENT_FIXTURE_SCENARIO_CATALOG_SCHEMA,
    "m6-scripted-agent-fixture-scenarios-v1"
  );
  assert_eq!(
    selection.schema(),
    SCRIPTED_AGENT_FIXTURE_SCENARIO_CATALOG_SCHEMA
  );
  assert_eq!(
    selection
      .scenarios()
      .iter()
      .map(|scenario| scenario.id())
      .collect::<Vec<_>>(),
    scenario_ids
  );
  assert_eq!(selection.observation_ids(), &observation_ids);
  assert_eq!(selection.observations(), selection.observations());
  let observations = selection.observations();
  assert_eq!(observations.len(), 4);
  assert_eq!(observations[0][0].observation_id(), ObservationId::new(100));
  assert_eq!(observations[1][1].observation_id(), ObservationId::new(103));
  assert_eq!(observations[0][1].available_threat_response(), None);
  assert_eq!(
    observations[1][1].available_threat_response(),
    Some(LaneIntent::Withdraw)
  );

  let manifests = [ScriptedAgentExperimentManifest::new(
    ScriptedAgentProfile::cautious_v1(),
    ScriptedAgentSeedBundle::new(31, StreamId::new(32), DrawId::new(33)),
  )];
  let sample = selection
    .matched_sample(&manifests)
    .expect("selected fixture samples compose");
  assert_eq!(sample.samples().len(), 4);
  assert_eq!(
    sample,
    ScriptedAgentFixtureScenarioSelection::from_ids(&scenario_ids, &observation_ids)
      .expect("selection repeats")
      .matched_sample(&manifests)
      .expect("repeated samples compose")
  );

  assert_eq!(MAX_SCRIPTED_AGENT_FIXTURE_SCENARIOS, 4);
  let population = ScriptedAgentFixtureScenarioPopulation::generate(4, 200)
    .expect("maximum fixed-fixture population builds");
  assert_eq!(
    SCRIPTED_AGENT_FIXTURE_POPULATION_SCHEMA,
    "m6-scripted-agent-fixture-population-v1"
  );
  assert_eq!(
    population.schema(),
    SCRIPTED_AGENT_FIXTURE_POPULATION_SCHEMA
  );
  assert_eq!(population.scenarios(), selection.scenarios());
  assert_eq!(
    population.observation_ids(),
    &[
      [ObservationId::new(200), ObservationId::new(201)],
      [ObservationId::new(202), ObservationId::new(203)],
      [ObservationId::new(204), ObservationId::new(205)],
      [ObservationId::new(206), ObservationId::new(207)],
    ]
  );
  assert_eq!(
    population,
    ScriptedAgentFixtureScenarioPopulation::generate(4, 200).expect("repeated population builds")
  );
  assert_eq!(
    population.matched_sample(&manifests),
    population.selection().matched_sample(&manifests)
  );
  let boundary_population = ScriptedAgentFixtureScenarioPopulation::generate(4, u64::MAX - 7)
    .expect("maximum observation IDs fit the population");
  assert_eq!(
    boundary_population.observation_ids().last(),
    Some(&[
      ObservationId::new(u64::MAX - 1),
      ObservationId::new(u64::MAX),
    ])
  );
  assert_eq!(
    ScriptedAgentFixtureScenarioPopulation::generate(0, 200),
    Err(ScriptedAgentFixturePopulationError::EmptyPopulation)
  );
  assert_eq!(
    ScriptedAgentFixtureScenarioPopulation::generate(
      MAX_SCRIPTED_AGENT_FIXTURE_SCENARIOS + 1,
      200,
    ),
    Err(ScriptedAgentFixturePopulationError::PopulationTooLarge {
      max: MAX_SCRIPTED_AGENT_FIXTURE_SCENARIOS,
      actual: MAX_SCRIPTED_AGENT_FIXTURE_SCENARIOS + 1,
    })
  );
  assert_eq!(
    ScriptedAgentFixtureScenarioPopulation::generate(1, u64::MAX),
    Err(ScriptedAgentFixturePopulationError::ObservationIdOverflow)
  );

  assert_eq!(
    ScriptedAgentFixtureScenarioSelection::from_ids(&[], &[]),
    Err(ScriptedAgentFixtureScenarioSelectionError::EmptySelection)
  );
  assert_eq!(
    ScriptedAgentFixtureScenarioSelection::from_ids(
      &["unknown-fixture-v1"],
      &[[ObservationId::new(108), ObservationId::new(109)]],
    ),
    Err(ScriptedAgentFixtureScenarioSelectionError::UnknownScenario)
  );
  assert_eq!(
    ScriptedAgentFixtureScenarioSelection::from_ids(
      &[SCRIPTED_AGENT_SAFE_FIXTURE_SCENARIO_ID],
      &[],
    ),
    Err(
      ScriptedAgentFixtureScenarioSelectionError::MismatchedObservationPairCount {
        expected: 1,
        actual: 0,
      }
    )
  );
  assert_eq!(
    ScriptedAgentFixtureScenarioSelection::from_ids(
      &[SCRIPTED_AGENT_SAFE_FIXTURE_SCENARIO_ID],
      &[[ObservationId::new(110), ObservationId::new(110)]],
    ),
    Err(ScriptedAgentFixtureScenarioSelectionError::DuplicateObservationId)
  );
  assert_eq!(
    ScriptedAgentFixtureScenarioSelection::from_ids(
      &[
        SCRIPTED_AGENT_SAFE_FIXTURE_SCENARIO_ID,
        SCRIPTED_AGENT_RIVER_SIDE_FIXTURE_SCENARIO_ID,
      ],
      &[
        [ObservationId::new(112), ObservationId::new(113)],
        [ObservationId::new(114), ObservationId::new(112)],
      ],
    ),
    Err(ScriptedAgentFixtureScenarioSelectionError::DuplicateObservationId)
  );
  let too_many_scenarios =
    [SCRIPTED_AGENT_SAFE_FIXTURE_SCENARIO_ID; MAX_SCRIPTED_AGENT_FIXTURE_SCENARIOS + 1];
  let too_many_ids = (0..=MAX_SCRIPTED_AGENT_FIXTURE_SCENARIOS)
    .map(|index| {
      let offset = u64::try_from(index).expect("fixture index fits in u64") * 2;
      [
        ObservationId::new(120 + offset),
        ObservationId::new(121 + offset),
      ]
    })
    .collect::<Vec<_>>();
  assert_eq!(
    ScriptedAgentFixtureScenarioSelection::from_ids(&too_many_scenarios, &too_many_ids,),
    Err(
      ScriptedAgentFixtureScenarioSelectionError::SelectionTooLarge {
        max: MAX_SCRIPTED_AGENT_FIXTURE_SCENARIOS,
        actual: MAX_SCRIPTED_AGENT_FIXTURE_SCENARIOS + 1,
      }
    )
  );
}

#[test]
fn caller_declared_population_composition_preserves_order_and_frequency() {
  let population = ScriptedAgentFixtureScenarioPopulation::generate_from_scenario_ids(
    &[
      SCRIPTED_AGENT_SAFE_FIXTURE_SCENARIO_ID,
      SCRIPTED_AGENT_SAFE_FIXTURE_SCENARIO_ID,
      SCRIPTED_AGENT_SAFE_FIXTURE_SCENARIO_ID,
      SCRIPTED_AGENT_RIVER_SIDE_FIXTURE_SCENARIO_ID,
    ],
    220,
  )
  .expect("caller-declared composition builds");
  assert_eq!(
    population.scenarios(),
    &[
      ScriptedAgentFixtureScenario::Safe,
      ScriptedAgentFixtureScenario::Safe,
      ScriptedAgentFixtureScenario::Safe,
      ScriptedAgentFixtureScenario::RiverSideThreat,
    ]
  );
  assert_eq!(
    population.observation_ids(),
    &[
      [ObservationId::new(220), ObservationId::new(221)],
      [ObservationId::new(222), ObservationId::new(223)],
      [ObservationId::new(224), ObservationId::new(225)],
      [ObservationId::new(226), ObservationId::new(227)],
    ]
  );
  let frequency =
    ScriptedAgentFixtureScenarioFrequencyReport::from_selection(population.selection());
  assert_eq!(frequency.entries()[0].count(), 3);
  assert_eq!(frequency.entries()[1].count(), 1);
  let manifests = [ScriptedAgentExperimentManifest::new(
    ScriptedAgentProfile::cautious_v1(),
    ScriptedAgentSeedBundle::new(41, StreamId::new(42), DrawId::new(43)),
  )];
  assert_eq!(
    population.matched_sample(&manifests),
    population.selection().matched_sample(&manifests)
  );
  let tally = population
    .matched_tally(&manifests)
    .expect("caller-declared population tallies");
  assert_eq!(tally.pair_count(), 4);
  assert_eq!(tally.observation_count(), 8);
  assert_eq!(tally.entries().len(), 1);
  assert_eq!(tally.entries()[0].stabilize_count(), 7);
  assert_eq!(tally.entries()[0].withdraw_count(), 1);
  assert_eq!(
    ScriptedAgentFixtureScenarioPopulation::generate_from_scenario_ids(&[], u64::MAX),
    Err(ScriptedAgentFixturePopulationError::EmptyPopulation)
  );
  assert_eq!(
    ScriptedAgentFixtureScenarioPopulation::generate_from_scenario_ids(
      &["unknown-fixture-v1"; MAX_SCRIPTED_AGENT_FIXTURE_SCENARIOS + 1],
      u64::MAX,
    ),
    Err(ScriptedAgentFixturePopulationError::PopulationTooLarge {
      max: MAX_SCRIPTED_AGENT_FIXTURE_SCENARIOS,
      actual: MAX_SCRIPTED_AGENT_FIXTURE_SCENARIOS + 1,
    })
  );
  assert_eq!(
    ScriptedAgentFixtureScenarioPopulation::generate_from_scenario_ids(
      &["unknown-fixture-v1"],
      u64::MAX,
    ),
    Err(ScriptedAgentFixturePopulationError::InvalidSelection(
      ScriptedAgentFixtureScenarioSelectionError::UnknownScenario,
    ))
  );
  assert_eq!(
    ScriptedAgentFixtureScenarioPopulation::generate_from_scenario_ids(
      &[SCRIPTED_AGENT_SAFE_FIXTURE_SCENARIO_ID],
      u64::MAX,
    ),
    Err(ScriptedAgentFixturePopulationError::ObservationIdOverflow)
  );
}

#[test]
fn profile_aware_population_tally_preserves_rows_and_counts() {
  let population = ScriptedAgentFixtureScenarioPopulation::generate_from_scenario_ids(
    &[
      SCRIPTED_AGENT_SAFE_FIXTURE_SCENARIO_ID,
      SCRIPTED_AGENT_SAFE_FIXTURE_SCENARIO_ID,
      SCRIPTED_AGENT_SAFE_FIXTURE_SCENARIO_ID,
      SCRIPTED_AGENT_RIVER_SIDE_FIXTURE_SCENARIO_ID,
    ],
    230,
  )
  .expect("profile-aware population builds");
  let manifests = [
    ScriptedAgentExperimentManifest::new(
      ScriptedAgentProfile::cautious_v1(),
      ScriptedAgentSeedBundle::new(51, StreamId::new(52), DrawId::new(53)),
    ),
    ScriptedAgentExperimentManifest::new(
      ScriptedAgentProfile::risk_taking_v1(),
      ScriptedAgentSeedBundle::new(54, StreamId::new(55), DrawId::new(56)),
    ),
    ScriptedAgentExperimentManifest::new(
      ScriptedAgentProfile::yielding_v1(),
      ScriptedAgentSeedBundle::new(57, StreamId::new(58), DrawId::new(59)),
    ),
  ];
  let tally = population
    .matched_tally(&manifests)
    .expect("profile-aware population tallies");
  assert_eq!(tally.pair_count(), 4);
  assert_eq!(tally.observation_count(), 8);
  assert_eq!(
    tally
      .entries()
      .iter()
      .map(|entry| entry.profile_id())
      .collect::<Vec<_>>(),
    vec![
      SCRIPTED_AGENT_PROFILE_ID,
      RISK_TAKING_SCRIPTED_AGENT_PROFILE_ID,
      YIELDING_SCRIPTED_AGENT_PROFILE_ID,
    ]
  );
  assert_eq!(tally.entries()[0].stabilize_count(), 7);
  assert_eq!(tally.entries()[0].withdraw_count(), 1);
  assert_eq!(tally.entries()[1].contest_count(), 8);
  assert_eq!(tally.entries()[2].yield_count(), 8);
  assert_eq!(
    tally.entries()[0].intent_distribution_basis_points(),
    [8_750, 0, 0, 0, 1_250]
  );
  assert_eq!(
    tally.entries()[1].intent_distribution_basis_points(),
    [0, 10_000, 0, 0, 0]
  );
  assert_eq!(
    tally.entries()[2].intent_distribution_basis_points(),
    [0, 0, 10_000, 0, 0]
  );
  assert_eq!(
    tally
      .entries()
      .iter()
      .map(|entry| entry.intent_distribution_basis_points().iter().sum::<u16>())
      .collect::<Vec<_>>(),
    vec![10_000, 10_000, 10_000]
  );
  assert_eq!(
    tally.to_intent_distribution_markdown(),
    "# Profile Intent Distribution\n\n- schema: m6-scripted-agent-matched-scenario-tally-v1\n- observer: 1\n\n| profile_id | evaluation_rule | observation_count | stabilize_bp | contest_bp | yield_bp | recall_bp | withdraw_bp |\n| --- | --- | ---: | ---: | ---: | ---: | ---: | ---: |\n| cautious-laner-v1 | threat-first-pressure-aware-fixed-score-v1 | 8 | 8750 | 0 | 0 | 0 | 1250 |\n| risk-taking-laner-v1 | contest-first-fixed-score-v1 | 8 | 0 | 10000 | 0 | 0 | 0 |\n| yielding-laner-v1 | yield-first-fixed-score-v1 | 8 | 0 | 0 | 10000 | 0 | 0 |\n"
  );
  let remainder_population = ScriptedAgentFixtureScenarioPopulation::generate_from_scenario_ids(
    &[
      SCRIPTED_AGENT_SAFE_FIXTURE_SCENARIO_ID,
      SCRIPTED_AGENT_SAFE_FIXTURE_SCENARIO_ID,
      SCRIPTED_AGENT_RIVER_SIDE_FIXTURE_SCENARIO_ID,
    ],
    238,
  )
  .expect("remainder population builds");
  let remainder_manifest = [ScriptedAgentExperimentManifest::new(
    ScriptedAgentProfile::cautious_v1(),
    ScriptedAgentSeedBundle::new(60, StreamId::new(61), DrawId::new(62)),
  )];
  let remainder_tally = remainder_population
    .matched_tally(&remainder_manifest)
    .expect("remainder tally builds");
  assert_eq!(remainder_tally.observation_count(), 6);
  assert_eq!(
    remainder_tally.entries()[0].intent_distribution_basis_points(),
    [8_333, 0, 0, 0, 1_667]
  );
  assert_eq!(
    remainder_tally.entries()[0]
      .intent_distribution_basis_points()
      .iter()
      .sum::<u16>(),
    SCRIPTED_AGENT_SCENARIO_DISTRIBUTION_SCALE
  );
  assert_eq!(
    tally
      .entries()
      .iter()
      .map(|entry| {
        u16::from(entry.stabilize_count())
          + u16::from(entry.contest_count())
          + u16::from(entry.yield_count())
          + u16::from(entry.recall_count())
          + u16::from(entry.withdraw_count())
      })
      .collect::<Vec<_>>(),
    vec![8, 8, 8]
  );
}

#[test]
fn scripted_agent_stress_population_catalog_is_closed_and_reproducible() {
  let state = LaneSnapshot::initial();
  let first_receipt = observe_player(&state, ObservationId::new(410));
  let first_observation = first_receipt.observation();
  let second_receipt = observe_player(&state, ObservationId::new(411));
  let choices = [
    ScriptedAgent::cautious_v1().decide(first_observation),
    ScriptedAgent::cautious_v1().decide(second_receipt.observation()),
  ];
  let degenerate_stabilize_count = u8::try_from(
    choices
      .iter()
      .filter(|choice| choice.selected_intent() == LaneIntent::Stabilize)
      .count(),
  )
  .expect("bounded degenerate count fits in u8");
  assert_eq!(degenerate_stabilize_count, 2);

  let results = [
    ScriptedAgentStressResult::HostValidationRejected,
    ScriptedAgentStressResult::StaleObservation,
    ScriptedAgentStressResult::MessageInvalidValue,
    ScriptedAgentStressResult::RepeatedStabilize,
  ];
  let report =
    ScriptedAgentStressPopulationReport::from_results(results, degenerate_stabilize_count)
      .expect("stress report binds expected results");
  assert_eq!(
    SCRIPTED_AGENT_STRESS_POPULATION_SCHEMA,
    "m6-scripted-agent-stress-population-v1"
  );
  assert_eq!(report.schema(), SCRIPTED_AGENT_STRESS_POPULATION_SCHEMA);
  assert_eq!(report.degenerate_stabilize_count(), 2);
  assert_eq!(
    report
      .entries()
      .iter()
      .map(|entry| (entry.case().id(), entry.result().id()))
      .collect::<Vec<_>>(),
    vec![
      ("illegal-command-v1", "host_validation_rejected"),
      ("exploit-seeking-v1", "stale_observation"),
      ("communication-abuse-v1", "message_invalid_value"),
      ("degenerate-policy-v1", "repeated_stabilize"),
    ]
  );
  assert_eq!(
    report.to_markdown(),
    "# Scripted Agent Stress Population\n\n- schema: m6-scripted-agent-stress-population-v1\n- degenerate_stabilize_count: 2\n\n| case_id | result_id |\n| --- | --- |\n| illegal-command-v1 | host_validation_rejected |\n| exploit-seeking-v1 | stale_observation |\n| communication-abuse-v1 | message_invalid_value |\n| degenerate-policy-v1 | repeated_stabilize |\n"
  );
  assert_eq!(
    ScriptedAgentStressPopulationReport::from_results(results, 2),
    Ok(report.clone())
  );
  assert_eq!(
    ScriptedAgentStressPopulationReport::from_results(
      [
        ScriptedAgentStressResult::RepeatedStabilize,
        ScriptedAgentStressResult::StaleObservation,
        ScriptedAgentStressResult::MessageInvalidValue,
        ScriptedAgentStressResult::RepeatedStabilize,
      ],
      2,
    ),
    Err(ScriptedAgentStressPopulationError::UnexpectedResult)
  );
  assert_eq!(
    ScriptedAgentStressPopulationReport::from_results(results, 0),
    Err(ScriptedAgentStressPopulationError::InvalidDegenerateCount)
  );
  assert!(ScriptedAgentStressPopulationReport::from_results(results, 4).is_ok());
  assert_eq!(
    ScriptedAgentStressPopulationReport::from_results(results, 5),
    Err(ScriptedAgentStressPopulationError::InvalidDegenerateCount)
  );
}

#[test]
fn degenerate_policy_population_is_bounded_and_actor_visible() {
  let state = LaneSnapshot::initial();
  let observations = (0..MAX_SCRIPTED_AGENT_DEGENERATE_POLICY_POPULATION)
    .map(|offset| {
      observe_player(
        &state,
        ObservationId::new(700 + u64::try_from(offset).expect("offset fits")),
      )
      .observation()
    })
    .collect::<Vec<_>>();
  let report = ScriptedAgentDegeneratePolicyPopulationReport::from_observations(&observations)
    .expect("fixed cautious observations repeat Stabilize");
  assert_eq!(
    SCRIPTED_AGENT_DEGENERATE_POLICY_POPULATION_SCHEMA,
    "m6-scripted-agent-degenerate-policy-population-v1"
  );
  assert_eq!(
    report.schema(),
    SCRIPTED_AGENT_DEGENERATE_POLICY_POPULATION_SCHEMA
  );
  assert_eq!(report.profile_id(), "cautious-laner-v1");
  assert_eq!(
    report.evaluation_rule(),
    "threat-first-pressure-aware-fixed-score-v1"
  );
  assert_eq!(report.observer(), observations[0].observer());
  assert_eq!(report.observation_count(), 4);
  assert_eq!(report.selected_intent(), LaneIntent::Stabilize);
  let singleton =
    ScriptedAgentDegeneratePolicyPopulationReport::from_observations(&observations[..1])
      .expect("inclusive one-member population fits");
  assert_eq!(singleton.observation_count(), 1);
  assert_eq!(singleton.selected_intent(), LaneIntent::Stabilize);
  assert_eq!(
    ScriptedAgentDegeneratePolicyPopulationReport::from_observations(&observations),
    Ok(report)
  );
  assert_eq!(
    ScriptedAgentDegeneratePolicyPopulationReport::from_observations(&[]),
    Err(ScriptedAgentDegeneratePolicyPopulationError::EmptyPopulation)
  );
  assert_eq!(
    ScriptedAgentDegeneratePolicyPopulationReport::from_observations(&[
      observations[0],
      observations[0],
    ]),
    Err(ScriptedAgentDegeneratePolicyPopulationError::DuplicateObservationId)
  );
  let river_observation = ScriptedAgentFixtureScenario::RiverSideThreat
    .observations([ObservationId::new(900), ObservationId::new(901)])[1];
  assert_eq!(
    ScriptedAgentDegeneratePolicyPopulationReport::from_observations(&[river_observation]),
    Err(ScriptedAgentDegeneratePolicyPopulationError::UnexpectedIntent)
  );
  let too_many = (0..=MAX_SCRIPTED_AGENT_DEGENERATE_POLICY_POPULATION)
    .map(|offset| {
      observe_player(
        &state,
        ObservationId::new(800 + u64::try_from(offset).expect("offset fits")),
      )
      .observation()
    })
    .collect::<Vec<_>>();
  assert_eq!(
    ScriptedAgentDegeneratePolicyPopulationReport::from_observations(&too_many),
    Err(
      ScriptedAgentDegeneratePolicyPopulationError::PopulationTooLarge {
        max: MAX_SCRIPTED_AGENT_DEGENERATE_POLICY_POPULATION,
        actual: MAX_SCRIPTED_AGENT_DEGENERATE_POLICY_POPULATION + 1,
      }
    )
  );
}

#[test]
fn exploit_seeking_population_is_bounded_and_fixed_fixture_only() {
  let state = LaneSnapshot::initial();
  let observations = (0..MAX_SCRIPTED_AGENT_EXPLOIT_SEEKING_POPULATION)
    .map(|offset| {
      observe_player(
        &state,
        ObservationId::new(1_000 + u64::try_from(offset).expect("offset fits")),
      )
      .observation()
    })
    .collect::<Vec<_>>();
  let report = ScriptedAgentExploitSeekingPopulationReport::from_observations(&observations)
    .expect("risk-taking policy selects Contest in the safe fixture");
  assert_eq!(
    SCRIPTED_AGENT_EXPLOIT_SEEKING_POPULATION_SCHEMA,
    "m6-scripted-agent-exploit-seeking-population-v1"
  );
  assert_eq!(
    report.schema(),
    SCRIPTED_AGENT_EXPLOIT_SEEKING_POPULATION_SCHEMA
  );
  assert_eq!(report.profile_id(), "risk-taking-laner-v1");
  assert_eq!(report.evaluation_rule(), "contest-first-fixed-score-v1");
  assert_eq!(report.observer(), observations[0].observer());
  assert_eq!(report.observation_count(), 4);
  assert_eq!(report.selected_intent(), LaneIntent::Contest);
  let singleton =
    ScriptedAgentExploitSeekingPopulationReport::from_observations(&observations[..1])
      .expect("inclusive one-member population fits");
  assert_eq!(singleton.observation_count(), 1);
  assert_eq!(singleton.selected_intent(), LaneIntent::Contest);
  assert_eq!(
    ScriptedAgentExploitSeekingPopulationReport::from_observations(&observations),
    Ok(report)
  );
  assert_eq!(
    ScriptedAgentExploitSeekingPopulationReport::from_observations(&[]),
    Err(ScriptedAgentExploitSeekingPopulationError::EmptyPopulation)
  );
  assert_eq!(
    ScriptedAgentExploitSeekingPopulationReport::from_observations(&[
      observations[0],
      observations[0],
    ]),
    Err(ScriptedAgentExploitSeekingPopulationError::DuplicateObservationId)
  );
  let allied_observation = LanerObservation {
    observer: ActorId::new(ALLIED_AUTONOMOUS_ACTOR_ID),
    ..observations[0]
  };
  assert_eq!(
    ScriptedAgentExploitSeekingPopulationReport::from_observations(&[
      observations[0],
      allied_observation,
    ]),
    Err(ScriptedAgentExploitSeekingPopulationError::MismatchedObserver)
  );
  let too_many = (0..=MAX_SCRIPTED_AGENT_EXPLOIT_SEEKING_POPULATION)
    .map(|offset| {
      observe_player(
        &state,
        ObservationId::new(1_100 + u64::try_from(offset).expect("offset fits")),
      )
      .observation()
    })
    .collect::<Vec<_>>();
  assert_eq!(
    ScriptedAgentExploitSeekingPopulationReport::from_observations(&too_many),
    Err(
      ScriptedAgentExploitSeekingPopulationError::PopulationTooLarge {
        max: MAX_SCRIPTED_AGENT_EXPLOIT_SEEKING_POPULATION,
        actual: MAX_SCRIPTED_AGENT_EXPLOIT_SEEKING_POPULATION + 1,
      }
    )
  );
}

#[test]
fn profile_aware_population_tally_codec_round_trips_verified_rows() {
  let population = ScriptedAgentFixtureScenarioPopulation::generate_from_scenario_ids(
    &[
      SCRIPTED_AGENT_SAFE_FIXTURE_SCENARIO_ID,
      SCRIPTED_AGENT_SAFE_FIXTURE_SCENARIO_ID,
      SCRIPTED_AGENT_SAFE_FIXTURE_SCENARIO_ID,
      SCRIPTED_AGENT_RIVER_SIDE_FIXTURE_SCENARIO_ID,
    ],
    240,
  )
  .expect("codec population builds");
  let manifests = [
    ScriptedAgentExperimentManifest::new(
      ScriptedAgentProfile::cautious_v1(),
      ScriptedAgentSeedBundle::new(61, StreamId::new(62), DrawId::new(63)),
    ),
    ScriptedAgentExperimentManifest::new(
      ScriptedAgentProfile::risk_taking_v1(),
      ScriptedAgentSeedBundle::new(64, StreamId::new(65), DrawId::new(66)),
    ),
    ScriptedAgentExperimentManifest::new(
      ScriptedAgentProfile::yielding_v1(),
      ScriptedAgentSeedBundle::new(67, StreamId::new(68), DrawId::new(69)),
    ),
  ];
  let tally = population
    .matched_tally(&manifests)
    .expect("codec tally builds");
  let encoded = tally.encode();
  assert!(encoded.starts_with("schema=m6-scripted-agent-matched-scenario-tally-v1\n"));
  assert!(encoded.contains("entries=3\n"));
  assert!(
    encoded
      .contains("row=cautious-laner-v1|threat-first-pressure-aware-fixed-score-v1|7|0|0|0|1\n")
  );
  assert!(encoded.contains("row=risk-taking-laner-v1|contest-first-fixed-score-v1|0|8|0|0|0\n"));
  assert!(encoded.contains("row=yielding-laner-v1|yield-first-fixed-score-v1|0|0|8|0|0\n"));
  assert_eq!(
    ScriptedAgentMatchedScenarioTallyReport::decode(&encoded, &tally),
    Ok(tally.clone())
  );
  let tampered = encoded.replace("|7|0|0|0|1\n", "|6|0|0|0|2\n");
  assert_eq!(
    ScriptedAgentMatchedScenarioTallyReport::decode(&tampered, &tally),
    Err(ScriptedAgentMatchedScenarioTallyCodecError::InputMismatch)
  );
}

#[test]
fn fixture_scenario_frequency_report_counts_ordered_selection() {
  let selection = ScriptedAgentFixtureScenarioSelection::from_ids(
    &[
      SCRIPTED_AGENT_SAFE_FIXTURE_SCENARIO_ID,
      SCRIPTED_AGENT_RIVER_SIDE_FIXTURE_SCENARIO_ID,
      SCRIPTED_AGENT_RIVER_SIDE_FIXTURE_SCENARIO_ID,
      SCRIPTED_AGENT_SAFE_FIXTURE_SCENARIO_ID,
    ],
    &[
      [ObservationId::new(130), ObservationId::new(131)],
      [ObservationId::new(132), ObservationId::new(133)],
      [ObservationId::new(134), ObservationId::new(135)],
      [ObservationId::new(136), ObservationId::new(137)],
    ],
  )
  .expect("frequency selection builds");
  let report = ScriptedAgentFixtureScenarioFrequencyReport::from_selection(&selection);
  assert_eq!(
    SCRIPTED_AGENT_FIXTURE_SCENARIO_FREQUENCY_SCHEMA,
    "m6-scripted-agent-fixture-frequency-v1"
  );
  assert_eq!(
    report.schema(),
    SCRIPTED_AGENT_FIXTURE_SCENARIO_FREQUENCY_SCHEMA
  );
  assert_eq!(report.selection_count(), 4);
  assert_eq!(report.entries()[0].scenario_id(), "safe-fixture-v1");
  assert_eq!(report.entries()[0].count(), 2);
  assert_eq!(report.entries()[1].scenario_id(), "river-side-threat-v1");
  assert_eq!(report.entries()[1].count(), 2);
  assert_eq!(
    report.entries()[0].count() + report.entries()[1].count(),
    report.selection_count()
  );
  assert_eq!(SCRIPTED_AGENT_SCENARIO_DISTRIBUTION_SCALE, 10_000);
  assert_eq!(report.distribution_basis_points(), [5_000, 5_000]);
  assert_eq!(
    report.distribution_basis_points().iter().sum::<u16>(),
    10_000
  );
  assert_eq!(
    report,
    ScriptedAgentFixtureScenarioFrequencyReport::from_selection(&selection)
  );
  let encoded = report.encode();
  assert_eq!(
    encoded,
    "schema=m6-scripted-agent-fixture-frequency-v1\nselection_count=4\nentries=2\nrow=safe-fixture-v1|2\nrow=river-side-threat-v1|2\n"
  );
  assert_eq!(
    report.to_markdown(),
    "# Scenario Frequency\n\n- schema: m6-scripted-agent-fixture-frequency-v1\n- selection_count: 4\n\n| scenario_id | count |\n| --- | ---: |\n| safe-fixture-v1 | 2 |\n| river-side-threat-v1 | 2 |\n"
  );
  assert_eq!(
    report.to_distribution_markdown(),
    "# Scenario Distribution\n\n- schema: m6-scripted-agent-fixture-frequency-v1\n- selection_count: 4\n- share_scale_basis_points: 10000\n\n| scenario_id | count | share_basis_points |\n| --- | ---: | ---: |\n| safe-fixture-v1 | 2 | 5000 |\n| river-side-threat-v1 | 2 | 5000 |\n"
  );
  assert_eq!(
    ScriptedAgentFixtureScenarioFrequencyReport::decode(&encoded, &report),
    Ok(report.clone())
  );

  let singleton = ScriptedAgentFixtureScenarioSelection::from_ids(
    &[SCRIPTED_AGENT_SAFE_FIXTURE_SCENARIO_ID],
    &[[ObservationId::new(140), ObservationId::new(141)]],
  )
  .expect("singleton selection builds");
  let singleton_report = ScriptedAgentFixtureScenarioFrequencyReport::from_selection(&singleton);
  assert_eq!(singleton_report.selection_count(), 1);
  assert_eq!(
    singleton_report.entries()[0].scenario_id(),
    "safe-fixture-v1"
  );
  assert_eq!(singleton_report.entries()[0].count(), 1);
  assert_eq!(
    singleton_report.entries()[1].scenario_id(),
    "river-side-threat-v1"
  );
  assert_eq!(singleton_report.entries()[1].count(), 0);
  assert_eq!(
    singleton_report.entries()[0].count() + singleton_report.entries()[1].count(),
    singleton_report.selection_count()
  );
  assert_eq!(singleton_report.distribution_basis_points(), [10_000, 0]);
  let singleton_encoded = singleton_report.encode();
  assert_eq!(
    singleton_report.to_markdown(),
    "# Scenario Frequency\n\n- schema: m6-scripted-agent-fixture-frequency-v1\n- selection_count: 1\n\n| scenario_id | count |\n| --- | ---: |\n| safe-fixture-v1 | 1 |\n| river-side-threat-v1 | 0 |\n"
  );
  assert_eq!(
    ScriptedAgentFixtureScenarioFrequencyReport::decode(&singleton_encoded, &singleton_report,),
    Ok(singleton_report.clone())
  );

  let skewed_selection = ScriptedAgentFixtureScenarioSelection::from_ids(
    &[
      SCRIPTED_AGENT_SAFE_FIXTURE_SCENARIO_ID,
      SCRIPTED_AGENT_RIVER_SIDE_FIXTURE_SCENARIO_ID,
      SCRIPTED_AGENT_RIVER_SIDE_FIXTURE_SCENARIO_ID,
      SCRIPTED_AGENT_RIVER_SIDE_FIXTURE_SCENARIO_ID,
    ],
    &[
      [ObservationId::new(142), ObservationId::new(143)],
      [ObservationId::new(144), ObservationId::new(145)],
      [ObservationId::new(146), ObservationId::new(147)],
      [ObservationId::new(148), ObservationId::new(149)],
    ],
  )
  .expect("skewed selection builds");
  let skewed_report =
    ScriptedAgentFixtureScenarioFrequencyReport::from_selection(&skewed_selection);
  assert_eq!(skewed_report.selection_count(), 4);
  assert_eq!(
    skewed_report
      .entries()
      .iter()
      .map(|entry| entry.count())
      .collect::<Vec<_>>(),
    vec![1, 3]
  );
  assert_eq!(skewed_report.distribution_basis_points(), [2_500, 7_500]);
  assert_eq!(
    skewed_report
      .distribution_basis_points()
      .iter()
      .sum::<u16>(),
    SCRIPTED_AGENT_SCENARIO_DISTRIBUTION_SCALE
  );
  assert_eq!(
    skewed_report.to_distribution_markdown(),
    "# Scenario Distribution\n\n- schema: m6-scripted-agent-fixture-frequency-v1\n- selection_count: 4\n- share_scale_basis_points: 10000\n\n| scenario_id | count | share_basis_points |\n| --- | ---: | ---: |\n| safe-fixture-v1 | 1 | 2500 |\n| river-side-threat-v1 | 3 | 7500 |\n"
  );

  let all_safe_selection = ScriptedAgentFixtureScenarioSelection::from_ids(
    &[
      SCRIPTED_AGENT_SAFE_FIXTURE_SCENARIO_ID,
      SCRIPTED_AGENT_SAFE_FIXTURE_SCENARIO_ID,
      SCRIPTED_AGENT_SAFE_FIXTURE_SCENARIO_ID,
      SCRIPTED_AGENT_SAFE_FIXTURE_SCENARIO_ID,
    ],
    &[
      [ObservationId::new(150), ObservationId::new(151)],
      [ObservationId::new(152), ObservationId::new(153)],
      [ObservationId::new(154), ObservationId::new(155)],
      [ObservationId::new(156), ObservationId::new(157)],
    ],
  )
  .expect("all-safe selection builds");
  let all_safe_report =
    ScriptedAgentFixtureScenarioFrequencyReport::from_selection(&all_safe_selection);
  assert_eq!(all_safe_report.distribution_basis_points(), [10_000, 0]);
  assert_eq!(
    all_safe_report.to_distribution_markdown(),
    "# Scenario Distribution\n\n- schema: m6-scripted-agent-fixture-frequency-v1\n- selection_count: 4\n- share_scale_basis_points: 10000\n\n| scenario_id | count | share_basis_points |\n| --- | ---: | ---: |\n| safe-fixture-v1 | 4 | 10000 |\n| river-side-threat-v1 | 0 | 0 |\n"
  );
  for malformed in [
    (
      encoded.replacen(
        "schema=m6-scripted-agent-fixture-frequency-v1",
        "schema=other",
        1,
      ),
      ScriptedAgentFixtureScenarioFrequencyCodecError::UnsupportedSchema,
    ),
    (
      encoded.replacen("entries=2", "unknown=2", 1),
      ScriptedAgentFixtureScenarioFrequencyCodecError::UnknownField,
    ),
    (
      encoded.replacen(
        "entries=2",
        "schema=m6-scripted-agent-fixture-frequency-v1",
        1,
      ),
      ScriptedAgentFixtureScenarioFrequencyCodecError::DuplicateField,
    ),
    (
      encoded.replacen("entries=2\n", "", 1),
      ScriptedAgentFixtureScenarioFrequencyCodecError::MissingField,
    ),
    (
      format!("{encoded}row=safe-fixture-v1|2\n"),
      ScriptedAgentFixtureScenarioFrequencyCodecError::UnexpectedLineCount {
        expected: 5,
        actual: 6,
      },
    ),
    (
      encoded.replacen("row=safe-fixture-v1|2", "row=unknown-fixture-v1|2", 1),
      ScriptedAgentFixtureScenarioFrequencyCodecError::InvalidValue,
    ),
    (
      encoded.replacen("row=safe-fixture-v1|2", "row=safe-fixture-v1|oops", 1),
      ScriptedAgentFixtureScenarioFrequencyCodecError::InvalidValue,
    ),
    (
      encoded.replacen("row=safe-fixture-v1|2", "row=safe-fixture-v1|1", 1),
      ScriptedAgentFixtureScenarioFrequencyCodecError::InvalidValue,
    ),
    (
      encoded.replacen("row=safe-fixture-v1|2", "row=safe-fixture-v1|255", 1),
      ScriptedAgentFixtureScenarioFrequencyCodecError::InvalidValue,
    ),
    (
      encoded.replacen("entries=2", "entries=3", 1),
      ScriptedAgentFixtureScenarioFrequencyCodecError::InvalidValue,
    ),
  ] {
    assert_eq!(
      ScriptedAgentFixtureScenarioFrequencyReport::decode(&malformed.0, &report),
      Err(malformed.1)
    );
  }
  assert_eq!(
    ScriptedAgentFixtureScenarioFrequencyReport::decode(
      &encoded.replacen(
        "row=safe-fixture-v1|2\nrow=river-side-threat-v1|2",
        "row=safe-fixture-v1|1\nrow=river-side-threat-v1|3",
        1,
      ),
      &report,
    ),
    Err(ScriptedAgentFixtureScenarioFrequencyCodecError::InputMismatch)
  );
  assert_eq!(
    ScriptedAgentFixtureScenarioFrequencyReport::decode(
      &"x".repeat(MAX_SCRIPTED_AGENT_FIXTURE_SCENARIO_FREQUENCY_BYTES + 1),
      &report,
    ),
    Err(ScriptedAgentFixtureScenarioFrequencyCodecError::Oversized)
  );
}

#[test]
fn fixture_frequency_report_comparison_preserves_declared_order_and_deltas() {
  let baseline_selection = ScriptedAgentFixtureScenarioSelection::from_ids(
    &[
      SCRIPTED_AGENT_SAFE_FIXTURE_SCENARIO_ID,
      SCRIPTED_AGENT_RIVER_SIDE_FIXTURE_SCENARIO_ID,
    ],
    &[
      [ObservationId::new(150), ObservationId::new(151)],
      [ObservationId::new(152), ObservationId::new(153)],
    ],
  )
  .expect("baseline selection builds");
  let candidate_selection = ScriptedAgentFixtureScenarioSelection::from_ids(
    &[
      SCRIPTED_AGENT_SAFE_FIXTURE_SCENARIO_ID,
      SCRIPTED_AGENT_SAFE_FIXTURE_SCENARIO_ID,
      SCRIPTED_AGENT_RIVER_SIDE_FIXTURE_SCENARIO_ID,
      SCRIPTED_AGENT_RIVER_SIDE_FIXTURE_SCENARIO_ID,
    ],
    &[
      [ObservationId::new(154), ObservationId::new(155)],
      [ObservationId::new(156), ObservationId::new(157)],
      [ObservationId::new(158), ObservationId::new(159)],
      [ObservationId::new(160), ObservationId::new(161)],
    ],
  )
  .expect("candidate selection builds");
  let baseline = ScriptedAgentFixtureScenarioFrequencyReport::from_selection(&baseline_selection);
  let candidate =
    ScriptedAgentFixtureScenarioFrequencyReport::from_selection(&candidate_selection);
  let comparison =
    ScriptedAgentFixtureScenarioFrequencyComparisonReport::from_reports(&baseline, &candidate);
  assert_eq!(
    SCRIPTED_AGENT_FIXTURE_SCENARIO_FREQUENCY_COMPARISON_SCHEMA,
    "m6-scripted-agent-fixture-frequency-compare-v1"
  );
  assert_eq!(
    comparison.schema(),
    "m6-scripted-agent-fixture-frequency-compare-v1"
  );
  assert_eq!(comparison.baseline_build_id(), None);
  assert_eq!(comparison.candidate_build_id(), None);
  assert_eq!(comparison.baseline_selection_count(), 2);
  assert_eq!(comparison.candidate_selection_count(), 4);
  assert_eq!(comparison.entries()[0].scenario_id(), "safe-fixture-v1");
  assert_eq!(comparison.entries()[0].baseline_count(), 1);
  assert_eq!(comparison.entries()[0].candidate_count(), 2);
  assert_eq!(comparison.entries()[0].delta(), 1);
  assert_eq!(
    comparison.entries()[1].scenario_id(),
    "river-side-threat-v1"
  );
  assert_eq!(comparison.entries()[1].baseline_count(), 1);
  assert_eq!(comparison.entries()[1].candidate_count(), 2);
  assert_eq!(comparison.entries()[1].delta(), 1);
  assert_eq!(
    comparison.regression_rule(),
    "m6-fixed-frequency-no-change-v1"
  );
  assert!(!comparison.passes_no_change_gate());
  assert_eq!(
    comparison,
    ScriptedAgentFixtureScenarioFrequencyComparisonReport::from_reports(&baseline, &candidate)
  );
  let reversed =
    ScriptedAgentFixtureScenarioFrequencyComparisonReport::from_reports(&candidate, &baseline);
  assert_eq!(reversed.entries()[0].delta(), -1);
  assert_eq!(reversed.entries()[1].delta(), -1);
  let unchanged =
    ScriptedAgentFixtureScenarioFrequencyComparisonReport::from_reports(&baseline, &baseline);
  assert!(unchanged.passes_no_change_gate());
  let baseline_build = ScriptedAgentBuildId::new(140);
  let candidate_build = ScriptedAgentBuildId::new(141);
  assert_eq!(baseline_build.schema(), "m6-scripted-agent-build-id-v1");
  assert_eq!(baseline_build.value(), 140);
  let labeled =
    ScriptedAgentFixtureScenarioFrequencyComparisonReport::from_reports_with_build_ids(
      &baseline,
      &candidate,
      baseline_build,
      candidate_build,
    )
    .expect("distinct build labels compare");
  assert_eq!(labeled.baseline_build_id(), Some(baseline_build));
  assert_eq!(labeled.candidate_build_id(), Some(candidate_build));
  assert_eq!(labeled.entries(), comparison.entries());
  assert_eq!(
    labeled.baseline_selection_count(),
    comparison.baseline_selection_count()
  );
  assert_eq!(
    labeled.candidate_selection_count(),
    comparison.candidate_selection_count()
  );
  assert_eq!(
    labeled.passes_no_change_gate(),
    comparison.passes_no_change_gate()
  );
  assert_eq!(
    labeled,
    ScriptedAgentFixtureScenarioFrequencyComparisonReport::from_reports_with_build_ids(
      &baseline,
      &candidate,
      baseline_build,
      candidate_build,
    )
    .expect("repeated labeled comparison is stable")
  );
  let labeled_unchanged =
    ScriptedAgentFixtureScenarioFrequencyComparisonReport::from_reports_with_build_ids(
      &baseline,
      &baseline,
      baseline_build,
      candidate_build,
    )
    .expect("distinct labels retain unchanged comparison");
  assert_eq!(labeled_unchanged.baseline_selection_count(), 2);
  assert_eq!(labeled_unchanged.candidate_selection_count(), 2);
  assert!(labeled_unchanged.passes_no_change_gate());
  assert_eq!(
    ScriptedAgentFixtureScenarioFrequencyComparisonReport::from_reports_with_build_ids(
      &baseline,
      &candidate,
      baseline_build,
      baseline_build,
    ),
    Err(ScriptedAgentBuildComparisonError::MatchingBuildIds)
  );
  let redistributed_selection = ScriptedAgentFixtureScenarioSelection::from_ids(
    &[
      SCRIPTED_AGENT_SAFE_FIXTURE_SCENARIO_ID,
      SCRIPTED_AGENT_SAFE_FIXTURE_SCENARIO_ID,
    ],
    &[
      [ObservationId::new(162), ObservationId::new(163)],
      [ObservationId::new(164), ObservationId::new(165)],
    ],
  )
  .expect("redistributed selection builds");
  let redistributed =
    ScriptedAgentFixtureScenarioFrequencyReport::from_selection(&redistributed_selection);
  let same_total_redistribution =
    ScriptedAgentFixtureScenarioFrequencyComparisonReport::from_reports(
      &baseline,
      &redistributed,
    );
  assert_eq!(same_total_redistribution.baseline_selection_count(), 2);
  assert_eq!(same_total_redistribution.candidate_selection_count(), 2);
  assert_eq!(same_total_redistribution.entries()[0].candidate_count(), 2);
  assert_eq!(same_total_redistribution.entries()[1].candidate_count(), 0);
  assert!(!same_total_redistribution.passes_no_change_gate());
}
