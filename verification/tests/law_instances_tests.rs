use laner_agent::comparison::ScriptedAgentMatchedScenarioTallyComparisonReport;
use laner_agent::empirical::EmpiricalDistributionEstimateReport;
use laner_agent::fixture::{ScriptedAgentFixtureScenarioPopulation, SCRIPTED_AGENT_RIVER_SIDE_FIXTURE_SCENARIO_ID, SCRIPTED_AGENT_SAFE_FIXTURE_SCENARIO_ID};
use laner_agent::lane::{DrawId, LaneSnapshot, ObservationId, StreamId, observe_player};
use laner_agent::policy::ScriptedAgent;
use laner_agent::measures::BehavioralDistanceMeasure;
use laner_agent::profile::{ScriptedAgentExperimentManifest, ScriptedAgentProfile, ScriptedAgentSeedBundle};
use laner_agent::sample::ScriptedAgentMatchedScenarioTallyReport;

fn manifests() -> [ScriptedAgentExperimentManifest; 3] {
  [
    ScriptedAgentExperimentManifest::new(
      ScriptedAgentProfile::cautious_v1(),
      ScriptedAgentSeedBundle::new(71, StreamId::new(72), DrawId::new(73)),
    ),
    ScriptedAgentExperimentManifest::new(
      ScriptedAgentProfile::risk_taking_v1(),
      ScriptedAgentSeedBundle::new(74, StreamId::new(75), DrawId::new(76)),
    ),
    ScriptedAgentExperimentManifest::new(
      ScriptedAgentProfile::yielding_v1(),
      ScriptedAgentSeedBundle::new(77, StreamId::new(78), DrawId::new(79)),
    ),
  ]
}

fn tally(ids: &[&str], first: u64) -> ScriptedAgentMatchedScenarioTallyReport {
  ScriptedAgentFixtureScenarioPopulation::generate_from_scenario_ids(ids, first)
    .expect("population builds")
    .matched_tally(&manifests())
    .expect("tally builds")
}

#[test]
fn comparing_a_tally_with_itself_changes_nothing() {
  let t = tally(
    &[SCRIPTED_AGENT_SAFE_FIXTURE_SCENARIO_ID, SCRIPTED_AGENT_RIVER_SIDE_FIXTURE_SCENARIO_ID],
    500,
  );
  let c = ScriptedAgentMatchedScenarioTallyComparisonReport::from_reports(&t, &t).unwrap();
  assert!(c.passes_no_change_gate());
  for e in c.entries() {
    assert_eq!(e.deltas(), [0; 5]);
    assert_eq!(e.baseline_counts(), e.candidate_counts());
  }
  assert_eq!(c.largest_delta_candidate(), None);
}

#[test]
fn swapping_baseline_and_candidate_negates_every_delta() {
  let b = tally(
    &[
      SCRIPTED_AGENT_SAFE_FIXTURE_SCENARIO_ID,
      SCRIPTED_AGENT_SAFE_FIXTURE_SCENARIO_ID,
      SCRIPTED_AGENT_SAFE_FIXTURE_SCENARIO_ID,
      SCRIPTED_AGENT_RIVER_SIDE_FIXTURE_SCENARIO_ID,
    ],
    280,
  );
  let c = tally(
    &[
      SCRIPTED_AGENT_SAFE_FIXTURE_SCENARIO_ID,
      SCRIPTED_AGENT_RIVER_SIDE_FIXTURE_SCENARIO_ID,
      SCRIPTED_AGENT_RIVER_SIDE_FIXTURE_SCENARIO_ID,
      SCRIPTED_AGENT_RIVER_SIDE_FIXTURE_SCENARIO_ID,
    ],
    288,
  );
  let bc = ScriptedAgentMatchedScenarioTallyComparisonReport::from_reports(&b, &c).unwrap();
  let cb = ScriptedAgentMatchedScenarioTallyComparisonReport::from_reports(&c, &b).unwrap();
  assert!(!bc.passes_no_change_gate());
  assert_eq!(bc.entries().len(), cb.entries().len());
  for (x, y) in bc.entries().iter().zip(cb.entries()) {
    assert_eq!(x.profile_id(), y.profile_id());
    assert_eq!(x.baseline_counts(), y.candidate_counts());
    for k in 0..5 {
      assert_eq!(x.deltas()[k], -y.deltas()[k]);
    }
  }
  assert_eq!(bc.entries()[0].deltas(), [-2, 0, 0, 0, 2]);
}

#[test]
fn distances_are_symmetric_and_zero_to_self() {
  let a = EmpiricalDistributionEstimateReport::cautious_v1();
  let b = EmpiricalDistributionEstimateReport::yielding_v1();
  for i in 0..7 {
    let (x, y) = (a.action_distributions()[i], b.action_distributions()[i]);
    assert_eq!(BehavioralDistanceMeasure::action_tvd(x, x), 0);
    assert_eq!(
      BehavioralDistanceMeasure::action_tvd(x, y),
      BehavioralDistanceMeasure::action_tvd(y, x)
    );
    assert!(BehavioralDistanceMeasure::action_tvd(x, y) <= 10_000);
    let (p, q) = (a.communication_distributions()[i], b.communication_distributions()[i]);
    assert_eq!(BehavioralDistanceMeasure::communication_tvd(p, p), 0);
    assert_eq!(
      BehavioralDistanceMeasure::communication_tvd(p, q),
      BehavioralDistanceMeasure::communication_tvd(q, p)
    );
  }
  assert_eq!(
    BehavioralDistanceMeasure::action_tvd(a.action_distributions()[0], b.action_distributions()[0]),
    1_000
  );
}

#[test]
fn generated_population_is_the_alternating_selection() {
  let ids = [
    SCRIPTED_AGENT_SAFE_FIXTURE_SCENARIO_ID,
    SCRIPTED_AGENT_RIVER_SIDE_FIXTURE_SCENARIO_ID,
    SCRIPTED_AGENT_SAFE_FIXTURE_SCENARIO_ID,
    SCRIPTED_AGENT_RIVER_SIDE_FIXTURE_SCENARIO_ID,
  ];
  for count in 0..=5usize {
    let n = count.min(ids.len());
    let by_ids = ScriptedAgentFixtureScenarioPopulation::generate_from_scenario_ids(&ids[..n], 900);
    let generated = ScriptedAgentFixtureScenarioPopulation::generate(count, 900);
    if count <= ids.len() {
      assert_eq!(generated, by_ids);
    } else {
      assert!(generated.is_err());
    }
  }
}

#[test]
fn seeded_and_unseeded_decisions_share_candidates() {
  let observation = observe_player(&LaneSnapshot::initial(), ObservationId::new(31)).observation();
  for agent in [ScriptedAgent::cautious_v1(), ScriptedAgent::risk_taking_v1(), ScriptedAgent::yielding_v1()] {
    let plain = agent.decide(observation);
    let seeded = agent.choose_with_seed(observation, ScriptedAgentSeedBundle::new(5, StreamId::new(6), DrawId::new(7)));
    assert_eq!(plain.candidates(), seeded.candidates());
    for c in plain.candidates() {
      assert_eq!(agent.evaluate_candidate(observation, c.intent()), Ok(*c));
    }
    let top = plain.candidates().iter().map(|c| c.score()).max().unwrap();
    if plain.candidates().iter().filter(|c| c.score() == top).count() == 1 {
      assert_eq!(plain.selected_intent(), seeded.selected_intent());
    }
  }
}
