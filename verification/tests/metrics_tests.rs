use laner_agent::lane::{ALLIED_AUTONOMOUS_ACTOR_ID, ActorId, JungleThreatTruth, LaneIntent, LaneSnapshot, LaneStatus, LanerObservation, ObservationId, observe_player, validate_lane_request};
use laner_agent::metrics::{SCRIPTED_AGENT_ACTION_TALLY_SCHEMA, SCRIPTED_AGENT_METRICS_SCHEMA, ScriptedAgentActionTallyError, ScriptedAgentActionTallyReport, ScriptedAgentComparisonReport};
use laner_agent::policy::{ScriptedAgent, ScriptedAgentReason};
use laner_agent::profile::{RISK_TAKING_SCRIPTED_AGENT_PROFILE_ID, SCRIPTED_AGENT_PROFILE_ID, ScriptedAgentRole, YIELDING_SCRIPTED_AGENT_PROFILE_ID};
#[test]
fn matched_observation_distinguishes_three_profiles() {
  let state = LaneSnapshot::initial();
  let receipt = observe_player(&state, ObservationId::new(12));
  let cautious = ScriptedAgent::cautious_v1().decide(receipt.observation());
  let risk_taking = ScriptedAgent::risk_taking_v1().decide(receipt.observation());
  let yielding = ScriptedAgent::yielding_v1().decide(receipt.observation());

  assert_eq!(cautious.selected_intent(), LaneIntent::Stabilize);
  assert_eq!(risk_taking.selected_intent(), LaneIntent::Contest);
  assert_eq!(yielding.selected_intent(), LaneIntent::Yield);
  assert_eq!(cautious.profile().role(), ScriptedAgentRole::Anchor);
  assert_eq!(risk_taking.profile().role(), ScriptedAgentRole::Duelist);
  assert_eq!(yielding.profile().role(), ScriptedAgentRole::Pacer);
  assert_eq!(cautious.profile().role().id(), "anchor-v1");
  assert_eq!(risk_taking.profile().role().id(), "duelist-v1");
  assert_eq!(yielding.profile().role().id(), "pacer-v1");
  assert_eq!(
    cautious.profile().selection_rule(),
    "max-score-stable-order-v1"
  );
  assert_eq!(
    risk_taking.profile().selection_rule(),
    "max-score-stable-order-v1"
  );
  assert_eq!(
    yielding.profile().selection_rule(),
    "max-score-stable-order-v1"
  );
  assert_eq!(cautious.profile().preferred_intent(), LaneIntent::Stabilize);
  assert_eq!(
    risk_taking.profile().preferred_intent(),
    LaneIntent::Contest
  );
  assert_eq!(yielding.profile().preferred_intent(), LaneIntent::Yield);
  assert_eq!(
    cautious.profile().evaluation_rule(),
    "threat-first-pressure-aware-fixed-score-v1"
  );
  assert_eq!(
    risk_taking.profile().profile_id(),
    RISK_TAKING_SCRIPTED_AGENT_PROFILE_ID
  );
  assert_eq!(
    risk_taking.profile().evaluation_rule(),
    "contest-first-fixed-score-v1"
  );
  assert_eq!(
    yielding.profile().profile_id(),
    YIELDING_SCRIPTED_AGENT_PROFILE_ID
  );
  assert_eq!(
    yielding.profile().evaluation_rule(),
    "yield-first-fixed-score-v1"
  );
  assert_eq!(
    cautious
      .candidates()
      .iter()
      .map(|candidate| candidate.intent())
      .collect::<Vec<_>>(),
    risk_taking
      .candidates()
      .iter()
      .map(|candidate| candidate.intent())
      .collect::<Vec<_>>()
  );
  assert_eq!(
    cautious
      .candidates()
      .iter()
      .map(|candidate| candidate.intent())
      .collect::<Vec<_>>(),
    yielding
      .candidates()
      .iter()
      .map(|candidate| candidate.intent())
      .collect::<Vec<_>>()
  );
  assert!(risk_taking.candidates().iter().any(|candidate| {
    candidate.intent() == LaneIntent::Contest
      && candidate.reason() == ScriptedAgentReason::RiskPreference
      && candidate.score() == 100
  }));
  assert!(yielding.candidates().iter().any(|candidate| {
    candidate.intent() == LaneIntent::Yield
      && candidate.reason() == ScriptedAgentReason::YieldPreference
      && candidate.score() == 100
  }));
  assert_eq!(
    risk_taking,
    ScriptedAgent::risk_taking_v1().decide(receipt.observation())
  );
  assert_eq!(
    yielding,
    ScriptedAgent::yielding_v1().decide(receipt.observation())
  );
  validate_lane_request(&state, &receipt, &cautious.request()).expect("cautious is legal");
  validate_lane_request(&state, &receipt, &risk_taking.request()).expect("risk-taking is legal");
  validate_lane_request(&state, &receipt, &yielding.request()).expect("yielding is legal");
}

#[test]
fn comparison_report_is_versioned_bounded_and_reproducible() {
  let state = LaneSnapshot::initial();
  let observation = observe_player(&state, ObservationId::new(16)).observation();
  let report = ScriptedAgentComparisonReport::from_observation(observation);

  assert_eq!(
    SCRIPTED_AGENT_METRICS_SCHEMA,
    "m4-scripted-agent-metrics-v1"
  );
  assert_eq!(report.schema(), SCRIPTED_AGENT_METRICS_SCHEMA);
  assert_eq!(report.observer(), observation.observer());
  assert_eq!(report.observation_id(), observation.observation_id());
  assert_eq!(report.entries().len(), 3);
  assert_eq!(
    report
      .entries()
      .iter()
      .map(|entry| entry.profile_id())
      .collect::<Vec<_>>(),
    vec![
      SCRIPTED_AGENT_PROFILE_ID,
      RISK_TAKING_SCRIPTED_AGENT_PROFILE_ID,
      YIELDING_SCRIPTED_AGENT_PROFILE_ID
    ]
  );
  assert_eq!(
    report
      .entries()
      .iter()
      .map(|entry| entry.evaluation_rule())
      .collect::<Vec<_>>(),
    vec![
      "threat-first-pressure-aware-fixed-score-v1",
      "contest-first-fixed-score-v1",
      "yield-first-fixed-score-v1"
    ]
  );
  assert_eq!(
    report
      .entries()
      .iter()
      .map(|entry| entry.selected_intent())
      .collect::<Vec<_>>(),
    vec![
      LaneIntent::Stabilize,
      LaneIntent::Contest,
      LaneIntent::Yield
    ]
  );
  assert_eq!(
    report
      .entries()
      .iter()
      .map(|entry| entry.selected_score())
      .collect::<Vec<_>>(),
    vec![81, 100, 100]
  );
  assert!(
    report
      .entries()
      .iter()
      .all(|entry| entry.candidate_count() == 4)
  );
  assert_eq!(
    report,
    ScriptedAgentComparisonReport::from_observation(observation)
  );
}

#[test]
fn action_tally_reports_bounded_profile_counts_and_rejects_mixed_observers() {
  let initial = LaneSnapshot::initial();
  let threat_state = LaneSnapshot::new(
    initial.ruleset(),
    initial.turn(),
    LaneStatus::Open,
    initial.player(),
    initial.opponent(),
    initial.wave(),
    JungleThreatTruth::RiverSide,
  );
  let safe_receipt = observe_player(&initial, ObservationId::new(14));
  let threat_receipt = observe_player(&threat_state, ObservationId::new(15));
  let report = ScriptedAgentActionTallyReport::from_observations([
    safe_receipt.observation(),
    threat_receipt.observation(),
  ])
  .expect("matched player observations tally");
  assert_eq!(
    report,
    ScriptedAgentActionTallyReport::from_observations([
      safe_receipt.observation(),
      threat_receipt.observation(),
    ])
    .expect("repeated matched observations tally")
  );

  assert_eq!(
    SCRIPTED_AGENT_ACTION_TALLY_SCHEMA,
    "m4-scripted-agent-action-tally-v2"
  );
  assert_eq!(report.schema(), SCRIPTED_AGENT_ACTION_TALLY_SCHEMA);
  assert_eq!(report.observer(), safe_receipt.observation().observer());
  assert_eq!(
    report.observation_ids(),
    &[ObservationId::new(14), ObservationId::new(15)]
  );
  assert_eq!(report.entries().len(), 3);
  assert_eq!(
    report
      .entries()
      .iter()
      .map(|entry| entry.profile_id())
      .collect::<Vec<_>>(),
    vec![
      SCRIPTED_AGENT_PROFILE_ID,
      RISK_TAKING_SCRIPTED_AGENT_PROFILE_ID,
      YIELDING_SCRIPTED_AGENT_PROFILE_ID
    ]
  );
  assert_eq!(
    report
      .entries()
      .iter()
      .map(|entry| entry.evaluation_rule())
      .collect::<Vec<_>>(),
    vec![
      "threat-first-pressure-aware-fixed-score-v1",
      "contest-first-fixed-score-v1",
      "yield-first-fixed-score-v1"
    ]
  );
  let cautious = report.entries()[0];
  assert_eq!(cautious.observation_count(), 2);
  assert_eq!(cautious.stabilize_count(), 1);
  assert_eq!(cautious.withdraw_count(), 1);
  assert_eq!(cautious.contest_count(), 0);
  assert_eq!(cautious.yield_count(), 0);
  assert_eq!(cautious.recall_count(), 0);
  let risk_taking = report.entries()[1];
  assert_eq!(risk_taking.contest_count(), 2);
  assert_eq!(risk_taking.stabilize_count(), 0);
  assert_eq!(risk_taking.withdraw_count(), 0);
  let yielding = report.entries()[2];
  assert_eq!(yielding.yield_count(), 2);
  assert_eq!(yielding.stabilize_count(), 0);
  assert_eq!(yielding.withdraw_count(), 0);

  for agent in [
    ScriptedAgent::cautious_v1(),
    ScriptedAgent::risk_taking_v1(),
    ScriptedAgent::yielding_v1(),
  ] {
    validate_lane_request(
      &initial,
      &safe_receipt,
      &agent.decide(safe_receipt.observation()).request(),
    )
    .expect("safe tally request is legal");
    validate_lane_request(
      &threat_state,
      &threat_receipt,
      &agent.decide(threat_receipt.observation()).request(),
    )
    .expect("threat tally request is legal");
  }

  let mixed_observer = LanerObservation {
    observer: ActorId::new(ALLIED_AUTONOMOUS_ACTOR_ID),
    ..safe_receipt.observation()
  };
  assert_eq!(
    ScriptedAgentActionTallyReport::from_observations([
      safe_receipt.observation(),
      mixed_observer,
    ]),
    Err(ScriptedAgentActionTallyError::MismatchedObserver)
  );
  assert_eq!(
    ScriptedAgentActionTallyReport::from_observations([
      safe_receipt.observation(),
      observe_player(&threat_state, ObservationId::new(14)).observation(),
    ]),
    Err(ScriptedAgentActionTallyError::DuplicateObservationId)
  );
}
