use laner_agent::lane::{DrawId, JungleThreatTruth, LaneIntent, LaneSnapshot, LaneStatus, ObservationId, StreamId, WavePressure, WaveState, observe_player, validate_lane_request};
use laner_agent::policy::{ScriptedAgent, ScriptedAgentCandidate, ScriptedAgentEvaluationError, ScriptedAgentReason};
use laner_agent::profile::{SCRIPTED_AGENT_PROFILE_ID, SCRIPTED_AGENT_SCHEMA, ScriptedAgentSeedBundle};
#[test]
fn cautious_agent_uses_initial_actor_visible_candidates_and_legal_request() {
  let state = LaneSnapshot::initial();
  let receipt = observe_player(&state, ObservationId::new(9));
  let agent = ScriptedAgent::cautious_v1();
  let decision = agent.decide(receipt.observation());

  assert_eq!(SCRIPTED_AGENT_SCHEMA, "m4-scripted-agent-v1");
  assert_eq!(decision.profile().profile_id(), SCRIPTED_AGENT_PROFILE_ID);
  assert_eq!(decision.observer(), receipt.observation().observer());
  assert_eq!(
    decision.observation_id(),
    receipt.observation().observation_id()
  );
  assert_eq!(decision.selected_intent(), LaneIntent::Stabilize);
  assert_eq!(decision.candidates().len(), 4);
  assert_eq!(decision.request().intent(), LaneIntent::Stabilize);
  assert!(decision.candidates().iter().any(|candidate| {
    candidate.intent() == LaneIntent::Contest
      && candidate.reason() == ScriptedAgentReason::AvailableAlternative
  }));
  assert_eq!(
    agent
      .evaluate_candidate(receipt.observation(), LaneIntent::Contest)
      .expect("advertised intent evaluates"),
    ScriptedAgentCandidate {
      intent: LaneIntent::Contest,
      score: 60,
      reason: ScriptedAgentReason::AvailableAlternative,
    }
  );
  validate_lane_request(&state, &receipt, &decision.request()).expect("policy request is legal");
}

#[test]
fn evaluation_rejects_intents_outside_the_actor_visible_candidate_set() {
  let state = LaneSnapshot::initial();
  let observation = observe_player(&state, ObservationId::new(13)).observation();

  assert_eq!(
    ScriptedAgent::cautious_v1().evaluate_candidate(observation, LaneIntent::Withdraw),
    Err(ScriptedAgentEvaluationError::UnavailableIntent)
  );
}

#[test]
fn cautious_agent_prioritizes_visible_threat_response_without_hidden_state() {
  let initial = LaneSnapshot::initial();
  let state = LaneSnapshot::new(
    initial.ruleset(),
    initial.turn(),
    LaneStatus::Open,
    initial.player(),
    initial.opponent(),
    initial.wave(),
    JungleThreatTruth::RiverSide,
  );
  let observation = observe_player(&state, ObservationId::new(10)).observation();
  let decision = ScriptedAgent::cautious_v1().decide(observation);

  assert_eq!(decision.selected_intent(), LaneIntent::Withdraw);
  assert!(decision.candidates().iter().any(|candidate| {
    candidate.intent() == LaneIntent::Withdraw
      && candidate.reason() == ScriptedAgentReason::ThreatResponse
      && candidate.score() == 100
  }));
  assert_eq!(
    ScriptedAgent::cautious_v1()
      .evaluate_candidate(observation, LaneIntent::Withdraw)
      .expect("visible threat response evaluates"),
    ScriptedAgentCandidate {
      intent: LaneIntent::Withdraw,
      score: 100,
      reason: ScriptedAgentReason::ThreatResponse,
    }
  );
}

#[test]
fn cautious_agent_decision_is_reproducible_for_identical_observation() {
  let state = LaneSnapshot::initial();
  let observation = observe_player(&state, ObservationId::new(11)).observation();
  let agent = ScriptedAgent::cautious_v1();

  assert_eq!(agent.decide(observation), agent.decide(observation));
}

#[test]
fn seeded_decision_records_bundle_and_repeats_for_identical_inputs() {
  let state = LaneSnapshot::initial();
  let observation = observe_player(&state, ObservationId::new(19)).observation();
  let seed = ScriptedAgentSeedBundle::new(42, StreamId::new(21), DrawId::new(3));
  let decision = ScriptedAgent::cautious_v1().choose_with_seed(observation, seed);

  assert_eq!(seed.schema(), "m4-scripted-agent-random-v1");
  assert_eq!(seed.seed(), 42);
  assert_eq!(seed.policy_trace().stream().value(), 21);
  assert_eq!(seed.policy_trace().draw().value(), 3);
  assert_eq!(decision.seed_bundle(), Some(seed));
  assert_eq!(decision.selection_rule(), "max-score-seeded-tie-v1");
  assert_eq!(decision.selected_intent(), LaneIntent::Stabilize);
  assert_eq!(
    decision,
    ScriptedAgent::cautious_v1().choose_with_seed(observation, seed)
  );
  validate_lane_request(
    &state,
    &observe_player(&state, ObservationId::new(19)),
    &decision.request(),
  )
  .expect("seeded policy request is legal");
}

#[test]
fn seeded_tie_selection_is_reproducible_and_stream_scoped() {
  let candidates = [
    ScriptedAgentCandidate {
      intent: LaneIntent::Contest,
      score: 70,
      reason: ScriptedAgentReason::AvailableAlternative,
    },
    ScriptedAgentCandidate {
      intent: LaneIntent::Stabilize,
      score: 70,
      reason: ScriptedAgentReason::StableDefault,
    },
  ];
  let first_seed = ScriptedAgentSeedBundle::new(1, StreamId::new(21), DrawId::new(3));
  let same_seed = ScriptedAgentSeedBundle::new(1, StreamId::new(21), DrawId::new(3));
  let next_draw = ScriptedAgentSeedBundle::new(1, StreamId::new(21), DrawId::new(4));

  let first = ScriptedAgent::select_candidate_with_seed(&candidates, first_seed);
  assert_eq!(
    first,
    ScriptedAgent::select_candidate_with_seed(&candidates, same_seed)
  );
  assert_ne!(
    first,
    ScriptedAgent::select_candidate_with_seed(&candidates, next_draw)
  );
}

#[test]
fn cautious_agent_stabilize_score_rises_with_observed_wave_pressure() {
  let initial = LaneSnapshot::initial();
  let low_pressure = LaneSnapshot::new(
    initial.ruleset(),
    initial.turn(),
    LaneStatus::Open,
    initial.player(),
    initial.opponent(),
    WaveState::new(WavePressure::new(0).expect("bounded pressure")),
    initial.jungle_threat(),
  );
  let high_pressure = LaneSnapshot::new(
    initial.ruleset(),
    initial.turn(),
    LaneStatus::Open,
    initial.player(),
    initial.opponent(),
    WaveState::new(WavePressure::new(3).expect("bounded pressure")),
    initial.jungle_threat(),
  );
  let low_receipt = observe_player(&low_pressure, ObservationId::new(17));
  let high_receipt = observe_player(&high_pressure, ObservationId::new(17));
  let agent = ScriptedAgent::cautious_v1();
  let low = agent
    .evaluate_candidate(low_receipt.observation(), LaneIntent::Stabilize)
    .expect("stabilize is advertised at low pressure");
  let high = agent
    .evaluate_candidate(high_receipt.observation(), LaneIntent::Stabilize)
    .expect("stabilize is advertised at high pressure");

  assert_eq!(low.score(), 80);
  assert_eq!(high.score(), 83);
  assert!(high.score() > low.score());
  assert_eq!(
    agent.decide(low_receipt.observation()).selected_intent(),
    LaneIntent::Stabilize
  );
  assert_eq!(
    agent.decide(high_receipt.observation()).selected_intent(),
    LaneIntent::Stabilize
  );
  validate_lane_request(
    &low_pressure,
    &low_receipt,
    &agent.decide(low_receipt.observation()).request(),
  )
  .expect("low-pressure request is legal");
  validate_lane_request(
    &high_pressure,
    &high_receipt,
    &agent.decide(high_receipt.observation()).request(),
  )
  .expect("high-pressure request is legal");
}

#[test]
fn candidate_breadth_tracks_only_actor_visible_advertisements() {
  let initial = LaneSnapshot::initial();
  let threat_state = LaneSnapshot::new(
    initial.ruleset(),
    initial.turn(),
    LaneStatus::Open,
    initial.player(),
    initial.opponent(),
    initial.wave(),
    JungleThreatTruth::RiverSide,
  );
  let safe = observe_player(&initial, ObservationId::new(18)).observation();
  let threat = observe_player(&threat_state, ObservationId::new(18)).observation();
  let agent = ScriptedAgent::cautious_v1();
  let safe_candidates = agent.generate_candidates(safe);
  let threat_candidates = agent.generate_candidates(threat);

  assert_eq!(safe_candidates.len(), 4);
  assert_eq!(threat_candidates.len(), 5);
  assert_eq!(safe_candidates, safe.available_intents().to_vec());
  assert!(safe_candidates.iter().all(|intent| {
    safe.available_intents().contains(intent) || safe.available_threat_response() == Some(*intent)
  }));
  assert!(threat_candidates.iter().all(|intent| {
    threat.available_intents().contains(intent)
      || threat.available_threat_response() == Some(*intent)
  }));
  assert_eq!(
    threat_candidates
      .iter()
      .filter(|intent| **intent == LaneIntent::Withdraw)
      .count(),
    1
  );
  for candidates in [safe_candidates, threat_candidates] {
    for (index, candidate) in candidates.iter().enumerate() {
      assert!(!candidates[index + 1..].contains(candidate));
    }
  }
  assert_eq!(agent.decide(safe).selected_intent(), LaneIntent::Stabilize);
  assert_eq!(agent.decide(threat).selected_intent(), LaneIntent::Withdraw);
}

#[test]
fn stable_selection_keeps_the_first_advertised_maximum() {
  let candidates = [
    ScriptedAgentCandidate {
      intent: LaneIntent::Contest,
      score: 70,
      reason: ScriptedAgentReason::AvailableAlternative,
    },
    ScriptedAgentCandidate {
      intent: LaneIntent::Stabilize,
      score: 70,
      reason: ScriptedAgentReason::StableDefault,
    },
    ScriptedAgentCandidate {
      intent: LaneIntent::Yield,
      score: 60,
      reason: ScriptedAgentReason::AvailableAlternative,
    },
  ];

  assert_eq!(
    ScriptedAgent::select_candidate(&candidates).intent(),
    LaneIntent::Contest
  );
}

#[test]
fn visible_threat_changes_only_the_cautious_profile_selection() {
  let initial = LaneSnapshot::initial();
  let threat_state = LaneSnapshot::new(
    initial.ruleset(),
    initial.turn(),
    LaneStatus::Open,
    initial.player(),
    initial.opponent(),
    initial.wave(),
    JungleThreatTruth::RiverSide,
  );
  let safe_receipt = observe_player(&initial, ObservationId::new(14));
  let threat_receipt = observe_player(&threat_state, ObservationId::new(14));

  let cautious = ScriptedAgent::cautious_v1();
  let risk_taking = ScriptedAgent::risk_taking_v1();
  let yielding = ScriptedAgent::yielding_v1();
  let cautious_safe = cautious.decide(safe_receipt.observation());
  let cautious_threat = cautious.decide(threat_receipt.observation());
  let risk_safe = risk_taking.decide(safe_receipt.observation());
  let risk_threat = risk_taking.decide(threat_receipt.observation());
  let yielding_safe = yielding.decide(safe_receipt.observation());
  let yielding_threat = yielding.decide(threat_receipt.observation());

  assert_eq!(cautious_safe.selected_intent(), LaneIntent::Stabilize);
  assert_eq!(cautious_threat.selected_intent(), LaneIntent::Withdraw);
  assert_eq!(risk_safe.selected_intent(), LaneIntent::Contest);
  assert_eq!(risk_threat.selected_intent(), LaneIntent::Contest);
  assert_eq!(yielding_safe.selected_intent(), LaneIntent::Yield);
  assert_eq!(yielding_threat.selected_intent(), LaneIntent::Yield);
  assert!(cautious_threat.candidates().iter().any(|candidate| {
    candidate.intent() == LaneIntent::Withdraw
      && candidate.reason() == ScriptedAgentReason::ThreatResponse
  }));
  assert!(risk_threat.candidates().iter().any(|candidate| {
    candidate.intent() == LaneIntent::Withdraw
      && candidate.reason() == ScriptedAgentReason::ThreatResponse
  }));
  assert!(yielding_threat.candidates().iter().any(|candidate| {
    candidate.intent() == LaneIntent::Withdraw
      && candidate.reason() == ScriptedAgentReason::ThreatResponse
  }));
  validate_lane_request(&initial, &safe_receipt, &cautious_safe.request())
    .expect("cautious safe request is legal");
  validate_lane_request(&threat_state, &threat_receipt, &cautious_threat.request())
    .expect("cautious threat request is legal");
  validate_lane_request(&initial, &safe_receipt, &risk_safe.request())
    .expect("risk safe request is legal");
  validate_lane_request(&threat_state, &threat_receipt, &risk_threat.request())
    .expect("risk threat request is legal");
  validate_lane_request(&initial, &safe_receipt, &yielding_safe.request())
    .expect("yielding safe request is legal");
  validate_lane_request(&threat_state, &threat_receipt, &yielding_threat.request())
    .expect("yielding threat request is legal");
}
