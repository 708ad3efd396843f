use laner_agent::lane::{DrawId, LaneIntent, LaneSnapshot, ObservationId, StreamId, observe_player};
use laner_agent::operational::{ScriptedAgentOperationalEvent, ScriptedAgentOperationalLog, ScriptedAgentOperationalLogSequenceStatus};
use laner_agent::policy::{ScriptedAgent};
use laner_agent::profile::{SCRIPTED_AGENT_PROFILE_ID, ScriptedAgentSeedBundle};
use laner_agent::replay::{MAX_SCRIPTED_AGENT_SCENARIO_REPLAY_RECORDS, ScriptedAgentReplayDisposition, ScriptedAgentReplayError, ScriptedAgentReplayIdentityStatus, ScriptedAgentReplayRecord, ScriptedAgentReplaySequenceEvidenceReport, ScriptedAgentScenarioCausalTraceCompletenessError, ScriptedAgentScenarioCausalTraceCompletenessReport, ScriptedAgentScenarioCausalTraceCompletenessStatus, ScriptedAgentScenarioReplayIdentityError, ScriptedAgentScenarioReplayIdentityReport, ScriptedAgentScenarioReplayIdentityStatus};
#[test]
fn decision_replay_classifies_expected_and_declared_anomalous_cases() {
  let state = LaneSnapshot::initial();
  let observation = observe_player(&state, ObservationId::new(20)).observation();
  let expected = ScriptedAgentReplayRecord::capture(
    ScriptedAgent::cautious_v1(),
    observation,
    LaneIntent::Stabilize,
    None,
  );
  let anomalous = ScriptedAgentReplayRecord::capture(
    ScriptedAgent::cautious_v1(),
    observation,
    LaneIntent::Contest,
    None,
  );
  let seeded = ScriptedAgentReplayRecord::capture(
    ScriptedAgent::cautious_v1(),
    observation,
    LaneIntent::Stabilize,
    Some(ScriptedAgentSeedBundle::new(
      42,
      StreamId::new(21),
      DrawId::new(3),
    )),
  );

  assert_eq!(expected.schema(), "m4-scripted-agent-replay-v1");
  assert_eq!(expected.profile().profile_id(), SCRIPTED_AGENT_PROFILE_ID);
  assert_eq!(
    expected.disposition(),
    ScriptedAgentReplayDisposition::Expected
  );
  assert_eq!(expected.expected_intent(), LaneIntent::Stabilize);
  assert_eq!(expected.selected_intent(), LaneIntent::Stabilize);
  assert_eq!(expected.replay(), Ok(expected.decision().clone()));
  assert_eq!(
    anomalous.disposition(),
    ScriptedAgentReplayDisposition::Anomalous
  );
  assert_eq!(anomalous.expected_intent(), LaneIntent::Contest);
  assert_eq!(anomalous.selected_intent(), LaneIntent::Stabilize);
  assert_eq!(anomalous.replay(), Ok(anomalous.decision().clone()));
  assert_eq!(
    seeded.disposition(),
    ScriptedAgentReplayDisposition::Expected
  );
  assert!(seeded.seed_bundle().is_some());
  assert_eq!(seeded.replay(), Ok(seeded.decision().clone()));
}

#[test]
fn decision_replay_rejects_tampered_recorded_decision() {
  let state = LaneSnapshot::initial();
  let observation = observe_player(&state, ObservationId::new(22)).observation();
  let mut record = ScriptedAgentReplayRecord::capture(
    ScriptedAgent::cautious_v1(),
    observation,
    LaneIntent::Stabilize,
    None,
  );
  record.decision.selected_intent = LaneIntent::Contest;

  assert_eq!(
    record.replay(),
    Err(ScriptedAgentReplayError::DecisionMismatch)
  );

  let mut seeded_record = ScriptedAgentReplayRecord::capture(
    ScriptedAgent::cautious_v1(),
    observation,
    LaneIntent::Stabilize,
    Some(ScriptedAgentSeedBundle::new(
      42,
      StreamId::new(21),
      DrawId::new(3),
    )),
  );
  seeded_record.decision.seed_bundle = Some(ScriptedAgentSeedBundle::new(
    99,
    StreamId::new(22),
    DrawId::new(4),
  ));

  assert_eq!(
    seeded_record.replay(),
    Err(ScriptedAgentReplayError::DecisionMismatch)
  );
}

#[test]
fn replay_sequence_evidence_binds_decision_identity_and_log_status() {
  let state = LaneSnapshot::initial();
  let observation = observe_player(&state, ObservationId::new(23)).observation();
  let expected = ScriptedAgentReplayRecord::capture(
    ScriptedAgent::cautious_v1(),
    observation,
    LaneIntent::Stabilize,
    None,
  );
  let mut complete = ScriptedAgentOperationalLog::new();
  for event in [
    ScriptedAgentOperationalEvent::BatchStarted,
    ScriptedAgentOperationalEvent::ChunkCompleted,
    ScriptedAgentOperationalEvent::BatchFinished,
  ] {
    complete.append(event).expect("sequence fixture fits");
  }
  let evidence =
    ScriptedAgentReplaySequenceEvidenceReport::from_record_and_log(&expected, &complete);
  assert_eq!(
    evidence.schema(),
    "m6-scripted-agent-replay-sequence-evidence-v1"
  );
  assert_eq!(
    evidence.rule(),
    "m6-replay-identity-operational-sequence-v1"
  );
  assert_eq!(
    evidence.replay_identity(),
    ScriptedAgentReplayIdentityStatus::Verified
  );
  assert_eq!(evidence.replay_identity().id(), "verified");
  assert_eq!(
    evidence.sequence_status(),
    ScriptedAgentOperationalLogSequenceStatus::Complete
  );

  let mut incomplete = ScriptedAgentOperationalLog::new();
  incomplete
    .append(ScriptedAgentOperationalEvent::BatchStarted)
    .expect("sequence fixture fits");
  assert_eq!(
    ScriptedAgentReplaySequenceEvidenceReport::from_record_and_log(&expected, &incomplete,)
      .sequence_status(),
    ScriptedAgentOperationalLogSequenceStatus::MissingChunk
  );

  let mut tampered = expected.clone();
  tampered.decision.selected_intent = LaneIntent::Contest;
  let mismatch =
    ScriptedAgentReplaySequenceEvidenceReport::from_record_and_log(&tampered, &complete);
  assert_eq!(
    mismatch.replay_identity(),
    ScriptedAgentReplayIdentityStatus::DecisionMismatch
  );
  assert_eq!(mismatch.replay_identity().id(), "decision_mismatch");
  assert_eq!(
    mismatch.sequence_status(),
    ScriptedAgentOperationalLogSequenceStatus::Complete
  );
}

#[test]
fn scenario_replay_identity_verifies_sequence_and_rejects_malformed_input() {
  let state = LaneSnapshot::initial();
  let obs1 = observe_player(&state, ObservationId::new(101)).observation();
  let obs2 = observe_player(&state, ObservationId::new(102)).observation();
  let obs3 = observe_player(&state, ObservationId::new(103)).observation();

  let rec1 = ScriptedAgentReplayRecord::capture(
    ScriptedAgent::cautious_v1(),
    obs1,
    LaneIntent::Stabilize,
    None,
  );
  let rec2 = ScriptedAgentReplayRecord::capture(
    ScriptedAgent::risk_taking_v1(),
    obs2,
    LaneIntent::Contest,
    None,
  );
  let rec3 = ScriptedAgentReplayRecord::capture(
    ScriptedAgent::yielding_v1(),
    obs3,
    LaneIntent::Yield,
    None,
  );

  let report = ScriptedAgentScenarioReplayIdentityReport::from_records(&[
    rec1.clone(),
    rec2.clone(),
    rec3.clone(),
  ])
  .expect("valid sequence verifies");

  assert_eq!(
    report.schema(),
    "m6-scripted-agent-scenario-replay-identity-v1"
  );
  assert_eq!(report.rule(), "m6-scenario-replay-identity-v1");
  assert_eq!(report.record_count(), 3);
  assert_eq!(report.verified_count(), 3);
  assert_eq!(
    report.status(),
    ScriptedAgentScenarioReplayIdentityStatus::AllVerified
  );
  assert_eq!(report.status().id(), "all_verified");
  assert_eq!(report.start_observation_id(), ObservationId::new(101));
  assert_eq!(report.end_observation_id(), ObservationId::new(103));

  // Decision mismatch in one record
  let mut tampered = rec2.clone();
  tampered.decision.selected_intent = LaneIntent::Stabilize;
  let mismatch_report = ScriptedAgentScenarioReplayIdentityReport::from_records(&[
    rec1.clone(),
    tampered,
    rec3.clone(),
  ])
  .expect("evaluates with mismatch");
  assert_eq!(mismatch_report.record_count(), 3);
  assert_eq!(mismatch_report.verified_count(), 2);
  assert_eq!(
    mismatch_report.status(),
    ScriptedAgentScenarioReplayIdentityStatus::DecisionMismatch
  );
  assert_eq!(mismatch_report.status().id(), "decision_mismatch");

  // Empty input fails closed
  assert_eq!(
    ScriptedAgentScenarioReplayIdentityReport::from_records(&[]),
    Err(ScriptedAgentScenarioReplayIdentityError::Empty)
  );

  // Duplicate observation ID fails closed
  let duplicate_obs = observe_player(&state, ObservationId::new(101)).observation();
  let duplicate_rec = ScriptedAgentReplayRecord::capture(
    ScriptedAgent::yielding_v1(),
    duplicate_obs,
    LaneIntent::Yield,
    None,
  );
  assert_eq!(
    ScriptedAgentScenarioReplayIdentityReport::from_records(&[rec1.clone(), duplicate_rec]),
    Err(ScriptedAgentScenarioReplayIdentityError::DuplicateObservationId)
  );

  // Oversized input fails closed
  let mut oversized = Vec::new();
  for i in 0..=MAX_SCRIPTED_AGENT_SCENARIO_REPLAY_RECORDS {
    let obs_id = u64::try_from(i.saturating_add(200)).expect("fits in u64");
    let obs = observe_player(&state, ObservationId::new(obs_id)).observation();
    oversized.push(ScriptedAgentReplayRecord::capture(
      ScriptedAgent::cautious_v1(),
      obs,
      LaneIntent::Stabilize,
      None,
    ));
  }
  assert_eq!(
    ScriptedAgentScenarioReplayIdentityReport::from_records(&oversized),
    Err(ScriptedAgentScenarioReplayIdentityError::Oversized)
  );
}

#[test]
fn scenario_causal_trace_completeness_verifies_sequence_and_rejects_malformed_input() {
  let state = LaneSnapshot::initial();
  let obs1 = observe_player(&state, ObservationId::new(201)).observation();
  let obs2 = observe_player(&state, ObservationId::new(202)).observation();
  let obs3 = observe_player(&state, ObservationId::new(203)).observation();

  let rec1 = ScriptedAgentReplayRecord::capture(
    ScriptedAgent::cautious_v1(),
    obs1,
    LaneIntent::Stabilize,
    None,
  );
  let rec2 = ScriptedAgentReplayRecord::capture(
    ScriptedAgent::risk_taking_v1(),
    obs2,
    LaneIntent::Contest,
    None,
  );
  let rec3 = ScriptedAgentReplayRecord::capture(
    ScriptedAgent::yielding_v1(),
    obs3,
    LaneIntent::Yield,
    None,
  );

  let report = ScriptedAgentScenarioCausalTraceCompletenessReport::from_records(&[
    rec1.clone(),
    rec2.clone(),
    rec3.clone(),
  ])
  .expect("valid sequence verifies causal completeness");

  assert_eq!(
    report.schema(),
    "m6-scripted-agent-scenario-causal-trace-completeness-v1"
  );
  assert_eq!(report.rule(), "m6-scenario-causal-trace-completeness-v1");
  assert_eq!(report.record_count(), 3);
  assert_eq!(report.traced_count(), 3);
  assert_eq!(
    report.status(),
    ScriptedAgentScenarioCausalTraceCompletenessStatus::AllComplete
  );
  assert_eq!(report.status().id(), "all_complete");
  assert_eq!(report.start_observation_id(), ObservationId::new(201));
  assert_eq!(report.end_observation_id(), ObservationId::new(203));

  // Decision mismatch in one record makes it incomplete
  let mut tampered = rec2.clone();
  tampered.decision.selected_intent = LaneIntent::Stabilize;
  let incomplete_report = ScriptedAgentScenarioCausalTraceCompletenessReport::from_records(&[
    rec1.clone(),
    tampered,
    rec3.clone(),
  ])
  .expect("evaluates with incomplete trace");
  assert_eq!(incomplete_report.record_count(), 3);
  assert_eq!(incomplete_report.traced_count(), 2);
  assert_eq!(
    incomplete_report.status(),
    ScriptedAgentScenarioCausalTraceCompletenessStatus::IncompleteTrace
  );
  assert_eq!(incomplete_report.status().id(), "incomplete_trace");

  // Empty input fails closed
  assert_eq!(
    ScriptedAgentScenarioCausalTraceCompletenessReport::from_records(&[]),
    Err(ScriptedAgentScenarioCausalTraceCompletenessError::Empty)
  );

  // Duplicate observation ID fails closed
  let duplicate_obs = observe_player(&state, ObservationId::new(201)).observation();
  let duplicate_rec = ScriptedAgentReplayRecord::capture(
    ScriptedAgent::yielding_v1(),
    duplicate_obs,
    LaneIntent::Yield,
    None,
  );
  assert_eq!(
    ScriptedAgentScenarioCausalTraceCompletenessReport::from_records(&[
      rec1.clone(),
      duplicate_rec
    ]),
    Err(ScriptedAgentScenarioCausalTraceCompletenessError::DuplicateObservationId)
  );

  // Oversized input fails closed
  let mut oversized = Vec::new();
  for i in 0..=MAX_SCRIPTED_AGENT_SCENARIO_REPLAY_RECORDS {
    let obs_id = u64::try_from(i.saturating_add(300)).expect("fits in u64");
    let obs = observe_player(&state, ObservationId::new(obs_id)).observation();
    oversized.push(ScriptedAgentReplayRecord::capture(
      ScriptedAgent::cautious_v1(),
      obs,
      LaneIntent::Stabilize,
      None,
    ));
  }
  assert_eq!(
    ScriptedAgentScenarioCausalTraceCompletenessReport::from_records(&oversized),
    Err(ScriptedAgentScenarioCausalTraceCompletenessError::Oversized)
  );
}
