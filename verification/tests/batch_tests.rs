use laner_agent::batch::{MAX_SCRIPTED_AGENT_BATCH_MANIFESTS, MAX_SCRIPTED_AGENT_BATCH_RUN_BYTES, SCRIPTED_AGENT_BATCH_RUN_SCHEMA, ScriptedAgentBatchCheckpoint, ScriptedAgentBatchCheckpointError, ScriptedAgentBatchError, ScriptedAgentBatchRunError, ScriptedAgentBatchRunner, ScriptedAgentOperationalBatchRunError};
use laner_agent::lane::{DrawId, LaneIntent, LanePosition, LaneSnapshot, LanerObservation, ObservationId, StreamId, observe_player};
use laner_agent::operational::{MAX_SCRIPTED_AGENT_OPERATIONAL_EVENTS, ScriptedAgentOperationalEvent, ScriptedAgentOperationalLog};
use laner_agent::policy::{ScriptedAgentDecision};
use laner_agent::profile::{ScriptedAgentExperimentManifest, ScriptedAgentProfile, ScriptedAgentSeedBundle};

/// FNV-1a over the fingerprint's byte layout, written out independently: the
/// run schema, the observation's fields in their hashed order, the manifest
/// count, then each manifest.
fn layout_fingerprint(o: &LanerObservation, manifests: &[ScriptedAgentExperimentManifest]) -> u64 {
  fn put_str(b: &mut Vec<u8>, s: &str) {
    b.extend_from_slice(&(s.len() as u64).to_le_bytes());
    b.extend_from_slice(s.as_bytes());
  }
  fn pos(p: LanePosition) -> u8 {
    match p {
      LanePosition::NearTower => 0,
      LanePosition::Center => 1,
      LanePosition::FarSide => 2,
    }
  }
  fn intent(i: LaneIntent) -> u8 {
    match i {
      LaneIntent::Stabilize => 0,
      LaneIntent::Contest => 1,
      LaneIntent::Yield => 2,
      LaneIntent::Recall => 3,
      LaneIntent::Withdraw => 4,
    }
  }
  fn flags(b: &mut Vec<u8>, f: &[bool]) {
    for (i, on) in f.iter().enumerate() {
      if *on {
        b.push(i as u8);
      }
    }
  }
  let mut b = Vec::new();
  put_str(&mut b, "m6-scripted-agent-batch-run-v1");
  put_str(&mut b, "m2-laner-observation-v1");
  b.push(o.observer.0);
  b.extend_from_slice(&[
    o.actors.human_laner.0,
    o.actors.opposing_laner.0,
    o.actors.allied_autonomous.0,
    o.actors.opposing_jungle_threat.0,
  ]);
  b.extend_from_slice(&o.turn.0.to_le_bytes());
  b.extend_from_slice(&o.observation_id.0.to_le_bytes());
  b.extend_from_slice(&[
    o.self_health,
    o.self_mana,
    o.self_gold,
    o.self_experience,
    o.self_cooldown,
    pos(o.self_position),
    o.wave_pressure.0,
  ]);
  match o.opponent.last_known_position {
    Some(p) => b.extend_from_slice(&[1, pos(p)]),
    None => b.push(0),
  }
  match o.opponent.last_seen_turn {
    Some(t) => {
      b.push(1);
      b.extend_from_slice(&t.0.to_le_bytes());
    }
    None => b.push(0),
  }
  b.extend_from_slice(&[0, 0]);
  match o.jungle_threat.last_known {
    Some(k) => {
      b.extend_from_slice(&[1, 0]);
      b.extend_from_slice(&k.turn.0.to_le_bytes());
    }
    None => b.push(0),
  }
  let a = o.available_intents;
  flags(&mut b, &[a.stabilize, a.contest, a.yield_, a.recall, a.withdraw]);
  match o.available_threat_response {
    Some(i) => b.extend_from_slice(&[1, intent(i)]),
    None => b.push(0),
  }
  let t = o.available_target_focuses;
  flags(&mut b, &[t.minions, t.opposing_laner, t.tower]);
  let c = o.available_commitments;
  flags(&mut b, &[c.standard, c.cautious, c.aggressive]);
  let p = o.available_ping_signals;
  flags(&mut b, &[p.no_ping, p.danger, p.on_my_way, p.assist, p.enemy_missing]);
  let x = o.available_abort_conditions;
  flags(&mut b, &[x.no_abort, x.health_threshold, x.threat_spotted, x.resource_depleted]);
  let f = o.available_fallback_behaviors;
  flags(&mut b, &[f.maintain_plan, f.retreat_to_tower, f.safe_farm, f.conserve_resources]);
  b.extend_from_slice(&o.window_beats.to_le_bytes());
  b.push(manifests.len() as u8);
  for m in manifests {
    put_str(&mut b, m.schema());
    put_str(&mut b, m.scenario_id());
    put_str(&mut b, m.profile().profile_id());
    put_str(&mut b, m.profile().evaluation_rule());
    put_str(&mut b, m.selection_rule());
    b.extend_from_slice(&m.seed_bundle().seed().to_le_bytes());
    b.push(m.seed_bundle().policy_trace().stream().value());
    b.extend_from_slice(&m.seed_bundle().policy_trace().draw().value().to_le_bytes());
  }
  let mut h: u64 = 0xcbf29ce484222325;
  for byte in b {
    h ^= u64::from(byte);
    h = h.wrapping_mul(0x100000001b3);
  }
  h
}

#[test]
fn bounded_batch_runner_preserves_order_and_reproducibility() {
  let state = LaneSnapshot::initial();
  let observation = observe_player(&state, ObservationId::new(44)).observation();
  let manifests = [
    ScriptedAgentExperimentManifest::new(
      ScriptedAgentProfile::cautious_v1(),
      ScriptedAgentSeedBundle::new(1, StreamId::new(2), DrawId::new(3)),
    ),
    ScriptedAgentExperimentManifest::new(
      ScriptedAgentProfile::yielding_v1(),
      ScriptedAgentSeedBundle::new(4, StreamId::new(5), DrawId::new(6)),
    ),
  ];
  let first = ScriptedAgentBatchRunner::run(observation, &manifests).expect("batch runs");
  let second = ScriptedAgentBatchRunner::run(observation, &manifests).expect("batch repeats");
  assert_eq!(first, second);
  assert_eq!(first.len(), 2);
  assert_eq!(first[0].profile(), manifests[0].profile());
  assert_eq!(first[1].profile(), manifests[1].profile());
  assert_eq!(first[0].seed_bundle(), Some(manifests[0].seed_bundle()));
  assert_eq!(first[1].seed_bundle(), Some(manifests[1].seed_bundle()));
  assert_eq!(
    ScriptedAgentBatchRunner::run(observation, &[]),
    Err(ScriptedAgentBatchError::EmptyBatch)
  );
  let at_capacity = [manifests[0]; MAX_SCRIPTED_AGENT_BATCH_MANIFESTS];
  let capacity_decisions =
    ScriptedAgentBatchRunner::run(observation, &at_capacity).expect("inclusive cap runs");
  assert_eq!(capacity_decisions.len(), MAX_SCRIPTED_AGENT_BATCH_MANIFESTS);
  assert!(
    capacity_decisions
      .iter()
      .all(|decision| decision.seed_bundle() == Some(manifests[0].seed_bundle()))
  );
  let too_many = [manifests[0]; MAX_SCRIPTED_AGENT_BATCH_MANIFESTS + 1];
  assert_eq!(
    ScriptedAgentBatchRunner::run(observation, &too_many),
    Err(ScriptedAgentBatchError::BatchTooLarge {
      max: MAX_SCRIPTED_AGENT_BATCH_MANIFESTS,
      actual: MAX_SCRIPTED_AGENT_BATCH_MANIFESTS + 1,
    })
  );
}

#[test]
fn batch_runner_operational_log_producer_is_ordered_and_preflights_capacity() {
  let state = LaneSnapshot::initial();
  let observation = observe_player(&state, ObservationId::new(47)).observation();
  let manifests = [
    ScriptedAgentExperimentManifest::new(
      ScriptedAgentProfile::cautious_v1(),
      ScriptedAgentSeedBundle::new(1, StreamId::new(2), DrawId::new(3)),
    ),
    ScriptedAgentExperimentManifest::new(
      ScriptedAgentProfile::yielding_v1(),
      ScriptedAgentSeedBundle::new(4, StreamId::new(5), DrawId::new(6)),
    ),
  ];
  let expected = ScriptedAgentBatchRunner::run(observation, &manifests)
    .expect("the direct batch remains the parity reference");
  let mut log = ScriptedAgentOperationalLog::new();
  let produced =
    ScriptedAgentBatchRunner::run_with_operational_log(observation, &manifests, &mut log)
      .expect("the complete batch fits in the operational log");
  assert_eq!(produced, expected);
  assert_eq!(
    log
      .entries()
      .iter()
      .map(|entry| entry.event().id())
      .collect::<Vec<_>>(),
    ["batch_started", "chunk_completed", "batch_finished"]
  );

  let mut invalid_log = ScriptedAgentOperationalLog::new();
  invalid_log
    .append(ScriptedAgentOperationalEvent::CheckpointSaved)
    .expect("one event fits");
  let invalid_before = invalid_log.entries().to_vec();
  assert_eq!(
    ScriptedAgentBatchRunner::run_with_operational_log(observation, &[], &mut invalid_log),
    Err(ScriptedAgentOperationalBatchRunError::Batch(
      ScriptedAgentBatchError::EmptyBatch,
    ))
  );
  assert_eq!(invalid_log.entries(), invalid_before.as_slice());

  assert_eq!(MAX_SCRIPTED_AGENT_OPERATIONAL_EVENTS, 16);
  let mut at_capacity_log = ScriptedAgentOperationalLog::new();
  for _ in 0..MAX_SCRIPTED_AGENT_OPERATIONAL_EVENTS - 3 {
    at_capacity_log
      .append(ScriptedAgentOperationalEvent::CheckpointSaved)
      .expect("inclusive-capacity fixture fits");
  }
  let at_capacity_decisions = ScriptedAgentBatchRunner::run_with_operational_log(
    observation,
    &manifests,
    &mut at_capacity_log,
  )
  .expect("exactly three lifecycle events fit at the inclusive cap");
  assert_eq!(at_capacity_decisions, expected);
  assert_eq!(at_capacity_log.len(), MAX_SCRIPTED_AGENT_OPERATIONAL_EVENTS);
  assert_eq!(
    at_capacity_log
      .entries()
      .iter()
      .rev()
      .take(3)
      .map(|entry| entry.event().id())
      .collect::<Vec<_>>()
      .into_iter()
      .rev()
      .collect::<Vec<_>>(),
    ["batch_started", "chunk_completed", "batch_finished"]
  );

  let mut full_log = ScriptedAgentOperationalLog::new();
  for _ in 0..MAX_SCRIPTED_AGENT_OPERATIONAL_EVENTS - 2 {
    full_log
      .append(ScriptedAgentOperationalEvent::BatchStarted)
      .expect("preflight fixture fits");
  }
  let full_before = full_log.entries().to_vec();
  assert_eq!(
    ScriptedAgentBatchRunner::run_with_operational_log(observation, &manifests, &mut full_log),
    Err(ScriptedAgentOperationalBatchRunError::LogCapacityExceeded { max: 16 })
  );
  assert_eq!(full_log.entries(), full_before.as_slice());
}

#[test]
fn batch_checkpoint_codec_round_trips_and_run_next_resumes_one_chunk() {
  let state = LaneSnapshot::initial();
  let observation = observe_player(&state, ObservationId::new(45)).observation();
  let manifests = [
    ScriptedAgentExperimentManifest::new(
      ScriptedAgentProfile::cautious_v1(),
      ScriptedAgentSeedBundle::new(7, StreamId::new(8), DrawId::new(9)),
    ),
    ScriptedAgentExperimentManifest::new(
      ScriptedAgentProfile::yielding_v1(),
      ScriptedAgentSeedBundle::new(10, StreamId::new(11), DrawId::new(12)),
    ),
  ];
  let checkpoint =
    ScriptedAgentBatchCheckpoint::new(observation, &manifests).expect("checkpoint starts");
  assert_eq!(checkpoint.schema(), SCRIPTED_AGENT_BATCH_RUN_SCHEMA);
  assert_eq!(SCRIPTED_AGENT_BATCH_RUN_SCHEMA, "m6-scripted-agent-batch-run-v1");
  let encoded = checkpoint.encode();
  assert_eq!(
    encoded,
    format!(
      "schema=m6-scripted-agent-batch-run-v1\nobserver={}\nobservation_id=45\nmanifest_count=2\ncompleted_count=0\ninput_fingerprint={}\n",
      observation.observer().value(),
      layout_fingerprint(&observation, &manifests),
    )
  );
  let other_observation = observe_player(&state, ObservationId::new(46)).observation();
  let other = ScriptedAgentBatchCheckpoint::new(other_observation, &manifests).expect("other starts");
  assert_ne!(other.input_fingerprint(), checkpoint.input_fingerprint());
  assert_eq!(
    ScriptedAgentBatchCheckpoint::new(observation, &manifests).expect("repeat starts"),
    checkpoint
  );
  assert_eq!(ScriptedAgentBatchCheckpoint::decode(&encoded), Ok(checkpoint));
  let valid = encoded;
  for (malformed, expected) in [
    (
      valid.replacen("schema=m6-scripted-agent-batch-run-v1", "schema=other", 1),
      ScriptedAgentBatchCheckpointError::UnsupportedSchema,
    ),
    (valid.replacen("observer=", "unknown=", 1), ScriptedAgentBatchCheckpointError::UnknownField),
    (valid.replacen("observer=", "schema=", 1), ScriptedAgentBatchCheckpointError::DuplicateField),
    (
      valid.replacen("completed_count=0\n", "", 1),
      ScriptedAgentBatchCheckpointError::MissingField,
    ),
    (
      format!("{valid}extra=value\n"),
      ScriptedAgentBatchCheckpointError::UnexpectedLineCount { expected: 6, actual: 7 },
    ),
    (
      valid.replacen("completed_count=0", "completed_count=3", 1),
      ScriptedAgentBatchCheckpointError::InvalidValue,
    ),
  ] {
    assert_eq!(ScriptedAgentBatchCheckpoint::decode(&malformed), Err(expected));
  }
  assert_eq!(
    ScriptedAgentBatchCheckpoint::decode(&"x".repeat(MAX_SCRIPTED_AGENT_BATCH_RUN_BYTES + 1)),
    Err(ScriptedAgentBatchCheckpointError::Oversized)
  );

  let (first, advanced) = ScriptedAgentBatchRunner::run_next(observation, &manifests, checkpoint, 1)
    .expect("first chunk runs");
  assert_eq!(first.len(), 1);
  assert_eq!(advanced.completed_count(), 1);
  let reloaded = ScriptedAgentBatchCheckpoint::decode(&advanced.encode()).expect("advanced reloads");
  assert_eq!(reloaded, advanced);
  let (remaining, complete) =
    ScriptedAgentBatchRunner::run_next(observation, &manifests, reloaded, 16)
      .expect("remaining chunk runs");
  let full = ScriptedAgentBatchRunner::run(observation, &manifests).expect("full batch runs");
  assert_eq!(first[..], full[..1]);
  assert_eq!(remaining, full[1..]);
  assert!(complete.is_complete());
  assert_eq!(complete.completed_count(), 2);
  assert_eq!(
    ScriptedAgentBatchRunner::run_next(observation, &manifests, complete, 1)
      .expect("completed run is idempotent")
      .0,
    Vec::<ScriptedAgentDecision>::new()
  );
  let mismatched_observation = observe_player(&state, ObservationId::new(46)).observation();
  assert_eq!(
    ScriptedAgentBatchRunner::run_next(mismatched_observation, &manifests, complete, 1),
    Err(ScriptedAgentBatchRunError::InputMismatch)
  );
  let reordered = [manifests[1], manifests[0]];
  assert_eq!(
    ScriptedAgentBatchRunner::run_next(observation, &reordered, complete, 1),
    Err(ScriptedAgentBatchRunError::InputMismatch)
  );
}
