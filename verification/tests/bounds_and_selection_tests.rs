use laner_agent::batch::{ScriptedAgentBatchCheckpoint, ScriptedAgentBatchError, ScriptedAgentBatchRunError, ScriptedAgentBatchRunner, MAX_SCRIPTED_AGENT_BATCH_RUN_BYTES};
use laner_agent::lane::{DrawId, LaneSnapshot, ObservationId, StreamId, observe_player};
use laner_agent::operational::{ScriptedAgentOperationalEvent, ScriptedAgentOperationalLog, ScriptedAgentOperationalLogError, ScriptedAgentRunDisposition, ScriptedAgentRunDispositionRecord, MAX_SCRIPTED_AGENT_OPERATIONAL_EVENTS, MAX_SCRIPTED_AGENT_OPERATIONAL_LOG_BYTES};
use laner_agent::policy::ScriptedAgent;
use laner_agent::profile::{ScriptedAgentExperimentManifest, ScriptedAgentProfile, ScriptedAgentSeedBundle, MAX_SCRIPTED_AGENT_MANIFEST_BYTES};

fn manifest(seed: u64) -> ScriptedAgentExperimentManifest {
  ScriptedAgentExperimentManifest::new(
    ScriptedAgentProfile::cautious_v1(),
    ScriptedAgentSeedBundle::new(seed, StreamId::new(7), DrawId::new(9)),
  )
}

#[test]
fn operational_log_never_exceeds_its_cap() {
  let mut log = ScriptedAgentOperationalLog::new();
  for _ in 0..MAX_SCRIPTED_AGENT_OPERATIONAL_EVENTS {
    assert_eq!(log.append(ScriptedAgentOperationalEvent::ChunkCompleted), Ok(()));
  }
  let full = log.clone();
  assert_eq!(
    log.append(ScriptedAgentOperationalEvent::BatchFinished),
    Err(ScriptedAgentOperationalLogError::CapacityExceeded { max: MAX_SCRIPTED_AGENT_OPERATIONAL_EVENTS })
  );
  assert_eq!(log, full);
  assert_eq!(log.len(), MAX_SCRIPTED_AGENT_OPERATIONAL_EVENTS);
  let text = log.encode();
  assert!(text.is_ascii());
  assert!(text.len() <= MAX_SCRIPTED_AGENT_OPERATIONAL_LOG_BYTES);
  assert_eq!(ScriptedAgentOperationalLog::decode(&text), Ok(log));
}

#[test]
fn encoded_texts_are_ascii_within_caps_and_read_back() {
  let m = ScriptedAgentExperimentManifest::new(
    ScriptedAgentProfile::risk_taking_v1(),
    ScriptedAgentSeedBundle::new(u64::MAX, StreamId::new(255), DrawId::new(u16::MAX)),
  );
  let text = m.encode();
  assert!(text.is_ascii() && text.len() <= MAX_SCRIPTED_AGENT_MANIFEST_BYTES);
  assert_eq!(ScriptedAgentExperimentManifest::decode(&text), Ok(m));

  let record = ScriptedAgentRunDispositionRecord::new(ScriptedAgentRunDisposition::MissingBranch);
  let text = record.encode();
  assert!(text.is_ascii());
  assert_eq!(ScriptedAgentRunDispositionRecord::decode(&text), Ok(record));

  let observation = observe_player(&LaneSnapshot::initial(), ObservationId::new(u64::MAX)).observation();
  let manifests: Vec<_> = (0..16).map(manifest).collect();
  let checkpoint = ScriptedAgentBatchCheckpoint::new(observation, &manifests).unwrap();
  let text = checkpoint.encode();
  assert!(text.is_ascii() && text.len() <= MAX_SCRIPTED_AGENT_BATCH_RUN_BYTES);
  assert_eq!(ScriptedAgentBatchCheckpoint::decode(&text), Ok(checkpoint));
}

#[test]
fn batch_errors_come_before_any_decision() {
  let observation = observe_player(&LaneSnapshot::initial(), ObservationId::new(4)).observation();
  assert_eq!(ScriptedAgentBatchRunner::run(observation, &[]), Err(ScriptedAgentBatchError::EmptyBatch));
  let many: Vec<_> = (0..17).map(manifest).collect();
  assert_eq!(
    ScriptedAgentBatchRunner::run(observation, &many),
    Err(ScriptedAgentBatchError::BatchTooLarge { max: 16, actual: 17 })
  );
  let few = [manifest(1)];
  let checkpoint = ScriptedAgentBatchCheckpoint::new(observation, &few).unwrap();
  assert_eq!(
    ScriptedAgentBatchRunner::run_next(observation, &few, checkpoint, 0),
    Err(ScriptedAgentBatchRunError::ChunkSizeZero)
  );
}

#[test]
fn seeded_and_stable_picks_have_the_top_score() {
  let observation = observe_player(&LaneSnapshot::initial(), ObservationId::new(21)).observation();
  for agent in [ScriptedAgent::cautious_v1(), ScriptedAgent::risk_taking_v1(), ScriptedAgent::yielding_v1()] {
    let stable = agent.decide(observation);
    let top = stable.candidates().iter().map(|c| c.score()).max().unwrap();
    let first = stable.candidates().iter().find(|c| c.score() == top).unwrap();
    assert_eq!(stable.selected_intent(), first.intent());
    for seed in 0..8 {
      let seeded = agent.choose_with_seed(observation, ScriptedAgentSeedBundle::new(seed, StreamId::new(1), DrawId::new(2)));
      let pick = seeded
        .candidates()
        .iter()
        .find(|c| c.intent() == seeded.selected_intent())
        .unwrap();
      assert_eq!(pick.score(), top);
    }
  }
}
