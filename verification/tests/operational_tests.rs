use laner_agent::operational::{MAX_SCRIPTED_AGENT_OPERATIONAL_EVENTS, MAX_SCRIPTED_AGENT_OPERATIONAL_LOG_BYTES, MAX_SCRIPTED_AGENT_RUN_DISPOSITION_BYTES, SCRIPTED_AGENT_OPERATIONAL_LOG_SCHEMA, SCRIPTED_AGENT_RUN_DISPOSITION_SCHEMA, ScriptedAgentOperationalEvent, ScriptedAgentOperationalLog, ScriptedAgentOperationalLogCodecError, ScriptedAgentOperationalLogError, ScriptedAgentOperationalLogSequenceReport, ScriptedAgentOperationalLogSequenceStatus, ScriptedAgentRunDisposition, ScriptedAgentRunDispositionCodecError, ScriptedAgentRunDispositionRecord};
#[test]
fn run_disposition_codec_preserves_all_closed_statuses_and_rejects_malformed_text() {
  let dispositions = [
    (ScriptedAgentRunDisposition::Completed, "completed"),
    (ScriptedAgentRunDisposition::Crashed, "crashed"),
    (ScriptedAgentRunDisposition::TimedOut, "timed_out"),
    (ScriptedAgentRunDisposition::MissingBranch, "missing_branch"),
    (ScriptedAgentRunDisposition::Inconclusive, "inconclusive"),
  ];
  for (disposition, expected_id) in dispositions {
    let record = ScriptedAgentRunDispositionRecord::new(disposition);
    assert_eq!(record.schema(), SCRIPTED_AGENT_RUN_DISPOSITION_SCHEMA);
    assert_eq!(record.disposition(), disposition);
    assert_eq!(disposition.id(), expected_id);
    assert_eq!(
      record.encode(),
      format!("schema=m6-scripted-agent-run-disposition-v1\ndisposition={expected_id}\n")
    );
    assert_eq!(
      ScriptedAgentRunDispositionRecord::decode(&record.encode()),
      Ok(record)
    );
  }
  let valid =
    ScriptedAgentRunDispositionRecord::new(ScriptedAgentRunDisposition::Completed).encode();
  assert_eq!(
    valid,
    "schema=m6-scripted-agent-run-disposition-v1\ndisposition=completed\n"
  );
  for (malformed, expected) in [
    (
      valid.replacen(
        "schema=m6-scripted-agent-run-disposition-v1",
        "schema=other",
        1,
      ),
      ScriptedAgentRunDispositionCodecError::UnsupportedSchema,
    ),
    (
      valid.replacen("disposition=completed", "unknown=completed", 1),
      ScriptedAgentRunDispositionCodecError::UnknownField,
    ),
    (
      valid.replacen("schema=", "disposition=", 1),
      ScriptedAgentRunDispositionCodecError::DuplicateField,
    ),
    (
      valid.replacen("disposition=completed\n", "", 1),
      ScriptedAgentRunDispositionCodecError::MissingField,
    ),
    (
      valid.replacen("disposition=completed", "disposition=unknown", 1),
      ScriptedAgentRunDispositionCodecError::InvalidValue,
    ),
    (
      format!("{valid}extra=value\n"),
      ScriptedAgentRunDispositionCodecError::UnexpectedLineCount {
        expected: 2,
        actual: 3,
      },
    ),
  ] {
    assert_eq!(
      ScriptedAgentRunDispositionRecord::decode(&malformed),
      Err(expected)
    );
  }
  assert_eq!(MAX_SCRIPTED_AGENT_RUN_DISPOSITION_BYTES, 4096);
  assert_eq!(
    ScriptedAgentRunDispositionRecord::decode(&"x".repeat(4096)),
    Err(ScriptedAgentRunDispositionCodecError::InvalidValue)
  );
  assert_eq!(
    ScriptedAgentRunDispositionRecord::decode(&"x".repeat(4097)),
    Err(ScriptedAgentRunDispositionCodecError::Oversized)
  );
}

#[test]
fn operational_log_preserves_closed_ordered_events_without_history_payloads() {
  let events = [
    (ScriptedAgentOperationalEvent::BatchStarted, "batch_started"),
    (
      ScriptedAgentOperationalEvent::ChunkCompleted,
      "chunk_completed",
    ),
    (
      ScriptedAgentOperationalEvent::CheckpointSaved,
      "checkpoint_saved",
    ),
    (ScriptedAgentOperationalEvent::BatchResumed, "batch_resumed"),
    (
      ScriptedAgentOperationalEvent::BatchFinished,
      "batch_finished",
    ),
  ];
  let mut log = ScriptedAgentOperationalLog::new();
  assert_eq!(log.schema(), "m6-scripted-agent-operational-event-v1");
  assert!(log.is_empty());
  assert_eq!(log.len(), 0);
  for (event, expected_id) in events {
    assert_eq!(event.id(), expected_id);
    log.append(event).expect("event fits in operational log");
  }
  assert_eq!(log.len(), events.len());
  assert!(!log.is_empty());
  assert_eq!(log.entries()[0].schema(), log.schema());
  assert_eq!(
    log.entries()[0].event(),
    ScriptedAgentOperationalEvent::BatchStarted
  );
  assert_eq!(
    log.entries()[1].event(),
    ScriptedAgentOperationalEvent::ChunkCompleted
  );
  assert_eq!(
    log.entries()[2].event(),
    ScriptedAgentOperationalEvent::CheckpointSaved
  );
  assert_eq!(
    log.entries()[3].event(),
    ScriptedAgentOperationalEvent::BatchResumed
  );
  assert_eq!(
    log.entries()[4].event(),
    ScriptedAgentOperationalEvent::BatchFinished
  );
  assert_eq!(
    log.encode(),
    "schema=m6-scripted-agent-operational-log-v1\nentries=5\nevent=batch_started\nevent=chunk_completed\nevent=checkpoint_saved\nevent=batch_resumed\nevent=batch_finished\n"
  );
  assert_eq!(
    ScriptedAgentOperationalLog::decode(&log.encode()),
    Ok(log.clone())
  );
  let encoded = log.encode();
  for (malformed, expected) in [
    (
      encoded.replacen(
        "schema=m6-scripted-agent-operational-log-v1",
        "schema=other",
        1,
      ),
      ScriptedAgentOperationalLogCodecError::UnsupportedSchema,
    ),
    (
      encoded.replacen("entries=5", "unknown=5", 1),
      ScriptedAgentOperationalLogCodecError::UnknownField,
    ),
    (
      encoded.replacen(
        "entries=5\n",
        "schema=m6-scripted-agent-operational-log-v1\nentries=5\n",
        1,
      ),
      ScriptedAgentOperationalLogCodecError::DuplicateField,
    ),
    (
      encoded.replacen("entries=5\n", "", 1),
      ScriptedAgentOperationalLogCodecError::MissingField,
    ),
    (
      encoded.replacen("event=batch_finished", "event=unknown", 1),
      ScriptedAgentOperationalLogCodecError::InvalidValue,
    ),
    (
      "not-a-field".to_owned(),
      ScriptedAgentOperationalLogCodecError::InvalidValue,
    ),
    (
      "schema=\nentries=0\n".to_owned(),
      ScriptedAgentOperationalLogCodecError::InvalidValue,
    ),
    (
      encoded.replacen("entries=5", "entries=not-a-number", 1),
      ScriptedAgentOperationalLogCodecError::InvalidValue,
    ),
    (
      encoded.replacen("entries=5", "entries=17", 1),
      ScriptedAgentOperationalLogCodecError::InvalidValue,
    ),
    (
      format!("{encoded}event=batch_started\n"),
      ScriptedAgentOperationalLogCodecError::UnexpectedLineCount {
        expected: 7,
        actual: 8,
      },
    ),
    (
      format!(
        "schema=m6-scripted-agent-operational-log-v1\nentries=16\n{}",
        "event=batch_started\n".repeat(17)
      ),
      ScriptedAgentOperationalLogCodecError::UnexpectedLineCount {
        expected: 18,
        actual: 19,
      },
    ),
  ] {
    assert_eq!(
      ScriptedAgentOperationalLog::decode(&malformed),
      Err(expected)
    );
  }
  let swapped_headers = "entries=5\nschema=m6-scripted-agent-operational-log-v1\nevent=batch_started\nevent=chunk_completed\nevent=checkpoint_saved\nevent=batch_resumed\nevent=batch_finished\n";
  assert_eq!(
    ScriptedAgentOperationalLog::decode(swapped_headers),
    Err(ScriptedAgentOperationalLogCodecError::InvalidValue)
  );
  let event_before_headers = "event=batch_started\nentries=5\nschema=m6-scripted-agent-operational-log-v1\nevent=chunk_completed\nevent=checkpoint_saved\nevent=batch_resumed\nevent=batch_finished\n";
  assert_eq!(
    ScriptedAgentOperationalLog::decode(event_before_headers),
    Err(ScriptedAgentOperationalLogCodecError::InvalidValue)
  );
  assert_eq!(MAX_SCRIPTED_AGENT_OPERATIONAL_LOG_BYTES, 4096);
  assert_eq!(
    SCRIPTED_AGENT_OPERATIONAL_LOG_SCHEMA,
    "m6-scripted-agent-operational-log-v1"
  );
  let inclusive_size_input = format!("{}\n", "x".repeat(4095));
  assert_eq!(
    inclusive_size_input.len(),
    MAX_SCRIPTED_AGENT_OPERATIONAL_LOG_BYTES
  );
  assert_eq!(
    ScriptedAgentOperationalLog::decode(&inclusive_size_input),
    Err(ScriptedAgentOperationalLogCodecError::InvalidValue)
  );
  assert_eq!(
    ScriptedAgentOperationalLog::decode(&"x".repeat(4097)),
    Err(ScriptedAgentOperationalLogCodecError::Oversized)
  );
  assert_eq!(MAX_SCRIPTED_AGENT_OPERATIONAL_EVENTS, 16);
  for _ in events.len()..MAX_SCRIPTED_AGENT_OPERATIONAL_EVENTS {
    log
      .append(ScriptedAgentOperationalEvent::BatchStarted)
      .expect("event fits at inclusive cap");
  }
  assert_eq!(log.len(), MAX_SCRIPTED_AGENT_OPERATIONAL_EVENTS);
  let entries_before_overflow = log.entries().to_vec();
  assert_eq!(
    log.append(ScriptedAgentOperationalEvent::BatchFinished),
    Err(ScriptedAgentOperationalLogError::CapacityExceeded {
      max: MAX_SCRIPTED_AGENT_OPERATIONAL_EVENTS,
    })
  );
  assert_eq!(log.len(), MAX_SCRIPTED_AGENT_OPERATIONAL_EVENTS);
  assert_eq!(log.entries(), entries_before_overflow.as_slice());
  assert_eq!(
    ScriptedAgentOperationalLog::decode(&log.encode()),
    Ok(log.clone())
  );
}

#[test]
fn operational_log_sequence_status_is_closed_ordered_and_read_only() {
  let build_log = |events: &[ScriptedAgentOperationalEvent]| {
    let mut log = ScriptedAgentOperationalLog::new();
    for event in events {
      log.append(*event).expect("sequence fixture fits");
    }
    log
  };
  let complete = build_log(&[
    ScriptedAgentOperationalEvent::BatchStarted,
    ScriptedAgentOperationalEvent::ChunkCompleted,
    ScriptedAgentOperationalEvent::BatchFinished,
  ]);
  let before = complete.clone();
  let report = ScriptedAgentOperationalLogSequenceReport::from_log(&complete);
  assert_eq!(
    report.schema(),
    "m6-scripted-agent-operational-log-sequence-v1"
  );
  assert_eq!(report.rule(), "m6-operational-start-chunk-finish-v1");
  assert_eq!(
    report.status(),
    ScriptedAgentOperationalLogSequenceStatus::Complete
  );
  assert_eq!(report.status().id(), "complete");
  assert_eq!(
    ScriptedAgentOperationalLogSequenceReport::from_log(&complete),
    report,
    "repeated sequence classification is deterministic"
  );
  assert_eq!(
    complete, before,
    "status inspection does not mutate the log"
  );

  let optional = build_log(&[
    ScriptedAgentOperationalEvent::BatchStarted,
    ScriptedAgentOperationalEvent::ChunkCompleted,
    ScriptedAgentOperationalEvent::CheckpointSaved,
    ScriptedAgentOperationalEvent::BatchResumed,
    ScriptedAgentOperationalEvent::BatchFinished,
  ]);
  assert_eq!(
    ScriptedAgentOperationalLogSequenceReport::from_log(&optional).status(),
    ScriptedAgentOperationalLogSequenceStatus::Complete
  );

  for (events, expected) in [
    (
      &[][..],
      ScriptedAgentOperationalLogSequenceStatus::MissingStart,
    ),
    (
      &[ScriptedAgentOperationalEvent::BatchStarted][..],
      ScriptedAgentOperationalLogSequenceStatus::MissingChunk,
    ),
    (
      &[
        ScriptedAgentOperationalEvent::BatchStarted,
        ScriptedAgentOperationalEvent::ChunkCompleted,
      ][..],
      ScriptedAgentOperationalLogSequenceStatus::MissingFinish,
    ),
    (
      &[
        ScriptedAgentOperationalEvent::ChunkCompleted,
        ScriptedAgentOperationalEvent::BatchFinished,
      ][..],
      ScriptedAgentOperationalLogSequenceStatus::InvalidOrder,
    ),
    (
      &[
        ScriptedAgentOperationalEvent::BatchStarted,
        ScriptedAgentOperationalEvent::CheckpointSaved,
        ScriptedAgentOperationalEvent::ChunkCompleted,
        ScriptedAgentOperationalEvent::BatchFinished,
      ][..],
      ScriptedAgentOperationalLogSequenceStatus::InvalidOrder,
    ),
    (
      &[
        ScriptedAgentOperationalEvent::BatchStarted,
        ScriptedAgentOperationalEvent::ChunkCompleted,
        ScriptedAgentOperationalEvent::BatchFinished,
        ScriptedAgentOperationalEvent::BatchStarted,
      ][..],
      ScriptedAgentOperationalLogSequenceStatus::InvalidOrder,
    ),
  ] {
    assert_eq!(
      ScriptedAgentOperationalLogSequenceReport::from_log(&build_log(events)).status(),
      expected
    );
  }
  assert_eq!(
    [
      ScriptedAgentOperationalLogSequenceStatus::Complete,
      ScriptedAgentOperationalLogSequenceStatus::MissingStart,
      ScriptedAgentOperationalLogSequenceStatus::MissingChunk,
      ScriptedAgentOperationalLogSequenceStatus::MissingFinish,
      ScriptedAgentOperationalLogSequenceStatus::InvalidOrder,
    ]
    .into_iter()
    .map(ScriptedAgentOperationalLogSequenceStatus::id)
    .collect::<Vec<_>>(),
    vec![
      "complete",
      "missing_start",
      "missing_chunk",
      "missing_finish",
      "invalid_order"
    ]
  );
}
