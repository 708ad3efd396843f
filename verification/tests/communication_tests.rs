use laner_agent::communication::{TeamCommunicationCatalog, TeamCommunicationError, TeamConditionEvaluator, TeamConfidenceLevel, TeamDialogueCatalog, TeamDialogueSession, TeamDialogueStatus, TeamDissentReason, TeamEvaluationOutcome, TeamMessageCondition, TeamMessageEnvelope, TeamMessageUrgency, TeamMessageVisibility, TeamRecipient, TeamSpeechAct, TeamSpeechActProfile, MAX_DIALOGUE_MESSAGES, MAX_DIALOGUE_ROUNDS, TEAM_DIALOGUE_SCHEMA, TEAM_MESSAGE_ENVELOPE_SCHEMA};
use laner_agent::lane::{LaneActorRole, LaneIntent};

fn envelope(
  sender: LaneActorRole,
  recipient: TeamRecipient,
  act: TeamSpeechAct,
  intent: Option<LaneIntent>,
) -> TeamMessageEnvelope {
  TeamMessageEnvelope::new(
    "msg-test-v1",
    sender,
    recipient,
    act,
    intent,
    TeamMessageUrgency::Standard,
    TeamConfidenceLevel::Confident,
    TeamMessageCondition::Unconditional,
    TeamMessageVisibility::TeamOnly,
    3,
    "Test message.",
  )
}

fn session() -> TeamDialogueSession {
  TeamDialogueSession::new(
    "dialogue-test-v1",
    LaneActorRole::AlliedAutonomous,
    LaneActorRole::HumanLaner,
    3,
  )
}

#[test]
fn communication_labels_round_trip() {
  for a in TeamSpeechAct::all() {
    assert_eq!(TeamSpeechAct::parse(a.as_str()), Some(a));
  }
  for u in TeamMessageUrgency::all() {
    assert_eq!(TeamMessageUrgency::parse(u.as_str()), Some(u));
  }
  for c in TeamConfidenceLevel::all() {
    assert_eq!(TeamConfidenceLevel::parse(c.as_str()), Some(c));
  }
  for c in TeamMessageCondition::all() {
    assert_eq!(TeamMessageCondition::parse(c.as_str()), Some(c));
  }
  for s in TeamDialogueStatus::all() {
    assert_eq!(TeamDialogueStatus::parse(s.as_str()), Some(s));
  }
  for d in TeamDissentReason::all() {
    assert_eq!(TeamDissentReason::parse(d.as_str()), Some(d));
  }
  assert_eq!(TeamDissentReason::parse("low-health"), Some(TeamDissentReason::LowHealth));
  assert_eq!(TeamDissentReason::LowHealth.as_str(), "low-health");
  assert_eq!(TeamSpeechAct::parse("no-such-act"), None);
  assert_eq!(TeamDialogueStatus::parse(""), None);
}

#[test]
fn condition_evaluator_reads_each_prerequisite() {
  let c = TeamConditionEvaluator::is_condition_satisfied;
  assert!(c(TeamMessageCondition::Unconditional, 0, true, false, 0));
  assert!(c(TeamMessageCondition::HealthAboveThreshold, 3, false, false, 0));
  assert!(!c(TeamMessageCondition::HealthAboveThreshold, 2, false, false, 0));
  assert!(c(TeamMessageCondition::ThreatAbsent, 0, false, false, 0));
  assert!(!c(TeamMessageCondition::ThreatAbsent, 5, true, true, 5));
  assert!(c(TeamMessageCondition::AlliedPresence, 0, true, true, 0));
  assert!(!c(TeamMessageCondition::AlliedPresence, 5, false, false, 5));
  assert!(c(TeamMessageCondition::ResourceSufficient, 0, false, false, 2));
  assert!(!c(TeamMessageCondition::ResourceSufficient, 5, false, true, 1));
}

#[test]
fn speech_act_profiles_evaluate_proposals() {
  let cautious = TeamSpeechActProfile::Cautious;
  assert_eq!(
    cautious.evaluate_proposal(LaneIntent::Contest, 5, true, 3, 3),
    TeamEvaluationOutcome::Dissent(TeamDissentReason::ThreatDetected)
  );
  assert_eq!(
    cautious.evaluate_proposal(LaneIntent::Contest, 2, false, 3, 3),
    TeamEvaluationOutcome::Dissent(TeamDissentReason::LowHealth)
  );
  assert_eq!(
    cautious.evaluate_proposal(LaneIntent::Contest, 5, false, 1, 3),
    TeamEvaluationOutcome::Counter(LaneIntent::Stabilize)
  );
  assert_eq!(
    cautious.evaluate_proposal(LaneIntent::Contest, 5, false, 2, 3),
    TeamEvaluationOutcome::Conditional(LaneIntent::Contest, TeamMessageCondition::ThreatAbsent)
  );
  assert_eq!(
    cautious.evaluate_proposal(LaneIntent::Recall, 5, false, 2, 3),
    TeamEvaluationOutcome::Accept(LaneIntent::Recall)
  );
  let risky = TeamSpeechActProfile::RiskTaking;
  assert_eq!(
    risky.evaluate_proposal(LaneIntent::Stabilize, 4, false, 0, 2),
    TeamEvaluationOutcome::Counter(LaneIntent::Contest)
  );
  assert_eq!(
    risky.evaluate_proposal(LaneIntent::Stabilize, 4, false, 0, 1),
    TeamEvaluationOutcome::Accept(LaneIntent::Stabilize)
  );
  assert_eq!(
    risky.evaluate_proposal(LaneIntent::Contest, 1, false, 0, 2),
    TeamEvaluationOutcome::Dissent(TeamDissentReason::LowHealth)
  );
  let yielding = TeamSpeechActProfile::Yielding;
  assert_eq!(
    yielding.evaluate_proposal(LaneIntent::Contest, 1, true, 0, 0),
    TeamEvaluationOutcome::Dissent(TeamDissentReason::LowHealth)
  );
  assert_eq!(
    yielding.evaluate_proposal(LaneIntent::Contest, 3, true, 0, 0),
    TeamEvaluationOutcome::Conditional(LaneIntent::Contest, TeamMessageCondition::AlliedPresence)
  );
  assert_eq!(
    yielding.evaluate_proposal(LaneIntent::Yield, 3, true, 0, 0),
    TeamEvaluationOutcome::Accept(LaneIntent::Yield)
  );
}

#[test]
fn envelope_validation_reports_each_refusal() {
  let ok = envelope(
    LaneActorRole::AlliedAutonomous,
    TeamRecipient::Broadcast,
    TeamSpeechAct::Proposal,
    Some(LaneIntent::Contest),
  );
  assert_eq!(ok.validate(), Ok(()));
  assert_eq!(ok.schema(), TEAM_MESSAGE_ENVELOPE_SCHEMA);
  assert!(!ok.chain_of_thought_present());
  let self_addressed = envelope(
    LaneActorRole::HumanLaner,
    TeamRecipient::Direct(LaneActorRole::HumanLaner),
    TeamSpeechAct::Proposal,
    None,
  );
  assert_eq!(
    self_addressed.validate(),
    Err(TeamCommunicationError::SelfAddressingForbidden)
  );
  let unnamed = TeamMessageEnvelope::new(
    "",
    LaneActorRole::HumanLaner,
    TeamRecipient::Broadcast,
    TeamSpeechAct::Proposal,
    None,
    TeamMessageUrgency::Low,
    TeamConfidenceLevel::Confident,
    TeamMessageCondition::Unconditional,
    TeamMessageVisibility::Public,
    0,
    "",
  );
  assert_eq!(unnamed.validate(), Err(TeamCommunicationError::EmptyMessageId));
  let thinking = TeamMessageEnvelope::with_chain_of_thought_flag(
    "",
    LaneActorRole::HumanLaner,
    TeamRecipient::Direct(LaneActorRole::HumanLaner),
    TeamSpeechAct::Proposal,
    None,
    TeamMessageUrgency::Low,
    TeamConfidenceLevel::Confident,
    TeamMessageCondition::Unconditional,
    TeamMessageVisibility::Public,
    0,
    "",
    true,
  );
  assert!(thinking.chain_of_thought_present());
  assert_eq!(thinking.validate(), Err(TeamCommunicationError::ChainOfThoughtForbidden));
}

#[test]
fn envelope_visibility_follows_its_scope() {
  let direct = TeamMessageEnvelope::new(
    "msg-direct-v1",
    LaneActorRole::AlliedAutonomous,
    TeamRecipient::Direct(LaneActorRole::HumanLaner),
    TeamSpeechAct::Proposal,
    None,
    TeamMessageUrgency::Low,
    TeamConfidenceLevel::Confident,
    TeamMessageCondition::Unconditional,
    TeamMessageVisibility::DirectOnly,
    0,
    "Direct.",
  );
  assert!(direct.is_visible_to(LaneActorRole::HumanLaner, false));
  assert!(direct.is_visible_to(LaneActorRole::AlliedAutonomous, false));
  assert!(!direct.is_visible_to(LaneActorRole::OpposingLaner, true));
  let team = TeamCommunicationCatalog::proposal_contest_v1();
  assert!(team.is_visible_to(LaneActorRole::OpposingLaner, true));
  assert!(!team.is_visible_to(LaneActorRole::HumanLaner, false));
  assert!(TeamRecipient::Broadcast.matches_recipient(LaneActorRole::OpposingJungleThreat));
  assert!(!TeamRecipient::Direct(LaneActorRole::HumanLaner).matches_recipient(LaneActorRole::AlliedAutonomous));
}

#[test]
fn dialogue_follows_proposal_negotiation_and_agreement() {
  let mut s = session();
  assert_eq!(s.schema(), TEAM_DIALOGUE_SCHEMA);
  assert_eq!(s.status(), TeamDialogueStatus::Idle);
  assert_eq!(s.round(), 0);
  assert_eq!(s.step(TeamCommunicationCatalog::proposal_contest_v1()), Ok(TeamDialogueStatus::Proposed));
  assert_eq!(s.active_intent(), Some(LaneIntent::Contest));
  assert_eq!(s.active_condition(), TeamMessageCondition::ThreatAbsent);
  assert_eq!(
    s.step(TeamCommunicationCatalog::counter_proposal_stabilize_v1()),
    Ok(TeamDialogueStatus::Negotiating)
  );
  assert_eq!(s.round(), 1);
  assert_eq!(s.active_intent(), Some(LaneIntent::Stabilize));
  assert_eq!(s.active_condition(), TeamMessageCondition::Unconditional);
  let proposal = envelope(
    LaneActorRole::AlliedAutonomous,
    TeamRecipient::Broadcast,
    TeamSpeechAct::Proposal,
    Some(LaneIntent::Contest),
  );
  assert_eq!(s.step(proposal), Err(TeamCommunicationError::InvalidTransition));
  assert_eq!(s.history().len(), 2);
  assert_eq!(
    s.step(TeamCommunicationCatalog::confirmation_contest_v1()),
    Ok(TeamDialogueStatus::Agreed)
  );
  assert_eq!(
    s.step(TeamCommunicationCatalog::confirmation_contest_v1()),
    Err(TeamCommunicationError::SessionAlreadyClosed)
  );
  assert_eq!(s.step(TeamCommunicationCatalog::withdrawal_call_v1()), Ok(TeamDialogueStatus::Aborted));
  assert!(s.status().is_terminal());
  assert_eq!(
    s.step(TeamCommunicationCatalog::failure_report_v1()),
    Err(TeamCommunicationError::SessionAlreadyClosed)
  );
  assert_eq!(s.history().len(), 4);
  assert_eq!(s.round(), 1);
}

#[test]
fn refused_dialogue_step_leaves_the_session_unchanged() {
  let mut s = session();
  let confirmation = TeamCommunicationCatalog::confirmation_contest_v1();
  assert_eq!(s.step(confirmation), Err(TeamCommunicationError::InvalidTransition));
  assert_eq!(s.status(), TeamDialogueStatus::Idle);
  assert_eq!(s.history().len(), 0);
  assert_eq!(s.active_intent(), None);
  let outsider = envelope(
    LaneActorRole::OpposingLaner,
    TeamRecipient::Broadcast,
    TeamSpeechAct::Proposal,
    Some(LaneIntent::Contest),
  );
  assert_eq!(s.step(outsider), Err(TeamCommunicationError::ActorMismatch));
  let stray = envelope(
    LaneActorRole::HumanLaner,
    TeamRecipient::Direct(LaneActorRole::OpposingLaner),
    TeamSpeechAct::Proposal,
    Some(LaneIntent::Contest),
  );
  assert_eq!(s.step(stray), Err(TeamCommunicationError::ActorMismatch));
  let self_addressed = envelope(
    LaneActorRole::HumanLaner,
    TeamRecipient::Direct(LaneActorRole::HumanLaner),
    TeamSpeechAct::Proposal,
    None,
  );
  assert_eq!(s.step(self_addressed), Err(TeamCommunicationError::SelfAddressingForbidden));
  assert_eq!(s.status(), TeamDialogueStatus::Idle);
  assert_eq!(s.history().len(), 0);
  assert_eq!(s.turn(), 3);
  assert_eq!(s.session_id(), "dialogue-test-v1");
  assert_eq!(s.initiator(), LaneActorRole::AlliedAutonomous);
  assert_eq!(s.responder(), LaneActorRole::HumanLaner);
}

#[test]
fn negotiation_rounds_and_history_are_bounded() {
  let mut s = session();
  assert_eq!(s.step(TeamCommunicationCatalog::proposal_contest_v1()), Ok(TeamDialogueStatus::Proposed));
  for round in 1..=MAX_DIALOGUE_ROUNDS {
    assert_eq!(
      s.step(TeamCommunicationCatalog::counter_proposal_stabilize_v1()),
      Ok(TeamDialogueStatus::Negotiating)
    );
    assert_eq!(s.round(), round);
  }
  assert_eq!(
    s.step(TeamCommunicationCatalog::counter_proposal_stabilize_v1()),
    Err(TeamCommunicationError::MaxRoundsExceeded)
  );
  assert_eq!(s.round(), MAX_DIALOGUE_ROUNDS);
  assert_eq!(s.history().len(), 5);

  let mut c = session();
  for _ in 0..MAX_DIALOGUE_MESSAGES {
    assert_eq!(
      c.step(TeamCommunicationCatalog::clarification_timing_v1()),
      Ok(TeamDialogueStatus::Clarifying)
    );
  }
  assert_eq!(
    c.step(TeamCommunicationCatalog::clarification_timing_v1()),
    Err(TeamCommunicationError::MaxHistoryExceeded)
  );
  assert_eq!(c.history().len(), MAX_DIALOGUE_MESSAGES);
}

#[test]
fn canonical_dialogues_reach_their_documented_outcomes() {
  let expected = [
    ("dialogue-agreed-contest-v1", TeamDialogueStatus::Agreed, 2, 0, Some(LaneIntent::Contest)),
    ("dialogue-dissent-threat-v1", TeamDialogueStatus::Diverged, 2, 0, Some(LaneIntent::Contest)),
    ("dialogue-counter-negotiation-v1", TeamDialogueStatus::Agreed, 3, 1, Some(LaneIntent::Stabilize)),
    ("dialogue-clarification-v1", TeamDialogueStatus::Agreed, 3, 0, Some(LaneIntent::Contest)),
    ("dialogue-conditional-commitment-v1", TeamDialogueStatus::Agreed, 3, 1, Some(LaneIntent::Contest)),
    ("dialogue-withdrawal-v1", TeamDialogueStatus::Aborted, 3, 1, Some(LaneIntent::Contest)),
    ("dialogue-failure-recovery-v1", TeamDialogueStatus::Failed, 3, 0, Some(LaneIntent::Contest)),
  ];
  let all = TeamDialogueCatalog::all_dialogues();
  assert_eq!(all.len(), expected.len());
  for (d, (id, status, len, round, intent)) in all.iter().zip(expected) {
    assert_eq!(d.session_id(), id);
    assert_eq!(d.status(), status);
    assert_eq!(d.history().len(), len);
    assert_eq!(d.round(), round);
    assert_eq!(d.active_intent(), intent);
    let found = TeamDialogueCatalog::validate_dialogue(id).unwrap();
    assert_eq!(found.status(), status);
    assert_eq!(found.format_markdown(), d.format_markdown());
  }
  assert!(TeamDialogueCatalog::lookup("dialogue-unknown-v1").is_none());
  assert_eq!(
    TeamDialogueCatalog::validate_dialogue("dialogue-unknown-v1").err(),
    Some(TeamCommunicationError::UnknownDialogueId)
  );
}

#[test]
fn canonical_envelopes_validate_and_are_found_by_id() {
  for e in TeamCommunicationCatalog::all_envelopes() {
    assert_eq!(e.validate(), Ok(()));
    assert_eq!(TeamCommunicationCatalog::lookup(e.message_id()), Some(e));
    assert_eq!(TeamCommunicationCatalog::validate_message_id(e.message_id()), Ok(e));
  }
  let p = TeamCommunicationCatalog::proposal_contest_v1();
  assert_eq!(p.message_id(), "msg-proposal-contest-v1");
  assert_eq!(p.sender(), LaneActorRole::AlliedAutonomous);
  assert_eq!(p.recipient(), TeamRecipient::Direct(LaneActorRole::HumanLaner));
  assert_eq!(p.speech_act(), TeamSpeechAct::Proposal);
  assert_eq!(p.proposed_intent(), Some(LaneIntent::Contest));
  assert_eq!(p.urgency(), TeamMessageUrgency::Standard);
  assert_eq!(p.confidence(), TeamConfidenceLevel::Confident);
  assert_eq!(p.condition(), TeamMessageCondition::ThreatAbsent);
  assert_eq!(p.visibility(), TeamMessageVisibility::TeamOnly);
  assert_eq!(p.turn(), 1);
  assert_eq!(
    p.content_summary(),
    "Propose coordinated wave contest if river threat remains clear."
  );
  assert_eq!(TeamCommunicationCatalog::lookup("msg-unknown-v1"), None);
  assert_eq!(
    TeamCommunicationCatalog::validate_message_id("msg-unknown-v1"),
    Err(TeamCommunicationError::UnknownEnvelopeId)
  );
}

#[test]
fn envelope_markdown_lists_every_field() {
  let md = TeamCommunicationCatalog::withdrawal_call_v1().format_markdown();
  assert!(md.starts_with("### Message `msg-withdrawal-call-v1`\n"), "{md}");
  assert!(md.contains("- **Speech Act:** withdrawal\n"), "{md}");
  assert!(md.contains("- **Proposed Intent:** withdraw\n"), "{md}");
  assert!(md.contains("- **Urgency:** critical\n"), "{md}");
  assert!(md.contains("- **Turn:** 2\n"), "{md}");
  assert!(md.ends_with("- **Chain-of-Thought Free:** true\n"), "{md}");
  assert_eq!(md.lines().count(), 12);
}

#[test]
fn dialogue_markdown_has_header_and_transcript() {
  let d = TeamDialogueCatalog::dialogue_withdrawal_v1().unwrap();
  let md = d.format_markdown();
  assert!(md.starts_with("## Team Dialogue `dialogue-withdrawal-v1`\n"), "{md}");
  assert!(md.contains("- **Status:** aborted\n"), "{md}");
  assert!(md.contains("- **Negotiation Rounds:** 1\n"), "{md}");
  assert!(md.contains("- **Message Count:** 3\n\n### Transcript\n"), "{md}");
  assert!(md.contains("**3. [withdrawal] "), "{md}");
  assert!(md.contains("*(intent: Some(Withdraw), condition: threat-absent, urgency: critical)*\n"), "{md}");
  assert_eq!(md.lines().count(), 14);
}
