use laner_agent::lane::{LaneIntent};
use laner_agent::semantic::{CAUTIOUS_SEMANTIC_PROFILE_ID, CHOICE_CONTEST_CONCEDE_ID, CHOICE_FARM_ASSIST_ID, CHOICE_FOLLOW_REJECT_ID, CHOICE_RECALL_TIMING_ID, CHOICE_RESPONSE_TO_FAILURE_ID, CHOICE_SACRIFICE_ID, CHOICE_SURPRISE_ID, DIAGNOSTIC_CHOICE_CATALOG_SCHEMA, DiagnosticChoiceCatalog, DiagnosticChoiceCatalogError, DiagnosticChoiceDefinition, DiagnosticChoiceDomain, RISK_TAKING_SEMANTIC_PROFILE_ID, SEMANTIC_PROFILE_VOCABULARY_SCHEMA, SemanticCommunicationClarity, SemanticDeference, SemanticFocus, SemanticProfileDefinition, SemanticProfileVocabulary, SemanticProfileVocabularyError, SemanticRiskTolerance, YIELDING_SEMANTIC_PROFILE_ID};
#[test]
fn semantic_profile_dimensions_round_trip_and_reject_invalid() {
  for (val, label) in [
    (SemanticRiskTolerance::Cautious, "cautious"),
    (SemanticRiskTolerance::Balanced, "balanced"),
    (SemanticRiskTolerance::RiskSeeking, "risk-seeking"),
  ] {
    assert_eq!(val.as_str(), label);
    assert_eq!(SemanticRiskTolerance::parse(label), Some(val));
  }
  assert_eq!(SemanticRiskTolerance::parse("unknown"), None);

  for (val, label) in [
    (SemanticDeference::Autonomous, "autonomous"),
    (SemanticDeference::Compliant, "compliant"),
    (SemanticDeference::Yielding, "yielding"),
  ] {
    assert_eq!(val.as_str(), label);
    assert_eq!(SemanticDeference::parse(label), Some(val));
  }
  assert_eq!(SemanticDeference::parse("unknown"), None);

  for (val, label) in [
    (SemanticFocus::Patience, "patience"),
    (SemanticFocus::Opportunity, "opportunity"),
    (SemanticFocus::Urgency, "urgency"),
  ] {
    assert_eq!(val.as_str(), label);
    assert_eq!(SemanticFocus::parse(label), Some(val));
  }
  assert_eq!(SemanticFocus::parse("unknown"), None);

  for (val, label) in [
    (SemanticCommunicationClarity::Terse, "terse"),
    (SemanticCommunicationClarity::Standard, "standard"),
    (SemanticCommunicationClarity::Verbose, "verbose"),
  ] {
    assert_eq!(val.as_str(), label);
    assert_eq!(SemanticCommunicationClarity::parse(label), Some(val));
  }
  assert_eq!(SemanticCommunicationClarity::parse("unknown"), None);
}

#[test]
fn semantic_profile_definitions_and_vocabulary_lookup_are_canonical() {
  let cautious = SemanticProfileDefinition::cautious_v1();
  let risk_taking = SemanticProfileDefinition::risk_taking_v1();
  let yielding = SemanticProfileDefinition::yielding_v1();

  assert_eq!(cautious.schema(), SEMANTIC_PROFILE_VOCABULARY_SCHEMA);
  assert_eq!(risk_taking.schema(), SEMANTIC_PROFILE_VOCABULARY_SCHEMA);
  assert_eq!(yielding.schema(), SEMANTIC_PROFILE_VOCABULARY_SCHEMA);

  assert_eq!(cautious.profile_id(), CAUTIOUS_SEMANTIC_PROFILE_ID);
  assert_eq!(risk_taking.profile_id(), RISK_TAKING_SEMANTIC_PROFILE_ID);
  assert_eq!(yielding.profile_id(), YIELDING_SEMANTIC_PROFILE_ID);

  assert_eq!(cautious.risk_tolerance(), SemanticRiskTolerance::Cautious);
  assert_eq!(cautious.deference(), SemanticDeference::Autonomous);
  assert_eq!(cautious.focus(), SemanticFocus::Patience);
  assert_eq!(
    cautious.communication_clarity(),
    SemanticCommunicationClarity::Terse
  );
  assert!(!cautious.description().is_empty());

  assert_eq!(
    risk_taking.risk_tolerance(),
    SemanticRiskTolerance::RiskSeeking
  );
  assert_eq!(risk_taking.deference(), SemanticDeference::Autonomous);
  assert_eq!(risk_taking.focus(), SemanticFocus::Opportunity);
  assert_eq!(
    risk_taking.communication_clarity(),
    SemanticCommunicationClarity::Standard
  );
  assert!(!risk_taking.description().is_empty());

  assert_eq!(yielding.risk_tolerance(), SemanticRiskTolerance::Cautious);
  assert_eq!(yielding.deference(), SemanticDeference::Yielding);
  assert_eq!(yielding.focus(), SemanticFocus::Patience);
  assert_eq!(
    yielding.communication_clarity(),
    SemanticCommunicationClarity::Terse
  );
  assert!(!yielding.description().is_empty());

  let all = SemanticProfileVocabulary::all_profiles();
  assert_eq!(all.len(), 3);
  assert_eq!(all[0], cautious);
  assert_eq!(all[1], risk_taking);
  assert_eq!(all[2], yielding);

  assert_eq!(
    SemanticProfileVocabulary::lookup(CAUTIOUS_SEMANTIC_PROFILE_ID),
    Some(cautious)
  );
  assert_eq!(
    SemanticProfileVocabulary::lookup(RISK_TAKING_SEMANTIC_PROFILE_ID),
    Some(risk_taking)
  );
  assert_eq!(
    SemanticProfileVocabulary::lookup(YIELDING_SEMANTIC_PROFILE_ID),
    Some(yielding)
  );
  assert_eq!(SemanticProfileVocabulary::lookup("unknown-profile"), None);

  assert_eq!(
    SemanticProfileVocabulary::validate_profile_id(CAUTIOUS_SEMANTIC_PROFILE_ID),
    Ok(cautious)
  );
  assert_eq!(
    SemanticProfileVocabulary::validate_profile_id(RISK_TAKING_SEMANTIC_PROFILE_ID),
    Ok(risk_taking)
  );
  assert_eq!(
    SemanticProfileVocabulary::validate_profile_id(YIELDING_SEMANTIC_PROFILE_ID),
    Ok(yielding)
  );
  assert_eq!(
    SemanticProfileVocabulary::validate_profile_id("unknown-profile"),
    Err(SemanticProfileVocabularyError::UnknownProfile)
  );
}

#[test]
fn diagnostic_choice_domains_and_catalog_are_canonical() {
  for (domain, label) in [
    (DiagnosticChoiceDomain::ContestConcede, "contest-concede"),
    (DiagnosticChoiceDomain::FollowReject, "follow-reject"),
    (DiagnosticChoiceDomain::FarmAssist, "farm-assist"),
    (DiagnosticChoiceDomain::RecallTiming, "recall-timing"),
    (DiagnosticChoiceDomain::Sacrifice, "sacrifice"),
    (DiagnosticChoiceDomain::Surprise, "surprise"),
    (
      DiagnosticChoiceDomain::ResponseToFailure,
      "response-to-failure",
    ),
  ] {
    assert_eq!(domain.as_str(), label);
    assert_eq!(DiagnosticChoiceDomain::parse(label), Some(domain));
  }
  assert_eq!(DiagnosticChoiceDomain::parse("unknown"), None);

  let cc = DiagnosticChoiceDefinition::contest_concede_v1();
  let fr = DiagnosticChoiceDefinition::follow_reject_v1();
  let fa = DiagnosticChoiceDefinition::farm_assist_v1();
  let rt = DiagnosticChoiceDefinition::recall_timing_v1();
  let sc = DiagnosticChoiceDefinition::sacrifice_v1();
  let sp = DiagnosticChoiceDefinition::surprise_v1();
  let rf = DiagnosticChoiceDefinition::response_to_failure_v1();

  for choice in [cc, fr, fa, rt, sc, sp, rf] {
    assert_eq!(choice.schema(), DIAGNOSTIC_CHOICE_CATALOG_SCHEMA);
    assert!(!choice.choice_id().is_empty());
    assert!(!choice.intended_contrast().is_empty());
    assert!(!choice.description().is_empty());
    assert_ne!(choice.primary_intent(), choice.alternative_intent());
  }

  assert_eq!(cc.choice_id(), CHOICE_CONTEST_CONCEDE_ID);
  assert_eq!(cc.domain(), DiagnosticChoiceDomain::ContestConcede);
  assert_eq!(cc.primary_intent(), LaneIntent::Contest);
  assert_eq!(cc.alternative_intent(), LaneIntent::Yield);

  assert_eq!(fr.choice_id(), CHOICE_FOLLOW_REJECT_ID);
  assert_eq!(fr.domain(), DiagnosticChoiceDomain::FollowReject);
  assert_eq!(fr.primary_intent(), LaneIntent::Contest);
  assert_eq!(fr.alternative_intent(), LaneIntent::Stabilize);

  assert_eq!(fa.choice_id(), CHOICE_FARM_ASSIST_ID);
  assert_eq!(fa.domain(), DiagnosticChoiceDomain::FarmAssist);
  assert_eq!(fa.primary_intent(), LaneIntent::Stabilize);
  assert_eq!(fa.alternative_intent(), LaneIntent::Contest);

  assert_eq!(rt.choice_id(), CHOICE_RECALL_TIMING_ID);
  assert_eq!(rt.domain(), DiagnosticChoiceDomain::RecallTiming);
  assert_eq!(rt.primary_intent(), LaneIntent::Recall);
  assert_eq!(rt.alternative_intent(), LaneIntent::Stabilize);

  assert_eq!(sc.choice_id(), CHOICE_SACRIFICE_ID);
  assert_eq!(sc.domain(), DiagnosticChoiceDomain::Sacrifice);
  assert_eq!(sc.primary_intent(), LaneIntent::Contest);
  assert_eq!(sc.alternative_intent(), LaneIntent::Withdraw);

  assert_eq!(sp.choice_id(), CHOICE_SURPRISE_ID);
  assert_eq!(sp.domain(), DiagnosticChoiceDomain::Surprise);
  assert_eq!(sp.primary_intent(), LaneIntent::Withdraw);
  assert_eq!(sp.alternative_intent(), LaneIntent::Stabilize);

  assert_eq!(rf.choice_id(), CHOICE_RESPONSE_TO_FAILURE_ID);
  assert_eq!(rf.domain(), DiagnosticChoiceDomain::ResponseToFailure);
  assert_eq!(rf.primary_intent(), LaneIntent::Yield);
  assert_eq!(rf.alternative_intent(), LaneIntent::Contest);

  let all = DiagnosticChoiceCatalog::all_choices();
  assert_eq!(all.len(), 7);
  assert_eq!(all[0], cc);
  assert_eq!(all[1], fr);
  assert_eq!(all[2], fa);
  assert_eq!(all[3], rt);
  assert_eq!(all[4], sc);
  assert_eq!(all[5], sp);
  assert_eq!(all[6], rf);

  for choice in [cc, fr, fa, rt, sc, sp, rf] {
    assert_eq!(
      DiagnosticChoiceCatalog::lookup(choice.choice_id()),
      Some(choice)
    );
    assert_eq!(
      DiagnosticChoiceCatalog::validate_choice_id(choice.choice_id()),
      Ok(choice)
    );
    assert_eq!(
      DiagnosticChoiceCatalog::choice_for_domain(choice.domain()),
      choice
    );
  }

  assert_eq!(DiagnosticChoiceCatalog::lookup("unknown-choice"), None);
  assert_eq!(
    DiagnosticChoiceCatalog::validate_choice_id("unknown-choice"),
    Err(DiagnosticChoiceCatalogError::UnknownChoice)
  );
}
