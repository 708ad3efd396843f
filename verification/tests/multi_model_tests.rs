use laner_agent::empirical::{EmpiricalDistributionEstimateReport, MODEL_PROMPT_ALTERNATIVE_DIAGNOSTIC_ID, MODEL_PROMPT_REFERENCE_DIAGNOSTIC_ID};
use laner_agent::lane::LaneIntent;
use laner_agent::multi_model::{ModelFamilyAlignmentStatus, MultiModelComparisonError, MultiModelComparisonReport, MULTI_MODEL_COMPARISON_SCHEMA};
use laner_agent::parametric::{ParametricActionWeight, ParametricPolicyDefinition};
use laner_agent::semantic::{DiagnosticChoiceDomain, CAUTIOUS_SEMANTIC_PROFILE_ID, CHOICE_CONTEST_CONCEDE_ID, CHOICE_RESPONSE_TO_FAILURE_ID, RISK_TAKING_SEMANTIC_PROFILE_ID};

/// The catalog's primary intents, in catalog order.
const PRIMARY: [LaneIntent; 7] = [
  LaneIntent::Contest,
  LaneIntent::Contest,
  LaneIntent::Stabilize,
  LaneIntent::Recall,
  LaneIntent::Contest,
  LaneIntent::Withdraw,
  LaneIntent::Yield,
];

fn policy(profile_id: &'static str, flipped: usize) -> ParametricPolicyDefinition {
  let mut weights = [ParametricActionWeight::new(LaneIntent::Contest, 0); 7];
  for i in 0..7 {
    let intent = if i < flipped { LaneIntent::Withdraw } else { PRIMARY[i] };
    weights[i] = ParametricActionWeight::new(intent, 7_000 + i as u16);
  }
  ParametricPolicyDefinition::new(profile_id, weights)
}

fn cautious_alternative() -> EmpiricalDistributionEstimateReport {
  let mut alt = EmpiricalDistributionEstimateReport::risk_taking_v1();
  alt.profile_id = CAUTIOUS_SEMANTIC_PROFILE_ID;
  alt.model_prompt_protocol_id = MODEL_PROMPT_ALTERNATIVE_DIAGNOSTIC_ID;
  alt
}

#[test]
fn alignment_status_labels_round_trip() {
  for s in [
    ModelFamilyAlignmentStatus::Aligned,
    ModelFamilyAlignmentStatus::Shifted,
    ModelFamilyAlignmentStatus::Divergent,
  ] {
    assert_eq!(ModelFamilyAlignmentStatus::parse(s.as_str()), Some(s));
  }
  assert_eq!(ModelFamilyAlignmentStatus::Aligned.as_str(), "aligned");
  assert_eq!(ModelFamilyAlignmentStatus::Shifted.as_str(), "shifted");
  assert_eq!(ModelFamilyAlignmentStatus::Divergent.as_str(), "divergent");
  assert_eq!(ModelFamilyAlignmentStatus::parse("Aligned"), None);
  assert_eq!(ModelFamilyAlignmentStatus::parse(""), None);
}

#[test]
fn comparing_a_family_with_itself_is_aligned_with_zero_distance() {
  let emp = EmpiricalDistributionEstimateReport::cautious_v1();
  let pol = policy(CAUTIOUS_SEMANTIC_PROFILE_ID, 0);
  let rep = MultiModelComparisonReport::compare(&emp, &emp, &pol, &pol).unwrap();
  assert_eq!(rep.schema(), MULTI_MODEL_COMPARISON_SCHEMA);
  assert_eq!(rep.profile_id(), CAUTIOUS_SEMANTIC_PROFILE_ID);
  assert_eq!(rep.reference_model_prompt_protocol_id(), MODEL_PROMPT_REFERENCE_DIAGNOSTIC_ID);
  assert_eq!(rep.alternative_model_prompt_protocol_id(), MODEL_PROMPT_REFERENCE_DIAGNOSTIC_ID);
  assert_eq!(rep.mean_action_tvd_bp(), 0);
  assert_eq!(rep.mean_communication_tvd_bp(), 0);
  assert_eq!(rep.modal_agreement_count(), 7);
  assert_eq!(rep.alignment_status(), ModelFamilyAlignmentStatus::Aligned);
  for e in rep.entries() {
    assert_eq!(e.action_tvd_bp(), 0);
    assert_eq!(e.communication_tvd_bp(), 0);
    assert!(e.modal_agreement());
    assert_eq!(e.ref_modal_intent(), e.alt_modal_intent());
  }
  let first = rep.entries()[0];
  assert_eq!(first.choice_id(), CHOICE_CONTEST_CONCEDE_ID);
  assert_eq!(first.domain(), DiagnosticChoiceDomain::ContestConcede);
  assert_eq!(first.primary_intent(), LaneIntent::Contest);
  assert_eq!(first.alternative_intent(), LaneIntent::Yield);
  assert_eq!(first.ref_primary_weight_bp(), 7_000);
  assert_eq!(first.alt_primary_weight_bp(), 7_000);
  let last = rep.entries()[6];
  assert_eq!(last.choice_id(), CHOICE_RESPONSE_TO_FAILURE_ID);
  assert_eq!(last.ref_primary_weight_bp(), 7_006);
}

#[test]
fn distances_means_and_divergent_verdict_are_exact() {
  let emp = EmpiricalDistributionEstimateReport::cautious_v1();
  let alt = cautious_alternative();
  let ref_pol = policy(CAUTIOUS_SEMANTIC_PROFILE_ID, 0);
  let alt_pol = policy(CAUTIOUS_SEMANTIC_PROFILE_ID, 2);
  let rep = MultiModelComparisonReport::compare(&emp, &alt, &ref_pol, &alt_pol).unwrap();
  let actions: Vec<u16> = rep.entries().iter().map(|e| e.action_tvd_bp()).collect();
  assert_eq!(actions, vec![7_000, 6_000, 6_000, 6_000, 8_000, 8_000, 8_000]);
  let comms: Vec<u16> = rep.entries().iter().map(|e| e.communication_tvd_bp()).collect();
  assert_eq!(comms, vec![2_000, 2_000, 3_000, 0, 4_000, 3_000, 3_000]);
  assert_eq!(rep.mean_action_tvd_bp(), 7_000);
  assert_eq!(rep.mean_communication_tvd_bp(), 2_428);
  assert_eq!(rep.modal_agreement_count(), 5);
  assert_eq!(rep.alignment_status(), ModelFamilyAlignmentStatus::Divergent);
  assert_eq!(rep.alternative_model_prompt_protocol_id(), MODEL_PROMPT_ALTERNATIVE_DIAGNOSTIC_ID);
  let first = rep.entries()[0];
  assert!(!first.modal_agreement());
  assert_eq!(first.ref_modal_intent(), LaneIntent::Contest);
  assert_eq!(first.alt_modal_intent(), LaneIntent::Withdraw);
  assert!(rep.entries()[2].modal_agreement());
}

#[test]
fn swapping_reference_and_alternative_keeps_the_verdict() {
  let emp = EmpiricalDistributionEstimateReport::cautious_v1();
  let alt = cautious_alternative();
  let ref_pol = policy(CAUTIOUS_SEMANTIC_PROFILE_ID, 0);
  let alt_pol = policy(CAUTIOUS_SEMANTIC_PROFILE_ID, 2);
  let ab = MultiModelComparisonReport::compare(&emp, &alt, &ref_pol, &alt_pol).unwrap();
  let ba = MultiModelComparisonReport::compare(&alt, &emp, &alt_pol, &ref_pol).unwrap();
  assert_eq!(ab.mean_action_tvd_bp(), ba.mean_action_tvd_bp());
  assert_eq!(ab.mean_communication_tvd_bp(), ba.mean_communication_tvd_bp());
  assert_eq!(ab.modal_agreement_count(), ba.modal_agreement_count());
  assert_eq!(ab.alignment_status(), ba.alignment_status());
  for i in 0..7 {
    let (e, f) = (ab.entries()[i], ba.entries()[i]);
    assert_eq!(e.action_tvd_bp(), f.action_tvd_bp());
    assert_eq!(e.ref_modal_intent(), f.alt_modal_intent());
    assert_eq!(e.alt_primary_weight_bp(), f.ref_primary_weight_bp());
  }
}

#[test]
fn agreement_thresholds_select_aligned_shifted_and_divergent() {
  let emp = EmpiricalDistributionEstimateReport::cautious_v1();
  let pol = policy(CAUTIOUS_SEMANTIC_PROFILE_ID, 0);
  let cases = [
    (1, 6, ModelFamilyAlignmentStatus::Aligned),
    (2, 5, ModelFamilyAlignmentStatus::Shifted),
    (3, 4, ModelFamilyAlignmentStatus::Shifted),
    (4, 3, ModelFamilyAlignmentStatus::Divergent),
  ];
  for (flipped, agreement, status) in cases {
    let other = policy(CAUTIOUS_SEMANTIC_PROFILE_ID, flipped);
    let rep = MultiModelComparisonReport::compare(&emp, &emp, &pol, &other).unwrap();
    assert_eq!(rep.modal_agreement_count(), agreement);
    assert_eq!(rep.alignment_status(), status);
  }
}

#[test]
fn unknown_and_mismatched_profiles_are_refused() {
  let emp = EmpiricalDistributionEstimateReport::cautious_v1();
  let risk = EmpiricalDistributionEstimateReport::risk_taking_v1();
  let pol = policy(CAUTIOUS_SEMANTIC_PROFILE_ID, 0);
  let mut unknown = emp.clone();
  unknown.profile_id = "unknown-profile-v1";
  assert_eq!(
    MultiModelComparisonReport::compare(&unknown, &emp, &pol, &pol),
    Err(MultiModelComparisonError::UnknownProfile)
  );
  assert_eq!(
    MultiModelComparisonReport::compare(&emp, &unknown, &pol, &pol),
    Err(MultiModelComparisonError::UnknownProfile)
  );
  assert_eq!(
    MultiModelComparisonReport::compare(&emp, &risk, &pol, &pol),
    Err(MultiModelComparisonError::MismatchedProfile)
  );
  let risk_pol = policy(RISK_TAKING_SEMANTIC_PROFILE_ID, 0);
  assert_eq!(
    MultiModelComparisonReport::compare(&emp, &emp, &pol, &risk_pol),
    Err(MultiModelComparisonError::MismatchedProfile)
  );
  assert_eq!(
    MultiModelComparisonReport::compare(&emp, &emp, &risk_pol, &risk_pol),
    Err(MultiModelComparisonError::MismatchedProfile)
  );
}

#[test]
fn comparison_markdown_is_exact() {
  let emp = EmpiricalDistributionEstimateReport::cautious_v1();
  let alt = cautious_alternative();
  let ref_pol = policy(CAUTIOUS_SEMANTIC_PROFILE_ID, 0);
  let alt_pol = policy(CAUTIOUS_SEMANTIC_PROFILE_ID, 2);
  let rep = MultiModelComparisonReport::compare(&emp, &alt, &ref_pol, &alt_pol).unwrap();
  let md = rep.to_markdown();
  let head = "# Multi-Model & Prompting Family Comparison Report\n\n- schema: m7-multi-model-comparison-v1\n- profile_id: cautious-laner-semantic-v1\n- reference_protocol: model-prompt-reference-diagnostic-v1\n- alternative_protocol: model-prompt-alternative-diagnostic-v1\n- mean_action_tvd_bp: 7000\n- mean_communication_tvd_bp: 2428\n- modal_agreement_count: 5/7\n- alignment_status: divergent\n\n## Dilemma Comparison Table\n\n| choice_id | domain | action_tvd_bp | comm_tvd_bp | ref_modal | alt_modal | agreement | ref_primary_bp | alt_primary_bp |\n| --- | --- | ---: | ---: | --- | --- | --- | ---: | ---: |\n";
  assert!(md.starts_with(head), "{md}");
  let first_row = "| choice-contest-concede-v1 | contest-concede | 7000 | 2000 | contest | withdraw | false | 7000 | 7000 |\n";
  assert_eq!(rep.entries()[0].to_markdown(), first_row);
  assert_eq!(&md[head.len()..head.len() + first_row.len()], first_row);
  let body: String = rep.entries().iter().map(|e| e.to_markdown()).collect();
  assert_eq!(md, format!("{head}{body}"));
  assert_eq!(md.lines().count(), 22);
}
