use laner_agent::empirical::{DiagnosticChoiceActionDistribution, DiagnosticChoiceCommunicationDistribution, EMPIRICAL_ACTION_DISTRIBUTION_SCHEMA, EMPIRICAL_COMMUNICATION_DISTRIBUTION_SCHEMA, EMPIRICAL_DISTRIBUTION_ESTIMATION_SCHEMA, EMPIRICAL_DISTRIBUTION_SCALE_BASIS_POINTS, EmpiricalDistributionEstimateReport, EmpiricalDistributionEstimationError, MODEL_PROMPT_ALTERNATIVE_DIAGNOSTIC_ID, MODEL_PROMPT_PROTOCOL_SCHEMA, MODEL_PROMPT_REFERENCE_DIAGNOSTIC_ID, MODEL_PROMPT_REFERENCE_STANDARD_ID, ModelPromptProtocolCatalog, ModelPromptProtocolDefinition, ModelPromptProtocolError, REPEATED_SAMPLING_PROTOCOL_SCHEMA, RepeatedSamplingProtocolCatalog, RepeatedSamplingProtocolDefinition, RepeatedSamplingProtocolError, SAMPLING_DIAGNOSTIC_REPEAT_30_ID, SAMPLING_QUICK_CHECK_5_ID, SAMPLING_STANDARD_REPEAT_10_ID};
use laner_agent::lane::{LaneIntent, LanePingSignal};
use laner_agent::measures::{BEHAVIORAL_DISTANCE_SCHEMA, BEHAVIORAL_MEASURES_SCHEMA, BehavioralAdaptationMeasure, BehavioralConsistencyMeasure, BehavioralDistanceMeasure, BehavioralDistanceReport, BehavioralEntropyMeasure, BehavioralMeasuresReport, BehavioralSensitivityMeasure};
use laner_agent::semantic::{CAUTIOUS_SEMANTIC_PROFILE_ID, CHOICE_CONTEST_CONCEDE_ID, RISK_TAKING_SEMANTIC_PROFILE_ID, YIELDING_SEMANTIC_PROFILE_ID};
#[test]
fn m7_model_prompt_and_repeated_sampling_protocols_are_bounded_and_fail_closed() {
  let std_prompt = ModelPromptProtocolDefinition::reference_standard_v1();
  let diag_prompt = ModelPromptProtocolDefinition::reference_diagnostic_v1();
  let alt_prompt = ModelPromptProtocolDefinition::alternative_diagnostic_v1();

  assert_eq!(std_prompt.schema(), MODEL_PROMPT_PROTOCOL_SCHEMA);
  assert_eq!(std_prompt.protocol_id(), MODEL_PROMPT_REFERENCE_STANDARD_ID);
  assert_eq!(std_prompt.model_family_id(), "model-family-reference-v1");
  assert_eq!(
    std_prompt.prompt_template_id(),
    "prompt-template-lane-standard-v1"
  );
  assert_eq!(
    std_prompt.system_prompt_version(),
    "sysprompt-actor-contract-v1"
  );
  assert_eq!(std_prompt.temperature_centiperc(), 70);
  assert_eq!(std_prompt.top_p_centiperc(), 95);
  assert!(std_prompt.requires_structured_output());
  assert!(!std_prompt.chain_of_thought_required());
  assert_eq!(std_prompt.validate(), Ok(()));

  assert_eq!(diag_prompt.schema(), MODEL_PROMPT_PROTOCOL_SCHEMA);
  assert_eq!(
    diag_prompt.protocol_id(),
    MODEL_PROMPT_REFERENCE_DIAGNOSTIC_ID
  );
  assert_eq!(diag_prompt.model_family_id(), "model-family-reference-v1");
  assert_eq!(
    diag_prompt.prompt_template_id(),
    "prompt-template-lane-diagnostic-v1"
  );
  assert_eq!(diag_prompt.temperature_centiperc(), 50);
  assert_eq!(diag_prompt.top_p_centiperc(), 90);
  assert!(diag_prompt.requires_structured_output());
  assert!(!diag_prompt.chain_of_thought_required());
  assert_eq!(diag_prompt.validate(), Ok(()));

  assert_eq!(alt_prompt.schema(), MODEL_PROMPT_PROTOCOL_SCHEMA);
  assert_eq!(
    alt_prompt.protocol_id(),
    MODEL_PROMPT_ALTERNATIVE_DIAGNOSTIC_ID
  );
  assert_eq!(alt_prompt.model_family_id(), "model-family-alternative-v1");
  assert_eq!(
    alt_prompt.prompt_template_id(),
    "prompt-template-lane-diagnostic-v1"
  );
  assert_eq!(alt_prompt.temperature_centiperc(), 50);
  assert_eq!(alt_prompt.top_p_centiperc(), 90);
  assert!(alt_prompt.requires_structured_output());
  assert!(!alt_prompt.chain_of_thought_required());
  assert_eq!(alt_prompt.validate(), Ok(()));

  let all_prompts = ModelPromptProtocolCatalog::all_protocols();
  assert_eq!(all_prompts.len(), 3);
  assert_eq!(all_prompts[0], std_prompt);
  assert_eq!(all_prompts[1], diag_prompt);
  assert_eq!(all_prompts[2], alt_prompt);

  for p in [std_prompt, diag_prompt, alt_prompt] {
    assert_eq!(ModelPromptProtocolCatalog::lookup(p.protocol_id()), Some(p));
    assert_eq!(
      ModelPromptProtocolCatalog::validate_protocol_id(p.protocol_id()),
      Ok(p)
    );
  }
  assert_eq!(
    ModelPromptProtocolCatalog::lookup("unknown-model-prompt"),
    None
  );
  assert_eq!(
    ModelPromptProtocolCatalog::validate_protocol_id("unknown-model-prompt"),
    Err(ModelPromptProtocolError::UnknownProtocol)
  );

  let mut invalid_temp = std_prompt;
  invalid_temp.temperature_centiperc = 201;
  assert_eq!(
    invalid_temp.validate(),
    Err(ModelPromptProtocolError::InvalidTemperature)
  );

  let mut invalid_top_p = std_prompt;
  invalid_top_p.top_p_centiperc = 101;
  assert_eq!(
    invalid_top_p.validate(),
    Err(ModelPromptProtocolError::InvalidTopP)
  );

  let mut invalid_cot = std_prompt;
  invalid_cot.chain_of_thought_required = true;
  assert_eq!(
    invalid_cot.validate(),
    Err(ModelPromptProtocolError::PrivateChainOfThoughtForbidden)
  );

  let std_samp = RepeatedSamplingProtocolDefinition::standard_repeat_10_v1();
  let diag_samp = RepeatedSamplingProtocolDefinition::diagnostic_repeat_30_v1();
  let quick_samp = RepeatedSamplingProtocolDefinition::quick_check_5_v1();

  assert_eq!(std_samp.schema(), REPEATED_SAMPLING_PROTOCOL_SCHEMA);
  assert_eq!(std_samp.protocol_id(), SAMPLING_STANDARD_REPEAT_10_ID);
  assert_eq!(std_samp.sample_count(), 10);
  assert_eq!(std_samp.seed_offset_step(), 1);
  assert_eq!(std_samp.max_repair_retries(), 3);
  assert!(std_samp.fail_closed_on_unrepaired());
  assert_eq!(std_samp.validate(), Ok(()));

  assert_eq!(diag_samp.schema(), REPEATED_SAMPLING_PROTOCOL_SCHEMA);
  assert_eq!(diag_samp.protocol_id(), SAMPLING_DIAGNOSTIC_REPEAT_30_ID);
  assert_eq!(diag_samp.sample_count(), 30);
  assert_eq!(diag_samp.seed_offset_step(), 1);
  assert_eq!(diag_samp.max_repair_retries(), 3);
  assert!(diag_samp.fail_closed_on_unrepaired());
  assert_eq!(diag_samp.validate(), Ok(()));

  assert_eq!(quick_samp.schema(), REPEATED_SAMPLING_PROTOCOL_SCHEMA);
  assert_eq!(quick_samp.protocol_id(), SAMPLING_QUICK_CHECK_5_ID);
  assert_eq!(quick_samp.sample_count(), 5);
  assert_eq!(quick_samp.seed_offset_step(), 1);
  assert_eq!(quick_samp.max_repair_retries(), 2);
  assert!(quick_samp.fail_closed_on_unrepaired());
  assert_eq!(quick_samp.validate(), Ok(()));

  let all_samps = RepeatedSamplingProtocolCatalog::all_protocols();
  assert_eq!(all_samps.len(), 3);
  assert_eq!(all_samps[0], std_samp);
  assert_eq!(all_samps[1], diag_samp);
  assert_eq!(all_samps[2], quick_samp);

  for s in [std_samp, diag_samp, quick_samp] {
    assert_eq!(
      RepeatedSamplingProtocolCatalog::lookup(s.protocol_id()),
      Some(s)
    );
    assert_eq!(
      RepeatedSamplingProtocolCatalog::validate_protocol_id(s.protocol_id()),
      Ok(s)
    );
  }
  assert_eq!(
    RepeatedSamplingProtocolCatalog::lookup("unknown-sampling-protocol"),
    None
  );
  assert_eq!(
    RepeatedSamplingProtocolCatalog::validate_protocol_id("unknown-sampling-protocol"),
    Err(RepeatedSamplingProtocolError::UnknownProtocol)
  );

  let mut zero_samples = std_samp;
  zero_samples.sample_count = 0;
  assert_eq!(
    zero_samples.validate(),
    Err(RepeatedSamplingProtocolError::InvalidSampleCount)
  );

  let mut excessive_samples = std_samp;
  excessive_samples.sample_count = 101;
  assert_eq!(
    excessive_samples.validate(),
    Err(RepeatedSamplingProtocolError::InvalidSampleCount)
  );

  let mut zero_step = std_samp;
  zero_step.seed_offset_step = 0;
  assert_eq!(
    zero_step.validate(),
    Err(RepeatedSamplingProtocolError::InvalidSeedOffsetStep)
  );

  let mut excessive_retries = std_samp;
  excessive_retries.max_repair_retries = 11;
  assert_eq!(
    excessive_retries.validate(),
    Err(RepeatedSamplingProtocolError::InvalidMaxRetries)
  );
}

#[test]
fn m7_empirical_action_and_communication_distribution_estimates_are_bounded_and_exact() {
  let cautious_profile = CAUTIOUS_SEMANTIC_PROFILE_ID;
  let cc_choice = CHOICE_CONTEST_CONCEDE_ID;

  let valid_action =
    DiagnosticChoiceActionDistribution::new(cc_choice, cautious_profile, 10, 2, 8, 0)
      .expect("valid action distribution");

  assert_eq!(valid_action.schema(), EMPIRICAL_ACTION_DISTRIBUTION_SCHEMA);
  assert_eq!(valid_action.choice_id(), cc_choice);
  assert_eq!(valid_action.profile_id(), cautious_profile);
  assert_eq!(valid_action.primary_intent(), LaneIntent::Contest);
  assert_eq!(valid_action.alternative_intent(), LaneIntent::Yield);
  assert_eq!(valid_action.sample_count(), 10);
  assert_eq!(valid_action.primary_count(), 2);
  assert_eq!(valid_action.alternative_count(), 8);
  assert_eq!(valid_action.other_count(), 0);
  assert_eq!(valid_action.basis_points(), [2_000, 8_000, 0]);
  assert_eq!(valid_action.primary_share_basis_points(), 2_000);
  assert_eq!(valid_action.alternative_share_basis_points(), 8_000);
  assert_eq!(valid_action.other_share_basis_points(), 0);
  assert_eq!(
    valid_action.basis_points().iter().sum::<u16>(),
    EMPIRICAL_DISTRIBUTION_SCALE_BASIS_POINTS
  );
  assert!(valid_action.to_markdown().contains(cc_choice));

  // Remainder handling in basis points
  let odd_action =
    DiagnosticChoiceActionDistribution::new(cc_choice, cautious_profile, 7, 2, 4, 1)
      .expect("valid odd sample distribution");
  let bp = odd_action.basis_points();
  assert_eq!(bp[0], 2857); // 2 * 10000 / 7
  assert_eq!(bp[1], 5714); // 4 * 10000 / 7
  assert_eq!(bp[2], 1429); // 10000 - (2857 + 5714) = 1429
  assert_eq!(
    bp.iter().sum::<u16>(),
    EMPIRICAL_DISTRIBUTION_SCALE_BASIS_POINTS
  );

  // Validation errors
  assert_eq!(
    DiagnosticChoiceActionDistribution::new("unknown-choice", cautious_profile, 10, 2, 8, 0,),
    Err(EmpiricalDistributionEstimationError::UnknownChoice)
  );
  assert_eq!(
    DiagnosticChoiceActionDistribution::new(cc_choice, "unknown-profile", 10, 2, 8, 0,),
    Err(EmpiricalDistributionEstimationError::UnknownProfile)
  );
  assert_eq!(
    DiagnosticChoiceActionDistribution::new(cc_choice, cautious_profile, 0, 0, 0, 0,),
    Err(EmpiricalDistributionEstimationError::InvalidSampleCount)
  );
  assert_eq!(
    DiagnosticChoiceActionDistribution::new(cc_choice, cautious_profile, 101, 50, 50, 1,),
    Err(EmpiricalDistributionEstimationError::InvalidSampleCount)
  );
  assert_eq!(
    DiagnosticChoiceActionDistribution::new(cc_choice, cautious_profile, 10, 2, 7, 0,),
    Err(EmpiricalDistributionEstimationError::CountSumMismatch)
  );

  // Communication distribution
  let valid_comm = DiagnosticChoiceCommunicationDistribution::new(
    cc_choice,
    cautious_profile,
    10,
    [8, 1, 1, 0, 0],
  )
  .expect("valid comm distribution");
  assert_eq!(
    valid_comm.schema(),
    EMPIRICAL_COMMUNICATION_DISTRIBUTION_SCHEMA
  );
  assert_eq!(valid_comm.choice_id(), cc_choice);
  assert_eq!(valid_comm.profile_id(), cautious_profile);
  assert_eq!(valid_comm.sample_count(), 10);
  assert_eq!(valid_comm.signal_counts(), [8, 1, 1, 0, 0]);
  assert_eq!(valid_comm.basis_points(), [8_000, 1_000, 1_000, 0, 0]);
  assert_eq!(
    valid_comm.signal_share_basis_points(LanePingSignal::NoPing),
    8_000
  );
  assert_eq!(
    valid_comm.signal_share_basis_points(LanePingSignal::Danger),
    1_000
  );
  assert_eq!(
    valid_comm.signal_share_basis_points(LanePingSignal::OnMyWay),
    1_000
  );
  assert_eq!(
    valid_comm.signal_share_basis_points(LanePingSignal::Assist),
    0
  );
  assert_eq!(
    valid_comm.signal_share_basis_points(LanePingSignal::EnemyMissing),
    0
  );
  assert_eq!(
    valid_comm.basis_points().iter().sum::<u16>(),
    EMPIRICAL_DISTRIBUTION_SCALE_BASIS_POINTS
  );
  assert!(valid_comm.to_markdown().contains(cc_choice));

  // Communication validation errors
  assert_eq!(
    DiagnosticChoiceCommunicationDistribution::new(
      "unknown-choice",
      cautious_profile,
      10,
      [10, 0, 0, 0, 0],
    ),
    Err(EmpiricalDistributionEstimationError::UnknownChoice)
  );
  assert_eq!(
    DiagnosticChoiceCommunicationDistribution::new(
      cc_choice,
      "unknown-profile",
      10,
      [10, 0, 0, 0, 0],
    ),
    Err(EmpiricalDistributionEstimationError::UnknownProfile)
  );
  assert_eq!(
    DiagnosticChoiceCommunicationDistribution::new(
      cc_choice,
      cautious_profile,
      0,
      [0, 0, 0, 0, 0],
    ),
    Err(EmpiricalDistributionEstimationError::InvalidSampleCount)
  );
  assert_eq!(
    DiagnosticChoiceCommunicationDistribution::new(
      cc_choice,
      cautious_profile,
      10,
      [9, 0, 0, 0, 0],
    ),
    Err(EmpiricalDistributionEstimationError::CountSumMismatch)
  );

  // Canonical baseline reports
  let cautious_rep = EmpiricalDistributionEstimateReport::cautious_v1();
  let risk_rep = EmpiricalDistributionEstimateReport::risk_taking_v1();
  let yielding_rep = EmpiricalDistributionEstimateReport::yielding_v1();

  for rep in [&cautious_rep, &risk_rep, &yielding_rep] {
    assert_eq!(rep.schema(), EMPIRICAL_DISTRIBUTION_ESTIMATION_SCHEMA);
    assert_eq!(rep.validate(), Ok(()));
    assert_eq!(rep.action_distributions().len(), 7);
    assert_eq!(rep.communication_distributions().len(), 7);

    for action_dist in rep.action_distributions() {
      assert_eq!(
        action_dist.basis_points().iter().sum::<u16>(),
        EMPIRICAL_DISTRIBUTION_SCALE_BASIS_POINTS
      );
    }
    for comm_dist in rep.communication_distributions() {
      assert_eq!(
        comm_dist.basis_points().iter().sum::<u16>(),
        EMPIRICAL_DISTRIBUTION_SCALE_BASIS_POINTS
      );
    }
    let md = rep.to_markdown();
    assert!(md.contains("# Empirical Distribution Estimate Report"));
    assert!(md.contains("## Action Distributions"));
    assert!(md.contains("## Communication Distributions"));
  }

  assert_eq!(cautious_rep.profile_id(), CAUTIOUS_SEMANTIC_PROFILE_ID);
  assert_eq!(risk_rep.profile_id(), RISK_TAKING_SEMANTIC_PROFILE_ID);
  assert_eq!(yielding_rep.profile_id(), YIELDING_SEMANTIC_PROFILE_ID);

  // Verify report validation failure on mismatched profile inside action dist
  let mut bad_rep = cautious_rep.clone();
  bad_rep.action_distributions[0] = DiagnosticChoiceActionDistribution::new(
    CHOICE_CONTEST_CONCEDE_ID,
    RISK_TAKING_SEMANTIC_PROFILE_ID,
    10,
    9,
    1,
    0,
  )
  .expect("valid dist");
  assert_eq!(
    bad_rep.validate(),
    Err(EmpiricalDistributionEstimationError::MismatchedProfile)
  );

  // Verify report validation failure on mismatched choice order
  let mut unordered_rep = cautious_rep.clone();
  unordered_rep.action_distributions[0] = cautious_rep.action_distributions[1];
  assert_eq!(
    unordered_rep.validate(),
    Err(EmpiricalDistributionEstimationError::MismatchedChoice)
  );
}

#[test]
fn behavioral_measures_evaluate_distance_entropy_sensitivity_consistency_and_adaptation() {
  let cautious_rep = EmpiricalDistributionEstimateReport::cautious_v1();
  let risk_rep = EmpiricalDistributionEstimateReport::risk_taking_v1();
  let yielding_rep = EmpiricalDistributionEstimateReport::yielding_v1();

  // 1. Behavioral Distance (TVD)
  let dist_cautious_cautious = BehavioralDistanceMeasure::action_tvd(
    cautious_rep.action_distributions()[0],
    cautious_rep.action_distributions()[0],
  );
  assert_eq!(dist_cautious_cautious, 0);

  let dist_cautious_risk = BehavioralDistanceMeasure::action_tvd(
    cautious_rep.action_distributions()[0],
    risk_rep.action_distributions()[0],
  );
  let dist_risk_cautious = BehavioralDistanceMeasure::action_tvd(
    risk_rep.action_distributions()[0],
    cautious_rep.action_distributions()[0],
  );
  assert_eq!(dist_cautious_risk, dist_risk_cautious);
  // Cautious contest-concede is [2000, 8000, 0]; Risk is [9000, 1000, 0].
  // diff = |2000-9000| + |8000-1000| + |0-0| = 7000 + 7000 = 14000. TVD = 7000 bp.
  assert_eq!(dist_cautious_risk, 7000);

  // Triangle inequality on contest-concede: TVD(A, C) <= TVD(A, B) + TVD(B, C)
  let dist_cautious_yielding = BehavioralDistanceMeasure::action_tvd(
    cautious_rep.action_distributions()[0],
    yielding_rep.action_distributions()[0],
  );
  let dist_risk_yielding = BehavioralDistanceMeasure::action_tvd(
    risk_rep.action_distributions()[0],
    yielding_rep.action_distributions()[0],
  );
  assert!(dist_cautious_risk <= dist_cautious_yielding + dist_risk_yielding);

  // Distance Report
  let dist_rep = BehavioralDistanceReport::from_reports(&cautious_rep, &risk_rep);
  assert_eq!(dist_rep.schema(), BEHAVIORAL_DISTANCE_SCHEMA);
  assert_eq!(dist_rep.baseline_profile_id(), CAUTIOUS_SEMANTIC_PROFILE_ID);
  assert_eq!(
    dist_rep.candidate_profile_id(),
    RISK_TAKING_SEMANTIC_PROFILE_ID
  );
  assert_eq!(dist_rep.action_choice_distances().len(), 7);
  assert_eq!(dist_rep.communication_choice_distances().len(), 7);
  assert!(dist_rep.mean_action_distance_bp() > 0);
  let dist_md = dist_rep.to_markdown();
  assert!(dist_md.contains("# Behavioral Distance Report"));
  assert!(dist_md.contains("contest-concede"));

  // 2. Behavioral Entropy (Gini diversity index)
  // Deterministic distribution ([10, 0, 0]) in Surprise for Cautious -> entropy == 0
  let surprise_cautious = cautious_rep.action_distributions()[5];
  assert_eq!(
    BehavioralEntropyMeasure::action_entropy(surprise_cautious),
    0
  );

  // Mixed distribution in ContestConcede for Cautious ([2, 8, 0] -> [2000, 8000, 0])
  // sum_sq = 2000^2 + 8000^2 = 4_000_000 + 64_000_000 = 68_000_000. conc = 6800.
  // entropy = 10000 - 6800 = 3200 bp.
  let contest_cautious = cautious_rep.action_distributions()[0];
  assert_eq!(
    BehavioralEntropyMeasure::action_entropy(contest_cautious),
    3200
  );

  let mean_action_entropy = BehavioralEntropyMeasure::mean_action_entropy(&cautious_rep);
  assert!(mean_action_entropy > 0);
  assert!(mean_action_entropy < 5000);

  // 3. Behavioral Sensitivity
  // Cautious: ContestConcede primary_bp = 2000; Surprise primary_bp (Withdraw) = 10000.
  // |2000 - 10000| = 8000 bp sensitivity.
  assert_eq!(
    BehavioralSensitivityMeasure::surprise_sensitivity(&cautious_rep),
    8000
  );

  // 4. Behavioral Consistency
  // In Surprise, Cautious is [10, 0, 0] -> consistency is 10,000 bp (100% modal adherence).
  assert_eq!(
    BehavioralConsistencyMeasure::action_consistency(surprise_cautious),
    10000
  );
  let mean_consistency = BehavioralConsistencyMeasure::mean_action_consistency(&cautious_rep);
  assert!(mean_consistency >= 8000); // High modal adherence for baseline

  // 5. Behavioral Adaptation
  assert_eq!(
    BehavioralAdaptationMeasure::surprise_adaptation_bp(&cautious_rep),
    10000
  );
  assert_eq!(
    BehavioralAdaptationMeasure::failure_adaptation_bp(&cautious_rep),
    9000
  );
  assert_eq!(
    BehavioralAdaptationMeasure::composite_adaptation_bp(&cautious_rep),
    9500
  );

  // RiskTaking should have low defensive adaptation
  assert_eq!(
    BehavioralAdaptationMeasure::surprise_adaptation_bp(&risk_rep),
    2000
  );
  assert_eq!(
    BehavioralAdaptationMeasure::failure_adaptation_bp(&risk_rep),
    1000
  );
  assert_eq!(
    BehavioralAdaptationMeasure::composite_adaptation_bp(&risk_rep),
    1500
  );

  // 6. Unified Behavioral Measures Report
  let measures_cautious = BehavioralMeasuresReport::from_report(&cautious_rep);
  assert_eq!(measures_cautious.schema(), BEHAVIORAL_MEASURES_SCHEMA);
  assert_eq!(measures_cautious.profile_id(), CAUTIOUS_SEMANTIC_PROFILE_ID);
  assert_eq!(measures_cautious.surprise_sensitivity_bp(), 8000);
  assert_eq!(measures_cautious.composite_adaptation_bp(), 9500);

  let md = measures_cautious.to_markdown();
  assert!(md.contains("# Behavioral Measures Report"));
  assert!(md.contains("composite_adaptation_bp: 9500"));
}
