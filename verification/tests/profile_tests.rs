use laner_agent::lane::{DrawId, LaneSnapshot, StreamId};
use laner_agent::profile::{MAX_SCRIPTED_AGENT_MANIFEST_BYTES, ScriptedAgentExperimentManifest, ScriptedAgentExperimentVersionCatalog, ScriptedAgentManifestError, ScriptedAgentProfile, ScriptedAgentSeedBundle};
#[test]
fn experiment_manifest_codec_binds_profiles_rules_and_seed() {
  let seed = ScriptedAgentSeedBundle::new(42, StreamId::new(7), DrawId::new(9));
  let profiles = [
    ScriptedAgentProfile::cautious_v1(),
    ScriptedAgentProfile::risk_taking_v1(),
    ScriptedAgentProfile::yielding_v1(),
  ];
  for profile in profiles {
    let manifest = ScriptedAgentExperimentManifest::new(profile, seed);
    assert_eq!(manifest.schema(), "m6-experiment-manifest-v1");
    assert_eq!(manifest.scenario_id(), "m3-two-window-fixture-v1");
    assert_eq!(manifest.profile().profile_id(), profile.profile_id());
    assert_eq!(
      manifest.profile().evaluation_rule(),
      profile.evaluation_rule()
    );
    assert_eq!(manifest.selection_rule(), "max-score-seeded-tie-v1");
    assert_eq!(manifest.seed_bundle(), seed);
    assert_eq!(
      ScriptedAgentExperimentManifest::decode(&manifest.encode()),
      Ok(manifest)
    );
  }
  assert_eq!(
    ScriptedAgentExperimentManifest::new(profiles[0], seed).encode(),
    "schema=m6-experiment-manifest-v1\nscenario=m3-two-window-fixture-v1\nprofile=cautious-laner-v1\nevaluation_rule=threat-first-pressure-aware-fixed-score-v1\nselection_rule=max-score-seeded-tie-v1\nseed=42\npolicy_stream=7\npolicy_draw=9\n"
  );

  let valid = ScriptedAgentExperimentManifest::new(profiles[0], seed).encode();
  for malformed in [
    (
      valid.replacen("schema=m6-experiment-manifest-v1", "schema=other", 1),
      ScriptedAgentManifestError::UnsupportedSchema,
    ),
    (
      valid.replacen("profile=cautious-laner-v1", "profile=unknown", 1),
      ScriptedAgentManifestError::InvalidValue,
    ),
    (
      valid.replacen(
        "evaluation_rule=threat-first-pressure-aware-fixed-score-v1",
        "evaluation_rule=wrong",
        1,
      ),
      ScriptedAgentManifestError::InvalidValue,
    ),
    (
      valid.replacen(
        "selection_rule=max-score-seeded-tie-v1",
        "selection_rule=wrong",
        1,
      ),
      ScriptedAgentManifestError::InvalidValue,
    ),
    (
      valid.replacen("policy_stream=7", "policy_stream=nope", 1),
      ScriptedAgentManifestError::InvalidValue,
    ),
    (
      valid.replacen("policy_draw=9", "policy_draw=nope", 1),
      ScriptedAgentManifestError::InvalidValue,
    ),
    (
      valid.replacen("seed=42", "seed=nope", 1),
      ScriptedAgentManifestError::InvalidValue,
    ),
    (
      valid.replacen("scenario=m3-two-window-fixture-v1", "scenario=other", 1),
      ScriptedAgentManifestError::InvalidValue,
    ),
    (
      valid.replacen("profile=cautious-laner-v1", "unknown=profile", 1),
      ScriptedAgentManifestError::UnknownField,
    ),
    (
      valid.replacen("profile=cautious-laner-v1\n", "", 1),
      ScriptedAgentManifestError::MissingField,
    ),
    (
      valid.replacen(
        "profile=cautious-laner-v1",
        "schema=m6-experiment-manifest-v1",
        1,
      ),
      ScriptedAgentManifestError::DuplicateField,
    ),
    (
      format!("{valid}extra=value\n"),
      ScriptedAgentManifestError::UnexpectedLineCount {
        expected: 8,
        actual: 9,
      },
    ),
  ] {
    assert_eq!(
      ScriptedAgentExperimentManifest::decode(&malformed.0),
      Err(malformed.1)
    );
  }
  assert_eq!(
    ScriptedAgentExperimentManifest::decode(&"x".repeat(MAX_SCRIPTED_AGENT_MANIFEST_BYTES + 1)),
    Err(ScriptedAgentManifestError::Oversized)
  );
}

#[test]
fn experiment_version_catalog_is_literal_and_deterministic() {
  let catalog = ScriptedAgentExperimentVersionCatalog::current();
  assert_eq!(catalog.schema(), "m6-experiment-version-catalog-v1");
  assert_eq!(catalog.ruleset_id(), "m2-lane-ruleset-v4");
  assert_eq!(LaneSnapshot::initial().ruleset().value(), 4);
  assert_eq!(catalog.scenario_id(), "m3-two-window-fixture-v1");
  assert_eq!(catalog.policy_schema(), "m4-scripted-agent-v1");
  assert_eq!(
    catalog.profile_ids(),
    [
      "cautious-laner-v1",
      "risk-taking-laner-v1",
      "yielding-laner-v1",
    ]
  );
  assert_eq!(catalog.prompt_version(), "not-applicable");
  assert_eq!(catalog.tool_schema_version(), "not-applicable");
  assert_eq!(catalog.model_version(), "not-applicable");
  assert_eq!(catalog.extractor_version(), "not-applicable");
  assert_eq!(catalog, ScriptedAgentExperimentVersionCatalog::current());
}
