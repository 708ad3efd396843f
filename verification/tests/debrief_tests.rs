use laner_agent::attribution::{
    AttributionWeights, CoordinationAssessment, CoordinationCausalFactor, CoordinationExecutionAttribution,
    ExecutionAssessment, ExecutionCausalFactor,
};
use laner_agent::communication::TeamDissentReason;
use laner_agent::debrief::{
    CommunicationDebriefSummary, LeadershipDebriefSummary, TeamDebriefError, TeamEncounterDebriefReport,
    COMMUNICATION_DEBRIEF_SCHEMA, LEADERSHIP_DEBRIEF_SCHEMA, MAX_DEBRIEF_BP,
};
use laner_agent::lane::{LaneActorRole, LaneOutcome, ObservationId};
use laner_agent::leadership::{FallbackLeadershipMode, LeadershipStructure};
use laner_agent::simultaneous::{TeamCoordinationOutcome, TeamSimultaneousResolution};

fn sample_dissent_counts() -> [(TeamDissentReason, usize); 6] {
  [
    (TeamDissentReason::LowHealth, 1),
    (TeamDissentReason::ThreatDetected, 0),
    (TeamDissentReason::ManaDeficit, 0),
    (TeamDissentReason::CooldownActive, 0),
    (TeamDissentReason::AlternativeObjectivePriority, 0),
    (TeamDissentReason::PostureIncompatible, 0),
  ]
}

fn sample_resolution() -> TeamSimultaneousResolution {
  // Two allied roles that both submit a standard stabilize on the same window
  // resolve as fully coordinated.
  TeamSimultaneousResolution::new(1, 42, TeamCoordinationOutcome::FullyCoordinated, 10_000)
}

#[test]
fn communication_debrief_summary_validates_and_sums_dissent() {
  let summary = CommunicationDebriefSummary::new(
    10,
    8,
    1,
    1,
    0,
    0,
    8_000,
    1_000,
    2,
    sample_dissent_counts(),
    false,
  )
  .expect("valid summary");

  assert_eq!(summary.schema(), COMMUNICATION_DEBRIEF_SCHEMA);
  assert_eq!(summary.sent_count(), 10);
  assert_eq!(summary.delivered_count(), 8);
  assert_eq!(summary.delayed_count(), 1);
  assert_eq!(summary.dropped_overload_count(), 1);
  assert_eq!(summary.reliability_bp(), 8_000);
  assert_eq!(summary.total_dissent_count(), 1);
}

#[test]
fn communication_debrief_rejects_chain_of_thought_and_overflow() {
  let err_cot = CommunicationDebriefSummary::new(
    10,
    8,
    1,
    1,
    0,
    0,
    8_000,
    1_000,
    2,
    sample_dissent_counts(),
    true,
  );
  assert_eq!(
    err_cot.unwrap_err(),
    TeamDebriefError::ChainOfThoughtForbidden
  );

  let err_overflow = CommunicationDebriefSummary::new(
    10,
    8,
    1,
    1,
    0,
    0,
    12_000,
    1_000,
    2,
    sample_dissent_counts(),
    false,
  );
  assert_eq!(
    err_overflow.unwrap_err(),
    TeamDebriefError::BasisPointOutOfRange {
      bp: 12_000,
      max: MAX_DEBRIEF_BP,
    }
  );
}

#[test]
fn leadership_debrief_summary_validates_and_tracks_metrics() {
  let summary = LeadershipDebriefSummary::new(
    LeadershipStructure::DesignatedShotCaller {
      caller: LaneActorRole::HumanLaner,
      fallback_mode: FallbackLeadershipMode::FallbackToDefaultHold,
    },
    4,
    3,
    1,
    7_500,
    0,
    1,
    -250,
    false,
  )
  .expect("valid leadership summary");

  assert_eq!(summary.schema(), LEADERSHIP_DEBRIEF_SCHEMA);
  assert_eq!(summary.total_directives(), 4);
  assert_eq!(summary.complied_directives(), 3);
  assert_eq!(summary.dissented_directives(), 1);
  assert_eq!(summary.compliance_rate_bp(), 7_500);
  assert_eq!(summary.caller_reputation_delta_bp(), -250);
}

#[test]
fn team_encounter_debrief_report_renders_comprehensive_markdown() {
  let comm_summary = CommunicationDebriefSummary::new(
    5,
    5,
    0,
    0,
    0,
    0,
    10_000,
    0,
    1,
    sample_dissent_counts(),
    false,
  )
  .expect("comm summary");

  let lead_summary = LeadershipDebriefSummary::new(
    LeadershipStructure::DesignatedShotCaller {
      caller: LaneActorRole::HumanLaner,
      fallback_mode: FallbackLeadershipMode::FallbackToDefaultHold,
    },
    2,
    2,
    0,
    10_000,
    0,
    0,
    500,
    false,
  )
  .expect("lead summary");

  let resolution = sample_resolution();

  let coord_assessment = CoordinationAssessment::new(
    TeamCoordinationOutcome::FullyCoordinated,
    8_000,
    CoordinationCausalFactor::DirectiveCompliance,
    [None, None],
  )
  .expect("coord assessment");

  let exec_assessment = ExecutionAssessment::new(
    LaneOutcome::HeldSpace,
    9_000,
    ExecutionCausalFactor::DecisiveDamageAdvantage,
    [None, None],
  )
  .expect("exec assessment");

  let weights = AttributionWeights::new(5_000, 4_000, 1_000).expect("valid weights");

  let attribution = CoordinationExecutionAttribution::new(
    coord_assessment,
    exec_assessment,
    weights,
    "Sound tactical coordination.",
  )
  .expect("attribution");

  let report = TeamEncounterDebriefReport::new(
    1,
    ObservationId::new(42),
    resolution,
    Some(attribution),
    comm_summary,
    lead_summary,
    "Sound coordination combined with decisive mechanical execution yielded a decisive lane advantage.",
    false,
  )
  .expect("valid report");

  let md = report.render_markdown();
  assert!(md.contains("# Team Encounter Debrief"));
  assert!(md.contains("m8-team-encounter-debrief-v1"));
  assert!(md.contains("Transmission Reliability"));
  assert!(md.contains("Sound coordination combined"));
}
