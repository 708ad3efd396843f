//! Actor-visible decision records and the evidence built from replaying
//! them: single-record identity joined with an operational log, and
//! scenario-wide replay identity and causal-trace completeness.

use vstd::prelude::*;
use crate::lane::{LaneIntent, LanerObservation, ObservationId};
use crate::operational::{
    sequence_status, ScriptedAgentOperationalLog, ScriptedAgentOperationalLogSequenceReport,
    ScriptedAgentOperationalLogSequenceStatus,
};
use crate::policy::{
    advertises_some, decision_for, selection_rule_id, DecisionView, ScriptedAgent,
    ScriptedAgentDecision,
};
use crate::profile::{ScriptedAgentProfile, ScriptedAgentSeedBundle};

verus! {

/// Versioned identity for actor-visible scripted-decision replay records.
pub const SCRIPTED_AGENT_REPLAY_SCHEMA: &'static str = "m4-scripted-agent-replay-v1";

/// Versioned identity for bounded decision-replay and sequence evidence.
pub const SCRIPTED_AGENT_REPLAY_SEQUENCE_EVIDENCE_SCHEMA: &'static str =
    "m6-scripted-agent-replay-sequence-evidence-v1";

/// Stable identity for the bounded replay/sequence evidence rule.
pub const SCRIPTED_AGENT_REPLAY_SEQUENCE_EVIDENCE_RULE: &'static str =
    "m6-replay-identity-operational-sequence-v1";

/// Versioned identity for scenario-wide replay identity evidence.
pub const SCRIPTED_AGENT_SCENARIO_REPLAY_IDENTITY_SCHEMA: &'static str =
    "m6-scripted-agent-scenario-replay-identity-v1";

/// Stable identity for the scenario replay identity rule.
pub const SCRIPTED_AGENT_SCENARIO_REPLAY_IDENTITY_RULE: &'static str =
    "m6-scenario-replay-identity-v1";

/// Versioned identity for scenario-wide causal-trace completeness evidence.
pub const SCRIPTED_AGENT_SCENARIO_CAUSAL_TRACE_COMPLETENESS_SCHEMA: &'static str =
    "m6-scripted-agent-scenario-causal-trace-completeness-v1";

/// Stable identity for the scenario causal-trace completeness rule.
pub const SCRIPTED_AGENT_SCENARIO_CAUSAL_TRACE_COMPLETENESS_RULE: &'static str =
    "m6-scenario-causal-trace-completeness-v1";

/// Maximum number of replay records evaluated in one scenario-wide identity check.
pub const MAX_SCRIPTED_AGENT_SCENARIO_REPLAY_RECORDS: usize = 16;

/// Whether a replayed policy decision matched its declared expectation.
#[derive(Clone, Copy, Debug, PartialEq, Eq, Hash, Structural)]
pub enum ScriptedAgentReplayDisposition {
    Expected,
    Anomalous,
}

/// Bounded failure when a recorded policy decision no longer replays exactly.
#[derive(Clone, Copy, Debug, PartialEq, Eq, Hash, Structural)]
pub enum ScriptedAgentReplayError {
    DecisionMismatch,
}

/// Actor-visible scripted-policy decision record for deterministic replay.
///
/// The record stores no true state, state hash, execution input, or host
/// history.
#[derive(Clone, Debug, PartialEq, Eq, Hash)]
pub struct ScriptedAgentReplayRecord {
    pub observation: LanerObservation,
    pub profile: ScriptedAgentProfile,
    pub seed_bundle: Option<ScriptedAgentSeedBundle>,
    pub decision: ScriptedAgentDecision,
    pub expected_intent: LaneIntent,
    pub disposition: ScriptedAgentReplayDisposition,
}

/// Whether a record's stored decision is what its inputs decide again.
pub open spec fn replay_verified(r: ScriptedAgentReplayRecord) -> bool {
    decision_for(r.profile, r.observation, r.seed_bundle) == r.decision@
}

/// Whether a record's observation advertises something to decide on.
pub open spec fn replayable(r: ScriptedAgentReplayRecord) -> bool {
    advertises_some(r.observation)
}

impl ScriptedAgentReplayRecord {
    /// Capture a decision and classify it against a declared expected intent.
    pub fn capture(
        agent: ScriptedAgent,
        observation: LanerObservation,
        expected_intent: LaneIntent,
        seed_bundle: Option<ScriptedAgentSeedBundle>,
    ) -> (r: Self)
        requires
            advertises_some(observation),
        ensures
            r.observation == observation,
            r.profile == agent.profile,
            r.seed_bundle == seed_bundle,
            r.decision@ == decision_for(agent.profile, observation, seed_bundle),
            r.expected_intent == expected_intent,
            r.disposition == (if r.decision@.selected_intent == expected_intent {
                ScriptedAgentReplayDisposition::Expected
            } else {
                ScriptedAgentReplayDisposition::Anomalous
            }),
    {
        let decision = match seed_bundle {
            Some(seed_bundle) => agent.choose_with_seed(observation, seed_bundle),
            None => agent.decide(observation),
        };
        let disposition = if decision.selected_intent == expected_intent {
            ScriptedAgentReplayDisposition::Expected
        } else {
            ScriptedAgentReplayDisposition::Anomalous
        };
        ScriptedAgentReplayRecord {
            observation,
            profile: agent.profile,
            seed_bundle,
            decision,
            expected_intent,
            disposition,
        }
    }

    pub fn schema(&self) -> (r: &'static str)
        ensures
            r@ == SCRIPTED_AGENT_REPLAY_SCHEMA@,
    {
        SCRIPTED_AGENT_REPLAY_SCHEMA
    }

    pub fn profile(&self) -> (r: ScriptedAgentProfile)
        ensures
            r == self.profile,
    {
        self.profile
    }

    pub fn observation_id(&self) -> (r: ObservationId)
        ensures
            r == self.observation.observation_id,
    {
        self.observation.observation_id
    }

    pub fn expected_intent(&self) -> (r: LaneIntent)
        ensures
            r == self.expected_intent,
    {
        self.expected_intent
    }

    pub fn selected_intent(&self) -> (r: LaneIntent)
        ensures
            r == self.decision.selected_intent,
    {
        self.decision.selected_intent
    }

    pub fn disposition(&self) -> (r: ScriptedAgentReplayDisposition)
        ensures
            r == self.disposition,
    {
        self.disposition
    }

    pub fn seed_bundle(&self) -> (r: Option<ScriptedAgentSeedBundle>)
        ensures
            r == self.seed_bundle,
    {
        self.seed_bundle
    }

    pub fn decision(&self) -> (r: &ScriptedAgentDecision)
        ensures
            r@ == self.decision@,
    {
        &self.decision
    }

    /// Re-evaluate the actor-visible policy input and verify the recorded result.
    pub fn replay(&self) -> (r: Result<ScriptedAgentDecision, ScriptedAgentReplayError>)
        requires
            replayable(*self),
        ensures
            match r {
                Ok(d) => replay_verified(*self) && d@ == self.decision@,
                Err(ScriptedAgentReplayError::DecisionMismatch) => !replay_verified(*self),
            },
    {
        let agent = ScriptedAgent::with_profile(self.profile);
        let decision = match self.seed_bundle {
            Some(seed_bundle) => agent.choose_with_seed(self.observation, seed_bundle),
            None => agent.decide(self.observation),
        };
        if decision.same_as(&self.decision) {
            Ok(decision)
        } else {
            Err(ScriptedAgentReplayError::DecisionMismatch)
        }
    }
}

/// Whether a recorded scripted-agent decision reproduced exactly.
#[derive(Clone, Copy, Debug, PartialEq, Eq, Hash, Structural)]
pub enum ScriptedAgentReplayIdentityStatus {
    Verified,
    DecisionMismatch,
}

/// The identity of a replay identity status.
pub open spec fn replay_identity_id(s: ScriptedAgentReplayIdentityStatus) -> Seq<char> {
    match s {
        ScriptedAgentReplayIdentityStatus::Verified => "verified"@,
        ScriptedAgentReplayIdentityStatus::DecisionMismatch => "decision_mismatch"@,
    }
}

impl ScriptedAgentReplayIdentityStatus {
    pub fn id(self) -> (r: &'static str)
        ensures
            r@ == replay_identity_id(self),
    {
        match self {
            ScriptedAgentReplayIdentityStatus::Verified => "verified",
            ScriptedAgentReplayIdentityStatus::DecisionMismatch => "decision_mismatch",
        }
    }
}

/// Bounded evidence joining decision replay identity with operational sequence status.
#[derive(Clone, Copy, Debug, PartialEq, Eq, Hash, Structural)]
pub struct ScriptedAgentReplaySequenceEvidenceReport {
    replay_identity: ScriptedAgentReplayIdentityStatus,
    sequence_status: ScriptedAgentOperationalLogSequenceStatus,
}

/// The content of replay and sequence evidence.
pub struct SequenceEvidenceView {
    pub replay_identity: ScriptedAgentReplayIdentityStatus,
    pub sequence_status: ScriptedAgentOperationalLogSequenceStatus,
}

impl View for ScriptedAgentReplaySequenceEvidenceReport {
    type V = SequenceEvidenceView;

    closed spec fn view(&self) -> SequenceEvidenceView {
        SequenceEvidenceView {
            replay_identity: self.replay_identity,
            sequence_status: self.sequence_status,
        }
    }
}

impl ScriptedAgentReplaySequenceEvidenceReport {
    /// Build pure evidence from one replay record and one operational label log.
    pub fn from_record_and_log(
        record: &ScriptedAgentReplayRecord,
        log: &ScriptedAgentOperationalLog,
    ) -> (r: Self)
        requires
            replayable(*record),
        ensures
            r@.replay_identity == (if replay_verified(*record) {
                ScriptedAgentReplayIdentityStatus::Verified
            } else {
                ScriptedAgentReplayIdentityStatus::DecisionMismatch
            }),
            r@.sequence_status == sequence_status(log@),
    {
        let replay_identity = match record.replay() {
            Ok(_) => ScriptedAgentReplayIdentityStatus::Verified,
            Err(ScriptedAgentReplayError::DecisionMismatch) => {
                ScriptedAgentReplayIdentityStatus::DecisionMismatch
            },
        };
        ScriptedAgentReplaySequenceEvidenceReport {
            replay_identity,
            sequence_status: ScriptedAgentOperationalLogSequenceReport::from_log(log).status(),
        }
    }

    pub fn schema(self) -> (r: &'static str)
        ensures
            r@ == SCRIPTED_AGENT_REPLAY_SEQUENCE_EVIDENCE_SCHEMA@,
    {
        SCRIPTED_AGENT_REPLAY_SEQUENCE_EVIDENCE_SCHEMA
    }

    pub fn rule(self) -> (r: &'static str)
        ensures
            r@ == SCRIPTED_AGENT_REPLAY_SEQUENCE_EVIDENCE_RULE@,
    {
        SCRIPTED_AGENT_REPLAY_SEQUENCE_EVIDENCE_RULE
    }

    pub fn replay_identity(self) -> (r: ScriptedAgentReplayIdentityStatus)
        ensures
            r == self@.replay_identity,
    {
        self.replay_identity
    }

    pub fn sequence_status(self) -> (r: ScriptedAgentOperationalLogSequenceStatus)
        ensures
            r == self@.sequence_status,
    {
        self.sequence_status
    }
}

/// Closed outcome status for scenario-wide replay identity evaluation.
#[derive(Clone, Copy, Debug, PartialEq, Eq, Hash, Structural)]
pub enum ScriptedAgentScenarioReplayIdentityStatus {
    AllVerified,
    DecisionMismatch,
}

/// The identity of a scenario replay identity status.
pub open spec fn scenario_replay_id(s: ScriptedAgentScenarioReplayIdentityStatus) -> Seq<char> {
    match s {
        ScriptedAgentScenarioReplayIdentityStatus::AllVerified => "all_verified"@,
        ScriptedAgentScenarioReplayIdentityStatus::DecisionMismatch => "decision_mismatch"@,
    }
}

impl ScriptedAgentScenarioReplayIdentityStatus {
    pub fn id(self) -> (r: &'static str)
        ensures
            r@ == scenario_replay_id(self),
    {
        match self {
            ScriptedAgentScenarioReplayIdentityStatus::AllVerified => "all_verified",
            ScriptedAgentScenarioReplayIdentityStatus::DecisionMismatch => "decision_mismatch",
        }
    }
}

/// Bounded failure modes when building scenario replay identity evidence.
#[derive(Clone, Copy, Debug, PartialEq, Eq, Hash, Structural)]
pub enum ScriptedAgentScenarioReplayIdentityError {
    Empty,
    Oversized,
    DuplicateObservationId,
}

/// Whether two records of a list share an observation identity.
pub open spec fn has_duplicate_ids(records: Seq<ScriptedAgentReplayRecord>) -> bool {
    exists|i: int, j: int|
        0 <= i < j < records.len() && records[i].observation.observation_id
            == records[j].observation.observation_id
}

/// How many of the first `n` records satisfy `p`.
pub open spec fn count_where(
    records: Seq<ScriptedAgentReplayRecord>,
    p: spec_fn(ScriptedAgentReplayRecord) -> bool,
    n: int,
) -> nat
    decreases n,
{
    if n <= 0 {
        0
    } else {
        count_where(records, p, n - 1) + (if p(records[n - 1]) {
            1nat
        } else {
            0nat
        })
    }
}

/// A count over a prefix is at most the prefix length.
pub proof fn lemma_count_where_bound(
    records: Seq<ScriptedAgentReplayRecord>,
    p: spec_fn(ScriptedAgentReplayRecord) -> bool,
    n: int,
)
    requires
        0 <= n,
    ensures
        count_where(records, p, n) <= n,
    decreases n,
{
    if n > 0 {
        lemma_count_where_bound(records, p, n - 1);
    }
}

/// Bounded evidence verifying deterministic replay across a sequence of decision records.
#[derive(Clone, Copy, Debug, PartialEq, Eq, Hash, Structural)]
pub struct ScriptedAgentScenarioReplayIdentityReport {
    record_count: u8,
    verified_count: u8,
    status: ScriptedAgentScenarioReplayIdentityStatus,
    start_observation_id: ObservationId,
    end_observation_id: ObservationId,
}

/// The content of a scenario replay identity report.
pub struct ReplayIdentityReportView {
    pub record_count: u8,
    pub verified_count: u8,
    pub status: ScriptedAgentScenarioReplayIdentityStatus,
    pub start_observation_id: ObservationId,
    pub end_observation_id: ObservationId,
}

impl View for ScriptedAgentScenarioReplayIdentityReport {
    type V = ReplayIdentityReportView;

    closed spec fn view(&self) -> ReplayIdentityReportView {
        ReplayIdentityReportView {
            record_count: self.record_count,
            verified_count: self.verified_count,
            status: self.status,
            start_observation_id: self.start_observation_id,
            end_observation_id: self.end_observation_id,
        }
    }
}

/// Whether every record of a list can be replayed.
pub open spec fn all_replayable(records: Seq<ScriptedAgentReplayRecord>) -> bool {
    forall|i: int| 0 <= i < records.len() ==> replayable(#[trigger] records[i])
}

/// Whether the record list has no repeated observation identity, checked in order.
fn find_duplicate_ids(records: &[ScriptedAgentReplayRecord]) -> (r: bool)
    ensures
        r == has_duplicate_ids(records@),
{
    let n = records.len();
    let mut i: usize = 0;
    while i < n
        invariant
            n == records@.len(),
            i <= n,
            forall|a: int, b: int|
                0 <= a < i && a < b < n ==> records@[a].observation.observation_id
                    != records@[b].observation.observation_id,
        decreases n - i,
    {
        let mut j: usize = i + 1;
        while j < n
            invariant
                n == records@.len(),
                i < n,
                i + 1 <= j <= n,
                forall|a: int, b: int|
                    0 <= a < i && a < b < n ==> records@[a].observation.observation_id
                        != records@[b].observation.observation_id,
                forall|b: int| i < b < j ==> records@[i as int].observation.observation_id
                    != records@[b].observation.observation_id,
            decreases n - j,
        {
            if records[i].observation.observation_id == records[j].observation.observation_id {
                return true;
            }
            j = j + 1;
        }
        i = i + 1;
    }
    false
}

impl ScriptedAgentScenarioReplayIdentityReport {
    /// Evaluate deterministic replay across an ordered slice of decision records.
    pub fn from_records(records: &[ScriptedAgentReplayRecord]) -> (r: Result<
        Self,
        ScriptedAgentScenarioReplayIdentityError,
    >)
        requires
            all_replayable(records@),
        ensures
            records@.len() == 0 ==> r == Err::<Self, ScriptedAgentScenarioReplayIdentityError>(
                ScriptedAgentScenarioReplayIdentityError::Empty,
            ),
            records@.len() > MAX_SCRIPTED_AGENT_SCENARIO_REPLAY_RECORDS ==> r == Err::<
                Self,
                ScriptedAgentScenarioReplayIdentityError,
            >(ScriptedAgentScenarioReplayIdentityError::Oversized),
            1 <= records@.len() <= MAX_SCRIPTED_AGENT_SCENARIO_REPLAY_RECORDS && has_duplicate_ids(
                records@,
            ) ==> r == Err::<Self, ScriptedAgentScenarioReplayIdentityError>(
                ScriptedAgentScenarioReplayIdentityError::DuplicateObservationId,
            ),
            1 <= records@.len() <= MAX_SCRIPTED_AGENT_SCENARIO_REPLAY_RECORDS && !has_duplicate_ids(
                records@,
            ) ==> r is Ok && r->Ok_0@ == (
                ReplayIdentityReportView {
                    record_count: records@.len() as u8,
                    verified_count: count_where(
                        records@,
                        |x: ScriptedAgentReplayRecord| replay_verified(x),
                        records@.len() as int,
                    ) as u8,
                    status: if count_where(
                        records@,
                        |x: ScriptedAgentReplayRecord| replay_verified(x),
                        records@.len() as int,
                    ) == records@.len() {
                        ScriptedAgentScenarioReplayIdentityStatus::AllVerified
                    } else {
                        ScriptedAgentScenarioReplayIdentityStatus::DecisionMismatch
                    },
                    start_observation_id: records@[0].observation.observation_id,
                    end_observation_id: records@.last().observation.observation_id,
                }
            ),
    {
        if records.len() == 0 {
            return Err(ScriptedAgentScenarioReplayIdentityError::Empty);
        }
        if records.len() > MAX_SCRIPTED_AGENT_SCENARIO_REPLAY_RECORDS {
            return Err(ScriptedAgentScenarioReplayIdentityError::Oversized);
        }
        if find_duplicate_ids(records) {
            return Err(ScriptedAgentScenarioReplayIdentityError::DuplicateObservationId);
        }
        let ghost p = |x: ScriptedAgentReplayRecord| replay_verified(x);
        let mut verified_count: u8 = 0;
        let mut i: usize = 0;
        while i < records.len()
            invariant
                i <= records@.len() <= MAX_SCRIPTED_AGENT_SCENARIO_REPLAY_RECORDS,
                all_replayable(records@),
                p == (|x: ScriptedAgentReplayRecord| replay_verified(x)),
                verified_count as nat == count_where(records@, p, i as int),
                verified_count <= i,
            decreases records@.len() - i,
        {
            assert(replayable(records@[i as int]));
            match records[i].replay() {
                Ok(_) => {
                    verified_count = verified_count + 1;
                },
                Err(_) => {},
            }
            i = i + 1;
        }
        let status = if verified_count as usize == records.len() {
            ScriptedAgentScenarioReplayIdentityStatus::AllVerified
        } else {
            ScriptedAgentScenarioReplayIdentityStatus::DecisionMismatch
        };
        Ok(
            ScriptedAgentScenarioReplayIdentityReport {
                record_count: records.len() as u8,
                verified_count,
                status,
                start_observation_id: records[0].observation.observation_id,
                end_observation_id: records[records.len() - 1].observation.observation_id,
            },
        )
    }

    pub fn schema(self) -> (r: &'static str)
        ensures
            r@ == SCRIPTED_AGENT_SCENARIO_REPLAY_IDENTITY_SCHEMA@,
    {
        SCRIPTED_AGENT_SCENARIO_REPLAY_IDENTITY_SCHEMA
    }

    pub fn rule(self) -> (r: &'static str)
        ensures
            r@ == SCRIPTED_AGENT_SCENARIO_REPLAY_IDENTITY_RULE@,
    {
        SCRIPTED_AGENT_SCENARIO_REPLAY_IDENTITY_RULE
    }

    pub fn record_count(self) -> (r: u8)
        ensures
            r == self@.record_count,
    {
        self.record_count
    }

    pub fn verified_count(self) -> (r: u8)
        ensures
            r == self@.verified_count,
    {
        self.verified_count
    }

    pub fn status(self) -> (r: ScriptedAgentScenarioReplayIdentityStatus)
        ensures
            r == self@.status,
    {
        self.status
    }

    pub fn start_observation_id(self) -> (r: ObservationId)
        ensures
            r == self@.start_observation_id,
    {
        self.start_observation_id
    }

    pub fn end_observation_id(self) -> (r: ObservationId)
        ensures
            r == self@.end_observation_id,
    {
        self.end_observation_id
    }
}

/// Closed outcome status for scenario-wide causal-trace completeness evaluation.
#[derive(Clone, Copy, Debug, PartialEq, Eq, Hash, Structural)]
pub enum ScriptedAgentScenarioCausalTraceCompletenessStatus {
    AllComplete,
    IncompleteTrace,
}

/// The identity of a causal-trace completeness status.
pub open spec fn causal_trace_id(s: ScriptedAgentScenarioCausalTraceCompletenessStatus) -> Seq<char> {
    match s {
        ScriptedAgentScenarioCausalTraceCompletenessStatus::AllComplete => "all_complete"@,
        ScriptedAgentScenarioCausalTraceCompletenessStatus::IncompleteTrace => "incomplete_trace"@,
    }
}

impl ScriptedAgentScenarioCausalTraceCompletenessStatus {
    pub fn id(self) -> (r: &'static str)
        ensures
            r@ == causal_trace_id(self),
    {
        match self {
            ScriptedAgentScenarioCausalTraceCompletenessStatus::AllComplete => "all_complete",
            ScriptedAgentScenarioCausalTraceCompletenessStatus::IncompleteTrace => "incomplete_trace",
        }
    }
}

/// Bounded failure modes when building scenario causal-trace completeness evidence.
#[derive(Clone, Copy, Debug, PartialEq, Eq, Hash, Structural)]
pub enum ScriptedAgentScenarioCausalTraceCompletenessError {
    Empty,
    Oversized,
    DuplicateObservationId,
}

/// Whether a record's trace is complete: it replays, its selected intent is
/// among its candidates, and its selection rule is named.
pub open spec fn trace_complete(r: ScriptedAgentReplayRecord) -> bool {
    let d = decision_for(r.profile, r.observation, r.seed_bundle);
    replay_verified(r) && (exists|k: int|
        0 <= k < d.candidates.len() && d.candidates[k].intent == d.selected_intent)
        && selection_rule_id(d.selection_rule).len() > 0
}

/// Bounded evidence verifying causal-trace completeness across a sequence of decision records.
#[derive(Clone, Copy, Debug, PartialEq, Eq, Hash, Structural)]
pub struct ScriptedAgentScenarioCausalTraceCompletenessReport {
    record_count: u8,
    traced_count: u8,
    status: ScriptedAgentScenarioCausalTraceCompletenessStatus,
    start_observation_id: ObservationId,
    end_observation_id: ObservationId,
}

/// The content of a causal-trace completeness report.
pub struct TraceCompletenessReportView {
    pub record_count: u8,
    pub traced_count: u8,
    pub status: ScriptedAgentScenarioCausalTraceCompletenessStatus,
    pub start_observation_id: ObservationId,
    pub end_observation_id: ObservationId,
}

impl View for ScriptedAgentScenarioCausalTraceCompletenessReport {
    type V = TraceCompletenessReportView;

    closed spec fn view(&self) -> TraceCompletenessReportView {
        TraceCompletenessReportView {
            record_count: self.record_count,
            traced_count: self.traced_count,
            status: self.status,
            start_observation_id: self.start_observation_id,
            end_observation_id: self.end_observation_id,
        }
    }
}

/// Whether a decision's selected intent is among its candidates and its rule is named.
fn decision_traced(d: &ScriptedAgentDecision) -> (r: bool)
    ensures
        r == ((exists|k: int|
            0 <= k < d@.candidates.len() && d@.candidates[k].intent == d@.selected_intent)
            && selection_rule_id(d@.selection_rule).len() > 0),
{
    let mut found = false;
    let mut k: usize = 0;
    while k < d.candidates.len()
        invariant
            k <= d.candidates@.len(),
            found == (exists|m: int| 0 <= m < k && d.candidates@[m].intent == d.selected_intent),
        decreases d.candidates@.len() - k,
    {
        if d.candidates[k].intent == d.selected_intent {
            found = true;
        }
        k = k + 1;
    }
    let rule = d.selection_rule();
    found && !rule.is_empty()
}

impl ScriptedAgentScenarioCausalTraceCompletenessReport {
    /// Evaluate causal-trace completeness across an ordered slice of decision records.
    pub fn from_records(records: &[ScriptedAgentReplayRecord]) -> (r: Result<
        Self,
        ScriptedAgentScenarioCausalTraceCompletenessError,
    >)
        requires
            all_replayable(records@),
        ensures
            records@.len() == 0 ==> r == Err::<Self, ScriptedAgentScenarioCausalTraceCompletenessError>(
                ScriptedAgentScenarioCausalTraceCompletenessError::Empty,
            ),
            records@.len() > MAX_SCRIPTED_AGENT_SCENARIO_REPLAY_RECORDS ==> r == Err::<
                Self,
                ScriptedAgentScenarioCausalTraceCompletenessError,
            >(ScriptedAgentScenarioCausalTraceCompletenessError::Oversized),
            1 <= records@.len() <= MAX_SCRIPTED_AGENT_SCENARIO_REPLAY_RECORDS && has_duplicate_ids(
                records@,
            ) ==> r == Err::<Self, ScriptedAgentScenarioCausalTraceCompletenessError>(
                ScriptedAgentScenarioCausalTraceCompletenessError::DuplicateObservationId,
            ),
            1 <= records@.len() <= MAX_SCRIPTED_AGENT_SCENARIO_REPLAY_RECORDS && !has_duplicate_ids(
                records@,
            ) ==> r is Ok && r->Ok_0@ == (
                TraceCompletenessReportView {
                    record_count: records@.len() as u8,
                    traced_count: count_where(
                        records@,
                        |x: ScriptedAgentReplayRecord| trace_complete(x),
                        records@.len() as int,
                    ) as u8,
                    status: if count_where(
                        records@,
                        |x: ScriptedAgentReplayRecord| trace_complete(x),
                        records@.len() as int,
                    ) == records@.len() {
                        ScriptedAgentScenarioCausalTraceCompletenessStatus::AllComplete
                    } else {
                        ScriptedAgentScenarioCausalTraceCompletenessStatus::IncompleteTrace
                    },
                    start_observation_id: records@[0].observation.observation_id,
                    end_observation_id: records@.last().observation.observation_id,
                }
            ),
    {
        if records.len() == 0 {
            return Err(ScriptedAgentScenarioCausalTraceCompletenessError::Empty);
        }
        if records.len() > MAX_SCRIPTED_AGENT_SCENARIO_REPLAY_RECORDS {
            return Err(ScriptedAgentScenarioCausalTraceCompletenessError::Oversized);
        }
        if find_duplicate_ids(records) {
            return Err(ScriptedAgentScenarioCausalTraceCompletenessError::DuplicateObservationId);
        }
        let ghost p = |x: ScriptedAgentReplayRecord| trace_complete(x);
        let mut traced_count: u8 = 0;
        let mut i: usize = 0;
        while i < records.len()
            invariant
                i <= records@.len() <= MAX_SCRIPTED_AGENT_SCENARIO_REPLAY_RECORDS,
                all_replayable(records@),
                p == (|x: ScriptedAgentReplayRecord| trace_complete(x)),
                traced_count as nat == count_where(records@, p, i as int),
                traced_count <= i,
            decreases records@.len() - i,
        {
            assert(replayable(records@[i as int]));
            let complete = match records[i].replay() {
                Ok(decision) => decision_traced(&decision),
                Err(_) => false,
            };
            if complete {
                traced_count = traced_count + 1;
            }
            i = i + 1;
        }
        let status = if traced_count as usize == records.len() {
            ScriptedAgentScenarioCausalTraceCompletenessStatus::AllComplete
        } else {
            ScriptedAgentScenarioCausalTraceCompletenessStatus::IncompleteTrace
        };
        Ok(
            ScriptedAgentScenarioCausalTraceCompletenessReport {
                record_count: records.len() as u8,
                traced_count,
                status,
                start_observation_id: records[0].observation.observation_id,
                end_observation_id: records[records.len() - 1].observation.observation_id,
            },
        )
    }

    pub fn schema(self) -> (r: &'static str)
        ensures
            r@ == SCRIPTED_AGENT_SCENARIO_CAUSAL_TRACE_COMPLETENESS_SCHEMA@,
    {
        SCRIPTED_AGENT_SCENARIO_CAUSAL_TRACE_COMPLETENESS_SCHEMA
    }

    pub fn rule(self) -> (r: &'static str)
        ensures
            r@ == SCRIPTED_AGENT_SCENARIO_CAUSAL_TRACE_COMPLETENESS_RULE@,
    {
        SCRIPTED_AGENT_SCENARIO_CAUSAL_TRACE_COMPLETENESS_RULE
    }

    pub fn record_count(self) -> (r: u8)
        ensures
            r == self@.record_count,
    {
        self.record_count
    }

    pub fn traced_count(self) -> (r: u8)
        ensures
            r == self@.traced_count,
    {
        self.traced_count
    }

    pub fn status(self) -> (r: ScriptedAgentScenarioCausalTraceCompletenessStatus)
        ensures
            r == self@.status,
    {
        self.status
    }

    pub fn start_observation_id(self) -> (r: ObservationId)
        ensures
            r == self@.start_observation_id,
    {
        self.start_observation_id
    }

    pub fn end_observation_id(self) -> (r: ObservationId)
        ensures
            r == self@.end_observation_id,
    {
        self.end_observation_id
    }
}

} // verus!
