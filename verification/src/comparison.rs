//! Comparison of two verified tally reports: per-row signed intent-count
//! deltas, the first largest-delta candidate, its provisional threshold
//! signal, the positional comparison codec, and the tracing of a candidate
//! to a verified replay.

use vstd::prelude::*;
use vstd::utf8::{encode_utf8, is_ascii_chars};
use crate::codec::{
    find_key, is_pair_at, key_index, key_seq, lemma_key_index_unique, lemma_pair_split_at, pair_line,
    pair_split, range_seq, split_pair,
};
use crate::lane::{intent_at, intent_index, ActorId, LaneIntent, ObservationId};
use crate::profile::{
    evaluation_rule_of, lemma_profile_id_round_trip, lemma_profile_texts_ascii, profile_from_id,
    profile_id_of,
    ScriptedAgentEvaluationRule, ScriptedAgentProfile,
};
use crate::replay::{
    all_replayable, replay_verified, replayable, ScriptedAgentReplayError, ScriptedAgentReplayRecord,
};
use crate::sample::{
    field_count, tally_ok, tally_report_ok, ScriptedAgentMatchedScenarioTally,
    ScriptedAgentMatchedScenarioTallyReport, TallyReportView, TallyView,
    MAX_SCRIPTED_AGENT_MATCHED_SCENARIO_SAMPLES,
};
use crate::batch::MAX_SCRIPTED_AGENT_BATCH_MANIFESTS;
use crate::text::{
    decimal, field_spans, find_char, find_in, joined_fields, joined_lines, lemma_ascii_byte_len,
    lemma_ascii_concat, lemma_decimal_plain, lemma_decimal_u64, lemma_decimal_u8,
    lemma_joined_lines_ascii,
    lemma_find_first, lemma_find_in, lemma_joined_fields_push, lemma_joined_lines_concat,
    lemma_joined_lines_push, lemma_lines_of_joined, lemma_parse_decimal, lemma_split_joined,
    line_ranges, line_spans, lines, parse_bounded, parse_number, plain_field, plain_line,
    push_decimal, push_str, range_eq_str, split_from, split_range, str_to_chars,
};

verus! {

/// Versioned identity for bounded comparisons of verified profile-aware tallies.
pub const SCRIPTED_AGENT_MATCHED_SCENARIO_TALLY_COMPARISON_SCHEMA: &'static str =
    "m6-scripted-agent-matched-scenario-tally-compare-v1";

/// Maximum encoded profile-aware tally comparison size before parsing.
pub const MAX_SCRIPTED_AGENT_MATCHED_SCENARIO_TALLY_COMPARISON_BYTES: usize = 4096;

/// Stable identity for the profile-aware fixed-fixture equality gate.
pub const SCRIPTED_AGENT_MATCHED_SCENARIO_TALLY_REGRESSION_RULE: &'static str =
    "m6-fixed-profile-tally-no-change-v1";

/// Versioned identity for the bounded largest-delta candidate projection.
pub const SCRIPTED_AGENT_TALLY_OUTLIER_CANDIDATE_SCHEMA: &'static str =
    "m6-scripted-agent-tally-outlier-candidate-v1";

/// Stable identity for the bounded largest-absolute-delta selection rule.
pub const SCRIPTED_AGENT_TALLY_OUTLIER_CANDIDATE_RULE: &'static str =
    "m6-largest-absolute-intent-delta-v1";

/// Versioned identity for a provisional fixed-fixture outlier threshold signal.
pub const SCRIPTED_AGENT_TALLY_OUTLIER_THRESHOLD_SCHEMA: &'static str =
    "m6-scripted-agent-tally-outlier-threshold-v1";

/// Stable identity for the provisional fixed-fixture threshold rule.
pub const SCRIPTED_AGENT_TALLY_OUTLIER_THRESHOLD_RULE: &'static str =
    "m6-fixed-intent-delta-outlier-threshold-v1";

/// Provisional inclusive magnitude threshold over signed intent-count deltas.
pub const SCRIPTED_AGENT_TALLY_OUTLIER_THRESHOLD_MAGNITUDE: u16 = 2;

/// Versioned identity for a caller-declared candidate replay reference.
pub const SCRIPTED_AGENT_TALLY_REPLAY_REFERENCE_SCHEMA: &'static str =
    "m6-scripted-agent-tally-replay-reference-v1";

/// Stable identity for first matching verified replay selection.
pub const SCRIPTED_AGENT_TALLY_REPLAY_REFERENCE_RULE: &'static str =
    "m6-first-verified-candidate-replay-v1";

/// Versioned identity for a calibrated outlier and representative replay report.
pub const SCRIPTED_AGENT_CALIBRATED_OUTLIER_REPLAY_SCHEMA: &'static str =
    "m6-scripted-agent-calibrated-outlier-replay-v1";

/// Versioned selection rule for calibrated outlier and representative replay tracing.
pub const SCRIPTED_AGENT_CALIBRATED_OUTLIER_REPLAY_RULE: &'static str =
    "m6-calibrated-outlier-representative-replay-v1";

/// Calibrated threshold magnitude for classifying a tally delta as an outlier.
pub const SCRIPTED_AGENT_CALIBRATED_OUTLIER_THRESHOLD_MAGNITUDE: u16 = 2;

/// Bounded failures from a profile-aware tally comparison.
#[derive(Clone, Copy, Debug, PartialEq, Eq, Hash, Structural)]
pub enum ScriptedAgentMatchedScenarioTallyComparisonError {
    MismatchedObserver,
    MismatchedRows,
}

/// One actor-safe baseline/candidate row in a verified tally comparison.
#[derive(Clone, Copy, Debug, PartialEq, Eq, Hash)]
pub struct ScriptedAgentMatchedScenarioTallyComparisonEntry {
    profile: ScriptedAgentProfile,
    baseline: [u8; 5],
    candidate: [u8; 5],
}

/// The content of a comparison row; counts are in
/// `[Stabilize, Contest, Yield, Recall, Withdraw]` order.
pub struct ComparisonEntryView {
    pub profile: ScriptedAgentProfile,
    pub baseline: Seq<u8>,
    pub candidate: Seq<u8>,
}

impl View for ScriptedAgentMatchedScenarioTallyComparisonEntry {
    type V = ComparisonEntryView;

    closed spec fn view(&self) -> ComparisonEntryView {
        ComparisonEntryView {
            profile: self.profile,
            baseline: self.baseline@,
            candidate: self.candidate@,
        }
    }
}

/// The candidate-minus-baseline delta of intent `k` in a row.
pub open spec fn delta_of(e: ComparisonEntryView, k: int) -> int {
    e.candidate[k] - e.baseline[k]
}

/// The absolute value of an integer.
pub open spec fn magnitude_of(d: int) -> int {
    if d >= 0 {
        d
    } else {
        -d
    }
}

impl ScriptedAgentMatchedScenarioTallyComparisonEntry {
    pub fn profile_id(self) -> (r: &'static str)
        ensures
            r@ == profile_id_of(self@.profile),
    {
        self.profile.profile_id()
    }

    pub fn evaluation_rule(self) -> (r: &'static str)
        ensures
            r@ == evaluation_rule_of(self@.profile),
    {
        self.profile.evaluation_rule()
    }

    /// Return counts in `[Stabilize, Contest, Yield, Recall, Withdraw]` order.
    pub fn baseline_counts(self) -> (r: [u8; 5])
        ensures
            r@ == self@.baseline,
    {
        self.baseline
    }

    /// Return counts in `[Stabilize, Contest, Yield, Recall, Withdraw]` order.
    pub fn candidate_counts(self) -> (r: [u8; 5])
        ensures
            r@ == self@.candidate,
    {
        self.candidate
    }

    /// Return candidate-minus-baseline deltas in
    /// `[Stabilize, Contest, Yield, Recall, Withdraw]` order.
    pub fn deltas(self) -> (r: [i16; 5])
        ensures
            forall|k: int| 0 <= k < 5 ==> #[trigger] r@[k] == delta_of(self@, k),
    {
        [
            self.candidate[0] as i16 - self.baseline[0] as i16,
            self.candidate[1] as i16 - self.baseline[1] as i16,
            self.candidate[2] as i16 - self.baseline[2] as i16,
            self.candidate[3] as i16 - self.baseline[3] as i16,
            self.candidate[4] as i16 - self.baseline[4] as i16,
        ]
    }
}

/// One deterministic metric-side candidate from a verified tally comparison.
#[derive(Clone, Copy, Debug, PartialEq, Eq, Hash)]
pub struct ScriptedAgentMatchedScenarioTallyOutlierCandidate {
    row_index: u8,
    profile: ScriptedAgentProfile,
    intent: LaneIntent,
    delta: i16,
    magnitude: u16,
}

/// The content of a largest-delta candidate.
pub struct CandidateView {
    pub row_index: u8,
    pub profile: ScriptedAgentProfile,
    pub intent: LaneIntent,
    pub delta: i16,
    pub magnitude: u16,
}

impl View for ScriptedAgentMatchedScenarioTallyOutlierCandidate {
    type V = CandidateView;

    closed spec fn view(&self) -> CandidateView {
        CandidateView {
            row_index: self.row_index,
            profile: self.profile,
            intent: self.intent,
            delta: self.delta,
            magnitude: self.magnitude,
        }
    }
}

impl ScriptedAgentMatchedScenarioTallyOutlierCandidate {
    pub fn schema(self) -> (r: &'static str)
        ensures
            r@ == SCRIPTED_AGENT_TALLY_OUTLIER_CANDIDATE_SCHEMA@,
    {
        SCRIPTED_AGENT_TALLY_OUTLIER_CANDIDATE_SCHEMA
    }

    pub fn selection_rule(self) -> (r: &'static str)
        ensures
            r@ == SCRIPTED_AGENT_TALLY_OUTLIER_CANDIDATE_RULE@,
    {
        SCRIPTED_AGENT_TALLY_OUTLIER_CANDIDATE_RULE
    }

    pub fn row_index(self) -> (r: u8)
        ensures
            r == self@.row_index,
    {
        self.row_index
    }

    pub fn profile_id(self) -> (r: &'static str)
        ensures
            r@ == profile_id_of(self@.profile),
    {
        self.profile.profile_id()
    }

    pub fn evaluation_rule(self) -> (r: &'static str)
        ensures
            r@ == evaluation_rule_of(self@.profile),
    {
        self.profile.evaluation_rule()
    }

    pub fn profile(self) -> (r: ScriptedAgentProfile)
        ensures
            r == self@.profile,
    {
        self.profile
    }

    pub fn intent(self) -> (r: LaneIntent)
        ensures
            r == self@.intent,
    {
        self.intent
    }

    pub fn delta(self) -> (r: i16)
        ensures
            r == self@.delta,
    {
        self.delta
    }

    pub fn magnitude(self) -> (r: u16)
        ensures
            r == self@.magnitude,
    {
        self.magnitude
    }
}

/// Keep the best candidate so far unless intent `k` of row `row` changes by
/// strictly more.
pub open spec fn consider(
    best: Option<CandidateView>,
    row: int,
    e: ComparisonEntryView,
    k: int,
) -> Option<CandidateView> {
    let d = delta_of(e, k);
    let m = magnitude_of(d);
    if m == 0 || (best is Some && m <= best->0.magnitude) {
        best
    } else {
        Some(
            CandidateView {
                row_index: row as u8,
                profile: e.profile,
                intent: intent_at(k),
                delta: d as i16,
                magnitude: m as u16,
            },
        )
    }
}

/// The best candidate after considering the first `k` intents of a row.
pub open spec fn best_in_row(
    best: Option<CandidateView>,
    row: int,
    e: ComparisonEntryView,
    k: int,
) -> Option<CandidateView>
    decreases k,
{
    if k <= 0 {
        best
    } else {
        consider(best_in_row(best, row, e, k - 1), row, e, k - 1)
    }
}

/// The first largest-delta candidate of the first `n` rows.
pub open spec fn best_upto(entries: Seq<ComparisonEntryView>, n: int) -> Option<CandidateView>
    decreases n,
{
    if n <= 0 {
        None
    } else {
        best_in_row(best_upto(entries, n - 1), n - 1, entries[n - 1], 5)
    }
}

/// Closed result of the provisional fixed-fixture outlier threshold signal.
#[derive(Clone, Copy, Debug, PartialEq, Eq, Hash, Structural)]
pub enum ScriptedAgentTallyOutlierThresholdStatus {
    AboveThreshold,
    BelowThreshold,
    NoCandidate,
}

/// The identity of a threshold status.
pub open spec fn threshold_status_id(s: ScriptedAgentTallyOutlierThresholdStatus) -> Seq<char> {
    match s {
        ScriptedAgentTallyOutlierThresholdStatus::AboveThreshold => "above_threshold"@,
        ScriptedAgentTallyOutlierThresholdStatus::BelowThreshold => "below_threshold"@,
        ScriptedAgentTallyOutlierThresholdStatus::NoCandidate => "no_candidate"@,
    }
}

impl ScriptedAgentTallyOutlierThresholdStatus {
    pub fn id(self) -> (r: &'static str)
        ensures
            r@ == threshold_status_id(self),
    {
        match self {
            Self::AboveThreshold => "above_threshold",
            Self::BelowThreshold => "below_threshold",
            Self::NoCandidate => "no_candidate",
        }
    }
}

/// Bounded provisional threshold evidence over a verified tally comparison.
#[derive(Clone, Copy, Debug, PartialEq, Eq, Hash, Structural)]
pub struct ScriptedAgentTallyOutlierThresholdReport {
    status: ScriptedAgentTallyOutlierThresholdStatus,
}

/// The threshold status of a largest-delta candidate.
pub open spec fn threshold_status_of(best: Option<CandidateView>) -> ScriptedAgentTallyOutlierThresholdStatus {
    match best {
        Some(c) => if c.magnitude >= SCRIPTED_AGENT_TALLY_OUTLIER_THRESHOLD_MAGNITUDE {
            ScriptedAgentTallyOutlierThresholdStatus::AboveThreshold
        } else {
            ScriptedAgentTallyOutlierThresholdStatus::BelowThreshold
        },
        None => ScriptedAgentTallyOutlierThresholdStatus::NoCandidate,
    }
}

/// Bounded actor-safe count deltas between two verified tally reports.
#[derive(Debug, PartialEq, Eq, Hash)]
pub struct ScriptedAgentMatchedScenarioTallyComparisonReport {
    observer: ActorId,
    baseline_pair_count: u8,
    baseline_observation_count: u8,
    candidate_pair_count: u8,
    candidate_observation_count: u8,
    entries: Vec<ScriptedAgentMatchedScenarioTallyComparisonEntry>,
}

/// The content of a comparison report.
pub struct ComparisonView {
    pub observer: ActorId,
    pub baseline_pair_count: u8,
    pub baseline_observation_count: u8,
    pub candidate_pair_count: u8,
    pub candidate_observation_count: u8,
    pub entries: Seq<ComparisonEntryView>,
}

impl View for ScriptedAgentMatchedScenarioTallyComparisonReport {
    type V = ComparisonView;

    closed spec fn view(&self) -> ComparisonView {
        ComparisonView {
            observer: self.observer,
            baseline_pair_count: self.baseline_pair_count,
            baseline_observation_count: self.baseline_observation_count,
            candidate_pair_count: self.candidate_pair_count,
            candidate_observation_count: self.candidate_observation_count,
            entries: self.entries@.map_values(
                |e: ScriptedAgentMatchedScenarioTallyComparisonEntry| e@,
            ),
        }
    }
}

/// The sum of five counts.
pub open spec fn count_sum(c: Seq<u8>) -> int {
    c[0] + c[1] + c[2] + c[3] + c[4]
}

/// Whether a pair count and an observation count are consistent.
pub open spec fn counts_consistent(pair: u8, obs: u8) -> bool {
    1 <= pair <= MAX_SCRIPTED_AGENT_MATCHED_SCENARIO_SAMPLES && obs == 2 * pair
}

/// Whether a comparison is consistent: one to sixteen rows whose baseline
/// and candidate counts add up to the two observation counts.
pub open spec fn comparison_ok(v: ComparisonView) -> bool {
    &&& 1 <= v.entries.len() <= MAX_SCRIPTED_AGENT_BATCH_MANIFESTS
    &&& counts_consistent(v.baseline_pair_count, v.baseline_observation_count)
    &&& counts_consistent(v.candidate_pair_count, v.candidate_observation_count)
    &&& forall|j: int|
        0 <= j < v.entries.len() ==> (#[trigger] v.entries[j]).baseline.len() == 5
            && v.entries[j].candidate.len() == 5 && count_sum(v.entries[j].baseline)
            == v.baseline_observation_count && count_sum(v.entries[j].candidate)
            == v.candidate_observation_count
}

/// What comparing two tally reports gives.
pub open spec fn comparison_of(b: TallyReportView, c: TallyReportView) -> Result<
    ComparisonView,
    ScriptedAgentMatchedScenarioTallyComparisonError,
> {
    if b.observer != c.observer {
        Err(ScriptedAgentMatchedScenarioTallyComparisonError::MismatchedObserver)
    } else if b.entries.len() != c.entries.len() || exists|j: int|
        0 <= j < b.entries.len() && (#[trigger] b.entries[j]).profile != c.entries[j].profile {
        Err(ScriptedAgentMatchedScenarioTallyComparisonError::MismatchedRows)
    } else {
        Ok(
            ComparisonView {
                observer: b.observer,
                baseline_pair_count: b.pair_count,
                baseline_observation_count: b.observation_count,
                candidate_pair_count: c.pair_count,
                candidate_observation_count: c.observation_count,
                entries: Seq::new(
                    b.entries.len(),
                    |j: int|
                        ComparisonEntryView {
                            profile: b.entries[j].profile,
                            baseline: b.entries[j].counts,
                            candidate: c.entries[j].counts,
                        },
                ),
            },
        )
    }
}

/// Whether a comparison shows no change: equal top-level counts and equal
/// baseline and candidate counts in every row.
pub open spec fn no_change(v: ComparisonView) -> bool {
    &&& v.baseline_pair_count == v.candidate_pair_count
    &&& v.baseline_observation_count == v.candidate_observation_count
    &&& forall|j: int| 0 <= j < v.entries.len() ==> (#[trigger] v.entries[j]).baseline == v.entries[j].candidate
}


impl Clone for ScriptedAgentMatchedScenarioTallyComparisonReport {
    fn clone(&self) -> (r: Self)
        ensures
            r@ == self@,
    {
        proof {
            use_type_invariant(self);
        }
        let mut entries: Vec<ScriptedAgentMatchedScenarioTallyComparisonEntry> = Vec::new();
        let mut i: usize = 0;
        while i < self.entries.len()
            invariant
                i <= self.entries@.len(),
                entries@ == self.entries@.subrange(0, i as int),
            decreases self.entries@.len() - i,
        {
            entries.push(self.entries[i]);
            i = i + 1;
            assert(entries@ =~= self.entries@.subrange(0, i as int));
        }
        assert(entries@ =~= self.entries@);
        ScriptedAgentMatchedScenarioTallyComparisonReport {
            observer: self.observer,
            baseline_pair_count: self.baseline_pair_count,
            baseline_observation_count: self.baseline_observation_count,
            candidate_pair_count: self.candidate_pair_count,
            candidate_observation_count: self.candidate_observation_count,
            entries,
        }
    }
}

impl ScriptedAgentMatchedScenarioTallyComparisonReport {
    #[verifier::type_invariant]
    spec fn wf(self) -> bool {
        comparison_ok(self@)
    }

    /// Compare two verified reports without rerunning policy evaluation.
    pub fn from_reports(
        baseline: &ScriptedAgentMatchedScenarioTallyReport,
        candidate: &ScriptedAgentMatchedScenarioTallyReport,
    ) -> (r: Result<Self, ScriptedAgentMatchedScenarioTallyComparisonError>)
        ensures
            match comparison_of(baseline@, candidate@) {
                Err(e) => r == Err::<Self, ScriptedAgentMatchedScenarioTallyComparisonError>(e),
                Ok(v) => r is Ok && r->Ok_0@ == v,
            },
    {
        let bs = baseline.entries();
        let cs = candidate.entries();
        if baseline.observer().0 != candidate.observer().0 {
            return Err(ScriptedAgentMatchedScenarioTallyComparisonError::MismatchedObserver);
        }
        if bs.len() != cs.len() {
            return Err(ScriptedAgentMatchedScenarioTallyComparisonError::MismatchedRows);
        }
        let mut i: usize = 0;
        while i < bs.len()
            invariant
                i <= bs@.len(),
                bs@.len() == cs@.len(),
                bs@.map_values(|t: ScriptedAgentMatchedScenarioTally| t@) == baseline@.entries,
                cs@.map_values(|t: ScriptedAgentMatchedScenarioTally| t@) == candidate@.entries,
                baseline@.observer == candidate@.observer,
                forall|q: int|
                    0 <= q < i ==> (#[trigger] baseline@.entries[q]).profile
                        == candidate@.entries[q].profile,
            decreases bs@.len() - i,
        {
            assert(baseline@.entries[i as int] == bs@[i as int]@);
            assert(candidate@.entries[i as int] == cs@[i as int]@);
            if bs[i].profile().evaluation != cs[i].profile().evaluation {
                assert(baseline@.entries[i as int].profile != candidate@.entries[i as int].profile);
                return Err(ScriptedAgentMatchedScenarioTallyComparisonError::MismatchedRows);
            }
            i = i + 1;
        }
        let mut entries: Vec<ScriptedAgentMatchedScenarioTallyComparisonEntry> = Vec::new();
        let mut j: usize = 0;
        while j < bs.len()
            invariant
                j <= bs@.len(),
                bs@.len() == cs@.len(),
                bs@.map_values(|t: ScriptedAgentMatchedScenarioTally| t@) == baseline@.entries,
                cs@.map_values(|t: ScriptedAgentMatchedScenarioTally| t@) == candidate@.entries,
                tally_report_ok(baseline@),
                tally_report_ok(candidate@),
                entries@.len() == j,
                forall|q: int|
                    0 <= q < j ==> (#[trigger] entries@[q])@ == (ComparisonEntryView {
                        profile: baseline@.entries[q].profile,
                        baseline: baseline@.entries[q].counts,
                        candidate: candidate@.entries[q].counts,
                    }),
            decreases bs@.len() - j,
        {
            assert(baseline@.entries[j as int] == bs@[j as int]@);
            assert(candidate@.entries[j as int] == cs@[j as int]@);
            let e = ScriptedAgentMatchedScenarioTallyComparisonEntry {
                profile: bs[j].profile(),
                baseline: bs[j].counts(),
                candidate: cs[j].counts(),
            };
            entries.push(e);
            j = j + 1;
        }
        let r = ScriptedAgentMatchedScenarioTallyComparisonReport {
            observer: baseline.observer(),
            baseline_pair_count: baseline.pair_count(),
            baseline_observation_count: baseline.observation_count(),
            candidate_pair_count: candidate.pair_count(),
            candidate_observation_count: candidate.observation_count(),
            entries,
        };
        assert(r@.entries =~= comparison_of(baseline@, candidate@)->Ok_0.entries);
        proof {
            assert forall|q: int| 0 <= q < r@.entries.len() implies (#[trigger] r@.entries[q]).baseline.len() == 5
                && r@.entries[q].candidate.len() == 5 && count_sum(r@.entries[q].baseline)
                == r@.baseline_observation_count && count_sum(r@.entries[q].candidate)
                == r@.candidate_observation_count by {
                assert(tally_ok(baseline@.entries[q]));
                assert(tally_ok(candidate@.entries[q]));
            }
        }
        Ok(r)
    }

    pub fn schema(&self) -> (r: &'static str)
        ensures
            r@ == SCRIPTED_AGENT_MATCHED_SCENARIO_TALLY_COMPARISON_SCHEMA@,
    {
        SCRIPTED_AGENT_MATCHED_SCENARIO_TALLY_COMPARISON_SCHEMA
    }

    pub fn observer(&self) -> (r: ActorId)
        ensures
            r == self@.observer,
    {
        self.observer
    }

    pub fn baseline_pair_count(&self) -> (r: u8)
        ensures
            r == self@.baseline_pair_count,
    {
        self.baseline_pair_count
    }

    pub fn baseline_observation_count(&self) -> (r: u8)
        ensures
            r == self@.baseline_observation_count,
    {
        self.baseline_observation_count
    }

    pub fn candidate_pair_count(&self) -> (r: u8)
        ensures
            r == self@.candidate_pair_count,
    {
        self.candidate_pair_count
    }

    pub fn candidate_observation_count(&self) -> (r: u8)
        ensures
            r == self@.candidate_observation_count,
    {
        self.candidate_observation_count
    }

    pub fn entries(&self) -> (r: &[ScriptedAgentMatchedScenarioTallyComparisonEntry])
        ensures
            r@.map_values(|e: ScriptedAgentMatchedScenarioTallyComparisonEntry| e@)
                == self@.entries,
            r@.len() == self@.entries.len(),
            comparison_ok(self@),
    {
        proof {
            use_type_invariant(self);
        }
        self.entries.as_slice()
    }

    /// Select the first largest absolute signed intent-count delta: rows in
    /// declared order, intents in `[Stabilize, Contest, Yield, Recall, Withdraw]`
    /// order, a later delta replacing the best only when strictly larger; no
    /// changed count gives `None`.
    pub fn largest_delta_candidate(&self) -> (r: Option<
        ScriptedAgentMatchedScenarioTallyOutlierCandidate,
    >)
        ensures
            match r {
                Some(c) => best_upto(self@.entries, self@.entries.len() as int) == Some(c@),
                None => best_upto(self@.entries, self@.entries.len() as int) is None,
            },
    {
        proof {
            use_type_invariant(self);
        }
        let ghost es = self@.entries;
        let mut best: Option<ScriptedAgentMatchedScenarioTallyOutlierCandidate> = None;
        let mut row: usize = 0;
        while row < self.entries.len()
            invariant
                row <= self.entries@.len() <= MAX_SCRIPTED_AGENT_BATCH_MANIFESTS,
                es == self@.entries,
                es.len() == self.entries@.len(),
                match best {
                    Some(c) => best_upto(es, row as int) == Some(c@),
                    None => best_upto(es, row as int) is None,
                },
            decreases self.entries@.len() - row,
        {
            let e = self.entries[row];
            assert(es[row as int] == e@);
            let deltas = e.deltas();
            let ghost start = best_upto(es, row as int);
            let mut k: usize = 0;
            while k < 5
                invariant
                    k <= 5,
                    row < self.entries@.len() <= MAX_SCRIPTED_AGENT_BATCH_MANIFESTS,
                    forall|q: int| 0 <= q < 5 ==> #[trigger] deltas@[q] == delta_of(e@, q),
                    match best {
                        Some(c) => best_in_row(start, row as int, e@, k as int) == Some(c@),
                        None => best_in_row(start, row as int, e@, k as int) is None,
                    },
                decreases 5 - k,
            {
                let d = deltas[k];
                let m: u16 = if d >= 0 {
                    d as u16
                } else {
                    (-d) as u16
                };
                let skip = m == 0 || match best {
                    Some(c) => m <= c.magnitude,
                    None => false,
                };
                if !skip {
                    best = Some(
                        ScriptedAgentMatchedScenarioTallyOutlierCandidate {
                            row_index: row as u8,
                            profile: e.profile,
                            intent: LaneIntent::from_index(k),
                            delta: d,
                            magnitude: m,
                        },
                    );
                }
                k = k + 1;
            }
            row = row + 1;
        }
        best
    }

    /// Encode the verified comparison as bounded positional line-oriented text.
    #[verifier::spinoff_prover]
    pub fn encode(&self) -> (r: String)
        ensures
            r@ == comparison_text(self@),
            is_ascii_chars(r@),
            r@.len() <= MAX_SCRIPTED_AGENT_MATCHED_SCENARIO_TALLY_COMPARISON_BYTES,
    {
        let ghost v = self@;
        let mut out = String::new();
        push_str(&mut out, "schema=");
        push_str(&mut out, SCRIPTED_AGENT_MATCHED_SCENARIO_TALLY_COMPARISON_SCHEMA);
        push_str(&mut out, "\nobserver=");
        push_decimal(&mut out, self.observer.0 as u64);
        push_str(&mut out, "\nbaseline_pair_count=");
        push_decimal(&mut out, self.baseline_pair_count as u64);
        push_str(&mut out, "\nbaseline_observation_count=");
        push_decimal(&mut out, self.baseline_observation_count as u64);
        push_str(&mut out, "\ncandidate_pair_count=");
        push_decimal(&mut out, self.candidate_pair_count as u64);
        push_str(&mut out, "\ncandidate_observation_count=");
        push_decimal(&mut out, self.candidate_observation_count as u64);
        push_str(&mut out, "\nentries=");
        push_decimal(&mut out, self.entries.len() as u64);
        push_str(&mut out, "\n");
        assert(out@ =~= comparison_head(v));
        let ghost head = out@;
        let mut i: usize = 0;
        while i < self.entries.len()
            invariant
                i <= self.entries@.len(),
                v == self@,
                v.entries.len() == self.entries@.len(),
                out@ == head + comparison_rows_text(v.entries, i as int),
            decreases self.entries@.len() - i,
        {
            let e = self.entries[i];
            assert(v.entries[i as int] == e@);
            let line = e.row_line();
            push_str(&mut out, line.as_str());
            assert(out@ =~= head + comparison_rows_text(v.entries, i + 1));
            i = i + 1;
        }
        proof {
            use_type_invariant(self);
            lemma_comparison_text_ascii(v);
        }
        out
    }

    pub fn regression_rule(&self) -> (r: &'static str)
        ensures
            r@ == SCRIPTED_AGENT_MATCHED_SCENARIO_TALLY_REGRESSION_RULE@,
    {
        SCRIPTED_AGENT_MATCHED_SCENARIO_TALLY_REGRESSION_RULE
    }

    /// Return true only when top-level counts and every ordered row are equal.
    pub fn passes_no_change_gate(&self) -> (r: bool)
        ensures
            r == no_change(self@),
    {
        proof {
            use_type_invariant(self);
        }
        if self.baseline_pair_count != self.candidate_pair_count
            || self.baseline_observation_count != self.candidate_observation_count {
            return false;
        }
        let mut i: usize = 0;
        while i < self.entries.len()
            invariant
                i <= self.entries@.len(),
                comparison_ok(self@),
                forall|q: int| 0 <= q < i ==> (#[trigger] self@.entries[q]).baseline == self@.entries[q].candidate,
            decreases self.entries@.len() - i,
        {
            let e = self.entries[i];
            assert(self@.entries[i as int] == e@);
            if e.baseline[0] != e.candidate[0] || e.baseline[1] != e.candidate[1] || e.baseline[2]
                != e.candidate[2] || e.baseline[3] != e.candidate[3] || e.baseline[4]
                != e.candidate[4] {
                return false;
            }
            assert(e@.baseline =~= e@.candidate);
            i = i + 1;
        }
        true
    }
}

/// The first line block of a comparison text.
pub open spec fn comparison_head(v: ComparisonView) -> Seq<char> {
    "schema="@ + SCRIPTED_AGENT_MATCHED_SCENARIO_TALLY_COMPARISON_SCHEMA@ + "\nobserver="@ + decimal(
        v.observer.0 as nat,
    ) + "\nbaseline_pair_count="@ + decimal(v.baseline_pair_count as nat)
        + "\nbaseline_observation_count="@ + decimal(v.baseline_observation_count as nat)
        + "\ncandidate_pair_count="@ + decimal(v.candidate_pair_count as nat)
        + "\ncandidate_observation_count="@ + decimal(v.candidate_observation_count as nat)
        + "\nentries="@ + decimal(v.entries.len()) + "\n"@
}

/// The `|`-separated fields of one comparison row.
pub open spec fn comparison_row_text(e: ComparisonEntryView) -> Seq<char> {
    profile_id_of(e.profile) + "|"@ + evaluation_rule_of(e.profile) + counts_text(e.baseline, 5)
        + counts_text(e.candidate, 5)
}

/// The `row=` lines of the first `n` comparison rows.
pub open spec fn comparison_rows_text(entries: Seq<ComparisonEntryView>, n: int) -> Seq<char>
    decreases n,
{
    if n <= 0 {
        Seq::empty()
    } else {
        comparison_rows_text(entries, n - 1) + "row="@ + comparison_row_text(entries[n - 1])
            + "\n"@
    }
}

/// The canonical text of a comparison.
pub open spec fn comparison_text(v: ComparisonView) -> Seq<char> {
    comparison_head(v) + comparison_rows_text(v.entries, v.entries.len() as int)
}

impl ScriptedAgentMatchedScenarioTallyComparisonEntry {
    /// The `row=` line of this comparison row.
    fn row_line(self) -> (r: String)
        ensures
            r@ == "row="@ + comparison_row_text(self@) + "\n"@,
    {
        let mut out = String::new();
        push_str(&mut out, "row=");
        push_str(&mut out, self.profile.profile_id());
        push_str(&mut out, "|");
        push_str(&mut out, self.profile.evaluation_rule());
        let mut k: usize = 0;
        let ghost head = out@;
        while k < 5
            invariant
                k <= 5,
                out@ == head + counts_text(self.baseline@, k as int),
            decreases 5 - k,
        {
            push_str(&mut out, "|");
            push_decimal(&mut out, self.baseline[k] as u64);
            assert(out@ =~= head + counts_text(self.baseline@, k + 1));
            k = k + 1;
        }
        let ghost mid = out@;
        let mut k: usize = 0;
        while k < 5
            invariant
                k <= 5,
                out@ == mid + counts_text(self.candidate@, k as int),
            decreases 5 - k,
        {
            push_str(&mut out, "|");
            push_decimal(&mut out, self.candidate[k] as u64);
            assert(out@ =~= mid + counts_text(self.candidate@, k + 1));
            k = k + 1;
        }
        push_str(&mut out, "\n");
        assert(out@ =~= "row="@ + comparison_row_text(self@) + "\n"@);
        out
    }
}

/// `|c` for each of the first `n` counts.
pub open spec fn counts_text(c: Seq<u8>, n: int) -> Seq<char>
    decreases n,
{
    if n <= 0 {
        Seq::empty()
    } else {
        counts_text(c, n - 1) + "|"@ + decimal(c[n - 1] as nat)
    }
}

impl ScriptedAgentTallyOutlierThresholdReport {
    /// Classify the largest-delta candidate of a comparison without rerunning policy.
    pub fn from_comparison(comparison: &ScriptedAgentMatchedScenarioTallyComparisonReport) -> (r:
        Self)
        ensures
            r.status_view() == threshold_status_of(
                best_upto(comparison@.entries, comparison@.entries.len() as int),
            ),
            (r.status_view() == ScriptedAgentTallyOutlierThresholdStatus::AboveThreshold)
                <==> some_change_at_least(
                comparison@.entries,
                SCRIPTED_AGENT_TALLY_OUTLIER_THRESHOLD_MAGNITUDE as int,
            ),
            (r.status_view() == ScriptedAgentTallyOutlierThresholdStatus::NoCandidate)
                <==> !some_change_at_least(comparison@.entries, 1),
    {
        proof {
            use_type_invariant(comparison);
            lemma_threshold_status_by_change_size(comparison@.entries);
        }
        let status = match comparison.largest_delta_candidate() {
            Some(c) => if c.magnitude() >= SCRIPTED_AGENT_TALLY_OUTLIER_THRESHOLD_MAGNITUDE {
                ScriptedAgentTallyOutlierThresholdStatus::AboveThreshold
            } else {
                ScriptedAgentTallyOutlierThresholdStatus::BelowThreshold
            },
            None => ScriptedAgentTallyOutlierThresholdStatus::NoCandidate,
        };
        ScriptedAgentTallyOutlierThresholdReport { status }
    }

    pub fn schema(self) -> (r: &'static str)
        ensures
            r@ == SCRIPTED_AGENT_TALLY_OUTLIER_THRESHOLD_SCHEMA@,
    {
        SCRIPTED_AGENT_TALLY_OUTLIER_THRESHOLD_SCHEMA
    }

    pub fn rule(self) -> (r: &'static str)
        ensures
            r@ == SCRIPTED_AGENT_TALLY_OUTLIER_THRESHOLD_RULE@,
    {
        SCRIPTED_AGENT_TALLY_OUTLIER_THRESHOLD_RULE
    }

    pub fn threshold(self) -> (r: u16)
        ensures
            r == SCRIPTED_AGENT_TALLY_OUTLIER_THRESHOLD_MAGNITUDE,
    {
        SCRIPTED_AGENT_TALLY_OUTLIER_THRESHOLD_MAGNITUDE
    }

    /// The status of the report.
    pub closed spec fn status_view(self) -> ScriptedAgentTallyOutlierThresholdStatus {
        self.status
    }

    pub fn status(self) -> (r: ScriptedAgentTallyOutlierThresholdStatus)
        ensures
            r == self.status_view(),
    {
        self.status
    }
}


/// Bounded failures from the profile-aware tally comparison codec.
#[derive(Clone, Copy, Debug, PartialEq, Eq, Hash, Structural)]
pub enum ScriptedAgentMatchedScenarioTallyComparisonCodecError {
    Oversized,
    UnexpectedLineCount { expected: usize, actual: usize },
    UnknownField,
    DuplicateField,
    MissingField,
    UnsupportedSchema,
    InvalidValue,
    InputMismatch,
}

/// The header keys of a comparison text, in their fixed positions.
pub open spec fn comparison_keys() -> Seq<Seq<char>> {
    seq![
        "schema"@,
        "observer"@,
        "baseline_pair_count"@,
        "baseline_observation_count"@,
        "candidate_pair_count"@,
        "candidate_observation_count"@,
        "entries"@,
    ]
}

/// The error for a line whose key is not the expected one: a known header
/// key out of place, or an unknown key.
pub open spec fn misplaced_key(s: Seq<char>, a: int, j: int) -> ScriptedAgentMatchedScenarioTallyComparisonCodecError {
    if key_index(s, a, j, comparison_keys()) is Some {
        ScriptedAgentMatchedScenarioTallyComparisonCodecError::DuplicateField
    } else {
        ScriptedAgentMatchedScenarioTallyComparisonCodecError::UnknownField
    }
}

/// The problem with header line `i`, if any.
pub open spec fn header_issue(s: Seq<char>, r: (int, int), i: int) -> Option<
    ScriptedAgentMatchedScenarioTallyComparisonCodecError,
> {
    match pair_split(s, r) {
        None => Some(ScriptedAgentMatchedScenarioTallyComparisonCodecError::InvalidValue),
        Some(j) => if s.subrange(r.0, j) == comparison_keys()[i] {
            None
        } else {
            Some(misplaced_key(s, r.0, j))
        },
    }
}

/// The first problem among header lines `i..7`.
pub open spec fn header_scan(s: Seq<char>, lines: Seq<(int, int)>, i: int) -> Option<
    ScriptedAgentMatchedScenarioTallyComparisonCodecError,
>
    decreases 7 - i,
{
    if i >= 7 || i < 0 {
        None
    } else {
        match header_issue(s, lines[i], i) {
            Some(e) => Some(e),
            None => header_scan(s, lines, i + 1),
        }
    }
}

/// The value range of a `key=value` line.
pub open spec fn value_range(s: Seq<char>, r: (int, int)) -> (int, int) {
    (pair_split(s, r)->0 + 1, r.1)
}

/// The number in the value of header line `i`.
pub open spec fn header_number(s: Seq<char>, lines: Seq<(int, int)>, i: int, max: nat) -> Option<nat> {
    parse_bounded(s, value_range(s, lines[i]).0, value_range(s, lines[i]).1, max)
}

/// The numeric header fields of a comparison text.
pub struct ComparisonHeader {
    pub observer: u8,
    pub baseline_pair_count: u8,
    pub baseline_observation_count: u8,
    pub candidate_pair_count: u8,
    pub candidate_observation_count: u8,
    pub entries: nat,
}

/// The numeric header fields, if all parse and are consistent.
pub open spec fn comparison_header(s: Seq<char>, lines: Seq<(int, int)>) -> Option<ComparisonHeader> {
    if forall|i: int| 1 <= i < 6 ==> #[trigger] header_number(s, lines, i, 255) is Some {
        let h = ComparisonHeader {
            observer: header_number(s, lines, 1, 255)->0 as u8,
            baseline_pair_count: header_number(s, lines, 2, 255)->0 as u8,
            baseline_observation_count: header_number(s, lines, 3, 255)->0 as u8,
            candidate_pair_count: header_number(s, lines, 4, 255)->0 as u8,
            candidate_observation_count: header_number(s, lines, 5, 255)->0 as u8,
            entries: 0,
        };
        if !counts_consistent(h.baseline_pair_count, h.baseline_observation_count)
            || !counts_consistent(h.candidate_pair_count, h.candidate_observation_count) {
            None
        } else {
            match header_number(s, lines, 6, usize::MAX as nat) {
                None => None,
                Some(n) => if 1 <= n <= MAX_SCRIPTED_AGENT_BATCH_MANIFESTS {
                    Some(ComparisonHeader { entries: n, ..h })
                } else {
                    None
                },
            }
        }
    } else {
        None
    }
}

/// The comparison row `row=...` in `s[r.0..r.1)`, or why it is not one.
pub open spec fn comparison_row_parse(s: Seq<char>, r: (int, int), bo: u8, co: u8) -> Result<
    ComparisonEntryView,
    ScriptedAgentMatchedScenarioTallyComparisonCodecError,
> {
    match find_in(s, '=', r.0, r.1) {
        None => Err(ScriptedAgentMatchedScenarioTallyComparisonCodecError::InvalidValue),
        Some(j) => if s.subrange(r.0, j) != "row"@ {
            Err(misplaced_key(s, r.0, j))
        } else {
            comparison_fields_parse(s, split_from(s, '|', j + 1, r.1), bo, co)
        },
    }
}

/// The comparison row spelled by the `|`-separated fields `f`, if valid.
pub open spec fn comparison_fields_parse(s: Seq<char>, f: Seq<(int, int)>, bo: u8, co: u8) -> Result<
    ComparisonEntryView,
    ScriptedAgentMatchedScenarioTallyComparisonCodecError,
> {
    if f.len() != 12 || exists|k: int| 0 <= k < 12 && (#[trigger] f[k]).0 == f[k].1 {
        Err(ScriptedAgentMatchedScenarioTallyComparisonCodecError::InvalidValue)
    } else {
        match profile_from_id(s.subrange(f[0].0, f[0].1)) {
            None => Err(ScriptedAgentMatchedScenarioTallyComparisonCodecError::InvalidValue),
            Some(p) => if evaluation_rule_of(p) != s.subrange(f[1].0, f[1].1) {
                Err(ScriptedAgentMatchedScenarioTallyComparisonCodecError::InvalidValue)
            } else if !(forall|k: int| 2 <= k < 12 ==> #[trigger] field_count(s, f, k) is Some) {
                Err(ScriptedAgentMatchedScenarioTallyComparisonCodecError::InvalidValue)
            } else {
                let b = Seq::new(5, |k: int| field_count(s, f, k + 2)->0 as u8);
                let c = Seq::new(5, |k: int| field_count(s, f, k + 7)->0 as u8);
                if count_sum(b) != bo || count_sum(c) != co {
                    Err(ScriptedAgentMatchedScenarioTallyComparisonCodecError::InvalidValue)
                } else {
                    Ok(ComparisonEntryView { profile: p, baseline: b, candidate: c })
                }
            },
        }
    }
}

/// The rows of lines `i..`, or the first problem among them.
pub open spec fn comparison_rows_from(
    s: Seq<char>,
    lines: Seq<(int, int)>,
    i: int,
    bo: u8,
    co: u8,
) -> Result<Seq<ComparisonEntryView>, ScriptedAgentMatchedScenarioTallyComparisonCodecError>
    decreases lines.len() - i,
{
    if i >= lines.len() || i < 0 {
        Ok(Seq::empty())
    } else {
        match comparison_row_parse(s, lines[i], bo, co) {
            Err(e) => Err(e),
            Ok(e) => match comparison_rows_from(s, lines, i + 1, bo, co) {
                Err(x) => Err(x),
                Ok(rest) => Ok(seq![e] + rest),
            },
        }
    }
}

/// What decoding a comparison text of `byte_len` bytes gives, before
/// comparing it with a verified report.
pub open spec fn comparison_decode(s: Seq<char>, byte_len: nat) -> Result<
    ComparisonView,
    ScriptedAgentMatchedScenarioTallyComparisonCodecError,
> {
    let lines = line_ranges(s);
    if byte_len > MAX_SCRIPTED_AGENT_MATCHED_SCENARIO_TALLY_COMPARISON_BYTES {
        Err(ScriptedAgentMatchedScenarioTallyComparisonCodecError::Oversized)
    } else if lines.len() < 7 {
        Err(ScriptedAgentMatchedScenarioTallyComparisonCodecError::MissingField)
    } else {
        match header_scan(s, lines, 0) {
            Some(e) => Err(e),
            None => if s.subrange(value_range(s, lines[0]).0, value_range(s, lines[0]).1)
                != SCRIPTED_AGENT_MATCHED_SCENARIO_TALLY_COMPARISON_SCHEMA@ {
                Err(ScriptedAgentMatchedScenarioTallyComparisonCodecError::UnsupportedSchema)
            } else {
                match comparison_header(s, lines) {
                    None => Err(ScriptedAgentMatchedScenarioTallyComparisonCodecError::InvalidValue),
                    Some(h) => if lines.len() != 7 + h.entries {
                        Err(
                            ScriptedAgentMatchedScenarioTallyComparisonCodecError::UnexpectedLineCount {
                                expected: (7 + h.entries) as usize,
                                actual: lines.len() as usize,
                            },
                        )
                    } else {
                        match comparison_rows_from(
                            s,
                            lines,
                            7,
                            h.baseline_observation_count,
                            h.candidate_observation_count,
                        ) {
                            Err(e) => Err(e),
                            Ok(entries) => Ok(
                                ComparisonView {
                                    observer: ActorId(h.observer),
                                    baseline_pair_count: h.baseline_pair_count,
                                    baseline_observation_count: h.baseline_observation_count,
                                    candidate_pair_count: h.candidate_pair_count,
                                    candidate_observation_count: h.candidate_observation_count,
                                    entries,
                                },
                            ),
                        }
                    },
                }
            },
        }
    }
}

/// The `|`-separated fields of one comparison row.
pub open spec fn comparison_row_fields(e: ComparisonEntryView) -> Seq<Seq<char>> {
    seq![profile_id_of(e.profile), evaluation_rule_of(e.profile)] + Seq::new(
        5,
        |k: int| decimal(e.baseline[k] as nat),
    ) + Seq::new(5, |k: int| decimal(e.candidate[k] as nat))
}

/// The `row=` lines of comparison rows.
pub open spec fn comparison_row_lines(entries: Seq<ComparisonEntryView>) -> Seq<Seq<char>> {
    entries.map_values(|e: ComparisonEntryView| pair_line("row"@, comparison_row_text(e)))
}

/// The header lines of a comparison text.
pub open spec fn comparison_header_lines(v: ComparisonView) -> Seq<Seq<char>> {
    seq![
        pair_line("schema"@, SCRIPTED_AGENT_MATCHED_SCENARIO_TALLY_COMPARISON_SCHEMA@),
        pair_line("observer"@, decimal(v.observer.0 as nat)),
        pair_line("baseline_pair_count"@, decimal(v.baseline_pair_count as nat)),
        pair_line("baseline_observation_count"@, decimal(v.baseline_observation_count as nat)),
        pair_line("candidate_pair_count"@, decimal(v.candidate_pair_count as nat)),
        pair_line("candidate_observation_count"@, decimal(v.candidate_observation_count as nat)),
        pair_line("entries"@, decimal(v.entries.len())),
    ]
}

/// The lines of a comparison text: seven headers, then one row per entry.
pub open spec fn comparison_lines(v: ComparisonView) -> Seq<Seq<char>> {
    comparison_header_lines(v) + comparison_row_lines(v.entries)
}

/// The header keys and the row key.
spec fn comparison_line_key_texts() -> Seq<Seq<char>> {
    comparison_keys().push("row"@)
}

/// The value of each line of a comparison text.
spec fn comparison_vals(v: ComparisonView) -> Seq<Seq<char>> {
    seq![
        SCRIPTED_AGENT_MATCHED_SCENARIO_TALLY_COMPARISON_SCHEMA@,
        decimal(v.observer.0 as nat),
        decimal(v.baseline_pair_count as nat),
        decimal(v.baseline_observation_count as nat),
        decimal(v.candidate_pair_count as nat),
        decimal(v.candidate_observation_count as nat),
        decimal(v.entries.len()),
    ] + v.entries.map_values(|e: ComparisonEntryView| comparison_row_text(e))
}

/// The key of each line of a comparison text.
spec fn comparison_line_keys(n: nat) -> Seq<int> {
    Seq::new(
        n + 7,
        |i: int|
            if i < 7 {
                i
            } else {
                7
            },
    )
}

/// Appending `|c` for each count joins the counts as further fields.
proof fn lemma_counts_fields(prefix: Seq<Seq<char>>, c: Seq<u8>, k: int)
    requires
        prefix.len() >= 1,
        0 <= k <= c.len(),
    ensures
        joined_fields(prefix) + counts_text(c, k) == joined_fields(
            prefix + Seq::new(k as nat, |i: int| decimal(c[i] as nat)),
        ),
    decreases k,
{
    reveal_strlit("|");
    if k == 0 {
        assert(prefix + Seq::new(0, |i: int| decimal(c[i] as nat)) =~= prefix);
        assert(joined_fields(prefix) + counts_text(c, 0) =~= joined_fields(prefix));
    } else {
        lemma_counts_fields(prefix, c, k - 1);
        let before = prefix + Seq::new((k - 1) as nat, |i: int| decimal(c[i] as nat));
        lemma_joined_fields_push(before, decimal(c[k - 1] as nat));
        assert(before.push(decimal(c[k - 1] as nat)) =~= prefix + Seq::new(
            k as nat,
            |i: int| decimal(c[i] as nat),
        ));
        assert("|"@ =~= seq!['|']);
        assert(joined_fields(prefix) + counts_text(c, k) =~= joined_fields(prefix) + counts_text(
            c,
            k - 1,
        ) + seq!['|'] + decimal(c[k - 1] as nat));
    }
}

/// A comparison row's text is its fields joined by `|`.
proof fn lemma_comparison_row_text_fields(e: ComparisonEntryView)
    requires
        e.baseline.len() == 5,
        e.candidate.len() == 5,
    ensures
        comparison_row_text(e) == joined_fields(comparison_row_fields(e)),
{
    reveal_strlit("|");
    let p = seq![profile_id_of(e.profile)];
    assert(joined_fields(p) == profile_id_of(e.profile));
    lemma_joined_fields_push(p, evaluation_rule_of(e.profile));
    let head = p.push(evaluation_rule_of(e.profile));
    assert("|"@ =~= seq!['|']);
    lemma_counts_fields(head, e.baseline, 5);
    let mid = head + Seq::new(5, |i: int| decimal(e.baseline[i] as nat));
    lemma_counts_fields(mid, e.candidate, 5);
    assert(mid + Seq::new(5, |i: int| decimal(e.candidate[i] as nat)) =~= comparison_row_fields(e));
    assert(comparison_row_text(e) =~= joined_fields(head) + counts_text(e.baseline, 5) + counts_text(
        e.candidate,
        5,
    ));
}

/// The fields of a comparison row are non-empty and hold no `|`, and its text is a plain line.
proof fn lemma_comparison_row_fields_plain(e: ComparisonEntryView)
    requires
        e.baseline.len() == 5,
        e.candidate.len() == 5,
    ensures
        comparison_row_fields(e).len() == 12,
        forall|i: int|
            0 <= i < 12 ==> plain_field(#[trigger] comparison_row_fields(e)[i])
                && comparison_row_fields(e)[i].len() > 0 && plain_line(comparison_row_fields(e)[i]),
{
    reveal_strlit("cautious-laner-v1");
    reveal_strlit("risk-taking-laner-v1");
    reveal_strlit("yielding-laner-v1");
    reveal_strlit("threat-first-pressure-aware-fixed-score-v1");
    reveal_strlit("contest-first-fixed-score-v1");
    reveal_strlit("yield-first-fixed-score-v1");
    let fs = comparison_row_fields(e);
    assert(plain_line(fs[0]) && plain_line(fs[1]) && plain_field(fs[0]) && plain_field(fs[1])
        && fs[0].len() > 0 && fs[1].len() > 0) by {
        match e.profile.evaluation {
            ScriptedAgentEvaluationRule::Threat => {},
            ScriptedAgentEvaluationRule::Contest => {},
            ScriptedAgentEvaluationRule::Yield => {},
        }
    }
    assert forall|i: int| 2 <= i < 12 implies plain_field(#[trigger] fs[i]) && fs[i].len() > 0
        && plain_line(fs[i]) by {
        if i < 7 {
            assert(fs[i] == decimal(e.baseline[i - 2] as nat));
            lemma_decimal_plain(e.baseline[i - 2] as nat);
        } else {
            assert(fs[i] == decimal(e.candidate[i - 7] as nat));
            lemma_decimal_plain(e.candidate[i - 7] as nat);
        }
    }
}

/// Text joined by `|` from plain non-empty fields is a non-empty plain line.
proof fn lemma_joined_fields_plain(fs: Seq<Seq<char>>)
    requires
        fs.len() >= 1,
        forall|i: int| 0 <= i < fs.len() ==> plain_line(#[trigger] fs[i]) && fs[i].len() > 0,
    ensures
        plain_line(joined_fields(fs)),
        joined_fields(fs).len() > 0,
    decreases fs.len(),
{
    assert(plain_line(fs[0]) && fs[0].len() > 0);
    if fs.len() > 1 {
        let rest = fs.skip(1);
        assert forall|i: int| 0 <= i < rest.len() implies plain_line(#[trigger] rest[i]) && rest[i].len()
            > 0 by {
            assert(rest[i] == fs[i + 1]);
        }
        lemma_joined_fields_plain(rest);
        let t = joined_fields(fs);
        assert(t == fs[0] + seq!['|'] + joined_fields(rest));
        assert forall|k: int| 0 <= k < t.len() implies #[trigger] t[k] != '\n' && t[k] != '\r' by {
            if k < fs[0].len() {
                assert(t[k] == fs[0][k]);
            } else if k > fs[0].len() {
                assert(t[k] == joined_fields(rest)[k - fs[0].len() - 1]);
            }
        }
    }
}

/// The row lines of the first `n` entries are their `row=` lines, each ended by a line break.
proof fn lemma_comparison_rows_joined(entries: Seq<ComparisonEntryView>, n: int)
    requires
        0 <= n <= entries.len(),
    ensures
        comparison_rows_text(entries, n) == joined_lines(comparison_row_lines(entries.take(n))),
    decreases n,
{
    reveal_strlit("row=");
    reveal_strlit("row");
    reveal_strlit("\n");
    if n == 0 {
        assert(comparison_row_lines(entries.take(0)).len() == 0);
    } else {
        lemma_comparison_rows_joined(entries, n - 1);
        let line = pair_line("row"@, comparison_row_text(entries[n - 1]));
        assert(comparison_row_lines(entries.take(n)) =~= comparison_row_lines(entries.take(n - 1)).push(
            line,
        ));
        lemma_joined_lines_push(comparison_row_lines(entries.take(n - 1)), line);
        assert(comparison_rows_text(entries, n) =~= joined_lines(
            comparison_row_lines(entries.take(n)),
        ));
    }
}

/// The head of a comparison text is its header lines, each ended by a line break.
#[verifier::spinoff_prover]
#[verifier::rlimit(100)]
proof fn lemma_comparison_head_text(v: ComparisonView)
    ensures
        comparison_head(v) == joined_lines(comparison_header_lines(v)),
{
    reveal_strlit("schema=");
    reveal_strlit("\nobserver=");
    reveal_strlit("\nbaseline_pair_count=");
    reveal_strlit("\nbaseline_observation_count=");
    reveal_strlit("\ncandidate_pair_count=");
    reveal_strlit("\ncandidate_observation_count=");
    reveal_strlit("\nentries=");
    reveal_strlit("\n");
    reveal_strlit("schema");
    reveal_strlit("observer");
    reveal_strlit("baseline_pair_count");
    reveal_strlit("baseline_observation_count");
    reveal_strlit("candidate_pair_count");
    reveal_strlit("candidate_observation_count");
    reveal_strlit("entries");
    let h = comparison_header_lines(v);
    let e = Seq::<Seq<char>>::empty();
    assert(joined_lines(e) == Seq::<char>::empty());
    lemma_joined_lines_push(e, h[0]);
    lemma_joined_lines_push(e.push(h[0]), h[1]);
    lemma_joined_lines_push(e.push(h[0]).push(h[1]), h[2]);
    lemma_joined_lines_push(e.push(h[0]).push(h[1]).push(h[2]), h[3]);
    lemma_joined_lines_push(e.push(h[0]).push(h[1]).push(h[2]).push(h[3]), h[4]);
    lemma_joined_lines_push(e.push(h[0]).push(h[1]).push(h[2]).push(h[3]).push(h[4]), h[5]);
    lemma_joined_lines_push(e.push(h[0]).push(h[1]).push(h[2]).push(h[3]).push(h[4]).push(h[5]), h[6]);
    assert(e.push(h[0]).push(h[1]).push(h[2]).push(h[3]).push(h[4]).push(h[5]).push(h[6]) =~= h);
    assert(comparison_head(v) =~= joined_lines(h));
}

/// A comparison text is its lines, each ended by a line break.
proof fn lemma_comparison_text_lines(v: ComparisonView)
    ensures
        comparison_text(v) == joined_lines(comparison_lines(v)),
{
    lemma_joined_lines_concat(comparison_header_lines(v), comparison_row_lines(v.entries));
    lemma_comparison_rows_joined(v.entries, v.entries.len() as int);
    assert(v.entries.take(v.entries.len() as int) =~= v.entries);
    lemma_comparison_head_text(v);
}

/// A `row=` line written from a consistent entry reads back as that entry.
#[verifier::spinoff_prover]
#[verifier::rlimit(60)]
proof fn lemma_comparison_row_parse_back(
    s: Seq<char>,
    r: (int, int),
    e: ComparisonEntryView,
    bo: u8,
    co: u8,
)
    requires
        0 <= r.0 <= r.1 <= s.len(),
        s.subrange(r.0, r.1) == pair_line("row"@, comparison_row_text(e)),
        e.baseline.len() == 5,
        e.candidate.len() == 5,
        count_sum(e.baseline) == bo,
        count_sum(e.candidate) == co,
    ensures
        comparison_row_parse(s, r, bo, co) == Ok::<
            ComparisonEntryView,
            ScriptedAgentMatchedScenarioTallyComparisonCodecError,
        >(e),
{
    reveal_strlit("row");
    let text = comparison_row_text(e);
    let line = pair_line("row"@, text);
    let j = r.0 + 3;
    assert(line.len() == 4 + text.len());
    assert(s[j] == line[3]);
    assert forall|k: int| r.0 <= k < j implies s[k] != '=' by {
        assert(s[k] == line[k - r.0]);
    }
    lemma_find_first(s, '=', r.0, j, r.1);
    assert(s.subrange(r.0, j) =~= "row"@) by {
        assert forall|k: int| 0 <= k < 3 implies s.subrange(r.0, j)[k] == "row"@[k] by {
            assert(s[r.0 + k] == line[k]);
        }
    }
    assert(s.subrange(j + 1, r.1) =~= text) by {
        assert forall|k: int| 0 <= k < text.len() implies s.subrange(j + 1, r.1)[k] == text[k] by {
            assert(s[j + 1 + k] == line[4 + k]);
        }
    }
    let fs = comparison_row_fields(e);
    lemma_comparison_row_text_fields(e);
    lemma_comparison_row_fields_plain(e);
    lemma_split_joined(s, j + 1, r.1, fs);
    let f = split_from(s, '|', j + 1, r.1);
    assert(f.len() == 12);
    assert forall|k: int| 0 <= k < 12 implies (#[trigger] f[k]).0 != f[k].1 by {
        assert(s.subrange(f[k].0, f[k].1) == fs[k]);
        assert(fs[k].len() > 0);
    }
    lemma_profile_id_round_trip(e.profile);
    assert(s.subrange(f[0].0, f[0].1) == fs[0]);
    assert(s.subrange(f[1].0, f[1].1) == fs[1]);
    assert forall|k: int| 2 <= k < 12 implies #[trigger] field_count(s, f, k) == Some(
        if k < 7 {
            e.baseline[k - 2] as nat
        } else {
            e.candidate[k - 7] as nat
        },
    ) by {
        assert(s.subrange(f[k].0, f[k].1) == fs[k]);
        if k < 7 {
            assert(fs[k] == decimal(e.baseline[k - 2] as nat));
            lemma_parse_decimal(s, f[k].0, e.baseline[k - 2] as nat, 255);
        } else {
            assert(fs[k] == decimal(e.candidate[k - 7] as nat));
            lemma_parse_decimal(s, f[k].0, e.candidate[k - 7] as nat, 255);
        }
    }
    let b = Seq::new(5, |k: int| field_count(s, f, k + 2)->0 as u8);
    let c = Seq::new(5, |k: int| field_count(s, f, k + 7)->0 as u8);
    assert(b =~= e.baseline);
    assert(c =~= e.candidate);
}

/// Rows from line `i` on, written from consistent entries, read back as those entries.
proof fn lemma_comparison_rows_from_back(
    s: Seq<char>,
    lines: Seq<(int, int)>,
    entries: Seq<ComparisonEntryView>,
    i: int,
    bo: u8,
    co: u8,
)
    requires
        7 <= i <= lines.len(),
        lines.len() == 7 + entries.len(),
        forall|k: int|
            7 <= k < lines.len() ==> 0 <= (#[trigger] lines[k]).0 <= lines[k].1 <= s.len()
                && s.subrange(lines[k].0, lines[k].1) == pair_line(
                "row"@,
                comparison_row_text(entries[k - 7]),
            ),
        forall|k: int|
            0 <= k < entries.len() ==> (#[trigger] entries[k]).baseline.len() == 5
                && entries[k].candidate.len() == 5 && count_sum(entries[k].baseline) == bo
                && count_sum(entries[k].candidate) == co,
    ensures
        comparison_rows_from(s, lines, i, bo, co) == Ok::<
            Seq<ComparisonEntryView>,
            ScriptedAgentMatchedScenarioTallyComparisonCodecError,
        >(entries.skip(i - 7)),
    decreases lines.len() - i,
{
    if i == lines.len() {
        assert(entries.skip(i - 7) =~= Seq::<ComparisonEntryView>::empty());
    } else {
        lemma_comparison_row_parse_back(s, lines[i], entries[i - 7], bo, co);
        lemma_comparison_rows_from_back(s, lines, entries, i + 1, bo, co);
        assert(seq![entries[i - 7]] + entries.skip(i + 1 - 7) =~= entries.skip(i - 7));
    }
}

/// Header lines `i..7` of a written comparison have their keys in place.
proof fn lemma_comparison_header_scan_back(s: Seq<char>, lines: Seq<(int, int)>, i: int)
    requires
        0 <= i <= 7,
        lines.len() >= 7,
        forall|k: int| i <= k < 7 ==> #[trigger] header_issue(s, lines[k], k) is None,
    ensures
        header_scan(s, lines, i) is None,
    decreases 7 - i,
{
    if i < 7 {
        lemma_comparison_header_scan_back(s, lines, i + 1);
    }
}

/// How a comparison text lies: one `key=value` pair per line, seven headers then the rows.
#[verifier::spinoff_prover]
#[verifier::rlimit(100)]
proof fn lemma_comparison_layout(v: ComparisonView)
    requires
        comparison_ok(v),
    ensures
        line_ranges(comparison_text(v)).len() == v.entries.len() + 7,
        forall|i: int|
            0 <= i < v.entries.len() + 7 ==> #[trigger] is_pair_at(
                comparison_text(v),
                line_ranges(comparison_text(v)),
                comparison_line_keys(v.entries.len()),
                comparison_vals(v),
                comparison_line_key_texts(),
                i,
            ),
{
    let n = v.entries.len();
    let text = comparison_text(v);
    let ls = comparison_lines(v);
    let keys = comparison_line_key_texts();
    let vals = comparison_vals(v);
    let line_keys = comparison_line_keys(n);
    reveal_strlit("schema");
    reveal_strlit("observer");
    reveal_strlit("baseline_pair_count");
    reveal_strlit("baseline_observation_count");
    reveal_strlit("candidate_pair_count");
    reveal_strlit("candidate_observation_count");
    reveal_strlit("entries");
    reveal_strlit("row");
    reveal_strlit("m6-scripted-agent-matched-scenario-tally-compare-v1");
    lemma_decimal_plain(v.observer.0 as nat);
    lemma_decimal_plain(v.baseline_pair_count as nat);
    lemma_decimal_plain(v.baseline_observation_count as nat);
    lemma_decimal_plain(v.candidate_pair_count as nat);
    lemma_decimal_plain(v.candidate_observation_count as nat);
    lemma_decimal_plain(n);
    lemma_comparison_text_lines(v);
    assert forall|i: int| 0 <= i < ls.len() implies plain_line(#[trigger] ls[i]) && ls[i]
        == pair_line(keys[line_keys[i]], vals[i]) && vals[i].len() > 0 by {
        if i < 7 {
            assert(ls[i] == comparison_header_lines(v)[i]);
            assert(line_keys[i] == i);
            assert(keys[i] == comparison_keys()[i]);
            if i == 0 {
                assert(vals[i] == SCRIPTED_AGENT_MATCHED_SCENARIO_TALLY_COMPARISON_SCHEMA@);
            } else if i == 1 {
                assert(vals[i] == decimal(v.observer.0 as nat));
            } else if i == 2 {
                assert(vals[i] == decimal(v.baseline_pair_count as nat));
            } else if i == 3 {
                assert(vals[i] == decimal(v.baseline_observation_count as nat));
            } else if i == 4 {
                assert(vals[i] == decimal(v.candidate_pair_count as nat));
            } else if i == 5 {
                assert(vals[i] == decimal(v.candidate_observation_count as nat));
            } else {
                assert(vals[i] == decimal(n));
            }
        } else {
            let e = v.entries[i - 7];
            lemma_comparison_row_fields_plain(e);
            lemma_comparison_row_text_fields(e);
            lemma_joined_fields_plain(comparison_row_fields(e));
            assert(ls[i] == comparison_row_lines(v.entries)[i - 7]);
            assert(vals[i] == comparison_row_text(e));
        }
        let l = ls[i];
        let key = keys[line_keys[i]];
        assert forall|k: int| 0 <= k < l.len() implies #[trigger] l[k] != '\n' && l[k] != '\r' by {
            if k < key.len() {
                assert(l[k] == key[k]);
            } else if k > key.len() {
                assert(l[k] == vals[i][k - key.len() - 1]);
            }
        }
    }
    assert(text.subrange(0, text.len() as int) =~= text);
    lemma_lines_of_joined(text, 0, ls);
    let spans = line_spans(ls, 0);
    assert(line_ranges(text) == spans);
    assert(spans.len() == n + 7);
    assert forall|i: int| 0 <= i < n + 7 implies #[trigger] is_pair_at(
        text,
        spans,
        line_keys,
        vals,
        keys,
        i,
    ) by {
        let sp = line_spans(ls, 0)[i];
        assert(0 <= sp.0 <= sp.1 <= text.len() && text.subrange(sp.0, sp.1) == ls[i]);
        let key = keys[line_keys[i]];
        assert(key.len() > 0);
        assert forall|k: int| 0 <= k < key.len() implies #[trigger] key[k] != '=' by {}
    }
}

/// The `|`-led counts text of the first `n` counts is ASCII of at most four
/// characters per count.
proof fn lemma_counts_text_ascii(c: Seq<u8>, n: int)
    requires
        0 <= n <= c.len(),
    ensures
        is_ascii_chars(counts_text(c, n)),
        counts_text(c, n).len() <= 4 * n,
    decreases n,
{
    if n > 0 {
        reveal_strlit("|");
        lemma_counts_text_ascii(c, n - 1);
        lemma_decimal_u8(c[n - 1] as nat);
        assert(is_ascii_chars("|"@));
        lemma_ascii_concat(counts_text(c, n - 1), "|"@);
        lemma_ascii_concat(counts_text(c, n - 1) + "|"@, decimal(c[n - 1] as nat));
    }
}

/// A comparison row is ASCII text of at most 103 characters.
proof fn lemma_comparison_row_ascii(e: ComparisonEntryView)
    requires
        e.baseline.len() == 5,
        e.candidate.len() == 5,
    ensures
        is_ascii_chars(comparison_row_text(e)),
        comparison_row_text(e).len() <= 103,
{
    reveal_strlit("|");
    lemma_profile_texts_ascii(e.profile);
    lemma_counts_text_ascii(e.baseline, 5);
    lemma_counts_text_ascii(e.candidate, 5);
    let pid = profile_id_of(e.profile);
    let rule = evaluation_rule_of(e.profile);
    assert(is_ascii_chars("|"@));
    lemma_ascii_concat(pid, "|"@);
    lemma_ascii_concat(pid + "|"@, rule);
    lemma_ascii_concat(pid + "|"@ + rule, counts_text(e.baseline, 5));
    lemma_ascii_concat(pid + "|"@ + rule + counts_text(e.baseline, 5), counts_text(e.candidate, 5));
}

/// Each line of a consistent comparison's text is ASCII of at most 110 characters.
#[verifier::spinoff_prover]
#[verifier::rlimit(60)]
proof fn lemma_comparison_lines_ascii(v: ComparisonView)
    requires
        comparison_ok(v),
    ensures
        forall|i: int|
            0 <= i < comparison_lines(v).len() ==> is_ascii_chars(#[trigger] comparison_lines(v)[i])
                && comparison_lines(v)[i].len() <= 110,
{
    reveal_strlit("schema");
    reveal_strlit("observer");
    reveal_strlit("baseline_pair_count");
    reveal_strlit("baseline_observation_count");
    reveal_strlit("candidate_pair_count");
    reveal_strlit("candidate_observation_count");
    reveal_strlit("entries");
    reveal_strlit("row");
    reveal_strlit("m6-scripted-agent-matched-scenario-tally-compare-v1");
    let ls = comparison_lines(v);
    let h = comparison_header_lines(v);
    lemma_decimal_u64(v.observer.0 as nat);
    lemma_decimal_u64(v.baseline_pair_count as nat);
    lemma_decimal_u64(v.baseline_observation_count as nat);
    lemma_decimal_u64(v.candidate_pair_count as nat);
    lemma_decimal_u64(v.candidate_observation_count as nat);
    lemma_decimal_u64(v.entries.len());
    assert(is_ascii_chars(SCRIPTED_AGENT_MATCHED_SCENARIO_TALLY_COMPARISON_SCHEMA@));
    assert(is_ascii_chars(seq!['=']));
    let keys = seq![
        "schema"@,
        "observer"@,
        "baseline_pair_count"@,
        "baseline_observation_count"@,
        "candidate_pair_count"@,
        "candidate_observation_count"@,
        "entries"@,
    ];
    let hv = seq![
        SCRIPTED_AGENT_MATCHED_SCENARIO_TALLY_COMPARISON_SCHEMA@,
        decimal(v.observer.0 as nat),
        decimal(v.baseline_pair_count as nat),
        decimal(v.baseline_observation_count as nat),
        decimal(v.candidate_pair_count as nat),
        decimal(v.candidate_observation_count as nat),
        decimal(v.entries.len()),
    ];
    assert forall|i: int| 0 <= i < 7 implies is_ascii_chars(#[trigger] h[i]) && h[i].len()
        <= 110 by {
        assert(is_ascii_chars(keys[i]) && is_ascii_chars(hv[i]));
        assert(h[i] == keys[i] + seq!['='] + hv[i]);
        lemma_ascii_concat(keys[i], seq!['=']);
        lemma_ascii_concat(keys[i] + seq!['='], hv[i]);
    }
    assert forall|i: int| 0 <= i < ls.len() implies is_ascii_chars(#[trigger] ls[i]) && ls[i].len()
        <= 110 by {
        if i >= 7 {
            let e = v.entries[i - 7];
            assert(e.baseline.len() == 5 && e.candidate.len() == 5);
            lemma_comparison_row_ascii(e);
            assert(ls[i] == comparison_row_lines(v.entries)[i - 7]);
            assert(is_ascii_chars("row"@));
            lemma_ascii_concat("row"@, seq!['=']);
            lemma_ascii_concat("row"@ + seq!['='], comparison_row_text(e));
        } else {
            assert(ls[i] == h[i]);
        }
    }
}

/// The text of a consistent comparison is ASCII and fits the size cap.
proof fn lemma_comparison_text_ascii(v: ComparisonView)
    requires
        comparison_ok(v),
    ensures
        is_ascii_chars(comparison_text(v)),
        comparison_text(v).len() <= MAX_SCRIPTED_AGENT_MATCHED_SCENARIO_TALLY_COMPARISON_BYTES,
{
    let ls = comparison_lines(v);
    lemma_comparison_lines_ascii(v);
    lemma_joined_lines_ascii(ls, 110);
    let n = ls.len();
    assert(n * (110 + 1) <= 23 * 111) by (nonlinear_arith)
        requires
            n <= 23,
    ;
    lemma_comparison_text_lines(v);
}

/// The text of a consistent comparison is ASCII, fits the size cap, and any
/// input holding it decodes back to that comparison.
#[verifier::spinoff_prover]
pub proof fn lemma_comparison_text_reads_back(v: ComparisonView)
    requires
        comparison_ok(v),
    ensures
        is_ascii_chars(comparison_text(v)),
        comparison_text(v).len() <= MAX_SCRIPTED_AGENT_MATCHED_SCENARIO_TALLY_COMPARISON_BYTES,
        encode_utf8(comparison_text(v)).len() == comparison_text(v).len(),
        comparison_decode(comparison_text(v), encode_utf8(comparison_text(v)).len()) == Ok::<
            ComparisonView,
            ScriptedAgentMatchedScenarioTallyComparisonCodecError,
        >(v),
{
    let ls = comparison_lines(v);
    lemma_comparison_lines_ascii(v);
    lemma_joined_lines_ascii(ls, 110);
    let n = ls.len();
    assert(n * (110 + 1) <= 23 * 111) by (nonlinear_arith)
        requires
            n <= 23,
    ;
    lemma_comparison_text_lines(v);
    lemma_ascii_byte_len(comparison_text(v));
    lemma_comparison_round_trip(v, comparison_text(v).len());
}

/// Reading back the text of a consistent comparison gives the same comparison.
#[verifier::spinoff_prover]
#[verifier::rlimit(100)]
pub proof fn lemma_comparison_round_trip(v: ComparisonView, byte_len: nat)
    requires
        comparison_ok(v),
        byte_len <= MAX_SCRIPTED_AGENT_MATCHED_SCENARIO_TALLY_COMPARISON_BYTES,
    ensures
        comparison_decode(comparison_text(v), byte_len) == Ok::<
            ComparisonView,
            ScriptedAgentMatchedScenarioTallyComparisonCodecError,
        >(v),
{
    let n = v.entries.len();
    let text = comparison_text(v);
    let keys = comparison_line_key_texts();
    let vals = comparison_vals(v);
    let line_keys = comparison_line_keys(n);
    reveal_strlit("row");
    lemma_comparison_layout(v);
    let spans = line_ranges(text);
    assert forall|k: int| 0 <= k < 7 implies #[trigger] header_issue(text, spans[k], k) is None by {
        lemma_pair_split_at(text, spans, line_keys, vals, keys, k);
        assert(keys[k] == comparison_keys()[k]);
    }
    lemma_pair_split_at(text, spans, line_keys, vals, keys, 0);
    lemma_pair_split_at(text, spans, line_keys, vals, keys, 1);
    lemma_pair_split_at(text, spans, line_keys, vals, keys, 2);
    lemma_pair_split_at(text, spans, line_keys, vals, keys, 3);
    lemma_pair_split_at(text, spans, line_keys, vals, keys, 4);
    lemma_pair_split_at(text, spans, line_keys, vals, keys, 5);
    lemma_pair_split_at(text, spans, line_keys, vals, keys, 6);
    assert(is_pair_at(text, spans, line_keys, vals, keys, 0));
    assert(is_pair_at(text, spans, line_keys, vals, keys, 1));
    assert(is_pair_at(text, spans, line_keys, vals, keys, 2));
    assert(is_pair_at(text, spans, line_keys, vals, keys, 3));
    assert(is_pair_at(text, spans, line_keys, vals, keys, 4));
    assert(is_pair_at(text, spans, line_keys, vals, keys, 5));
    assert(is_pair_at(text, spans, line_keys, vals, keys, 6));
    assert(text.subrange(value_range(text, spans[0]).0, value_range(text, spans[0]).1)
        == SCRIPTED_AGENT_MATCHED_SCENARIO_TALLY_COMPARISON_SCHEMA@);
    lemma_comparison_header_scan_back(text, spans, 0);
    lemma_parse_decimal(text, value_range(text, spans[1]).0, v.observer.0 as nat, 255);
    lemma_parse_decimal(text, value_range(text, spans[2]).0, v.baseline_pair_count as nat, 255);
    lemma_parse_decimal(text, value_range(text, spans[3]).0, v.baseline_observation_count as nat, 255);
    lemma_parse_decimal(text, value_range(text, spans[4]).0, v.candidate_pair_count as nat, 255);
    lemma_parse_decimal(text, value_range(text, spans[5]).0, v.candidate_observation_count as nat, 255);
    lemma_parse_decimal(text, value_range(text, spans[6]).0, n, usize::MAX as nat);
    assert(header_number(text, spans, 1, 255) == Some(v.observer.0 as nat));
    assert(header_number(text, spans, 2, 255) == Some(v.baseline_pair_count as nat));
    assert(header_number(text, spans, 3, 255) == Some(v.baseline_observation_count as nat));
    assert(header_number(text, spans, 4, 255) == Some(v.candidate_pair_count as nat));
    assert(header_number(text, spans, 5, 255) == Some(v.candidate_observation_count as nat));
    assert(header_number(text, spans, 6, usize::MAX as nat) == Some(n));
    assert forall|k: int| 7 <= k < spans.len() implies 0 <= (#[trigger] spans[k]).0 <= spans[k].1
        <= text.len() && text.subrange(spans[k].0, spans[k].1) == pair_line(
        "row"@,
        comparison_row_text(v.entries[k - 7]),
    ) by {
        assert(is_pair_at(text, spans, line_keys, vals, keys, k));
        assert(vals[k] == comparison_row_text(v.entries[k - 7]));
        assert(keys[line_keys[k]] == "row"@);
    }
    lemma_comparison_rows_from_back(
        text,
        spans,
        v.entries,
        7,
        v.baseline_observation_count,
        v.candidate_observation_count,
    );
    assert(v.entries.skip(0) =~= v.entries);
}

/// The keys of a comparison header as literals.
fn comparison_key_literals() -> (r: [&'static str; 7])
    ensures
        key_seq(r@) == comparison_keys(),
{
    let keys = [
        "schema",
        "observer",
        "baseline_pair_count",
        "baseline_observation_count",
        "candidate_pair_count",
        "candidate_observation_count",
        "entries",
    ];
    assert(key_seq(keys@) =~= comparison_keys());
    keys
}

/// The error for a misplaced key in `s[a..j)`.
fn misplaced(s: &Vec<char>, a: usize, j: usize) -> (r: ScriptedAgentMatchedScenarioTallyComparisonCodecError)
    requires
        a <= j <= s@.len(),
    ensures
        r == misplaced_key(s@, a as int, j as int),
{
    let keys = comparison_key_literals();
    match find_key(s, a, j, &keys) {
        Some(_) => ScriptedAgentMatchedScenarioTallyComparisonCodecError::DuplicateField,
        None => ScriptedAgentMatchedScenarioTallyComparisonCodecError::UnknownField,
    }
}

/// The comparison row of one line.
#[verifier::spinoff_prover]
#[verifier::rlimit(40)]
fn parse_comparison_row(s: &Vec<char>, a: usize, b: usize, bo: u8, co: u8) -> (r: Result<
    ScriptedAgentMatchedScenarioTallyComparisonEntry,
    ScriptedAgentMatchedScenarioTallyComparisonCodecError,
>)
    requires
        a <= b <= s@.len(),
    ensures
        match r {
            Ok(e) => comparison_row_parse(s@, (a as int, b as int), bo, co) == Ok::<
                ComparisonEntryView,
                ScriptedAgentMatchedScenarioTallyComparisonCodecError,
            >(e@),
            Err(x) => comparison_row_parse(s@, (a as int, b as int), bo, co) == Err::<
                ComparisonEntryView,
                ScriptedAgentMatchedScenarioTallyComparisonCodecError,
            >(x),
        },
{
    let j = match find_char(s, '=', a, b) {
        Some(j) => j,
        None => {
            return Err(ScriptedAgentMatchedScenarioTallyComparisonCodecError::InvalidValue);
        },
    };
    proof {
        lemma_find_in(s@, '=', a as int, b as int);
    }
    if !range_eq_str(s, a, j, "row") {
        return Err(misplaced(s, a, j));
    }
    let fields = split_range(s, '|', j + 1, b);
    let ghost f = split_from(s@, '|', j + 1, b as int);
    if fields.len() != 12 {
        return Err(ScriptedAgentMatchedScenarioTallyComparisonCodecError::InvalidValue);
    }
    let ghost whole = comparison_row_parse(s@, (a as int, b as int), bo, co);
    assert(whole == comparison_fields_parse(s@, f, bo, co));
    let mut k: usize = 0;
    while k < 12
        invariant
            k <= 12,
            fields@.len() == 12,
            f == split_from(s@, '|', j + 1, b as int),
            whole == comparison_row_parse(s@, (a as int, b as int), bo, co),
            whole == comparison_fields_parse(s@, f, bo, co),
            forall|q: int|
                0 <= q < 12 ==> (#[trigger] fields@[q]).0 as int == f[q].0 && fields@[q].1 as int
                    == f[q].1,
            forall|q: int| 0 <= q < k ==> (#[trigger] f[q]).0 != f[q].1,
        decreases 12 - k,
    {
        if fields[k].0 == fields[k].1 {
            assert(f[k as int].0 == f[k as int].1);
            return Err(ScriptedAgentMatchedScenarioTallyComparisonCodecError::InvalidValue);
        }
        k = k + 1;
    }
    let profile = match ScriptedAgentProfile::parse_id_range(s, fields[0].0, fields[0].1) {
        Some(p) => p,
        None => {
            return Err(ScriptedAgentMatchedScenarioTallyComparisonCodecError::InvalidValue);
        },
    };
    if !range_eq_str(s, fields[1].0, fields[1].1, profile.evaluation_rule()) {
        return Err(ScriptedAgentMatchedScenarioTallyComparisonCodecError::InvalidValue);
    }
    let mut counts = [0u8; 10];
    let mut k: usize = 0;
    while k < 10
        invariant
            k <= 10,
            fields@.len() == 12,
            whole == comparison_row_parse(s@, (a as int, b as int), bo, co),
            whole == comparison_fields_parse(s@, f, bo, co),
            forall|q: int| 0 <= q < 12 ==> (#[trigger] f[q]).0 != f[q].1,
            profile_from_id(s@.subrange(f[0].0, f[0].1)) == Some(profile),
            evaluation_rule_of(profile) == s@.subrange(f[1].0, f[1].1),
            f == split_from(s@, '|', j + 1, b as int),
            forall|q: int|
                0 <= q < 12 ==> (#[trigger] fields@[q]).0 as int == f[q].0 && fields@[q].1 as int
                    == f[q].1,
            forall|q: int| 0 <= q < 12 ==> j + 1 <= (#[trigger] fields@[q]).0 <= fields@[q].1 <= b,
            b <= s@.len(),
            forall|q: int| 2 <= q < k + 2 ==> #[trigger] field_count(s@, f, q) is Some,
            forall|q: int| 0 <= q < k ==> counts@[q] as nat == field_count(s@, f, q + 2)->0,
        decreases 10 - k,
    {
        let (x, y) = fields[k + 2];
        match parse_number(s, x, y, 255) {
            Some(v) => {
                counts.set(k, v as u8);
            },
            None => {
                assert(field_count(s@, f, (k + 2) as int) is None);
                return Err(ScriptedAgentMatchedScenarioTallyComparisonCodecError::InvalidValue);
            },
        }
        k = k + 1;
    }
    let baseline = [counts[0], counts[1], counts[2], counts[3], counts[4]];
    let candidate = [counts[5], counts[6], counts[7], counts[8], counts[9]];
    let bt: u16 = baseline[0] as u16 + baseline[1] as u16 + baseline[2] as u16 + baseline[3] as u16
        + baseline[4] as u16;
    let ct: u16 = candidate[0] as u16 + candidate[1] as u16 + candidate[2] as u16
        + candidate[3] as u16 + candidate[4] as u16;
    assert(baseline@ =~= Seq::new(5, |q: int| field_count(s@, f, q + 2)->0 as u8));
    assert(candidate@ =~= Seq::new(5, |q: int| field_count(s@, f, q + 7)->0 as u8));
    if bt != bo as u16 || ct != co as u16 {
        return Err(ScriptedAgentMatchedScenarioTallyComparisonCodecError::InvalidValue);
    }
    Ok(ScriptedAgentMatchedScenarioTallyComparisonEntry { profile, baseline, candidate })
}

/// The number in the value of one header line.
fn read_header_number(s: &Vec<char>, lines: &Vec<(usize, usize)>, i: usize, max: u64) -> (r: Option<u64>)
    requires
        i < lines@.len(),
        forall|k: int| 0 <= k < lines@.len() ==> (#[trigger] lines@[k]).0 <= lines@[k].1 <= s@.len(),
        pair_split(s@, range_seq(lines@)[i as int]) is Some,
    ensures
        match r {
            Some(v) => header_number(s@, range_seq(lines@), i as int, max as nat) == Some(v as nat),
            None => header_number(s@, range_seq(lines@), i as int, max as nat) is None,
        },
{
    let (a, b) = lines[i];
    assert(range_seq(lines@)[i as int] == (a as int, b as int));
    let j = split_pair(s, a, b).unwrap();
    parse_number(s, j + 1, b, max)
}

/// The comparison rows of lines `7..`.
fn parse_comparison_rows(s: &Vec<char>, lines: &Vec<(usize, usize)>, n: usize, bo: u8, co: u8) -> (r: Result<
    Vec<ScriptedAgentMatchedScenarioTallyComparisonEntry>,
    ScriptedAgentMatchedScenarioTallyComparisonCodecError,
>)
    requires
        lines@.len() == 7 + n,
        forall|q: int| 0 <= q < lines@.len() ==> (#[trigger] lines@[q]).0 <= lines@[q].1 <= s@.len(),
    ensures
        match r {
            Ok(entries) => comparison_rows_from(s@, range_seq(lines@), 7, bo, co) == Ok::<
                Seq<ComparisonEntryView>,
                ScriptedAgentMatchedScenarioTallyComparisonCodecError,
            >(entries@.map_values(|e: ScriptedAgentMatchedScenarioTallyComparisonEntry| e@))
                && entries@.len() == n && forall|q: int|
                0 <= q < entries@.len() ==> (#[trigger] entries@[q])@.baseline.len() == 5
                    && entries@[q]@.candidate.len() == 5 && count_sum(entries@[q]@.baseline) == bo
                    && count_sum(entries@[q]@.candidate) == co,
            Err(e) => comparison_rows_from(s@, range_seq(lines@), 7, bo, co) == Err::<
                Seq<ComparisonEntryView>,
                ScriptedAgentMatchedScenarioTallyComparisonCodecError,
            >(e),
        },
{
    let ghost lv = range_seq(lines@);
    let mut entries: Vec<ScriptedAgentMatchedScenarioTallyComparisonEntry> = Vec::new();
    let mut i: usize = 7;
    while i < lines.len()
        invariant
            7 <= i <= lines@.len(),
            lines@.len() == 7 + n,
            lv == range_seq(lines@),
            forall|q: int| 0 <= q < lines@.len() ==> (#[trigger] lines@[q]).0 <= lines@[q].1 <= s@.len(),
            entries@.len() == i - 7,
            forall|q: int|
                0 <= q < entries@.len() ==> (#[trigger] entries@[q])@.baseline.len() == 5
                    && entries@[q]@.candidate.len() == 5 && count_sum(entries@[q]@.baseline) == bo
                    && count_sum(entries@[q]@.candidate) == co,
            match comparison_rows_from(s@, lv, i as int, bo, co) {
                Err(e) => comparison_rows_from(s@, lv, 7, bo, co) == Err::<
                    Seq<ComparisonEntryView>,
                    ScriptedAgentMatchedScenarioTallyComparisonCodecError,
                >(e),
                Ok(rest) => comparison_rows_from(s@, lv, 7, bo, co) == Ok::<
                    Seq<ComparisonEntryView>,
                    ScriptedAgentMatchedScenarioTallyComparisonCodecError,
                >(entries@.map_values(|e: ScriptedAgentMatchedScenarioTallyComparisonEntry| e@) + rest),
            },
        decreases lines@.len() - i,
    {
        let (a, b) = lines[i];
        assert(lv[i as int] == (a as int, b as int));
        match parse_comparison_row(s, a, b, bo, co) {
            Ok(e) => {
                let ghost before = entries@.map_values(
                    |e: ScriptedAgentMatchedScenarioTallyComparisonEntry| e@,
                );
                entries.push(e);
                proof {
                    assert(entries@.map_values(
                        |e: ScriptedAgentMatchedScenarioTallyComparisonEntry| e@,
                    ) =~= before.push(e@));
                    match comparison_rows_from(s@, lv, i + 1, bo, co) {
                        Err(x) => {},
                        Ok(rest) => {
                            assert(before + (seq![e@] + rest) =~= before.push(e@) + rest);
                        },
                    }
                }
            },
            Err(x) => {
                return Err(x);
            },
        }
        i = i + 1;
    }
    assert(entries@.map_values(|e: ScriptedAgentMatchedScenarioTallyComparisonEntry| e@)
        + Seq::<ComparisonEntryView>::empty() =~= entries@.map_values(
        |e: ScriptedAgentMatchedScenarioTallyComparisonEntry| e@,
    ));
    Ok(entries)
}

/// Whether two comparisons hold the same content.
fn same_comparison(
    x: &ScriptedAgentMatchedScenarioTallyComparisonReport,
    y: &ScriptedAgentMatchedScenarioTallyComparisonReport,
) -> (r: bool)
    ensures
        r == (x@ == y@),
{
    if x.observer.0 != y.observer.0 || x.baseline_pair_count != y.baseline_pair_count
        || x.baseline_observation_count != y.baseline_observation_count || x.candidate_pair_count
        != y.candidate_pair_count || x.candidate_observation_count != y.candidate_observation_count
        || x.entries.len() != y.entries.len() {
        proof {
            if x@ == y@ {
                assert(x@.entries.len() == y@.entries.len());
            }
        }
        return false;
    }
    let mut i: usize = 0;
    while i < x.entries.len()
        invariant
            i <= x.entries@.len(),
            x.entries@.len() == y.entries@.len(),
            forall|q: int| 0 <= q < i ==> (#[trigger] x.entries@[q])@ == y.entries@[q]@,
        decreases x.entries@.len() - i,
    {
        let a = x.entries[i];
        let b = y.entries[i];
        let mut same = a.profile.evaluation == b.profile.evaluation;
        let mut k: usize = 0;
        while k < 5
            invariant
                k <= 5,
                same == (a.profile == b.profile && forall|q: int|
                    0 <= q < k ==> a.baseline@[q] == b.baseline@[q] && a.candidate@[q]
                        == b.candidate@[q]),
            decreases 5 - k,
        {
            same = same && a.baseline[k] == b.baseline[k] && a.candidate[k] == b.candidate[k];
            k = k + 1;
        }
        if !same {
            proof {
                if x@ == y@ {
                    assert(x@.entries[i as int] == y@.entries[i as int]);
                    assert(a@ == b@);
                }
            }
            return false;
        }
        assert(a@.baseline =~= b@.baseline);
        assert(a@.candidate =~= b@.candidate);
        i = i + 1;
    }
    assert(x@.entries =~= y@.entries);
    true
}

impl ScriptedAgentMatchedScenarioTallyComparisonReport {
    /// Decode a comparison text without comparing it with a verified report.
    fn decode_text(input: &str) -> (r: Result<
        Self,
        ScriptedAgentMatchedScenarioTallyComparisonCodecError,
    >)
        ensures
            match r {
                Ok(c) => comparison_decode(input@, input.len() as nat) == Ok::<
                    ComparisonView,
                    ScriptedAgentMatchedScenarioTallyComparisonCodecError,
                >(c@),
                Err(e) => comparison_decode(input@, input.len() as nat) == Err::<
                    ComparisonView,
                    ScriptedAgentMatchedScenarioTallyComparisonCodecError,
                >(e),
            },
    {
        if input.len() > MAX_SCRIPTED_AGENT_MATCHED_SCENARIO_TALLY_COMPARISON_BYTES {
            return Err(ScriptedAgentMatchedScenarioTallyComparisonCodecError::Oversized);
        }
        let s = str_to_chars(input);
        let lines = lines(&s);
        let ghost lv = range_seq(lines@);
        assert(lv =~= line_ranges(s@));
        if lines.len() < 7 {
            return Err(ScriptedAgentMatchedScenarioTallyComparisonCodecError::MissingField);
        }
        let keys = comparison_key_literals();
        let mut i: usize = 0;
        while i < 7
            invariant
                i <= 7 <= lines@.len(),
                lv == range_seq(lines@),
                s@ == input@,
                lv == line_ranges(input@),
                input.len() <= MAX_SCRIPTED_AGENT_MATCHED_SCENARIO_TALLY_COMPARISON_BYTES,
                key_seq(keys@) == comparison_keys(),
                forall|k: int| 0 <= k < lines@.len() ==> (#[trigger] lines@[k]).0 <= lines@[k].1 <= s@.len(),
                header_scan(s@, lv, 0) == header_scan(s@, lv, i as int),
                forall|k: int| 0 <= k < i ==> #[trigger] pair_split(s@, lv[k]) is Some,
            decreases 7 - i,
        {
            let (a, b) = lines[i];
            assert(lv[i as int] == (a as int, b as int));
            let j = match split_pair(&s, a, b) {
                Some(j) => j,
                None => {
                    return Err(ScriptedAgentMatchedScenarioTallyComparisonCodecError::InvalidValue);
                },
            };
            if !range_eq_str(&s, a, j, keys[i]) {
                return Err(misplaced(&s, a, j));
            }
            i = i + 1;
        }
        let (a0, b0) = lines[0];
        assert(lv[0] == (a0 as int, b0 as int));
        let j0 = split_pair(&s, a0, b0).unwrap();
        if !range_eq_str(&s, j0 + 1, b0, SCRIPTED_AGENT_MATCHED_SCENARIO_TALLY_COMPARISON_SCHEMA) {
            return Err(ScriptedAgentMatchedScenarioTallyComparisonCodecError::UnsupportedSchema);
        }
        let mut nums = [0u64; 5];
        let mut k: usize = 1;
        while k < 6
            invariant
                1 <= k <= 6,
                7 <= lines@.len(),
                lv == range_seq(lines@),
                s@ == input@,
                lv == line_ranges(input@),
                input.len() <= MAX_SCRIPTED_AGENT_MATCHED_SCENARIO_TALLY_COMPARISON_BYTES,
                header_scan(s@, lv, 0) is None,
                s@.subrange(value_range(s@, lv[0]).0, value_range(s@, lv[0]).1)
                    == SCRIPTED_AGENT_MATCHED_SCENARIO_TALLY_COMPARISON_SCHEMA@,
                forall|q: int| 0 <= q < lines@.len() ==> (#[trigger] lines@[q]).0 <= lines@[q].1 <= s@.len(),
                forall|q: int| 0 <= q < 7 ==> #[trigger] pair_split(s@, lv[q]) is Some,
                forall|q: int| 1 <= q < k ==> #[trigger] header_number(s@, lv, q, 255) is Some,
                forall|q: int| 1 <= q < k ==> nums@[q - 1] as nat == header_number(s@, lv, q, 255)->0,
            decreases 6 - k,
        {
            match read_header_number(&s, &lines, k, 255) {
                Some(v) => {
                    nums.set(k - 1, v);
                },
                None => {
                    return Err(ScriptedAgentMatchedScenarioTallyComparisonCodecError::InvalidValue);
                },
            }
            k = k + 1;
        }
        let observer = nums[0] as u8;
        let bp = nums[1] as u8;
        let bo = nums[2] as u8;
        let cp = nums[3] as u8;
        let co = nums[4] as u8;
        if !(1 <= bp && bp as usize <= MAX_SCRIPTED_AGENT_MATCHED_SCENARIO_SAMPLES && bo as u16 == 2 * bp as u16)
            || !(1 <= cp && cp as usize <= MAX_SCRIPTED_AGENT_MATCHED_SCENARIO_SAMPLES && co as u16
            == 2 * cp as u16) {
            return Err(ScriptedAgentMatchedScenarioTallyComparisonCodecError::InvalidValue);
        }
        let n = match read_header_number(&s, &lines, 6, usize::MAX as u64) {
            Some(v) => v,
            None => {
                return Err(ScriptedAgentMatchedScenarioTallyComparisonCodecError::InvalidValue);
            },
        };
        if !(1 <= n && n <= MAX_SCRIPTED_AGENT_BATCH_MANIFESTS as u64) {
            return Err(ScriptedAgentMatchedScenarioTallyComparisonCodecError::InvalidValue);
        }
        let n = n as usize;
        let ghost h = comparison_header(s@, lv);
        assert(h is Some && h->0.entries == n && h->0.observer == observer && h->0.baseline_pair_count
            == bp && h->0.baseline_observation_count == bo && h->0.candidate_pair_count == cp
            && h->0.candidate_observation_count == co);
        if lines.len() != 7 + n {
            return Err(
                ScriptedAgentMatchedScenarioTallyComparisonCodecError::UnexpectedLineCount {
                    expected: 7 + n,
                    actual: lines.len(),
                },
            );
        }
        let entries = parse_comparison_rows(&s, &lines, n, bo, co)?;
        let r = ScriptedAgentMatchedScenarioTallyComparisonReport {
            observer: ActorId(observer),
            baseline_pair_count: bp,
            baseline_observation_count: bo,
            candidate_pair_count: cp,
            candidate_observation_count: co,
            entries,
        };
        Ok(r)
    }

    /// Decode and validate a comparison against an already verified report.
    pub fn decode(input: &str, expected: &Self) -> (r: Result<
        Self,
        ScriptedAgentMatchedScenarioTallyComparisonCodecError,
    >)
        ensures
            match comparison_decode(input@, input.len() as nat) {
                Err(e) => r == Err::<Self, ScriptedAgentMatchedScenarioTallyComparisonCodecError>(e),
                Ok(v) => if v == expected@ {
                    r is Ok && r->Ok_0@ == v
                } else {
                    r == Err::<Self, ScriptedAgentMatchedScenarioTallyComparisonCodecError>(
                        ScriptedAgentMatchedScenarioTallyComparisonCodecError::InputMismatch,
                    )
                },
            },
    {
        let decoded = Self::decode_text(input)?;
        if !same_comparison(&decoded, expected) {
            return Err(ScriptedAgentMatchedScenarioTallyComparisonCodecError::InputMismatch);
        }
        Ok(decoded)
    }
}


/// A comparison with two of its rows swapped.
pub open spec fn rows_swapped(v: ComparisonView, i: int, j: int) -> ComparisonView {
    ComparisonView { entries: v.entries.update(i, v.entries[j]).update(j, v.entries[i]), ..v }
}

/// Swapping two unequal rows of a consistent comparison's text gives the
/// text of another consistent comparison, which reads back as that other
/// comparison; `decode` against the original therefore refuses it as
/// `InputMismatch`.
pub proof fn lemma_swapped_rows_mismatch(v: ComparisonView, i: int, j: int)
    requires
        comparison_ok(v),
        0 <= i < v.entries.len(),
        0 <= j < v.entries.len(),
        v.entries[i] != v.entries[j],
    ensures
        comparison_ok(rows_swapped(v, i, j)),
        rows_swapped(v, i, j) != v,
        comparison_decode(
            comparison_text(rows_swapped(v, i, j)),
            encode_utf8(comparison_text(rows_swapped(v, i, j))).len(),
        ) == Ok::<ComparisonView, ScriptedAgentMatchedScenarioTallyComparisonCodecError>(
            rows_swapped(v, i, j),
        ),
{
    let w = rows_swapped(v, i, j);
    assert(w.entries[i] == v.entries[j]);
    assert(w.entries.len() == v.entries.len());
    assert forall|k: int| 0 <= k < w.entries.len() implies (#[trigger] w.entries[k]).baseline.len()
        == 5 && w.entries[k].candidate.len() == 5 && count_sum(w.entries[k].baseline)
        == w.baseline_observation_count && count_sum(w.entries[k].candidate)
        == w.candidate_observation_count by {
        if k == j {
            assert(w.entries[k] == v.entries[i]);
        } else if k == i {
            assert(w.entries[k] == v.entries[j]);
        } else {
            assert(w.entries[k] == v.entries[k]);
        }
    }
    assert(w.entries != v.entries);
    lemma_comparison_text_reads_back(w);
}

/// Whether a replay record is of the candidate's profile and selected its intent.
pub open spec fn record_matches(r: ScriptedAgentReplayRecord, c: CandidateView) -> bool {
    r.profile == c.profile && r.decision.selected_intent == c.intent
}

/// The first matching record from index `i` on whose decision replays.
pub open spec fn first_verified_match(
    records: Seq<ScriptedAgentReplayRecord>,
    c: CandidateView,
    i: int,
) -> Option<int>
    decreases records.len() - i,
{
    if i >= records.len() || i < 0 {
        None
    } else if record_matches(records[i], c) && replay_verified(records[i]) {
        Some(i)
    } else {
        first_verified_match(records, c, i + 1)
    }
}

/// The first matching record from index `i` on whose decision does not replay.
pub open spec fn first_mismatched_match(
    records: Seq<ScriptedAgentReplayRecord>,
    c: CandidateView,
    i: int,
) -> Option<int>
    decreases records.len() - i,
{
    if i >= records.len() || i < 0 {
        None
    } else if record_matches(records[i], c) && !replay_verified(records[i]) {
        Some(i)
    } else {
        first_mismatched_match(records, c, i + 1)
    }
}

/// Found matches lie within the scanned records.
pub proof fn lemma_first_match_bounds(records: Seq<ScriptedAgentReplayRecord>, c: CandidateView, i: int)
    ensures
        first_verified_match(records, c, i) matches Some(q) ==> i <= q < records.len()
            && record_matches(records[q], c) && replay_verified(records[q]),
        first_mismatched_match(records, c, i) matches Some(q) ==> i <= q < records.len()
            && record_matches(records[q], c) && !replay_verified(records[q]),
    decreases records.len() - i,
{
    if i < records.len() && i >= 0 {
        lemma_first_match_bounds(records, c, i + 1);
    }
}

/// Bounded failures from candidate-to-replay reference selection.
#[derive(Clone, Copy, Debug, PartialEq, Eq, Hash, Structural)]
pub enum ScriptedAgentTallyReplayReferenceError {
    NoMatchingReplay,
    DecisionMismatch,
}

/// Caller-declared reference to the first verified replay matching one tally candidate.
#[derive(Clone, Copy, Debug, PartialEq, Eq, Hash)]
pub struct ScriptedAgentTallyReplayReference {
    candidate: ScriptedAgentMatchedScenarioTallyOutlierCandidate,
    observation_id: ObservationId,
}

/// The content of a replay reference.
pub struct ReplayReferenceView {
    pub candidate: CandidateView,
    pub observation_id: ObservationId,
}

impl View for ScriptedAgentTallyReplayReference {
    type V = ReplayReferenceView;

    closed spec fn view(&self) -> ReplayReferenceView {
        ReplayReferenceView { candidate: self.candidate@, observation_id: self.observation_id }
    }
}

/// Scan records from `i` on: whether one matches, the first verified match,
/// and the first mismatched match.
fn scan_matches(
    candidate: ScriptedAgentMatchedScenarioTallyOutlierCandidate,
    records: &[ScriptedAgentReplayRecord],
) -> (r: (Option<usize>, Option<usize>))
    requires
        all_replayable(records@),
    ensures
        match r.0 {
            Some(q) => first_verified_match(records@, candidate@, 0) == Some(q as int),
            None => first_verified_match(records@, candidate@, 0) is None,
        },
        r.0 is None ==> match r.1 {
            Some(q) => first_mismatched_match(records@, candidate@, 0) == Some(q as int),
            None => first_mismatched_match(records@, candidate@, 0) is None,
        },
{
    let mut mismatch: Option<usize> = None;
    let mut i: usize = 0;
    while i < records.len()
        invariant
            i <= records@.len(),
            all_replayable(records@),
            first_verified_match(records@, candidate@, 0) == first_verified_match(
                records@,
                candidate@,
                i as int,
            ),
            match mismatch {
                Some(q) => first_mismatched_match(records@, candidate@, 0) == Some(q as int),
                None => first_mismatched_match(records@, candidate@, 0) == first_mismatched_match(
                    records@,
                    candidate@,
                    i as int,
                ),
            },
        decreases records@.len() - i,
    {
        let rec = &records[i];
        if rec.profile().evaluation == candidate.profile().evaluation && rec.selected_intent()
            == candidate.intent() {
            assert(replayable(records@[i as int]));
            match rec.replay() {
                Ok(_) => {
                    return (Some(i), None);
                },
                Err(ScriptedAgentReplayError::DecisionMismatch) => {
                    if mismatch.is_none() {
                        mismatch = Some(i);
                    }
                },
            }
        }
        i = i + 1;
    }
    (None, mismatch)
}

impl ScriptedAgentTallyReplayReference {
    /// Select the first caller-declared replay whose verified decision matches the candidate.
    pub fn from_candidate_and_records(
        candidate: ScriptedAgentMatchedScenarioTallyOutlierCandidate,
        records: &[ScriptedAgentReplayRecord],
    ) -> (r: Result<Self, ScriptedAgentTallyReplayReferenceError>)
        requires
            all_replayable(records@),
        ensures
            match first_verified_match(records@, candidate@, 0) {
                Some(q) => r is Ok && r->Ok_0@ == (ReplayReferenceView {
                    candidate: candidate@,
                    observation_id: records@[q].observation.observation_id,
                }),
                None => if first_mismatched_match(records@, candidate@, 0) is Some {
                    r == Err::<Self, ScriptedAgentTallyReplayReferenceError>(
                        ScriptedAgentTallyReplayReferenceError::DecisionMismatch,
                    )
                } else {
                    r == Err::<Self, ScriptedAgentTallyReplayReferenceError>(
                        ScriptedAgentTallyReplayReferenceError::NoMatchingReplay,
                    )
                },
            },
    {
        let (verified, mismatch) = scan_matches(candidate, records);
        match verified {
            Some(q) => {
                proof {
                    lemma_first_match_bounds(records@, candidate@, 0);
                }
                Ok(
                    ScriptedAgentTallyReplayReference {
                        candidate,
                        observation_id: records[q].observation_id(),
                    },
                )
            },
            None => if mismatch.is_some() {
                Err(ScriptedAgentTallyReplayReferenceError::DecisionMismatch)
            } else {
                Err(ScriptedAgentTallyReplayReferenceError::NoMatchingReplay)
            },
        }
    }

    pub fn schema(self) -> (r: &'static str)
        ensures
            r@ == SCRIPTED_AGENT_TALLY_REPLAY_REFERENCE_SCHEMA@,
    {
        SCRIPTED_AGENT_TALLY_REPLAY_REFERENCE_SCHEMA
    }

    pub fn selection_rule(self) -> (r: &'static str)
        ensures
            r@ == SCRIPTED_AGENT_TALLY_REPLAY_REFERENCE_RULE@,
    {
        SCRIPTED_AGENT_TALLY_REPLAY_REFERENCE_RULE
    }

    pub fn row_index(self) -> (r: u8)
        ensures
            r == self@.candidate.row_index,
    {
        self.candidate.row_index
    }

    pub fn profile_id(self) -> (r: &'static str)
        ensures
            r@ == profile_id_of(self@.candidate.profile),
    {
        self.candidate.profile_id()
    }

    pub fn evaluation_rule(self) -> (r: &'static str)
        ensures
            r@ == evaluation_rule_of(self@.candidate.profile),
    {
        self.candidate.evaluation_rule()
    }

    pub fn intent(self) -> (r: LaneIntent)
        ensures
            r == self@.candidate.intent,
    {
        self.candidate.intent
    }

    pub fn delta(self) -> (r: i16)
        ensures
            r == self@.candidate.delta,
    {
        self.candidate.delta
    }

    pub fn magnitude(self) -> (r: u16)
        ensures
            r == self@.candidate.magnitude,
    {
        self.candidate.magnitude
    }

    pub fn observation_id(self) -> (r: ObservationId)
        ensures
            r == self@.observation_id,
    {
        self.observation_id
    }
}

/// Closed result of calibrated outlier detection and representative replay tracing.
#[derive(Clone, Copy, Debug, PartialEq, Eq, Hash, Structural)]
pub enum ScriptedAgentCalibratedOutlierReplayStatus {
    Qualified,
    BelowThreshold,
    NoCandidate,
    NoMatchingReplay,
    DecisionMismatch,
}

/// The identity of a calibrated replay status.
pub open spec fn calibrated_status_id(s: ScriptedAgentCalibratedOutlierReplayStatus) -> Seq<char> {
    match s {
        ScriptedAgentCalibratedOutlierReplayStatus::Qualified => "qualified"@,
        ScriptedAgentCalibratedOutlierReplayStatus::BelowThreshold => "below_threshold"@,
        ScriptedAgentCalibratedOutlierReplayStatus::NoCandidate => "no_candidate"@,
        ScriptedAgentCalibratedOutlierReplayStatus::NoMatchingReplay => "no_matching_replay"@,
        ScriptedAgentCalibratedOutlierReplayStatus::DecisionMismatch => "decision_mismatch"@,
    }
}

impl ScriptedAgentCalibratedOutlierReplayStatus {
    pub fn id(self) -> (r: &'static str)
        ensures
            r@ == calibrated_status_id(self),
    {
        match self {
            Self::Qualified => "qualified",
            Self::BelowThreshold => "below_threshold",
            Self::NoCandidate => "no_candidate",
            Self::NoMatchingReplay => "no_matching_replay",
            Self::DecisionMismatch => "decision_mismatch",
        }
    }
}

/// Bounded evidence report tracing a calibrated outlier to a committed representative replay.
#[derive(Clone, Copy, Debug, PartialEq, Eq, Hash)]
pub struct ScriptedAgentCalibratedOutlierReplayReport {
    status: ScriptedAgentCalibratedOutlierReplayStatus,
    candidate: Option<ScriptedAgentMatchedScenarioTallyOutlierCandidate>,
    observation_id: Option<ObservationId>,
}

/// The content of a calibrated replay report.
pub struct CalibratedView {
    pub status: ScriptedAgentCalibratedOutlierReplayStatus,
    pub candidate: Option<CandidateView>,
    pub observation_id: Option<ObservationId>,
}

impl View for ScriptedAgentCalibratedOutlierReplayReport {
    type V = CalibratedView;

    closed spec fn view(&self) -> CalibratedView {
        CalibratedView {
            status: self.status,
            candidate: match self.candidate {
                Some(c) => Some(c@),
                None => None,
            },
            observation_id: self.observation_id,
        }
    }
}

/// The calibrated replay report of a comparison and caller-declared records.
pub open spec fn calibrated_of(
    v: ComparisonView,
    records: Seq<ScriptedAgentReplayRecord>,
) -> CalibratedView {
    match best_upto(v.entries, v.entries.len() as int) {
        None => CalibratedView {
            status: ScriptedAgentCalibratedOutlierReplayStatus::NoCandidate,
            candidate: None,
            observation_id: None,
        },
        Some(c) => if c.magnitude < SCRIPTED_AGENT_CALIBRATED_OUTLIER_THRESHOLD_MAGNITUDE {
            CalibratedView {
                status: ScriptedAgentCalibratedOutlierReplayStatus::BelowThreshold,
                candidate: Some(c),
                observation_id: None,
            }
        } else {
            match first_verified_match(records, c, 0) {
                Some(q) => CalibratedView {
                    status: ScriptedAgentCalibratedOutlierReplayStatus::Qualified,
                    candidate: Some(c),
                    observation_id: Some(records[q].observation.observation_id),
                },
                None => match first_mismatched_match(records, c, 0) {
                    Some(q) => CalibratedView {
                        status: ScriptedAgentCalibratedOutlierReplayStatus::DecisionMismatch,
                        candidate: Some(c),
                        observation_id: Some(records[q].observation.observation_id),
                    },
                    None => CalibratedView {
                        status: ScriptedAgentCalibratedOutlierReplayStatus::NoMatchingReplay,
                        candidate: Some(c),
                        observation_id: None,
                    },
                },
            }
        },
    }
}

impl ScriptedAgentCalibratedOutlierReplayReport {
    /// Trace a calibrated outlier candidate from comparison to a verified representative replay.
    pub fn from_comparison_and_records(
        comparison: &ScriptedAgentMatchedScenarioTallyComparisonReport,
        records: &[ScriptedAgentReplayRecord],
    ) -> (r: Self)
        requires
            all_replayable(records@),
        ensures
            r@ == calibrated_of(comparison@, records@),
    {
        let candidate = match comparison.largest_delta_candidate() {
            Some(c) => c,
            None => {
                return ScriptedAgentCalibratedOutlierReplayReport {
                    status: ScriptedAgentCalibratedOutlierReplayStatus::NoCandidate,
                    candidate: None,
                    observation_id: None,
                };
            },
        };
        if candidate.magnitude() < SCRIPTED_AGENT_CALIBRATED_OUTLIER_THRESHOLD_MAGNITUDE {
            return ScriptedAgentCalibratedOutlierReplayReport {
                status: ScriptedAgentCalibratedOutlierReplayStatus::BelowThreshold,
                candidate: Some(candidate),
                observation_id: None,
            };
        }
        let (verified, mismatch) = scan_matches(candidate, records);
        proof {
            lemma_first_match_bounds(records@, candidate@, 0);
        }
        match verified {
            Some(q) => ScriptedAgentCalibratedOutlierReplayReport {
                status: ScriptedAgentCalibratedOutlierReplayStatus::Qualified,
                candidate: Some(candidate),
                observation_id: Some(records[q].observation_id()),
            },
            None => match mismatch {
                Some(q) => ScriptedAgentCalibratedOutlierReplayReport {
                    status: ScriptedAgentCalibratedOutlierReplayStatus::DecisionMismatch,
                    candidate: Some(candidate),
                    observation_id: Some(records[q].observation_id()),
                },
                None => ScriptedAgentCalibratedOutlierReplayReport {
                    status: ScriptedAgentCalibratedOutlierReplayStatus::NoMatchingReplay,
                    candidate: Some(candidate),
                    observation_id: None,
                },
            },
        }
    }

    pub fn schema(self) -> (r: &'static str)
        ensures
            r@ == SCRIPTED_AGENT_CALIBRATED_OUTLIER_REPLAY_SCHEMA@,
    {
        SCRIPTED_AGENT_CALIBRATED_OUTLIER_REPLAY_SCHEMA
    }

    pub fn rule(self) -> (r: &'static str)
        ensures
            r@ == SCRIPTED_AGENT_CALIBRATED_OUTLIER_REPLAY_RULE@,
    {
        SCRIPTED_AGENT_CALIBRATED_OUTLIER_REPLAY_RULE
    }

    pub fn threshold(self) -> (r: u16)
        ensures
            r == SCRIPTED_AGENT_CALIBRATED_OUTLIER_THRESHOLD_MAGNITUDE,
    {
        SCRIPTED_AGENT_CALIBRATED_OUTLIER_THRESHOLD_MAGNITUDE
    }

    pub fn status(self) -> (r: ScriptedAgentCalibratedOutlierReplayStatus)
        ensures
            r == self@.status,
    {
        self.status
    }

    pub fn candidate(self) -> (r: Option<ScriptedAgentMatchedScenarioTallyOutlierCandidate>)
        ensures
            match r {
                Some(c) => self@.candidate == Some(c@),
                None => self@.candidate is None,
            },
    {
        self.candidate
    }

    pub fn observation_id(self) -> (r: Option<ObservationId>)
        ensures
            r == self@.observation_id,
    {
        self.observation_id
    }
}


/// Whether position `(j, k)` comes before `(row, kk)` in row-then-intent order.
pub open spec fn before(j: int, k: int, row: int, kk: int) -> bool {
    j < row || (j == row && k < kk)
}

/// Whether `b` is the first largest change among the positions before `(row, kk)`.
pub open spec fn is_first_largest(
    b: Option<CandidateView>,
    entries: Seq<ComparisonEntryView>,
    row: int,
    kk: int,
) -> bool {
    match b {
        None => forall|j: int, k: int|
            0 <= j < entries.len() && 0 <= k < 5 && before(j, k, row, kk) ==> #[trigger] delta_of(entries[j], k) == 0,
        Some(c) => {
            let cr = c.row_index as int;
            let ci = intent_index(c.intent) as int;
            &&& 0 <= cr < entries.len() && before(cr, ci, row, kk)
            &&& c.profile == entries[cr].profile
            &&& c.delta == delta_of(entries[cr], ci)
            &&& c.magnitude == magnitude_of(delta_of(entries[cr], ci))
            &&& c.magnitude > 0
            &&& forall|j: int, k: int|
                0 <= j < entries.len() && 0 <= k < 5 && before(j, k, row, kk) ==> magnitude_of(
                    #[trigger] delta_of(entries[j], k),
                ) <= c.magnitude
            &&& forall|j: int, k: int|
                0 <= j < entries.len() && 0 <= k < 5 && before(j, k, cr, ci) ==> magnitude_of(
                    #[trigger] delta_of(entries[j], k),
                ) < c.magnitude
        },
    }
}

/// Rows whose counts are bytes.
pub open spec fn byte_rows(entries: Seq<ComparisonEntryView>) -> bool {
    forall|j: int|
        0 <= j < entries.len() ==> (#[trigger] entries[j]).baseline.len() == 5
            && entries[j].candidate.len() == 5
}

proof fn lemma_consider_step(
    b: Option<CandidateView>,
    entries: Seq<ComparisonEntryView>,
    row: int,
    k: int,
)
    requires
        0 <= row < entries.len() <= 255,
        0 <= k < 5,
        byte_rows(entries),
        is_first_largest(b, entries, row, k),
    ensures
        is_first_largest(consider(b, row, entries[row], k), entries, row, k + 1),
{
    let e = entries[row];
    let d = delta_of(e, k);
    assert(-255 <= d <= 255);
    assert(intent_index(intent_at(k)) == k);
    let nb = consider(b, row, e, k);
    match nb {
        None => {
            assert forall|j: int, kk: int|
                0 <= j < entries.len() && 0 <= kk < 5 && before(j, kk, row, k + 1) implies #[trigger] delta_of(entries[j], kk) == 0 by {
                if !before(j, kk, row, k) {
                    assert(j == row && kk == k);
                }
            }
        },
        Some(c) => {
            if b is Some && nb == b {
                let c0 = b->0;
                assert forall|j: int, kk: int|
                    0 <= j < entries.len() && 0 <= kk < 5 && before(j, kk, row, k + 1) implies magnitude_of(
                    #[trigger] delta_of(entries[j], kk),
                ) <= c0.magnitude by {
                    if !before(j, kk, row, k) {
                        assert(j == row && kk == k);
                    }
                }
            } else {
                assert(c.row_index as int == row);
                assert forall|j: int, kk: int|
                    0 <= j < entries.len() && 0 <= kk < 5 && before(j, kk, row, k + 1) implies magnitude_of(
                    #[trigger] delta_of(entries[j], kk),
                ) <= c.magnitude by {
                    if !before(j, kk, row, k) {
                        assert(j == row && kk == k);
                    }
                }
            }
        },
    }
}

proof fn lemma_best_in_row(b: Option<CandidateView>, entries: Seq<ComparisonEntryView>, row: int, k: int)
    requires
        0 <= row < entries.len() <= 255,
        0 <= k <= 5,
        byte_rows(entries),
        is_first_largest(b, entries, row, 0),
    ensures
        is_first_largest(best_in_row(b, row, entries[row], k), entries, row, k),
    decreases k,
{
    if k > 0 {
        lemma_best_in_row(b, entries, row, k - 1);
        lemma_consider_step(best_in_row(b, row, entries[row], k - 1), entries, row, k - 1);
    }
}

/// The largest-delta candidate is the first largest absolute change: over
/// rows in order and intents in order, no change is larger, and every
/// earlier change is strictly smaller; no candidate means no change at all.
pub proof fn lemma_best_upto_is_first_largest(entries: Seq<ComparisonEntryView>, n: int)
    requires
        0 <= n <= entries.len() <= 255,
        byte_rows(entries),
    ensures
        is_first_largest(best_upto(entries, n), entries, n, 0),
    decreases n,
{
    if n > 0 {
        lemma_best_upto_is_first_largest(entries, n - 1);
        let b = best_upto(entries, n - 1);
        assert(is_first_largest(b, entries, n - 1, 0));
        lemma_best_in_row(b, entries, n - 1, 5);
        let nb = best_upto(entries, n);
        assert(nb == best_in_row(b, n - 1, entries[n - 1], 5));
        assert forall|j: int, k: int| 0 <= k < 5 implies before(j, k, n - 1, 5) == before(
            j,
            k,
            n,
            0,
        ) by {}
    }
}

/// A report compared with itself passes the no-change gate, and its
/// comparison has no largest-delta candidate.
pub proof fn lemma_self_comparison_unchanged(v: TallyReportView)
    requires
        tally_report_ok(v),
    ensures
        comparison_of(v, v) is Ok,
        no_change(comparison_of(v, v)->Ok_0),
        best_upto(
            comparison_of(v, v)->Ok_0.entries,
            comparison_of(v, v)->Ok_0.entries.len() as int,
        ) is None,
{
    let c = comparison_of(v, v)->Ok_0;
    assert(byte_rows(c.entries)) by {
        assert forall|j: int| 0 <= j < c.entries.len() implies (#[trigger] c.entries[j]).baseline.len()
            == 5 && c.entries[j].candidate.len() == 5 by {
            assert(tally_ok(v.entries[j]));
        }
    }
    lemma_best_upto_is_first_largest(c.entries, c.entries.len() as int);
    match best_upto(c.entries, c.entries.len() as int) {
        None => {},
        Some(cand) => {
            let cr = cand.row_index as int;
            let ci = intent_index(cand.intent) as int;
            assert(delta_of(c.entries[cr], ci) == 0);
        },
    }
}

/// Swapping baseline and candidate negates every delta.
pub proof fn lemma_swap_negates_deltas(b: TallyReportView, c: TallyReportView)
    requires
        comparison_of(b, c) is Ok,
    ensures
        comparison_of(c, b) is Ok,
        forall|j: int, k: int|
            0 <= j < comparison_of(b, c)->Ok_0.entries.len() && 0 <= k < 5 ==> #[trigger] delta_of(comparison_of(c, b)->Ok_0.entries[j], k) == -delta_of(comparison_of(b, c)->Ok_0.entries[j], k),
{
    if !(comparison_of(c, b) is Ok) {
        let j = choose|j: int|
            0 <= j < c.entries.len() && (#[trigger] c.entries[j]).profile != b.entries[j].profile;
        assert(b.entries[j].profile != c.entries[j].profile);
    }
}

/// Whether some intent count of some row changed by at least `m`, up or down.
pub open spec fn some_change_at_least(entries: Seq<ComparisonEntryView>, m: int) -> bool {
    exists|j: int, k: int|
        0 <= j < entries.len() && 0 <= k < 5 && #[trigger] magnitude_of(delta_of(entries[j], k)) >= m
}

/// The outlier threshold looks at the size of a change, not its direction:
/// a comparison is above the threshold exactly when some intent count rose or
/// fell by at least the threshold magnitude, and has no candidate exactly when
/// no count changed at all. Of the largest-delta candidate, the status is above
/// the threshold exactly when the absolute value of its delta reaches it.
pub proof fn lemma_threshold_status_by_change_size(entries: Seq<ComparisonEntryView>)
    requires
        entries.len() <= 255,
        byte_rows(entries),
    ensures
        (threshold_status_of(best_upto(entries, entries.len() as int))
            == ScriptedAgentTallyOutlierThresholdStatus::AboveThreshold) <==> some_change_at_least(
            entries,
            SCRIPTED_AGENT_TALLY_OUTLIER_THRESHOLD_MAGNITUDE as int,
        ),
        (threshold_status_of(best_upto(entries, entries.len() as int))
            == ScriptedAgentTallyOutlierThresholdStatus::NoCandidate) <==> !some_change_at_least(
            entries,
            1,
        ),
        best_upto(entries, entries.len() as int) matches Some(c) ==> ((threshold_status_of(
            best_upto(entries, entries.len() as int),
        ) == ScriptedAgentTallyOutlierThresholdStatus::AboveThreshold) <==> magnitude_of(
            c.delta as int,
        ) >= SCRIPTED_AGENT_TALLY_OUTLIER_THRESHOLD_MAGNITUDE),
{
    let n = entries.len() as int;
    let t = SCRIPTED_AGENT_TALLY_OUTLIER_THRESHOLD_MAGNITUDE as int;
    lemma_best_upto_is_first_largest(entries, n);
    match best_upto(entries, n) {
        None => {
            assert forall|j: int, k: int| 0 <= j < n && 0 <= k < 5 implies !(#[trigger] magnitude_of(
                delta_of(entries[j], k),
            ) >= 1) by {
                assert(before(j, k, n, 0));
            }
        },
        Some(c) => {
            let cr = c.row_index as int;
            let ci = intent_index(c.intent) as int;
            assert(magnitude_of(delta_of(entries[cr], ci)) == c.magnitude);
            assert(some_change_at_least(entries, 1));
            if c.magnitude < t {
                assert forall|j: int, k: int| 0 <= j < n && 0 <= k < 5 implies !(
                #[trigger] magnitude_of(delta_of(entries[j], k)) >= t) by {
                    assert(before(j, k, n, 0));
                }
            }
        },
    }
}

/// Swapping baseline and candidate keeps the threshold status of their
/// comparison.
pub proof fn lemma_threshold_status_ignores_direction(b: TallyReportView, c: TallyReportView)
    requires
        tally_report_ok(b),
        tally_report_ok(c),
        comparison_of(b, c) is Ok,
    ensures
        comparison_of(c, b) is Ok,
        threshold_status_of(
            best_upto(
                comparison_of(c, b)->Ok_0.entries,
                comparison_of(c, b)->Ok_0.entries.len() as int,
            ),
        ) == threshold_status_of(
            best_upto(
                comparison_of(b, c)->Ok_0.entries,
                comparison_of(b, c)->Ok_0.entries.len() as int,
            ),
        ),
{
    lemma_swap_negates_deltas(b, c);
    let fwd = comparison_of(b, c)->Ok_0.entries;
    let bwd = comparison_of(c, b)->Ok_0.entries;
    assert(byte_rows(fwd)) by {
        assert forall|j: int| 0 <= j < fwd.len() implies (#[trigger] fwd[j]).baseline.len() == 5
            && fwd[j].candidate.len() == 5 by {
            assert(tally_ok(b.entries[j]));
            assert(tally_ok(c.entries[j]));
        }
    }
    assert(byte_rows(bwd)) by {
        assert forall|j: int| 0 <= j < bwd.len() implies (#[trigger] bwd[j]).baseline.len() == 5
            && bwd[j].candidate.len() == 5 by {
            assert(tally_ok(b.entries[j]));
            assert(tally_ok(c.entries[j]));
        }
    }
    lemma_threshold_status_by_change_size(fwd);
    lemma_threshold_status_by_change_size(bwd);
    assert forall|m: int| some_change_at_least(fwd, m) == some_change_at_least(bwd, m) by {
        if some_change_at_least(fwd, m) {
            let (j, k) = choose|j: int, k: int|
                0 <= j < fwd.len() && 0 <= k < 5 && #[trigger] magnitude_of(delta_of(fwd[j], k)) >= m;
            assert(delta_of(bwd[j], k) == -delta_of(fwd[j], k));
            assert(magnitude_of(delta_of(bwd[j], k)) >= m);
        }
        if some_change_at_least(bwd, m) {
            let (j, k) = choose|j: int, k: int|
                0 <= j < bwd.len() && 0 <= k < 5 && #[trigger] magnitude_of(delta_of(bwd[j], k)) >= m;
            assert(delta_of(bwd[j], k) == -delta_of(fwd[j], k));
            assert(magnitude_of(delta_of(fwd[j], k)) >= m);
        }
    }
}

} // verus!
