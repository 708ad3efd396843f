//! Matched samples: the intents each manifest's profile selects on a pair of
//! observations of one actor, bounded sets of such pairs, and the
//! per-profile intent tallies over a set, with their line codec.

use vstd::prelude::*;
use vstd::utf8::{encode_utf8, is_ascii_chars};
use crate::batch::{
    batch_check, batch_decisions, decision_views, ScriptedAgentBatchError, ScriptedAgentBatchRunner,
    MAX_SCRIPTED_AGENT_BATCH_MANIFESTS,
};
use crate::codec::{
    field_scan, key_seq, range_seq, scan_fields, slots_view, single_value, FieldScan, ScanError,
    is_pair_at, lemma_pair_scan, lemma_pair_slots_headers_then_rows, lemma_pair_split_at, pair_line,
    pair_slots,
};
use crate::lane::{intent_at, ActorId, LaneIntent, LanerObservation, ObservationId};
use crate::operational::{slot_is, slot_text};
use crate::policy::{advertises_some, decision_for};
use crate::profile::{
    evaluation_rule_of, lemma_profile_id_round_trip, lemma_profile_texts_ascii, profile_from_id, profile_id_of,
    ScriptedAgentEvaluationRule, ScriptedAgentExperimentManifest,
    ScriptedAgentProfile, ScriptedAgentSeedBundle,
};
use crate::text::{
    decimal, field_spans, joined_fields, joined_lines, lemma_ascii_byte_len, lemma_ascii_concat,
    lemma_decimal_plain, lemma_decimal_u64, lemma_decimal_u8, lemma_joined_fields_ascii,
    lemma_joined_lines_ascii, lemma_joined_lines_concat,
    lemma_joined_fields_push, lemma_joined_lines_push, lemma_lines_of_joined, lemma_parse_decimal,
    lemma_split_joined,
    line_spans, plain_field, plain_line, line_ranges, lines, parse_bounded, parse_number, push_decimal, push_str,
    range_eq_str, split_from, split_range, str_to_chars,
};

verus! {

/// Versioned identity for the bounded matched-observation sample report.
pub const SCRIPTED_AGENT_MATCHED_SAMPLE_SCHEMA: &'static str = "m6-scripted-agent-matched-sample-v1";

/// Versioned identity for the bounded matched-scenario sample set.
pub const SCRIPTED_AGENT_MATCHED_SCENARIO_SAMPLE_SCHEMA: &'static str =
    "m6-scripted-agent-matched-scenarios-v1";

/// Versioned identity for bounded matched-scenario selected-intent tallies.
pub const SCRIPTED_AGENT_MATCHED_SCENARIO_TALLY_SCHEMA: &'static str =
    "m6-scripted-agent-matched-scenario-tally-v1";

/// Maximum encoded matched-scenario tally size before parsing or allocation.
pub const MAX_SCRIPTED_AGENT_MATCHED_SCENARIO_TALLY_BYTES: usize = 4096;

/// Maximum number of caller-supplied matched pairs in one sample set.
pub const MAX_SCRIPTED_AGENT_MATCHED_SCENARIO_SAMPLES: usize = 4;

/// Integer basis-point scale for bounded distribution projections.
pub const SCRIPTED_AGENT_SCENARIO_DISTRIBUTION_SCALE: u16 = 10_000;

/// Bounded failures from matched-observation sampling.
#[derive(Clone, Copy, Debug, PartialEq, Eq, Hash, Structural)]
pub enum ScriptedAgentMatchedSampleError {
    MismatchedObserver,
    DuplicateObservationId,
    Batch(ScriptedAgentBatchError),
}

/// One actor-safe profile row across two matched observations.
#[derive(Clone, Copy, Debug, PartialEq, Eq, Hash)]
pub struct ScriptedAgentMatchedSampleEntry {
    pub profile: ScriptedAgentProfile,
    pub seed_bundle: ScriptedAgentSeedBundle,
    pub selected_intents: [LaneIntent; 2],
}

impl ScriptedAgentMatchedSampleEntry {
    pub fn profile_id(self) -> (r: &'static str)
        ensures
            r@ == profile_id_of(self.profile),
    {
        self.profile.profile_id()
    }

    pub fn evaluation_rule(self) -> (r: &'static str)
        ensures
            r@ == evaluation_rule_of(self.profile),
    {
        self.profile.evaluation_rule()
    }

    pub fn seed_bundle(self) -> (r: ScriptedAgentSeedBundle)
        ensures
            r == self.seed_bundle,
    {
        self.seed_bundle
    }

    pub fn selected_intents(self) -> (r: [LaneIntent; 2])
        ensures
            r == self.selected_intents,
    {
        self.selected_intents
    }
}

/// The intent one manifest's profile and seed select on an observation.
pub open spec fn selected_by(m: ScriptedAgentExperimentManifest, o: LanerObservation) -> LaneIntent {
    decision_for(m.profile, o, Some(m.seed_bundle)).selected_intent
}

/// Whether an entry is the row one manifest produces on a pair of observations.
pub open spec fn entry_for(
    e: ScriptedAgentMatchedSampleEntry,
    m: ScriptedAgentExperimentManifest,
    o: [LanerObservation; 2],
) -> bool {
    entry_for_obs(e, m, o[0], o[1])
}

/// Whether an entry is the row one manifest produces on two observations.
pub open spec fn entry_for_obs(
    e: ScriptedAgentMatchedSampleEntry,
    m: ScriptedAgentExperimentManifest,
    o0: LanerObservation,
    o1: LanerObservation,
) -> bool {
    e.profile == m.profile && e.seed_bundle == m.seed_bundle && e.selected_intents@ == seq![
        selected_by(m, o0),
        selected_by(m, o1),
    ]
}

/// Bounded actor-safe selected-intent rows over one matched observation pair.
#[derive(Clone, Debug, PartialEq, Eq, Hash)]
pub struct ScriptedAgentMatchedSample {
    pub observer: ActorId,
    pub observation_ids: [ObservationId; 2],
    pub entries: Vec<ScriptedAgentMatchedSampleEntry>,
}

/// Whether a sample is the one a manifest list produces on a pair of observations.
pub open spec fn sample_for(
    s: ScriptedAgentMatchedSample,
    o: [LanerObservation; 2],
    ms: Seq<ScriptedAgentExperimentManifest>,
) -> bool {
    sample_for_obs(s, o[0], o[1], ms)
}

/// Whether a sample is the one a manifest list produces on two observations.
pub open spec fn sample_for_obs(
    s: ScriptedAgentMatchedSample,
    o0: LanerObservation,
    o1: LanerObservation,
    ms: Seq<ScriptedAgentExperimentManifest>,
) -> bool {
    &&& s.observer == o0.observer
    &&& s.observation_ids@ == seq![o0.observation_id, o1.observation_id]
    &&& s.entries@.len() == ms.len()
    &&& forall|i: int| 0 <= i < ms.len() ==> entry_for_obs(#[trigger] s.entries@[i], ms[i], o0, o1)
}

/// Whether building a sample from two observations and `n` manifests gets as
/// far as deciding: one observer, two identities, and a valid batch size.
pub open spec fn pair_decides(observations: [LanerObservation; 2], n: nat) -> bool {
    &&& observations[0].observer == observations[1].observer
    &&& observations[0].observation_id != observations[1].observation_id
    &&& batch_check(n) is Ok
}

impl ScriptedAgentMatchedSample {
    /// Build a stable sample from two same-actor observations and ordered manifests.
    pub fn from_observations(
        observations: [LanerObservation; 2],
        manifests: &[ScriptedAgentExperimentManifest],
    ) -> (r: Result<Self, ScriptedAgentMatchedSampleError>)
        requires
            pair_decides(observations, manifests@.len()) ==> advertises_some(observations[0])
                && advertises_some(observations[1]),
        ensures
            match r {
                Ok(s) => observations[0].observer == observations[1].observer
                    && observations[0].observation_id != observations[1].observation_id
                    && batch_check(manifests@.len()) is Ok && sample_for(
                    s,
                    observations,
                    manifests@,
                ),
                Err(ScriptedAgentMatchedSampleError::MismatchedObserver) => observations[0].observer
                    != observations[1].observer,
                Err(ScriptedAgentMatchedSampleError::DuplicateObservationId) => observations[0].observer
                    == observations[1].observer && observations[0].observation_id
                    == observations[1].observation_id,
                Err(ScriptedAgentMatchedSampleError::Batch(e)) => observations[0].observer
                    == observations[1].observer && observations[0].observation_id
                    != observations[1].observation_id && batch_check(manifests@.len()) == Err::<
                    (),
                    ScriptedAgentBatchError,
                >(e),
            },
    {
        if observations[0].observer != observations[1].observer {
            return Err(ScriptedAgentMatchedSampleError::MismatchedObserver);
        }
        if observations[0].observation_id == observations[1].observation_id {
            return Err(ScriptedAgentMatchedSampleError::DuplicateObservationId);
        }
        let first = match ScriptedAgentBatchRunner::run(observations[0], manifests) {
            Ok(d) => d,
            Err(e) => {
                return Err(ScriptedAgentMatchedSampleError::Batch(e));
            },
        };
        let second = match ScriptedAgentBatchRunner::run(observations[1], manifests) {
            Ok(d) => d,
            Err(e) => {
                return Err(ScriptedAgentMatchedSampleError::Batch(e));
            },
        };
        let ghost f = batch_decisions(observations[0], manifests@);
        let ghost g = batch_decisions(observations[1], manifests@);
        proof {
            assert(decision_views(first@).len() == first@.len());
            assert(decision_views(second@).len() == second@.len());
            assert forall|k: int| 0 <= k < first@.len() implies (#[trigger] first@[k])@ == f[k] by {
                assert(decision_views(first@)[k] == first@[k]@);
            }
            assert forall|k: int| 0 <= k < second@.len() implies (#[trigger] second@[k])@ == g[k] by {
                assert(decision_views(second@)[k] == second@[k]@);
            }
        }
        let mut entries: Vec<ScriptedAgentMatchedSampleEntry> = Vec::new();
        let mut i: usize = 0;
        while i < manifests.len()
            invariant
                i <= manifests@.len(),
                first@.len() == manifests@.len(),
                second@.len() == manifests@.len(),
                f == batch_decisions(observations[0], manifests@),
                g == batch_decisions(observations[1], manifests@),
                forall|k: int| 0 <= k < manifests@.len() ==> (#[trigger] first@[k])@ == f[k],
                forall|k: int| 0 <= k < manifests@.len() ==> (#[trigger] second@[k])@ == g[k],
                entries@.len() == i,
                forall|k: int| 0 <= k < i ==> entry_for(#[trigger] entries@[k], manifests@[k], observations),
            decreases manifests@.len() - i,
        {
            let m = manifests[i];
            let a = first[i].selected_intent;
            let b = second[i].selected_intent;
            let pair = [a, b];
            assert(pair@ =~= seq![a, b]);
            entries.push(
                ScriptedAgentMatchedSampleEntry {
                    profile: m.profile,
                    seed_bundle: m.seed_bundle,
                    selected_intents: pair,
                },
            );
            i = i + 1;
        }
        let ids = [observations[0].observation_id, observations[1].observation_id];
        assert(ids@ =~= seq![observations[0].observation_id, observations[1].observation_id]);
        Ok(ScriptedAgentMatchedSample { observer: observations[0].observer, observation_ids: ids, entries })
    }

    pub fn schema(&self) -> (r: &'static str)
        ensures
            r@ == SCRIPTED_AGENT_MATCHED_SAMPLE_SCHEMA@,
    {
        SCRIPTED_AGENT_MATCHED_SAMPLE_SCHEMA
    }

    pub fn observer(&self) -> (r: ActorId)
        ensures
            r == self.observer,
    {
        self.observer
    }

    pub fn observation_ids(&self) -> (r: &[ObservationId; 2])
        ensures
            *r == self.observation_ids,
    {
        &self.observation_ids
    }

    pub fn entries(&self) -> (r: &[ScriptedAgentMatchedSampleEntry])
        ensures
            r@ == self.entries@,
    {
        self.entries.as_slice()
    }
}

/// Bounded failures from matched-scenario sample-set composition.
#[derive(Clone, Copy, Debug, PartialEq, Eq, Hash, Structural)]
pub enum ScriptedAgentMatchedScenarioSampleError {
    EmptySample,
    SampleTooLarge { max: usize, actual: usize },
    MismatchedObserver,
    DuplicateObservationId,
    Matched(ScriptedAgentMatchedSampleError),
}

/// The observation identities of the first `n` pairs, in order.
pub open spec fn pair_ids(pairs: Seq<[LanerObservation; 2]>, n: int) -> Seq<ObservationId>
    decreases n,
{
    if n <= 0 {
        Seq::empty()
    } else {
        pair_ids(pairs, n - 1).push(pairs[n - 1][0].observation_id).push(
            pairs[n - 1][1].observation_id,
        )
    }
}

/// The first problem found scanning the first `n` pairs: a pair with
/// another observer, or an identity seen before.
pub open spec fn pair_scan(pairs: Seq<[LanerObservation; 2]>, observer: ActorId, n: int) -> Option<
    ScriptedAgentMatchedScenarioSampleError,
>
    decreases n,
{
    if n <= 0 {
        None
    } else {
        match pair_scan(pairs, observer, n - 1) {
            Some(e) => Some(e),
            None => {
                let p = pairs[n - 1];
                let seen = pair_ids(pairs, n - 1);
                if p[0].observer != p[1].observer || p[0].observer != observer {
                    Some(ScriptedAgentMatchedScenarioSampleError::MismatchedObserver)
                } else if seen.contains(p[0].observation_id) || seen.push(
                    p[0].observation_id,
                ).contains(p[1].observation_id) {
                    Some(ScriptedAgentMatchedScenarioSampleError::DuplicateObservationId)
                } else {
                    None
                }
            },
        }
    }
}

/// Once the scan of a prefix has found a problem, longer scans report it.
pub proof fn lemma_pair_scan_sticky(
    pairs: Seq<[LanerObservation; 2]>,
    observer: ActorId,
    n: int,
    m: int,
)
    requires
        0 <= n <= m,
        pair_scan(pairs, observer, n) is Some,
    ensures
        pair_scan(pairs, observer, m) == pair_scan(pairs, observer, n),
    decreases m - n,
{
    if n < m {
        lemma_pair_scan_sticky(pairs, observer, n, m - 1);
    }
}

/// A clean scan means every pair is of the observer and holds two identities.
pub proof fn lemma_pair_scan_clean(pairs: Seq<[LanerObservation; 2]>, observer: ActorId, n: int)
    requires
        0 <= n,
        pair_scan(pairs, observer, n) is None,
    ensures
        forall|p: int|
            0 <= p < n ==> (#[trigger] pairs[p])[0].observer == observer && pairs[p][1].observer
                == observer && pairs[p][0].observation_id != pairs[p][1].observation_id,
    decreases n,
{
    if n > 0 {
        lemma_pair_scan_clean(pairs, observer, n - 1);
        let seen = pair_ids(pairs, n - 1);
        assert(seen.push(pairs[n - 1][0].observation_id).contains(pairs[n - 1][0].observation_id)) by {
            assert(seen.push(pairs[n - 1][0].observation_id)[seen.len() as int]
                == pairs[n - 1][0].observation_id);
        }
    }
}

/// Ordered actor-safe matched samples over caller-supplied observation pairs.
#[derive(Debug, PartialEq, Eq, Hash)]
pub struct ScriptedAgentMatchedScenarioSample {
    observer: ActorId,
    samples: Vec<ScriptedAgentMatchedSample>,
}

/// Whether a sample set is well formed: one to four samples, each with the
/// same number of rows, one to sixteen, and the same profile in each row.
pub open spec fn sample_set_ok(samples: Seq<ScriptedAgentMatchedSample>) -> bool {
    let m = samples[0].entries@.len();
    &&& 1 <= samples.len() <= MAX_SCRIPTED_AGENT_MATCHED_SCENARIO_SAMPLES
    &&& 1 <= m <= MAX_SCRIPTED_AGENT_BATCH_MANIFESTS
    &&& forall|p: int| 0 <= p < samples.len() ==> (#[trigger] samples[p]).entries@.len() == m
    &&& forall|p: int, j: int|
        0 <= p < samples.len() && 0 <= j < m ==> (#[trigger] samples[p].entries@[j]).profile
            == samples[0].entries@[j].profile
}

/// Whether building a sample set from observation pairs and `n` manifests
/// gets as far as deciding: an allowed number of pairs, one observer and no
/// repeated identity across them, and a valid batch size.
pub open spec fn sample_set_decides(observations: Seq<[LanerObservation; 2]>, n: nat) -> bool {
    &&& 1 <= observations.len() <= MAX_SCRIPTED_AGENT_MATCHED_SCENARIO_SAMPLES
    &&& pair_scan(observations, observations[0][0].observer, observations.len() as int) is None
    &&& batch_check(n) is Ok
}

impl ScriptedAgentMatchedScenarioSample {
    #[verifier::type_invariant]
    spec fn wf(self) -> bool {
        sample_set_ok(self.samples@)
    }

    /// The samples of the set.
    pub closed spec fn samples_view(self) -> Seq<ScriptedAgentMatchedSample> {
        self.samples@
    }

    /// The observer of the set.
    pub closed spec fn observer_view(self) -> ActorId {
        self.observer
    }

    /// Build a bounded sample set without generating scenarios or populations.
    pub fn from_observations(
        observations: &[[LanerObservation; 2]],
        manifests: &[ScriptedAgentExperimentManifest],
    ) -> (r: Result<Self, ScriptedAgentMatchedScenarioSampleError>)
        requires
            sample_set_decides(observations@, manifests@.len()) ==> forall|p: int, k: int|
                0 <= p < observations@.len() && 0 <= k < 2 ==> advertises_some(
                    #[trigger] observations@[p][k],
                ),
        ensures
            match r {
                Ok(s) => {
                    &&& 1 <= observations@.len() <= MAX_SCRIPTED_AGENT_MATCHED_SCENARIO_SAMPLES
                    &&& pair_scan(
                        observations@,
                        observations@[0][0].observer,
                        observations@.len() as int,
                    ) is None
                    &&& batch_check(manifests@.len()) is Ok
                    &&& s.observer_view() == observations@[0][0].observer
                    &&& s.samples_view().len() == observations@.len()
                    &&& forall|p: int|
                        0 <= p < observations@.len() ==> sample_for(
                            #[trigger] s.samples_view()[p],
                            observations@[p],
                            manifests@,
                        )
                },
                Err(e) => if observations@.len() == 0 {
                    e == ScriptedAgentMatchedScenarioSampleError::EmptySample
                } else if observations@.len() > MAX_SCRIPTED_AGENT_MATCHED_SCENARIO_SAMPLES {
                    e == ScriptedAgentMatchedScenarioSampleError::SampleTooLarge {
                        max: MAX_SCRIPTED_AGENT_MATCHED_SCENARIO_SAMPLES,
                        actual: observations@.len() as usize,
                    }
                } else {
                    match pair_scan(
                        observations@,
                        observations@[0][0].observer,
                        observations@.len() as int,
                    ) {
                        Some(pe) => e == pe,
                        None => match batch_check(manifests@.len()) {
                            Err(be) => e == ScriptedAgentMatchedScenarioSampleError::Matched(
                                ScriptedAgentMatchedSampleError::Batch(be),
                            ),
                            Ok(_) => false,
                        },
                    }
                },
            },
    {
        if observations.len() == 0 {
            return Err(ScriptedAgentMatchedScenarioSampleError::EmptySample);
        }
        if observations.len() > MAX_SCRIPTED_AGENT_MATCHED_SCENARIO_SAMPLES {
            return Err(
                ScriptedAgentMatchedScenarioSampleError::SampleTooLarge {
                    max: MAX_SCRIPTED_AGENT_MATCHED_SCENARIO_SAMPLES,
                    actual: observations.len(),
                },
            );
        }
        let observer = observations[0][0].observer;
        let mut seen: Vec<ObservationId> = Vec::new();
        let mut p: usize = 0;
        while p < observations.len()
            invariant
                p <= observations@.len(),
                1 <= observations@.len() <= MAX_SCRIPTED_AGENT_MATCHED_SCENARIO_SAMPLES,
                observer == observations@[0][0].observer,
                seen@ == pair_ids(observations@, p as int),
                pair_scan(observations@, observer, p as int) is None,
            decreases observations@.len() - p,
        {
            let pair = observations[p];
            if pair[0].observer != pair[1].observer || pair[0].observer != observer {
                proof {
                    lemma_pair_scan_sticky(observations@, observer, p + 1, observations@.len() as int);
                }
                return Err(ScriptedAgentMatchedScenarioSampleError::MismatchedObserver);
            }
            if contains_id(&seen, pair[0].observation_id) {
                proof {
                    lemma_pair_scan_sticky(observations@, observer, p + 1, observations@.len() as int);
                }
                return Err(ScriptedAgentMatchedScenarioSampleError::DuplicateObservationId);
            }
            seen.push(pair[0].observation_id);
            if contains_id(&seen, pair[1].observation_id) {
                proof {
                    lemma_pair_scan_sticky(observations@, observer, p + 1, observations@.len() as int);
                }
                return Err(ScriptedAgentMatchedScenarioSampleError::DuplicateObservationId);
            }
            seen.push(pair[1].observation_id);
            p = p + 1;
        }
        proof {
            lemma_pair_scan_clean(observations@, observer, observations@.len() as int);
        }
        match crate::batch::validate_batch(manifests) {
            Ok(()) => {},
            Err(e) => {
                return Err(
                    ScriptedAgentMatchedScenarioSampleError::Matched(
                        ScriptedAgentMatchedSampleError::Batch(e),
                    ),
                );
            },
        }
        let mut samples: Vec<ScriptedAgentMatchedSample> = Vec::new();
        let mut q: usize = 0;
        while q < observations.len()
            invariant
                q <= observations@.len() <= MAX_SCRIPTED_AGENT_MATCHED_SCENARIO_SAMPLES,
                1 <= observations@.len(),
                batch_check(manifests@.len()) is Ok,
                forall|p: int|
                    0 <= p < observations@.len() ==> (#[trigger] observations@[p])[0].observer
                        == observer && observations@[p][1].observer == observer
                        && observations@[p][0].observation_id != observations@[p][1].observation_id,
                forall|p: int, k: int|
                    0 <= p < observations@.len() && 0 <= k < 2 ==> advertises_some(
                        #[trigger] observations@[p][k],
                    ),
                samples@.len() == q,
                forall|p: int|
                    0 <= p < q ==> sample_for(#[trigger] samples@[p], observations@[p], manifests@),
            decreases observations@.len() - q,
        {
            let pair = observations[q];
            assert(advertises_some(observations@[q as int][0]));
            assert(advertises_some(observations@[q as int][1]));
            let sample = match ScriptedAgentMatchedSample::from_observations(pair, manifests) {
                Ok(s) => s,
                Err(e) => {
                    return Err(ScriptedAgentMatchedScenarioSampleError::Matched(e));
                },
            };
            samples.push(sample);
            q = q + 1;
        }
        let ghost m = manifests@.len();
        proof {
            assert forall|p: int, j: int|
                0 <= p < samples@.len() && 0 <= j < m implies (
                #[trigger] samples@[p].entries@[j]).profile == samples@[0].entries@[j].profile by {
                assert(sample_for(samples@[p], observations@[p], manifests@));
                assert(sample_for(samples@[0], observations@[0], manifests@));
                assert(entry_for(samples@[p].entries@[j], manifests@[j], observations@[p]));
                assert(entry_for(samples@[0].entries@[j], manifests@[j], observations@[0]));
            }
        }
        Ok(ScriptedAgentMatchedScenarioSample { observer, samples })
    }

    pub fn schema(&self) -> (r: &'static str)
        ensures
            r@ == SCRIPTED_AGENT_MATCHED_SCENARIO_SAMPLE_SCHEMA@,
    {
        SCRIPTED_AGENT_MATCHED_SCENARIO_SAMPLE_SCHEMA
    }

    pub fn observer(&self) -> (r: ActorId)
        ensures
            r == self.observer_view(),
    {
        self.observer
    }

    pub fn samples(&self) -> (r: &[ScriptedAgentMatchedSample])
        ensures
            r@ == self.samples_view(),
    {
        self.samples.as_slice()
    }
}

/// Whether an identity occurs in a list.
fn contains_id(v: &Vec<ObservationId>, id: ObservationId) -> (r: bool)
    ensures
        r == v@.contains(id),
{
    let mut i: usize = 0;
    while i < v.len()
        invariant
            i <= v@.len(),
            forall|k: int| 0 <= k < i ==> v@[k] != id,
        decreases v@.len() - i,
    {
        if v[i] == id {
            return true;
        }
        i = i + 1;
    }
    false
}

/// How many times an intent occurs in a list.
pub open spec fn count_intent(s: Seq<LaneIntent>, intent: LaneIntent) -> nat
    decreases s.len(),
{
    if s.len() == 0 {
        0
    } else {
        count_intent(s.drop_last(), intent) + (if s.last() == intent {
            1nat
        } else {
            0nat
        })
    }
}

/// The intents that row `j` selected over the first `n` samples, in order.
pub open spec fn row_intents(samples: Seq<ScriptedAgentMatchedSample>, j: int, n: int) -> Seq<
    LaneIntent,
>
    decreases n,
{
    if n <= 0 {
        Seq::empty()
    } else {
        row_intents(samples, j, n - 1) + samples[n - 1].entries@[j].selected_intents@
    }
}

/// One actor-safe selected-intent tally for a sampled profile.
#[derive(Clone, Copy, Debug, PartialEq, Eq, Hash)]
pub struct ScriptedAgentMatchedScenarioTally {
    profile: ScriptedAgentProfile,
    pair_count: u8,
    observation_count: u8,
    counts: [u8; 5],
}

/// The mathematical content of a tally; counts are in
/// `[Stabilize, Contest, Yield, Recall, Withdraw]` order.
pub struct TallyView {
    pub profile: ScriptedAgentProfile,
    pub pair_count: u8,
    pub observation_count: u8,
    pub counts: Seq<u8>,
}

impl View for ScriptedAgentMatchedScenarioTally {
    type V = TallyView;

    closed spec fn view(&self) -> TallyView {
        TallyView {
            profile: self.profile,
            pair_count: self.pair_count,
            observation_count: self.observation_count,
            counts: self.counts@,
        }
    }
}

/// Whether a tally's counts are consistent: one to four pairs, two
/// observations per pair, and the counts adding up to the observations.
pub open spec fn tally_ok(t: TallyView) -> bool {
    &&& 1 <= t.pair_count <= MAX_SCRIPTED_AGENT_MATCHED_SCENARIO_SAMPLES
    &&& t.observation_count == 2 * t.pair_count
    &&& t.counts.len() == 5
    &&& t.counts[0] + t.counts[1] + t.counts[2] + t.counts[3] + t.counts[4] == t.observation_count
}

/// The basis-point share of a count out of a total.
pub open spec fn share_bp(count: u8, total: u8) -> int {
    (count as int * 10000) / (total as int)
}

/// The five basis-point shares of a tally: floor shares for the first four
/// intents, and the remainder to 10,000 for Withdraw.
pub open spec fn distribution_of(t: TallyView) -> Seq<u16> {
    let s0 = share_bp(t.counts[0], t.observation_count);
    let s1 = share_bp(t.counts[1], t.observation_count);
    let s2 = share_bp(t.counts[2], t.observation_count);
    let s3 = share_bp(t.counts[3], t.observation_count);
    seq![s0 as u16, s1 as u16, s2 as u16, s3 as u16, (10000 - s0 - s1 - s2 - s3) as u16]
}

impl ScriptedAgentMatchedScenarioTally {
    #[verifier::type_invariant]
    spec fn wf(self) -> bool {
        tally_ok(self@)
    }

    pub fn profile_id(self) -> (r: &'static str)
        ensures
            r@ == profile_id_of(self@.profile),
    {
        self.profile.profile_id()
    }

    pub fn evaluation_rule(self) -> (r: &'static str)
        ensures
            r@ == evaluation_rule_of(self@.profile),
    {
        self.profile.evaluation_rule()
    }

    pub fn profile(self) -> (r: ScriptedAgentProfile)
        ensures
            r == self@.profile,
    {
        self.profile
    }

    pub fn pair_count(self) -> (r: u8)
        ensures
            r == self@.pair_count,
    {
        self.pair_count
    }

    pub fn observation_count(self) -> (r: u8)
        ensures
            r == self@.observation_count,
    {
        self.observation_count
    }

    /// Counts in `[Stabilize, Contest, Yield, Recall, Withdraw]` order.
    pub fn counts(self) -> (r: [u8; 5])
        ensures
            r@ == self@.counts,
            tally_ok(self@),
    {
        proof {
            use_type_invariant(&self);
        }
        self.counts
    }

    pub fn stabilize_count(self) -> (r: u8)
        ensures
            r == self@.counts[0],
    {
        proof {
            use_type_invariant(&self);
        }
        self.counts[0]
    }

    pub fn contest_count(self) -> (r: u8)
        ensures
            r == self@.counts[1],
    {
        proof {
            use_type_invariant(&self);
        }
        self.counts[1]
    }

    pub fn yield_count(self) -> (r: u8)
        ensures
            r == self@.counts[2],
    {
        proof {
            use_type_invariant(&self);
        }
        self.counts[2]
    }

    pub fn recall_count(self) -> (r: u8)
        ensures
            r == self@.counts[3],
    {
        proof {
            use_type_invariant(&self);
        }
        self.counts[3]
    }

    pub fn withdraw_count(self) -> (r: u8)
        ensures
            r == self@.counts[4],
    {
        proof {
            use_type_invariant(&self);
        }
        self.counts[4]
    }

    /// Return `[Stabilize, Contest, Yield, Recall, Withdraw]` shares at the
    /// shared 10,000-point scale; the five shares always sum to 10,000.
    pub fn intent_distribution_basis_points(self) -> (r: [u16; 5])
        ensures
            r@ == distribution_of(self@),
            r@[0] + r@[1] + r@[2] + r@[3] + r@[4] == 10000,
    {
        proof {
            use_type_invariant(&self);
        }
        let d = self.observation_count as u32;
        let c0 = self.counts[0] as u32;
        let c1 = self.counts[1] as u32;
        let c2 = self.counts[2] as u32;
        let c3 = self.counts[3] as u32;
        proof {
            lemma_shares_bounded(c0 as int, c1 as int, c2 as int, c3 as int, d as int);
        }
        let s0 = (c0 * 10000 / d) as u16;
        let s1 = (c1 * 10000 / d) as u16;
        let s2 = (c2 * 10000 / d) as u16;
        let s3 = (c3 * 10000 / d) as u16;
        let assigned = s0 + s1 + s2 + s3;
        let shares = [s0, s1, s2, s3, 10000 - assigned];
        assert(shares@ =~= distribution_of(self@));
        shares
    }
}

/// Floor shares of counts within a total add up to at most the scale.
pub proof fn lemma_shares_bounded(c0: int, c1: int, c2: int, c3: int, d: int)
    requires
        0 <= c0,
        0 <= c1,
        0 <= c2,
        0 <= c3,
        0 < d,
        c0 + c1 + c2 + c3 <= d,
    ensures
        (c0 * 10000) / d + (c1 * 10000) / d + (c2 * 10000) / d + (c3 * 10000) / d <= 10000,
        0 <= (c0 * 10000) / d <= 10000,
        0 <= (c1 * 10000) / d <= 10000,
        0 <= (c2 * 10000) / d <= 10000,
        0 <= (c3 * 10000) / d <= 10000,
{
    assert((c0 * 10000) / d + (c1 * 10000) / d <= ((c0 + c1) * 10000) / d) by (nonlinear_arith)
        requires
            0 <= c0,
            0 <= c1,
            0 < d,
    ;
    assert(((c0 + c1) * 10000) / d + (c2 * 10000) / d <= ((c0 + c1 + c2) * 10000) / d)
        by (nonlinear_arith)
        requires
            0 <= c0 + c1,
            0 <= c2,
            0 < d,
    ;
    assert(((c0 + c1 + c2) * 10000) / d + (c3 * 10000) / d <= ((c0 + c1 + c2 + c3) * 10000) / d)
        by (nonlinear_arith)
        requires
            0 <= c0 + c1 + c2,
            0 <= c3,
            0 < d,
    ;
    assert(((c0 + c1 + c2 + c3) * 10000) / d <= 10000) by (nonlinear_arith)
        requires
            0 <= c0 + c1 + c2 + c3 <= d,
            0 < d,
    ;
    assert(0 <= (c0 * 10000) / d) by (nonlinear_arith)
        requires
            0 <= c0,
            0 < d,
    ;
    assert(0 <= (c1 * 10000) / d) by (nonlinear_arith)
        requires
            0 <= c1,
            0 < d,
    ;
    assert(0 <= (c2 * 10000) / d) by (nonlinear_arith)
        requires
            0 <= c2,
            0 < d,
    ;
    assert(0 <= (c3 * 10000) / d) by (nonlinear_arith)
        requires
            0 <= c3,
            0 < d,
    ;
}


/// One more element adds one to the count of its intent.
pub proof fn lemma_count_intent_push(s: Seq<LaneIntent>, x: LaneIntent, t: LaneIntent)
    ensures
        count_intent(s.push(x), t) == count_intent(s, t) + (if x == t {
            1int
        } else {
            0int
        }),
{
    assert(s.push(x).drop_last() =~= s);
}

/// A count never exceeds the length of the list.
pub proof fn lemma_count_intent_bounded(s: Seq<LaneIntent>, t: LaneIntent)
    ensures
        count_intent(s, t) <= s.len(),
    decreases s.len(),
{
    if s.len() > 0 {
        lemma_count_intent_bounded(s.drop_last(), t);
    }
}

/// The five intent counts of a list add up to its length.
pub proof fn lemma_count_intent_total(s: Seq<LaneIntent>)
    ensures
        count_intent(s, intent_at(0)) + count_intent(s, intent_at(1)) + count_intent(s, intent_at(2))
            + count_intent(s, intent_at(3)) + count_intent(s, intent_at(4)) == s.len(),
    decreases s.len(),
{
    if s.len() > 0 {
        lemma_count_intent_total(s.drop_last());
    }
}

/// The tally of row `j` of a sample set.
pub open spec fn tally_row_of(samples: Seq<ScriptedAgentMatchedSample>, j: int) -> TallyView {
    let n = samples.len();
    let intents = row_intents(samples, j, n as int);
    TallyView {
        profile: samples[0].entries@[j].profile,
        pair_count: n as u8,
        observation_count: (2 * n) as u8,
        counts: Seq::new(5, |k: int| count_intent(intents, intent_at(k)) as u8),
    }
}

impl ScriptedAgentMatchedScenarioTally {
    /// The `row=` line of this tally.
    #[verifier::rlimit(40)]
    fn row_line(self) -> (r: String)
        ensures
            r@ == "row="@ + tally_row_text(self@) + "\n"@,
    {
        let counts = self.counts();
        let mut out = String::new();
        push_str(&mut out, "row=");
        push_str(&mut out, self.profile_id());
        push_str(&mut out, "|");
        push_str(&mut out, self.evaluation_rule());
        push_str(&mut out, "|");
        push_decimal(&mut out, counts[0] as u64);
        push_str(&mut out, "|");
        push_decimal(&mut out, counts[1] as u64);
        push_str(&mut out, "|");
        push_decimal(&mut out, counts[2] as u64);
        push_str(&mut out, "|");
        push_decimal(&mut out, counts[3] as u64);
        push_str(&mut out, "|");
        push_decimal(&mut out, counts[4] as u64);
        push_str(&mut out, "\n");
        assert(out@ =~= "row="@ + tally_row_text(self@) + "\n"@);
        out
    }

    /// The intent distribution table row of this tally.
    #[verifier::rlimit(40)]
    fn distribution_line(self) -> (r: String)
        ensures
            r@ == distribution_row(self@),
    {
        let shares = self.intent_distribution_basis_points();
        let mut out = String::new();
        push_str(&mut out, "| ");
        push_str(&mut out, self.profile_id());
        push_str(&mut out, " | ");
        push_str(&mut out, self.evaluation_rule());
        push_str(&mut out, " | ");
        push_decimal(&mut out, self.observation_count() as u64);
        push_str(&mut out, " | ");
        push_decimal(&mut out, shares[0] as u64);
        push_str(&mut out, " | ");
        push_decimal(&mut out, shares[1] as u64);
        push_str(&mut out, " | ");
        push_decimal(&mut out, shares[2] as u64);
        push_str(&mut out, " | ");
        push_decimal(&mut out, shares[3] as u64);
        push_str(&mut out, " | ");
        push_decimal(&mut out, shares[4] as u64);
        push_str(&mut out, " |\n");
        assert(out@ =~= distribution_row(self@));
        out
    }
}

/// Bounded actor-safe selected-intent counts over one verified sample set.
#[derive(Debug, PartialEq, Eq, Hash)]
pub struct ScriptedAgentMatchedScenarioTallyReport {
    observer: ActorId,
    pair_count: u8,
    observation_count: u8,
    entries: Vec<ScriptedAgentMatchedScenarioTally>,
}

/// The content of a tally report.
pub struct TallyReportView {
    pub observer: ActorId,
    pub pair_count: u8,
    pub observation_count: u8,
    pub entries: Seq<TallyView>,
}

impl View for ScriptedAgentMatchedScenarioTallyReport {
    type V = TallyReportView;

    closed spec fn view(&self) -> TallyReportView {
        TallyReportView {
            observer: self.observer,
            pair_count: self.pair_count,
            observation_count: self.observation_count,
            entries: self.entries@.map_values(|t: ScriptedAgentMatchedScenarioTally| t@),
        }
    }
}

/// Whether a tally report is consistent: one to sixteen rows, each a
/// consistent tally over the report's pair and observation counts.
pub open spec fn tally_report_ok(v: TallyReportView) -> bool {
    &&& 1 <= v.entries.len() <= MAX_SCRIPTED_AGENT_BATCH_MANIFESTS
    &&& 1 <= v.pair_count <= MAX_SCRIPTED_AGENT_MATCHED_SCENARIO_SAMPLES
    &&& v.observation_count == 2 * v.pair_count
    &&& forall|j: int|
        0 <= j < v.entries.len() ==> tally_ok(#[trigger] v.entries[j]) && v.entries[j].pair_count
            == v.pair_count && v.entries[j].observation_count == v.observation_count
}

/// The `|`-separated fields of a tally row.
pub open spec fn tally_row_fields(t: TallyView) -> Seq<Seq<char>> {
    seq![
        profile_id_of(t.profile),
        evaluation_rule_of(t.profile),
        decimal(t.counts[0] as nat),
        decimal(t.counts[1] as nat),
        decimal(t.counts[2] as nat),
        decimal(t.counts[3] as nat),
        decimal(t.counts[4] as nat),
    ]
}

/// The `row=` lines of tallies.
pub open spec fn tally_row_lines(entries: Seq<TallyView>) -> Seq<Seq<char>> {
    entries.map_values(|t: TallyView| pair_line("row"@, tally_row_text(t)))
}

/// The header lines of a tally report.
pub open spec fn tally_header_lines(v: TallyReportView) -> Seq<Seq<char>> {
    seq![
        pair_line("schema"@, SCRIPTED_AGENT_MATCHED_SCENARIO_TALLY_SCHEMA@),
        pair_line("observer"@, decimal(v.observer.0 as nat)),
        pair_line("pair_count"@, decimal(v.pair_count as nat)),
        pair_line("observation_count"@, decimal(v.observation_count as nat)),
        pair_line("entries"@, decimal(v.entries.len())),
    ]
}

/// The lines of a tally report: five headers, then one row per tally.
pub open spec fn tally_lines(v: TallyReportView) -> Seq<Seq<char>> {
    tally_header_lines(v) + tally_row_lines(v.entries)
}

/// The value of each line of a tally report.
spec fn tally_vals(v: TallyReportView) -> Seq<Seq<char>> {
    seq![
        SCRIPTED_AGENT_MATCHED_SCENARIO_TALLY_SCHEMA@,
        decimal(v.observer.0 as nat),
        decimal(v.pair_count as nat),
        decimal(v.observation_count as nat),
        decimal(v.entries.len()),
    ] + v.entries.map_values(|t: TallyView| tally_row_text(t))
}

/// The key of each line of a tally report.
spec fn tally_line_keys(n: nat) -> Seq<int> {
    Seq::new(
        n + 5,
        |i: int|
            if i < 5 {
                i
            } else {
                5
            },
    )
}

/// A row's text is its fields joined by `|`.
proof fn lemma_tally_row_text_fields(t: TallyView)
    ensures
        tally_row_text(t) == joined_fields(tally_row_fields(t)),
{
    reveal_strlit("|");
    let fs = tally_row_fields(t);
    let f1 = seq![fs[0]];
    assert(joined_fields(f1) == fs[0]);
    lemma_joined_fields_push(f1, fs[1]);
    let f2 = f1.push(fs[1]);
    lemma_joined_fields_push(f2, fs[2]);
    let f3 = f2.push(fs[2]);
    lemma_joined_fields_push(f3, fs[3]);
    let f4 = f3.push(fs[3]);
    lemma_joined_fields_push(f4, fs[4]);
    let f5 = f4.push(fs[4]);
    lemma_joined_fields_push(f5, fs[5]);
    let f6 = f5.push(fs[5]);
    lemma_joined_fields_push(f6, fs[6]);
    let f7 = f6.push(fs[6]);
    assert(f7 =~= fs);
    assert("|"@ =~= seq!['|']);
}

/// The fields of a row hold no `|`, and no line break.
proof fn lemma_tally_row_fields_plain(t: TallyView)
    requires
        t.counts.len() == 5,
    ensures
        forall|i: int| 0 <= i < 7 ==> plain_field(#[trigger] tally_row_fields(t)[i]),
        plain_line(tally_row_text(t)),
        tally_row_text(t).len() > 0,
{
    reveal_strlit("cautious-laner-v1");
    reveal_strlit("risk-taking-laner-v1");
    reveal_strlit("yielding-laner-v1");
    reveal_strlit("threat-first-pressure-aware-fixed-score-v1");
    reveal_strlit("contest-first-fixed-score-v1");
    reveal_strlit("yield-first-fixed-score-v1");
    reveal_strlit("|");
    let fs = tally_row_fields(t);
    lemma_decimal_plain(t.counts[0] as nat);
    lemma_decimal_plain(t.counts[1] as nat);
    lemma_decimal_plain(t.counts[2] as nat);
    lemma_decimal_plain(t.counts[3] as nat);
    lemma_decimal_plain(t.counts[4] as nat);
    assert(plain_line(fs[0]) && plain_line(fs[1]) && plain_field(fs[0]) && plain_field(fs[1])) by {
        match t.profile.evaluation {
            ScriptedAgentEvaluationRule::Threat => {},
            ScriptedAgentEvaluationRule::Contest => {},
            ScriptedAgentEvaluationRule::Yield => {},
        }
    }
    let text = tally_row_text(t);
    assert forall|k: int| 0 <= k < text.len() implies #[trigger] text[k] != '\n' && text[k] != '\r' by {
        let a = profile_id_of(t.profile) + "|"@;
        let b = a + evaluation_rule_of(t.profile) + "|"@;
        let c = b + decimal(t.counts[0] as nat) + "|"@;
        let d = c + decimal(t.counts[1] as nat) + "|"@;
        let e = d + decimal(t.counts[2] as nat) + "|"@;
        let f = e + decimal(t.counts[3] as nat) + "|"@;
        assert(text == f + decimal(t.counts[4] as nat));
        assert(plain_line(a));
        assert(plain_line(b));
        assert(plain_line(c));
        assert(plain_line(d));
        assert(plain_line(e));
        assert(plain_line(f));
        assert(plain_line(text));
    }
}

/// The row lines of the first `n` tallies are their `row=` lines, each ended by a line break.
proof fn lemma_tally_rows_joined(entries: Seq<TallyView>, n: int)
    requires
        0 <= n <= entries.len(),
    ensures
        tally_rows_text(entries, n) == joined_lines(tally_row_lines(entries.take(n))),
    decreases n,
{
    reveal_strlit("row=");
    reveal_strlit("row");
    reveal_strlit("\n");
    if n == 0 {
        assert(tally_row_lines(entries.take(0)).len() == 0);
    } else {
        lemma_tally_rows_joined(entries, n - 1);
        let line = pair_line("row"@, tally_row_text(entries[n - 1]));
        assert(tally_row_lines(entries.take(n)) =~= tally_row_lines(entries.take(n - 1)).push(line));
        lemma_joined_lines_push(tally_row_lines(entries.take(n - 1)), line);
        assert(tally_rows_text(entries, n) =~= joined_lines(tally_row_lines(entries.take(n))));
    }
}

/// The header text of a tally report is its header lines, each ended by a line break.
#[verifier::spinoff_prover]
#[verifier::rlimit(100)]
proof fn lemma_tally_head_text(v: TallyReportView)
    ensures
        "schema="@ + SCRIPTED_AGENT_MATCHED_SCENARIO_TALLY_SCHEMA@ + "\nobserver="@ + decimal(
            v.observer.0 as nat,
        ) + "\npair_count="@ + decimal(v.pair_count as nat) + "\nobservation_count="@ + decimal(
            v.observation_count as nat,
        ) + "\nentries="@ + decimal(v.entries.len()) + "\n"@ == joined_lines(tally_header_lines(v)),
{
    reveal_strlit("schema=");
    reveal_strlit("\nobserver=");
    reveal_strlit("\npair_count=");
    reveal_strlit("\nobservation_count=");
    reveal_strlit("\nentries=");
    reveal_strlit("\n");
    reveal_strlit("schema");
    reveal_strlit("observer");
    reveal_strlit("pair_count");
    reveal_strlit("observation_count");
    reveal_strlit("entries");
    let h = tally_header_lines(v);
    let e = Seq::<Seq<char>>::empty();
    assert(joined_lines(e) == Seq::<char>::empty());
    lemma_joined_lines_push(e, h[0]);
    lemma_joined_lines_push(e.push(h[0]), h[1]);
    lemma_joined_lines_push(e.push(h[0]).push(h[1]), h[2]);
    lemma_joined_lines_push(e.push(h[0]).push(h[1]).push(h[2]), h[3]);
    lemma_joined_lines_push(e.push(h[0]).push(h[1]).push(h[2]).push(h[3]), h[4]);
    assert(e.push(h[0]).push(h[1]).push(h[2]).push(h[3]).push(h[4]) =~= h);
    assert("schema="@ + SCRIPTED_AGENT_MATCHED_SCENARIO_TALLY_SCHEMA@ + "\nobserver="@ + decimal(
        v.observer.0 as nat,
    ) + "\npair_count="@ + decimal(v.pair_count as nat) + "\nobservation_count="@ + decimal(
        v.observation_count as nat,
    ) + "\nentries="@ + decimal(v.entries.len()) + "\n"@ =~= joined_lines(h));
}

/// A tally report's text is its lines, each ended by a line break.
proof fn lemma_tally_text_lines(v: TallyReportView)
    ensures
        tally_report_text(v) == joined_lines(tally_lines(v)),
{
    let head = tally_header_lines(v);
    lemma_joined_lines_concat(head, tally_row_lines(v.entries));
    lemma_tally_rows_joined(v.entries, v.entries.len() as int);
    assert(v.entries.take(v.entries.len() as int) =~= v.entries);
    lemma_tally_head_text(v);
}

/// A row written from a valid tally reads back as that tally.
proof fn lemma_tally_row_parse_back(s: Seq<char>, r: (int, int), t: TallyView, pair: u8, obs: u8)
    requires
        0 <= r.0 <= r.1 <= s.len(),
        s.subrange(r.0, r.1) == tally_row_text(t),
        tally_ok(t),
        t.pair_count == pair,
        t.observation_count == obs,
    ensures
        tally_row_parse(s, r, pair, obs) == Some(t),
{
    let fs = tally_row_fields(t);
    lemma_tally_row_text_fields(t);
    lemma_tally_row_fields_plain(t);
    lemma_split_joined(s, r.0, r.1, fs);
    let f = split_from(s, '|', r.0, r.1);
    assert(f.len() == 7);
    lemma_profile_id_round_trip(t.profile);
    assert(s.subrange(f[0].0, f[0].1) == fs[0]);
    assert(s.subrange(f[1].0, f[1].1) == fs[1]);
    assert forall|k: int| 2 <= k < 7 implies #[trigger] field_count(s, f, k) == Some(
        t.counts[k - 2] as nat,
    ) by {
        assert(s.subrange(f[k].0, f[k].1) == fs[k]);
        assert(fs[k] == decimal(t.counts[k - 2] as nat));
        lemma_parse_decimal(s, f[k].0, t.counts[k - 2] as nat, 255);
    }
    let counts = Seq::new(5, |k: int| field_count(s, f, k + 2)->0 as u8);
    assert(counts =~= t.counts);
}

/// Rows written from valid tallies read back as those tallies.
proof fn lemma_tally_rows_parse_back(
    s: Seq<char>,
    ranges: Seq<(int, int)>,
    entries: Seq<TallyView>,
    pair: u8,
    obs: u8,
    j: nat,
)
    requires
        j <= ranges.len(),
        ranges.len() == entries.len(),
        forall|i: int|
            0 <= i < ranges.len() ==> 0 <= (#[trigger] ranges[i]).0 <= ranges[i].1 <= s.len()
                && s.subrange(ranges[i].0, ranges[i].1) == tally_row_text(entries[i]),
        forall|i: int|
            0 <= i < entries.len() ==> tally_ok(#[trigger] entries[i]) && entries[i].pair_count == pair
                && entries[i].observation_count == obs,
    ensures
        tally_rows_parse(s, ranges.take(j as int), pair, obs) == Some(entries.take(j as int)),
    decreases j,
{
    if j > 0 {
        lemma_tally_rows_parse_back(s, ranges, entries, pair, obs, (j - 1) as nat);
        assert(ranges.take(j as int).drop_last() =~= ranges.take(j - 1));
        assert(ranges.take(j as int).last() == ranges[j - 1]);
        lemma_tally_row_parse_back(s, ranges[j - 1], entries[j - 1], pair, obs);
        assert(entries.take(j - 1).push(entries[j - 1]) =~= entries.take(j as int));
    } else {
        assert(ranges.take(0).len() == 0);
        assert(entries.take(0) =~= Seq::<TallyView>::empty());
    }
}

/// The value of a header that is the decimal spelling of a number in range reads as that number.
proof fn lemma_slot_number_decimal(s: Seq<char>, slots: Seq<Seq<(int, int)>>, k: int, n: nat, max: nat)
    requires
        0 <= k < slots.len(),
        slots[k].len() > 0,
        0 <= slots[k][0].0 <= slots[k][0].1 <= s.len(),
        s.subrange(slots[k][0].0, slots[k][0].1) == decimal(n),
        n <= max,
    ensures
        slot_number(s, slots, k, max) == Ok::<nat, ScriptedAgentMatchedScenarioTallyCodecError>(n),
{
    lemma_parse_decimal(s, slots[k][0].0, n, max);
}

/// A tally row is ASCII text of at most 83 characters.
proof fn lemma_tally_row_ascii(t: TallyView)
    requires
        t.counts.len() == 5,
    ensures
        is_ascii_chars(tally_row_text(t)),
        tally_row_text(t).len() <= 83,
{
    reveal_strlit("|");
    lemma_profile_texts_ascii(t.profile);
    let fs = tally_row_fields(t);
    assert forall|k: int| 0 <= k < 5 implies is_ascii_chars(decimal(#[trigger] t.counts[k] as nat))
        && decimal(t.counts[k] as nat).len() <= 3 by {
        lemma_decimal_u8(t.counts[k] as nat);
    }
    assert forall|k: int| 0 <= k < 7 implies is_ascii_chars(#[trigger] fs[k]) by {
        if k >= 2 {
            assert(fs[k] == decimal(t.counts[k - 2] as nat));
        }
    }
    lemma_joined_fields_ascii(fs);
    lemma_tally_row_text_fields(t);
    assert(decimal(t.counts[0] as nat).len() <= 3);
    assert(decimal(t.counts[1] as nat).len() <= 3);
    assert(decimal(t.counts[2] as nat).len() <= 3);
    assert(decimal(t.counts[3] as nat).len() <= 3);
    assert(decimal(t.counts[4] as nat).len() <= 3);
}

/// The text of a valid tally report is ASCII, fits the size cap, and any
/// input holding it decodes back to that report.
pub proof fn lemma_tally_text_reads_back(v: TallyReportView)
    requires
        tally_report_ok(v),
    ensures
        is_ascii_chars(tally_report_text(v)),
        tally_report_text(v).len() <= MAX_SCRIPTED_AGENT_MATCHED_SCENARIO_TALLY_BYTES,
        encode_utf8(tally_report_text(v)).len() == tally_report_text(v).len(),
        tally_decode(tally_report_text(v), encode_utf8(tally_report_text(v)).len()) == Ok::<
            TallyReportView,
            ScriptedAgentMatchedScenarioTallyCodecError,
        >(v),
{
    reveal_strlit("schema");
    reveal_strlit("observer");
    reveal_strlit("pair_count");
    reveal_strlit("observation_count");
    reveal_strlit("entries");
    reveal_strlit("row");
    reveal_strlit("m6-scripted-agent-matched-scenario-tally-v1");
    let ls = tally_lines(v);
    let h = tally_header_lines(v);
    lemma_decimal_u64(v.observer.0 as nat);
    lemma_decimal_u64(v.pair_count as nat);
    lemma_decimal_u64(v.observation_count as nat);
    lemma_decimal_u64(v.entries.len());
    assert(is_ascii_chars(SCRIPTED_AGENT_MATCHED_SCENARIO_TALLY_SCHEMA@));
    assert(is_ascii_chars(seq!['=']));
    let keys = seq!["schema"@, "observer"@, "pair_count"@, "observation_count"@, "entries"@];
    let hv = seq![
        SCRIPTED_AGENT_MATCHED_SCENARIO_TALLY_SCHEMA@,
        decimal(v.observer.0 as nat),
        decimal(v.pair_count as nat),
        decimal(v.observation_count as nat),
        decimal(v.entries.len()),
    ];
    assert forall|i: int| 0 <= i < 5 implies is_ascii_chars(#[trigger] h[i]) && h[i].len()
        <= 90 by {
        assert(is_ascii_chars(keys[i]) && is_ascii_chars(hv[i]));
        assert(h[i] == keys[i] + seq!['='] + hv[i]);
        lemma_ascii_concat(keys[i], seq!['=']);
        lemma_ascii_concat(keys[i] + seq!['='], hv[i]);
    }
    assert forall|i: int| 0 <= i < ls.len() implies is_ascii_chars(#[trigger] ls[i]) && ls[i].len()
        <= 90 by {
        if i >= 5 {
            let t = v.entries[i - 5];
            assert(tally_ok(t));
            lemma_tally_row_ascii(t);
            assert(ls[i] == tally_row_lines(v.entries)[i - 5]);
            assert(is_ascii_chars("row"@));
            lemma_ascii_concat("row"@, seq!['=']);
            lemma_ascii_concat("row"@ + seq!['='], tally_row_text(t));
        } else {
            assert(ls[i] == h[i]);
        }
    }
    lemma_joined_lines_ascii(ls, 90);
    let n = ls.len();
    assert(n * (90 + 1) <= 21 * 91) by (nonlinear_arith)
        requires
            n <= 21,
    ;
    lemma_tally_text_lines(v);
    lemma_ascii_byte_len(tally_report_text(v));
    lemma_tally_round_trip(v, tally_report_text(v).len());
}

/// Reading back the text of a valid tally report gives the same report.
#[verifier::spinoff_prover]
#[verifier::rlimit(100)]
pub proof fn lemma_tally_round_trip(v: TallyReportView, byte_len: nat)
    requires
        tally_report_ok(v),
        byte_len <= MAX_SCRIPTED_AGENT_MATCHED_SCENARIO_TALLY_BYTES,
    ensures
        tally_decode(tally_report_text(v), byte_len) == Ok::<
            TallyReportView,
            ScriptedAgentMatchedScenarioTallyCodecError,
        >(v),
{
    let n = v.entries.len();
    let text = tally_report_text(v);
    let ls = tally_lines(v);
    let keys = tally_keys();
    let vals = tally_vals(v);
    let line_keys = tally_line_keys(n);
    reveal_strlit("schema");
    reveal_strlit("observer");
    reveal_strlit("pair_count");
    reveal_strlit("observation_count");
    reveal_strlit("entries");
    reveal_strlit("row");
    reveal_strlit("m6-scripted-agent-matched-scenario-tally-v1");
    lemma_decimal_plain(v.observer.0 as nat);
    lemma_decimal_plain(v.pair_count as nat);
    lemma_decimal_plain(v.observation_count as nat);
    lemma_decimal_plain(n);
    lemma_tally_text_lines(v);
    assert forall|i: int| 0 <= i < ls.len() implies plain_line(#[trigger] ls[i]) && ls[i]
        == pair_line(keys[line_keys[i]], vals[i]) && vals[i].len() > 0 by {
        if i >= 5 {
            assert(tally_ok(v.entries[i - 5]));
            lemma_tally_row_fields_plain(v.entries[i - 5]);
            assert(ls[i] == tally_row_lines(v.entries)[i - 5]);
            assert(vals[i] == tally_row_text(v.entries[i - 5]));
        }
        let l = ls[i];
        let key = keys[line_keys[i]];
        assert forall|k: int| 0 <= k < l.len() implies #[trigger] l[k] != '\n' && l[k] != '\r' by {
            if k < key.len() {
                assert(l[k] == key[k]);
            } else if k > key.len() {
                assert(l[k] == vals[i][k - key.len() - 1]);
            }
        }
    }
    assert(text.subrange(0, text.len() as int) =~= text);
    lemma_lines_of_joined(text, 0, ls);
    let spans = line_spans(ls, 0);
    assert(line_ranges(text) == spans);
    assert forall|x: int, y: int| 0 <= x < 6 && 0 <= y < 6 && x != y implies keys[x] != keys[y] by {
        if keys[x].len() == keys[y].len() {
            assert(keys[x][0] != keys[y][0]);
        }
    }
    assert forall|i: int| 0 <= i < n + 5 implies #[trigger] is_pair_at(
        text,
        spans,
        line_keys,
        vals,
        keys,
        i,
    ) by {
        let sp = line_spans(ls, 0)[i];
        assert(0 <= sp.0 <= sp.1 <= text.len() && text.subrange(sp.0, sp.1) == ls[i]);
        let key = keys[line_keys[i]];
        assert(key.len() > 0);
        assert forall|k: int| 0 <= k < key.len() implies #[trigger] key[k] != '=' by {}
    }
    let repeatable = seq![false, false, false, false, false, true];
    lemma_pair_scan(text, spans, keys, repeatable, line_keys, vals, n + 5);
    lemma_pair_slots_headers_then_rows(spans, line_keys, keys, 5, n + 5);
    let slots = pair_slots(spans, line_keys, keys, n + 5);
    assert(spans.len() == n + 5);
    assert forall|k: int| 0 <= k < 5 implies 0 <= (#[trigger] slots[k])[0].0 <= slots[k][0].1
        <= text.len() && text.subrange(slots[k][0].0, slots[k][0].1) == vals[k] && slots[k].len()
        == 1 by {
        lemma_pair_split_at(text, spans, line_keys, vals, keys, k);
    }
    assert(slot_text(text, slots, 0) == Some(SCRIPTED_AGENT_MATCHED_SCENARIO_TALLY_SCHEMA@));
    lemma_slot_number_decimal(text, slots, 1, v.observer.0 as nat, 255);
    lemma_slot_number_decimal(text, slots, 2, v.pair_count as nat, 255);
    lemma_slot_number_decimal(text, slots, 3, v.observation_count as nat, 255);
    lemma_slot_number_decimal(text, slots, 4, n, usize::MAX as nat);
    let rows = slots[5];
    assert forall|i: int| 0 <= i < rows.len() implies 0 <= (#[trigger] rows[i]).0 <= rows[i].1
        <= text.len() && text.subrange(rows[i].0, rows[i].1) == tally_row_text(v.entries[i]) by {
        lemma_pair_split_at(text, spans, line_keys, vals, keys, i + 5);
        assert(vals[i + 5] == tally_row_text(v.entries[i]));
    }
    lemma_tally_rows_parse_back(text, rows, v.entries, v.pair_count, v.observation_count, n);
    assert(rows.take(n as int) =~= rows);
    assert(v.entries.take(n as int) =~= v.entries);
}

/// The tally report of a sample set.
pub open spec fn tally_report_of(s: ScriptedAgentMatchedScenarioSample) -> TallyReportView {
    let samples = s.samples_view();
    TallyReportView {
        observer: s.observer_view(),
        pair_count: samples.len() as u8,
        observation_count: (2 * samples.len()) as u8,
        entries: Seq::new(samples[0].entries@.len(), |j: int| tally_row_of(samples, j)),
    }
}

/// Bounded failures from the selected-intent tally codec.
#[derive(Clone, Copy, Debug, PartialEq, Eq, Hash, Structural)]
pub enum ScriptedAgentMatchedScenarioTallyCodecError {
    Oversized,
    UnexpectedLineCount { expected: usize, actual: usize },
    UnknownField,
    DuplicateField,
    MissingField,
    UnsupportedSchema,
    InvalidValue,
    InputMismatch,
}

/// The `|`-separated fields of one tally row.
pub open spec fn tally_row_text(t: TallyView) -> Seq<char> {
    profile_id_of(t.profile) + "|"@ + evaluation_rule_of(t.profile) + "|"@ + decimal(
        t.counts[0] as nat,
    ) + "|"@ + decimal(t.counts[1] as nat) + "|"@ + decimal(t.counts[2] as nat) + "|"@ + decimal(
        t.counts[3] as nat,
    ) + "|"@ + decimal(t.counts[4] as nat)
}

/// The `row=` lines of the first `n` tallies.
pub open spec fn tally_rows_text(entries: Seq<TallyView>, n: int) -> Seq<char>
    decreases n,
{
    if n <= 0 {
        Seq::empty()
    } else {
        tally_rows_text(entries, n - 1) + "row="@ + tally_row_text(entries[n - 1]) + "\n"@
    }
}

/// The canonical text of a tally report.
pub open spec fn tally_report_text(v: TallyReportView) -> Seq<char> {
    "schema="@ + SCRIPTED_AGENT_MATCHED_SCENARIO_TALLY_SCHEMA@ + "\nobserver="@ + decimal(
        v.observer.0 as nat,
    ) + "\npair_count="@ + decimal(v.pair_count as nat) + "\nobservation_count="@ + decimal(
        v.observation_count as nat,
    ) + "\nentries="@ + decimal(v.entries.len()) + "\n"@ + tally_rows_text(
        v.entries,
        v.entries.len() as int,
    )
}

/// The keys of a tally report record.
pub open spec fn tally_keys() -> Seq<Seq<char>> {
    seq!["schema"@, "observer"@, "pair_count"@, "observation_count"@, "entries"@, "row"@]
}

/// The count read from field `k` of a split row.
pub open spec fn field_count(s: Seq<char>, f: Seq<(int, int)>, k: int) -> Option<nat> {
    parse_bounded(s, f[k].0, f[k].1, 255)
}

/// The tally one row `profile|rule|c0|c1|c2|c3|c4` in `s[r.0..r.1)` spells, if valid.
pub open spec fn tally_row_parse(s: Seq<char>, r: (int, int), pair: u8, obs: u8) -> Option<TallyView> {
    let f = split_from(s, '|', r.0, r.1);
    if f.len() != 7 {
        None
    } else {
        match profile_from_id(s.subrange(f[0].0, f[0].1)) {
            None => None,
            Some(p) => if evaluation_rule_of(p) != s.subrange(f[1].0, f[1].1) {
                None
            } else if !(forall|k: int| 2 <= k < 7 ==> #[trigger] field_count(s, f, k) is Some) {
                None
            } else {
                let counts = Seq::new(5, |k: int| field_count(s, f, k + 2)->0 as u8);
                if counts[0] + counts[1] + counts[2] + counts[3] + counts[4] != obs {
                    None
                } else {
                    Some(TallyView { profile: p, pair_count: pair, observation_count: obs, counts })
                }
            },
        }
    }
}

/// The tallies the rows in `ranges` spell, if every row is valid.
pub open spec fn tally_rows_parse(s: Seq<char>, ranges: Seq<(int, int)>, pair: u8, obs: u8) -> Option<
    Seq<TallyView>,
>
    decreases ranges.len(),
{
    if ranges.len() == 0 {
        Some(Seq::empty())
    } else {
        match tally_rows_parse(s, ranges.drop_last(), pair, obs) {
            None => None,
            Some(prefix) => match tally_row_parse(s, ranges.last(), pair, obs) {
                None => None,
                Some(t) => Some(prefix.push(t)),
            },
        }
    }
}

/// What decoding a tally text of `byte_len` bytes gives, before comparing it
/// with a verified report.
pub open spec fn tally_decode(s: Seq<char>, byte_len: nat) -> Result<
    TallyReportView,
    ScriptedAgentMatchedScenarioTallyCodecError,
> {
    let lines = line_ranges(s);
    if byte_len > MAX_SCRIPTED_AGENT_MATCHED_SCENARIO_TALLY_BYTES {
        Err(ScriptedAgentMatchedScenarioTallyCodecError::Oversized)
    } else {
        match field_scan(
            s,
            lines,
            tally_keys(),
            seq![false, false, false, false, false, true],
            lines.len(),
        ) {
            FieldScan::Invalid => Err(ScriptedAgentMatchedScenarioTallyCodecError::InvalidValue),
            FieldScan::Unknown => Err(ScriptedAgentMatchedScenarioTallyCodecError::UnknownField),
            FieldScan::Duplicate => Err(ScriptedAgentMatchedScenarioTallyCodecError::DuplicateField),
            FieldScan::Fine(slots) => tally_fields_decode(s, lines, slots),
        }
    }
}

/// The number in the single value of key `k`: missing, invalid, or the value.
pub open spec fn slot_number(s: Seq<char>, slots: Seq<Seq<(int, int)>>, k: int, max: nat) -> Result<
    nat,
    ScriptedAgentMatchedScenarioTallyCodecError,
> {
    match single_value(slots, k) {
        None => Err(ScriptedAgentMatchedScenarioTallyCodecError::MissingField),
        Some(r) => match parse_bounded(s, r.0, r.1, max) {
            None => Err(ScriptedAgentMatchedScenarioTallyCodecError::InvalidValue),
            Some(v) => Ok(v),
        },
    }
}

/// Decoding the fields of a tally record once every line was read.
pub open spec fn tally_fields_decode(
    s: Seq<char>,
    lines: Seq<(int, int)>,
    slots: Seq<Seq<(int, int)>>,
) -> Result<TallyReportView, ScriptedAgentMatchedScenarioTallyCodecError> {
    if slot_text(s, slots, 0) != Some(SCRIPTED_AGENT_MATCHED_SCENARIO_TALLY_SCHEMA@) {
        Err(ScriptedAgentMatchedScenarioTallyCodecError::UnsupportedSchema)
    } else {
        match slot_number(s, slots, 1, 255) {
            Err(e) => Err(e),
            Ok(observer) => match slot_number(s, slots, 2, 255) {
                Err(e) => Err(e),
                Ok(pair) => if !(1 <= pair <= MAX_SCRIPTED_AGENT_MATCHED_SCENARIO_SAMPLES) {
                    Err(ScriptedAgentMatchedScenarioTallyCodecError::InvalidValue)
                } else {
                    match slot_number(s, slots, 3, 255) {
                        Err(e) => Err(e),
                        Ok(obs) => if obs != pair * 2 {
                            Err(ScriptedAgentMatchedScenarioTallyCodecError::InvalidValue)
                        } else {
                            match slot_number(s, slots, 4, usize::MAX as nat) {
                                Err(e) => Err(e),
                                Ok(n) => if !(1 <= n <= MAX_SCRIPTED_AGENT_BATCH_MANIFESTS) {
                                    Err(ScriptedAgentMatchedScenarioTallyCodecError::InvalidValue)
                                } else if lines.len() != 5 + n || slots[5].len() != n {
                                    Err(
                                        ScriptedAgentMatchedScenarioTallyCodecError::UnexpectedLineCount {
                                            expected: (5 + n) as usize,
                                            actual: lines.len() as usize,
                                        },
                                    )
                                } else {
                                    match tally_rows_parse(s, slots[5], pair as u8, obs as u8) {
                                        None => Err(
                                            ScriptedAgentMatchedScenarioTallyCodecError::InvalidValue,
                                        ),
                                        Some(entries) => Ok(
                                            TallyReportView {
                                                observer: ActorId(observer as u8),
                                                pair_count: pair as u8,
                                                observation_count: obs as u8,
                                                entries,
                                            },
                                        ),
                                    }
                                }
                            }
                        },
                    }
                },
            },
        }
    }
}

/// One row of the intent distribution table.
pub open spec fn distribution_row(t: TallyView) -> Seq<char> {
    let d = distribution_of(t);
    "| "@ + profile_id_of(t.profile) + " | "@ + evaluation_rule_of(t.profile) + " | "@ + decimal(
        t.observation_count as nat,
    ) + " | "@ + decimal(d[0] as nat) + " | "@ + decimal(d[1] as nat) + " | "@ + decimal(
        d[2] as nat,
    ) + " | "@ + decimal(d[3] as nat) + " | "@ + decimal(d[4] as nat) + " |\n"@
}

/// The rows of the first `n` tallies of the intent distribution table.
pub open spec fn distribution_rows(entries: Seq<TallyView>, n: int) -> Seq<char>
    decreases n,
{
    if n <= 0 {
        Seq::empty()
    } else {
        distribution_rows(entries, n - 1) + distribution_row(entries[n - 1])
    }
}

/// The intent distribution Markdown of a tally report.
pub open spec fn distribution_markdown(v: TallyReportView) -> Seq<char> {
    "# Profile Intent Distribution\n\n- schema: "@ + SCRIPTED_AGENT_MATCHED_SCENARIO_TALLY_SCHEMA@
        + "\n- observer: "@ + decimal(v.observer.0 as nat)
        + "\n\n| profile_id | evaluation_rule | observation_count | stabilize_bp | contest_bp | yield_bp | recall_bp | withdraw_bp |\n| --- | --- | ---: | ---: | ---: | ---: | ---: | ---: |\n"@
        + distribution_rows(v.entries, v.entries.len() as int)
}

/// The intent counts of row `j` over the first `p` samples.
pub open spec fn row_counts(samples: Seq<ScriptedAgentMatchedSample>, j: int, p: int) -> Seq<u8> {
    Seq::new(5, |k: int| count_intent(row_intents(samples, j, p), intent_at(k)) as u8)
}

impl Clone for ScriptedAgentMatchedScenarioTallyReport {
    fn clone(&self) -> (r: Self)
        ensures
            r@ == self@,
    {
        proof {
            use_type_invariant(self);
        }
        let mut entries: Vec<ScriptedAgentMatchedScenarioTally> = Vec::new();
        let mut i: usize = 0;
        while i < self.entries.len()
            invariant
                i <= self.entries@.len(),
                entries@ == self.entries@.subrange(0, i as int),
            decreases self.entries@.len() - i,
        {
            entries.push(self.entries[i]);
            i = i + 1;
            assert(entries@ =~= self.entries@.subrange(0, i as int));
        }
        assert(entries@ =~= self.entries@);
        ScriptedAgentMatchedScenarioTallyReport {
            observer: self.observer,
            pair_count: self.pair_count,
            observation_count: self.observation_count,
            entries,
        }
    }
}

impl ScriptedAgentMatchedScenarioTallyReport {
    #[verifier::type_invariant]
    spec fn wf(self) -> bool {
        tally_report_ok(self@)
    }

    /// Aggregate a validated sample set without rerunning policy evaluation.
    pub fn from_sample(sample: &ScriptedAgentMatchedScenarioSample) -> (r: Self)
        ensures
            r@ == tally_report_of(*sample),
            tally_report_ok(r@),
    {
        proof {
            use_type_invariant(sample);
        }
        let ghost samples = sample.samples_view();
        let ss = sample.samples();
        let n = ss.len();
        let pair_count = n as u8;
        let observation_count = pair_count * 2;
        let m = ss[0].entries.len();
        let mut entries: Vec<ScriptedAgentMatchedScenarioTally> = Vec::new();
        let mut j: usize = 0;
        while j < m
            invariant
                j <= m,
                ss@ == samples,
                sample_set_ok(samples),
                n == samples.len(),
                m == samples[0].entries@.len(),
                pair_count == n,
                observation_count == 2 * n,
                entries@.len() == j,
                forall|q: int|
                    0 <= q < j ==> (#[trigger] entries@[q])@ == tally_row_of(samples, q),
                forall|q: int|
                    0 <= q < j ==> tally_ok((#[trigger] entries@[q])@) && entries@[q]@.pair_count
                        == pair_count && entries@[q]@.observation_count == observation_count,
            decreases m - j,
        {
            let mut counts = [0u8; 5];
            let mut p: usize = 0;
            proof {
                assert(counts@ =~= row_counts(samples, j as int, 0));
            }
            while p < n
                invariant
                    p <= n,
                    j < m,
                    ss@ == samples,
                    sample_set_ok(samples),
                    n == samples.len(),
                    m == samples[0].entries@.len(),
                    counts@ == row_counts(samples, j as int, p as int),
                    row_intents(samples, j as int, p as int).len() == 2 * p,
                decreases n - p,
            {
                let e = ss[p].entries[j];
                let a = e.selected_intents[0];
                let b = e.selected_intents[1];
                let ghost before = row_intents(samples, j as int, p as int);
                proof {
                    assert(row_intents(samples, j as int, p + 1) =~= before.push(a).push(b));
                    assert forall|k: int| 0 <= k < 5 implies count_intent(
                        before,
                        intent_at(k),
                    ) <= 2 * p by {
                        lemma_count_intent_bounded(before, intent_at(k));
                    }
                }
                let ia = a.index();
                counts.set(ia, counts[ia] + 1);
                let ib = b.index();
                counts.set(ib, counts[ib] + 1);
                proof {
                    assert forall|k: int| 0 <= k < 5 implies #[trigger] counts@[k] == count_intent(
                        row_intents(samples, j as int, p + 1),
                        intent_at(k),
                    ) by {
                        lemma_count_intent_push(before, a, intent_at(k));
                        lemma_count_intent_push(before.push(a), b, intent_at(k));
                    }
                    assert(counts@ =~= row_counts(samples, j as int, p + 1));
                }
                p = p + 1;
            }
            proof {
                lemma_count_intent_total(row_intents(samples, j as int, n as int));
                assert(samples[0].entries@[j as int].profile == ss@[0].entries@[j as int].profile);
            }
            let tally = ScriptedAgentMatchedScenarioTally {
                profile: ss[0].entries[j].profile,
                pair_count,
                observation_count,
                counts,
            };
            assert(tally@ == tally_row_of(samples, j as int)) by {
                assert(tally@.counts =~= tally_row_of(samples, j as int).counts);
            }
            proof {
                use_type_invariant(&tally);
            }
            entries.push(tally);
            j = j + 1;
        }
        let r = ScriptedAgentMatchedScenarioTallyReport {
            observer: sample.observer(),
            pair_count,
            observation_count,
            entries,
        };
        assert(r@.entries =~= tally_report_of(*sample).entries);
        proof {
            assert forall|q: int| 0 <= q < r@.entries.len() implies tally_ok(
                #[trigger] r@.entries[q],
            ) && r@.entries[q].pair_count == r@.pair_count && r@.entries[q].observation_count
                == r@.observation_count by {
                assert(r@.entries[q] == r.entries@[q]@);
            }
        }
        r
    }

    pub fn schema(&self) -> (r: &'static str)
        ensures
            r@ == SCRIPTED_AGENT_MATCHED_SCENARIO_TALLY_SCHEMA@,
    {
        SCRIPTED_AGENT_MATCHED_SCENARIO_TALLY_SCHEMA
    }

    pub fn observer(&self) -> (r: ActorId)
        ensures
            r == self@.observer,
    {
        self.observer
    }

    pub fn pair_count(&self) -> (r: u8)
        ensures
            r == self@.pair_count,
    {
        self.pair_count
    }

    pub fn observation_count(&self) -> (r: u8)
        ensures
            r == self@.observation_count,
    {
        self.observation_count
    }

    pub fn entries(&self) -> (r: &[ScriptedAgentMatchedScenarioTally])
        ensures
            r@.map_values(|t: ScriptedAgentMatchedScenarioTally| t@) == self@.entries,
            r@.len() == self@.entries.len(),
            tally_report_ok(self@),
    {
        proof {
            use_type_invariant(self);
        }
        self.entries.as_slice()
    }

    /// Render ordered profile/rule rows and intent shares as Markdown.
    pub fn to_intent_distribution_markdown(&self) -> (r: String)
        ensures
            r@ == distribution_markdown(self@),
    {
        let ghost v = self@;
        let mut out = String::new();
        push_str(&mut out, "# Profile Intent Distribution\n\n- schema: ");
        push_str(&mut out, SCRIPTED_AGENT_MATCHED_SCENARIO_TALLY_SCHEMA);
        push_str(&mut out, "\n- observer: ");
        push_decimal(&mut out, self.observer.0 as u64);
        push_str(
            &mut out,
            "\n\n| profile_id | evaluation_rule | observation_count | stabilize_bp | contest_bp | yield_bp | recall_bp | withdraw_bp |\n| --- | --- | ---: | ---: | ---: | ---: | ---: | ---: |\n",
        );
        let ghost head = out@;
        let mut i: usize = 0;
        while i < self.entries.len()
            invariant
                i <= self.entries@.len(),
                v == self@,
                v.entries.len() == self.entries@.len(),
                out@ == head + distribution_rows(v.entries, i as int),
            decreases self.entries@.len() - i,
        {
            let t = self.entries[i];
            assert(v.entries[i as int] == t@);
            let line = t.distribution_line();
            push_str(&mut out, line.as_str());
            assert(out@ =~= head + distribution_rows(v.entries, i + 1));
            i = i + 1;
        }
        out
    }

    /// Encode the verified selected-intent tally as bounded line-oriented text.
    pub fn encode(&self) -> (r: String)
        ensures
            r@ == tally_report_text(self@),
            is_ascii_chars(r@),
            r@.len() <= MAX_SCRIPTED_AGENT_MATCHED_SCENARIO_TALLY_BYTES,
    {
        proof {
            use_type_invariant(self);
            lemma_tally_text_reads_back(self@);
        }
        let ghost v = self@;
        let mut out = String::new();
        push_str(&mut out, "schema=");
        push_str(&mut out, SCRIPTED_AGENT_MATCHED_SCENARIO_TALLY_SCHEMA);
        push_str(&mut out, "\nobserver=");
        push_decimal(&mut out, self.observer.0 as u64);
        push_str(&mut out, "\npair_count=");
        push_decimal(&mut out, self.pair_count as u64);
        push_str(&mut out, "\nobservation_count=");
        push_decimal(&mut out, self.observation_count as u64);
        push_str(&mut out, "\nentries=");
        push_decimal(&mut out, self.entries.len() as u64);
        push_str(&mut out, "\n");
        let ghost head = out@;
        let mut i: usize = 0;
        while i < self.entries.len()
            invariant
                i <= self.entries@.len(),
                v == self@,
                v.entries.len() == self.entries@.len(),
                out@ == head + tally_rows_text(v.entries, i as int),
            decreases self.entries@.len() - i,
        {
            let t = self.entries[i];
            assert(v.entries[i as int] == t@);
            let line = t.row_line();
            push_str(&mut out, line.as_str());
            assert(out@ =~= head + tally_rows_text(v.entries, i + 1));
            i = i + 1;
        }
        assert(out@ =~= tally_report_text(v));
        out
    }
}

/// Once a prefix of rows fails to parse, the whole list fails.
pub proof fn lemma_tally_rows_parse_none(
    s: Seq<char>,
    ranges: Seq<(int, int)>,
    k: int,
    pair: u8,
    obs: u8,
)
    requires
        0 <= k <= ranges.len(),
        tally_rows_parse(s, ranges.subrange(0, k), pair, obs) is None,
    ensures
        tally_rows_parse(s, ranges, pair, obs) is None,
    decreases ranges.len() - k,
{
    if k < ranges.len() {
        assert(ranges.subrange(0, k + 1).drop_last() =~= ranges.subrange(0, k));
        lemma_tally_rows_parse_none(s, ranges, k + 1, pair, obs);
    } else {
        assert(ranges.subrange(0, k) =~= ranges);
    }
}

/// The tally of one `profile|rule|c0|c1|c2|c3|c4` row.
fn parse_tally_row(s: &Vec<char>, a: usize, b: usize, pair: u8, obs: u8) -> (r: Option<
    ScriptedAgentMatchedScenarioTally,
>)
    requires
        a <= b <= s@.len(),
        1 <= pair <= MAX_SCRIPTED_AGENT_MATCHED_SCENARIO_SAMPLES,
        obs == 2 * pair,
    ensures
        match r {
            Some(t) => tally_row_parse(s@, (a as int, b as int), pair, obs) == Some(t@),
            None => tally_row_parse(s@, (a as int, b as int), pair, obs) is None,
        },
{
    let fields = split_range(s, '|', a, b);
    let ghost f = split_from(s@, '|', a as int, b as int);
    if fields.len() != 7 {
        return None;
    }
    let profile = match ScriptedAgentProfile::parse_id_range(s, fields[0].0, fields[0].1) {
        Some(p) => p,
        None => {
            return None;
        },
    };
    if !range_eq_str(s, fields[1].0, fields[1].1, profile.evaluation_rule()) {
        return None;
    }
    let mut counts = [0u8; 5];
    let mut k: usize = 0;
    while k < 5
        invariant
            k <= 5,
            fields@.len() == 7,
            f == split_from(s@, '|', a as int, b as int),
            forall|q: int|
                0 <= q < 7 ==> (#[trigger] fields@[q]).0 as int == f[q].0 && fields@[q].1 as int
                    == f[q].1,
            forall|q: int| 0 <= q < 7 ==> a <= (#[trigger] fields@[q]).0 <= fields@[q].1 <= b,
            b <= s@.len(),
            forall|q: int| 2 <= q < k + 2 ==> #[trigger] field_count(s@, f, q) is Some,
            forall|q: int|
                0 <= q < k ==> counts@[q] as nat == field_count(s@, f, q + 2)->0,
        decreases 5 - k,
    {
        let (x, y) = fields[k + 2];
        match parse_number(s, x, y, 255) {
            Some(v) => {
                counts.set(k, v as u8);
            },
            None => {
                assert(field_count(s@, f, (k + 2) as int) is None);
                return None;
            },
        }
        k = k + 1;
    }
    let total: u16 = counts[0] as u16 + counts[1] as u16 + counts[2] as u16 + counts[3] as u16
        + counts[4] as u16;
    let ghost cs = Seq::new(5, |q: int| field_count(s@, f, q + 2)->0 as u8);
    assert(counts@ =~= cs);
    if total != obs as u16 {
        return None;
    }
    Some(ScriptedAgentMatchedScenarioTally { profile, pair_count: pair, observation_count: obs, counts })
}

/// The tallies of a list of rows.
fn parse_tally_rows(s: &Vec<char>, ranges: &Vec<(usize, usize)>, pair: u8, obs: u8) -> (r: Option<
    Vec<ScriptedAgentMatchedScenarioTally>,
>)
    requires
        forall|k: int| 0 <= k < ranges@.len() ==> (#[trigger] ranges@[k]).0 <= ranges@[k].1 <= s@.len(),
        1 <= pair <= MAX_SCRIPTED_AGENT_MATCHED_SCENARIO_SAMPLES,
        obs == 2 * pair,
    ensures
        match r {
            Some(v) => tally_rows_parse(s@, range_seq(ranges@), pair, obs) == Some(
                v@.map_values(|t: ScriptedAgentMatchedScenarioTally| t@),
            ) && v@.len() == ranges@.len() && forall|q: int|
                0 <= q < v@.len() ==> tally_ok((#[trigger] v@[q])@) && v@[q]@.pair_count == pair
                    && v@[q]@.observation_count == obs,
            None => tally_rows_parse(s@, range_seq(ranges@), pair, obs) is None,
        },
{
    let ghost rv = range_seq(ranges@);
    let mut out: Vec<ScriptedAgentMatchedScenarioTally> = Vec::new();
    let mut k: usize = 0;
    assert(rv.subrange(0, 0) =~= Seq::<(int, int)>::empty());
    assert(out@.map_values(|t: ScriptedAgentMatchedScenarioTally| t@) =~= Seq::<TallyView>::empty());
    while k < ranges.len()
        invariant
            k <= ranges@.len(),
            rv == range_seq(ranges@),
            rv.len() == ranges@.len(),
            forall|q: int| 0 <= q < ranges@.len() ==> (#[trigger] ranges@[q]).0 <= ranges@[q].1 <= s@.len(),
            1 <= pair <= MAX_SCRIPTED_AGENT_MATCHED_SCENARIO_SAMPLES,
            obs == 2 * pair,
            out@.len() == k,
            forall|q: int|
                0 <= q < k ==> tally_ok((#[trigger] out@[q])@) && out@[q]@.pair_count == pair
                    && out@[q]@.observation_count == obs,
            tally_rows_parse(s@, rv.subrange(0, k as int), pair, obs) == Some(
                out@.map_values(|t: ScriptedAgentMatchedScenarioTally| t@),
            ),
        decreases ranges@.len() - k,
    {
        let (x, y) = ranges[k];
        assert(rv[k as int] == (x as int, y as int));
        assert(rv.subrange(0, k + 1).drop_last() =~= rv.subrange(0, k as int));
        match parse_tally_row(s, x, y, pair, obs) {
            Some(t) => {
                proof {
                    use_type_invariant(&t);
                }
                let ghost before = out@;
                out.push(t);
                assert(out@.map_values(|t: ScriptedAgentMatchedScenarioTally| t@) =~= before.map_values(
                    |t: ScriptedAgentMatchedScenarioTally| t@,
                ).push(t@));
            },
            None => {
                proof {
                    lemma_tally_rows_parse_none(s@, rv, k + 1, pair, obs);
                }
                return None;
            },
        }
        k = k + 1;
    }
    assert(rv.subrange(0, rv.len() as int) =~= rv);
    Some(out)
}

/// The number in the single value of slot `k`.
fn read_slot_number(
    s: &Vec<char>,
    slots: &Vec<Vec<(usize, usize)>>,
    k: usize,
    max: u64,
) -> (r: Result<u64, ScriptedAgentMatchedScenarioTallyCodecError>)
    requires
        k < slots@.len(),
        forall|m: int| 0 <= m < slots@[k as int]@.len() ==> (#[trigger] slots@[k as int]@[m]).0
            <= slots@[k as int]@[m].1 <= s@.len(),
    ensures
        match r {
            Ok(v) => slot_number(s@, slots_view(slots@), k as int, max as nat) == Ok::<
                nat,
                ScriptedAgentMatchedScenarioTallyCodecError,
            >(v as nat),
            Err(e) => slot_number(s@, slots_view(slots@), k as int, max as nat) == Err::<
                nat,
                ScriptedAgentMatchedScenarioTallyCodecError,
            >(e),
        },
{
    if slots[k].len() == 0 {
        return Err(ScriptedAgentMatchedScenarioTallyCodecError::MissingField);
    }
    let (a, b) = slots[k][0];
    assert(slots_view(slots@)[k as int][0] == (a as int, b as int));
    match parse_number(s, a, b, max) {
        Some(v) => Ok(v),
        None => Err(ScriptedAgentMatchedScenarioTallyCodecError::InvalidValue),
    }
}

/// Whether two tally reports hold the same content.
fn same_tally_report(
    x: &ScriptedAgentMatchedScenarioTallyReport,
    y: &ScriptedAgentMatchedScenarioTallyReport,
) -> (r: bool)
    ensures
        r == (x@ == y@),
{
    if x.observer.0 != y.observer.0 || x.pair_count != y.pair_count || x.observation_count
        != y.observation_count || x.entries.len() != y.entries.len() {
        proof {
            if x@ == y@ {
                assert(x@.entries.len() == y@.entries.len());
            }
        }
        return false;
    }
    let mut i: usize = 0;
    while i < x.entries.len()
        invariant
            i <= x.entries@.len(),
            x.entries@.len() == y.entries@.len(),
            forall|q: int| 0 <= q < i ==> (#[trigger] x.entries@[q])@ == y.entries@[q]@,
        decreases x.entries@.len() - i,
    {
        let a = x.entries[i];
        let b = y.entries[i];
        if a.profile.evaluation != b.profile.evaluation || a.pair_count != b.pair_count
            || a.observation_count != b.observation_count || a.counts[0] != b.counts[0]
            || a.counts[1] != b.counts[1] || a.counts[2] != b.counts[2] || a.counts[3]
            != b.counts[3] || a.counts[4] != b.counts[4] {
            proof {
                if x@ == y@ {
                    assert(x@.entries[i as int] == y@.entries[i as int]);
                    assert(a@.counts[0] == b@.counts[0]);
                    assert(a@.counts[1] == b@.counts[1]);
                    assert(a@.counts[2] == b@.counts[2]);
                    assert(a@.counts[3] == b@.counts[3]);
                    assert(a@.counts[4] == b@.counts[4]);
                }
            }
            return false;
        }
        proof {
            use_type_invariant(&a);
            use_type_invariant(&b);
            assert(a@.counts =~= b@.counts);
        }
        i = i + 1;
    }
    assert(x@.entries =~= y@.entries);
    true
}

impl ScriptedAgentMatchedScenarioTallyReport {
    /// Decode a tally text without comparing it with a verified report.
    fn decode_text(input: &str) -> (r: Result<Self, ScriptedAgentMatchedScenarioTallyCodecError>)
        ensures
            match r {
                Ok(t) => tally_decode(input@, input.len() as nat) == Ok::<
                    TallyReportView,
                    ScriptedAgentMatchedScenarioTallyCodecError,
                >(t@),
                Err(e) => tally_decode(input@, input.len() as nat) == Err::<
                    TallyReportView,
                    ScriptedAgentMatchedScenarioTallyCodecError,
                >(e),
            },
    {
        if input.len() > MAX_SCRIPTED_AGENT_MATCHED_SCENARIO_TALLY_BYTES {
            return Err(ScriptedAgentMatchedScenarioTallyCodecError::Oversized);
        }
        let s = str_to_chars(input);
        let lines = lines(&s);
        let ghost lv = range_seq(lines@);
        assert(lv =~= line_ranges(s@));
        let keys = ["schema", "observer", "pair_count", "observation_count", "entries", "row"];
        proof {
            reveal_strlit("schema");
            reveal_strlit("observer");
            reveal_strlit("pair_count");
            reveal_strlit("observation_count");
            reveal_strlit("entries");
            reveal_strlit("row");
            assert(key_seq(keys@) =~= tally_keys());
            let t = tally_keys();
            assert(t[0].len() == 6 && t[1].len() == 8 && t[2].len() == 10 && t[3].len() == 17
                && t[4].len() == 7 && t[5].len() == 3);
            assert(t[0][0] == 's' && t[4][0] == 'e');
        }
        let repeatable = [false, false, false, false, false, true];
        assert(repeatable@ =~= seq![false, false, false, false, false, true]);
        let slots = match scan_fields(&s, &lines, &keys, &repeatable) {
            Ok(slots) => slots,
            Err(ScanError::Invalid) => {
                return Err(ScriptedAgentMatchedScenarioTallyCodecError::InvalidValue);
            },
            Err(ScanError::Unknown) => {
                return Err(ScriptedAgentMatchedScenarioTallyCodecError::UnknownField);
            },
            Err(ScanError::Duplicate) => {
                return Err(ScriptedAgentMatchedScenarioTallyCodecError::DuplicateField);
            },
        };
        let ghost sl = slots_view(slots@);
        if !slot_is(&s, &slots, 0, SCRIPTED_AGENT_MATCHED_SCENARIO_TALLY_SCHEMA) {
            return Err(ScriptedAgentMatchedScenarioTallyCodecError::UnsupportedSchema);
        }
        let observer = read_slot_number(&s, &slots, 1, 255)?;
        let pair = read_slot_number(&s, &slots, 2, 255)?;
        if !(1 <= pair && pair <= MAX_SCRIPTED_AGENT_MATCHED_SCENARIO_SAMPLES as u64) {
            return Err(ScriptedAgentMatchedScenarioTallyCodecError::InvalidValue);
        }
        let obs = read_slot_number(&s, &slots, 3, 255)?;
        if obs != pair * 2 {
            return Err(ScriptedAgentMatchedScenarioTallyCodecError::InvalidValue);
        }
        let count = read_slot_number(&s, &slots, 4, usize::MAX as u64)?;
        if !(1 <= count && count <= MAX_SCRIPTED_AGENT_BATCH_MANIFESTS as u64) {
            return Err(ScriptedAgentMatchedScenarioTallyCodecError::InvalidValue);
        }
        let count = count as usize;
        if lines.len() != 5 + count || slots[5].len() != count {
            return Err(
                ScriptedAgentMatchedScenarioTallyCodecError::UnexpectedLineCount {
                    expected: 5 + count,
                    actual: lines.len(),
                },
            );
        }
        let entries = match parse_tally_rows(&s, &slots[5], pair as u8, obs as u8) {
            Some(v) => v,
            None => {
                return Err(ScriptedAgentMatchedScenarioTallyCodecError::InvalidValue);
            },
        };
        let r = ScriptedAgentMatchedScenarioTallyReport {
                observer: ActorId(observer as u8),
                pair_count: pair as u8,
                observation_count: obs as u8,
                entries,
            };
        Ok(r)
    }

    /// Decode and validate a tally against an already verified report.
    pub fn decode(input: &str, expected: &Self) -> (r: Result<
        Self,
        ScriptedAgentMatchedScenarioTallyCodecError,
    >)
        ensures
            match tally_decode(input@, input.len() as nat) {
                Err(e) => r == Err::<Self, ScriptedAgentMatchedScenarioTallyCodecError>(e),
                Ok(v) => if v == expected@ {
                    r is Ok && r->Ok_0@ == v
                } else {
                    r == Err::<Self, ScriptedAgentMatchedScenarioTallyCodecError>(
                        ScriptedAgentMatchedScenarioTallyCodecError::InputMismatch,
                    )
                },
            },
    {
        let decoded = Self::decode_text(input)?;
        if !same_tally_report(&decoded, expected) {
            return Err(ScriptedAgentMatchedScenarioTallyCodecError::InputMismatch);
        }
        Ok(decoded)
    }
}
} // verus!
