//! The closed fixture-scenario catalog: scenario selections bound to caller
//! observation identities, deterministic populations over the catalog, the
//! matched samples and tallies they compose, and fixed-policy population
//! evidence.

use vstd::prelude::*;
use vstd::utf8::{encode_utf8, is_ascii_chars};
use crate::batch::{batch_check, ScriptedAgentBatchError};
use crate::lane::{
    initial_snapshot, intent_set_contains, intent_set_seq, lemma_intent_set_prefix,
    observe_player, player_observation, ActorId, JungleThreatTruth, LaneIntent, LaneSnapshot,
    LaneStatus, LanerObservation, ObservationId, HUMAN_LANER_ACTOR_ID,
};
use crate::policy::{advertises_some, candidate_intents, decision_for, ScriptedAgent};
use crate::profile::{
    ScriptedAgentEvaluationRule, ScriptedAgentExperimentManifest, ScriptedAgentProfile,
};
use crate::sample::{
    pair_ids, pair_scan, sample_for_obs, tally_report_of, ScriptedAgentMatchedSampleError,
    ScriptedAgentMatchedScenarioSample, ScriptedAgentMatchedScenarioSampleError,
    ScriptedAgentMatchedScenarioTallyReport, TallyReportView,
};
use crate::codec::{
    field_scan, is_pair_at, key_seq, lemma_pair_scan, lemma_pair_slots_headers_then_rows,
    lemma_pair_split_at, pair_line, pair_slots, range_seq, scan_fields, single_value, slots_view,
    FieldScan, ScanError,
};
use crate::operational::{
    slot_is, slot_text, ScriptedAgentBuildComparisonError, ScriptedAgentBuildId,
};
use crate::text::{
    decimal, joined_fields, joined_lines, lemma_ascii_byte_len, lemma_ascii_concat, lemma_decimal_plain,
    lemma_decimal_u8, lemma_joined_lines_ascii, lemma_joined_fields_push,
    lemma_joined_lines_push, lemma_lines_of_joined, lemma_parse_decimal, lemma_split_joined,
    line_ranges, line_spans, lines, parse_bounded, parse_number, plain_field, plain_line,
    push_decimal, push_str, range_eq_str, split_from, split_range, str_eq, str_to_chars,
};

verus! {

/// Versioned identity for the closed fixed-fixture scenario catalog.
pub const SCRIPTED_AGENT_FIXTURE_SCENARIO_CATALOG_SCHEMA: &'static str =
    "m6-scripted-agent-fixture-scenarios-v1";

/// Stable identity of the fixture without a visible jungle threat.
pub const SCRIPTED_AGENT_SAFE_FIXTURE_SCENARIO_ID: &'static str = "safe-fixture-v1";

/// Stable identity of the fixture with a river-side jungle threat.
pub const SCRIPTED_AGENT_RIVER_SIDE_FIXTURE_SCENARIO_ID: &'static str = "river-side-threat-v1";

/// Maximum number of selected fixed-fixture scenarios in one request.
pub const MAX_SCRIPTED_AGENT_FIXTURE_SCENARIOS: usize = 4;

/// Versioned identity for a deterministic fixed-fixture population.
pub const SCRIPTED_AGENT_FIXTURE_POPULATION_SCHEMA: &'static str =
    "m6-scripted-agent-fixture-population-v1";

/// Bounded failures from fixed-fixture scenario selection.
#[derive(Clone, Copy, Debug, PartialEq, Eq, Hash, Structural)]
pub enum ScriptedAgentFixtureScenarioSelectionError {
    EmptySelection,
    SelectionTooLarge { max: usize, actual: usize },
    UnknownScenario,
    MismatchedObservationPairCount { expected: usize, actual: usize },
    DuplicateObservationId,
}

/// Bounded failures from deterministic fixed-fixture population generation.
#[derive(Clone, Copy, Debug, PartialEq, Eq, Hash, Structural)]
pub enum ScriptedAgentFixturePopulationError {
    EmptyPopulation,
    PopulationTooLarge { max: usize, actual: usize },
    ObservationIdOverflow,
    InvalidSelection(ScriptedAgentFixtureScenarioSelectionError),
}

/// Closed fixture variants available to the bounded scenario selector.
#[derive(Clone, Copy, Debug, PartialEq, Eq, Hash, Structural)]
pub enum ScriptedAgentFixtureScenario {
    Safe,
    RiverSideThreat,
}

/// The identity of a fixture scenario.
pub open spec fn scenario_id_of(s: ScriptedAgentFixtureScenario) -> Seq<char> {
    match s {
        ScriptedAgentFixtureScenario::Safe => SCRIPTED_AGENT_SAFE_FIXTURE_SCENARIO_ID@,
        ScriptedAgentFixtureScenario::RiverSideThreat => SCRIPTED_AGENT_RIVER_SIDE_FIXTURE_SCENARIO_ID@,
    }
}

/// The fixture scenario an identity names, if any.
pub open spec fn scenario_from_id(id: Seq<char>) -> Option<ScriptedAgentFixtureScenario> {
    if id == SCRIPTED_AGENT_SAFE_FIXTURE_SCENARIO_ID@ {
        Some(ScriptedAgentFixtureScenario::Safe)
    } else if id == SCRIPTED_AGENT_RIVER_SIDE_FIXTURE_SCENARIO_ID@ {
        Some(ScriptedAgentFixtureScenario::RiverSideThreat)
    } else {
        None
    }
}

/// The snapshot the second observation of a scenario is taken from: the
/// opening state, with a river-side jungle threat in the threat scenario.
pub open spec fn second_snapshot(s: ScriptedAgentFixtureScenario) -> LaneSnapshot {
    match s {
        ScriptedAgentFixtureScenario::Safe => initial_snapshot(),
        ScriptedAgentFixtureScenario::RiverSideThreat => LaneSnapshot {
            status: LaneStatus::Open,
            jungle_threat: JungleThreatTruth::RiverSide,
            ..initial_snapshot()
        },
    }
}

/// Observation `k` (0 or 1) of a scenario bound to two identities: the
/// opening state first, then the scenario's second snapshot.
pub open spec fn fixture_observation(
    s: ScriptedAgentFixtureScenario,
    ids: [ObservationId; 2],
    k: int,
) -> LanerObservation {
    if k == 0 {
        player_observation(initial_snapshot(), ids[0])
    } else {
        player_observation(second_snapshot(s), ids[1])
    }
}

/// An open snapshot's player observation advertises an intent.
pub proof fn lemma_open_observation_advertises(state: LaneSnapshot, id: ObservationId)
    requires
        state.status == LaneStatus::Open,
    ensures
        advertises_some(player_observation(state, id)),
{
    let o = player_observation(state, id);
    lemma_intent_set_prefix(o.available_intents, 5);
    assert(intent_set_contains(o.available_intents, LaneIntent::Stabilize));
    assert(intent_set_seq(o.available_intents).contains(LaneIntent::Stabilize));
}

impl ScriptedAgentFixtureScenario {
    pub fn id(self) -> (r: &'static str)
        ensures
            r@ == scenario_id_of(self),
    {
        match self {
            Self::Safe => SCRIPTED_AGENT_SAFE_FIXTURE_SCENARIO_ID,
            Self::RiverSideThreat => SCRIPTED_AGENT_RIVER_SIDE_FIXTURE_SCENARIO_ID,
        }
    }

    fn parse_id(value: &str) -> (r: Result<Self, ScriptedAgentFixtureScenarioSelectionError>)
        ensures
            match scenario_from_id(value@) {
                Some(s) => r == Ok::<Self, ScriptedAgentFixtureScenarioSelectionError>(s),
                None => r == Err::<Self, ScriptedAgentFixtureScenarioSelectionError>(
                    ScriptedAgentFixtureScenarioSelectionError::UnknownScenario,
                ),
            },
    {
        if str_eq(value, SCRIPTED_AGENT_SAFE_FIXTURE_SCENARIO_ID) {
            Ok(Self::Safe)
        } else if str_eq(value, SCRIPTED_AGENT_RIVER_SIDE_FIXTURE_SCENARIO_ID) {
            Ok(Self::RiverSideThreat)
        } else {
            Err(ScriptedAgentFixtureScenarioSelectionError::UnknownScenario)
        }
    }

    pub fn observations(self, observation_ids: [ObservationId; 2]) -> (r: [LanerObservation; 2])
        ensures
            r[0] == fixture_observation(self, observation_ids, 0),
            r[1] == fixture_observation(self, observation_ids, 1),
            advertises_some(r[0]),
            advertises_some(r[1]),
    {
        let initial = LaneSnapshot::initial();
        let second = match self {
            Self::Safe => initial,
            Self::RiverSideThreat => LaneSnapshot::new(
                initial.ruleset(),
                initial.turn(),
                LaneStatus::Open,
                initial.player(),
                initial.opponent(),
                initial.wave(),
                JungleThreatTruth::RiverSide,
            ),
        };
        proof {
            lemma_open_observation_advertises(initial, observation_ids[0]);
            lemma_open_observation_advertises(second, observation_ids[1]);
        }
        [
            observe_player(&initial, observation_ids[0]).observation(),
            observe_player(&second, observation_ids[1]).observation(),
        ]
    }
}

/// Parsing a scenario's identity gives the scenario back.
pub proof fn lemma_scenario_id_round_trip(s: ScriptedAgentFixtureScenario)
    ensures
        scenario_from_id(scenario_id_of(s)) == Some(s),
{
    reveal_strlit("safe-fixture-v1");
    reveal_strlit("river-side-threat-v1");
    assert("safe-fixture-v1"@[0] == 's');
    assert("river-side-threat-v1"@[0] == 'r');
}

/// The scenario a generated population holds at position `i`: safe and
/// river-side threat, alternating from safe.
pub open spec fn alternating_scenario(i: int) -> ScriptedAgentFixtureScenario {
    if i % 2 == 0 {
        ScriptedAgentFixtureScenario::Safe
    } else {
        ScriptedAgentFixtureScenario::RiverSideThreat
    }
}

/// Generating `n` scenarios is selecting them by identity with alternating
/// safe and river-side identities: those identities are all known and name
/// exactly the alternating scenarios, so `generate` and
/// `generate_from_scenario_ids` state the same outcome for every count and
/// first identity.
pub proof fn lemma_generate_is_alternating_selection(ids: Seq<&str>)
    requires
        forall|i: int| 0 <= i < ids.len() ==> (#[trigger] ids[i])@ == scenario_id_of(alternating_scenario(i)),
    ensures
        all_known(ids),
        Seq::new(ids.len(), |i: int| scenario_from_id(ids[i]@)->0) == Seq::new(
            ids.len(),
            |i: int|
                if i % 2 == 0 {
                    ScriptedAgentFixtureScenario::Safe
                } else {
                    ScriptedAgentFixtureScenario::RiverSideThreat
                },
        ),
{
    assert forall|i: int| 0 <= i < ids.len() implies scenario_from_id(#[trigger] ids[i]@) == Some(
        alternating_scenario(i),
    ) by {
        assert(ids[i]@ == scenario_id_of(alternating_scenario(i)));
        lemma_scenario_id_round_trip(alternating_scenario(i));
    }
    assert(Seq::new(ids.len(), |i: int| scenario_from_id(ids[i]@)->0) =~= Seq::new(
        ids.len(),
        |i: int|
            if i % 2 == 0 {
                ScriptedAgentFixtureScenario::Safe
            } else {
                ScriptedAgentFixtureScenario::RiverSideThreat
            },
    ));
}

/// The identities of the first `n` pairs of a selection, flattened in order.
pub open spec fn selection_ids(ids: Seq<[ObservationId; 2]>, n: int) -> Seq<ObservationId>
    decreases n,
{
    if n <= 0 {
        Seq::empty()
    } else {
        selection_ids(ids, n - 1).push(ids[n - 1][0]).push(ids[n - 1][1])
    }
}

/// Ordered selection of caller-ID-bound fixed fixture scenarios.
#[derive(Debug, PartialEq, Eq, Hash)]
pub struct ScriptedAgentFixtureScenarioSelection {
    scenarios: Vec<ScriptedAgentFixtureScenario>,
    observation_ids: Vec<[ObservationId; 2]>,
}

/// The content of a selection.
pub struct SelectionView {
    pub scenarios: Seq<ScriptedAgentFixtureScenario>,
    pub observation_ids: Seq<[ObservationId; 2]>,
}

impl View for ScriptedAgentFixtureScenarioSelection {
    type V = SelectionView;

    closed spec fn view(&self) -> SelectionView {
        SelectionView { scenarios: self.scenarios@, observation_ids: self.observation_ids@ }
    }
}

/// Whether a selection is consistent: one to four scenarios, one identity
/// pair each, and no identity used twice.
pub open spec fn selection_ok(v: SelectionView) -> bool {
    &&& 1 <= v.scenarios.len() <= MAX_SCRIPTED_AGENT_FIXTURE_SCENARIOS
    &&& v.observation_ids.len() == v.scenarios.len()
    &&& selection_ids(v.observation_ids, v.observation_ids.len() as int).no_duplicates()
}

/// The first unknown identity among the first `n` scenario identities.
pub open spec fn all_known(ids: Seq<&str>) -> bool {
    forall|i: int| 0 <= i < ids.len() ==> (#[trigger] scenario_from_id(ids[i]@)) is Some
}

/// What selecting scenario identities with identity pairs gives.
pub open spec fn selection_of(ids: Seq<&str>, pairs: Seq<[ObservationId; 2]>) -> Result<
    SelectionView,
    ScriptedAgentFixtureScenarioSelectionError,
> {
    if ids.len() == 0 {
        Err(ScriptedAgentFixtureScenarioSelectionError::EmptySelection)
    } else if ids.len() > MAX_SCRIPTED_AGENT_FIXTURE_SCENARIOS {
        Err(
            ScriptedAgentFixtureScenarioSelectionError::SelectionTooLarge {
                max: MAX_SCRIPTED_AGENT_FIXTURE_SCENARIOS,
                actual: ids.len() as usize,
            },
        )
    } else if ids.len() != pairs.len() {
        Err(
            ScriptedAgentFixtureScenarioSelectionError::MismatchedObservationPairCount {
                expected: ids.len() as usize,
                actual: pairs.len() as usize,
            },
        )
    } else if !all_known(ids) {
        Err(ScriptedAgentFixtureScenarioSelectionError::UnknownScenario)
    } else if !selection_ids(pairs, pairs.len() as int).no_duplicates() {
        Err(ScriptedAgentFixtureScenarioSelectionError::DuplicateObservationId)
    } else {
        Ok(
            SelectionView {
                scenarios: Seq::new(ids.len(), |i: int| scenario_from_id(ids[i]@)->0),
                observation_ids: pairs,
            },
        )
    }
}

/// Whether an identity occurs in a list.
fn contains_observation_id(v: &Vec<ObservationId>, id: ObservationId) -> (r: bool)
    ensures
        r == v@.contains(id),
{
    let mut i: usize = 0;
    while i < v.len()
        invariant
            i <= v@.len(),
            forall|k: int| 0 <= k < i ==> v@[k] != id,
        decreases v@.len() - i,
    {
        if v[i] == id {
            return true;
        }
        i = i + 1;
    }
    false
}

/// Extending a list by an element it does not contain keeps it free of repeats.
proof fn lemma_push_no_duplicates(s: Seq<ObservationId>, x: ObservationId)
    requires
        s.no_duplicates(),
        !s.contains(x),
    ensures
        s.push(x).no_duplicates(),
{
    assert forall|i: int, j: int|
        0 <= i < s.push(x).len() && 0 <= j < s.push(x).len() && i != j implies s.push(x)[i]
        != s.push(x)[j] by {
        if i == s.len() {
            assert(s[j] == s.push(x)[j]);
        } else if j == s.len() {
            assert(s[i] == s.push(x)[i]);
        }
    }
}

/// A list whose prefix has a repeat has a repeat.
proof fn lemma_prefix_duplicates(s: Seq<ObservationId>, n: int)
    requires
        0 <= n <= s.len(),
        !s.subrange(0, n).no_duplicates(),
    ensures
        !s.no_duplicates(),
{
    let t = s.subrange(0, n);
    let (i, j) = choose|i: int, j: int|
        0 <= i < t.len() && 0 <= j < t.len() && i != j && t[i] == t[j];
    assert(s[i] == t[i] && s[j] == t[j]);
}

impl ScriptedAgentFixtureScenarioSelection {
    /// Select closed fixture identities and bind each to two distinct caller identities.
    pub fn from_ids(scenario_ids: &[&str], observation_ids: &[[ObservationId; 2]]) -> (r: Result<
        Self,
        ScriptedAgentFixtureScenarioSelectionError,
    >)
        ensures
            match selection_of(scenario_ids@, observation_ids@) {
                Err(e) => r == Err::<Self, ScriptedAgentFixtureScenarioSelectionError>(e),
                Ok(v) => r is Ok && r->Ok_0@ == v,
            },
    {
        if scenario_ids.len() == 0 {
            return Err(ScriptedAgentFixtureScenarioSelectionError::EmptySelection);
        }
        if scenario_ids.len() > MAX_SCRIPTED_AGENT_FIXTURE_SCENARIOS {
            return Err(
                ScriptedAgentFixtureScenarioSelectionError::SelectionTooLarge {
                    max: MAX_SCRIPTED_AGENT_FIXTURE_SCENARIOS,
                    actual: scenario_ids.len(),
                },
            );
        }
        if scenario_ids.len() != observation_ids.len() {
            return Err(
                ScriptedAgentFixtureScenarioSelectionError::MismatchedObservationPairCount {
                    expected: scenario_ids.len(),
                    actual: observation_ids.len(),
                },
            );
        }
        let mut scenarios: Vec<ScriptedAgentFixtureScenario> = Vec::new();
        let mut i: usize = 0;
        while i < scenario_ids.len()
            invariant
                i <= scenario_ids@.len(),
                1 <= scenario_ids@.len() <= MAX_SCRIPTED_AGENT_FIXTURE_SCENARIOS,
                scenario_ids@.len() == observation_ids@.len(),
                scenarios@.len() == i,
                forall|k: int|
                    0 <= k < i ==> scenario_from_id(scenario_ids@[k]@) == Some(
                        #[trigger] scenarios@[k],
                    ),
            decreases scenario_ids@.len() - i,
        {
            let scenario = match ScriptedAgentFixtureScenario::parse_id(scenario_ids[i]) {
                Ok(s) => s,
                Err(e) => {
                    assert(scenario_from_id(scenario_ids@[i as int]@) is None);
                    return Err(e);
                },
            };
            scenarios.push(scenario);
            i = i + 1;
        }
        assert forall|k: int| 0 <= k < scenario_ids@.len() implies (#[trigger] scenario_from_id(
            scenario_ids@[k]@,
        )) is Some by {
            assert(scenario_from_id(scenario_ids@[k]@) == Some(scenarios@[k]));
        }
        let mut seen: Vec<ObservationId> = Vec::new();
        let mut p: usize = 0;
        while p < observation_ids.len()
            invariant
                p <= observation_ids@.len(),
                1 <= scenario_ids@.len() <= MAX_SCRIPTED_AGENT_FIXTURE_SCENARIOS,
                scenario_ids@.len() == observation_ids@.len(),
                all_known(scenario_ids@),
                seen@ == selection_ids(observation_ids@, p as int),
                seen@.no_duplicates(),
            decreases observation_ids@.len() - p,
        {
            let pair = observation_ids[p];
            let ghost rest = selection_ids(observation_ids@, observation_ids@.len() as int);
            if contains_observation_id(&seen, pair[0]) {
                proof {
                    let k = choose|k: int| 0 <= k < seen@.len() && seen@[k] == pair[0];
                    let ext = seen@.push(pair[0]).push(pair[1]);
                    assert(ext[k] == ext[seen@.len() as int]);
                    lemma_selection_ids_prefix(observation_ids@, p + 1, observation_ids@.len() as int);
                    lemma_prefix_duplicates(rest, 2 * (p + 1));
                }
                return Err(ScriptedAgentFixtureScenarioSelectionError::DuplicateObservationId);
            }
            proof {
                lemma_push_no_duplicates(seen@, pair[0]);
            }
            seen.push(pair[0]);
            if contains_observation_id(&seen, pair[1]) {
                proof {
                    let k = choose|k: int| 0 <= k < seen@.len() && seen@[k] == pair[1];
                    let ext = seen@.push(pair[1]);
                    assert(ext[k] == ext[seen@.len() as int]);
                    lemma_selection_ids_prefix(observation_ids@, p + 1, observation_ids@.len() as int);
                    lemma_prefix_duplicates(rest, 2 * (p + 1));
                }
                return Err(ScriptedAgentFixtureScenarioSelectionError::DuplicateObservationId);
            }
            proof {
                lemma_push_no_duplicates(seen@, pair[1]);
            }
            seen.push(pair[1]);
            p = p + 1;
        }
        let mut ids: Vec<[ObservationId; 2]> = Vec::new();
        let mut q: usize = 0;
        while q < observation_ids.len()
            invariant
                q <= observation_ids@.len(),
                ids@ == observation_ids@.subrange(0, q as int),
            decreases observation_ids@.len() - q,
        {
            ids.push(observation_ids[q]);
            q = q + 1;
            assert(ids@ =~= observation_ids@.subrange(0, q as int));
        }
        assert(ids@ =~= observation_ids@);
        let r = ScriptedAgentFixtureScenarioSelection { scenarios, observation_ids: ids };
        assert(r@.scenarios =~= selection_of(scenario_ids@, observation_ids@)->Ok_0.scenarios);
        Ok(r)
    }

    pub fn schema(&self) -> (r: &'static str)
        ensures
            r@ == SCRIPTED_AGENT_FIXTURE_SCENARIO_CATALOG_SCHEMA@,
    {
        SCRIPTED_AGENT_FIXTURE_SCENARIO_CATALOG_SCHEMA
    }

    pub fn scenarios(&self) -> (r: &[ScriptedAgentFixtureScenario])
        ensures
            r@ == self@.scenarios,
    {
        self.scenarios.as_slice()
    }

    pub fn observation_ids(&self) -> (r: &[[ObservationId; 2]])
        ensures
            r@ == self@.observation_ids,
    {
        self.observation_ids.as_slice()
    }
}

/// The flattened identities of a prefix are a prefix of the flattened identities.
pub proof fn lemma_selection_ids_prefix(ids: Seq<[ObservationId; 2]>, n: int, m: int)
    requires
        0 <= n <= m,
    ensures
        selection_ids(ids, m).len() == 2 * m,
        selection_ids(ids, n) == selection_ids(ids, m).subrange(0, 2 * n),
    decreases m - n,
{
    if n < m {
        lemma_selection_ids_prefix(ids, n, m - 1);
        assert(selection_ids(ids, m - 1) =~= selection_ids(ids, m).subrange(0, 2 * (m - 1)));
        assert(selection_ids(ids, n) =~= selection_ids(ids, m).subrange(0, 2 * n));
    } else {
        lemma_selection_ids_len(ids, m);
        assert(selection_ids(ids, m) =~= selection_ids(ids, m).subrange(0, 2 * m));
    }
}

/// The flattened identities of `m` pairs number `2 * m`.
pub proof fn lemma_selection_ids_len(ids: Seq<[ObservationId; 2]>, m: int)
    requires
        0 <= m,
    ensures
        selection_ids(ids, m).len() == 2 * m,
    decreases m,
{
    if m > 0 {
        lemma_selection_ids_len(ids, m - 1);
    }
}


impl Clone for ScriptedAgentFixtureScenarioSelection {
    fn clone(&self) -> (r: Self)
        ensures
            r@ == self@,
    {
        proof {
            use_type_invariant(self);
        }
        let mut scenarios: Vec<ScriptedAgentFixtureScenario> = Vec::new();
        let mut ids: Vec<[ObservationId; 2]> = Vec::new();
        let mut i: usize = 0;
        while i < self.scenarios.len()
            invariant
                i <= self.scenarios@.len(),
                self.scenarios@.len() == self.observation_ids@.len(),
                scenarios@ == self.scenarios@.subrange(0, i as int),
                ids@ == self.observation_ids@.subrange(0, i as int),
            decreases self.scenarios@.len() - i,
        {
            scenarios.push(self.scenarios[i]);
            ids.push(self.observation_ids[i]);
            i = i + 1;
            assert(scenarios@ =~= self.scenarios@.subrange(0, i as int));
            assert(ids@ =~= self.observation_ids@.subrange(0, i as int));
        }
        assert(scenarios@ =~= self.scenarios@);
        assert(ids@ =~= self.observation_ids@);
        ScriptedAgentFixtureScenarioSelection { scenarios, observation_ids: ids }
    }
}

/// Whether a list of pairs is the fixture observations of a selection.
pub open spec fn fixture_pairs(
    obs: Seq<[LanerObservation; 2]>,
    scenarios: Seq<ScriptedAgentFixtureScenario>,
    ids: Seq<[ObservationId; 2]>,
) -> bool {
    &&& obs.len() == scenarios.len()
    &&& forall|p: int|
        0 <= p < obs.len() ==> (#[trigger] obs[p])[0] == fixture_observation(scenarios[p], ids[p], 0)
            && obs[p][1] == fixture_observation(scenarios[p], ids[p], 1)
}

/// Whether a sample set is the one a selection composes with a manifest list.
pub open spec fn fixture_sample(
    s: ScriptedAgentMatchedScenarioSample,
    v: SelectionView,
    ms: Seq<ScriptedAgentExperimentManifest>,
) -> bool {
    &&& s.observer_view() == ActorId(HUMAN_LANER_ACTOR_ID)
    &&& s.samples_view().len() == v.scenarios.len()
    &&& forall|p: int|
        0 <= p < v.scenarios.len() ==> sample_for_obs(
            #[trigger] s.samples_view()[p],
            fixture_observation(v.scenarios[p], v.observation_ids[p], 0),
            fixture_observation(v.scenarios[p], v.observation_ids[p], 1),
            ms,
        )
}

/// What composing a selection's pairs with a manifest list gives: the
/// sample set, or the manifest list's batch failure.
pub open spec fn fixture_sample_result(
    r: Result<ScriptedAgentMatchedScenarioSample, ScriptedAgentMatchedScenarioSampleError>,
    v: SelectionView,
    ms: Seq<ScriptedAgentExperimentManifest>,
) -> bool {
    match r {
        Ok(s) => batch_check(ms.len()) is Ok && fixture_sample(s, v, ms),
        Err(e) => match batch_check(ms.len()) {
            Err(be) => e == ScriptedAgentMatchedScenarioSampleError::Matched(
                ScriptedAgentMatchedSampleError::Batch(be),
            ),
            Ok(_) => false,
        },
    }
}

/// Fixture pairs with distinct identities pass the pair scan of a sample set.
proof fn lemma_fixture_pairs_clean(
    obs: Seq<[LanerObservation; 2]>,
    scenarios: Seq<ScriptedAgentFixtureScenario>,
    ids: Seq<[ObservationId; 2]>,
    n: int,
)
    requires
        0 <= n <= obs.len(),
        fixture_pairs(obs, scenarios, ids),
        selection_ids(ids, n).no_duplicates(),
    ensures
        pair_scan(obs, ActorId(HUMAN_LANER_ACTOR_ID), n) is None,
        pair_ids(obs, n) == selection_ids(ids, n),
    decreases n,
{
    if n > 0 {
        lemma_selection_ids_prefix(ids, n - 1, n);
        let whole = selection_ids(ids, n);
        let prev = selection_ids(ids, n - 1);
        assert(prev.no_duplicates()) by {
            assert forall|i: int, j: int|
                0 <= i < prev.len() && 0 <= j < prev.len() && i != j implies prev[i] != prev[j] by {
                assert(prev[i] == whole[i] && prev[j] == whole[j]);
            }
        }
        lemma_fixture_pairs_clean(obs, scenarios, ids, n - 1);
        let p = obs[n - 1];
        assert(p[0].observation_id == ids[n - 1][0]);
        assert(p[1].observation_id == ids[n - 1][1]);
        lemma_selection_ids_len(ids, n - 1);
        if prev.contains(ids[n - 1][0]) {
            let k = choose|k: int| 0 <= k < prev.len() && prev[k] == ids[n - 1][0];
            assert(whole[k] == whole[prev.len() as int]);
        }
        let pp = prev.push(ids[n - 1][0]);
        if pp.contains(ids[n - 1][1]) {
            let k = choose|k: int| 0 <= k < pp.len() && #[trigger] pp[k] == ids[n - 1][1];
            assert(whole[k] == whole[prev.len() as int + 1]);
        }
    }
}

impl ScriptedAgentFixtureScenarioSelection {
    #[verifier::type_invariant]
    spec fn wf(self) -> bool {
        selection_ok(self@)
    }

    /// Build the actor-visible pairs in the selected order.
    pub fn observations(&self) -> (r: Vec<[LanerObservation; 2]>)
        ensures
            fixture_pairs(r@, self@.scenarios, self@.observation_ids),
            forall|p: int, k: int|
                0 <= p < r@.len() && 0 <= k < 2 ==> advertises_some(#[trigger] r@[p][k]),
            selection_ok(self@),
    {
        proof {
            use_type_invariant(self);
        }
        let mut out: Vec<[LanerObservation; 2]> = Vec::new();
        let mut i: usize = 0;
        while i < self.scenarios.len()
            invariant
                i <= self.scenarios@.len(),
                self.scenarios@.len() == self.observation_ids@.len(),
                out@.len() == i,
                forall|p: int|
                    0 <= p < i ==> (#[trigger] out@[p])[0] == fixture_observation(
                        self@.scenarios[p],
                        self@.observation_ids[p],
                        0,
                    ) && out@[p][1] == fixture_observation(
                        self@.scenarios[p],
                        self@.observation_ids[p],
                        1,
                    ),
                forall|p: int, k: int|
                    0 <= p < i && 0 <= k < 2 ==> advertises_some(#[trigger] out@[p][k]),
            decreases self.scenarios@.len() - i,
        {
            let pair = self.scenarios[i].observations(self.observation_ids[i]);
            out.push(pair);
            proof {
                assert forall|p: int, k: int| 0 <= p < i + 1 && 0 <= k < 2 implies advertises_some(
                    #[trigger] out@[p][k],
                ) by {
                    if p == i {
                        if k == 0 {
                        } else {
                        }
                    }
                }
            }
            i = i + 1;
        }
        out
    }

    /// Compose the generated pairs through the verified sample path.
    pub fn matched_sample(&self, manifests: &[ScriptedAgentExperimentManifest]) -> (r: Result<
        ScriptedAgentMatchedScenarioSample,
        ScriptedAgentMatchedScenarioSampleError,
    >)
        ensures
            fixture_sample_result(r, self@, manifests@),
    {
        let observations = self.observations();
        proof {
            lemma_fixture_pairs_clean(
                observations@,
                self@.scenarios,
                self@.observation_ids,
                observations@.len() as int,
            );
            assert(observations@[0][0].observer == ActorId(HUMAN_LANER_ACTOR_ID));
        }
        let r = ScriptedAgentMatchedScenarioSample::from_observations(
            observations.as_slice(),
            manifests,
        );
        proof {
            if r is Ok {
                let s = r->Ok_0;
                {
                    assert forall|p: int| 0 <= p < self@.scenarios.len() implies sample_for_obs(
                        #[trigger] s.samples_view()[p],
                        fixture_observation(self@.scenarios[p], self@.observation_ids[p], 0),
                        fixture_observation(self@.scenarios[p], self@.observation_ids[p], 1),
                        manifests@,
                    ) by {
                        assert(observations@[p][0] == fixture_observation(
                            self@.scenarios[p],
                            self@.observation_ids[p],
                            0,
                        ));
                    }
                }
            }
        }
        r
    }
}

/// A deterministic population over the closed fixture catalog, bound to a
/// caller-supplied starting observation identity.
#[derive(Clone, Debug, PartialEq, Eq, Hash)]
pub struct ScriptedAgentFixtureScenarioPopulation {
    selection: ScriptedAgentFixtureScenarioSelection,
}

/// Whether identity pairs count up from `first`: pair `i` holds
/// `first + 2i` and `first + 2i + 1`.
pub open spec fn consecutive_ids(ids: Seq<[ObservationId; 2]>, first: u64) -> bool {
    forall|i: int|
        0 <= i < ids.len() ==> (#[trigger] ids[i])[0].0 == first + 2 * i && ids[i][1].0 == first + 2
            * i + 1
}

/// Whether a population is the scenarios `scenarios` bound to identities
/// counting up from `first`.
pub open spec fn population_is(
    v: SelectionView,
    scenarios: Seq<ScriptedAgentFixtureScenario>,
    first: u64,
) -> bool {
    v.scenarios == scenarios && v.observation_ids.len() == scenarios.len() && consecutive_ids(
        v.observation_ids,
        first,
    )
}

/// Whether the identities a population of `n` pairs needs stay within `u64`.
pub open spec fn ids_fit(n: nat, first: u64) -> bool {
    first + 2 * n - 1 <= u64::MAX
}

/// Counting-up identities are all distinct.
proof fn lemma_consecutive_ids_distinct(ids: Seq<[ObservationId; 2]>, first: u64, n: int)
    requires
        0 <= n <= ids.len(),
        consecutive_ids(ids, first),
    ensures
        forall|k: int| 0 <= k < 2 * n ==> (#[trigger] selection_ids(ids, n)[k]).0 == first + k,
        selection_ids(ids, n).no_duplicates(),
    decreases n,
{
    lemma_selection_ids_len(ids, n);
    if n > 0 {
        lemma_consecutive_ids_distinct(ids, first, n - 1);
        lemma_selection_ids_len(ids, n - 1);
        let prev = selection_ids(ids, n - 1);
        let whole = selection_ids(ids, n);
        assert forall|k: int| 0 <= k < 2 * n implies (#[trigger] whole[k]).0 == first + k by {
            if k < 2 * (n - 1) {
                assert(whole[k] == prev[k]);
            }
        }
    }
    let whole = selection_ids(ids, n);
    assert forall|i: int, j: int| 0 <= i < whole.len() && 0 <= j < whole.len() && i != j implies whole[i]
        != whole[j] by {
        assert(whole[i].0 == first + i);
        assert(whole[j].0 == first + j);
    }
}

impl ScriptedAgentFixtureScenarioPopulation {
    /// Generate an alternating safe/threat population from a starting identity.
    pub fn generate(count: usize, first_observation_id: u64) -> (r: Result<
        Self,
        ScriptedAgentFixturePopulationError,
    >)
        ensures
            match r {
                Ok(p) => 1 <= count <= MAX_SCRIPTED_AGENT_FIXTURE_SCENARIOS && ids_fit(
                    count as nat,
                    first_observation_id,
                ) && population_is(
                    p.selection_view(),
                    Seq::new(
                        count as nat,
                        |i: int|
                            if i % 2 == 0 {
                                ScriptedAgentFixtureScenario::Safe
                            } else {
                                ScriptedAgentFixtureScenario::RiverSideThreat
                            },
                    ),
                    first_observation_id,
                ),
                Err(e) => if count == 0 {
                    e == ScriptedAgentFixturePopulationError::EmptyPopulation
                } else if count > MAX_SCRIPTED_AGENT_FIXTURE_SCENARIOS {
                    e == ScriptedAgentFixturePopulationError::PopulationTooLarge {
                        max: MAX_SCRIPTED_AGENT_FIXTURE_SCENARIOS,
                        actual: count,
                    }
                } else {
                    !ids_fit(count as nat, first_observation_id) && e
                        == ScriptedAgentFixturePopulationError::ObservationIdOverflow
                },
            },
    {
        if count == 0 {
            return Err(ScriptedAgentFixturePopulationError::EmptyPopulation);
        }
        if count > MAX_SCRIPTED_AGENT_FIXTURE_SCENARIOS {
            return Err(
                ScriptedAgentFixturePopulationError::PopulationTooLarge {
                    max: MAX_SCRIPTED_AGENT_FIXTURE_SCENARIOS,
                    actual: count,
                },
            );
        }
        let mut scenario_ids: Vec<&str> = Vec::new();
        let mut index: usize = 0;
        while index < count
            invariant
                index <= count <= MAX_SCRIPTED_AGENT_FIXTURE_SCENARIOS,
                scenario_ids@.len() == index,
                forall|i: int|
                    0 <= i < index ==> scenario_from_id((#[trigger] scenario_ids@[i])@) == Some(
                        if i % 2 == 0 {
                            ScriptedAgentFixtureScenario::Safe
                        } else {
                            ScriptedAgentFixtureScenario::RiverSideThreat
                        },
                    ),
            decreases count - index,
        {
            proof {
                lemma_scenario_id_round_trip(ScriptedAgentFixtureScenario::Safe);
                lemma_scenario_id_round_trip(ScriptedAgentFixtureScenario::RiverSideThreat);
            }
            scenario_ids.push(
                if index % 2 == 0 {
                    SCRIPTED_AGENT_SAFE_FIXTURE_SCENARIO_ID
                } else {
                    SCRIPTED_AGENT_RIVER_SIDE_FIXTURE_SCENARIO_ID
                },
            );
            index = index + 1;
        }
        let r = Self::generate_from_scenario_ids(scenario_ids.as_slice(), first_observation_id);
        proof {
            assert(all_known(scenario_ids@));
            if r is Ok {
                let p = r->Ok_0;
                {
                    assert(p.selection_view().scenarios =~= Seq::new(
                        count as nat,
                        |i: int|
                            if i % 2 == 0 {
                                ScriptedAgentFixtureScenario::Safe
                            } else {
                                ScriptedAgentFixtureScenario::RiverSideThreat
                            },
                    ));
                }
            }
        }
        r
    }

    /// Generate a caller-declared ordered composition from the closed catalog.
    pub fn generate_from_scenario_ids(scenario_ids: &[&str], first_observation_id: u64) -> (r:
        Result<Self, ScriptedAgentFixturePopulationError>)
        ensures
            match r {
                Ok(p) => 1 <= scenario_ids@.len() <= MAX_SCRIPTED_AGENT_FIXTURE_SCENARIOS
                    && all_known(scenario_ids@) && ids_fit(
                    scenario_ids@.len(),
                    first_observation_id,
                ) && population_is(
                    p.selection_view(),
                    Seq::new(scenario_ids@.len(), |i: int| scenario_from_id(scenario_ids@[i]@)->0),
                    first_observation_id,
                ),
                Err(e) => if scenario_ids@.len() == 0 {
                    e == ScriptedAgentFixturePopulationError::EmptyPopulation
                } else if scenario_ids@.len() > MAX_SCRIPTED_AGENT_FIXTURE_SCENARIOS {
                    e == ScriptedAgentFixturePopulationError::PopulationTooLarge {
                        max: MAX_SCRIPTED_AGENT_FIXTURE_SCENARIOS,
                        actual: scenario_ids@.len() as usize,
                    }
                } else if !all_known(scenario_ids@) {
                    e == ScriptedAgentFixturePopulationError::InvalidSelection(
                        ScriptedAgentFixtureScenarioSelectionError::UnknownScenario,
                    )
                } else {
                    !ids_fit(scenario_ids@.len(), first_observation_id) && e
                        == ScriptedAgentFixturePopulationError::ObservationIdOverflow
                },
            },
    {
        if scenario_ids.len() == 0 {
            return Err(ScriptedAgentFixturePopulationError::EmptyPopulation);
        }
        if scenario_ids.len() > MAX_SCRIPTED_AGENT_FIXTURE_SCENARIOS {
            return Err(
                ScriptedAgentFixturePopulationError::PopulationTooLarge {
                    max: MAX_SCRIPTED_AGENT_FIXTURE_SCENARIOS,
                    actual: scenario_ids.len(),
                },
            );
        }
        let mut i: usize = 0;
        while i < scenario_ids.len()
            invariant
                i <= scenario_ids@.len(),
                1 <= scenario_ids@.len() <= MAX_SCRIPTED_AGENT_FIXTURE_SCENARIOS,
                forall|k: int| 0 <= k < i ==> (#[trigger] scenario_from_id(scenario_ids@[k]@)) is Some,
            decreases scenario_ids@.len() - i,
        {
            match ScriptedAgentFixtureScenario::parse_id(scenario_ids[i]) {
                Ok(_) => {},
                Err(e) => {
                    assert(scenario_from_id(scenario_ids@[i as int]@) is None);
                    return Err(ScriptedAgentFixturePopulationError::InvalidSelection(e));
                },
            }
            i = i + 1;
        }
        let n = scenario_ids.len();
        let mut observation_ids: Vec<[ObservationId; 2]> = Vec::new();
        let mut index: usize = 0;
        while index < n
            invariant
                index <= n <= MAX_SCRIPTED_AGENT_FIXTURE_SCENARIOS,
                1 <= n,
                n == scenario_ids@.len(),
                all_known(scenario_ids@),
                observation_ids@.len() == index,
                forall|k: int|
                    0 <= k < index ==> (#[trigger] observation_ids@[k])[0].0 == first_observation_id
                        + 2 * k && observation_ids@[k][1].0 == first_observation_id + 2 * k + 1,
                index > 0 ==> first_observation_id + 2 * (index - 1) + 1 <= u64::MAX,
            decreases n - index,
        {
            let offset = (index * 2) as u64;
            let first = match first_observation_id.checked_add(offset) {
                Some(v) => v,
                None => {
                    return Err(ScriptedAgentFixturePopulationError::ObservationIdOverflow);
                },
            };
            let second = match first.checked_add(1) {
                Some(v) => v,
                None => {
                    return Err(ScriptedAgentFixturePopulationError::ObservationIdOverflow);
                },
            };
            observation_ids.push([ObservationId(first), ObservationId(second)]);
            index = index + 1;
        }
        proof {
            if n > 0 {
                assert(first_observation_id + 2 * (n - 1) + 1 <= u64::MAX);
            }
            lemma_consecutive_ids_distinct(observation_ids@, first_observation_id, n as int);
        }
        let selection = match ScriptedAgentFixtureScenarioSelection::from_ids(
            scenario_ids,
            observation_ids.as_slice(),
        ) {
            Ok(s) => s,
            Err(e) => {
                return Err(ScriptedAgentFixturePopulationError::InvalidSelection(e));
            },
        };
        Ok(ScriptedAgentFixtureScenarioPopulation { selection })
    }

    /// The selection of the population.
    pub closed spec fn selection_view(self) -> SelectionView {
        self.selection@
    }

    pub fn schema(&self) -> (r: &'static str)
        ensures
            r@ == SCRIPTED_AGENT_FIXTURE_POPULATION_SCHEMA@,
    {
        SCRIPTED_AGENT_FIXTURE_POPULATION_SCHEMA
    }

    pub fn selection(&self) -> (r: &ScriptedAgentFixtureScenarioSelection)
        ensures
            r@ == self.selection_view(),
    {
        &self.selection
    }

    pub fn scenarios(&self) -> (r: &[ScriptedAgentFixtureScenario])
        ensures
            r@ == self.selection_view().scenarios,
    {
        self.selection.scenarios()
    }

    pub fn observation_ids(&self) -> (r: &[[ObservationId; 2]])
        ensures
            r@ == self.selection_view().observation_ids,
    {
        self.selection.observation_ids()
    }

    pub fn observations(&self) -> (r: Vec<[LanerObservation; 2]>)
        ensures
            fixture_pairs(r@, self.selection_view().scenarios, self.selection_view().observation_ids),
    {
        self.selection.observations()
    }

    pub fn matched_sample(&self, manifests: &[ScriptedAgentExperimentManifest]) -> (r: Result<
        ScriptedAgentMatchedScenarioSample,
        ScriptedAgentMatchedScenarioSampleError,
    >)
        ensures
            fixture_sample_result(r, self.selection_view(), manifests@),
    {
        self.selection.matched_sample(manifests)
    }

    /// Aggregate the population's verified sample without rerunning policy evaluation.
    pub fn matched_tally(&self, manifests: &[ScriptedAgentExperimentManifest]) -> (r: Result<
        ScriptedAgentMatchedScenarioTallyReport,
        ScriptedAgentMatchedScenarioSampleError,
    >)
        ensures
            match r {
                Ok(t) => batch_check(manifests@.len()) is Ok && exists|s: ScriptedAgentMatchedScenarioSample|
                    fixture_sample(s, self.selection_view(), manifests@) && t@ == tally_report_of(s),
                Err(e) => match batch_check(manifests@.len()) {
                    Err(be) => e == ScriptedAgentMatchedScenarioSampleError::Matched(
                        ScriptedAgentMatchedSampleError::Batch(be),
                    ),
                    Ok(_) => false,
                },
            },
    {
        let sample = self.matched_sample(manifests)?;
        let t = ScriptedAgentMatchedScenarioTallyReport::from_sample(&sample);
        Ok(t)
    }
}


/// Versioned identity for the bounded scenario-frequency report.
pub const SCRIPTED_AGENT_FIXTURE_SCENARIO_FREQUENCY_SCHEMA: &'static str =
    "m6-scripted-agent-fixture-frequency-v1";

/// Maximum encoded scenario-frequency size.
pub const MAX_SCRIPTED_AGENT_FIXTURE_SCENARIO_FREQUENCY_BYTES: usize = 4096;

/// Versioned identity for bounded fixed-fixture frequency baseline comparisons.
pub const SCRIPTED_AGENT_FIXTURE_SCENARIO_FREQUENCY_COMPARISON_SCHEMA: &'static str =
    "m6-scripted-agent-fixture-frequency-compare-v1";

/// Stable identity for the fixed-fixture no-change regression gate.
pub const SCRIPTED_AGENT_FIXTURE_SCENARIO_FREQUENCY_REGRESSION_RULE: &'static str =
    "m6-fixed-frequency-no-change-v1";

/// How many times a scenario occurs among the first `n` of a list.
pub open spec fn scenario_count(s: Seq<ScriptedAgentFixtureScenario>, x: ScriptedAgentFixtureScenario, n: int) -> nat
    decreases n,
{
    if n <= 0 {
        0
    } else {
        scenario_count(s, x, n - 1) + (if s[n - 1] == x {
            1nat
        } else {
            0nat
        })
    }
}

/// The two scenario counts of a list add up to its length.
pub proof fn lemma_scenario_counts_total(s: Seq<ScriptedAgentFixtureScenario>, n: int)
    requires
        0 <= n,
    ensures
        scenario_count(s, ScriptedAgentFixtureScenario::Safe, n) + scenario_count(
            s,
            ScriptedAgentFixtureScenario::RiverSideThreat,
            n,
        ) == n,
    decreases n,
{
    if n > 0 {
        lemma_scenario_counts_total(s, n - 1);
    }
}

/// One closed fixture-scenario frequency row.
#[derive(Clone, Copy, Debug, PartialEq, Eq, Hash, Structural)]
pub struct ScriptedAgentFixtureScenarioFrequencyEntry {
    pub scenario: ScriptedAgentFixtureScenario,
    pub count: u8,
}

impl ScriptedAgentFixtureScenarioFrequencyEntry {
    pub fn scenario_id(self) -> (r: &'static str)
        ensures
            r@ == scenario_id_of(self.scenario),
    {
        self.scenario.id()
    }

    pub fn count(self) -> (r: u8)
        ensures
            r == self.count,
    {
        self.count
    }
}

/// Bounded frequency evidence over one validated fixed-fixture selection.
#[derive(Debug, PartialEq, Eq, Hash)]
pub struct ScriptedAgentFixtureScenarioFrequencyReport {
    selection_count: u8,
    entries: [ScriptedAgentFixtureScenarioFrequencyEntry; 2],
}

/// The content of a frequency report: the selection size and the safe and
/// river-side counts.
pub struct FrequencyView {
    pub selection_count: u8,
    pub safe_count: u8,
    pub river_side_count: u8,
}

impl View for ScriptedAgentFixtureScenarioFrequencyReport {
    type V = FrequencyView;

    closed spec fn view(&self) -> FrequencyView {
        FrequencyView {
            selection_count: self.selection_count,
            safe_count: self.entries[0].count,
            river_side_count: self.entries[1].count,
        }
    }
}

/// Whether a frequency report is consistent: one to four selections, split
/// between the two scenarios.
pub open spec fn frequency_ok(v: FrequencyView) -> bool {
    1 <= v.selection_count <= MAX_SCRIPTED_AGENT_FIXTURE_SCENARIOS && v.safe_count
        + v.river_side_count == v.selection_count
}

/// The frequency report of a selection.
pub open spec fn frequency_of(v: SelectionView) -> FrequencyView {
    FrequencyView {
        selection_count: v.scenarios.len() as u8,
        safe_count: scenario_count(v.scenarios, ScriptedAgentFixtureScenario::Safe, v.scenarios.len() as int) as u8,
        river_side_count: scenario_count(
            v.scenarios,
            ScriptedAgentFixtureScenario::RiverSideThreat,
            v.scenarios.len() as int,
        ) as u8,
    }
}

/// The `[safe, river-side]` basis-point shares: a floor share for the first
/// row and the remainder to 10,000 for the second.
pub open spec fn frequency_shares(v: FrequencyView) -> Seq<u16> {
    let first = (v.safe_count as int * 10000) / (v.selection_count as int);
    seq![first as u16, (10000 - first) as u16]
}

/// The canonical text of a frequency report.
pub open spec fn frequency_text(v: FrequencyView) -> Seq<char> {
    "schema="@ + SCRIPTED_AGENT_FIXTURE_SCENARIO_FREQUENCY_SCHEMA@ + "\nselection_count="@ + decimal(
        v.selection_count as nat,
    ) + "\nentries=2\nrow="@ + SCRIPTED_AGENT_SAFE_FIXTURE_SCENARIO_ID@ + "|"@ + decimal(
        v.safe_count as nat,
    ) + "\nrow="@ + SCRIPTED_AGENT_RIVER_SIDE_FIXTURE_SCENARIO_ID@ + "|"@ + decimal(
        v.river_side_count as nat,
    ) + "\n"@
}

/// The Markdown summary of a frequency report.
pub open spec fn frequency_markdown(v: FrequencyView) -> Seq<char> {
    "# Scenario Frequency\n\n- schema: "@ + SCRIPTED_AGENT_FIXTURE_SCENARIO_FREQUENCY_SCHEMA@
        + "\n- selection_count: "@ + decimal(v.selection_count as nat)
        + "\n\n| scenario_id | count |\n| --- | ---: |\n| "@
        + SCRIPTED_AGENT_SAFE_FIXTURE_SCENARIO_ID@ + " | "@ + decimal(v.safe_count as nat)
        + " |\n| "@ + SCRIPTED_AGENT_RIVER_SIDE_FIXTURE_SCENARIO_ID@ + " | "@ + decimal(
        v.river_side_count as nat,
    ) + " |\n"@
}

/// The Markdown distribution projection of a frequency report.
pub open spec fn frequency_distribution_markdown(v: FrequencyView) -> Seq<char> {
    let d = frequency_shares(v);
    "# Scenario Distribution\n\n- schema: "@ + SCRIPTED_AGENT_FIXTURE_SCENARIO_FREQUENCY_SCHEMA@
        + "\n- selection_count: "@ + decimal(v.selection_count as nat)
        + "\n- share_scale_basis_points: "@ + decimal(10000)
        + "\n\n| scenario_id | count | share_basis_points |\n| --- | ---: | ---: |\n| "@
        + SCRIPTED_AGENT_SAFE_FIXTURE_SCENARIO_ID@ + " | "@ + decimal(v.safe_count as nat) + " | "@
        + decimal(d[0] as nat) + " |\n| "@ + SCRIPTED_AGENT_RIVER_SIDE_FIXTURE_SCENARIO_ID@ + " | "@
        + decimal(v.river_side_count as nat) + " | "@ + decimal(d[1] as nat) + " |\n"@
}

/// Bounded failures from the scenario-frequency codec.
#[derive(Clone, Copy, Debug, PartialEq, Eq, Hash, Structural)]
pub enum ScriptedAgentFixtureScenarioFrequencyCodecError {
    Oversized,
    UnexpectedLineCount { expected: usize, actual: usize },
    UnknownField,
    DuplicateField,
    MissingField,
    UnsupportedSchema,
    InvalidValue,
    InputMismatch,
}

/// The keys of a frequency record.
pub open spec fn frequency_keys() -> Seq<Seq<char>> {
    seq!["schema"@, "selection_count"@, "entries"@, "row"@]
}

/// The number in the single value of key `k`: missing, invalid, or the value.
pub open spec fn frequency_slot_number(
    s: Seq<char>,
    slots: Seq<Seq<(int, int)>>,
    k: int,
    max: nat,
) -> Result<nat, ScriptedAgentFixtureScenarioFrequencyCodecError> {
    match single_value(slots, k) {
        None => Err(ScriptedAgentFixtureScenarioFrequencyCodecError::MissingField),
        Some(r) => match parse_bounded(s, r.0, r.1, max) {
            None => Err(ScriptedAgentFixtureScenarioFrequencyCodecError::InvalidValue),
            Some(v) => Ok(v),
        },
    }
}

/// The count row `id|count` in `s[r.0..r.1)` for the scenario with identity `id`.
pub open spec fn frequency_row_count(s: Seq<char>, r: (int, int), id: Seq<char>) -> Option<nat> {
    let f = split_from(s, '|', r.0, r.1);
    if f.len() != 2 || s.subrange(f[0].0, f[0].1) != id {
        None
    } else {
        parse_bounded(s, f[1].0, f[1].1, 255)
    }
}

/// What decoding a frequency text of `byte_len` bytes gives, before
/// comparing it with a verified report.
pub open spec fn frequency_decode(s: Seq<char>, byte_len: nat) -> Result<
    FrequencyView,
    ScriptedAgentFixtureScenarioFrequencyCodecError,
> {
    let lines = line_ranges(s);
    if byte_len > MAX_SCRIPTED_AGENT_FIXTURE_SCENARIO_FREQUENCY_BYTES {
        Err(ScriptedAgentFixtureScenarioFrequencyCodecError::Oversized)
    } else {
        match field_scan(s, lines, frequency_keys(), seq![false, false, false, true], lines.len()) {
            FieldScan::Invalid => Err(ScriptedAgentFixtureScenarioFrequencyCodecError::InvalidValue),
            FieldScan::Unknown => Err(ScriptedAgentFixtureScenarioFrequencyCodecError::UnknownField),
            FieldScan::Duplicate => Err(
                ScriptedAgentFixtureScenarioFrequencyCodecError::DuplicateField,
            ),
            FieldScan::Fine(slots) => if slot_text(s, slots, 0) != Some(
                SCRIPTED_AGENT_FIXTURE_SCENARIO_FREQUENCY_SCHEMA@,
            ) {
                Err(ScriptedAgentFixtureScenarioFrequencyCodecError::UnsupportedSchema)
            } else {
                match frequency_slot_number(s, slots, 1, 255) {
                    Err(e) => Err(e),
                    Ok(n) => if !(1 <= n <= MAX_SCRIPTED_AGENT_FIXTURE_SCENARIOS) {
                        Err(ScriptedAgentFixtureScenarioFrequencyCodecError::InvalidValue)
                    } else {
                        match frequency_slot_number(s, slots, 2, usize::MAX as nat) {
                            Err(e) => Err(e),
                            Ok(m) => if m != 2 {
                                Err(ScriptedAgentFixtureScenarioFrequencyCodecError::InvalidValue)
                            } else if lines.len() != 5 || slots[3].len() != 2 {
                                Err(
                                    ScriptedAgentFixtureScenarioFrequencyCodecError::UnexpectedLineCount {
                                        expected: 5,
                                        actual: lines.len() as usize,
                                    },
                                )
                            } else {
                                match (
                                    frequency_row_count(
                                        s,
                                        slots[3][0],
                                        SCRIPTED_AGENT_SAFE_FIXTURE_SCENARIO_ID@,
                                    ),
                                    frequency_row_count(
                                        s,
                                        slots[3][1],
                                        SCRIPTED_AGENT_RIVER_SIDE_FIXTURE_SCENARIO_ID@,
                                    ),
                                ) {
                                    (Some(a), Some(b)) => if a + b != n {
                                        Err(
                                            ScriptedAgentFixtureScenarioFrequencyCodecError::InvalidValue,
                                        )
                                    } else {
                                        Ok(
                                            FrequencyView {
                                                selection_count: n as u8,
                                                safe_count: a as u8,
                                                river_side_count: b as u8,
                                            },
                                        )
                                    },
                                    _ => Err(
                                        ScriptedAgentFixtureScenarioFrequencyCodecError::InvalidValue,
                                    ),
                                }
                            },
                        }
                    },
                }
            },
        }
    }
}

/// One count row of a frequency report: the scenario identity, `|`, the count.
spec fn frequency_row_text(id: Seq<char>, count: u8) -> Seq<char> {
    id + seq!['|'] + decimal(count as nat)
}

/// The value of each line of a frequency report's text.
spec fn frequency_vals(v: FrequencyView) -> Seq<Seq<char>> {
    seq![
        SCRIPTED_AGENT_FIXTURE_SCENARIO_FREQUENCY_SCHEMA@,
        decimal(v.selection_count as nat),
        decimal(2),
        frequency_row_text(SCRIPTED_AGENT_SAFE_FIXTURE_SCENARIO_ID@, v.safe_count),
        frequency_row_text(SCRIPTED_AGENT_RIVER_SIDE_FIXTURE_SCENARIO_ID@, v.river_side_count),
    ]
}

/// The key of each line of a frequency report's text.
spec fn frequency_line_keys() -> Seq<int> {
    seq![0, 1, 2, 3, 3]
}

/// The lines of a frequency report's text.
spec fn frequency_lines(v: FrequencyView) -> Seq<Seq<char>> {
    let keys = frequency_keys();
    let vals = frequency_vals(v);
    let lk = frequency_line_keys();
    Seq::new(5, |i: int| pair_line(keys[lk[i]], vals[i]))
}

/// A frequency report's text is its five lines, each ended by a line break.
#[verifier::spinoff_prover]
#[verifier::rlimit(40)]
proof fn lemma_frequency_text_lines(v: FrequencyView)
    ensures
        frequency_text(v) == joined_lines(frequency_lines(v)),
{
    reveal_strlit("schema=");
    reveal_strlit("\nselection_count=");
    reveal_strlit("\nentries=2\nrow=");
    reveal_strlit("|");
    reveal_strlit("\nrow=");
    reveal_strlit("\n");
    reveal_strlit("schema");
    reveal_strlit("selection_count");
    reveal_strlit("entries");
    reveal_strlit("row");
    let h = frequency_lines(v);
    let e = Seq::<Seq<char>>::empty();
    assert(decimal(2) =~= seq!['2']);
    assert(joined_lines(e) == Seq::<char>::empty());
    lemma_joined_lines_push(e, h[0]);
    lemma_joined_lines_push(e.push(h[0]), h[1]);
    lemma_joined_lines_push(e.push(h[0]).push(h[1]), h[2]);
    lemma_joined_lines_push(e.push(h[0]).push(h[1]).push(h[2]), h[3]);
    lemma_joined_lines_push(e.push(h[0]).push(h[1]).push(h[2]).push(h[3]), h[4]);
    assert(e.push(h[0]).push(h[1]).push(h[2]).push(h[3]).push(h[4]) =~= h);
    assert(frequency_text(v) =~= joined_lines(h));
}

/// A count row splits back into its identity and the count it was written with.
proof fn lemma_frequency_row_parse_back(s: Seq<char>, r: (int, int), id: Seq<char>, count: u8)
    requires
        0 <= r.0 <= r.1 <= s.len(),
        s.subrange(r.0, r.1) == frequency_row_text(id, count),
        plain_field(id),
    ensures
        frequency_row_count(s, r, id) == Some(count as nat),
{
    let fs = seq![id, decimal(count as nat)];
    lemma_decimal_plain(count as nat);
    assert(seq![id].push(decimal(count as nat)) =~= fs);
    lemma_joined_fields_push(seq![id], decimal(count as nat));
    assert(joined_fields(seq![id]) == id);
    assert(plain_field(fs[1]));
    lemma_split_joined(s, r.0, r.1, fs);
    let f = split_from(s, '|', r.0, r.1);
    assert(s.subrange(f[1].0, f[1].1) == decimal(count as nat));
    lemma_parse_decimal(s, f[1].0, count as nat, 255);
}

/// The value ranges of each key in a frequency report's text.
spec fn frequency_slots(v: FrequencyView) -> Seq<Seq<(int, int)>> {
    pair_slots(line_spans(frequency_lines(v), 0), frequency_line_keys(), frequency_keys(), 5)
}

/// Each line of a frequency report's text is a plain `key=value` pair with a
/// non-empty value.
proof fn lemma_frequency_lines_plain(v: FrequencyView)
    ensures
        forall|i: int|
            0 <= i < 5 ==> plain_line(#[trigger] frequency_lines(v)[i]) && frequency_vals(v)[i].len()
                > 0,
{
    reveal_strlit("schema");
    reveal_strlit("selection_count");
    reveal_strlit("entries");
    reveal_strlit("row");
    reveal_strlit("m6-scripted-agent-fixture-frequency-v1");
    reveal_strlit("safe-fixture-v1");
    reveal_strlit("river-side-threat-v1");
    let ls = frequency_lines(v);
    let keys = frequency_keys();
    let vals = frequency_vals(v);
    let line_keys = frequency_line_keys();
    lemma_decimal_plain(v.selection_count as nat);
    lemma_decimal_plain(v.safe_count as nat);
    lemma_decimal_plain(v.river_side_count as nat);
    lemma_decimal_plain(2);
    let safe_id = SCRIPTED_AGENT_SAFE_FIXTURE_SCENARIO_ID@;
    let river_id = SCRIPTED_AGENT_RIVER_SIDE_FIXTURE_SCENARIO_ID@;
    assert(plain_line(safe_id));
    assert(plain_line(river_id));
    assert forall|i: int| 0 <= i < 5 implies plain_line(#[trigger] vals[i]) && vals[i].len() > 0 by {
        if i == 3 || i == 4 {
            let id = if i == 3 {
                safe_id
            } else {
                river_id
            };
            let c = if i == 3 {
                v.safe_count
            } else {
                v.river_side_count
            };
            let t = frequency_row_text(id, c);
            assert forall|k: int| 0 <= k < t.len() implies #[trigger] t[k] != '\n' && t[k] != '\r' by {
                if k < id.len() {
                    assert(t[k] == id[k]);
                } else if k > id.len() {
                    assert(t[k] == decimal(c as nat)[k - id.len() - 1]);
                }
            }
        }
    }
    assert forall|i: int| 0 <= i < 5 implies plain_line(#[trigger] ls[i]) by {
        let l = ls[i];
        let key = keys[line_keys[i]];
        assert(l == pair_line(key, vals[i]));
        assert(plain_line(vals[i]));
        assert forall|k: int| 0 <= k < l.len() implies #[trigger] l[k] != '\n' && l[k] != '\r' by {
            if k < key.len() {
                assert(l[k] == key[k]);
            } else if k > key.len() {
                assert(l[k] == vals[i][k - key.len() - 1]);
            }
        }
    }
}

/// Scanning a frequency report's text finds its five lines, one value for each
/// of the three header keys and the two count rows in order.
#[verifier::spinoff_prover]
#[verifier::rlimit(100)]
proof fn lemma_frequency_layout(v: FrequencyView)
    ensures
        line_ranges(frequency_text(v)).len() == 5,
        field_scan(
            frequency_text(v),
            line_ranges(frequency_text(v)),
            frequency_keys(),
            seq![false, false, false, true],
            5,
        ) == FieldScan::Fine(frequency_slots(v)),
        frequency_slots(v).len() == 4,
        frequency_slots(v)[3].len() == 2,
        forall|k: int|
            0 <= k < 3 ==> (#[trigger] frequency_slots(v)[k]).len() == 1 && 0
                <= frequency_slots(v)[k][0].0 <= frequency_slots(v)[k][0].1
                <= frequency_text(v).len() && frequency_text(v).subrange(
                frequency_slots(v)[k][0].0,
                frequency_slots(v)[k][0].1,
            ) == frequency_vals(v)[k],
        forall|j: int|
            0 <= j < 2 ==> 0 <= (#[trigger] frequency_slots(v)[3][j]).0
                <= frequency_slots(v)[3][j].1 <= frequency_text(v).len() && frequency_text(
                v,
            ).subrange(frequency_slots(v)[3][j].0, frequency_slots(v)[3][j].1) == frequency_vals(
                v,
            )[j + 3],
{
    let text = frequency_text(v);
    let ls = frequency_lines(v);
    let keys = frequency_keys();
    let vals = frequency_vals(v);
    let line_keys = frequency_line_keys();
    reveal_strlit("schema");
    reveal_strlit("selection_count");
    reveal_strlit("entries");
    reveal_strlit("row");
    lemma_frequency_text_lines(v);
    lemma_frequency_lines_plain(v);
    assert(text.subrange(0, text.len() as int) =~= text);
    lemma_lines_of_joined(text, 0, ls);
    let spans = line_spans(ls, 0);
    assert(line_ranges(text) == spans);
    assert forall|x: int, y: int| 0 <= x < 4 && 0 <= y < 4 && x != y implies keys[x] != keys[y] by {
        assert(keys[x].len() != keys[y].len());
    }
    assert forall|i: int| 0 <= i < 5 implies #[trigger] is_pair_at(
        text,
        spans,
        line_keys,
        vals,
        keys,
        i,
    ) by {
        let sp = line_spans(ls, 0)[i];
        assert(0 <= sp.0 <= sp.1 <= text.len() && text.subrange(sp.0, sp.1) == ls[i]);
        let key = keys[line_keys[i]];
        assert(key.len() > 0);
        assert forall|k: int| 0 <= k < key.len() implies #[trigger] key[k] != '=' by {}
    }
    let repeatable = seq![false, false, false, true];
    lemma_pair_scan(text, spans, keys, repeatable, line_keys, vals, 5);
    lemma_pair_slots_headers_then_rows(spans, line_keys, keys, 3, 5);
    let slots = pair_slots(spans, line_keys, keys, 5);
    assert(spans.len() == 5);
    assert forall|k: int| 0 <= k < 3 implies (#[trigger] slots[k]).len() == 1 && 0 <= slots[k][0].0
        <= slots[k][0].1 <= text.len() && text.subrange(slots[k][0].0, slots[k][0].1)
        == vals[k] by {
        lemma_pair_split_at(text, spans, line_keys, vals, keys, k);
    }
    assert forall|j: int| 0 <= j < 2 implies 0 <= (#[trigger] slots[3][j]).0 <= slots[3][j].1
        <= text.len() && text.subrange(slots[3][j].0, slots[3][j].1) == vals[j + 3] by {
        lemma_pair_split_at(text, spans, line_keys, vals, keys, j + 3);
    }
}

/// Reading back the text of a valid frequency report gives the same report.
#[verifier::spinoff_prover]
#[verifier::rlimit(100)]
pub proof fn lemma_frequency_round_trip(v: FrequencyView, byte_len: nat)
    requires
        frequency_ok(v),
        byte_len <= MAX_SCRIPTED_AGENT_FIXTURE_SCENARIO_FREQUENCY_BYTES,
    ensures
        frequency_decode(frequency_text(v), byte_len) == Ok::<
            FrequencyView,
            ScriptedAgentFixtureScenarioFrequencyCodecError,
        >(v),
{
    let text = frequency_text(v);
    let vals = frequency_vals(v);
    let slots = frequency_slots(v);
    reveal_strlit("safe-fixture-v1");
    reveal_strlit("river-side-threat-v1");
    lemma_frequency_layout(v);
    assert(slot_text(text, slots, 0) == Some(SCRIPTED_AGENT_FIXTURE_SCENARIO_FREQUENCY_SCHEMA@));
    assert(slots[1].len() == 1 && slots[2].len() == 1);
    lemma_parse_decimal(text, slots[1][0].0, v.selection_count as nat, 255);
    lemma_parse_decimal(text, slots[2][0].0, 2, usize::MAX as nat);
    let safe_id = SCRIPTED_AGENT_SAFE_FIXTURE_SCENARIO_ID@;
    let river_id = SCRIPTED_AGENT_RIVER_SIDE_FIXTURE_SCENARIO_ID@;
    assert(plain_field(safe_id));
    assert(plain_field(river_id));
    let r0 = slots[3][0];
    let r1 = slots[3][1];
    assert(text.subrange(r0.0, r0.1) == vals[3]);
    assert(text.subrange(r1.0, r1.1) == vals[4]);
    lemma_frequency_row_parse_back(text, r0, safe_id, v.safe_count);
    lemma_frequency_row_parse_back(text, r1, river_id, v.river_side_count);
}

/// The text of a valid frequency report is ASCII, fits the size cap, and any
/// input holding it decodes back to that report.
pub proof fn lemma_frequency_text_reads_back(v: FrequencyView)
    requires
        frequency_ok(v),
    ensures
        is_ascii_chars(frequency_text(v)),
        frequency_text(v).len() <= MAX_SCRIPTED_AGENT_FIXTURE_SCENARIO_FREQUENCY_BYTES,
        encode_utf8(frequency_text(v)).len() == frequency_text(v).len(),
        frequency_decode(frequency_text(v), encode_utf8(frequency_text(v)).len()) == Ok::<
            FrequencyView,
            ScriptedAgentFixtureScenarioFrequencyCodecError,
        >(v),
{
    reveal_strlit("schema");
    reveal_strlit("selection_count");
    reveal_strlit("entries");
    reveal_strlit("row");
    reveal_strlit("m6-scripted-agent-fixture-frequency-v1");
    reveal_strlit("safe-fixture-v1");
    reveal_strlit("river-side-threat-v1");
    let ls = frequency_lines(v);
    let keys = frequency_keys();
    let vals = frequency_vals(v);
    let lk = frequency_line_keys();
    lemma_frequency_text_lines(v);
    lemma_decimal_u8(v.selection_count as nat);
    lemma_decimal_u8(v.safe_count as nat);
    lemma_decimal_u8(v.river_side_count as nat);
    lemma_decimal_u8(2);
    assert(is_ascii_chars(seq!['|']));
    assert(is_ascii_chars(seq!['=']));
    assert(is_ascii_chars(SCRIPTED_AGENT_FIXTURE_SCENARIO_FREQUENCY_SCHEMA@));
    assert(is_ascii_chars(SCRIPTED_AGENT_SAFE_FIXTURE_SCENARIO_ID@));
    assert(is_ascii_chars(SCRIPTED_AGENT_RIVER_SIDE_FIXTURE_SCENARIO_ID@));
    assert forall|k: int| 0 <= k < 4 implies is_ascii_chars(#[trigger] keys[k]) && keys[k].len()
        <= 15 by {}
    lemma_ascii_concat(SCRIPTED_AGENT_SAFE_FIXTURE_SCENARIO_ID@, seq!['|']);
    lemma_ascii_concat(
        SCRIPTED_AGENT_SAFE_FIXTURE_SCENARIO_ID@ + seq!['|'],
        decimal(v.safe_count as nat),
    );
    lemma_ascii_concat(SCRIPTED_AGENT_RIVER_SIDE_FIXTURE_SCENARIO_ID@, seq!['|']);
    lemma_ascii_concat(
        SCRIPTED_AGENT_RIVER_SIDE_FIXTURE_SCENARIO_ID@ + seq!['|'],
        decimal(v.river_side_count as nat),
    );
    assert forall|i: int| 0 <= i < 5 implies is_ascii_chars(#[trigger] vals[i]) && vals[i].len()
        <= 40 by {}
    assert forall|i: int| 0 <= i < 5 implies is_ascii_chars(#[trigger] ls[i]) && ls[i].len()
        <= 56 by {
        let key = keys[lk[i]];
        assert(ls[i] == key + seq!['='] + vals[i]);
        lemma_ascii_concat(key, seq!['=']);
        lemma_ascii_concat(key + seq!['='], vals[i]);
    }
    lemma_joined_lines_ascii(ls, 56);
    lemma_ascii_byte_len(frequency_text(v));
    lemma_frequency_round_trip(v, frequency_text(v).len());
}

/// The number in the single value of slot `k`.
fn read_frequency_number(
    s: &Vec<char>,
    slots: &Vec<Vec<(usize, usize)>>,
    k: usize,
    max: u64,
) -> (r: Result<u64, ScriptedAgentFixtureScenarioFrequencyCodecError>)
    requires
        k < slots@.len(),
        forall|m: int| 0 <= m < slots@[k as int]@.len() ==> (#[trigger] slots@[k as int]@[m]).0
            <= slots@[k as int]@[m].1 <= s@.len(),
    ensures
        match r {
            Ok(v) => frequency_slot_number(s@, slots_view(slots@), k as int, max as nat) == Ok::<
                nat,
                ScriptedAgentFixtureScenarioFrequencyCodecError,
            >(v as nat),
            Err(e) => frequency_slot_number(s@, slots_view(slots@), k as int, max as nat) == Err::<
                nat,
                ScriptedAgentFixtureScenarioFrequencyCodecError,
            >(e),
        },
{
    if slots[k].len() == 0 {
        return Err(ScriptedAgentFixtureScenarioFrequencyCodecError::MissingField);
    }
    let (a, b) = slots[k][0];
    assert(slots_view(slots@)[k as int][0] == (a as int, b as int));
    match parse_number(s, a, b, max) {
        Some(v) => Ok(v),
        None => Err(ScriptedAgentFixtureScenarioFrequencyCodecError::InvalidValue),
    }
}

/// The count of one `id|count` row.
fn read_frequency_row(s: &Vec<char>, a: usize, b: usize, id: &str) -> (r: Option<u8>)
    requires
        a <= b <= s@.len(),
    ensures
        match r {
            Some(v) => frequency_row_count(s@, (a as int, b as int), id@) == Some(v as nat),
            None => frequency_row_count(s@, (a as int, b as int), id@) is None,
        },
{
    let fields = split_range(s, '|', a, b);
    if fields.len() != 2 {
        return None;
    }
    if !range_eq_str(s, fields[0].0, fields[0].1, id) {
        return None;
    }
    match parse_number(s, fields[1].0, fields[1].1, 255) {
        Some(v) => Some(v as u8),
        None => None,
    }
}

impl Clone for ScriptedAgentFixtureScenarioFrequencyReport {
    fn clone(&self) -> (r: Self)
        ensures
            r@ == self@,
    {
        proof {
            use_type_invariant(self);
        }
        ScriptedAgentFixtureScenarioFrequencyReport {
            selection_count: self.selection_count,
            entries: self.entries,
        }
    }
}

impl ScriptedAgentFixtureScenarioFrequencyReport {
    #[verifier::type_invariant]
    spec fn wf(self) -> bool {
        &&& frequency_ok(self@)
        &&& self.entries[0].scenario == ScriptedAgentFixtureScenario::Safe
        &&& self.entries[1].scenario == ScriptedAgentFixtureScenario::RiverSideThreat
    }

    fn build(selection_count: u8, safe_count: u8, river_side_count: u8) -> (r: Self)
        requires
            frequency_ok(FrequencyView { selection_count, safe_count, river_side_count }),
        ensures
            r@ == (FrequencyView { selection_count, safe_count, river_side_count }),
    {
        ScriptedAgentFixtureScenarioFrequencyReport {
            selection_count,
            entries: [
                ScriptedAgentFixtureScenarioFrequencyEntry {
                    scenario: ScriptedAgentFixtureScenario::Safe,
                    count: safe_count,
                },
                ScriptedAgentFixtureScenarioFrequencyEntry {
                    scenario: ScriptedAgentFixtureScenario::RiverSideThreat,
                    count: river_side_count,
                },
            ],
        }
    }

    /// Count explicit scenario selections without rerunning policy evaluation.
    pub fn from_selection(selection: &ScriptedAgentFixtureScenarioSelection) -> (r: Self)
        ensures
            r@ == frequency_of(selection@),
    {
        proof {
            use_type_invariant(selection);
        }
        let scenarios = selection.scenarios();
        let mut safe: u8 = 0;
        let mut river: u8 = 0;
        let mut i: usize = 0;
        while i < scenarios.len()
            invariant
                i <= scenarios@.len() <= MAX_SCRIPTED_AGENT_FIXTURE_SCENARIOS,
                safe == scenario_count(scenarios@, ScriptedAgentFixtureScenario::Safe, i as int),
                river == scenario_count(
                    scenarios@,
                    ScriptedAgentFixtureScenario::RiverSideThreat,
                    i as int,
                ),
            decreases scenarios@.len() - i,
        {
            proof {
                lemma_scenario_counts_total(scenarios@, i as int);
            }
            match scenarios[i] {
                ScriptedAgentFixtureScenario::Safe => {
                    safe = safe + 1;
                },
                ScriptedAgentFixtureScenario::RiverSideThreat => {
                    river = river + 1;
                },
            }
            i = i + 1;
        }
        proof {
            lemma_scenario_counts_total(scenarios@, scenarios@.len() as int);
        }
        Self::build(safe + river, safe, river)
    }

    pub fn schema(&self) -> (r: &'static str)
        ensures
            r@ == SCRIPTED_AGENT_FIXTURE_SCENARIO_FREQUENCY_SCHEMA@,
    {
        SCRIPTED_AGENT_FIXTURE_SCENARIO_FREQUENCY_SCHEMA
    }

    pub fn selection_count(&self) -> (r: u8)
        ensures
            r == self@.selection_count,
    {
        self.selection_count
    }

    pub fn entries(&self) -> (r: &[ScriptedAgentFixtureScenarioFrequencyEntry; 2])
        ensures
            r[0].scenario == ScriptedAgentFixtureScenario::Safe,
            r[0].count == self@.safe_count,
            r[1].scenario == ScriptedAgentFixtureScenario::RiverSideThreat,
            r[1].count == self@.river_side_count,
            frequency_ok(self@),
    {
        proof {
            use_type_invariant(self);
        }
        &self.entries
    }

    /// Encode the verified frequency report as bounded line-oriented text.
    pub fn encode(&self) -> (r: String)
        ensures
            r@ == frequency_text(self@),
            is_ascii_chars(r@),
            r@.len() <= MAX_SCRIPTED_AGENT_FIXTURE_SCENARIO_FREQUENCY_BYTES,
    {
        proof {
            use_type_invariant(self);
            lemma_frequency_text_reads_back(self@);
        }
        let mut out = String::new();
        push_str(&mut out, "schema=");
        push_str(&mut out, SCRIPTED_AGENT_FIXTURE_SCENARIO_FREQUENCY_SCHEMA);
        push_str(&mut out, "\nselection_count=");
        push_decimal(&mut out, self.selection_count as u64);
        push_str(&mut out, "\nentries=2\nrow=");
        push_str(&mut out, SCRIPTED_AGENT_SAFE_FIXTURE_SCENARIO_ID);
        push_str(&mut out, "|");
        push_decimal(&mut out, self.entries[0].count as u64);
        push_str(&mut out, "\nrow=");
        push_str(&mut out, SCRIPTED_AGENT_RIVER_SIDE_FIXTURE_SCENARIO_ID);
        push_str(&mut out, "|");
        push_decimal(&mut out, self.entries[1].count as u64);
        push_str(&mut out, "\n");
        assert(out@ =~= frequency_text(self@));
        out
    }

    /// Render the verified report as a concise Markdown summary.
    pub fn to_markdown(&self) -> (r: String)
        ensures
            r@ == frequency_markdown(self@),
    {
        let mut out = String::new();
        push_str(&mut out, "# Scenario Frequency\n\n- schema: ");
        push_str(&mut out, SCRIPTED_AGENT_FIXTURE_SCENARIO_FREQUENCY_SCHEMA);
        push_str(&mut out, "\n- selection_count: ");
        push_decimal(&mut out, self.selection_count as u64);
        push_str(&mut out, "\n\n| scenario_id | count |\n| --- | ---: |\n| ");
        push_str(&mut out, SCRIPTED_AGENT_SAFE_FIXTURE_SCENARIO_ID);
        push_str(&mut out, " | ");
        push_decimal(&mut out, self.entries[0].count as u64);
        push_str(&mut out, " |\n| ");
        push_str(&mut out, SCRIPTED_AGENT_RIVER_SIDE_FIXTURE_SCENARIO_ID);
        push_str(&mut out, " | ");
        push_decimal(&mut out, self.entries[1].count as u64);
        push_str(&mut out, " |\n");
        assert(out@ =~= frequency_markdown(self@));
        out
    }

    /// Return ordered integer basis-point shares at a 10,000-point scale; the
    /// two shares always sum to 10,000.
    pub fn distribution_basis_points(&self) -> (r: [u16; 2])
        ensures
            r@ == frequency_shares(self@),
            r@[0] + r@[1] == 10000,
    {
        proof {
            use_type_invariant(self);
            crate::sample::lemma_shares_bounded(
                self.entries[0].count as int,
                0,
                0,
                0,
                self.selection_count as int,
            );
        }
        let first = (self.entries[0].count as u32 * 10000 / self.selection_count as u32) as u16;
        let r = [first, 10000 - first];
        assert(r@ =~= frequency_shares(self@));
        r
    }

    /// Render the bounded distribution projection as Markdown.
    pub fn to_distribution_markdown(&self) -> (r: String)
        ensures
            r@ == frequency_distribution_markdown(self@),
    {
        let shares = self.distribution_basis_points();
        let mut out = String::new();
        push_str(&mut out, "# Scenario Distribution\n\n- schema: ");
        push_str(&mut out, SCRIPTED_AGENT_FIXTURE_SCENARIO_FREQUENCY_SCHEMA);
        push_str(&mut out, "\n- selection_count: ");
        push_decimal(&mut out, self.selection_count as u64);
        push_str(&mut out, "\n- share_scale_basis_points: ");
        push_decimal(&mut out, 10000);
        push_str(
            &mut out,
            "\n\n| scenario_id | count | share_basis_points |\n| --- | ---: | ---: |\n| ",
        );
        push_str(&mut out, SCRIPTED_AGENT_SAFE_FIXTURE_SCENARIO_ID);
        push_str(&mut out, " | ");
        push_decimal(&mut out, self.entries[0].count as u64);
        push_str(&mut out, " | ");
        push_decimal(&mut out, shares[0] as u64);
        push_str(&mut out, " |\n| ");
        push_str(&mut out, SCRIPTED_AGENT_RIVER_SIDE_FIXTURE_SCENARIO_ID);
        push_str(&mut out, " | ");
        push_decimal(&mut out, self.entries[1].count as u64);
        push_str(&mut out, " | ");
        push_decimal(&mut out, shares[1] as u64);
        push_str(&mut out, " |\n");
        assert(out@ =~= frequency_distribution_markdown(self@));
        out
    }

    /// Decode a frequency text without comparing it with a verified report.
    fn decode_text(input: &str) -> (r: Result<Self, ScriptedAgentFixtureScenarioFrequencyCodecError>)
        ensures
            match r {
                Ok(f) => frequency_decode(input@, input.len() as nat) == Ok::<
                    FrequencyView,
                    ScriptedAgentFixtureScenarioFrequencyCodecError,
                >(f@),
                Err(e) => frequency_decode(input@, input.len() as nat) == Err::<
                    FrequencyView,
                    ScriptedAgentFixtureScenarioFrequencyCodecError,
                >(e),
            },
    {
        if input.len() > MAX_SCRIPTED_AGENT_FIXTURE_SCENARIO_FREQUENCY_BYTES {
            return Err(ScriptedAgentFixtureScenarioFrequencyCodecError::Oversized);
        }
        let s = str_to_chars(input);
        let lines = lines(&s);
        let ghost lv = range_seq(lines@);
        assert(lv =~= line_ranges(s@));
        let keys = ["schema", "selection_count", "entries", "row"];
        proof {
            reveal_strlit("schema");
            reveal_strlit("selection_count");
            reveal_strlit("entries");
            reveal_strlit("row");
            assert(key_seq(keys@) =~= frequency_keys());
            let t = frequency_keys();
            assert(t[0].len() == 6 && t[1].len() == 15 && t[2].len() == 7 && t[3].len() == 3);
        }
        let repeatable = [false, false, false, true];
        assert(repeatable@ =~= seq![false, false, false, true]);
        let slots = match scan_fields(&s, &lines, &keys, &repeatable) {
            Ok(slots) => slots,
            Err(ScanError::Invalid) => {
                return Err(ScriptedAgentFixtureScenarioFrequencyCodecError::InvalidValue);
            },
            Err(ScanError::Unknown) => {
                return Err(ScriptedAgentFixtureScenarioFrequencyCodecError::UnknownField);
            },
            Err(ScanError::Duplicate) => {
                return Err(ScriptedAgentFixtureScenarioFrequencyCodecError::DuplicateField);
            },
        };
        let ghost sl = slots_view(slots@);
        if !slot_is(&s, &slots, 0, SCRIPTED_AGENT_FIXTURE_SCENARIO_FREQUENCY_SCHEMA) {
            return Err(ScriptedAgentFixtureScenarioFrequencyCodecError::UnsupportedSchema);
        }
        let n = read_frequency_number(&s, &slots, 1, 255)?;
        if !(1 <= n && n <= MAX_SCRIPTED_AGENT_FIXTURE_SCENARIOS as u64) {
            return Err(ScriptedAgentFixtureScenarioFrequencyCodecError::InvalidValue);
        }
        let m = read_frequency_number(&s, &slots, 2, usize::MAX as u64)?;
        if m != 2 {
            return Err(ScriptedAgentFixtureScenarioFrequencyCodecError::InvalidValue);
        }
        if lines.len() != 5 || slots[3].len() != 2 {
            return Err(
                ScriptedAgentFixtureScenarioFrequencyCodecError::UnexpectedLineCount {
                    expected: 5,
                    actual: lines.len(),
                },
            );
        }
        let (a0, b0) = slots[3][0];
        let (a1, b1) = slots[3][1];
        assert(sl[3][0] == (a0 as int, b0 as int));
        assert(sl[3][1] == (a1 as int, b1 as int));
        let safe = read_frequency_row(&s, a0, b0, SCRIPTED_AGENT_SAFE_FIXTURE_SCENARIO_ID);
        let river = read_frequency_row(&s, a1, b1, SCRIPTED_AGENT_RIVER_SIDE_FIXTURE_SCENARIO_ID);
        match (safe, river) {
            (Some(x), Some(y)) => {
                if x as u64 + y as u64 != n {
                    return Err(ScriptedAgentFixtureScenarioFrequencyCodecError::InvalidValue);
                }
                Ok(Self::build(n as u8, x, y))
            },
            _ => Err(ScriptedAgentFixtureScenarioFrequencyCodecError::InvalidValue),
        }
    }

    /// Decode and validate a report against an already verified value.
    pub fn decode(input: &str, expected: &Self) -> (r: Result<
        Self,
        ScriptedAgentFixtureScenarioFrequencyCodecError,
    >)
        ensures
            match frequency_decode(input@, input.len() as nat) {
                Err(e) => r == Err::<Self, ScriptedAgentFixtureScenarioFrequencyCodecError>(e),
                Ok(v) => if v == expected@ {
                    r is Ok && r->Ok_0@ == v
                } else {
                    r == Err::<Self, ScriptedAgentFixtureScenarioFrequencyCodecError>(
                        ScriptedAgentFixtureScenarioFrequencyCodecError::InputMismatch,
                    )
                },
            },
    {
        let decoded = Self::decode_text(input)?;
        if decoded.selection_count != expected.selection_count || decoded.entries[0].count
            != expected.entries[0].count || decoded.entries[1].count != expected.entries[1].count {
            return Err(ScriptedAgentFixtureScenarioFrequencyCodecError::InputMismatch);
        }
        Ok(decoded)
    }
}

/// One actor-safe row in a declared baseline comparison.
#[derive(Clone, Copy, Debug, PartialEq, Eq, Hash, Structural)]
pub struct ScriptedAgentFixtureScenarioFrequencyComparisonEntry {
    pub scenario: ScriptedAgentFixtureScenario,
    pub baseline_count: u8,
    pub candidate_count: u8,
}

impl ScriptedAgentFixtureScenarioFrequencyComparisonEntry {
    pub fn scenario_id(self) -> (r: &'static str)
        ensures
            r@ == scenario_id_of(self.scenario),
    {
        self.scenario.id()
    }

    pub fn baseline_count(self) -> (r: u8)
        ensures
            r == self.baseline_count,
    {
        self.baseline_count
    }

    pub fn candidate_count(self) -> (r: u8)
        ensures
            r == self.candidate_count,
    {
        self.candidate_count
    }

    pub fn delta(self) -> (r: i16)
        ensures
            r == self.candidate_count - self.baseline_count,
    {
        self.candidate_count as i16 - self.baseline_count as i16
    }
}

/// Bounded row deltas between two caller-declared verified frequency reports.
#[derive(Clone, Debug, PartialEq, Eq, Hash)]
pub struct ScriptedAgentFixtureScenarioFrequencyComparisonReport {
    pub baseline_build_id: Option<ScriptedAgentBuildId>,
    pub candidate_build_id: Option<ScriptedAgentBuildId>,
    pub baseline_selection_count: u8,
    pub candidate_selection_count: u8,
    pub entries: [ScriptedAgentFixtureScenarioFrequencyComparisonEntry; 2],
}

/// Whether a frequency comparison is the unlabeled comparison of two reports.
pub open spec fn frequency_comparison_of(
    c: ScriptedAgentFixtureScenarioFrequencyComparisonReport,
    b: FrequencyView,
    k: FrequencyView,
) -> bool {
    &&& c.baseline_selection_count == b.selection_count
    &&& c.candidate_selection_count == k.selection_count
    &&& c.entries[0] == (ScriptedAgentFixtureScenarioFrequencyComparisonEntry {
        scenario: ScriptedAgentFixtureScenario::Safe,
        baseline_count: b.safe_count,
        candidate_count: k.safe_count,
    })
    &&& c.entries[1] == (ScriptedAgentFixtureScenarioFrequencyComparisonEntry {
        scenario: ScriptedAgentFixtureScenario::RiverSideThreat,
        baseline_count: b.river_side_count,
        candidate_count: k.river_side_count,
    })
}

impl ScriptedAgentFixtureScenarioFrequencyComparisonReport {
    /// Compare two verified reports without rerunning selection or policy code.
    pub fn from_reports(
        baseline: &ScriptedAgentFixtureScenarioFrequencyReport,
        candidate: &ScriptedAgentFixtureScenarioFrequencyReport,
    ) -> (r: Self)
        ensures
            frequency_comparison_of(r, baseline@, candidate@),
            r.baseline_build_id is None,
            r.candidate_build_id is None,
    {
        let be = baseline.entries();
        let ce = candidate.entries();
        ScriptedAgentFixtureScenarioFrequencyComparisonReport {
            baseline_build_id: None,
            candidate_build_id: None,
            baseline_selection_count: baseline.selection_count(),
            candidate_selection_count: candidate.selection_count(),
            entries: [
                ScriptedAgentFixtureScenarioFrequencyComparisonEntry {
                    scenario: ScriptedAgentFixtureScenario::Safe,
                    baseline_count: be[0].count,
                    candidate_count: ce[0].count,
                },
                ScriptedAgentFixtureScenarioFrequencyComparisonEntry {
                    scenario: ScriptedAgentFixtureScenario::RiverSideThreat,
                    baseline_count: be[1].count,
                    candidate_count: ce[1].count,
                },
            ],
        }
    }

    /// Compare verified reports while retaining distinct caller-declared labels.
    pub fn from_reports_with_build_ids(
        baseline: &ScriptedAgentFixtureScenarioFrequencyReport,
        candidate: &ScriptedAgentFixtureScenarioFrequencyReport,
        baseline_build_id: ScriptedAgentBuildId,
        candidate_build_id: ScriptedAgentBuildId,
    ) -> (r: Result<Self, ScriptedAgentBuildComparisonError>)
        ensures
            baseline_build_id == candidate_build_id ==> r == Err::<
                Self,
                ScriptedAgentBuildComparisonError,
            >(ScriptedAgentBuildComparisonError::MatchingBuildIds),
            baseline_build_id != candidate_build_id ==> r is Ok && frequency_comparison_of(
                r->Ok_0,
                baseline@,
                candidate@,
            ) && r->Ok_0.baseline_build_id == Some(baseline_build_id)
                && r->Ok_0.candidate_build_id == Some(candidate_build_id),
    {
        if baseline_build_id.0 == candidate_build_id.0 {
            return Err(ScriptedAgentBuildComparisonError::MatchingBuildIds);
        }
        let mut comparison = Self::from_reports(baseline, candidate);
        comparison.baseline_build_id = Some(baseline_build_id);
        comparison.candidate_build_id = Some(candidate_build_id);
        Ok(comparison)
    }

    pub fn schema(&self) -> (r: &'static str)
        ensures
            r@ == SCRIPTED_AGENT_FIXTURE_SCENARIO_FREQUENCY_COMPARISON_SCHEMA@,
    {
        SCRIPTED_AGENT_FIXTURE_SCENARIO_FREQUENCY_COMPARISON_SCHEMA
    }

    pub fn baseline_build_id(&self) -> (r: Option<ScriptedAgentBuildId>)
        ensures
            r == self.baseline_build_id,
    {
        self.baseline_build_id
    }

    pub fn candidate_build_id(&self) -> (r: Option<ScriptedAgentBuildId>)
        ensures
            r == self.candidate_build_id,
    {
        self.candidate_build_id
    }

    pub fn baseline_selection_count(&self) -> (r: u8)
        ensures
            r == self.baseline_selection_count,
    {
        self.baseline_selection_count
    }

    pub fn candidate_selection_count(&self) -> (r: u8)
        ensures
            r == self.candidate_selection_count,
    {
        self.candidate_selection_count
    }

    pub fn regression_rule(&self) -> (r: &'static str)
        ensures
            r@ == SCRIPTED_AGENT_FIXTURE_SCENARIO_FREQUENCY_REGRESSION_RULE@,
    {
        SCRIPTED_AGENT_FIXTURE_SCENARIO_FREQUENCY_REGRESSION_RULE
    }

    /// Whether the selection counts and both rows are unchanged.
    pub fn passes_no_change_gate(&self) -> (r: bool)
        ensures
            r == (self.baseline_selection_count == self.candidate_selection_count
                && self.entries[0].baseline_count == self.entries[0].candidate_count
                && self.entries[1].baseline_count == self.entries[1].candidate_count),
    {
        self.baseline_selection_count == self.candidate_selection_count
            && self.entries[0].baseline_count == self.entries[0].candidate_count
            && self.entries[1].baseline_count == self.entries[1].candidate_count
    }

    pub fn entries(&self) -> (r: &[ScriptedAgentFixtureScenarioFrequencyComparisonEntry; 2])
        ensures
            *r == self.entries,
    {
        &self.entries
    }
}


/// Versioned identity for the bounded stress-population matrix.
pub const SCRIPTED_AGENT_STRESS_POPULATION_SCHEMA: &'static str =
    "m6-scripted-agent-stress-population-v1";

/// Versioned identity for fixed degenerate-policy population evidence.
pub const SCRIPTED_AGENT_DEGENERATE_POLICY_POPULATION_SCHEMA: &'static str =
    "m6-scripted-agent-degenerate-policy-population-v1";

/// Maximum number of observations in one degenerate-policy population.
pub const MAX_SCRIPTED_AGENT_DEGENERATE_POLICY_POPULATION: usize = 4;

/// Versioned identity for fixed exploit-seeking population evidence.
pub const SCRIPTED_AGENT_EXPLOIT_SEEKING_POPULATION_SCHEMA: &'static str =
    "m6-scripted-agent-exploit-seeking-population-v1";

/// Maximum number of observations in one exploit-seeking population.
pub const MAX_SCRIPTED_AGENT_EXPLOIT_SEEKING_POPULATION: usize = 4;

/// Closed stress cases used by the bounded population matrix.
#[derive(Clone, Copy, Debug, PartialEq, Eq, Hash, Structural)]
pub enum ScriptedAgentStressCase {
    IllegalCommand,
    ExploitSeeking,
    CommunicationAbuse,
    DegeneratePolicy,
}

/// The identity of a stress case.
pub open spec fn stress_case_id(c: ScriptedAgentStressCase) -> Seq<char> {
    match c {
        ScriptedAgentStressCase::IllegalCommand => "illegal-command-v1"@,
        ScriptedAgentStressCase::ExploitSeeking => "exploit-seeking-v1"@,
        ScriptedAgentStressCase::CommunicationAbuse => "communication-abuse-v1"@,
        ScriptedAgentStressCase::DegeneratePolicy => "degenerate-policy-v1"@,
    }
}

/// The four stress cases in matrix order.
pub open spec fn stress_cases() -> Seq<ScriptedAgentStressCase> {
    seq![
        ScriptedAgentStressCase::IllegalCommand,
        ScriptedAgentStressCase::ExploitSeeking,
        ScriptedAgentStressCase::CommunicationAbuse,
        ScriptedAgentStressCase::DegeneratePolicy,
    ]
}

impl ScriptedAgentStressCase {
    pub fn id(self) -> (r: &'static str)
        ensures
            r@ == stress_case_id(self),
    {
        match self {
            Self::IllegalCommand => "illegal-command-v1",
            Self::ExploitSeeking => "exploit-seeking-v1",
            Self::CommunicationAbuse => "communication-abuse-v1",
            Self::DegeneratePolicy => "degenerate-policy-v1",
        }
    }

    pub fn ordered() -> (r: [Self; 4])
        ensures
            r@ == stress_cases(),
    {
        let r = [
            Self::IllegalCommand,
            Self::ExploitSeeking,
            Self::CommunicationAbuse,
            Self::DegeneratePolicy,
        ];
        assert(r@ =~= stress_cases());
        r
    }
}

/// Closed categorical result identities for the stress-case matrix.
#[derive(Clone, Copy, Debug, PartialEq, Eq, Hash, Structural)]
pub enum ScriptedAgentStressResult {
    HostValidationRejected,
    StaleObservation,
    MessageInvalidValue,
    RepeatedStabilize,
}

/// The identity of a stress result.
pub open spec fn stress_result_id(r: ScriptedAgentStressResult) -> Seq<char> {
    match r {
        ScriptedAgentStressResult::HostValidationRejected => "host_validation_rejected"@,
        ScriptedAgentStressResult::StaleObservation => "stale_observation"@,
        ScriptedAgentStressResult::MessageInvalidValue => "message_invalid_value"@,
        ScriptedAgentStressResult::RepeatedStabilize => "repeated_stabilize"@,
    }
}

/// The result each stress case is expected to produce, in matrix order.
pub open spec fn expected_stress_results() -> Seq<ScriptedAgentStressResult> {
    seq![
        ScriptedAgentStressResult::HostValidationRejected,
        ScriptedAgentStressResult::StaleObservation,
        ScriptedAgentStressResult::MessageInvalidValue,
        ScriptedAgentStressResult::RepeatedStabilize,
    ]
}

impl ScriptedAgentStressResult {
    pub fn id(self) -> (r: &'static str)
        ensures
            r@ == stress_result_id(self),
    {
        match self {
            Self::HostValidationRejected => "host_validation_rejected",
            Self::StaleObservation => "stale_observation",
            Self::MessageInvalidValue => "message_invalid_value",
            Self::RepeatedStabilize => "repeated_stabilize",
        }
    }
}

/// One bounded caller-declared stress-case result.
#[derive(Clone, Copy, Debug, PartialEq, Eq, Hash, Structural)]
pub struct ScriptedAgentStressPopulationEntry {
    pub case: ScriptedAgentStressCase,
    pub result: ScriptedAgentStressResult,
}

impl ScriptedAgentStressPopulationEntry {
    pub fn case(self) -> (r: ScriptedAgentStressCase)
        ensures
            r == self.case,
    {
        self.case
    }

    pub fn result(self) -> (r: ScriptedAgentStressResult)
        ensures
            r == self.result,
    {
        self.result
    }
}

/// Failures from constructing the closed stress-case report.
#[derive(Clone, Copy, Debug, PartialEq, Eq, Hash, Structural)]
pub enum ScriptedAgentStressPopulationError {
    UnexpectedResult,
    InvalidDegenerateCount,
}

/// Bounded caller-declared stress-case evidence over existing boundaries.
#[derive(Clone, Debug, PartialEq, Eq, Hash)]
pub struct ScriptedAgentStressPopulationReport {
    pub degenerate_stabilize_count: u8,
    pub entries: [ScriptedAgentStressPopulationEntry; 4],
}

/// The Markdown matrix of a stress report.
pub open spec fn stress_markdown(r: ScriptedAgentStressPopulationReport) -> Seq<char> {
    "# Scripted Agent Stress Population\n\n- schema: "@ + SCRIPTED_AGENT_STRESS_POPULATION_SCHEMA@
        + "\n- degenerate_stabilize_count: "@ + decimal(r.degenerate_stabilize_count as nat)
        + "\n\n| case_id | result_id |\n| --- | --- |\n"@ + stress_rows(r.entries@, 4)
}

/// The Markdown rows of the first `n` stress entries.
pub open spec fn stress_rows(e: Seq<ScriptedAgentStressPopulationEntry>, n: int) -> Seq<char>
    decreases n,
{
    if n <= 0 {
        Seq::empty()
    } else {
        stress_rows(e, n - 1) + "| "@ + stress_case_id(e[n - 1].case) + " | "@ + stress_result_id(
            e[n - 1].result,
        ) + " |\n"@
    }
}

impl ScriptedAgentStressPopulationReport {
    /// Bind the four expected categorical results and one degenerate count.
    pub fn from_results(results: [ScriptedAgentStressResult; 4], degenerate_stabilize_count: u8) -> (r:
        Result<Self, ScriptedAgentStressPopulationError>)
        ensures
            results@ != expected_stress_results() ==> r == Err::<
                Self,
                ScriptedAgentStressPopulationError,
            >(ScriptedAgentStressPopulationError::UnexpectedResult),
            results@ == expected_stress_results() && !(1 <= degenerate_stabilize_count
                <= MAX_SCRIPTED_AGENT_FIXTURE_SCENARIOS) ==> r == Err::<
                Self,
                ScriptedAgentStressPopulationError,
            >(ScriptedAgentStressPopulationError::InvalidDegenerateCount),
            results@ == expected_stress_results() && 1 <= degenerate_stabilize_count
                <= MAX_SCRIPTED_AGENT_FIXTURE_SCENARIOS ==> r is Ok
                && r->Ok_0.degenerate_stabilize_count == degenerate_stabilize_count && forall|i: int|
                0 <= i < 4 ==> (#[trigger] r->Ok_0.entries@[i]) == (ScriptedAgentStressPopulationEntry {
                    case: stress_cases()[i],
                    result: expected_stress_results()[i],
                }),
    {
        let expected = [
            ScriptedAgentStressResult::HostValidationRejected,
            ScriptedAgentStressResult::StaleObservation,
            ScriptedAgentStressResult::MessageInvalidValue,
            ScriptedAgentStressResult::RepeatedStabilize,
        ];
        assert(expected@ =~= expected_stress_results());
        if results[0] != expected[0] || results[1] != expected[1] || results[2] != expected[2]
            || results[3] != expected[3] {
            return Err(ScriptedAgentStressPopulationError::UnexpectedResult);
        }
        assert(results@ =~= expected_stress_results());
        if !(1 <= degenerate_stabilize_count && degenerate_stabilize_count as usize
            <= MAX_SCRIPTED_AGENT_FIXTURE_SCENARIOS) {
            return Err(ScriptedAgentStressPopulationError::InvalidDegenerateCount);
        }
        let cases = ScriptedAgentStressCase::ordered();
        let entries = [
            ScriptedAgentStressPopulationEntry { case: cases[0], result: results[0] },
            ScriptedAgentStressPopulationEntry { case: cases[1], result: results[1] },
            ScriptedAgentStressPopulationEntry { case: cases[2], result: results[2] },
            ScriptedAgentStressPopulationEntry { case: cases[3], result: results[3] },
        ];
        Ok(ScriptedAgentStressPopulationReport { degenerate_stabilize_count, entries })
    }

    pub fn schema(&self) -> (r: &'static str)
        ensures
            r@ == SCRIPTED_AGENT_STRESS_POPULATION_SCHEMA@,
    {
        SCRIPTED_AGENT_STRESS_POPULATION_SCHEMA
    }

    pub fn degenerate_stabilize_count(&self) -> (r: u8)
        ensures
            r == self.degenerate_stabilize_count,
    {
        self.degenerate_stabilize_count
    }

    pub fn entries(&self) -> (r: &[ScriptedAgentStressPopulationEntry; 4])
        ensures
            *r == self.entries,
    {
        &self.entries
    }

    /// Render the bounded matrix as Markdown.
    pub fn to_markdown(&self) -> (r: String)
        ensures
            r@ == stress_markdown(*self),
    {
        let mut out = String::new();
        push_str(&mut out, "# Scripted Agent Stress Population\n\n- schema: ");
        push_str(&mut out, SCRIPTED_AGENT_STRESS_POPULATION_SCHEMA);
        push_str(&mut out, "\n- degenerate_stabilize_count: ");
        push_decimal(&mut out, self.degenerate_stabilize_count as u64);
        push_str(&mut out, "\n\n| case_id | result_id |\n| --- | --- |\n");
        let ghost head = out@;
        let mut i: usize = 0;
        while i < 4
            invariant
                i <= 4,
                out@ == head + stress_rows(self.entries@, i as int),
            decreases 4 - i,
        {
            push_str(&mut out, "| ");
            push_str(&mut out, self.entries[i].case.id());
            push_str(&mut out, " | ");
            push_str(&mut out, self.entries[i].result.id());
            push_str(&mut out, " |\n");
            assert(out@ =~= head + stress_rows(self.entries@, i + 1));
            i = i + 1;
        }
        assert(out@ =~= stress_markdown(*self));
        out
    }
}

/// Why a fixed-policy population is refused at one observation.
#[derive(Clone, Copy, Debug, PartialEq, Eq, Hash, Structural)]
pub enum FixedPolicyIssue {
    MismatchedObserver,
    DuplicateObservationId,
    UnexpectedIntent,
}

/// The first problem among observations `i..` of a population whose policy
/// must select `intent` for `observer`.
pub open spec fn fixed_policy_scan(
    obs: Seq<LanerObservation>,
    observer: ActorId,
    profile: ScriptedAgentProfile,
    intent: LaneIntent,
    i: int,
) -> Option<FixedPolicyIssue>
    decreases obs.len() - i,
{
    if i >= obs.len() || i < 0 {
        None
    } else if obs[i].observer != observer {
        Some(FixedPolicyIssue::MismatchedObserver)
    } else if exists|k: int| 0 <= k < i && (#[trigger] obs[k]).observation_id == obs[i].observation_id {
        Some(FixedPolicyIssue::DuplicateObservationId)
    } else if decision_for(profile, obs[i], None).selected_intent != intent {
        Some(FixedPolicyIssue::UnexpectedIntent)
    } else {
        fixed_policy_scan(obs, observer, profile, intent, i + 1)
    }
}

/// Whether observation `j` of such a population passes: it has the
/// population's observer, a new identity, and the policy selects `intent`.
pub open spec fn fixed_policy_passes(
    obs: Seq<LanerObservation>,
    observer: ActorId,
    profile: ScriptedAgentProfile,
    intent: LaneIntent,
    j: int,
) -> bool {
    &&& obs[j].observer == observer
    &&& !(exists|k: int| 0 <= k < j && (#[trigger] obs[k]).observation_id == obs[j].observation_id)
    &&& decision_for(profile, obs[j], None).selected_intent == intent
}

/// Whether scanning such a population gets as far as deciding observation
/// `i`: it has the population's observer and a new identity, and every
/// earlier observation passed.
pub open spec fn fixed_policy_decides_at(
    obs: Seq<LanerObservation>,
    observer: ActorId,
    profile: ScriptedAgentProfile,
    intent: LaneIntent,
    i: int,
) -> bool {
    &&& 0 <= i < obs.len()
    &&& obs[i].observer == observer
    &&& !(exists|k: int| 0 <= k < i && (#[trigger] obs[k]).observation_id == obs[i].observation_id)
    &&& forall|j: int| 0 <= j < i ==> #[trigger] fixed_policy_passes(obs, observer, profile, intent, j)
}

/// Whether every observation such a scan decides advertises an intent.
pub open spec fn fixed_policy_decidable(
    obs: Seq<LanerObservation>,
    profile: ScriptedAgentProfile,
    intent: LaneIntent,
) -> bool {
    forall|i: int|
        #[trigger] fixed_policy_decides_at(obs, obs[0].observer, profile, intent, i)
            ==> advertises_some(obs[i])
}

/// Whether the identity of observation `i` appeared before it.
fn seen_before(obs: &[LanerObservation], i: usize) -> (r: bool)
    requires
        i < obs@.len(),
    ensures
        r == exists|k: int| 0 <= k < i && (#[trigger] obs@[k]).observation_id == obs@[i as int].observation_id,
{
    let mut k: usize = 0;
    while k < i
        invariant
            k <= i < obs@.len(),
            forall|q: int| 0 <= q < k ==> (#[trigger] obs@[q]).observation_id != obs@[i as int].observation_id,
        decreases i - k,
    {
        if obs[k].observation_id.0 == obs[i].observation_id.0 {
            return true;
        }
        k = k + 1;
    }
    false
}

/// Scan a population whose fixed policy must select `intent`.
fn scan_fixed_policy(obs: &[LanerObservation], agent: ScriptedAgent, intent: LaneIntent) -> (r:
    Option<FixedPolicyIssue>)
    requires
        obs@.len() >= 1,
        fixed_policy_decidable(obs@, agent.profile, intent),
    ensures
        r == fixed_policy_scan(obs@, obs@[0].observer, agent.profile, intent, 0),
{
    let observer = obs[0].observer;
    let mut i: usize = 0;
    while i < obs.len()
        invariant
            i <= obs@.len(),
            observer == obs@[0].observer,
            fixed_policy_decidable(obs@, agent.profile, intent),
            forall|j: int|
                0 <= j < i ==> #[trigger] fixed_policy_passes(obs@, observer, agent.profile, intent, j),
            fixed_policy_scan(obs@, observer, agent.profile, intent, 0) == fixed_policy_scan(
                obs@,
                observer,
                agent.profile,
                intent,
                i as int,
            ),
        decreases obs@.len() - i,
    {
        if obs[i].observer.0 != observer.0 {
            return Some(FixedPolicyIssue::MismatchedObserver);
        }
        if seen_before(obs, i) {
            return Some(FixedPolicyIssue::DuplicateObservationId);
        }
        assert(fixed_policy_decides_at(obs@, observer, agent.profile, intent, i as int));
        let d = agent.decide(obs[i]);
        if d.selected_intent != intent {
            return Some(FixedPolicyIssue::UnexpectedIntent);
        }
        assert(fixed_policy_passes(obs@, observer, agent.profile, intent, i as int));
        i = i + 1;
    }
    None
}

/// Bounded failures from fixed degenerate-policy population construction.
#[derive(Clone, Copy, Debug, PartialEq, Eq, Hash, Structural)]
pub enum ScriptedAgentDegeneratePolicyPopulationError {
    EmptyPopulation,
    PopulationTooLarge { max: usize, actual: usize },
    MismatchedObserver,
    DuplicateObservationId,
    UnexpectedIntent,
}

/// Verified caller-declared population whose cautious policy repeats one intent.
#[derive(Clone, Copy, Debug, PartialEq, Eq, Hash, Structural)]
pub struct ScriptedAgentDegeneratePolicyPopulationReport {
    pub observer: ActorId,
    pub observation_count: u8,
}

impl ScriptedAgentDegeneratePolicyPopulationReport {
    /// Build fixed degenerate evidence from actor-visible observations only:
    /// the cautious policy must select Stabilize on every observation.
    pub fn from_observations(observations: &[LanerObservation]) -> (r: Result<
        Self,
        ScriptedAgentDegeneratePolicyPopulationError,
    >)
        requires
            1 <= observations@.len() <= MAX_SCRIPTED_AGENT_DEGENERATE_POLICY_POPULATION ==> fixed_policy_decidable(
                observations@,
                ScriptedAgentProfile { evaluation: ScriptedAgentEvaluationRule::Threat },
                LaneIntent::Stabilize,
            ),
        ensures
            ({
                let n = observations@.len();
                let scan = fixed_policy_scan(
                    observations@,
                    observations@[0].observer,
                    ScriptedAgentProfile { evaluation: ScriptedAgentEvaluationRule::Threat },
                    LaneIntent::Stabilize,
                    0,
                );
                if n == 0 {
                    r == Err::<Self, ScriptedAgentDegeneratePolicyPopulationError>(
                        ScriptedAgentDegeneratePolicyPopulationError::EmptyPopulation,
                    )
                } else if n > MAX_SCRIPTED_AGENT_DEGENERATE_POLICY_POPULATION {
                    r == Err::<Self, ScriptedAgentDegeneratePolicyPopulationError>(
                        ScriptedAgentDegeneratePolicyPopulationError::PopulationTooLarge {
                            max: MAX_SCRIPTED_AGENT_DEGENERATE_POLICY_POPULATION,
                            actual: n as usize,
                        },
                    )
                } else {
                    match scan {
                        Some(FixedPolicyIssue::MismatchedObserver) => r == Err::<
                            Self,
                            ScriptedAgentDegeneratePolicyPopulationError,
                        >(ScriptedAgentDegeneratePolicyPopulationError::MismatchedObserver),
                        Some(FixedPolicyIssue::DuplicateObservationId) => r == Err::<
                            Self,
                            ScriptedAgentDegeneratePolicyPopulationError,
                        >(ScriptedAgentDegeneratePolicyPopulationError::DuplicateObservationId),
                        Some(FixedPolicyIssue::UnexpectedIntent) => r == Err::<
                            Self,
                            ScriptedAgentDegeneratePolicyPopulationError,
                        >(ScriptedAgentDegeneratePolicyPopulationError::UnexpectedIntent),
                        None => r == Ok::<Self, ScriptedAgentDegeneratePolicyPopulationError>(
                            ScriptedAgentDegeneratePolicyPopulationReport {
                                observer: observations@[0].observer,
                                observation_count: n as u8,
                            },
                        ),
                    }
                }
            }),
    {
        if observations.len() == 0 {
            return Err(ScriptedAgentDegeneratePolicyPopulationError::EmptyPopulation);
        }
        if observations.len() > MAX_SCRIPTED_AGENT_DEGENERATE_POLICY_POPULATION {
            return Err(
                ScriptedAgentDegeneratePolicyPopulationError::PopulationTooLarge {
                    max: MAX_SCRIPTED_AGENT_DEGENERATE_POLICY_POPULATION,
                    actual: observations.len(),
                },
            );
        }
        match scan_fixed_policy(observations, ScriptedAgent::cautious_v1(), LaneIntent::Stabilize) {
            Some(FixedPolicyIssue::MismatchedObserver) => Err(
                ScriptedAgentDegeneratePolicyPopulationError::MismatchedObserver,
            ),
            Some(FixedPolicyIssue::DuplicateObservationId) => Err(
                ScriptedAgentDegeneratePolicyPopulationError::DuplicateObservationId,
            ),
            Some(FixedPolicyIssue::UnexpectedIntent) => Err(
                ScriptedAgentDegeneratePolicyPopulationError::UnexpectedIntent,
            ),
            None => Ok(
                ScriptedAgentDegeneratePolicyPopulationReport {
                    observer: observations[0].observer,
                    observation_count: observations.len() as u8,
                },
            ),
        }
    }

    pub fn schema(self) -> (r: &'static str)
        ensures
            r@ == SCRIPTED_AGENT_DEGENERATE_POLICY_POPULATION_SCHEMA@,
    {
        SCRIPTED_AGENT_DEGENERATE_POLICY_POPULATION_SCHEMA
    }

    pub fn profile_id(self) -> (r: &'static str)
        ensures
            r@ == crate::profile::SCRIPTED_AGENT_PROFILE_ID@,
    {
        crate::profile::SCRIPTED_AGENT_PROFILE_ID
    }

    pub fn evaluation_rule(self) -> (r: &'static str)
        ensures
            r@ == crate::profile::SCRIPTED_AGENT_THREAT_EVALUATION_RULE@,
    {
        crate::profile::SCRIPTED_AGENT_THREAT_EVALUATION_RULE
    }

    pub fn observer(self) -> (r: ActorId)
        ensures
            r == self.observer,
    {
        self.observer
    }

    pub fn observation_count(self) -> (r: u8)
        ensures
            r == self.observation_count,
    {
        self.observation_count
    }

    pub fn selected_intent(self) -> (r: LaneIntent)
        ensures
            r == LaneIntent::Stabilize,
    {
        LaneIntent::Stabilize
    }
}

/// Bounded failures from fixed exploit-seeking policy population construction.
#[derive(Clone, Copy, Debug, PartialEq, Eq, Hash, Structural)]
pub enum ScriptedAgentExploitSeekingPopulationError {
    EmptyPopulation,
    PopulationTooLarge { max: usize, actual: usize },
    MismatchedObserver,
    DuplicateObservationId,
    UnexpectedIntent,
}

/// Verified caller-declared population whose risk-taking policy selects Contest.
///
/// This is fixed-fixture selected-intent evidence only; it does not search for
/// exploits or establish adversarial prevalence, outcomes, or strategy quality.
#[derive(Clone, Copy, Debug, PartialEq, Eq, Hash, Structural)]
pub struct ScriptedAgentExploitSeekingPopulationReport {
    pub observer: ActorId,
    pub observation_count: u8,
}

impl ScriptedAgentExploitSeekingPopulationReport {
    /// Build fixed risk-taking evidence from actor-visible observations only:
    /// the risk-taking policy must select Contest on every observation.
    pub fn from_observations(observations: &[LanerObservation]) -> (r: Result<
        Self,
        ScriptedAgentExploitSeekingPopulationError,
    >)
        requires
            1 <= observations@.len() <= MAX_SCRIPTED_AGENT_EXPLOIT_SEEKING_POPULATION ==> fixed_policy_decidable(
                observations@,
                ScriptedAgentProfile { evaluation: ScriptedAgentEvaluationRule::Contest },
                LaneIntent::Contest,
            ),
        ensures
            ({
                let n = observations@.len();
                let scan = fixed_policy_scan(
                    observations@,
                    observations@[0].observer,
                    ScriptedAgentProfile { evaluation: ScriptedAgentEvaluationRule::Contest },
                    LaneIntent::Contest,
                    0,
                );
                if n == 0 {
                    r == Err::<Self, ScriptedAgentExploitSeekingPopulationError>(
                        ScriptedAgentExploitSeekingPopulationError::EmptyPopulation,
                    )
                } else if n > MAX_SCRIPTED_AGENT_EXPLOIT_SEEKING_POPULATION {
                    r == Err::<Self, ScriptedAgentExploitSeekingPopulationError>(
                        ScriptedAgentExploitSeekingPopulationError::PopulationTooLarge {
                            max: MAX_SCRIPTED_AGENT_EXPLOIT_SEEKING_POPULATION,
                            actual: n as usize,
                        },
                    )
                } else {
                    match scan {
                        Some(FixedPolicyIssue::MismatchedObserver) => r == Err::<
                            Self,
                            ScriptedAgentExploitSeekingPopulationError,
                        >(ScriptedAgentExploitSeekingPopulationError::MismatchedObserver),
                        Some(FixedPolicyIssue::DuplicateObservationId) => r == Err::<
                            Self,
                            ScriptedAgentExploitSeekingPopulationError,
                        >(ScriptedAgentExploitSeekingPopulationError::DuplicateObservationId),
                        Some(FixedPolicyIssue::UnexpectedIntent) => r == Err::<
                            Self,
                            ScriptedAgentExploitSeekingPopulationError,
                        >(ScriptedAgentExploitSeekingPopulationError::UnexpectedIntent),
                        None => r == Ok::<Self, ScriptedAgentExploitSeekingPopulationError>(
                            ScriptedAgentExploitSeekingPopulationReport {
                                observer: observations@[0].observer,
                                observation_count: n as u8,
                            },
                        ),
                    }
                }
            }),
    {
        if observations.len() == 0 {
            return Err(ScriptedAgentExploitSeekingPopulationError::EmptyPopulation);
        }
        if observations.len() > MAX_SCRIPTED_AGENT_EXPLOIT_SEEKING_POPULATION {
            return Err(
                ScriptedAgentExploitSeekingPopulationError::PopulationTooLarge {
                    max: MAX_SCRIPTED_AGENT_EXPLOIT_SEEKING_POPULATION,
                    actual: observations.len(),
                },
            );
        }
        match scan_fixed_policy(observations, ScriptedAgent::risk_taking_v1(), LaneIntent::Contest) {
            Some(FixedPolicyIssue::MismatchedObserver) => Err(
                ScriptedAgentExploitSeekingPopulationError::MismatchedObserver,
            ),
            Some(FixedPolicyIssue::DuplicateObservationId) => Err(
                ScriptedAgentExploitSeekingPopulationError::DuplicateObservationId,
            ),
            Some(FixedPolicyIssue::UnexpectedIntent) => Err(
                ScriptedAgentExploitSeekingPopulationError::UnexpectedIntent,
            ),
            None => Ok(
                ScriptedAgentExploitSeekingPopulationReport {
                    observer: observations[0].observer,
                    observation_count: observations.len() as u8,
                },
            ),
        }
    }

    pub fn schema(self) -> (r: &'static str)
        ensures
            r@ == SCRIPTED_AGENT_EXPLOIT_SEEKING_POPULATION_SCHEMA@,
    {
        SCRIPTED_AGENT_EXPLOIT_SEEKING_POPULATION_SCHEMA
    }

    pub fn profile_id(self) -> (r: &'static str)
        ensures
            r@ == crate::profile::RISK_TAKING_SCRIPTED_AGENT_PROFILE_ID@,
    {
        crate::profile::RISK_TAKING_SCRIPTED_AGENT_PROFILE_ID
    }

    pub fn evaluation_rule(self) -> (r: &'static str)
        ensures
            r@ == crate::profile::SCRIPTED_AGENT_CONTEST_EVALUATION_RULE@,
    {
        crate::profile::SCRIPTED_AGENT_CONTEST_EVALUATION_RULE
    }

    pub fn observer(self) -> (r: ActorId)
        ensures
            r == self.observer,
    {
        self.observer
    }

    pub fn observation_count(self) -> (r: u8)
        ensures
            r == self.observation_count,
    {
        self.observation_count
    }

    pub fn selected_intent(self) -> (r: LaneIntent)
        ensures
            r == LaneIntent::Contest,
    {
        LaneIntent::Contest
    }
}

} // verus!
