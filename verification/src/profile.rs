//! Versioned policy profiles, the explicit policy seed bundle, the
//! experiment manifest and its line codec, and the fixed version catalog.

use vstd::prelude::*;
use vstd::utf8::{encode_utf8, is_ascii_chars};
use crate::codec::{
    all_pairs, check_all_pairs, field_scan, range_seq, scan_fields, single_value, key_seq,
    FieldScan, ScanError, lemma_record_ascii, lemma_record_fields, record_lines, record_value_span,
    writable_record,
};
use crate::lane::{DrawId, InputTrace, LaneIntent, StreamId};
use crate::text::{
    decimal, joined_lines, lemma_ascii_byte_len, lemma_decimal_plain, lemma_decimal_u64,
    lemma_joined_lines_push, lemma_parse_decimal, line_ranges, lines,
    parse_bounded, parse_number, plain_line, push_decimal, push_str, range_eq_str, str_to_chars,
};

verus! {

/// Versioned identity for the first scripted-agent policy boundary.
pub const SCRIPTED_AGENT_SCHEMA: &'static str = "m4-scripted-agent-v1";

/// Stable profile identity for the cautious deterministic baseline.
pub const SCRIPTED_AGENT_PROFILE_ID: &'static str = "cautious-laner-v1";

/// Stable profile identity for the risk-taking deterministic comparison.
pub const RISK_TAKING_SCRIPTED_AGENT_PROFILE_ID: &'static str = "risk-taking-laner-v1";

/// Stable profile identity for the yielding deterministic comparison.
pub const YIELDING_SCRIPTED_AGENT_PROFILE_ID: &'static str = "yielding-laner-v1";

/// Versioned identity for the explicit policy seed bundle contract.
pub const SCRIPTED_AGENT_RANDOMNESS_SCHEMA: &'static str = "m4-scripted-agent-random-v1";

/// Stable identity for seeded top-1 tie resolution.
pub const SCRIPTED_AGENT_SEEDED_SELECTION_RULE: &'static str = "max-score-seeded-tie-v1";

/// Stable identity for deterministic first-maximum selection.
pub const SCRIPTED_AGENT_STABLE_SELECTION_RULE: &'static str = "max-score-stable-order-v1";

/// Stable identity for actor-visible candidate generation.
pub const SCRIPTED_AGENT_CANDIDATE_RULE: &'static str = "actor-visible-intents-v1";

/// Evaluation rule of the cautious profile.
pub const SCRIPTED_AGENT_THREAT_EVALUATION_RULE: &'static str =
    "threat-first-pressure-aware-fixed-score-v1";

/// Evaluation rule of the risk-taking profile.
pub const SCRIPTED_AGENT_CONTEST_EVALUATION_RULE: &'static str = "contest-first-fixed-score-v1";

/// Evaluation rule of the yielding profile.
pub const SCRIPTED_AGENT_YIELD_EVALUATION_RULE: &'static str = "yield-first-fixed-score-v1";

/// Versioned experiment-manifest identity for the bounded scripted fixture.
pub const SCRIPTED_AGENT_EXPERIMENT_MANIFEST_SCHEMA: &'static str = "m6-experiment-manifest-v1";

/// The only scenario currently admitted by the bounded manifest.
pub const SCRIPTED_AGENT_EXPERIMENT_SCENARIO_ID: &'static str = "m3-two-window-fixture-v1";

/// Versioned identity for the applicable M6 experiment-version catalog.
pub const SCRIPTED_AGENT_EXPERIMENT_VERSION_CATALOG_SCHEMA: &'static str =
    "m6-experiment-version-catalog-v1";

/// Stable ruleset label recorded by the current scripted fixture catalog.
pub const SCRIPTED_AGENT_EXPERIMENT_RULESET_ID: &'static str = "m2-lane-ruleset-v4";

/// Explicit marker for experiment integrations not present in this slice.
pub const SCRIPTED_AGENT_VERSION_NOT_APPLICABLE: &'static str = "not-applicable";

/// Maximum encoded experiment-manifest size.
pub const MAX_SCRIPTED_AGENT_MANIFEST_BYTES: usize = 4096;

/// The fixed-score rule a profile evaluates candidates with.
#[derive(Clone, Copy, Debug, PartialEq, Eq, Hash, Structural)]
pub enum ScriptedAgentEvaluationRule {
    Threat,
    Contest,
    Yield,
}

/// Transparent policy posture labels, distinct from the scenario actor roster.
#[derive(Clone, Copy, Debug, PartialEq, Eq, Hash, Structural)]
pub enum ScriptedAgentRole {
    Anchor,
    Duelist,
    Pacer,
}

/// The identity of a role.
pub open spec fn role_id(role: ScriptedAgentRole) -> Seq<char> {
    match role {
        ScriptedAgentRole::Anchor => "anchor-v1"@,
        ScriptedAgentRole::Duelist => "duelist-v1"@,
        ScriptedAgentRole::Pacer => "pacer-v1"@,
    }
}

impl ScriptedAgentRole {
    pub fn id(self) -> (r: &'static str)
        ensures
            r@ == role_id(self),
    {
        match self {
            ScriptedAgentRole::Anchor => "anchor-v1",
            ScriptedAgentRole::Duelist => "duelist-v1",
            ScriptedAgentRole::Pacer => "pacer-v1",
        }
    }
}

/// Versioned profile and policy-rule metadata; the evaluation rule decides
/// every label of the profile.
#[derive(Clone, Copy, Debug, PartialEq, Eq, Hash, Structural)]
pub struct ScriptedAgentProfile {
    pub evaluation: ScriptedAgentEvaluationRule,
}

/// The profile identity of a profile.
pub open spec fn profile_id_of(p: ScriptedAgentProfile) -> Seq<char> {
    match p.evaluation {
        ScriptedAgentEvaluationRule::Threat => SCRIPTED_AGENT_PROFILE_ID@,
        ScriptedAgentEvaluationRule::Contest => RISK_TAKING_SCRIPTED_AGENT_PROFILE_ID@,
        ScriptedAgentEvaluationRule::Yield => YIELDING_SCRIPTED_AGENT_PROFILE_ID@,
    }
}

/// The evaluation-rule identity of a profile.
pub open spec fn evaluation_rule_of(p: ScriptedAgentProfile) -> Seq<char> {
    match p.evaluation {
        ScriptedAgentEvaluationRule::Threat => SCRIPTED_AGENT_THREAT_EVALUATION_RULE@,
        ScriptedAgentEvaluationRule::Contest => SCRIPTED_AGENT_CONTEST_EVALUATION_RULE@,
        ScriptedAgentEvaluationRule::Yield => SCRIPTED_AGENT_YIELD_EVALUATION_RULE@,
    }
}

/// A profile's identity and evaluation rule are short ASCII texts.
pub proof fn lemma_profile_texts_ascii(p: ScriptedAgentProfile)
    ensures
        is_ascii_chars(profile_id_of(p)),
        profile_id_of(p).len() <= 20,
        is_ascii_chars(evaluation_rule_of(p)),
        evaluation_rule_of(p).len() <= 42,
{
    match p.evaluation {
        ScriptedAgentEvaluationRule::Threat => {
            reveal_strlit("cautious-laner-v1");
            reveal_strlit("threat-first-pressure-aware-fixed-score-v1");
            assert(is_ascii_chars(SCRIPTED_AGENT_PROFILE_ID@));
            assert(is_ascii_chars(SCRIPTED_AGENT_THREAT_EVALUATION_RULE@));
        },
        ScriptedAgentEvaluationRule::Contest => {
            reveal_strlit("risk-taking-laner-v1");
            reveal_strlit("contest-first-fixed-score-v1");
            assert(is_ascii_chars(RISK_TAKING_SCRIPTED_AGENT_PROFILE_ID@));
            assert(is_ascii_chars(SCRIPTED_AGENT_CONTEST_EVALUATION_RULE@));
        },
        ScriptedAgentEvaluationRule::Yield => {
            reveal_strlit("yielding-laner-v1");
            reveal_strlit("yield-first-fixed-score-v1");
            assert(is_ascii_chars(YIELDING_SCRIPTED_AGENT_PROFILE_ID@));
            assert(is_ascii_chars(SCRIPTED_AGENT_YIELD_EVALUATION_RULE@));
        },
    }
}

/// The posture role of a profile.
pub open spec fn role_of(p: ScriptedAgentProfile) -> ScriptedAgentRole {
    match p.evaluation {
        ScriptedAgentEvaluationRule::Threat => ScriptedAgentRole::Anchor,
        ScriptedAgentEvaluationRule::Contest => ScriptedAgentRole::Duelist,
        ScriptedAgentEvaluationRule::Yield => ScriptedAgentRole::Pacer,
    }
}

/// The baseline preference of a profile before visible-threat overrides.
pub open spec fn preferred_intent_of(p: ScriptedAgentProfile) -> LaneIntent {
    match p.evaluation {
        ScriptedAgentEvaluationRule::Threat => LaneIntent::Stabilize,
        ScriptedAgentEvaluationRule::Contest => LaneIntent::Contest,
        ScriptedAgentEvaluationRule::Yield => LaneIntent::Yield,
    }
}

/// The profile named by a profile identity.
pub open spec fn profile_from_id(id: Seq<char>) -> Option<ScriptedAgentProfile> {
    if id == SCRIPTED_AGENT_PROFILE_ID@ {
        Some(ScriptedAgentProfile { evaluation: ScriptedAgentEvaluationRule::Threat })
    } else if id == RISK_TAKING_SCRIPTED_AGENT_PROFILE_ID@ {
        Some(ScriptedAgentProfile { evaluation: ScriptedAgentEvaluationRule::Contest })
    } else if id == YIELDING_SCRIPTED_AGENT_PROFILE_ID@ {
        Some(ScriptedAgentProfile { evaluation: ScriptedAgentEvaluationRule::Yield })
    } else {
        None
    }
}

/// The three profile identities are distinct, so each names its own profile.
pub proof fn lemma_profile_ids_distinct()
    ensures
        SCRIPTED_AGENT_PROFILE_ID@ != RISK_TAKING_SCRIPTED_AGENT_PROFILE_ID@,
        SCRIPTED_AGENT_PROFILE_ID@ != YIELDING_SCRIPTED_AGENT_PROFILE_ID@,
        RISK_TAKING_SCRIPTED_AGENT_PROFILE_ID@ != YIELDING_SCRIPTED_AGENT_PROFILE_ID@,
{
    reveal_strlit("cautious-laner-v1");
    reveal_strlit("risk-taking-laner-v1");
    reveal_strlit("yielding-laner-v1");
    assert(SCRIPTED_AGENT_PROFILE_ID@.len() != RISK_TAKING_SCRIPTED_AGENT_PROFILE_ID@.len());
    assert(SCRIPTED_AGENT_PROFILE_ID@[0] != YIELDING_SCRIPTED_AGENT_PROFILE_ID@[0]);
    assert(RISK_TAKING_SCRIPTED_AGENT_PROFILE_ID@.len() != YIELDING_SCRIPTED_AGENT_PROFILE_ID@.len());
}

/// Reading a profile's identity gives back the profile.
pub proof fn lemma_profile_id_round_trip(p: ScriptedAgentProfile)
    ensures
        profile_from_id(profile_id_of(p)) == Some(p),
{
    lemma_profile_ids_distinct();
}

impl ScriptedAgentProfile {
    /// Return the first cautious baseline profile.
    pub fn cautious_v1() -> (r: Self)
        ensures
            r.evaluation == ScriptedAgentEvaluationRule::Threat,
    {
        ScriptedAgentProfile { evaluation: ScriptedAgentEvaluationRule::Threat }
    }

    /// Return the risk-taking matched-input comparison profile.
    pub fn risk_taking_v1() -> (r: Self)
        ensures
            r.evaluation == ScriptedAgentEvaluationRule::Contest,
    {
        ScriptedAgentProfile { evaluation: ScriptedAgentEvaluationRule::Contest }
    }

    /// Return the yielding matched-input comparison profile.
    pub fn yielding_v1() -> (r: Self)
        ensures
            r.evaluation == ScriptedAgentEvaluationRule::Yield,
    {
        ScriptedAgentProfile { evaluation: ScriptedAgentEvaluationRule::Yield }
    }

    pub fn profile_id(self) -> (r: &'static str)
        ensures
            r@ == profile_id_of(self),
    {
        match self.evaluation {
            ScriptedAgentEvaluationRule::Threat => SCRIPTED_AGENT_PROFILE_ID,
            ScriptedAgentEvaluationRule::Contest => RISK_TAKING_SCRIPTED_AGENT_PROFILE_ID,
            ScriptedAgentEvaluationRule::Yield => YIELDING_SCRIPTED_AGENT_PROFILE_ID,
        }
    }

    pub fn candidate_rule(self) -> (r: &'static str)
        ensures
            r@ == SCRIPTED_AGENT_CANDIDATE_RULE@,
    {
        SCRIPTED_AGENT_CANDIDATE_RULE
    }

    pub fn evaluation_rule(self) -> (r: &'static str)
        ensures
            r@ == evaluation_rule_of(self),
    {
        match self.evaluation {
            ScriptedAgentEvaluationRule::Threat => SCRIPTED_AGENT_THREAT_EVALUATION_RULE,
            ScriptedAgentEvaluationRule::Contest => SCRIPTED_AGENT_CONTEST_EVALUATION_RULE,
            ScriptedAgentEvaluationRule::Yield => SCRIPTED_AGENT_YIELD_EVALUATION_RULE,
        }
    }

    pub fn selection_rule(self) -> (r: &'static str)
        ensures
            r@ == SCRIPTED_AGENT_STABLE_SELECTION_RULE@,
    {
        SCRIPTED_AGENT_STABLE_SELECTION_RULE
    }

    pub fn role(self) -> (r: ScriptedAgentRole)
        ensures
            r == role_of(self),
    {
        match self.evaluation {
            ScriptedAgentEvaluationRule::Threat => ScriptedAgentRole::Anchor,
            ScriptedAgentEvaluationRule::Contest => ScriptedAgentRole::Duelist,
            ScriptedAgentEvaluationRule::Yield => ScriptedAgentRole::Pacer,
        }
    }

    /// Return the profile's fixed baseline preference before visible-threat
    /// overrides are considered.
    pub fn preferred_intent(self) -> (r: LaneIntent)
        ensures
            r == preferred_intent_of(self),
    {
        match self.evaluation {
            ScriptedAgentEvaluationRule::Threat => LaneIntent::Stabilize,
            ScriptedAgentEvaluationRule::Contest => LaneIntent::Contest,
            ScriptedAgentEvaluationRule::Yield => LaneIntent::Yield,
        }
    }

    /// The profile named by `s[a..b)`.
    pub fn parse_id_range(s: &Vec<char>, a: usize, b: usize) -> (r: Option<Self>)
        requires
            a <= b <= s@.len(),
        ensures
            r == profile_from_id(s@.subrange(a as int, b as int)),
    {
        if range_eq_str(s, a, b, SCRIPTED_AGENT_PROFILE_ID) {
            Some(Self::cautious_v1())
        } else if range_eq_str(s, a, b, RISK_TAKING_SCRIPTED_AGENT_PROFILE_ID) {
            Some(Self::risk_taking_v1())
        } else if range_eq_str(s, a, b, YIELDING_SCRIPTED_AGENT_PROFILE_ID) {
            Some(Self::yielding_v1())
        } else {
            None
        }
    }

    /// The profile named by a profile identity.
    pub fn parse_id(value: &str) -> (r: Result<Self, ScriptedAgentManifestError>)
        ensures
            r == (match profile_from_id(value@) {
                Some(p) => Ok(p),
                None => Err(ScriptedAgentManifestError::InvalidValue),
            }),
    {
        let s = str_to_chars(value);
        assert(s@.subrange(0, s@.len() as int) =~= value@);
        match Self::parse_id_range(&s, 0, s.len()) {
            Some(p) => Ok(p),
            None => Err(ScriptedAgentManifestError::InvalidValue),
        }
    }
}

impl Default for ScriptedAgentProfile {
    fn default() -> (r: Self)
        ensures
            r.evaluation == ScriptedAgentEvaluationRule::Threat,
    {
        Self::cautious_v1()
    }
}

/// The splitmix-style mix of a seed bundle's seed and policy stream position.
pub open spec fn tie_mix(bundle: ScriptedAgentSeedBundle) -> u64 {
    let v0 = bundle.seed ^ ((bundle.policy_trace.stream.0 as u64) << 32u64)
        ^ (bundle.policy_trace.draw.0 as u64);
    let v1 = vstd::wrapping::u64_specs::wrapping_add(v0, 0x9e3779b97f4a7c15u64);
    let v2 = vstd::wrapping::u64_specs::wrapping_mul(v1 ^ (v1 >> 30u64), 0xbf58476d1ce4e5b9u64);
    let v3 = vstd::wrapping::u64_specs::wrapping_mul(v2 ^ (v2 >> 27u64), 0x94d049bb133111ebu64);
    v3 ^ (v3 >> 31u64)
}

/// Explicit policy-only seed and stream/draw identity.
///
/// The caller owns this bundle and must retain it with any seeded decision if
/// the decision is to be reproduced later. It is never derived from true
/// state, a clock, or an implicit global random generator.
#[derive(Clone, Copy, Debug, PartialEq, Eq, Hash, Structural)]
pub struct ScriptedAgentSeedBundle {
    pub seed: u64,
    pub policy_trace: InputTrace,
}

impl ScriptedAgentSeedBundle {
    pub fn new(seed: u64, policy_stream: StreamId, policy_draw: DrawId) -> (r: Self)
        ensures
            r.seed == seed,
            r.policy_trace == (InputTrace { stream: policy_stream, draw: policy_draw }),
    {
        ScriptedAgentSeedBundle { seed, policy_trace: InputTrace::new(policy_stream, policy_draw) }
    }

    pub fn schema(self) -> (r: &'static str)
        ensures
            r@ == SCRIPTED_AGENT_RANDOMNESS_SCHEMA@,
    {
        SCRIPTED_AGENT_RANDOMNESS_SCHEMA
    }

    pub fn seed(self) -> (r: u64)
        ensures
            r == self.seed,
    {
        self.seed
    }

    pub fn policy_trace(self) -> (r: InputTrace)
        ensures
            r == self.policy_trace,
    {
        self.policy_trace
    }

    /// The tie slot, below `upper_bound`, that this bundle selects.
    pub fn tie_index(self, upper_bound: usize) -> (r: usize)
        requires
            upper_bound > 0,
        ensures
            r as int == tie_mix(self) as int % upper_bound as int,
            r < upper_bound,
    {
        let mut value: u64 = self.seed ^ ((self.policy_trace.stream.0 as u64) << 32u64)
            ^ (self.policy_trace.draw.0 as u64);
        value = value.wrapping_add(0x9e3779b97f4a7c15u64);
        value = (value ^ (value >> 30u64)).wrapping_mul(0xbf58476d1ce4e5b9u64);
        value = (value ^ (value >> 27u64)).wrapping_mul(0x94d049bb133111ebu64);
        value = value ^ (value >> 31u64);
        let bound = upper_bound as u64;
        (value % bound) as usize
    }
}

/// Bounded failures for the versioned experiment-manifest codec.
#[derive(Clone, Copy, Debug, PartialEq, Eq, Hash, Structural)]
pub enum ScriptedAgentManifestError {
    Oversized,
    UnexpectedLineCount { expected: usize, actual: usize },
    UnknownField,
    DuplicateField,
    MissingField,
    UnsupportedSchema,
    InvalidValue,
}

/// Reproducibility metadata for one bounded scripted-agent fixture run; its
/// schema and scenario are always the current manifest schema and fixture.
#[derive(Clone, Copy, Debug, PartialEq, Eq, Hash, Structural)]
pub struct ScriptedAgentExperimentManifest {
    pub profile: ScriptedAgentProfile,
    pub seed_bundle: ScriptedAgentSeedBundle,
}

/// The canonical text of a manifest.
pub open spec fn manifest_text(m: ScriptedAgentExperimentManifest) -> Seq<char> {
    "schema="@ + SCRIPTED_AGENT_EXPERIMENT_MANIFEST_SCHEMA@ + "\nscenario="@
        + SCRIPTED_AGENT_EXPERIMENT_SCENARIO_ID@ + "\nprofile="@ + profile_id_of(m.profile)
        + "\nevaluation_rule="@ + evaluation_rule_of(m.profile) + "\nselection_rule="@
        + SCRIPTED_AGENT_SEEDED_SELECTION_RULE@ + "\nseed="@ + decimal(m.seed_bundle.seed as nat)
        + "\npolicy_stream="@ + decimal(m.seed_bundle.policy_trace.stream.0 as nat)
        + "\npolicy_draw="@ + decimal(m.seed_bundle.policy_trace.draw.0 as nat) + "\n"@
}

/// The keys of a manifest, in canonical order.
pub open spec fn manifest_keys() -> Seq<Seq<char>> {
    seq![
        "schema"@,
        "scenario"@,
        "profile"@,
        "evaluation_rule"@,
        "selection_rule"@,
        "seed"@,
        "policy_stream"@,
        "policy_draw"@,
    ]
}

/// No key of a fixed-key record repeats.
pub open spec fn no_repeats(n: nat) -> Seq<bool> {
    Seq::new(n, |i: int| false)
}

/// The text of the single value of key `k`, if present.
pub open spec fn value_text(s: Seq<char>, slots: Seq<Seq<(int, int)>>, k: int) -> Option<Seq<char>> {
    match single_value(slots, k) {
        Some(r) => Some(s.subrange(r.0, r.1)),
        None => None,
    }
}

/// A required number of type bounded by `max` in the value of key `k`.
pub open spec fn value_number(
    s: Seq<char>,
    slots: Seq<Seq<(int, int)>>,
    k: int,
    max: nat,
) -> Result<nat, ScriptedAgentManifestError> {
    match single_value(slots, k) {
        None => Err(ScriptedAgentManifestError::MissingField),
        Some(r) => match parse_bounded(s, r.0, r.1, max) {
            Some(v) => Ok(v),
            None => Err(ScriptedAgentManifestError::InvalidValue),
        },
    }
}

/// A value that is the decimal spelling of a number in range reads as that number.
pub proof fn lemma_value_number_decimal(
    s: Seq<char>,
    slots: Seq<Seq<(int, int)>>,
    k: int,
    n: nat,
    max: nat,
)
    requires
        0 <= k < slots.len(),
        slots[k].len() > 0,
        0 <= slots[k][0].0 <= slots[k][0].1 <= s.len(),
        s.subrange(slots[k][0].0, slots[k][0].1) == decimal(n),
        n <= max,
    ensures
        value_number(s, slots, k, max) == Ok::<nat, ScriptedAgentManifestError>(n),
{
    lemma_parse_decimal(s, slots[k][0].0, n, max);
}

/// The manifest a fully read set of fields describes.
pub open spec fn manifest_from_fields(s: Seq<char>, slots: Seq<Seq<(int, int)>>) -> Result<
    ScriptedAgentExperimentManifest,
    ScriptedAgentManifestError,
> {
    if value_text(s, slots, 0) != Some(SCRIPTED_AGENT_EXPERIMENT_MANIFEST_SCHEMA@) {
        Err(ScriptedAgentManifestError::UnsupportedSchema)
    } else if value_text(s, slots, 1) != Some(SCRIPTED_AGENT_EXPERIMENT_SCENARIO_ID@) {
        Err(ScriptedAgentManifestError::InvalidValue)
    } else {
        match value_text(s, slots, 2) {
            None => Err(ScriptedAgentManifestError::MissingField),
            Some(id) => match profile_from_id(id) {
                None => Err(ScriptedAgentManifestError::InvalidValue),
                Some(profile) => if value_text(s, slots, 3) != Some(evaluation_rule_of(profile))
                    || value_text(s, slots, 4) != Some(SCRIPTED_AGENT_SEEDED_SELECTION_RULE@) {
                    Err(ScriptedAgentManifestError::InvalidValue)
                } else {
                    match value_number(s, slots, 5, u64::MAX as nat) {
                        Err(e) => Err(e),
                        Ok(seed) => match value_number(s, slots, 6, u8::MAX as nat) {
                            Err(e) => Err(e),
                            Ok(stream) => match value_number(s, slots, 7, u16::MAX as nat) {
                                Err(e) => Err(e),
                                Ok(draw) => Ok(
                                    ScriptedAgentExperimentManifest {
                                        profile,
                                        seed_bundle: ScriptedAgentSeedBundle {
                                            seed: seed as u64,
                                            policy_trace: InputTrace {
                                                stream: StreamId(stream as u8),
                                                draw: DrawId(draw as u16),
                                            },
                                        },
                                    },
                                ),
                            },
                        },
                    }
                },
            },
        }
    }
}

/// What decoding a manifest text of `byte_len` bytes gives.
pub open spec fn manifest_decode(s: Seq<char>, byte_len: nat) -> Result<
    ScriptedAgentExperimentManifest,
    ScriptedAgentManifestError,
> {
    let lines = line_ranges(s);
    if byte_len > MAX_SCRIPTED_AGENT_MANIFEST_BYTES {
        Err(ScriptedAgentManifestError::Oversized)
    } else if lines.len() > 8 {
        Err(ScriptedAgentManifestError::UnexpectedLineCount { expected: 8, actual: lines.len() as usize })
    } else if !all_pairs(s, lines) {
        Err(ScriptedAgentManifestError::InvalidValue)
    } else {
        match field_scan(s, lines, manifest_keys(), no_repeats(8), lines.len()) {
            FieldScan::Fine(slots) => manifest_from_fields(s, slots),
            FieldScan::Invalid => Err(ScriptedAgentManifestError::InvalidValue),
            FieldScan::Unknown => Err(ScriptedAgentManifestError::UnknownField),
            FieldScan::Duplicate => Err(ScriptedAgentManifestError::DuplicateField),
        }
    }
}

/// The values of a manifest's record, in key order.
spec fn manifest_vals(m: ScriptedAgentExperimentManifest) -> Seq<Seq<char>> {
    seq![
        SCRIPTED_AGENT_EXPERIMENT_MANIFEST_SCHEMA@,
        SCRIPTED_AGENT_EXPERIMENT_SCENARIO_ID@,
        profile_id_of(m.profile),
        evaluation_rule_of(m.profile),
        SCRIPTED_AGENT_SEEDED_SELECTION_RULE@,
        decimal(m.seed_bundle.seed as nat),
        decimal(m.seed_bundle.policy_trace.stream.0 as nat),
        decimal(m.seed_bundle.policy_trace.draw.0 as nat),
    ]
}

/// A manifest's text is its record, one pair per line.
#[verifier::spinoff_prover]
#[verifier::rlimit(100)]
proof fn lemma_manifest_text_lines(m: ScriptedAgentExperimentManifest)
    ensures
        manifest_text(m) == joined_lines(record_lines(manifest_keys(), manifest_vals(m))),
{
    reveal_strlit("schema");
    reveal_strlit("scenario");
    reveal_strlit("profile");
    reveal_strlit("evaluation_rule");
    reveal_strlit("selection_rule");
    reveal_strlit("seed");
    reveal_strlit("policy_stream");
    reveal_strlit("policy_draw");
    reveal_strlit("schema=");
    reveal_strlit("\nscenario=");
    reveal_strlit("\nprofile=");
    reveal_strlit("\nevaluation_rule=");
    reveal_strlit("\nselection_rule=");
    reveal_strlit("\nseed=");
    reveal_strlit("\npolicy_stream=");
    reveal_strlit("\npolicy_draw=");
    reveal_strlit("\n");
    let h = record_lines(manifest_keys(), manifest_vals(m));
    let e = Seq::<Seq<char>>::empty();
    assert(joined_lines(e) == Seq::<char>::empty());
    let p1 = e.push(h[0]);
    let p2 = p1.push(h[1]);
    let p3 = p2.push(h[2]);
    let p4 = p3.push(h[3]);
    let p5 = p4.push(h[4]);
    let p6 = p5.push(h[5]);
    let p7 = p6.push(h[6]);
    let p8 = p7.push(h[7]);
    lemma_joined_lines_push(e, h[0]);
    lemma_joined_lines_push(p1, h[1]);
    lemma_joined_lines_push(p2, h[2]);
    lemma_joined_lines_push(p3, h[3]);
    lemma_joined_lines_push(p4, h[4]);
    lemma_joined_lines_push(p5, h[5]);
    lemma_joined_lines_push(p6, h[6]);
    lemma_joined_lines_push(p7, h[7]);
    assert(p8 =~= h);
    assert(manifest_text(m) =~= joined_lines(h));
}

/// A manifest's keys and values can be written as a record.
proof fn lemma_manifest_writable(m: ScriptedAgentExperimentManifest)
    ensures
        writable_record(manifest_keys(), manifest_vals(m)),
{
    let keys = manifest_keys();
    let vals = manifest_vals(m);
    reveal_strlit("schema");
    reveal_strlit("scenario");
    reveal_strlit("profile");
    reveal_strlit("evaluation_rule");
    reveal_strlit("selection_rule");
    reveal_strlit("seed");
    reveal_strlit("policy_stream");
    reveal_strlit("policy_draw");
    reveal_strlit("m6-experiment-manifest-v1");
    reveal_strlit("m3-two-window-fixture-v1");
    reveal_strlit("max-score-seeded-tie-v1");
    reveal_strlit("cautious-laner-v1");
    reveal_strlit("risk-taking-laner-v1");
    reveal_strlit("yielding-laner-v1");
    reveal_strlit("threat-first-pressure-aware-fixed-score-v1");
    reveal_strlit("contest-first-fixed-score-v1");
    reveal_strlit("yield-first-fixed-score-v1");
    lemma_decimal_plain(m.seed_bundle.seed as nat);
    lemma_decimal_plain(m.seed_bundle.policy_trace.stream.0 as nat);
    lemma_decimal_plain(m.seed_bundle.policy_trace.draw.0 as nat);
    assert(plain_line(vals[2]) && vals[2].len() > 0 && plain_line(vals[3]) && vals[3].len() > 0) by {
        match m.profile.evaluation {
            ScriptedAgentEvaluationRule::Threat => {},
            ScriptedAgentEvaluationRule::Contest => {},
            ScriptedAgentEvaluationRule::Yield => {},
        }
    }
    assert forall|x: int, y: int| 0 <= x < 8 && 0 <= y < 8 && x != y implies keys[x] != keys[y] by {
        if keys[x].len() == keys[y].len() {
            assert(keys[x][0] != keys[y][0] || keys[x][1] != keys[y][1]);
        }
    }
}

/// The text of a manifest is ASCII, fits the size cap, and any input holding
/// it decodes back to that manifest.
pub proof fn lemma_manifest_text_reads_back(m: ScriptedAgentExperimentManifest)
    ensures
        is_ascii_chars(manifest_text(m)),
        manifest_text(m).len() <= MAX_SCRIPTED_AGENT_MANIFEST_BYTES,
        encode_utf8(manifest_text(m)).len() == manifest_text(m).len(),
        manifest_decode(manifest_text(m), encode_utf8(manifest_text(m)).len()) == Ok::<
            ScriptedAgentExperimentManifest,
            ScriptedAgentManifestError,
        >(m),
{
    reveal_strlit("schema");
    reveal_strlit("scenario");
    reveal_strlit("profile");
    reveal_strlit("evaluation_rule");
    reveal_strlit("selection_rule");
    reveal_strlit("seed");
    reveal_strlit("policy_stream");
    reveal_strlit("policy_draw");
    reveal_strlit("m6-experiment-manifest-v1");
    reveal_strlit("m3-two-window-fixture-v1");
    reveal_strlit("max-score-seeded-tie-v1");
    let keys = manifest_keys();
    let vals = manifest_vals(m);
    lemma_profile_texts_ascii(m.profile);
    lemma_decimal_u64(m.seed_bundle.seed as nat);
    lemma_decimal_u64(m.seed_bundle.policy_trace.stream.0 as nat);
    lemma_decimal_u64(m.seed_bundle.policy_trace.draw.0 as nat);
    assert(is_ascii_chars(SCRIPTED_AGENT_EXPERIMENT_MANIFEST_SCHEMA@));
    assert(is_ascii_chars(SCRIPTED_AGENT_EXPERIMENT_SCENARIO_ID@));
    assert(is_ascii_chars(SCRIPTED_AGENT_SEEDED_SELECTION_RULE@));
    assert forall|i: int| 0 <= i < 8 implies is_ascii_chars(#[trigger] keys[i]) && is_ascii_chars(
        vals[i],
    ) && keys[i].len() + 1 + vals[i].len() <= 60 by {}
    lemma_record_ascii(keys, vals, 60);
    lemma_manifest_text_lines(m);
    lemma_ascii_byte_len(manifest_text(m));
    lemma_manifest_round_trip(m, manifest_text(m).len());
}

/// Reading back a written manifest gives the same manifest.
pub proof fn lemma_manifest_round_trip(m: ScriptedAgentExperimentManifest, byte_len: nat)
    requires
        byte_len <= MAX_SCRIPTED_AGENT_MANIFEST_BYTES,
    ensures
        manifest_decode(manifest_text(m), byte_len) == Ok::<
            ScriptedAgentExperimentManifest,
            ScriptedAgentManifestError,
        >(m),
{
    let keys = manifest_keys();
    let vals = manifest_vals(m);
    let text = manifest_text(m);
    lemma_manifest_text_lines(m);
    lemma_manifest_writable(m);
    lemma_record_fields(text, keys, vals, no_repeats(8));
    let slots = Seq::new(8, |k: int| seq![record_value_span(text, keys, k)]);
    let r5 = record_value_span(text, keys, 5);
    let r6 = record_value_span(text, keys, 6);
    let r7 = record_value_span(text, keys, 7);
    assert(single_value(slots, 5) == Some(r5));
    assert(single_value(slots, 6) == Some(r6));
    assert(single_value(slots, 7) == Some(r7));
    lemma_parse_decimal(text, r5.0, m.seed_bundle.seed as nat, u64::MAX as nat);
    lemma_parse_decimal(text, r6.0, m.seed_bundle.policy_trace.stream.0 as nat, u8::MAX as nat);
    lemma_parse_decimal(text, r7.0, m.seed_bundle.policy_trace.draw.0 as nat, u16::MAX as nat);
    lemma_profile_id_round_trip(m.profile);
    assert(value_text(text, slots, 0) == Some(vals[0]));
    assert(value_text(text, slots, 1) == Some(vals[1]));
    assert(value_text(text, slots, 2) == Some(vals[2]));
    assert(value_text(text, slots, 3) == Some(vals[3]));
    assert(value_text(text, slots, 4) == Some(vals[4]));
}

/// The literal keys of a manifest.
fn manifest_key_literals() -> (r: [&'static str; 8])
    ensures
        key_seq(r@) == manifest_keys(),
        forall|x: int, y: int|
            0 <= x < 8 && 0 <= y < 8 && x != y ==> manifest_keys()[x] != manifest_keys()[y],
{
    let r = [
        "schema",
        "scenario",
        "profile",
        "evaluation_rule",
        "selection_rule",
        "seed",
        "policy_stream",
        "policy_draw",
    ];
    proof {
        reveal_strlit("schema");
        reveal_strlit("scenario");
        reveal_strlit("profile");
        reveal_strlit("evaluation_rule");
        reveal_strlit("selection_rule");
        reveal_strlit("seed");
        reveal_strlit("policy_stream");
        reveal_strlit("policy_draw");
        assert(key_seq(r@) =~= manifest_keys());
        assert forall|x: int, y: int|
            0 <= x < 8 && 0 <= y < 8 && x != y implies manifest_keys()[x]
            != manifest_keys()[y] by {
            assert(manifest_keys()[x].len() != manifest_keys()[y].len());
        }
    }
    r
}

/// Read a value range as a required number of type bounded by `max`.
pub fn read_number(
    s: &Vec<char>,
    slots: &Vec<Vec<(usize, usize)>>,
    k: usize,
    max: u64,
) -> (r: Result<u64, ScriptedAgentManifestError>)
    requires
        k < slots@.len(),
        forall|m: int| 0 <= m < slots@[k as int]@.len() ==> (#[trigger] slots@[k as int]@[m]).0
            <= slots@[k as int]@[m].1 <= s@.len(),
    ensures
        match r {
            Ok(v) => value_number(s@, crate::codec::slots_view(slots@), k as int, max as nat) == Ok::<
                nat,
                ScriptedAgentManifestError,
            >(v as nat),
            Err(e) => value_number(s@, crate::codec::slots_view(slots@), k as int, max as nat)
                == Err::<nat, ScriptedAgentManifestError>(e),
        },
{
    if slots[k].len() == 0 {
        return Err(ScriptedAgentManifestError::MissingField);
    }
    let (a, b) = slots[k][0];
    assert(crate::codec::slots_view(slots@)[k as int][0] == (a as int, b as int));
    match parse_number(s, a, b, max) {
        Some(v) => Ok(v),
        None => Err(ScriptedAgentManifestError::InvalidValue),
    }
}

/// Whether the single value of key `k` spells `lit`.
pub fn value_is(s: &Vec<char>, slots: &Vec<Vec<(usize, usize)>>, k: usize, lit: &str) -> (r: bool)
    requires
        k < slots@.len(),
        forall|m: int| 0 <= m < slots@[k as int]@.len() ==> (#[trigger] slots@[k as int]@[m]).0
            <= slots@[k as int]@[m].1 <= s@.len(),
    ensures
        r == (value_text(s@, crate::codec::slots_view(slots@), k as int) == Some(lit@)),
{
    if slots[k].len() == 0 {
        return false;
    }
    let (a, b) = slots[k][0];
    assert(crate::codec::slots_view(slots@)[k as int][0] == (a as int, b as int));
    range_eq_str(s, a, b, lit)
}

impl ScriptedAgentExperimentManifest {
    /// Construct a manifest for the current versioned two-window fixture.
    pub fn new(profile: ScriptedAgentProfile, seed_bundle: ScriptedAgentSeedBundle) -> (r: Self)
        ensures
            r.profile == profile,
            r.seed_bundle == seed_bundle,
    {
        ScriptedAgentExperimentManifest { profile, seed_bundle }
    }

    pub fn schema(self) -> (r: &'static str)
        ensures
            r@ == SCRIPTED_AGENT_EXPERIMENT_MANIFEST_SCHEMA@,
    {
        SCRIPTED_AGENT_EXPERIMENT_MANIFEST_SCHEMA
    }

    pub fn scenario_id(self) -> (r: &'static str)
        ensures
            r@ == SCRIPTED_AGENT_EXPERIMENT_SCENARIO_ID@,
    {
        SCRIPTED_AGENT_EXPERIMENT_SCENARIO_ID
    }

    pub fn profile(self) -> (r: ScriptedAgentProfile)
        ensures
            r == self.profile,
    {
        self.profile
    }

    pub fn seed_bundle(self) -> (r: ScriptedAgentSeedBundle)
        ensures
            r == self.seed_bundle,
    {
        self.seed_bundle
    }

    pub fn selection_rule(self) -> (r: &'static str)
        ensures
            r@ == SCRIPTED_AGENT_SEEDED_SELECTION_RULE@,
    {
        SCRIPTED_AGENT_SEEDED_SELECTION_RULE
    }

    /// Encode reproducibility metadata without observations or experiment output.
    pub fn encode(self) -> (r: String)
        ensures
            r@ == manifest_text(self),
            is_ascii_chars(r@),
            r@.len() <= MAX_SCRIPTED_AGENT_MANIFEST_BYTES,
    {
        proof {
            lemma_manifest_text_reads_back(self);
        }
        let trace = self.seed_bundle.policy_trace();
        let mut out = String::new();
        push_str(&mut out, "schema=");
        push_str(&mut out, SCRIPTED_AGENT_EXPERIMENT_MANIFEST_SCHEMA);
        push_str(&mut out, "\nscenario=");
        push_str(&mut out, SCRIPTED_AGENT_EXPERIMENT_SCENARIO_ID);
        push_str(&mut out, "\nprofile=");
        push_str(&mut out, self.profile.profile_id());
        push_str(&mut out, "\nevaluation_rule=");
        push_str(&mut out, self.profile.evaluation_rule());
        push_str(&mut out, "\nselection_rule=");
        push_str(&mut out, SCRIPTED_AGENT_SEEDED_SELECTION_RULE);
        push_str(&mut out, "\nseed=");
        push_decimal(&mut out, self.seed_bundle.seed);
        push_str(&mut out, "\npolicy_stream=");
        push_decimal(&mut out, trace.stream.0 as u64);
        push_str(&mut out, "\npolicy_draw=");
        push_decimal(&mut out, trace.draw.0 as u64);
        push_str(&mut out, "\n");
        out
    }

    /// Decode a manifest without constructing an agent or running an experiment.
    pub fn decode(input: &str) -> (r: Result<Self, ScriptedAgentManifestError>)
        ensures
            r == manifest_decode(input@, input.len() as nat),
    {
        if input.len() > MAX_SCRIPTED_AGENT_MANIFEST_BYTES {
            return Err(ScriptedAgentManifestError::Oversized);
        }
        let s = str_to_chars(input);
        let lines = lines(&s);
        let ghost lv = range_seq(lines@);
        assert(lv =~= line_ranges(s@));
        if lines.len() > 8 {
            return Err(
                ScriptedAgentManifestError::UnexpectedLineCount { expected: 8, actual: lines.len() },
            );
        }
        if !check_all_pairs(&s, &lines) {
            return Err(ScriptedAgentManifestError::InvalidValue);
        }
        let keys = manifest_key_literals();
        let repeatable = [false, false, false, false, false, false, false, false];
        assert(repeatable@ =~= no_repeats(8));
        let slots = match scan_fields(&s, &lines, &keys, &repeatable) {
            Ok(slots) => slots,
            Err(ScanError::Invalid) => {
                return Err(ScriptedAgentManifestError::InvalidValue);
            },
            Err(ScanError::Unknown) => {
                return Err(ScriptedAgentManifestError::UnknownField);
            },
            Err(ScanError::Duplicate) => {
                return Err(ScriptedAgentManifestError::DuplicateField);
            },
        };
        let ghost sl = crate::codec::slots_view(slots@);
        if !value_is(&s, &slots, 0, SCRIPTED_AGENT_EXPERIMENT_MANIFEST_SCHEMA) {
            return Err(ScriptedAgentManifestError::UnsupportedSchema);
        }
        if !value_is(&s, &slots, 1, SCRIPTED_AGENT_EXPERIMENT_SCENARIO_ID) {
            return Err(ScriptedAgentManifestError::InvalidValue);
        }
        if slots[2].len() == 0 {
            return Err(ScriptedAgentManifestError::MissingField);
        }
        let (pa, pb) = slots[2][0];
        assert(sl[2][0] == (pa as int, pb as int));
        let profile = match ScriptedAgentProfile::parse_id_range(&s, pa, pb) {
            Some(p) => p,
            None => {
                return Err(ScriptedAgentManifestError::InvalidValue);
            },
        };
        if !value_is(&s, &slots, 3, profile.evaluation_rule()) || !value_is(
            &s,
            &slots,
            4,
            SCRIPTED_AGENT_SEEDED_SELECTION_RULE,
        ) {
            return Err(ScriptedAgentManifestError::InvalidValue);
        }
        let seed = read_number(&s, &slots, 5, u64::MAX)?;
        let stream = read_number(&s, &slots, 6, u8::MAX as u64)?;
        let draw = read_number(&s, &slots, 7, u16::MAX as u64)?;
        Ok(
            Self::new(
                profile,
                ScriptedAgentSeedBundle::new(
                    seed,
                    StreamId::new(stream as u8),
                    DrawId::new(draw as u16),
                ),
            ),
        )
    }
}

/// Fixed version identities applicable to the deterministic M6 fixture.
#[derive(Clone, Copy, Debug, PartialEq, Eq, Hash, Structural)]
pub struct ScriptedAgentExperimentVersionCatalog {}

impl ScriptedAgentExperimentVersionCatalog {
    /// Return the fixed catalog for the current deterministic fixture.
    pub fn current() -> (r: Self)
        ensures
            r == (ScriptedAgentExperimentVersionCatalog {  }),
    {
        ScriptedAgentExperimentVersionCatalog {  }
    }

    pub fn schema(self) -> (r: &'static str)
        ensures
            r@ == SCRIPTED_AGENT_EXPERIMENT_VERSION_CATALOG_SCHEMA@,
    {
        SCRIPTED_AGENT_EXPERIMENT_VERSION_CATALOG_SCHEMA
    }

    pub fn ruleset_id(self) -> (r: &'static str)
        ensures
            r@ == SCRIPTED_AGENT_EXPERIMENT_RULESET_ID@,
    {
        SCRIPTED_AGENT_EXPERIMENT_RULESET_ID
    }

    pub fn scenario_id(self) -> (r: &'static str)
        ensures
            r@ == SCRIPTED_AGENT_EXPERIMENT_SCENARIO_ID@,
    {
        SCRIPTED_AGENT_EXPERIMENT_SCENARIO_ID
    }

    pub fn policy_schema(self) -> (r: &'static str)
        ensures
            r@ == SCRIPTED_AGENT_SCHEMA@,
    {
        SCRIPTED_AGENT_SCHEMA
    }

    pub fn profile_ids(self) -> (r: [&'static str; 3])
        ensures
            r@[0]@ == SCRIPTED_AGENT_PROFILE_ID@,
            r@[1]@ == RISK_TAKING_SCRIPTED_AGENT_PROFILE_ID@,
            r@[2]@ == YIELDING_SCRIPTED_AGENT_PROFILE_ID@,
    {
        [
            SCRIPTED_AGENT_PROFILE_ID,
            RISK_TAKING_SCRIPTED_AGENT_PROFILE_ID,
            YIELDING_SCRIPTED_AGENT_PROFILE_ID,
        ]
    }

    pub fn prompt_version(self) -> (r: &'static str)
        ensures
            r@ == SCRIPTED_AGENT_VERSION_NOT_APPLICABLE@,
    {
        SCRIPTED_AGENT_VERSION_NOT_APPLICABLE
    }

    pub fn tool_schema_version(self) -> (r: &'static str)
        ensures
            r@ == SCRIPTED_AGENT_VERSION_NOT_APPLICABLE@,
    {
        SCRIPTED_AGENT_VERSION_NOT_APPLICABLE
    }

    pub fn model_version(self) -> (r: &'static str)
        ensures
            r@ == SCRIPTED_AGENT_VERSION_NOT_APPLICABLE@,
    {
        SCRIPTED_AGENT_VERSION_NOT_APPLICABLE
    }

    pub fn extractor_version(self) -> (r: &'static str)
        ensures
            r@ == SCRIPTED_AGENT_VERSION_NOT_APPLICABLE@,
    {
        SCRIPTED_AGENT_VERSION_NOT_APPLICABLE
    }
}

} // verus!
