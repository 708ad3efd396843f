//! Deterministic in-process evaluation of declared manifests over one
//! observation, the input fingerprint that binds a resumable cursor to its
//! inputs, and the cursor's line codec.

use vstd::prelude::*;
use vstd::utf8::{encode_utf8, is_ascii_chars};
use vstd::string::StringSliceAdditionalSpecFns;
use crate::codec::{
    all_pairs, check_all_pairs, field_scan, key_seq, range_seq, scan_fields, single_value,
    slots_view, FieldScan, ScanError, lemma_record_ascii, lemma_record_fields, record_lines,
    record_value_span, writable_record,
};
use crate::lane::{
    intent_set_seq, ActorId, HiddenValue, JungleThreatRegion, LaneActorRole, LaneIntent,
    LanePosition, LaneTurn, LanerObservation, ObservationId, LANER_OBSERVATION_SCHEMA,
};
use crate::operational::{
    ScriptedAgentOperationalEvent, ScriptedAgentOperationalLog,
    MAX_SCRIPTED_AGENT_OPERATIONAL_EVENTS,
};
use crate::policy::{advertises_some, decision_for, DecisionView, ScriptedAgent, ScriptedAgentDecision};
use crate::profile::{
    evaluation_rule_of, lemma_value_number_decimal, no_repeats, profile_id_of, read_number, value_is,
    value_number, value_text,
    ScriptedAgentExperimentManifest, ScriptedAgentManifestError,
    SCRIPTED_AGENT_EXPERIMENT_MANIFEST_SCHEMA, SCRIPTED_AGENT_EXPERIMENT_SCENARIO_ID,
    SCRIPTED_AGENT_SEEDED_SELECTION_RULE,
};
use crate::text::{
    decimal, joined_lines, lemma_ascii_byte_len, lemma_decimal_plain, lemma_decimal_u64, lemma_joined_lines_push, lemma_parse_decimal, line_ranges, lines,
    plain_line, push_decimal, push_str, str_to_chars,
};

verus! {

/// Maximum number of manifests evaluated by one in-process batch.
pub const MAX_SCRIPTED_AGENT_BATCH_MANIFESTS: usize = 16;

/// Versioned identity for a bounded resumable batch cursor.
pub const SCRIPTED_AGENT_BATCH_RUN_SCHEMA: &'static str = "m6-scripted-agent-batch-run-v1";

/// Maximum encoded checkpoint size before parsing or allocation.
pub const MAX_SCRIPTED_AGENT_BATCH_RUN_BYTES: usize = 4096;

/// Bounded failures from the deterministic local batch runner.
#[derive(Clone, Copy, Debug, PartialEq, Eq, Hash, Structural)]
pub enum ScriptedAgentBatchError {
    EmptyBatch,
    BatchTooLarge { max: usize, actual: usize },
}

/// Bounded failures from checkpoint encoding and decoding.
#[derive(Clone, Copy, Debug, PartialEq, Eq, Hash, Structural)]
pub enum ScriptedAgentBatchCheckpointError {
    Oversized,
    UnexpectedLineCount { expected: usize, actual: usize },
    UnknownField,
    DuplicateField,
    MissingField,
    UnsupportedSchema,
    InvalidValue,
}

/// Bounded failures from chunked batch execution and checkpoint matching.
#[derive(Clone, Copy, Debug, PartialEq, Eq, Hash, Structural)]
pub enum ScriptedAgentBatchRunError {
    Batch(ScriptedAgentBatchError),
    InputMismatch,
    ChunkSizeZero,
}

/// Bounded failures from producing one complete batch lifecycle trace.
#[derive(Clone, Copy, Debug, PartialEq, Eq, Hash, Structural)]
pub enum ScriptedAgentOperationalBatchRunError {
    Batch(ScriptedAgentBatchError),
    LogCapacityExceeded { max: usize },
}

/// What validating a manifest list of `n` entries gives.
pub open spec fn batch_check(n: nat) -> Result<(), ScriptedAgentBatchError> {
    if n == 0 {
        Err(ScriptedAgentBatchError::EmptyBatch)
    } else if n > MAX_SCRIPTED_AGENT_BATCH_MANIFESTS {
        Err(
            ScriptedAgentBatchError::BatchTooLarge {
                max: MAX_SCRIPTED_AGENT_BATCH_MANIFESTS,
                actual: n as usize,
            },
        )
    } else {
        Ok(())
    }
}

/// Check that a manifest list is non-empty and within the batch cap.
pub fn validate_batch(manifests: &[ScriptedAgentExperimentManifest]) -> (r: Result<
    (),
    ScriptedAgentBatchError,
>)
    ensures
        r == batch_check(manifests@.len()),
{
    if manifests.len() == 0 {
        return Err(ScriptedAgentBatchError::EmptyBatch);
    }
    if manifests.len() > MAX_SCRIPTED_AGENT_BATCH_MANIFESTS {
        return Err(
            ScriptedAgentBatchError::BatchTooLarge {
                max: MAX_SCRIPTED_AGENT_BATCH_MANIFESTS,
                actual: manifests.len(),
            },
        );
    }
    Ok(())
}

/// The decision each manifest's profile and seed make for one observation.
pub open spec fn batch_decisions(
    observation: LanerObservation,
    manifests: Seq<ScriptedAgentExperimentManifest>,
) -> Seq<DecisionView> {
    manifests.map_values(
        |m: ScriptedAgentExperimentManifest| decision_for(m.profile, observation, Some(m.seed_bundle)),
    )
}

/// The views of a list of decisions.
pub open spec fn decision_views(v: Seq<ScriptedAgentDecision>) -> Seq<DecisionView> {
    v.map_values(|d: ScriptedAgentDecision| d@)
}

/// FNV-1a offset basis.
pub const FNV_OFFSET: u64 = 0xcbf29ce484222325;

/// FNV-1a prime.
pub const FNV_PRIME: u64 = 0x100000001b3;

/// One FNV-1a step.
pub open spec fn fnv_step(h: u64, b: u8) -> u64 {
    vstd::wrapping::u64_specs::wrapping_mul(h ^ (b as u64), FNV_PRIME)
}

/// FNV-1a over a byte sequence from state `h`.
pub open spec fn fnv(h: u64, bytes: Seq<u8>) -> u64
    decreases bytes.len(),
{
    if bytes.len() == 0 {
        h
    } else {
        fnv_step(fnv(h, bytes.drop_last()), bytes.last())
    }
}

/// Hashing two byte runs in turn is hashing their concatenation.
pub proof fn lemma_fnv_append(h: u64, a: Seq<u8>, b: Seq<u8>)
    ensures
        fnv(h, a + b) == fnv(fnv(h, a), b),
    decreases b.len(),
{
    if b.len() > 0 {
        lemma_fnv_append(h, a, b.drop_last());
        assert((a + b).drop_last() =~= a + b.drop_last());
        assert((a + b).last() == b.last());
    } else {
        assert(a + b =~= a);
    }
}

/// Little-endian bytes of a 16-bit number.
pub open spec fn le_u16(v: u16) -> Seq<u8> {
    seq![v as u8, (v >> 8u16) as u8]
}

/// Little-endian bytes of a 32-bit number.
pub open spec fn le_u32(v: u32) -> Seq<u8> {
    seq![v as u8, (v >> 8u32) as u8, (v >> 16u32) as u8, (v >> 24u32) as u8]
}

/// Little-endian bytes of a 64-bit number.
pub open spec fn le_u64(v: u64) -> Seq<u8> {
    seq![
        v as u8,
        (v >> 8u64) as u8,
        (v >> 16u64) as u8,
        (v >> 24u64) as u8,
        (v >> 32u64) as u8,
        (v >> 40u64) as u8,
        (v >> 48u64) as u8,
        (v >> 56u64) as u8,
    ]
}

/// The hashed form of a text: its byte length, then its UTF-8 bytes.
pub open spec fn str_bytes(s: &str) -> Seq<u8> {
    le_u64(s.len() as u64) + s.spec_bytes()
}

/// The hashed byte of a lane position.
pub open spec fn position_byte(p: LanePosition) -> u8 {
    match p {
        LanePosition::NearTower => 0,
        LanePosition::Center => 1,
        LanePosition::FarSide => 2,
    }
}

/// The hashed byte of an intent.
pub open spec fn intent_byte(i: LaneIntent) -> u8 {
    match i {
        LaneIntent::Stabilize => 0,
        LaneIntent::Contest => 1,
        LaneIntent::Yield => 2,
        LaneIntent::Recall => 3,
        LaneIntent::Withdraw => 4,
    }
}

/// The hashed bytes of an intent list.
pub open spec fn intents_bytes(v: Seq<LaneIntent>) -> Seq<u8> {
    v.map_values(|i: LaneIntent| intent_byte(i))
}

/// The hashed form of an observation's identity and own state.
pub open spec fn observation_self_bytes(o: LanerObservation) -> Seq<u8> {
    str_bytes(LANER_OBSERVATION_SCHEMA) + seq![
        o.observer.0,
        o.actors.human_laner.0,
        o.actors.opposing_laner.0,
        o.actors.allied_autonomous.0,
        o.actors.opposing_jungle_threat.0,
    ] + le_u32(o.turn.0)
        + le_u64(o.observation_id.0) + seq![
        o.self_health,
        o.self_mana,
        o.self_gold,
        o.self_experience,
        o.self_cooldown,
        position_byte(o.self_position),
        o.wave_pressure.0,
    ]
}

/// The hashed form of what an observation knows of the opponent and the threat.
pub open spec fn observation_others_bytes(o: LanerObservation) -> Seq<u8> {
    (match o.opponent.last_known_position {
        Some(p) => seq![1u8, position_byte(p)],
        None => seq![0u8],
    }) + (match o.opponent.last_seen_turn {
        Some(t) => seq![1u8] + le_u32(t.0),
        None => seq![0u8],
    }) + seq![0u8, 0u8] + (match o.jungle_threat.last_known {
        Some(k) => seq![1u8, 0u8] + le_u32(k.turn.0),
        None => seq![0u8],
    })
}

/// The hashed bytes of a list of availability flags: the index of each set
/// flag, in order.
#[verifier::opaque]
pub open spec fn flag_bytes(f: Seq<bool>) -> Seq<u8>
    decreases f.len(),
{
    if f.len() == 0 {
        Seq::empty()
    } else {
        flag_bytes(f.drop_last()) + if f.last() {
            seq![(f.len() - 1) as u8]
        } else {
            Seq::<u8>::empty()
        }
    }
}

/// The availability flags an observation advertises beyond its intents:
/// target focuses, commitments, ping signals, abort conditions and fallback
/// behaviors, each list in declaration order.
pub open spec fn offer_flag_lists(o: LanerObservation) -> Seq<Seq<bool>> {
    let t = o.available_target_focuses;
    let c = o.available_commitments;
    let p = o.available_ping_signals;
    let a = o.available_abort_conditions;
    let f = o.available_fallback_behaviors;
    seq![
        seq![t.minions, t.opposing_laner, t.tower],
        seq![c.standard, c.cautious, c.aggressive],
        seq![p.no_ping, p.danger, p.on_my_way, p.assist, p.enemy_missing],
        seq![a.no_abort, a.health_threshold, a.threat_spotted, a.resource_depleted],
        seq![f.maintain_plan, f.retreat_to_tower, f.safe_farm, f.conserve_resources],
    ]
}

/// The hashed form of what an observation advertises.
pub open spec fn observation_offer_bytes(o: LanerObservation) -> Seq<u8> {
    intents_bytes(intent_set_seq(o.available_intents)) + (match o.available_threat_response {
        Some(i) => seq![1u8, intent_byte(i)],
        None => seq![0u8],
    }) + offer_flag_bytes(o) + le_u32(o.window_beats)
}

/// The hashed form of an observation.
pub open spec fn observation_bytes(o: LanerObservation) -> Seq<u8> {
    observation_self_bytes(o) + observation_others_bytes(o) + observation_offer_bytes(o)
}

/// The hashed form of one manifest.
pub open spec fn manifest_bytes(m: ScriptedAgentExperimentManifest) -> Seq<u8> {
    str_bytes(SCRIPTED_AGENT_EXPERIMENT_MANIFEST_SCHEMA) + str_bytes(
        SCRIPTED_AGENT_EXPERIMENT_SCENARIO_ID,
    ) + str_bytes_of(profile_id_bytes(m)) + str_bytes_of(evaluation_rule_bytes(m)) + str_bytes(
        SCRIPTED_AGENT_SEEDED_SELECTION_RULE,
    ) + le_u64(m.seed_bundle.seed) + seq![m.seed_bundle.policy_trace.stream.0] + le_u16(
        m.seed_bundle.policy_trace.draw.0,
    )
}

/// The hashed form of a text given by its UTF-8 bytes.
pub open spec fn str_bytes_of(bytes: Seq<u8>) -> Seq<u8> {
    le_u64((bytes.len() as usize) as u64) + bytes
}

/// The UTF-8 bytes of a manifest's profile identity.
pub open spec fn profile_id_bytes(m: ScriptedAgentExperimentManifest) -> Seq<u8> {
    vstd::utf8::encode_utf8(profile_id_of(m.profile))
}

/// The UTF-8 bytes of a manifest's evaluation rule.
pub open spec fn evaluation_rule_bytes(m: ScriptedAgentExperimentManifest) -> Seq<u8> {
    vstd::utf8::encode_utf8(evaluation_rule_of(m.profile))
}

/// The hashed form of a manifest list.
pub open spec fn manifests_bytes(ms: Seq<ScriptedAgentExperimentManifest>) -> Seq<u8>
    decreases ms.len(),
{
    if ms.len() == 0 {
        Seq::empty()
    } else {
        manifests_bytes(ms.drop_last()) + manifest_bytes(ms.last())
    }
}

/// The fingerprint binding a cursor to one observation and manifest list.
pub open spec fn batch_fingerprint(
    o: LanerObservation,
    ms: Seq<ScriptedAgentExperimentManifest>,
) -> u64 {
    fnv(
        FNV_OFFSET,
        str_bytes(SCRIPTED_AGENT_BATCH_RUN_SCHEMA) + observation_bytes(o) + seq![ms.len() as u8]
            + manifests_bytes(ms),
    )
}

/// FNV-1a state together with the bytes it has absorbed.
struct FnvHasher {
    state: u64,
    written: Ghost<Seq<u8>>,
}

impl FnvHasher {
    spec fn wf(&self) -> bool {
        self.state == fnv(FNV_OFFSET, self.written@)
    }

    fn new() -> (r: Self)
        ensures
            r.wf(),
            r.written@ == Seq::<u8>::empty(),
    {
        FnvHasher { state: FNV_OFFSET, written: Ghost(Seq::empty()) }
    }

    fn write(&mut self, bytes: &[u8])
        requires
            old(self).wf(),
        ensures
            final(self).wf(),
            final(self).written@ == old(self).written@ + bytes@,
    {
        let ghost start = self.written@;
        let mut i: usize = 0;
        while i < bytes.len()
            invariant
                i <= bytes@.len(),
                self.state == fnv(FNV_OFFSET, self.written@),
                self.written@ == start + bytes@.subrange(0, i as int),
            decreases bytes@.len() - i,
        {
            let ghost before = self.written@;
            self.state = (self.state ^ (bytes[i] as u64)).wrapping_mul(FNV_PRIME);
            self.written = Ghost(self.written@.push(bytes@[i as int]));
            assert(self.written@.drop_last() =~= before);
            i = i + 1;
            assert(self.written@ =~= start + bytes@.subrange(0, i as int));
        }
        assert(bytes@.subrange(0, bytes@.len() as int) =~= bytes@);
    }

    fn write_u8(&mut self, value: u8)
        requires
            old(self).wf(),
        ensures
            final(self).wf(),
            final(self).written@ == old(self).written@ + seq![value],
    {
        let b = [value];
        assert(b@ =~= seq![value]);
        self.write(&b);
    }

    fn write_u16(&mut self, value: u16)
        requires
            old(self).wf(),
        ensures
            final(self).wf(),
            final(self).written@ == old(self).written@ + le_u16(value),
    {
        let b = [value as u8, (value >> 8u16) as u8];
        assert(b@ =~= le_u16(value));
        self.write(&b);
    }

    fn write_u32(&mut self, value: u32)
        requires
            old(self).wf(),
        ensures
            final(self).wf(),
            final(self).written@ == old(self).written@ + le_u32(value),
    {
        let b = [
            value as u8,
            (value >> 8u32) as u8,
            (value >> 16u32) as u8,
            (value >> 24u32) as u8,
        ];
        assert(b@ =~= le_u32(value));
        self.write(&b);
    }

    fn write_u64(&mut self, value: u64)
        requires
            old(self).wf(),
        ensures
            final(self).wf(),
            final(self).written@ == old(self).written@ + le_u64(value),
    {
        let b = [
            value as u8,
            (value >> 8u64) as u8,
            (value >> 16u64) as u8,
            (value >> 24u64) as u8,
            (value >> 32u64) as u8,
            (value >> 40u64) as u8,
            (value >> 48u64) as u8,
            (value >> 56u64) as u8,
        ];
        assert(b@ =~= le_u64(value));
        self.write(&b);
    }

    fn write_str(&mut self, value: &str)
        requires
            old(self).wf(),
        ensures
            final(self).wf(),
            final(self).written@ == old(self).written@ + str_bytes(value),
    {
        self.write_u64(value.len() as u64);
        self.write(value.as_bytes());
        assert(self.written@ =~= old(self).written@ + str_bytes(value));
    }
}

/// Hash one observation's identity and own state.
fn write_observation_self(hasher: &mut FnvHasher, o: LanerObservation)
    requires
        old(hasher).wf(),
    ensures
        final(hasher).wf(),
        final(hasher).written@ == old(hasher).written@ + observation_self_bytes(o),
{
    let ghost start = hasher.written@;
    hasher.write_str(o.schema());
    hasher.write_u8(o.observer.0);
    hasher.write_u8(o.actors.human_laner.0);
    hasher.write_u8(o.actors.opposing_laner.0);
    hasher.write_u8(o.actors.allied_autonomous.0);
    hasher.write_u8(o.actors.opposing_jungle_threat.0);
    hasher.write_u32(o.turn.0);
    hasher.write_u64(o.observation_id.0);
    let ghost mid = hasher.written@;
    hasher.write_u8(o.self_health);
    hasher.write_u8(o.self_mana);
    hasher.write_u8(o.self_gold);
    hasher.write_u8(o.self_experience);
    hasher.write_u8(o.self_cooldown);
    hasher.write_u8(position_value(o.self_position));
    hasher.write_u8(o.wave_pressure.0);
    assert(hasher.written@ =~= mid + seq![
        o.self_health,
        o.self_mana,
        o.self_gold,
        o.self_experience,
        o.self_cooldown,
        position_byte(o.self_position),
        o.wave_pressure.0,
    ]);
    assert(hasher.written@ =~= start + observation_self_bytes(o));
}

/// Hash what one observation knows of the opponent and the threat.
fn write_observation_others(hasher: &mut FnvHasher, o: LanerObservation)
    requires
        old(hasher).wf(),
    ensures
        final(hasher).wf(),
        final(hasher).written@ == old(hasher).written@ + observation_others_bytes(o),
{
    let ghost start = hasher.written@;
    match o.opponent.last_known_position {
        Some(p) => {
            hasher.write_u8(1);
            hasher.write_u8(position_value(p));
        },
        None => {
            hasher.write_u8(0);
        },
    }
    let ghost a = hasher.written@;
    match o.opponent.last_seen_turn {
        Some(t) => {
            hasher.write_u8(1);
            hasher.write_u32(t.0);
        },
        None => {
            hasher.write_u8(0);
        },
    }
    let ghost b = hasher.written@;
    hasher.write_u8(hidden_value(o.opponent.health));
    hasher.write_u8(hidden_value(o.opponent.posture));
    let ghost c = hasher.written@;
    match o.jungle_threat.last_known {
        Some(k) => {
            hasher.write_u8(1);
            hasher.write_u8(threat_region_value(k.region));
            hasher.write_u32(k.turn.0);
        },
        None => {
            hasher.write_u8(0);
        },
    }
    assert(hasher.written@ =~= start + observation_others_bytes(o));
}

/// Hash what one observation advertises.
fn write_observation_offer(hasher: &mut FnvHasher, o: LanerObservation)
    requires
        old(hasher).wf(),
    ensures
        final(hasher).wf(),
        final(hasher).written@ == old(hasher).written@ + observation_offer_bytes(o),
{
    let ghost start = hasher.written@;
    let intents = o.available_intents();
    let mut i: usize = 0;
    while i < intents.len()
        invariant
            hasher.wf(),
            i <= intents@.len(),
            hasher.written@ == start + intents_bytes(intents@.subrange(0, i as int)),
        decreases intents@.len() - i,
    {
        let ghost before = hasher.written@;
        hasher.write_u8(intent_value(intents[i]));
        assert(intents_bytes(intents@.subrange(0, i + 1)) =~= intents_bytes(
            intents@.subrange(0, i as int),
        ).push(intent_byte(intents@[i as int])));
        assert(hasher.written@ =~= start + intents_bytes(intents@.subrange(0, i + 1)));
        i = i + 1;
    }
    assert(intents@.subrange(0, intents@.len() as int) =~= intents@);
    let ghost mid = hasher.written@;
    match o.available_threat_response {
        Some(t) => {
            hasher.write_u8(1);
            hasher.write_u8(intent_value(t));
        },
        None => {
            hasher.write_u8(0);
        },
    }
    let ghost m2 = hasher.written@;
    write_offer_flags(hasher, o);
    let ghost m3 = hasher.written@;
    hasher.write_u32(o.window_beats);
    assert(hasher.written@ =~= start + observation_offer_bytes(o));
}

/// The hashed form of an observation's flag lists, one after another.
pub open spec fn offer_flag_bytes(o: LanerObservation) -> Seq<u8> {
    let l = offer_flag_lists(o);
    flag_bytes(l[0]) + flag_bytes(l[1]) + flag_bytes(l[2]) + flag_bytes(l[3]) + flag_bytes(l[4])
}

/// Hash the flag lists of what one observation advertises.
#[verifier::spinoff_prover]
fn write_offer_flags(hasher: &mut FnvHasher, o: LanerObservation)
    requires
        old(hasher).wf(),
    ensures
        final(hasher).wf(),
        final(hasher).written@ == old(hasher).written@ + offer_flag_bytes(o),
{
    let ghost start = hasher.written@;
    let ghost l = offer_flag_lists(o);
    let t = o.available_target_focuses;
    let c = o.available_commitments;
    let p = o.available_ping_signals;
    let a = o.available_abort_conditions;
    let f = o.available_fallback_behaviors;
    let tf = [t.minions, t.opposing_laner, t.tower];
    let cf = [c.standard, c.cautious, c.aggressive];
    let pf = [p.no_ping, p.danger, p.on_my_way, p.assist, p.enemy_missing];
    let af = [a.no_abort, a.health_threshold, a.threat_spotted, a.resource_depleted];
    let ff = [f.maintain_plan, f.retreat_to_tower, f.safe_farm, f.conserve_resources];
    assert(tf@ =~= l[0] && cf@ =~= l[1] && pf@ =~= l[2] && af@ =~= l[3] && ff@ =~= l[4]);
    write_flags(hasher, &tf);
    let ghost h1 = hasher.written@;
    write_flags(hasher, &cf);
    let ghost h2 = hasher.written@;
    write_flags(hasher, &pf);
    let ghost h3 = hasher.written@;
    write_flags(hasher, &af);
    let ghost h4 = hasher.written@;
    write_flags(hasher, &ff);
    proof {
        let b0 = flag_bytes(l[0]);
        let b1 = flag_bytes(l[1]);
        let b2 = flag_bytes(l[2]);
        let b3 = flag_bytes(l[3]);
        let b4 = flag_bytes(l[4]);
        assert(h1 == start + b0);
        assert(h2 == h1 + b1);
        assert(h3 == h2 + b2);
        assert(h4 == h3 + b3);
        assert(hasher.written@ == h4 + b4);
        assert(offer_flag_bytes(o) == b0 + b1 + b2 + b3 + b4);
        assert(hasher.written@ =~= start + (b0 + b1 + b2 + b3 + b4));
    }
}

/// Hash the index of each set flag of a list, in order.
fn write_flags(hasher: &mut FnvHasher, flags: &[bool])
    requires
        old(hasher).wf(),
        flags@.len() <= 255,
    ensures
        final(hasher).wf(),
        final(hasher).written@ == old(hasher).written@ + flag_bytes(flags@),
{
    let ghost start = hasher.written@;
    reveal(flag_bytes);
    let mut i: usize = 0;
    while i < flags.len()
        invariant
            hasher.wf(),
            i <= flags@.len() <= 255,
            hasher.written@ == start + flag_bytes(flags@.subrange(0, i as int)),
        decreases flags@.len() - i,
    {
        let ghost before = hasher.written@;
        assert(flags@.subrange(0, i + 1).drop_last() =~= flags@.subrange(0, i as int));
        reveal(flag_bytes);
        if flags[i] {
            hasher.write_u8(i as u8);
        }
        i = i + 1;
        assert(hasher.written@ =~= start + flag_bytes(flags@.subrange(0, i as int)));
    }
    assert(flags@.subrange(0, flags@.len() as int) =~= flags@);
}

/// Hash one observation's actor-visible fields.
fn write_observation(hasher: &mut FnvHasher, observation: LanerObservation)
    requires
        old(hasher).wf(),
    ensures
        final(hasher).wf(),
        final(hasher).written@ == old(hasher).written@ + observation_bytes(observation),
{
    let ghost start = hasher.written@;
    write_observation_self(hasher, observation);
    write_observation_others(hasher, observation);
    write_observation_offer(hasher, observation);
    assert(hasher.written@ =~= start + observation_bytes(observation));
}

fn position_value(p: LanePosition) -> (r: u8)
    ensures
        r == position_byte(p),
{
    match p {
        LanePosition::NearTower => 0,
        LanePosition::Center => 1,
        LanePosition::FarSide => 2,
    }
}

fn hidden_value(v: HiddenValue) -> (r: u8)
    ensures
        r == 0,
{
    match v {
        HiddenValue::Unknown => 0,
    }
}

fn threat_region_value(v: JungleThreatRegion) -> (r: u8)
    ensures
        r == 0,
{
    match v {
        JungleThreatRegion::RiverSide => 0,
    }
}

fn intent_value(i: LaneIntent) -> (r: u8)
    ensures
        r == intent_byte(i),
{
    match i {
        LaneIntent::Stabilize => 0,
        LaneIntent::Contest => 1,
        LaneIntent::Yield => 2,
        LaneIntent::Recall => 3,
        LaneIntent::Withdraw => 4,
    }
}

/// The fingerprint binding a cursor to one observation and manifest list.
pub fn batch_input_fingerprint(
    observation: LanerObservation,
    manifests: &[ScriptedAgentExperimentManifest],
) -> (r: u64)
    requires
        manifests@.len() <= 255,
    ensures
        r == batch_fingerprint(observation, manifests@),
{
    let mut hasher = FnvHasher::new();
    hasher.write_str(SCRIPTED_AGENT_BATCH_RUN_SCHEMA);
    write_observation(&mut hasher, observation);
    hasher.write_u8(manifests.len() as u8);
    let ghost head = hasher.written@;
    let mut i: usize = 0;
    while i < manifests.len()
        invariant
            hasher.wf(),
            i <= manifests@.len(),
            hasher.written@ == head + manifests_bytes(manifests@.subrange(0, i as int)),
        decreases manifests@.len() - i,
    {
        let m = manifests[i];
        let ghost before = hasher.written@;
        hasher.write_str(m.schema());
        hasher.write_str(m.scenario_id());
        let pid = m.profile.profile_id();
        hasher.write_str(pid);
        let rule = m.profile.evaluation_rule();
        hasher.write_str(rule);
        hasher.write_str(m.selection_rule());
        hasher.write_u64(m.seed_bundle.seed);
        hasher.write_u8(m.seed_bundle.policy_trace.stream.0);
        hasher.write_u16(m.seed_bundle.policy_trace.draw.0);
        proof {
            lemma_str_bytes_of(pid);
            lemma_str_bytes_of(rule);
            assert(manifests@.subrange(0, i + 1).drop_last() =~= manifests@.subrange(0, i as int));
            assert(hasher.written@ =~= before + manifest_bytes(m));
            assert(manifests_bytes(manifests@.subrange(0, i + 1)) == manifests_bytes(
                manifests@.subrange(0, i as int),
            ) + manifest_bytes(m));
            assert(hasher.written@ =~= head + manifests_bytes(manifests@.subrange(0, i + 1)));
        }
        i = i + 1;
    }
    assert(manifests@.subrange(0, manifests@.len() as int) =~= manifests@);
    assert(hasher.written@ =~= str_bytes(SCRIPTED_AGENT_BATCH_RUN_SCHEMA) + observation_bytes(
        observation,
    ) + seq![manifests@.len() as u8] + manifests_bytes(manifests@));
    hasher.state
}

/// The hashed form of a text is its length and bytes.
proof fn lemma_str_bytes_of(s: &str)
    ensures
        str_bytes(s) == str_bytes_of(vstd::utf8::encode_utf8(s@)),
{
}

/// A resumable cursor over one observation and manifest list.
#[derive(Clone, Copy, Debug, PartialEq, Eq, Hash, Structural)]
pub struct ScriptedAgentBatchCheckpoint {
    observer: ActorId,
    observation_id: ObservationId,
    manifest_count: u8,
    completed_count: u8,
    input_fingerprint: u64,
}

/// The mathematical content of a cursor.
pub struct CheckpointView {
    pub observer: ActorId,
    pub observation_id: ObservationId,
    pub manifest_count: u8,
    pub completed_count: u8,
    pub input_fingerprint: u64,
}

impl View for ScriptedAgentBatchCheckpoint {
    type V = CheckpointView;

    closed spec fn view(&self) -> CheckpointView {
        CheckpointView {
            observer: self.observer,
            observation_id: self.observation_id,
            manifest_count: self.manifest_count,
            completed_count: self.completed_count,
            input_fingerprint: self.input_fingerprint,
        }
    }
}

/// Whether a cursor's counts are consistent: at least one and at most the
/// batch cap of manifests, and no more completed than declared.
pub open spec fn checkpoint_counts_ok(v: CheckpointView) -> bool {
    1 <= v.manifest_count <= MAX_SCRIPTED_AGENT_BATCH_MANIFESTS && v.completed_count
        <= v.manifest_count
}

/// The canonical text of a cursor.
pub open spec fn checkpoint_text(v: CheckpointView) -> Seq<char> {
    "schema="@ + SCRIPTED_AGENT_BATCH_RUN_SCHEMA@ + "\nobserver="@ + decimal(v.observer.0 as nat)
        + "\nobservation_id="@ + decimal(v.observation_id.0 as nat) + "\nmanifest_count="@
        + decimal(v.manifest_count as nat) + "\ncompleted_count="@ + decimal(
        v.completed_count as nat,
    ) + "\ninput_fingerprint="@ + decimal(v.input_fingerprint as nat) + "\n"@
}

/// The keys of a cursor record.
pub open spec fn checkpoint_keys() -> Seq<Seq<char>> {
    seq![
        "schema"@,
        "observer"@,
        "observation_id"@,
        "manifest_count"@,
        "completed_count"@,
        "input_fingerprint"@,
    ]
}

/// The values of a cursor's record, in key order.
spec fn checkpoint_vals(v: CheckpointView) -> Seq<Seq<char>> {
    seq![
        SCRIPTED_AGENT_BATCH_RUN_SCHEMA@,
        decimal(v.observer.0 as nat),
        decimal(v.observation_id.0 as nat),
        decimal(v.manifest_count as nat),
        decimal(v.completed_count as nat),
        decimal(v.input_fingerprint as nat),
    ]
}

/// A cursor's text is its record, one pair per line.
#[verifier::spinoff_prover]
#[verifier::rlimit(100)]
proof fn lemma_checkpoint_text_lines(v: CheckpointView)
    ensures
        checkpoint_text(v) == joined_lines(record_lines(checkpoint_keys(), checkpoint_vals(v))),
{
    reveal_strlit("schema");
    reveal_strlit("observer");
    reveal_strlit("observation_id");
    reveal_strlit("manifest_count");
    reveal_strlit("completed_count");
    reveal_strlit("input_fingerprint");
    reveal_strlit("schema=");
    reveal_strlit("\nobserver=");
    reveal_strlit("\nobservation_id=");
    reveal_strlit("\nmanifest_count=");
    reveal_strlit("\ncompleted_count=");
    reveal_strlit("\ninput_fingerprint=");
    reveal_strlit("\n");
    let h = record_lines(checkpoint_keys(), checkpoint_vals(v));
    let e = Seq::<Seq<char>>::empty();
    assert(joined_lines(e) == Seq::<char>::empty());
    lemma_joined_lines_push(e, h[0]);
    lemma_joined_lines_push(e.push(h[0]), h[1]);
    lemma_joined_lines_push(e.push(h[0]).push(h[1]), h[2]);
    lemma_joined_lines_push(e.push(h[0]).push(h[1]).push(h[2]), h[3]);
    lemma_joined_lines_push(e.push(h[0]).push(h[1]).push(h[2]).push(h[3]), h[4]);
    lemma_joined_lines_push(e.push(h[0]).push(h[1]).push(h[2]).push(h[3]).push(h[4]), h[5]);
    assert(e.push(h[0]).push(h[1]).push(h[2]).push(h[3]).push(h[4]).push(h[5]) =~= h);
    assert(checkpoint_text(v) =~= joined_lines(h));
}

/// A cursor's keys and values can be written as a record.
proof fn lemma_checkpoint_writable(v: CheckpointView)
    ensures
        writable_record(checkpoint_keys(), checkpoint_vals(v)),
{
    let keys = checkpoint_keys();
    reveal_strlit("schema");
    reveal_strlit("observer");
    reveal_strlit("observation_id");
    reveal_strlit("manifest_count");
    reveal_strlit("completed_count");
    reveal_strlit("input_fingerprint");
    reveal_strlit("m6-scripted-agent-batch-run-v1");
    lemma_decimal_plain(v.observer.0 as nat);
    lemma_decimal_plain(v.observation_id.0 as nat);
    lemma_decimal_plain(v.manifest_count as nat);
    lemma_decimal_plain(v.completed_count as nat);
    lemma_decimal_plain(v.input_fingerprint as nat);
    assert forall|x: int, y: int| 0 <= x < 6 && 0 <= y < 6 && x != y implies keys[x] != keys[y] by {
        if keys[x].len() == keys[y].len() {
            assert(keys[x][0] != keys[y][0] || keys[x][2] != keys[y][2]);
        }
    }
}

/// The text of a consistent cursor is ASCII, fits the size cap, and any input
/// holding it decodes back to that cursor.
pub proof fn lemma_checkpoint_text_reads_back(v: CheckpointView)
    requires
        checkpoint_counts_ok(v),
    ensures
        is_ascii_chars(checkpoint_text(v)),
        checkpoint_text(v).len() <= MAX_SCRIPTED_AGENT_BATCH_RUN_BYTES,
        encode_utf8(checkpoint_text(v)).len() == checkpoint_text(v).len(),
        checkpoint_decode(checkpoint_text(v), encode_utf8(checkpoint_text(v)).len()) == Ok::<
            CheckpointView,
            ScriptedAgentBatchCheckpointError,
        >(v),
{
    reveal_strlit("schema");
    reveal_strlit("observer");
    reveal_strlit("observation_id");
    reveal_strlit("manifest_count");
    reveal_strlit("completed_count");
    reveal_strlit("input_fingerprint");
    reveal_strlit("m6-scripted-agent-batch-run-v1");
    let keys = checkpoint_keys();
    let vals = checkpoint_vals(v);
    lemma_decimal_u64(v.observer.0 as nat);
    lemma_decimal_u64(v.observation_id.0 as nat);
    lemma_decimal_u64(v.manifest_count as nat);
    lemma_decimal_u64(v.completed_count as nat);
    lemma_decimal_u64(v.input_fingerprint as nat);
    assert(is_ascii_chars(SCRIPTED_AGENT_BATCH_RUN_SCHEMA@));
    assert forall|i: int| 0 <= i < 6 implies is_ascii_chars(#[trigger] keys[i]) && is_ascii_chars(
        vals[i],
    ) && keys[i].len() + 1 + vals[i].len() <= 48 by {}
    lemma_record_ascii(keys, vals, 48);
    lemma_checkpoint_text_lines(v);
    lemma_ascii_byte_len(checkpoint_text(v));
    lemma_checkpoint_round_trip(v, checkpoint_text(v).len());
}

/// Reading back a written cursor gives the same cursor.
pub proof fn lemma_checkpoint_round_trip(v: CheckpointView, byte_len: nat)
    requires
        checkpoint_counts_ok(v),
        byte_len <= MAX_SCRIPTED_AGENT_BATCH_RUN_BYTES,
    ensures
        checkpoint_decode(checkpoint_text(v), byte_len) == Ok::<
            CheckpointView,
            ScriptedAgentBatchCheckpointError,
        >(v),
{
    let keys = checkpoint_keys();
    let vals = checkpoint_vals(v);
    let text = checkpoint_text(v);
    lemma_checkpoint_text_lines(v);
    lemma_checkpoint_writable(v);
    lemma_record_fields(text, keys, vals, no_repeats(6));
    let slots = Seq::new(6, |k: int| seq![record_value_span(text, keys, k)]);
    assert(value_text(text, slots, 0) == Some(vals[0]));
    lemma_value_number_decimal(text, slots, 1, v.observer.0 as nat, u8::MAX as nat);
    lemma_value_number_decimal(text, slots, 2, v.observation_id.0 as nat, u64::MAX as nat);
    lemma_value_number_decimal(text, slots, 3, v.manifest_count as nat, u8::MAX as nat);
    lemma_value_number_decimal(text, slots, 4, v.completed_count as nat, u8::MAX as nat);
    lemma_value_number_decimal(text, slots, 5, v.input_fingerprint as nat, u64::MAX as nat);
    assert(checkpoint_from_fields(text, slots) == Ok::<
        CheckpointView,
        ScriptedAgentBatchCheckpointError,
    >(v));
}

/// The cursor-codec error of a field error.
pub open spec fn checkpoint_error(e: ScriptedAgentManifestError) -> ScriptedAgentBatchCheckpointError {
    match e {
        ScriptedAgentManifestError::MissingField => ScriptedAgentBatchCheckpointError::MissingField,
        _ => ScriptedAgentBatchCheckpointError::InvalidValue,
    }
}

/// The cursor a fully read set of fields describes.
pub open spec fn checkpoint_from_fields(s: Seq<char>, slots: Seq<Seq<(int, int)>>) -> Result<
    CheckpointView,
    ScriptedAgentBatchCheckpointError,
> {
    if value_text(s, slots, 0) != Some(SCRIPTED_AGENT_BATCH_RUN_SCHEMA@) {
        Err(ScriptedAgentBatchCheckpointError::UnsupportedSchema)
    } else {
        match value_number(s, slots, 1, u8::MAX as nat) {
            Err(e) => Err(checkpoint_error(e)),
            Ok(observer) => match value_number(s, slots, 2, u64::MAX as nat) {
                Err(e) => Err(checkpoint_error(e)),
                Ok(observation_id) => match value_number(s, slots, 3, u8::MAX as nat) {
                    Err(e) => Err(checkpoint_error(e)),
                    Ok(manifest_count) => match value_number(s, slots, 4, u8::MAX as nat) {
                        Err(e) => Err(checkpoint_error(e)),
                        Ok(completed_count) => match value_number(s, slots, 5, u64::MAX as nat) {
                            Err(e) => Err(checkpoint_error(e)),
                            Ok(fingerprint) => {
                                let v = CheckpointView {
                                    observer: ActorId(observer as u8),
                                    observation_id: ObservationId(observation_id as u64),
                                    manifest_count: manifest_count as u8,
                                    completed_count: completed_count as u8,
                                    input_fingerprint: fingerprint as u64,
                                };
                                if checkpoint_counts_ok(v) {
                                    Ok(v)
                                } else {
                                    Err(ScriptedAgentBatchCheckpointError::InvalidValue)
                                }
                            },
                        },
                    },
                },
            },
        }
    }
}

/// What decoding a cursor text of `byte_len` bytes gives.
pub open spec fn checkpoint_decode(s: Seq<char>, byte_len: nat) -> Result<
    CheckpointView,
    ScriptedAgentBatchCheckpointError,
> {
    let lines = line_ranges(s);
    if byte_len > MAX_SCRIPTED_AGENT_BATCH_RUN_BYTES {
        Err(ScriptedAgentBatchCheckpointError::Oversized)
    } else if lines.len() > 6 {
        Err(
            ScriptedAgentBatchCheckpointError::UnexpectedLineCount {
                expected: 6,
                actual: lines.len() as usize,
            },
        )
    } else if !all_pairs(s, lines) {
        Err(ScriptedAgentBatchCheckpointError::InvalidValue)
    } else {
        match field_scan(s, lines, checkpoint_keys(), no_repeats(6), lines.len()) {
            FieldScan::Fine(slots) => checkpoint_from_fields(s, slots),
            FieldScan::Invalid => Err(ScriptedAgentBatchCheckpointError::InvalidValue),
            FieldScan::Unknown => Err(ScriptedAgentBatchCheckpointError::UnknownField),
            FieldScan::Duplicate => Err(ScriptedAgentBatchCheckpointError::DuplicateField),
        }
    }
}

fn checkpoint_error_of(e: ScriptedAgentManifestError) -> (r: ScriptedAgentBatchCheckpointError)
    ensures
        r == checkpoint_error(e),
{
    match e {
        ScriptedAgentManifestError::MissingField => ScriptedAgentBatchCheckpointError::MissingField,
        _ => ScriptedAgentBatchCheckpointError::InvalidValue,
    }
}

impl ScriptedAgentBatchCheckpoint {
    #[verifier::type_invariant]
    spec fn counts_ok(self) -> bool {
        checkpoint_counts_ok(self@)
    }

    /// Start a cursor for one actor-visible observation and ordered manifest list.
    pub fn new(observation: LanerObservation, manifests: &[ScriptedAgentExperimentManifest]) -> (r:
        Result<Self, ScriptedAgentBatchError>)
        ensures
            match r {
                Ok(c) => batch_check(manifests@.len()) is Ok && c@ == (CheckpointView {
                    observer: observation.observer,
                    observation_id: observation.observation_id,
                    manifest_count: manifests@.len() as u8,
                    completed_count: 0,
                    input_fingerprint: batch_fingerprint(observation, manifests@),
                }),
                Err(e) => batch_check(manifests@.len()) == Err::<(), ScriptedAgentBatchError>(e),
            },
    {
        validate_batch(manifests)?;
        Ok(
            ScriptedAgentBatchCheckpoint {
                observer: observation.observer,
                observation_id: observation.observation_id,
                manifest_count: manifests.len() as u8,
                completed_count: 0,
                input_fingerprint: batch_input_fingerprint(observation, manifests),
            },
        )
    }

    pub fn schema(self) -> (r: &'static str)
        ensures
            r@ == SCRIPTED_AGENT_BATCH_RUN_SCHEMA@,
    {
        SCRIPTED_AGENT_BATCH_RUN_SCHEMA
    }

    pub fn observer(self) -> (r: ActorId)
        ensures
            r == self@.observer,
    {
        self.observer
    }

    pub fn observation_id(self) -> (r: ObservationId)
        ensures
            r == self@.observation_id,
    {
        self.observation_id
    }

    pub fn manifest_count(self) -> (r: u8)
        ensures
            r == self@.manifest_count,
            1 <= r <= MAX_SCRIPTED_AGENT_BATCH_MANIFESTS,
    {
        proof {
            use_type_invariant(&self);
        }
        self.manifest_count
    }

    pub fn completed_count(self) -> (r: u8)
        ensures
            r == self@.completed_count,
            r <= self@.manifest_count,
    {
        proof {
            use_type_invariant(&self);
        }
        self.completed_count
    }

    pub fn input_fingerprint(self) -> (r: u64)
        ensures
            r == self@.input_fingerprint,
    {
        self.input_fingerprint
    }

    pub fn is_complete(self) -> (r: bool)
        ensures
            r == (self@.completed_count == self@.manifest_count),
    {
        self.completed_count == self.manifest_count
    }

    /// Encode only bounded cursor and input-binding metadata.
    pub fn encode(self) -> (r: String)
        ensures
            r@ == checkpoint_text(self@),
            is_ascii_chars(r@),
            r@.len() <= MAX_SCRIPTED_AGENT_BATCH_RUN_BYTES,
    {
        proof {
            use_type_invariant(&self);
            lemma_checkpoint_text_reads_back(self@);
        }
        let mut out = String::new();
        push_str(&mut out, "schema=");
        push_str(&mut out, SCRIPTED_AGENT_BATCH_RUN_SCHEMA);
        push_str(&mut out, "\nobserver=");
        push_decimal(&mut out, self.observer.0 as u64);
        push_str(&mut out, "\nobservation_id=");
        push_decimal(&mut out, self.observation_id.0);
        push_str(&mut out, "\nmanifest_count=");
        push_decimal(&mut out, self.manifest_count as u64);
        push_str(&mut out, "\ncompleted_count=");
        push_decimal(&mut out, self.completed_count as u64);
        push_str(&mut out, "\ninput_fingerprint=");
        push_decimal(&mut out, self.input_fingerprint);
        push_str(&mut out, "\n");
        out
    }

    /// Decode a cursor without executing policy or touching the filesystem.
    #[verifier::spinoff_prover]
    #[verifier::rlimit(40)]
    pub fn decode(input: &str) -> (r: Result<Self, ScriptedAgentBatchCheckpointError>)
        ensures
            match r {
                Ok(c) => checkpoint_decode(input@, input.len() as nat) == Ok::<
                    CheckpointView,
                    ScriptedAgentBatchCheckpointError,
                >(c@),
                Err(e) => checkpoint_decode(input@, input.len() as nat) == Err::<
                    CheckpointView,
                    ScriptedAgentBatchCheckpointError,
                >(e),
            },
    {
        if input.len() > MAX_SCRIPTED_AGENT_BATCH_RUN_BYTES {
            return Err(ScriptedAgentBatchCheckpointError::Oversized);
        }
        let s = str_to_chars(input);
        let lines = lines(&s);
        assert(range_seq(lines@) =~= line_ranges(s@));
        if lines.len() > 6 {
            return Err(
                ScriptedAgentBatchCheckpointError::UnexpectedLineCount {
                    expected: 6,
                    actual: lines.len(),
                },
            );
        }
        if !check_all_pairs(&s, &lines) {
            return Err(ScriptedAgentBatchCheckpointError::InvalidValue);
        }
        let keys = [
            "schema",
            "observer",
            "observation_id",
            "manifest_count",
            "completed_count",
            "input_fingerprint",
        ];
        proof {
            reveal_strlit("schema");
            reveal_strlit("observer");
            reveal_strlit("observation_id");
            reveal_strlit("manifest_count");
            reveal_strlit("completed_count");
            reveal_strlit("input_fingerprint");
            assert(key_seq(keys@) =~= checkpoint_keys());
            assert forall|x: int, y: int|
                0 <= x < 6 && 0 <= y < 6 && x != y implies checkpoint_keys()[x]
                != checkpoint_keys()[y] by {
                if checkpoint_keys()[x].len() == checkpoint_keys()[y].len() {
                    assert(checkpoint_keys()[x][0] != checkpoint_keys()[y][0]);
                }
            }
        }
        let repeatable = [false, false, false, false, false, false];
        assert(repeatable@ =~= no_repeats(6));
        let slots = match scan_fields(&s, &lines, &keys, &repeatable) {
            Ok(slots) => slots,
            Err(ScanError::Invalid) => {
                return Err(ScriptedAgentBatchCheckpointError::InvalidValue);
            },
            Err(ScanError::Unknown) => {
                return Err(ScriptedAgentBatchCheckpointError::UnknownField);
            },
            Err(ScanError::Duplicate) => {
                return Err(ScriptedAgentBatchCheckpointError::DuplicateField);
            },
        };
        if !value_is(&s, &slots, 0, SCRIPTED_AGENT_BATCH_RUN_SCHEMA) {
            return Err(ScriptedAgentBatchCheckpointError::UnsupportedSchema);
        }
        let observer = match read_number(&s, &slots, 1, u8::MAX as u64) {
            Ok(v) => v,
            Err(e) => {
                return Err(checkpoint_error_of(e));
            },
        };
        let observation_id = match read_number(&s, &slots, 2, u64::MAX) {
            Ok(v) => v,
            Err(e) => {
                return Err(checkpoint_error_of(e));
            },
        };
        let manifest_count = match read_number(&s, &slots, 3, u8::MAX as u64) {
            Ok(v) => v,
            Err(e) => {
                return Err(checkpoint_error_of(e));
            },
        };
        let completed_count = match read_number(&s, &slots, 4, u8::MAX as u64) {
            Ok(v) => v,
            Err(e) => {
                return Err(checkpoint_error_of(e));
            },
        };
        let input_fingerprint = match read_number(&s, &slots, 5, u64::MAX) {
            Ok(v) => v,
            Err(e) => {
                return Err(checkpoint_error_of(e));
            },
        };
        if !(1 <= manifest_count && manifest_count <= MAX_SCRIPTED_AGENT_BATCH_MANIFESTS as u64)
            || completed_count > manifest_count {
            return Err(ScriptedAgentBatchCheckpointError::InvalidValue);
        }
        Ok(
            ScriptedAgentBatchCheckpoint {
                observer: ActorId::new(observer as u8),
                observation_id: ObservationId::new(observation_id),
                manifest_count: manifest_count as u8,
                completed_count: completed_count as u8,
                input_fingerprint,
            },
        )
    }

    /// Whether the cursor was made for this observation and manifest list.
    pub fn matches(self, observation: LanerObservation, manifests: &[ScriptedAgentExperimentManifest]) -> (r:
        bool)
        ensures
            r == (self@.observer == observation.observer && self@.observation_id
                == observation.observation_id && self@.manifest_count as nat == manifests@.len()
                && self@.input_fingerprint == batch_fingerprint(observation, manifests@)),
    {
        proof {
            use_type_invariant(&self);
        }
        if self.observer != observation.observer || self.observation_id != observation.observation_id
            || self.manifest_count as usize != manifests.len() {
            return false;
        }
        self.input_fingerprint == batch_input_fingerprint(observation, manifests)
    }

    /// The same cursor with a new completed count.
    pub fn with_completed_count(self, completed_count: usize) -> (r: Self)
        requires
            completed_count <= self@.manifest_count,
        ensures
            r@ == (CheckpointView { completed_count: completed_count as u8, ..self@ }),
    {
        proof {
            use_type_invariant(&self);
        }
        ScriptedAgentBatchCheckpoint { completed_count: completed_count as u8, ..self }
    }
}

/// Deterministic in-process evaluation of declared scripted-agent manifests.
pub struct ScriptedAgentBatchRunner;

impl ScriptedAgentBatchRunner {
    /// Evaluate manifests in order using only one actor-visible observation.
    pub fn run(observation: LanerObservation, manifests: &[ScriptedAgentExperimentManifest]) -> (r:
        Result<Vec<ScriptedAgentDecision>, ScriptedAgentBatchError>)
        requires
            batch_check(manifests@.len()) is Ok ==> advertises_some(observation),
        ensures
            match r {
                Ok(d) => batch_check(manifests@.len()) is Ok && decision_views(d@)
                    == batch_decisions(observation, manifests@),
                Err(e) => batch_check(manifests@.len()) == Err::<(), ScriptedAgentBatchError>(e),
            },
    {
        validate_batch(manifests)?;
        Ok(Self::evaluate_range(observation, manifests))
    }

    /// Evaluate one complete batch while appending a caller-owned lifecycle trace.
    pub fn run_with_operational_log(
        observation: LanerObservation,
        manifests: &[ScriptedAgentExperimentManifest],
        log: &mut ScriptedAgentOperationalLog,
    ) -> (r: Result<Vec<ScriptedAgentDecision>, ScriptedAgentOperationalBatchRunError>)
        requires
            batch_check(manifests@.len()) is Ok && old(log)@.len() + 3
                <= MAX_SCRIPTED_AGENT_OPERATIONAL_EVENTS ==> advertises_some(observation),
        ensures
            match r {
                Ok(d) => batch_check(manifests@.len()) is Ok && old(log)@.len() + 3
                    <= MAX_SCRIPTED_AGENT_OPERATIONAL_EVENTS && decision_views(d@)
                    == batch_decisions(observation, manifests@) && final(log)@ == old(log)@.push(
                    ScriptedAgentOperationalEvent::BatchStarted,
                ).push(ScriptedAgentOperationalEvent::ChunkCompleted).push(
                    ScriptedAgentOperationalEvent::BatchFinished,
                ),
                Err(ScriptedAgentOperationalBatchRunError::Batch(e)) => batch_check(
                    manifests@.len(),
                ) == Err::<(), ScriptedAgentBatchError>(e) && final(log)@ == old(log)@,
                Err(ScriptedAgentOperationalBatchRunError::LogCapacityExceeded { max }) => batch_check(
                    manifests@.len(),
                ) is Ok && old(log)@.len() + 3 > MAX_SCRIPTED_AGENT_OPERATIONAL_EVENTS && max
                    == MAX_SCRIPTED_AGENT_OPERATIONAL_EVENTS && final(log)@ == old(log)@,
            },
    {
        match validate_batch(manifests) {
            Ok(()) => {},
            Err(e) => {
                return Err(ScriptedAgentOperationalBatchRunError::Batch(e));
            },
        }
        if log.len() > MAX_SCRIPTED_AGENT_OPERATIONAL_EVENTS - 3 {
            return Err(
                ScriptedAgentOperationalBatchRunError::LogCapacityExceeded {
                    max: MAX_SCRIPTED_AGENT_OPERATIONAL_EVENTS,
                },
            );
        }
        let _ = log.append(ScriptedAgentOperationalEvent::BatchStarted);
        let decisions = Self::evaluate_range(observation, manifests);
        let _ = log.append(ScriptedAgentOperationalEvent::ChunkCompleted);
        let _ = log.append(ScriptedAgentOperationalEvent::BatchFinished);
        Ok(decisions)
    }

    /// Evaluate one bounded remaining chunk and return its advanced cursor.
    pub fn run_next(
        observation: LanerObservation,
        manifests: &[ScriptedAgentExperimentManifest],
        checkpoint: ScriptedAgentBatchCheckpoint,
        chunk_size: usize,
    ) -> (r: Result<
        (Vec<ScriptedAgentDecision>, ScriptedAgentBatchCheckpoint),
        ScriptedAgentBatchRunError,
    >)
        requires
            chunk_size != 0 && batch_check(manifests@.len()) is Ok && checkpoint.matches_spec(
                observation,
                manifests@,
            ) && checkpoint@.completed_count < manifests@.len() ==> advertises_some(observation),
        ensures
            match r {
                Ok((d, next)) => {
                    let start = checkpoint@.completed_count as int;
                    let end = if start + chunk_size < manifests@.len() {
                        start + chunk_size
                    } else {
                        manifests@.len() as int
                    };
                    &&& chunk_size != 0
                    &&& batch_check(manifests@.len()) is Ok
                    &&& checkpoint.matches_spec(observation, manifests@)
                    &&& decision_views(d@) == batch_decisions(
                        observation,
                        manifests@.subrange(start, end),
                    )
                    &&& next@ == (CheckpointView { completed_count: end as u8, ..checkpoint@ })
                },
                Err(ScriptedAgentBatchRunError::ChunkSizeZero) => chunk_size == 0,
                Err(ScriptedAgentBatchRunError::Batch(e)) => chunk_size != 0 && batch_check(
                    manifests@.len(),
                ) == Err::<(), ScriptedAgentBatchError>(e),
                Err(ScriptedAgentBatchRunError::InputMismatch) => chunk_size != 0 && batch_check(
                    manifests@.len(),
                ) is Ok && !checkpoint.matches_spec(observation, manifests@),
            },
    {
        if chunk_size == 0 {
            return Err(ScriptedAgentBatchRunError::ChunkSizeZero);
        }
        match validate_batch(manifests) {
            Ok(()) => {},
            Err(e) => {
                return Err(ScriptedAgentBatchRunError::Batch(e));
            },
        }
        if !checkpoint.matches(observation, manifests) {
            return Err(ScriptedAgentBatchRunError::InputMismatch);
        }
        let start = checkpoint.completed_count() as usize;
        let end = if chunk_size < manifests.len() - start {
            start + chunk_size
        } else {
            manifests.len()
        };
        let chunk = slice_range(manifests, start, end);
        let decisions = Self::evaluate_range(observation, &chunk);
        Ok((decisions, checkpoint.with_completed_count(end)))
    }

    /// Evaluate every manifest of a list, in order.
    fn evaluate_range(observation: LanerObservation, manifests: &[ScriptedAgentExperimentManifest]) -> (r:
        Vec<ScriptedAgentDecision>)
        requires
            manifests@.len() > 0 ==> advertises_some(observation),
        ensures
            decision_views(r@) == batch_decisions(observation, manifests@),
    {
        let mut decisions: Vec<ScriptedAgentDecision> = Vec::new();
        let mut i: usize = 0;
        while i < manifests.len()
            invariant
                manifests@.len() > 0 ==> advertises_some(observation),
                i <= manifests@.len(),
                decision_views(decisions@) == batch_decisions(
                    observation,
                    manifests@.subrange(0, i as int),
                ),
            decreases manifests@.len() - i,
        {
            let manifest = manifests[i];
            let agent = ScriptedAgent::with_profile(manifest.profile);
            let d = agent.choose_with_seed(observation, manifest.seed_bundle);
            let ghost before = decisions@;
            decisions.push(d);
            assert(decision_views(decisions@) =~= decision_views(before).push(d@));
            i = i + 1;
            assert(batch_decisions(observation, manifests@.subrange(0, i as int)) =~= batch_decisions(
                observation,
                manifests@.subrange(0, i - 1),
            ).push(decision_for(manifest.profile, observation, Some(manifest.seed_bundle))));
        }
        assert(manifests@.subrange(0, manifests@.len() as int) =~= manifests@);
        decisions
    }
}

impl ScriptedAgentBatchCheckpoint {
    /// Whether the cursor was made for this observation and manifest list.
    pub open spec fn matches_spec(
        self,
        observation: LanerObservation,
        manifests: Seq<ScriptedAgentExperimentManifest>,
    ) -> bool {
        self@.observer == observation.observer && self@.observation_id
            == observation.observation_id && self@.manifest_count as nat == manifests.len()
            && self@.input_fingerprint == batch_fingerprint(observation, manifests)
    }
}

/// A copy of `v[start..end)`.
pub fn slice_range(v: &[ScriptedAgentExperimentManifest], start: usize, end: usize) -> (r: Vec<
    ScriptedAgentExperimentManifest,
>)
    requires
        start <= end <= v@.len(),
    ensures
        r@ == v@.subrange(start as int, end as int),
{
    let mut out: Vec<ScriptedAgentExperimentManifest> = Vec::new();
    let mut i: usize = start;
    while i < end
        invariant
            start <= i <= end <= v@.len(),
            out@ == v@.subrange(start as int, i as int),
        decreases end - i,
    {
        out.push(v[i]);
        i = i + 1;
        assert(out@ =~= v@.subrange(start as int, i as int));
    }
    out
}

} // verus!
