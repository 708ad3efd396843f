//! The scripted policy: generate candidates from what the observation
//! advertises, score them with the profile's fixed table, and select one.

use vstd::prelude::*;
use crate::lane::{
    intent_set_contains, intent_set_seq, lemma_intent_set_prefix, ActorId, LaneIntent, LaneIntentRequest, LanerObservation,
    ObservationId,
};
use crate::profile::{
    ScriptedAgentEvaluationRule, ScriptedAgentProfile, ScriptedAgentSeedBundle,
    SCRIPTED_AGENT_SEEDED_SELECTION_RULE, SCRIPTED_AGENT_STABLE_SELECTION_RULE, tie_mix,
};

verus! {

/// Why the policy assigned a candidate its score.
#[derive(Clone, Copy, Debug, PartialEq, Eq, Hash, Structural)]
pub enum ScriptedAgentReason {
    ThreatResponse,
    RiskPreference,
    YieldPreference,
    StableDefault,
    AvailableAlternative,
}

/// Bounded error returned when a caller evaluates an intent outside the
/// observation's actor-visible candidate set.
#[derive(Clone, Copy, Debug, PartialEq, Eq, Hash, Structural)]
pub enum ScriptedAgentEvaluationError {
    UnavailableIntent,
}

/// One candidate produced from actor-visible information and its fixed score.
#[derive(Clone, Copy, Debug, PartialEq, Eq, Hash, Structural)]
pub struct ScriptedAgentCandidate {
    pub intent: LaneIntent,
    pub score: i16,
    pub reason: ScriptedAgentReason,
}

impl ScriptedAgentCandidate {
    pub fn intent(self) -> (r: LaneIntent)
        ensures
            r == self.intent,
    {
        self.intent
    }

    pub fn score(self) -> (r: i16)
        ensures
            r == self.score,
    {
        self.score
    }

    pub fn reason(self) -> (r: ScriptedAgentReason)
        ensures
            r == self.reason,
    {
        self.reason
    }
}

/// Which selection rule produced a decision.
#[derive(Clone, Copy, Debug, PartialEq, Eq, Hash, Structural)]
pub enum ScriptedAgentSelectionRule {
    /// The first candidate with the highest score.
    StableOrder,
    /// A seeded choice among the candidates with the highest score.
    SeededTie,
}

/// The identity of a selection rule.
pub open spec fn selection_rule_id(rule: ScriptedAgentSelectionRule) -> Seq<char> {
    match rule {
        ScriptedAgentSelectionRule::StableOrder => SCRIPTED_AGENT_STABLE_SELECTION_RULE@,
        ScriptedAgentSelectionRule::SeededTie => SCRIPTED_AGENT_SEEDED_SELECTION_RULE@,
    }
}

impl ScriptedAgentSelectionRule {
    pub fn id(self) -> (r: &'static str)
        ensures
            r@ == selection_rule_id(self),
    {
        match self {
            ScriptedAgentSelectionRule::StableOrder => SCRIPTED_AGENT_STABLE_SELECTION_RULE,
            ScriptedAgentSelectionRule::SeededTie => SCRIPTED_AGENT_SEEDED_SELECTION_RULE,
        }
    }
}

/// A reproducible policy result ready for host-side validation.
#[derive(Clone, Debug, PartialEq, Eq, Hash)]
pub struct ScriptedAgentDecision {
    pub profile: ScriptedAgentProfile,
    pub observer: ActorId,
    pub observation_id: ObservationId,
    pub candidates: Vec<ScriptedAgentCandidate>,
    pub selected_intent: LaneIntent,
    pub request: LaneIntentRequest,
    pub selection_rule: ScriptedAgentSelectionRule,
    pub seed_bundle: Option<ScriptedAgentSeedBundle>,
}

/// The mathematical content of a decision.
pub struct DecisionView {
    pub profile: ScriptedAgentProfile,
    pub observer: ActorId,
    pub observation_id: ObservationId,
    pub candidates: Seq<ScriptedAgentCandidate>,
    pub selected_intent: LaneIntent,
    pub request: LaneIntentRequest,
    pub selection_rule: ScriptedAgentSelectionRule,
    pub seed_bundle: Option<ScriptedAgentSeedBundle>,
}

impl View for ScriptedAgentDecision {
    type V = DecisionView;

    open spec fn view(&self) -> DecisionView {
        DecisionView {
            profile: self.profile,
            observer: self.observer,
            observation_id: self.observation_id,
            candidates: self.candidates@,
            selected_intent: self.selected_intent,
            request: self.request,
            selection_rule: self.selection_rule,
            seed_bundle: self.seed_bundle,
        }
    }
}

impl ScriptedAgentDecision {
    pub fn profile(&self) -> (r: ScriptedAgentProfile)
        ensures
            r == self.profile,
    {
        self.profile
    }

    pub fn observer(&self) -> (r: ActorId)
        ensures
            r == self.observer,
    {
        self.observer
    }

    pub fn observation_id(&self) -> (r: ObservationId)
        ensures
            r == self.observation_id,
    {
        self.observation_id
    }

    pub fn candidates(&self) -> (r: &[ScriptedAgentCandidate])
        ensures
            r@ == self.candidates@,
    {
        self.candidates.as_slice()
    }

    pub fn selected_intent(&self) -> (r: LaneIntent)
        ensures
            r == self.selected_intent,
    {
        self.selected_intent
    }

    pub fn request(&self) -> (r: LaneIntentRequest)
        ensures
            r == self.request,
    {
        self.request
    }

    pub fn selection_rule(&self) -> (r: &'static str)
        ensures
            r@ == selection_rule_id(self.selection_rule),
    {
        self.selection_rule.id()
    }

    pub fn seed_bundle(&self) -> (r: Option<ScriptedAgentSeedBundle>)
        ensures
            r == self.seed_bundle,
    {
        self.seed_bundle
    }

    /// A field-by-field copy of the decision.
    pub fn copy(&self) -> (r: Self)
        ensures
            r@ == self@,
    {
        ScriptedAgentDecision {
            profile: self.profile,
            observer: self.observer,
            observation_id: self.observation_id,
            candidates: copy_candidates(&self.candidates),
            selected_intent: self.selected_intent,
            request: self.request,
            selection_rule: self.selection_rule,
            seed_bundle: self.seed_bundle,
        }
    }

    /// Whether two decisions agree in every field.
    pub fn same_as(&self, other: &Self) -> (r: bool)
        ensures
            r == (self@ == other@),
    {
        if self.profile != other.profile || self.observer != other.observer
            || self.observation_id != other.observation_id || self.selected_intent
            != other.selected_intent || self.request != other.request || self.selection_rule
            != other.selection_rule || self.seed_bundle != other.seed_bundle {
            return false;
        }
        if self.candidates.len() != other.candidates.len() {
            return false;
        }
        let mut i: usize = 0;
        while i < self.candidates.len()
            invariant
                self.candidates@.len() == other.candidates@.len(),
                i <= self.candidates@.len(),
                forall|k: int| 0 <= k < i ==> self.candidates@[k] == other.candidates@[k],
            decreases self.candidates@.len() - i,
        {
            if self.candidates[i] != other.candidates[i] {
                return false;
            }
            i = i + 1;
        }
        assert(self.candidates@ =~= other.candidates@);
        true
    }
}

/// A copy of a list of candidates.
pub fn copy_candidates(v: &Vec<ScriptedAgentCandidate>) -> (r: Vec<ScriptedAgentCandidate>)
    ensures
        r@ == v@,
{
    let mut out: Vec<ScriptedAgentCandidate> = Vec::new();
    let mut i: usize = 0;
    while i < v.len()
        invariant
            i <= v@.len(),
            out@ == v@.subrange(0, i as int),
        decreases v@.len() - i,
    {
        out.push(v[i]);
        i = i + 1;
        assert(out@ =~= v@.subrange(0, i as int));
    }
    assert(out@ =~= v@);
    out
}

/// The intents a policy considers: the advertised intents in canonical order,
/// then the visible threat response if it is not already among them.
pub open spec fn candidate_intents(observation: LanerObservation) -> Seq<LaneIntent> {
    let listed = intent_set_seq(observation.available_intents);
    match observation.available_threat_response {
        Some(t) => if intent_set_contains(observation.available_intents, t) {
            listed
        } else {
            listed.push(t)
        },
        None => listed,
    }
}

/// Whether the observation advertises an intent.
pub open spec fn is_advertised(observation: LanerObservation, intent: LaneIntent) -> bool {
    intent_set_contains(observation.available_intents, intent)
        || observation.available_threat_response == Some(intent)
}

/// The reason the fixed table gives an intent.
pub open spec fn reason_for(
    profile: ScriptedAgentProfile,
    observation: LanerObservation,
    intent: LaneIntent,
) -> ScriptedAgentReason {
    if profile.evaluation == ScriptedAgentEvaluationRule::Contest && intent == LaneIntent::Contest {
        ScriptedAgentReason::RiskPreference
    } else if profile.evaluation == ScriptedAgentEvaluationRule::Yield && intent
        == LaneIntent::Yield {
        ScriptedAgentReason::YieldPreference
    } else if observation.available_threat_response == Some(intent) {
        ScriptedAgentReason::ThreatResponse
    } else if intent == LaneIntent::Stabilize {
        ScriptedAgentReason::StableDefault
    } else {
        ScriptedAgentReason::AvailableAlternative
    }
}

/// The fixed score of an intent under a profile.
pub open spec fn score_for(
    profile: ScriptedAgentProfile,
    observation: LanerObservation,
    intent: LaneIntent,
) -> i16 {
    match reason_for(profile, observation, intent) {
        ScriptedAgentReason::RiskPreference => 100,
        ScriptedAgentReason::YieldPreference => 100,
        ScriptedAgentReason::ThreatResponse => match profile.evaluation {
            ScriptedAgentEvaluationRule::Threat => 100,
            _ => 90,
        },
        ScriptedAgentReason::StableDefault => match profile.evaluation {
            ScriptedAgentEvaluationRule::Threat => (80 + observation.wave_pressure.0) as i16,
            _ => 80,
        },
        ScriptedAgentReason::AvailableAlternative => match intent {
            LaneIntent::Contest => 60,
            LaneIntent::Yield => 40,
            LaneIntent::Recall => 20,
            LaneIntent::Withdraw => 10,
            LaneIntent::Stabilize => 80,
        },
    }
}

/// The scored candidate of an intent.
pub open spec fn scored(
    profile: ScriptedAgentProfile,
    observation: LanerObservation,
    intent: LaneIntent,
) -> ScriptedAgentCandidate {
    ScriptedAgentCandidate {
        intent,
        score: score_for(profile, observation, intent),
        reason: reason_for(profile, observation, intent),
    }
}

/// The scored candidates of an observation, in generation order.
pub open spec fn scored_candidates(profile: ScriptedAgentProfile, observation: LanerObservation) -> Seq<
    ScriptedAgentCandidate,
> {
    candidate_intents(observation).map_values(|i: LaneIntent| scored(profile, observation, i))
}

/// The first highest-scoring candidate among the first `n`.
pub open spec fn stable_best(c: Seq<ScriptedAgentCandidate>, n: int) -> ScriptedAgentCandidate
    decreases n,
{
    if n <= 1 {
        c[0]
    } else {
        let best = stable_best(c, n - 1);
        if c[n - 1].score > best.score {
            c[n - 1]
        } else {
            best
        }
    }
}

/// The highest score among the first `n` candidates.
pub open spec fn max_score(c: Seq<ScriptedAgentCandidate>, n: int) -> i16
    decreases n,
{
    if n <= 1 {
        c[0].score
    } else {
        let m = max_score(c, n - 1);
        if c[n - 1].score > m {
            c[n - 1].score
        } else {
            m
        }
    }
}

/// The candidates among the first `n` whose score is `m`, in order.
pub open spec fn tied(c: Seq<ScriptedAgentCandidate>, m: i16, n: int) -> Seq<ScriptedAgentCandidate>
    decreases n,
{
    if n <= 0 {
        Seq::empty()
    } else if c[n - 1].score == m {
        tied(c, m, n - 1).push(c[n - 1])
    } else {
        tied(c, m, n - 1)
    }
}

/// The candidate a seed bundle selects among the top-scoring candidates.
pub open spec fn seeded_best(
    c: Seq<ScriptedAgentCandidate>,
    bundle: ScriptedAgentSeedBundle,
) -> ScriptedAgentCandidate {
    let top = tied(c, max_score(c, c.len() as int), c.len() as int);
    top[(tie_mix(bundle) as int % top.len() as int)]
}

/// The highest score is the score of some candidate, and no candidate scores higher.
pub proof fn lemma_max_score(c: Seq<ScriptedAgentCandidate>, n: int)
    requires
        1 <= n <= c.len(),
    ensures
        exists|k: int| 0 <= k < n && c[k].score == max_score(c, n),
        forall|k: int| 0 <= k < n ==> c[k].score <= max_score(c, n),
        tied(c, max_score(c, n), n).len() >= 1,
    decreases n,
{
    if n > 1 {
        lemma_max_score(c, n - 1);
        let m = max_score(c, n - 1);
        if c[n - 1].score > m {
            lemma_tied_nonempty(c, max_score(c, n), n);
        } else {
            let k = choose|k: int| 0 <= k < n - 1 && c[k].score == m;
            lemma_tied_contains(c, m, n, k);
        }
    } else {
        lemma_tied_nonempty(c, max_score(c, n), n);
    }
}

/// The last of the first `n` candidates is tied when it has the given score.
proof fn lemma_tied_nonempty(c: Seq<ScriptedAgentCandidate>, m: i16, n: int)
    requires
        1 <= n <= c.len(),
        c[n - 1].score == m,
    ensures
        tied(c, m, n).len() >= 1,
{
}

/// A tie list is non-empty when one of its candidates has the score.
proof fn lemma_tied_contains(c: Seq<ScriptedAgentCandidate>, m: i16, n: int, k: int)
    requires
        0 <= k < n <= c.len(),
        c[k].score == m,
    ensures
        tied(c, m, n).len() >= 1,
    decreases n,
{
    if k < n - 1 {
        lemma_tied_contains(c, m, n - 1, k);
    }
}

/// Scored candidates have one entry per candidate intent.
pub proof fn lemma_scored_candidates(profile: ScriptedAgentProfile, observation: LanerObservation)
    ensures
        scored_candidates(profile, observation).len() == candidate_intents(observation).len(),
        forall|k: int|
            0 <= k < candidate_intents(observation).len() ==> #[trigger] scored_candidates(
                profile,
                observation,
            )[k] == scored(profile, observation, candidate_intents(observation)[k]),
{
}

/// Scripted-agent policy with no implicit random stream or hidden input.
#[derive(Clone, Copy, Debug, PartialEq, Eq, Hash, Structural)]
pub struct ScriptedAgent {
    pub profile: ScriptedAgentProfile,
}

/// The decision a profile makes for an observation, with an optional seed.
pub open spec fn decision_for(
    profile: ScriptedAgentProfile,
    observation: LanerObservation,
    seed_bundle: Option<ScriptedAgentSeedBundle>,
) -> DecisionView {
    let c = scored_candidates(profile, observation);
    let selected = match seed_bundle {
        Some(b) => seeded_best(c, b),
        None => stable_best(c, c.len() as int),
    };
    DecisionView {
        profile,
        observer: observation.observer,
        observation_id: observation.observation_id,
        candidates: c,
        selected_intent: selected.intent,
        request: LaneIntentRequest {
            actor: observation.observer,
            observation_id: observation.observation_id,
            intent: selected.intent,
        },
        selection_rule: match seed_bundle {
            Some(_) => ScriptedAgentSelectionRule::SeededTie,
            None => ScriptedAgentSelectionRule::StableOrder,
        },
        seed_bundle,
    }
}

/// An observation that advertises at least one intent.
pub open spec fn advertises_some(observation: LanerObservation) -> bool {
    candidate_intents(observation).len() > 0
}

impl Default for ScriptedAgent {
    fn default() -> (r: Self)
        ensures
            r.profile.evaluation == ScriptedAgentEvaluationRule::Threat,
    {
        Self::cautious_v1()
    }
}

impl ScriptedAgent {
    /// Construct the first cautious baseline.
    pub fn cautious_v1() -> (r: Self)
        ensures
            r.profile.evaluation == ScriptedAgentEvaluationRule::Threat,
    {
        ScriptedAgent { profile: ScriptedAgentProfile::cautious_v1() }
    }

    /// Construct the risk-taking matched-input comparison profile.
    pub fn risk_taking_v1() -> (r: Self)
        ensures
            r.profile.evaluation == ScriptedAgentEvaluationRule::Contest,
    {
        ScriptedAgent { profile: ScriptedAgentProfile::risk_taking_v1() }
    }

    /// Construct the yielding matched-input comparison profile.
    pub fn yielding_v1() -> (r: Self)
        ensures
            r.profile.evaluation == ScriptedAgentEvaluationRule::Yield,
    {
        ScriptedAgent { profile: ScriptedAgentProfile::yielding_v1() }
    }

    /// An agent for a profile.
    pub fn with_profile(profile: ScriptedAgentProfile) -> (r: Self)
        ensures
            r.profile == profile,
    {
        ScriptedAgent { profile }
    }

    pub fn profile(self) -> (r: ScriptedAgentProfile)
        ensures
            r == self.profile,
    {
        self.profile
    }

    /// Generate bounded candidates from the actor-visible legal intent set.
    pub fn generate_candidates(self, observation: LanerObservation) -> (r: Vec<LaneIntent>)
        ensures
            r@ == candidate_intents(observation),
    {
        let mut candidates = observation.available_intents();
        match observation.available_threat_response() {
            Some(threat_response) => {
                if !observation.available_intents.contains(threat_response) {
                    candidates.push(threat_response);
                }
            },
            None => {},
        }
        candidates
    }

    /// Evaluate one generated candidate without reading anything beyond the observation.
    pub fn evaluate_candidate(self, observation: LanerObservation, intent: LaneIntent) -> (r: Result<
        ScriptedAgentCandidate,
        ScriptedAgentEvaluationError,
    >)
        ensures
            r == (if is_advertised(observation, intent) {
                Ok(scored(self.profile, observation, intent))
            } else {
                Err(ScriptedAgentEvaluationError::UnavailableIntent)
            }),
    {
        if !self.candidate_is_advertised(observation, intent) {
            return Err(ScriptedAgentEvaluationError::UnavailableIntent);
        }
        Ok(self.score_candidate(observation, intent))
    }

    fn candidate_is_advertised(self, observation: LanerObservation, intent: LaneIntent) -> (r: bool)
        ensures
            r == is_advertised(observation, intent),
    {
        observation.available_intents.contains(intent) || match observation.available_threat_response {
            Some(t) => t == intent,
            None => false,
        }
    }

    /// Score one intent with the profile's fixed table.
    pub fn score_candidate(self, observation: LanerObservation, intent: LaneIntent) -> (r:
        ScriptedAgentCandidate)
        ensures
            r == scored(self.profile, observation, intent),
    {
        let threat_response = match observation.available_threat_response {
            Some(t) => t == intent,
            None => false,
        };
        let evaluation = self.profile.evaluation;
        let reason = if evaluation == ScriptedAgentEvaluationRule::Contest && intent
            == LaneIntent::Contest {
            ScriptedAgentReason::RiskPreference
        } else if evaluation == ScriptedAgentEvaluationRule::Yield && intent == LaneIntent::Yield {
            ScriptedAgentReason::YieldPreference
        } else if threat_response {
            ScriptedAgentReason::ThreatResponse
        } else if intent == LaneIntent::Stabilize {
            ScriptedAgentReason::StableDefault
        } else {
            ScriptedAgentReason::AvailableAlternative
        };
        let score: i16 = match reason {
            ScriptedAgentReason::RiskPreference => 100,
            ScriptedAgentReason::YieldPreference => 100,
            ScriptedAgentReason::ThreatResponse => match evaluation {
                ScriptedAgentEvaluationRule::Threat => 100,
                _ => 90,
            },
            ScriptedAgentReason::StableDefault => match evaluation {
                ScriptedAgentEvaluationRule::Threat => 80 + observation.wave_pressure.0 as i16,
                _ => 80,
            },
            ScriptedAgentReason::AvailableAlternative => match intent {
                LaneIntent::Contest => 60,
                LaneIntent::Yield => 40,
                LaneIntent::Recall => 20,
                LaneIntent::Withdraw => 10,
                LaneIntent::Stabilize => 80,
            },
        };
        ScriptedAgentCandidate { intent, score, reason }
    }

    /// Keep the first candidate with the highest score.
    pub fn select_candidate(candidates: &[ScriptedAgentCandidate]) -> (r: ScriptedAgentCandidate)
        requires
            candidates@.len() > 0,
        ensures
            r == stable_best(candidates@, candidates@.len() as int),
    {
        let mut best = candidates[0];
        let mut i: usize = 1;
        while i < candidates.len()
            invariant
                1 <= i <= candidates@.len(),
                best == stable_best(candidates@, i as int),
            decreases candidates@.len() - i,
        {
            if candidates[i].score > best.score {
                best = candidates[i];
            }
            i = i + 1;
        }
        best
    }

    /// Choose among the highest-scoring candidates with the seed bundle.
    pub fn select_candidate_with_seed(
        candidates: &[ScriptedAgentCandidate],
        seed_bundle: ScriptedAgentSeedBundle,
    ) -> (r: ScriptedAgentCandidate)
        requires
            candidates@.len() > 0,
        ensures
            r == seeded_best(candidates@, seed_bundle),
    {
        let ghost c = candidates@;
        let n = candidates.len();
        let mut max = candidates[0].score;
        let mut i: usize = 1;
        while i < n
            invariant
                n == c.len(),
                c == candidates@,
                1 <= i <= n,
                max == max_score(c, i as int),
            decreases n - i,
        {
            if candidates[i].score > max {
                max = candidates[i].score;
            }
            i = i + 1;
        }
        proof {
            lemma_max_score(c, n as int);
        }
        let mut count: usize = 0;
        let mut j: usize = 0;
        while j < n
            invariant
                n == c.len(),
                c == candidates@,
                j <= n,
                count == tied(c, max, j as int).len(),
                tied(c, max, j as int).len() <= j,
            decreases n - j,
        {
            if candidates[j].score == max {
                count = count + 1;
            }
            j = j + 1;
        }
        let slot = seed_bundle.tie_index(count);
        let ghost top = tied(c, max, n as int);
        let mut seen: usize = 0;
        let mut k: usize = 0;
        while k < n
            invariant
                n == c.len(),
                c == candidates@,
                k <= n,
                top == tied(c, max, n as int),
                max == max_score(c, n as int),
                slot as int == tie_mix(seed_bundle) as int % top.len() as int,
                slot < top.len(),
                seen == tied(c, max, k as int).len(),
                seen <= slot,
                forall|x: int| 0 <= x < seen ==> tied(c, max, k as int)[x] == top[x],
            decreases n - k,
        {
            proof {
                lemma_tied_prefix(c, max, (k + 1) as int, n as int);
            }
            if candidates[k].score == max {
                if seen == slot {
                    assert(tied(c, max, (k + 1) as int)[seen as int] == candidates@[k as int]);
                    return candidates[k];
                }
                seen = seen + 1;
            }
            k = k + 1;
        }
        proof {
            lemma_tied_prefix(c, max, n as int, n as int);
        }
        candidates[0]
    }

    /// The decision for a list of scored candidates and a selected one.
    fn decision(
        self,
        observation: LanerObservation,
        candidates: Vec<ScriptedAgentCandidate>,
        selected: ScriptedAgentCandidate,
        selection_rule: ScriptedAgentSelectionRule,
        seed_bundle: Option<ScriptedAgentSeedBundle>,
    ) -> (r: ScriptedAgentDecision)
        ensures
            r@ == (DecisionView {
                profile: self.profile,
                observer: observation.observer,
                observation_id: observation.observation_id,
                candidates: candidates@,
                selected_intent: selected.intent,
                request: LaneIntentRequest {
                    actor: observation.observer,
                    observation_id: observation.observation_id,
                    intent: selected.intent,
                },
                selection_rule,
                seed_bundle,
            }),
    {
        let request = LaneIntentRequest::new(
            observation.observer,
            observation.observation_id,
            selected.intent,
        );
        ScriptedAgentDecision {
            profile: self.profile,
            observer: observation.observer,
            observation_id: observation.observation_id,
            candidates,
            selected_intent: selected.intent,
            request,
            selection_rule,
            seed_bundle,
        }
    }

    /// The scored candidates of an observation.
    pub fn scored_candidates(self, observation: LanerObservation) -> (r: Vec<ScriptedAgentCandidate>)
        ensures
            r@ == scored_candidates(self.profile, observation),
    {
        let intents = self.generate_candidates(observation);
        let mut out: Vec<ScriptedAgentCandidate> = Vec::new();
        let mut i: usize = 0;
        while i < intents.len()
            invariant
                intents@ == candidate_intents(observation),
                i <= intents@.len(),
                out@ == intents@.subrange(0, i as int).map_values(
                    |x: LaneIntent| scored(self.profile, observation, x),
                ),
            decreases intents@.len() - i,
        {
            out.push(self.score_candidate(observation, intents[i]));
            i = i + 1;
            assert(out@ =~= intents@.subrange(0, i as int).map_values(
                |x: LaneIntent| scored(self.profile, observation, x),
            ));
        }
        assert(intents@.subrange(0, intents@.len() as int) =~= intents@);
        out
    }

    /// Generate, evaluate, and select one deterministic actor-visible request.
    pub fn decide(self, observation: LanerObservation) -> (r: ScriptedAgentDecision)
        requires
            advertises_some(observation),
        ensures
            r@ == decision_for(self.profile, observation, None),
    {
        let candidates = self.scored_candidates(observation);
        let selected = Self::select_candidate(candidates.as_slice());
        self.decision(observation, candidates, selected, ScriptedAgentSelectionRule::StableOrder, None)
    }

    /// Generate and select one request using an explicit reproducible policy
    /// stream. The seed affects only ties among equal top-scoring candidates.
    pub fn choose_with_seed(self, observation: LanerObservation, seed_bundle: ScriptedAgentSeedBundle)
        -> (r: ScriptedAgentDecision)
        requires
            advertises_some(observation),
        ensures
            r@ == decision_for(self.profile, observation, Some(seed_bundle)),
    {
        let candidates = self.scored_candidates(observation);
        let selected = Self::select_candidate_with_seed(candidates.as_slice(), seed_bundle);
        self.decision(
            observation,
            candidates,
            selected,
            ScriptedAgentSelectionRule::SeededTie,
            Some(seed_bundle),
        )
    }
}

/// A tie list over a prefix is a prefix of the tie list over a longer range.
pub proof fn lemma_tied_prefix(c: Seq<ScriptedAgentCandidate>, m: i16, k: int, n: int)
    requires
        0 <= k <= n <= c.len(),
    ensures
        tied(c, m, k).len() <= tied(c, m, n).len(),
        forall|x: int| 0 <= x < tied(c, m, k).len() ==> tied(c, m, k)[x] == tied(c, m, n)[x],
    decreases n - k,
{
    if k < n {
        lemma_tied_prefix(c, m, k, n - 1);
    }
}

/// Every tied candidate has the tie score and is one of the candidates.
proof fn lemma_tied_members(c: Seq<ScriptedAgentCandidate>, m: i16, n: int)
    requires
        0 <= n <= c.len(),
    ensures
        forall|x: int|
            0 <= x < tied(c, m, n).len() ==> (#[trigger] tied(c, m, n)[x]).score == m && exists|k: int|
                0 <= k < n && c[k] == tied(c, m, n)[x],
    decreases n,
{
    if n > 0 {
        lemma_tied_members(c, m, n - 1);
        let t = tied(c, m, n);
        let p = tied(c, m, n - 1);
        assert forall|x: int| 0 <= x < t.len() implies (#[trigger] t[x]).score == m && exists|k: int|
            0 <= k < n && c[k] == t[x] by {
            if x < p.len() {
                assert(t[x] == p[x]);
                let k = choose|k: int| 0 <= k < n - 1 && c[k] == p[x];
                assert(0 <= k < n && c[k] == t[x]);
            } else {
                assert(t[x] == c[n - 1]);
            }
        }
    }
}

/// The seed only breaks ties: the seeded pick is one of the candidates and
/// has the top score.
pub proof fn lemma_seeded_pick_is_top_scoring(
    c: Seq<ScriptedAgentCandidate>,
    bundle: ScriptedAgentSeedBundle,
)
    requires
        c.len() >= 1,
    ensures
        seeded_best(c, bundle).score == max_score(c, c.len() as int),
        exists|k: int| 0 <= k < c.len() && c[k] == seeded_best(c, bundle),
        forall|k: int| 0 <= k < c.len() ==> c[k].score <= seeded_best(c, bundle).score,
{
    let n = c.len() as int;
    let m = max_score(c, n);
    lemma_max_score(c, n);
    lemma_tied_members(c, m, n);
    let top = tied(c, m, n);
    let x = tie_mix(bundle) as int % top.len() as int;
    assert(0 <= x < top.len());
    assert(top[x].score == m);
}

/// Without a seed, the pick is the first candidate with the top score.
pub proof fn lemma_stable_pick_is_first_top_scoring(c: Seq<ScriptedAgentCandidate>, n: int)
    requires
        1 <= n <= c.len(),
    ensures
        stable_best(c, n).score == max_score(c, n),
        exists|j: int|
            0 <= j < n && c[j] == stable_best(c, n) && forall|k: int|
                0 <= k < j ==> c[k].score < max_score(c, n),
    decreases n,
{
    if n > 1 {
        lemma_stable_pick_is_first_top_scoring(c, n - 1);
        let j = choose|j: int|
            0 <= j < n - 1 && c[j] == stable_best(c, n - 1) && forall|k: int|
                0 <= k < j ==> c[k].score < max_score(c, n - 1);
        if c[n - 1].score > stable_best(c, n - 1).score {
            lemma_max_score(c, n - 1);
            assert forall|k: int| 0 <= k < n - 1 implies c[k].score < max_score(c, n) by {}
            assert(c[n - 1] == stable_best(c, n));
        } else {
            assert(0 <= j < n && c[j] == stable_best(c, n));
        }
    }
}

/// A decision selects a top-scoring advertised candidate; without a seed, it
/// is the first such candidate in advertised order.
pub proof fn lemma_decision_selects_top_score(
    profile: ScriptedAgentProfile,
    observation: LanerObservation,
    seed_bundle: Option<ScriptedAgentSeedBundle>,
)
    requires
        scored_candidates(profile, observation).len() >= 1,
    ensures
        ({
            let c = scored_candidates(profile, observation);
            let d = decision_for(profile, observation, seed_bundle);
            &&& exists|k: int| 0 <= k < c.len() && c[k].intent == d.selected_intent && c[k].score
                == max_score(c, c.len() as int)
            &&& forall|k: int| 0 <= k < c.len() ==> c[k].score <= max_score(c, c.len() as int)
            &&& seed_bundle is None ==> exists|j: int|
                0 <= j < c.len() && c[j].intent == d.selected_intent && c[j].score == max_score(
                    c,
                    c.len() as int,
                ) && forall|k: int| 0 <= k < j ==> c[k].score < max_score(c, c.len() as int)
        }),
{
    let c = scored_candidates(profile, observation);
    lemma_max_score(c, c.len() as int);
    lemma_stable_pick_is_first_top_scoring(c, c.len() as int);
    match seed_bundle {
        Some(b) => {
            lemma_seeded_pick_is_top_scoring(c, b);
        },
        None => {},
    }
}

/// Every candidate intent is advertised: the intents listed as available,
/// then the threat response when it is not already listed.
proof fn lemma_candidate_intents_advertised(observation: LanerObservation)
    ensures
        forall|k: int|
            0 <= k < candidate_intents(observation).len() ==> is_advertised(
                observation,
                #[trigger] candidate_intents(observation)[k],
            ),
{
    lemma_intent_set_prefix(observation.available_intents, 5);
    let listed = intent_set_seq(observation.available_intents);
    assert forall|k: int| 0 <= k < candidate_intents(observation).len() implies is_advertised(
        observation,
        #[trigger] candidate_intents(observation)[k],
    ) by {
        if k < listed.len() {
            assert(candidate_intents(observation)[k] == listed[k]);
        }
    }
}

/// A decision's candidates, with or without a seed, are what
/// `evaluate_candidate` gives for each candidate intent, in order; every one
/// of them is advertised.
pub proof fn lemma_decision_candidates_are_evaluations(
    profile: ScriptedAgentProfile,
    observation: LanerObservation,
    seed_bundle: Option<ScriptedAgentSeedBundle>,
)
    ensures
        decision_for(profile, observation, seed_bundle).candidates.len() == candidate_intents(
            observation,
        ).len(),
        decision_for(profile, observation, seed_bundle).candidates == decision_for(
            profile,
            observation,
            None,
        ).candidates,
        forall|k: int|
            0 <= k < candidate_intents(observation).len() ==> is_advertised(
                observation,
                #[trigger] candidate_intents(observation)[k],
            ) && decision_for(profile, observation, seed_bundle).candidates[k] == scored(
                profile,
                observation,
                candidate_intents(observation)[k],
            ),
{
    lemma_candidate_intents_advertised(observation);
    lemma_scored_candidates(profile, observation);
}

/// When one candidate alone has the top score, the seeded and the unseeded
/// decisions select the same intent, whatever the seed.
pub proof fn lemma_unique_top_score_ignores_seed(
    profile: ScriptedAgentProfile,
    observation: LanerObservation,
    bundle: ScriptedAgentSeedBundle,
)
    requires
        scored_candidates(profile, observation).len() >= 1,
        forall|j: int, k: int|
            0 <= j < scored_candidates(profile, observation).len() && 0 <= k
                < scored_candidates(profile, observation).len() && (#[trigger] scored_candidates(
                profile,
                observation,
            )[j]).score == max_score(
                scored_candidates(profile, observation),
                scored_candidates(profile, observation).len() as int,
            ) && (#[trigger] scored_candidates(profile, observation)[k]).score == max_score(
                scored_candidates(profile, observation),
                scored_candidates(profile, observation).len() as int,
            ) ==> j == k,
    ensures
        decision_for(profile, observation, Some(bundle)).selected_intent == decision_for(
            profile,
            observation,
            None,
        ).selected_intent,
{
    let c = scored_candidates(profile, observation);
    let n = c.len() as int;
    lemma_seeded_pick_is_top_scoring(c, bundle);
    lemma_stable_pick_is_first_top_scoring(c, n);
    let a = choose|k: int| 0 <= k < c.len() && c[k] == seeded_best(c, bundle);
    let b = choose|j: int|
        0 <= j < n && c[j] == stable_best(c, n) && forall|k: int|
            0 <= k < j ==> c[k].score < max_score(c, n);
    assert(c[a].score == max_score(c, n));
    assert(c[b].score == max_score(c, n));
    assert(a == b);
}

} // verus!
