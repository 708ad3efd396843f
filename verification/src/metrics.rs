//! Per-observation comparison of the three catalog profiles and their
//! selected-action tallies over a matched pair of observations.

use vstd::prelude::*;
use crate::lane::{
    intent_at, intent_index, intent_set_seq, lemma_intent_set_prefix, ActorId, LaneIntent,
    LanerObservation, ObservationId,
};
use crate::policy::{
    advertises_some, candidate_intents, decision_for, lemma_scored_candidates, stable_best,
    DecisionView, ScriptedAgent, ScriptedAgentCandidate, ScriptedAgentDecision,
};
use crate::profile::{
    evaluation_rule_of, profile_id_of, ScriptedAgentEvaluationRule, ScriptedAgentProfile,
};

verus! {

/// Versioned identity for the bounded per-observation profile comparison.
pub const SCRIPTED_AGENT_METRICS_SCHEMA: &'static str = "m4-scripted-agent-metrics-v1";

/// Versioned identity for the bounded selected-action tally.
pub const SCRIPTED_AGENT_ACTION_TALLY_SCHEMA: &'static str = "m4-scripted-agent-action-tally-v2";

/// The three catalog profiles in report order.
pub open spec fn catalog_profiles() -> Seq<ScriptedAgentProfile> {
    seq![
        ScriptedAgentProfile { evaluation: ScriptedAgentEvaluationRule::Threat },
        ScriptedAgentProfile { evaluation: ScriptedAgentEvaluationRule::Contest },
        ScriptedAgentProfile { evaluation: ScriptedAgentEvaluationRule::Yield },
    ]
}

/// The index of the first candidate from `i` on with a given intent.
pub open spec fn first_with_intent(c: Seq<ScriptedAgentCandidate>, intent: LaneIntent, i: int) -> int
    decreases c.len() - i,
{
    if i >= c.len() || i < 0 {
        c.len() as int
    } else if c[i].intent == intent {
        i
    } else {
        first_with_intent(c, intent, i + 1)
    }
}

/// The stable best candidate is one of the candidates.
pub proof fn lemma_stable_best_member(c: Seq<ScriptedAgentCandidate>, n: int)
    requires
        1 <= n <= c.len(),
    ensures
        exists|k: int| 0 <= k < n && c[k] == stable_best(c, n),
    decreases n,
{
    if n > 1 {
        lemma_stable_best_member(c, n - 1);
        if c[n - 1].score > stable_best(c, n - 1).score {
            assert(c[n - 1] == stable_best(c, n));
        }
    } else {
        assert(c[0] == stable_best(c, n));
    }
}

/// An intent held by a candidate from `i` on is found from `i` on.
pub proof fn lemma_first_with_intent(c: Seq<ScriptedAgentCandidate>, intent: LaneIntent, i: int, k: int)
    requires
        0 <= i <= k < c.len(),
        c[k].intent == intent,
    ensures
        i <= first_with_intent(c, intent, i) <= k,
        c[first_with_intent(c, intent, i)].intent == intent,
    decreases k - i,
{
    if c[i].intent != intent {
        lemma_first_with_intent(c, intent, i + 1, k);
    }
}

/// One actor-safe row in a scripted-agent comparison report.
#[derive(Clone, Copy, Debug, PartialEq, Eq, Hash, Structural)]
pub struct ScriptedAgentComparisonEntry {
    pub profile: ScriptedAgentProfile,
    pub selected_intent: LaneIntent,
    pub selected_score: i16,
    pub candidate_count: u8,
}

/// The comparison row of a stable decision: its profile, selected intent,
/// the score of the first candidate with that intent, and its candidate count.
pub open spec fn comparison_entry_of(d: DecisionView) -> ScriptedAgentComparisonEntry {
    ScriptedAgentComparisonEntry {
        profile: d.profile,
        selected_intent: d.selected_intent,
        selected_score: d.candidates[first_with_intent(d.candidates, d.selected_intent, 0)].score,
        candidate_count: d.candidates.len() as u8,
    }
}

impl ScriptedAgentComparisonEntry {
    pub fn profile_id(self) -> (r: &'static str)
        ensures
            r@ == profile_id_of(self.profile),
    {
        self.profile.profile_id()
    }

    pub fn evaluation_rule(self) -> (r: &'static str)
        ensures
            r@ == evaluation_rule_of(self.profile),
    {
        self.profile.evaluation_rule()
    }

    pub fn selected_intent(self) -> (r: LaneIntent)
        ensures
            r == self.selected_intent,
    {
        self.selected_intent
    }

    pub fn selected_score(self) -> (r: i16)
        ensures
            r == self.selected_score,
    {
        self.selected_score
    }

    pub fn candidate_count(self) -> (r: u8)
        ensures
            r == self.candidate_count,
    {
        self.candidate_count
    }
}

/// There are at most six candidates: the five intents and a threat response.
pub proof fn lemma_candidates_bounded(observation: LanerObservation)
    ensures
        candidate_intents(observation).len() <= 6,
{
    lemma_intent_set_prefix(observation.available_intents, 5);
}

/// Bounded actor-safe comparison report for the three catalog profiles.
#[derive(Clone, Debug, PartialEq, Eq, Hash)]
pub struct ScriptedAgentComparisonReport {
    pub observer: ActorId,
    pub observation_id: ObservationId,
    pub entries: [ScriptedAgentComparisonEntry; 3],
}

impl ScriptedAgentComparisonReport {
    /// Build a report from one actor-visible observation: one row per catalog
    /// profile, from its stable decision.
    pub fn from_observation(observation: LanerObservation) -> (r: Self)
        requires
            advertises_some(observation),
        ensures
            r.observer == observation.observer,
            r.observation_id == observation.observation_id,
            forall|i: int|
                0 <= i < 3 ==> (#[trigger] r.entries@[i]) == comparison_entry_of(
                    decision_for(catalog_profiles()[i], observation, None),
                ),
    {
        let d0 = ScriptedAgent::cautious_v1().decide(observation);
        let d1 = ScriptedAgent::risk_taking_v1().decide(observation);
        let d2 = ScriptedAgent::yielding_v1().decide(observation);
        let entries = [Self::entry(&d0), Self::entry(&d1), Self::entry(&d2)];
        ScriptedAgentComparisonReport {
            observer: observation.observer,
            observation_id: observation.observation_id,
            entries,
        }
    }

    pub fn schema(&self) -> (r: &'static str)
        ensures
            r@ == SCRIPTED_AGENT_METRICS_SCHEMA@,
    {
        SCRIPTED_AGENT_METRICS_SCHEMA
    }

    pub fn observer(&self) -> (r: ActorId)
        ensures
            r == self.observer,
    {
        self.observer
    }

    pub fn observation_id(&self) -> (r: ObservationId)
        ensures
            r == self.observation_id,
    {
        self.observation_id
    }

    pub fn entries(&self) -> (r: &[ScriptedAgentComparisonEntry; 3])
        ensures
            *r == self.entries,
    {
        &self.entries
    }

    fn entry(decision: &ScriptedAgentDecision) -> (r: ScriptedAgentComparisonEntry)
        requires
            exists|o: LanerObservation, p: ScriptedAgentProfile|
                advertises_some(o) && decision@ == decision_for(p, o, None),
        ensures
            r == comparison_entry_of(decision@),
    {
        let ghost (o, p) = choose|o: LanerObservation, p: ScriptedAgentProfile|
            advertises_some(o) && decision@ == decision_for(p, o, None);
        let candidates = decision.candidates();
        let selected = decision.selected_intent();
        proof {
            lemma_scored_candidates(p, o);
            lemma_candidates_bounded(o);
            let c = decision@.candidates;
            lemma_stable_best_member(c, c.len() as int);
            let k = choose|k: int| 0 <= k < c.len() && c[k] == stable_best(c, c.len() as int);
            lemma_first_with_intent(c, selected, 0, k);
        }
        let mut i: usize = 0;
        while i < candidates.len()
            invariant
                i <= candidates@.len(),
                candidates@ == decision@.candidates,
                first_with_intent(candidates@, selected, 0) == first_with_intent(
                    candidates@,
                    selected,
                    i as int,
                ),
                first_with_intent(candidates@, selected, 0) < candidates@.len(),
            ensures
                i == first_with_intent(candidates@, selected, 0),
            decreases candidates@.len() - i,
        {
            if candidates[i].intent == selected {
                break;
            }
            i = i + 1;
        }
        ScriptedAgentComparisonEntry {
            profile: decision.profile(),
            selected_intent: selected,
            selected_score: candidates[i].score,
            candidate_count: candidates.len() as u8,
        }
    }
}

/// Bounded error returned when a tally mixes observers or repeats an
/// observation identity.
#[derive(Clone, Copy, Debug, PartialEq, Eq, Hash, Structural)]
pub enum ScriptedAgentActionTallyError {
    MismatchedObserver,
    DuplicateObservationId,
}

/// One actor-safe selected-action tally for a catalog profile.
#[derive(Clone, Copy, Debug, PartialEq, Eq, Hash)]
pub struct ScriptedAgentActionTally {
    profile: ScriptedAgentProfile,
    counts: [u8; 5],
}

/// The content of an action tally; counts are in
/// `[Stabilize, Contest, Yield, Recall, Withdraw]` order.
pub struct ActionTallyView {
    pub profile: ScriptedAgentProfile,
    pub counts: Seq<u8>,
}

impl View for ScriptedAgentActionTally {
    type V = ActionTallyView;

    closed spec fn view(&self) -> ActionTallyView {
        ActionTallyView { profile: self.profile, counts: self.counts@ }
    }
}

/// Whether an intent is the one at index `k`, as a count.
pub open spec fn hit(intent: LaneIntent, k: int) -> int {
    if intent == intent_at(k) {
        1
    } else {
        0
    }
}

/// The action tally of one profile over two observations.
pub open spec fn action_tally_of(
    p: ScriptedAgentProfile,
    o0: LanerObservation,
    o1: LanerObservation,
) -> ActionTallyView {
    ActionTallyView {
        profile: p,
        counts: Seq::new(
            5,
            |k: int|
                (hit(decision_for(p, o0, None).selected_intent, k) + hit(
                    decision_for(p, o1, None).selected_intent,
                    k,
                )) as u8,
        ),
    }
}

impl ScriptedAgentActionTally {
    pub fn profile_id(self) -> (r: &'static str)
        ensures
            r@ == profile_id_of(self@.profile),
    {
        self.profile.profile_id()
    }

    pub fn evaluation_rule(self) -> (r: &'static str)
        ensures
            r@ == evaluation_rule_of(self@.profile),
    {
        self.profile.evaluation_rule()
    }

    pub fn observation_count(self) -> (r: u8)
        ensures
            r == 2,
    {
        2
    }

    pub fn stabilize_count(self) -> (r: u8)
        ensures
            r == self@.counts[0],
    {
        self.counts[0]
    }

    pub fn contest_count(self) -> (r: u8)
        ensures
            r == self@.counts[1],
    {
        self.counts[1]
    }

    pub fn yield_count(self) -> (r: u8)
        ensures
            r == self@.counts[2],
    {
        self.counts[2]
    }

    pub fn recall_count(self) -> (r: u8)
        ensures
            r == self@.counts[3],
    {
        self.counts[3]
    }

    pub fn withdraw_count(self) -> (r: u8)
        ensures
            r == self@.counts[4],
    {
        self.counts[4]
    }
}

/// Bounded actor-safe selected-action counts over exactly two observations.
#[derive(Clone, Debug, PartialEq, Eq, Hash)]
pub struct ScriptedAgentActionTallyReport {
    pub observer: ActorId,
    pub observation_ids: [ObservationId; 2],
    pub entries: [ScriptedAgentActionTally; 3],
}

impl ScriptedAgentActionTallyReport {
    /// Build a tally from two observations belonging to the same actor with
    /// distinct observation identities.
    pub fn from_observations(observations: [LanerObservation; 2]) -> (r: Result<
        Self,
        ScriptedAgentActionTallyError,
    >)
        requires
            observations[0].observer == observations[1].observer && observations[0].observation_id
                != observations[1].observation_id ==> advertises_some(observations[0])
                && advertises_some(observations[1]),
        ensures
            observations[0].observer != observations[1].observer ==> r == Err::<
                Self,
                ScriptedAgentActionTallyError,
            >(ScriptedAgentActionTallyError::MismatchedObserver),
            observations[0].observer == observations[1].observer && observations[0].observation_id
                == observations[1].observation_id ==> r == Err::<Self, ScriptedAgentActionTallyError>(
                ScriptedAgentActionTallyError::DuplicateObservationId,
            ),
            observations[0].observer == observations[1].observer && observations[0].observation_id
                != observations[1].observation_id ==> r is Ok && r->Ok_0.observer
                == observations[0].observer && r->Ok_0.observation_ids@ == seq![
                observations[0].observation_id,
                observations[1].observation_id,
            ] && forall|i: int|
                0 <= i < 3 ==> (#[trigger] r->Ok_0.entries@[i])@ == action_tally_of(
                    catalog_profiles()[i],
                    observations[0],
                    observations[1],
                ),
    {
        if observations[0].observer.0 != observations[1].observer.0 {
            return Err(ScriptedAgentActionTallyError::MismatchedObserver);
        }
        if observations[0].observation_id.0 == observations[1].observation_id.0 {
            return Err(ScriptedAgentActionTallyError::DuplicateObservationId);
        }
        let entries = [
            Self::entry(ScriptedAgent::cautious_v1(), observations),
            Self::entry(ScriptedAgent::risk_taking_v1(), observations),
            Self::entry(ScriptedAgent::yielding_v1(), observations),
        ];
        let ids = [observations[0].observation_id, observations[1].observation_id];
        assert(ids@ =~= seq![observations[0].observation_id, observations[1].observation_id]);
        Ok(ScriptedAgentActionTallyReport { observer: observations[0].observer, observation_ids: ids, entries })
    }

    pub fn schema(&self) -> (r: &'static str)
        ensures
            r@ == SCRIPTED_AGENT_ACTION_TALLY_SCHEMA@,
    {
        SCRIPTED_AGENT_ACTION_TALLY_SCHEMA
    }

    pub fn observer(&self) -> (r: ActorId)
        ensures
            r == self.observer,
    {
        self.observer
    }

    pub fn observation_ids(&self) -> (r: &[ObservationId; 2])
        ensures
            *r == self.observation_ids,
    {
        &self.observation_ids
    }

    pub fn entries(&self) -> (r: &[ScriptedAgentActionTally; 3])
        ensures
            *r == self.entries,
    {
        &self.entries
    }

    fn entry(agent: ScriptedAgent, observations: [LanerObservation; 2]) -> (r: ScriptedAgentActionTally)
        requires
            advertises_some(observations[0]),
            advertises_some(observations[1]),
        ensures
            r@ == action_tally_of(agent.profile, observations[0], observations[1]),
    {
        let mut counts = [0u8; 5];
        let a = agent.decide(observations[0]).selected_intent;
        counts.set(a.index(), counts[a.index()] + 1);
        let b = agent.decide(observations[1]).selected_intent;
        counts.set(b.index(), counts[b.index()] + 1);
        let r = ScriptedAgentActionTally { profile: agent.profile, counts };
        assert(r@.counts =~= action_tally_of(agent.profile, observations[0], observations[1]).counts);
        r
    }
}

} // verus!
