//! Comparison of a reference and an alternative model or prompting family on
//! one semantic profile: per-dilemma distribution distances, modal agreement
//! of the fitted policies, and a categorical alignment verdict.

use vstd::prelude::*;
use crate::empirical::{action_ok, EmpiricalDistributionEstimateReport, EstimateView};
use crate::lane::{intent_label, LaneIntent};
use crate::measures::{
    action_distance, action_distance_sum, lemma_action_distance_bounded,
    lemma_distance_symmetric, lemma_distance_to_self_is_zero, lemma_signal_distance_bounded,
    signal_distance, signal_distance_sum, BehavioralDistanceMeasure,
};
use crate::parametric::{ParametricActionWeight, ParametricPolicyDefinition, PolicyView};
use crate::semantic::{
    catalog_domains, choice_of_domain, domain_label, semantic_profile_for,
    DiagnosticChoiceCatalog, DiagnosticChoiceDomain, SemanticProfileVocabulary,
};
use crate::text::{bool_text, decimal, push_bool, push_decimal, push_str, str_eq};

verus! {

/// Versioned schema for multi-model and prompting family comparison reports.
pub const MULTI_MODEL_COMPARISON_SCHEMA: &'static str = "m7-multi-model-comparison-v1";

/// Maximum mean action TVD in basis points for an `Aligned` classification (1,000 bp = 10.00%).
pub const ALIGNMENT_THRESHOLD_ALIGNED_TVD_BP: u16 = 1_000;

/// Maximum mean action TVD in basis points for a `Shifted` classification (3,000 bp = 30.00%).
pub const ALIGNMENT_THRESHOLD_SHIFTED_TVD_BP: u16 = 3_000;

/// Minimum modal choice agreement count out of 7 dilemmas for an `Aligned` classification.
pub const ALIGNMENT_MIN_MODAL_AGREEMENT_ALIGNED: u8 = 6;

/// Minimum modal choice agreement count out of 7 dilemmas for a `Shifted` classification.
pub const ALIGNMENT_MIN_MODAL_AGREEMENT_SHIFTED: u8 = 4;

/// Categorical alignment classification between reference and alternative model families.
#[derive(Clone, Copy, Debug, PartialEq, Eq, Hash, Structural)]
pub enum ModelFamilyAlignmentStatus {
    /// Both models exhibit closely matching empirical distributions and identical modal choices.
    Aligned,
    /// Measurable distribution shift exists but core strategic posture is preserved.
    Shifted,
    /// Substantial behavioral divergence or conflicting modal choices across dilemmas.
    Divergent,
}

/// Canonical label of an alignment status.
pub open spec fn alignment_label(x: ModelFamilyAlignmentStatus) -> Seq<char> {
    match x {
        ModelFamilyAlignmentStatus::Aligned => "aligned"@,
        ModelFamilyAlignmentStatus::Shifted => "shifted"@,
        ModelFamilyAlignmentStatus::Divergent => "divergent"@,
    }
}

/// The alignment status a label spells, if any.
pub open spec fn alignment_from_label(s: Seq<char>) -> Option<ModelFamilyAlignmentStatus> {
    if s == "aligned"@ {
        Some(ModelFamilyAlignmentStatus::Aligned)
    } else if s == "shifted"@ {
        Some(ModelFamilyAlignmentStatus::Shifted)
    } else if s == "divergent"@ {
        Some(ModelFamilyAlignmentStatus::Divergent)
    } else {
        None
    }
}

impl ModelFamilyAlignmentStatus {
    /// Return the canonical string identifier for this alignment status.
    pub fn as_str(self) -> (r: &'static str)
        ensures
            r@ == alignment_label(self),
    {
        match self {
            Self::Aligned => "aligned",
            Self::Shifted => "shifted",
            Self::Divergent => "divergent",
        }
    }

    /// Parse an alignment status from a canonical string.
    pub fn parse(label: &str) -> (r: Option<Self>)
        ensures
            r == alignment_from_label(label@),
    {
        if str_eq(label, "aligned") {
            Some(Self::Aligned)
        } else if str_eq(label, "shifted") {
            Some(Self::Shifted)
        } else if str_eq(label, "divergent") {
            Some(Self::Divergent)
        } else {
            None
        }
    }
}

/// Parsing the canonical label of an alignment status gives it back.
pub proof fn lemma_alignment_label_round_trip(x: ModelFamilyAlignmentStatus)
    ensures
        alignment_from_label(alignment_label(x)) == Some(x),
{
    reveal_strlit("aligned");
    reveal_strlit("shifted");
    reveal_strlit("divergent");
    assert("aligned"@[0] == 'a');
    assert("shifted"@[0] == 's');
    assert("divergent"@[0] == 'd');
}

/// The alignment verdict for a mean action distance and a modal agreement
/// count: aligned when both are within the tight thresholds, shifted when
/// within the loose ones, divergent otherwise.
pub open spec fn alignment_of(mean_action_tvd_bp: int, agreement: int) -> ModelFamilyAlignmentStatus {
    if mean_action_tvd_bp <= ALIGNMENT_THRESHOLD_ALIGNED_TVD_BP && agreement
        >= ALIGNMENT_MIN_MODAL_AGREEMENT_ALIGNED {
        ModelFamilyAlignmentStatus::Aligned
    } else if mean_action_tvd_bp <= ALIGNMENT_THRESHOLD_SHIFTED_TVD_BP && agreement
        >= ALIGNMENT_MIN_MODAL_AGREEMENT_SHIFTED {
        ModelFamilyAlignmentStatus::Shifted
    } else {
        ModelFamilyAlignmentStatus::Divergent
    }
}

/// Whether a report's verdict agrees with its own mean action distance and
/// modal agreement count: an aligned verdict needs a mean within the aligned
/// threshold and at least the aligned number of agreeing choices, a shifted
/// one a mean within the shifted threshold and at least the shifted number,
/// and a mean above the shifted threshold or fewer agreeing choices than the
/// shifted number leave the verdict divergent.
pub open spec fn verdict_within_thresholds(v: MultiModelView) -> bool {
    &&& v.alignment_status is Aligned ==> v.mean_action_tvd_bp <= ALIGNMENT_THRESHOLD_ALIGNED_TVD_BP
        && v.modal_agreement_count >= ALIGNMENT_MIN_MODAL_AGREEMENT_ALIGNED
    &&& v.alignment_status is Shifted ==> v.mean_action_tvd_bp <= ALIGNMENT_THRESHOLD_SHIFTED_TVD_BP
        && v.modal_agreement_count >= ALIGNMENT_MIN_MODAL_AGREEMENT_SHIFTED
    &&& v.mean_action_tvd_bp > ALIGNMENT_THRESHOLD_SHIFTED_TVD_BP ==> v.alignment_status is Divergent
    &&& v.modal_agreement_count < ALIGNMENT_MIN_MODAL_AGREEMENT_SHIFTED ==> v.alignment_status is Divergent
    &&& v.mean_action_tvd_bp <= ALIGNMENT_THRESHOLD_ALIGNED_TVD_BP && v.modal_agreement_count
        >= ALIGNMENT_MIN_MODAL_AGREEMENT_ALIGNED ==> v.alignment_status is Aligned
}

/// Errors raised when comparing model or prompting families.
#[derive(Clone, Copy, Debug, PartialEq, Eq, Hash, Structural)]
pub enum MultiModelComparisonError {
    UnknownProfile,
    MismatchedProfile,
}

/// Per-dilemma comparison entry across reference and alternative model families.
#[derive(Clone, Copy, Debug, PartialEq, Eq, Hash)]
pub struct DilemmaModelComparisonEntry {
    choice_id: &'static str,
    domain: DiagnosticChoiceDomain,
    primary_intent: LaneIntent,
    alternative_intent: LaneIntent,
    action_tvd_bp: u16,
    communication_tvd_bp: u16,
    ref_modal_intent: LaneIntent,
    alt_modal_intent: LaneIntent,
    modal_agreement: bool,
    ref_primary_weight_bp: u16,
    alt_primary_weight_bp: u16,
}

/// The content of a per-dilemma comparison entry.
pub struct ModelEntryView {
    pub choice_id: Seq<char>,
    pub domain: DiagnosticChoiceDomain,
    pub primary_intent: LaneIntent,
    pub alternative_intent: LaneIntent,
    pub action_tvd_bp: u16,
    pub communication_tvd_bp: u16,
    pub ref_modal_intent: LaneIntent,
    pub alt_modal_intent: LaneIntent,
    pub modal_agreement: bool,
    pub ref_primary_weight_bp: u16,
    pub alt_primary_weight_bp: u16,
}

impl View for DilemmaModelComparisonEntry {
    type V = ModelEntryView;

    closed spec fn view(&self) -> ModelEntryView {
        ModelEntryView {
            choice_id: self.choice_id@,
            domain: self.domain,
            primary_intent: self.primary_intent,
            alternative_intent: self.alternative_intent,
            action_tvd_bp: self.action_tvd_bp,
            communication_tvd_bp: self.communication_tvd_bp,
            ref_modal_intent: self.ref_modal_intent,
            alt_modal_intent: self.alt_modal_intent,
            modal_agreement: self.modal_agreement,
            ref_primary_weight_bp: self.ref_primary_weight_bp,
            alt_primary_weight_bp: self.alt_primary_weight_bp,
        }
    }
}

/// The Markdown table row of a comparison entry.
pub open spec fn model_entry_markdown(e: ModelEntryView) -> Seq<char> {
    "| "@ + e.choice_id + " | "@ + domain_label(e.domain) + " | "@ + decimal(
        e.action_tvd_bp as nat,
    ) + " | "@ + decimal(e.communication_tvd_bp as nat) + " | "@ + intent_label(e.ref_modal_intent)
        + " | "@ + intent_label(e.alt_modal_intent) + " | "@ + bool_text(e.modal_agreement) + " | "@
        + decimal(e.ref_primary_weight_bp as nat) + " | "@ + decimal(e.alt_primary_weight_bp as nat)
        + " |\n"@
}

impl DilemmaModelComparisonEntry {
    pub fn choice_id(self) -> (r: &'static str)
        ensures
            r@ == self@.choice_id,
    {
        self.choice_id
    }

    pub fn domain(self) -> (r: DiagnosticChoiceDomain)
        ensures
            r == self@.domain,
    {
        self.domain
    }

    pub fn primary_intent(self) -> (r: LaneIntent)
        ensures
            r == self@.primary_intent,
    {
        self.primary_intent
    }

    pub fn alternative_intent(self) -> (r: LaneIntent)
        ensures
            r == self@.alternative_intent,
    {
        self.alternative_intent
    }

    pub fn action_tvd_bp(self) -> (r: u16)
        ensures
            r == self@.action_tvd_bp,
    {
        self.action_tvd_bp
    }

    pub fn communication_tvd_bp(self) -> (r: u16)
        ensures
            r == self@.communication_tvd_bp,
    {
        self.communication_tvd_bp
    }

    pub fn ref_modal_intent(self) -> (r: LaneIntent)
        ensures
            r == self@.ref_modal_intent,
    {
        self.ref_modal_intent
    }

    pub fn alt_modal_intent(self) -> (r: LaneIntent)
        ensures
            r == self@.alt_modal_intent,
    {
        self.alt_modal_intent
    }

    pub fn modal_agreement(self) -> (r: bool)
        ensures
            r == self@.modal_agreement,
    {
        self.modal_agreement
    }

    pub fn ref_primary_weight_bp(self) -> (r: u16)
        ensures
            r == self@.ref_primary_weight_bp,
    {
        self.ref_primary_weight_bp
    }

    pub fn alt_primary_weight_bp(self) -> (r: u16)
        ensures
            r == self@.alt_primary_weight_bp,
    {
        self.alt_primary_weight_bp
    }

    /// Render this comparison entry as a Markdown table row.
    pub fn to_markdown(&self) -> (r: String)
        ensures
            r@ == model_entry_markdown(self@),
    {
        let mut out = String::new();
        push_str(&mut out, "| ");
        push_str(&mut out, self.choice_id);
        push_str(&mut out, " | ");
        push_str(&mut out, self.domain.as_str());
        push_str(&mut out, " | ");
        push_decimal(&mut out, self.action_tvd_bp as u64);
        push_str(&mut out, " | ");
        push_decimal(&mut out, self.communication_tvd_bp as u64);
        push_str(&mut out, " | ");
        push_str(&mut out, self.ref_modal_intent.as_str());
        push_str(&mut out, " | ");
        push_str(&mut out, self.alt_modal_intent.as_str());
        push_str(&mut out, " | ");
        push_bool(&mut out, self.modal_agreement);
        push_str(&mut out, " | ");
        push_decimal(&mut out, self.ref_primary_weight_bp as u64);
        push_str(&mut out, " | ");
        push_decimal(&mut out, self.alt_primary_weight_bp as u64);
        push_str(&mut out, " |\n");
        assert(out@ =~= model_entry_markdown(self@));
        out
    }
}

/// The comparison entry of catalog choice `i`: the distances between the two
/// families' distributions, and the two fitted policies' modal intents and
/// primary weights.
pub open spec fn model_entry_of(
    r: EstimateView,
    a: EstimateView,
    rp: PolicyView,
    ap: PolicyView,
    i: int,
) -> ModelEntryView {
    let c = choice_of_domain(catalog_domains()[i]);
    ModelEntryView {
        choice_id: c.choice_id,
        domain: c.domain,
        primary_intent: c.primary_intent,
        alternative_intent: c.alternative_intent,
        action_tvd_bp: action_distance(r.actions[i], a.actions[i]) as u16,
        communication_tvd_bp: signal_distance(r.signals[i], a.signals[i]) as u16,
        ref_modal_intent: rp.weights[i].predicted_intent,
        alt_modal_intent: ap.weights[i].predicted_intent,
        modal_agreement: rp.weights[i].predicted_intent == ap.weights[i].predicted_intent,
        ref_primary_weight_bp: rp.weights[i].primary_weight_bp,
        alt_primary_weight_bp: ap.weights[i].primary_weight_bp,
    }
}

/// How many of the first `n` choices the two policies predict the same intent for.
pub open spec fn agreement_count(
    rw: Seq<ParametricActionWeight>,
    aw: Seq<ParametricActionWeight>,
    n: int,
) -> int
    decreases n,
{
    if n <= 0 {
        0
    } else {
        agreement_count(rw, aw, n - 1) + if rw[n - 1].predicted_intent == aw[n - 1].predicted_intent {
            1int
        } else {
            0int
        }
    }
}

/// Comprehensive report comparing empirical distributions and parametric policies across model families.
#[derive(Clone, Debug, PartialEq, Eq, Hash)]
pub struct MultiModelComparisonReport {
    schema: &'static str,
    profile_id: &'static str,
    reference_model_prompt_protocol_id: &'static str,
    alternative_model_prompt_protocol_id: &'static str,
    entries: [DilemmaModelComparisonEntry; 7],
    mean_action_tvd_bp: u16,
    mean_communication_tvd_bp: u16,
    modal_agreement_count: u8,
    alignment_status: ModelFamilyAlignmentStatus,
}

/// The content of a multi-model comparison report.
pub struct MultiModelView {
    pub schema: Seq<char>,
    pub profile_id: Seq<char>,
    pub reference_protocol: Seq<char>,
    pub alternative_protocol: Seq<char>,
    pub entries: Seq<ModelEntryView>,
    pub mean_action_tvd_bp: u16,
    pub mean_communication_tvd_bp: u16,
    pub modal_agreement_count: u8,
    pub alignment_status: ModelFamilyAlignmentStatus,
}

impl View for MultiModelComparisonReport {
    type V = MultiModelView;

    closed spec fn view(&self) -> MultiModelView {
        MultiModelView {
            schema: self.schema@,
            profile_id: self.profile_id@,
            reference_protocol: self.reference_model_prompt_protocol_id@,
            alternative_protocol: self.alternative_model_prompt_protocol_id@,
            entries: self.entries@.map_values(|e: DilemmaModelComparisonEntry| e@),
            mean_action_tvd_bp: self.mean_action_tvd_bp,
            mean_communication_tvd_bp: self.mean_communication_tvd_bp,
            modal_agreement_count: self.modal_agreement_count,
            alignment_status: self.alignment_status,
        }
    }
}

/// Which comparisons are refused: a profile unknown to the semantic
/// vocabulary, or reports and policies that are not all of one profile.
pub open spec fn multi_model_check(
    r: EstimateView,
    a: EstimateView,
    rp: PolicyView,
    ap: PolicyView,
) -> Result<(), MultiModelComparisonError> {
    if semantic_profile_for(r.profile_id) is None || semantic_profile_for(a.profile_id) is None {
        Err(MultiModelComparisonError::UnknownProfile)
    } else if r.profile_id != a.profile_id || rp.profile_id != ap.profile_id || r.profile_id
        != rp.profile_id {
        Err(MultiModelComparisonError::MismatchedProfile)
    } else {
        Ok(())
    }
}

/// The comparison of a reference family (`r`, `rp`) with an alternative one
/// (`a`, `ap`): one entry per catalog choice, the mean distances (rounded
/// down), the number of choices with the same modal intent, and the verdict.
pub open spec fn multi_model_of(
    r: EstimateView,
    a: EstimateView,
    rp: PolicyView,
    ap: PolicyView,
) -> MultiModelView {
    let mean_action = action_distance_sum(r, a, 7) / 7;
    let agreement = agreement_count(rp.weights, ap.weights, 7);
    MultiModelView {
        schema: MULTI_MODEL_COMPARISON_SCHEMA@,
        profile_id: r.profile_id,
        reference_protocol: r.model_prompt_protocol_id,
        alternative_protocol: a.model_prompt_protocol_id,
        entries: Seq::new(7, |i: int| model_entry_of(r, a, rp, ap, i)),
        mean_action_tvd_bp: mean_action as u16,
        mean_communication_tvd_bp: (signal_distance_sum(r, a, 7) / 7) as u16,
        modal_agreement_count: agreement as u8,
        alignment_status: alignment_of(mean_action, agreement),
    }
}

/// Markdown rows of the first `n` entries.
pub open spec fn model_entries_markdown(es: Seq<ModelEntryView>, n: int) -> Seq<char>
    decreases n,
{
    if n <= 0 {
        Seq::empty()
    } else {
        model_entries_markdown(es, n - 1) + model_entry_markdown(es[n - 1])
    }
}

/// The Markdown rendering of a multi-model comparison report.
pub open spec fn multi_model_markdown(v: MultiModelView) -> Seq<char> {
    "# Multi-Model & Prompting Family Comparison Report\n\n- schema: "@ + v.schema
        + "\n- profile_id: "@ + v.profile_id + "\n- reference_protocol: "@ + v.reference_protocol
        + "\n- alternative_protocol: "@ + v.alternative_protocol + "\n- mean_action_tvd_bp: "@
        + decimal(v.mean_action_tvd_bp as nat) + "\n- mean_communication_tvd_bp: "@ + decimal(
        v.mean_communication_tvd_bp as nat,
    ) + "\n- modal_agreement_count: "@ + decimal(v.modal_agreement_count as nat)
        + "/7\n- alignment_status: "@ + alignment_label(v.alignment_status)
        + "\n\n## Dilemma Comparison Table\n\n| choice_id | domain | action_tvd_bp | comm_tvd_bp | ref_modal | alt_modal | agreement | ref_primary_bp | alt_primary_bp |\n| --- | --- | ---: | ---: | --- | --- | --- | ---: | ---: |\n"@
        + model_entries_markdown(v.entries, 7)
}

impl MultiModelComparisonReport {
    /// Compare reference and alternative empirical distribution reports and fitted policies.
    pub fn compare(
        ref_empirical: &EmpiricalDistributionEstimateReport,
        alt_empirical: &EmpiricalDistributionEstimateReport,
        ref_policy: &ParametricPolicyDefinition,
        alt_policy: &ParametricPolicyDefinition,
    ) -> (r: Result<Self, MultiModelComparisonError>)
        ensures
            match r {
                Ok(rep) => multi_model_check(
                    ref_empirical@,
                    alt_empirical@,
                    ref_policy@,
                    alt_policy@,
                ) is Ok && rep@ == multi_model_of(
                    ref_empirical@,
                    alt_empirical@,
                    ref_policy@,
                    alt_policy@,
                ) && verdict_within_thresholds(rep@),
                Err(e) => multi_model_check(
                    ref_empirical@,
                    alt_empirical@,
                    ref_policy@,
                    alt_policy@,
                ) == Err::<(), MultiModelComparisonError>(e),
            },
    {
        let ghost rv = ref_empirical@;
        let ghost av = alt_empirical@;
        let ghost rpv = ref_policy@;
        let ghost apv = alt_policy@;
        if SemanticProfileVocabulary::validate_profile_id(ref_empirical.profile_id()).is_err() {
            return Err(MultiModelComparisonError::UnknownProfile);
        }
        if SemanticProfileVocabulary::validate_profile_id(alt_empirical.profile_id()).is_err() {
            return Err(MultiModelComparisonError::UnknownProfile);
        }
        if !str_eq(ref_empirical.profile_id(), alt_empirical.profile_id()) || !str_eq(
            ref_policy.profile_id(),
            alt_policy.profile_id(),
        ) || !str_eq(ref_empirical.profile_id(), ref_policy.profile_id()) {
            return Err(MultiModelComparisonError::MismatchedProfile);
        }
        let choices = DiagnosticChoiceCatalog::all_choices();
        let ref_acts = ref_empirical.action_distributions();
        let alt_acts = alt_empirical.action_distributions();
        let ref_comms = ref_empirical.communication_distributions();
        let alt_comms = alt_empirical.communication_distributions();
        let ref_ws = ref_policy.action_weights();
        let alt_ws = alt_policy.action_weights();
        let mut entries: Vec<DilemmaModelComparisonEntry> = Vec::new();
        let mut total_action_tvd: u32 = 0;
        let mut total_comm_tvd: u32 = 0;
        let mut modal_agreement_count: u8 = 0;
        let mut i: usize = 0;
        while i < 7
            invariant
                i <= 7,
                choices@.len() == 7,
                forall|k: int|
                    0 <= k < 7 ==> (#[trigger] choices@[k])@ == choice_of_domain(
                        catalog_domains()[k],
                    ),
                ref_acts@.len() == 7,
                alt_acts@.len() == 7,
                ref_comms@.len() == 7,
                alt_comms@.len() == 7,
                ref_acts@.map_values(|d: crate::empirical::DiagnosticChoiceActionDistribution| d@)
                    == rv.actions,
                alt_acts@.map_values(|d: crate::empirical::DiagnosticChoiceActionDistribution| d@)
                    == av.actions,
                ref_comms@.map_values(
                    |d: crate::empirical::DiagnosticChoiceCommunicationDistribution| d@,
                ) == rv.signals,
                alt_comms@.map_values(
                    |d: crate::empirical::DiagnosticChoiceCommunicationDistribution| d@,
                ) == av.signals,
                ref_ws@ == rpv.weights,
                alt_ws@ == apv.weights,
                ref_ws@.len() == 7,
                alt_ws@.len() == 7,
                entries@.len() == i,
                forall|k: int|
                    0 <= k < i ==> (#[trigger] entries@[k])@ == model_entry_of(rv, av, rpv, apv, k),
                total_action_tvd == action_distance_sum(rv, av, i as int),
                total_action_tvd <= 10000 * i,
                total_comm_tvd == signal_distance_sum(rv, av, i as int),
                total_comm_tvd <= 10000 * i,
                modal_agreement_count == agreement_count(rpv.weights, apv.weights, i as int),
                modal_agreement_count <= i,
            decreases 7 - i,
        {
            let choice = choices[i];
            let ref_act = ref_acts[i];
            let alt_act = alt_acts[i];
            let ref_comm = ref_comms[i];
            let alt_comm = alt_comms[i];
            assert(rv.actions[i as int] == ref_act@);
            assert(av.actions[i as int] == alt_act@);
            assert(rv.signals[i as int] == ref_comm@);
            assert(av.signals[i as int] == alt_comm@);
            let _ = ref_act.sample_count();
            let _ = alt_act.sample_count();
            let _ = ref_comm.sample_count();
            let _ = alt_comm.sample_count();
            let act_tvd = BehavioralDistanceMeasure::action_tvd(ref_act, alt_act);
            let comm_tvd = BehavioralDistanceMeasure::communication_tvd(ref_comm, alt_comm);
            proof {
                lemma_action_distance_bounded(ref_act@, alt_act@);
                lemma_signal_distance_bounded(ref_comm@, alt_comm@);
            }
            total_action_tvd = total_action_tvd + act_tvd as u32;
            total_comm_tvd = total_comm_tvd + comm_tvd as u32;
            let ref_w = ref_ws[i];
            let alt_w = alt_ws[i];
            let ref_modal = ref_w.predicted_intent();
            let alt_modal = alt_w.predicted_intent();
            let modal_match = ref_modal == alt_modal;
            if modal_match {
                modal_agreement_count = modal_agreement_count + 1;
            }
            let entry = DilemmaModelComparisonEntry {
                choice_id: choice.choice_id(),
                domain: choice.domain(),
                primary_intent: choice.primary_intent(),
                alternative_intent: choice.alternative_intent(),
                action_tvd_bp: act_tvd,
                communication_tvd_bp: comm_tvd,
                ref_modal_intent: ref_modal,
                alt_modal_intent: alt_modal,
                modal_agreement: modal_match,
                ref_primary_weight_bp: ref_w.primary_weight_bp(),
                alt_primary_weight_bp: alt_w.primary_weight_bp(),
            };
            assert(entry@ == model_entry_of(rv, av, rpv, apv, i as int));
            entries.push(entry);
            i = i + 1;
        }
        let mean_action_tvd_bp = (total_action_tvd / 7) as u16;
        let mean_communication_tvd_bp = (total_comm_tvd / 7) as u16;
        let alignment_status = if mean_action_tvd_bp <= ALIGNMENT_THRESHOLD_ALIGNED_TVD_BP
            && modal_agreement_count >= ALIGNMENT_MIN_MODAL_AGREEMENT_ALIGNED {
            ModelFamilyAlignmentStatus::Aligned
        } else if mean_action_tvd_bp <= ALIGNMENT_THRESHOLD_SHIFTED_TVD_BP && modal_agreement_count
            >= ALIGNMENT_MIN_MODAL_AGREEMENT_SHIFTED {
            ModelFamilyAlignmentStatus::Shifted
        } else {
            ModelFamilyAlignmentStatus::Divergent
        };
        let rep = MultiModelComparisonReport {
            schema: MULTI_MODEL_COMPARISON_SCHEMA,
            profile_id: ref_empirical.profile_id(),
            reference_model_prompt_protocol_id: ref_empirical.model_prompt_protocol_id(),
            alternative_model_prompt_protocol_id: alt_empirical.model_prompt_protocol_id(),
            entries: [
                entries[0],
                entries[1],
                entries[2],
                entries[3],
                entries[4],
                entries[5],
                entries[6],
            ],
            mean_action_tvd_bp,
            mean_communication_tvd_bp,
            modal_agreement_count,
            alignment_status,
        };
        assert(rep@.entries =~= multi_model_of(rv, av, rpv, apv).entries);
        Ok(rep)
    }

    pub fn schema(&self) -> (r: &'static str)
        ensures
            r@ == self@.schema,
    {
        self.schema
    }

    pub fn profile_id(&self) -> (r: &'static str)
        ensures
            r@ == self@.profile_id,
    {
        self.profile_id
    }

    pub fn reference_model_prompt_protocol_id(&self) -> (r: &'static str)
        ensures
            r@ == self@.reference_protocol,
    {
        self.reference_model_prompt_protocol_id
    }

    pub fn alternative_model_prompt_protocol_id(&self) -> (r: &'static str)
        ensures
            r@ == self@.alternative_protocol,
    {
        self.alternative_model_prompt_protocol_id
    }

    pub fn entries(&self) -> (r: &[DilemmaModelComparisonEntry; 7])
        ensures
            r@.map_values(|e: DilemmaModelComparisonEntry| e@) == self@.entries,
            r@.len() == 7,
    {
        &self.entries
    }

    pub fn mean_action_tvd_bp(&self) -> (r: u16)
        ensures
            r == self@.mean_action_tvd_bp,
    {
        self.mean_action_tvd_bp
    }

    pub fn mean_communication_tvd_bp(&self) -> (r: u16)
        ensures
            r == self@.mean_communication_tvd_bp,
    {
        self.mean_communication_tvd_bp
    }

    pub fn modal_agreement_count(&self) -> (r: u8)
        ensures
            r == self@.modal_agreement_count,
    {
        self.modal_agreement_count
    }

    pub fn alignment_status(&self) -> (r: ModelFamilyAlignmentStatus)
        ensures
            r == self@.alignment_status,
    {
        self.alignment_status
    }

    /// Render the multi-model comparison report as formatted Markdown.
    pub fn to_markdown(&self) -> (r: String)
        ensures
            r@ == multi_model_markdown(self@),
    {
        let ghost v = self@;
        let mut out = String::new();
        push_str(&mut out, "# Multi-Model & Prompting Family Comparison Report\n\n- schema: ");
        push_str(&mut out, self.schema);
        push_str(&mut out, "\n- profile_id: ");
        push_str(&mut out, self.profile_id);
        push_str(&mut out, "\n- reference_protocol: ");
        push_str(&mut out, self.reference_model_prompt_protocol_id);
        push_str(&mut out, "\n- alternative_protocol: ");
        push_str(&mut out, self.alternative_model_prompt_protocol_id);
        push_str(&mut out, "\n- mean_action_tvd_bp: ");
        push_decimal(&mut out, self.mean_action_tvd_bp as u64);
        push_str(&mut out, "\n- mean_communication_tvd_bp: ");
        push_decimal(&mut out, self.mean_communication_tvd_bp as u64);
        push_str(&mut out, "\n- modal_agreement_count: ");
        push_decimal(&mut out, self.modal_agreement_count as u64);
        push_str(&mut out, "/7\n- alignment_status: ");
        push_str(&mut out, self.alignment_status.as_str());
        push_str(
            &mut out,
            "\n\n## Dilemma Comparison Table\n\n| choice_id | domain | action_tvd_bp | comm_tvd_bp | ref_modal | alt_modal | agreement | ref_primary_bp | alt_primary_bp |\n| --- | --- | ---: | ---: | --- | --- | --- | ---: | ---: |\n",
        );
        let ghost head = out@;
        let mut i: usize = 0;
        while i < 7
            invariant
                i <= 7,
                v == self@,
                v.entries.len() == 7,
                self.entries@.len() == 7,
                self.entries@.map_values(|e: DilemmaModelComparisonEntry| e@) == v.entries,
                out@ == head + model_entries_markdown(v.entries, i as int),
            decreases 7 - i,
        {
            assert(v.entries[i as int] == self.entries@[i as int]@);
            let row = self.entries[i].to_markdown();
            push_str(&mut out, row.as_str());
            assert(out@ =~= head + model_entries_markdown(v.entries, i + 1));
            i = i + 1;
        }
        assert(out@ =~= multi_model_markdown(v));
        out
    }
}

/// Comparing a family with itself finds no distance, full modal agreement,
/// and an aligned verdict.
pub proof fn lemma_self_comparison_aligned(r: EstimateView, p: PolicyView)
    requires
        r.actions.len() == 7,
        r.signals.len() == 7,
        p.weights.len() == 7,
    ensures
        multi_model_of(r, r, p, p).mean_action_tvd_bp == 0,
        multi_model_of(r, r, p, p).mean_communication_tvd_bp == 0,
        multi_model_of(r, r, p, p).modal_agreement_count == 7,
        multi_model_of(r, r, p, p).alignment_status == ModelFamilyAlignmentStatus::Aligned,
        forall|i: int|
            0 <= i < 7 ==> (#[trigger] multi_model_of(r, r, p, p).entries[i]).action_tvd_bp == 0
                && multi_model_of(r, r, p, p).entries[i].communication_tvd_bp == 0
                && multi_model_of(r, r, p, p).entries[i].modal_agreement,
{
    assert forall|i: int| 0 <= i < 7 implies action_distance(r.actions[i], r.actions[i]) == 0
        && signal_distance(r.signals[i], r.signals[i]) == 0 by {
        lemma_distance_to_self_is_zero(r.actions[i], r.signals[i]);
    }
    reveal_with_fuel(action_distance_sum, 8);
    reveal_with_fuel(signal_distance_sum, 8);
    reveal_with_fuel(agreement_count, 8);
}

/// Swapping which family is the reference keeps every distance, the modal
/// agreement count and the verdict, and swaps the modal intents and primary
/// weights of each entry.
pub proof fn lemma_swap_keeps_alignment(
    r: EstimateView,
    a: EstimateView,
    rp: PolicyView,
    ap: PolicyView,
)
    requires
        r.actions.len() == 7,
        r.signals.len() == 7,
        a.actions.len() == 7,
        a.signals.len() == 7,
        rp.weights.len() == 7,
        ap.weights.len() == 7,
    ensures
        multi_model_of(a, r, ap, rp).mean_action_tvd_bp == multi_model_of(
            r,
            a,
            rp,
            ap,
        ).mean_action_tvd_bp,
        multi_model_of(a, r, ap, rp).mean_communication_tvd_bp == multi_model_of(
            r,
            a,
            rp,
            ap,
        ).mean_communication_tvd_bp,
        multi_model_of(a, r, ap, rp).modal_agreement_count == multi_model_of(
            r,
            a,
            rp,
            ap,
        ).modal_agreement_count,
        multi_model_of(a, r, ap, rp).alignment_status == multi_model_of(
            r,
            a,
            rp,
            ap,
        ).alignment_status,
        forall|i: int|
            0 <= i < 7 ==> {
                let e = #[trigger] multi_model_of(r, a, rp, ap).entries[i];
                let f = multi_model_of(a, r, ap, rp).entries[i];
                &&& f.action_tvd_bp == e.action_tvd_bp
                &&& f.communication_tvd_bp == e.communication_tvd_bp
                &&& f.modal_agreement == e.modal_agreement
                &&& f.ref_modal_intent == e.alt_modal_intent
                &&& f.alt_modal_intent == e.ref_modal_intent
                &&& f.ref_primary_weight_bp == e.alt_primary_weight_bp
                &&& f.alt_primary_weight_bp == e.ref_primary_weight_bp
            },
{
    assert forall|i: int| 0 <= i < 7 implies action_distance(a.actions[i], r.actions[i])
        == action_distance(r.actions[i], a.actions[i]) && signal_distance(a.signals[i], r.signals[i])
        == signal_distance(r.signals[i], a.signals[i]) by {
        lemma_distance_symmetric(r.actions[i], a.actions[i], r.signals[i], a.signals[i]);
    }
    reveal_with_fuel(action_distance_sum, 8);
    reveal_with_fuel(signal_distance_sum, 8);
    reveal_with_fuel(agreement_count, 8);
}

proof fn lemma_sums_bounded(
    r: EstimateView,
    a: EstimateView,
    rp: PolicyView,
    ap: PolicyView,
    n: int,
)
    requires
        0 <= n <= 7,
        r.actions.len() == 7,
        a.actions.len() == 7,
        forall|i: int| 0 <= i < 7 ==> action_ok(#[trigger] r.actions[i]) && action_ok(a.actions[i]),
    ensures
        0 <= action_distance_sum(r, a, n) <= 10000 * n,
        0 <= agreement_count(rp.weights, ap.weights, n) <= n,
    decreases n,
{
    if n > 0 {
        lemma_sums_bounded(r, a, rp, ap, n - 1);
        lemma_action_distance_bounded(r.actions[n - 1], a.actions[n - 1]);
    }
}

/// The verdict never hides a large distance: for any two families whose
/// action distributions are valid, the comparison's verdict agrees with its
/// own mean action distance and modal agreement count (see
/// `verdict_within_thresholds`); in particular an aligned verdict means a mean
/// action distance of at most the aligned threshold.
pub proof fn lemma_verdict_within_thresholds(
    r: EstimateView,
    a: EstimateView,
    rp: PolicyView,
    ap: PolicyView,
)
    requires
        r.actions.len() == 7,
        a.actions.len() == 7,
        rp.weights.len() == 7,
        ap.weights.len() == 7,
        forall|i: int| 0 <= i < 7 ==> action_ok(#[trigger] r.actions[i]) && action_ok(a.actions[i]),
    ensures
        verdict_within_thresholds(multi_model_of(r, a, rp, ap)),
        multi_model_of(r, a, rp, ap).alignment_status is Aligned ==> multi_model_of(
            r,
            a,
            rp,
            ap,
        ).mean_action_tvd_bp <= ALIGNMENT_THRESHOLD_ALIGNED_TVD_BP,
{
    lemma_sums_bounded(r, a, rp, ap, 7);
    let mean = action_distance_sum(r, a, 7) / 7;
    assert(0 <= mean <= 10000);
}

} // verus!
