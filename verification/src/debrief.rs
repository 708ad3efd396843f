//! Communication and leadership debriefs of a team encounter: what the
//! channel delivered and why teammates dissented, how calls were followed,
//! and an integrated report with its Markdown rendering.

use vstd::prelude::*;
use crate::attribution::{
    coordination_factor_name, coordination_rating_name, execution_factor_name, execution_rating_name,
    quadrant_name, CoordinationExecutionAttribution,
};
use crate::communication::TeamDissentReason;
use crate::lane::ObservationId;
use crate::leadership::{leadership_name, LeadershipStructure};
use crate::simultaneous::{coordination_outcome_name, TeamSimultaneousResolution};
use crate::text::{decimal, push_decimal, push_signed, push_str, signed_decimal};

verus! {

/// Versioned schema for team communication debriefs.
pub const COMMUNICATION_DEBRIEF_SCHEMA: &'static str = "m8-team-communication-debrief-v1";

/// Versioned schema for team leadership debriefs.
pub const LEADERSHIP_DEBRIEF_SCHEMA: &'static str = "m8-team-leadership-debrief-v1";

/// Versioned schema for integrated team encounter debrief reports.
pub const TEAM_ENCOUNTER_DEBRIEF_SCHEMA: &'static str = "m8-team-encounter-debrief-v1";

/// The whole scale, in basis points.
pub const MAX_DEBRIEF_BP: u32 = 10_000;

/// Why a debrief is refused.
#[derive(Clone, Copy, Debug, PartialEq, Eq, Hash)]
pub enum TeamDebriefError {
    /// Private chain-of-thought is forbidden in debriefs.
    ChainOfThoughtForbidden,
    /// A rate is above the scale.
    BasisPointOutOfRange { bp: u32, max: u32 },
    /// The encounter input is empty or invalid.
    InvalidEncounterInput(&'static str),
}

/// The message describing a debrief error.
pub open spec fn debrief_error_message(e: TeamDebriefError) -> Seq<char> {
    match e {
        TeamDebriefError::ChainOfThoughtForbidden => "private chain-of-thought is strictly forbidden in debrief contracts"@,
        TeamDebriefError::BasisPointOutOfRange { bp, max } => "basis point value "@ + decimal(bp as nat)
            + " exceeds maximum allowed bound "@ + decimal(max as nat),
        TeamDebriefError::InvalidEncounterInput(msg) => "invalid encounter input: "@ + msg@,
    }
}

impl TeamDebriefError {
    /// The message describing this error.
    pub fn message(&self) -> (r: String)
        ensures
            r@ == debrief_error_message(*self),
    {
        let mut out = String::new();
        match *self {
            TeamDebriefError::ChainOfThoughtForbidden => {
                push_str(&mut out, "private chain-of-thought is strictly forbidden in debrief contracts");
            },
            TeamDebriefError::BasisPointOutOfRange { bp, max } => {
                push_str(&mut out, "basis point value ");
                push_decimal(&mut out, bp as u64);
                push_str(&mut out, " exceeds maximum allowed bound ");
                push_decimal(&mut out, max as u64);
            },
            TeamDebriefError::InvalidEncounterInput(msg) => {
                push_str(&mut out, "invalid encounter input: ");
                push_str(&mut out, msg);
            },
        }
        out
    }
}

/// What the team channel did during an encounter, and why teammates dissented.
#[derive(Clone, Copy, Debug, PartialEq, Eq, Hash)]
pub struct CommunicationDebriefSummary {
    schema: &'static str,
    sent_count: usize,
    delivered_count: usize,
    delayed_count: usize,
    dropped_overload_count: usize,
    dropped_noise_count: usize,
    suppressed_distrusted_count: usize,
    reliability_bp: u32,
    clarity_impact_bp: u32,
    dialogue_rounds: u32,
    dissent_counts: [(TeamDissentReason, usize); 6],
    chain_of_thought_present: bool,
}

/// The content of a communication summary.
pub struct CommunicationSummaryView {
    pub schema: &'static str,
    pub sent_count: usize,
    pub delivered_count: usize,
    pub delayed_count: usize,
    pub dropped_overload_count: usize,
    pub dropped_noise_count: usize,
    pub suppressed_distrusted_count: usize,
    pub reliability_bp: u32,
    pub clarity_impact_bp: u32,
    pub dialogue_rounds: u32,
    pub dissent_counts: [(TeamDissentReason, usize); 6],
    pub chain_of_thought_present: bool,
}

impl View for CommunicationDebriefSummary {
    type V = CommunicationSummaryView;

    closed spec fn view(&self) -> CommunicationSummaryView {
        CommunicationSummaryView {
            schema: self.schema,
            sent_count: self.sent_count,
            delivered_count: self.delivered_count,
            delayed_count: self.delayed_count,
            dropped_overload_count: self.dropped_overload_count,
            dropped_noise_count: self.dropped_noise_count,
            suppressed_distrusted_count: self.suppressed_distrusted_count,
            reliability_bp: self.reliability_bp,
            clarity_impact_bp: self.clarity_impact_bp,
            dialogue_rounds: self.dialogue_rounds,
            dissent_counts: self.dissent_counts,
            chain_of_thought_present: self.chain_of_thought_present,
        }
    }
}

/// The communication summary of its parts, or why it is refused.
pub open spec fn communication_summary_of(
    sent_count: usize,
    delivered_count: usize,
    delayed_count: usize,
    dropped_overload_count: usize,
    dropped_noise_count: usize,
    suppressed_distrusted_count: usize,
    reliability_bp: u32,
    clarity_impact_bp: u32,
    dialogue_rounds: u32,
    dissent_counts: [(TeamDissentReason, usize); 6],
    chain_of_thought_present: bool,
) -> Result<CommunicationSummaryView, TeamDebriefError> {
    if chain_of_thought_present {
        Err(TeamDebriefError::ChainOfThoughtForbidden)
    } else if reliability_bp > MAX_DEBRIEF_BP {
        Err(TeamDebriefError::BasisPointOutOfRange { bp: reliability_bp, max: MAX_DEBRIEF_BP })
    } else if clarity_impact_bp > MAX_DEBRIEF_BP {
        Err(TeamDebriefError::BasisPointOutOfRange { bp: clarity_impact_bp, max: MAX_DEBRIEF_BP })
    } else {
        Ok(
            CommunicationSummaryView {
                schema: COMMUNICATION_DEBRIEF_SCHEMA,
                sent_count,
                delivered_count,
                delayed_count,
                dropped_overload_count,
                dropped_noise_count,
                suppressed_distrusted_count,
                reliability_bp,
                clarity_impact_bp,
                dialogue_rounds,
                dissent_counts,
                chain_of_thought_present: false,
            },
        )
    }
}

/// The total of the dissent counts.
pub open spec fn dissent_total(d: [(TeamDissentReason, usize); 6]) -> int {
    d[0].1 + d[1].1 + d[2].1 + d[3].1 + d[4].1 + d[5].1
}

impl CommunicationDebriefSummary {
    /// A summary carries no chain-of-thought, and its rates are within the scale.
    #[verifier::type_invariant]
    spec fn valid(self) -> bool {
        &&& !self.chain_of_thought_present
        &&& self.reliability_bp <= MAX_DEBRIEF_BP
        &&& self.clarity_impact_bp <= MAX_DEBRIEF_BP
    }

    /// A communication summary; one carrying chain-of-thought, or whose
    /// reliability or clarity is above the scale, is refused.
    pub fn new(
        sent_count: usize,
        delivered_count: usize,
        delayed_count: usize,
        dropped_overload_count: usize,
        dropped_noise_count: usize,
        suppressed_distrusted_count: usize,
        reliability_bp: u32,
        clarity_impact_bp: u32,
        dialogue_rounds: u32,
        dissent_counts: [(TeamDissentReason, usize); 6],
        chain_of_thought_present: bool,
    ) -> (r: Result<Self, TeamDebriefError>)
        ensures
            match communication_summary_of(
                sent_count,
                delivered_count,
                delayed_count,
                dropped_overload_count,
                dropped_noise_count,
                suppressed_distrusted_count,
                reliability_bp,
                clarity_impact_bp,
                dialogue_rounds,
                dissent_counts,
                chain_of_thought_present,
            ) {
                Ok(v) => r is Ok && r->Ok_0@ == v,
                Err(e) => r == Err::<Self, TeamDebriefError>(e),
            },
    {
        if chain_of_thought_present {
            return Err(TeamDebriefError::ChainOfThoughtForbidden);
        }
        if reliability_bp > MAX_DEBRIEF_BP {
            return Err(TeamDebriefError::BasisPointOutOfRange { bp: reliability_bp, max: MAX_DEBRIEF_BP });
        }
        if clarity_impact_bp > MAX_DEBRIEF_BP {
            return Err(TeamDebriefError::BasisPointOutOfRange { bp: clarity_impact_bp, max: MAX_DEBRIEF_BP });
        }
        Ok(CommunicationDebriefSummary {
            schema: COMMUNICATION_DEBRIEF_SCHEMA,
            sent_count,
            delivered_count,
            delayed_count,
            dropped_overload_count,
            dropped_noise_count,
            suppressed_distrusted_count,
            reliability_bp,
            clarity_impact_bp,
            dialogue_rounds,
            dissent_counts,
            chain_of_thought_present: false,
        })
    }

    pub fn schema(&self) -> (r: &'static str)
        ensures
            r == self@.schema,
    {
        self.schema
    }

    pub fn sent_count(&self) -> (r: usize)
        ensures
            r == self@.sent_count,
    {
        self.sent_count
    }

    pub fn delivered_count(&self) -> (r: usize)
        ensures
            r == self@.delivered_count,
    {
        self.delivered_count
    }

    pub fn delayed_count(&self) -> (r: usize)
        ensures
            r == self@.delayed_count,
    {
        self.delayed_count
    }

    pub fn dropped_overload_count(&self) -> (r: usize)
        ensures
            r == self@.dropped_overload_count,
    {
        self.dropped_overload_count
    }

    pub fn dropped_noise_count(&self) -> (r: usize)
        ensures
            r == self@.dropped_noise_count,
    {
        self.dropped_noise_count
    }

    pub fn suppressed_distrusted_count(&self) -> (r: usize)
        ensures
            r == self@.suppressed_distrusted_count,
    {
        self.suppressed_distrusted_count
    }

    pub fn reliability_bp(&self) -> (r: u32)
        ensures
            r == self@.reliability_bp,
    {
        self.reliability_bp
    }

    pub fn clarity_impact_bp(&self) -> (r: u32)
        ensures
            r == self@.clarity_impact_bp,
    {
        self.clarity_impact_bp
    }

    pub fn dialogue_rounds(&self) -> (r: u32)
        ensures
            r == self@.dialogue_rounds,
    {
        self.dialogue_rounds
    }

    pub fn dissent_counts(&self) -> (r: &[(TeamDissentReason, usize); 6])
        ensures
            *r == self@.dissent_counts,
    {
        &self.dissent_counts
    }

    /// The number of dissents of every reason together.
    pub fn total_dissent_count(&self) -> (r: usize)
        requires
            dissent_total(self@.dissent_counts) <= usize::MAX,
        ensures
            r == dissent_total(self@.dissent_counts),
    {
        let d = self.dissent_counts;
        d[0].1 + d[1].1 + d[2].1 + d[3].1 + d[4].1 + d[5].1
    }
}

/// How the team's calls were followed during an encounter.
#[derive(Clone, Copy, Debug, PartialEq, Eq, Hash)]
pub struct LeadershipDebriefSummary {
    schema: &'static str,
    structure: LeadershipStructure,
    total_directives: usize,
    complied_directives: usize,
    dissented_directives: usize,
    compliance_rate_bp: u32,
    consensus_deadlocks: usize,
    fallback_activations: usize,
    caller_reputation_delta_bp: i32,
    chain_of_thought_present: bool,
}

/// The content of a leadership summary.
pub struct LeadershipSummaryView {
    pub schema: &'static str,
    pub structure: LeadershipStructure,
    pub total_directives: usize,
    pub complied_directives: usize,
    pub dissented_directives: usize,
    pub compliance_rate_bp: u32,
    pub consensus_deadlocks: usize,
    pub fallback_activations: usize,
    pub caller_reputation_delta_bp: i32,
    pub chain_of_thought_present: bool,
}

impl View for LeadershipDebriefSummary {
    type V = LeadershipSummaryView;

    closed spec fn view(&self) -> LeadershipSummaryView {
        LeadershipSummaryView {
            schema: self.schema,
            structure: self.structure,
            total_directives: self.total_directives,
            complied_directives: self.complied_directives,
            dissented_directives: self.dissented_directives,
            compliance_rate_bp: self.compliance_rate_bp,
            consensus_deadlocks: self.consensus_deadlocks,
            fallback_activations: self.fallback_activations,
            caller_reputation_delta_bp: self.caller_reputation_delta_bp,
            chain_of_thought_present: self.chain_of_thought_present,
        }
    }
}

/// The leadership summary of its parts, or why it is refused.
pub open spec fn leadership_summary_of(
    structure: LeadershipStructure,
    total_directives: usize,
    complied_directives: usize,
    dissented_directives: usize,
    compliance_rate_bp: u32,
    consensus_deadlocks: usize,
    fallback_activations: usize,
    caller_reputation_delta_bp: i32,
    chain_of_thought_present: bool,
) -> Result<LeadershipSummaryView, TeamDebriefError> {
    if chain_of_thought_present {
        Err(TeamDebriefError::ChainOfThoughtForbidden)
    } else if compliance_rate_bp > MAX_DEBRIEF_BP {
        Err(TeamDebriefError::BasisPointOutOfRange { bp: compliance_rate_bp, max: MAX_DEBRIEF_BP })
    } else {
        Ok(
            LeadershipSummaryView {
                schema: LEADERSHIP_DEBRIEF_SCHEMA,
                structure,
                total_directives,
                complied_directives,
                dissented_directives,
                compliance_rate_bp,
                consensus_deadlocks,
                fallback_activations,
                caller_reputation_delta_bp,
                chain_of_thought_present: false,
            },
        )
    }
}

impl LeadershipDebriefSummary {
    /// A summary carries no chain-of-thought, and its compliance rate is within the scale.
    #[verifier::type_invariant]
    spec fn valid(self) -> bool {
        &&& !self.chain_of_thought_present
        &&& self.compliance_rate_bp <= MAX_DEBRIEF_BP
    }

    /// A leadership summary; one carrying chain-of-thought, or whose compliance
    /// rate is above the scale, is refused.
    pub fn new(
        structure: LeadershipStructure,
        total_directives: usize,
        complied_directives: usize,
        dissented_directives: usize,
        compliance_rate_bp: u32,
        consensus_deadlocks: usize,
        fallback_activations: usize,
        caller_reputation_delta_bp: i32,
        chain_of_thought_present: bool,
    ) -> (r: Result<Self, TeamDebriefError>)
        ensures
            match leadership_summary_of(
                structure,
                total_directives,
                complied_directives,
                dissented_directives,
                compliance_rate_bp,
                consensus_deadlocks,
                fallback_activations,
                caller_reputation_delta_bp,
                chain_of_thought_present,
            ) {
                Ok(v) => r is Ok && r->Ok_0@ == v,
                Err(e) => r == Err::<Self, TeamDebriefError>(e),
            },
    {
        if chain_of_thought_present {
            return Err(TeamDebriefError::ChainOfThoughtForbidden);
        }
        if compliance_rate_bp > MAX_DEBRIEF_BP {
            return Err(TeamDebriefError::BasisPointOutOfRange { bp: compliance_rate_bp, max: MAX_DEBRIEF_BP });
        }
        Ok(LeadershipDebriefSummary {
            schema: LEADERSHIP_DEBRIEF_SCHEMA,
            structure,
            total_directives,
            complied_directives,
            dissented_directives,
            compliance_rate_bp,
            consensus_deadlocks,
            fallback_activations,
            caller_reputation_delta_bp,
            chain_of_thought_present: false,
        })
    }

    pub fn schema(&self) -> (r: &'static str)
        ensures
            r == self@.schema,
    {
        self.schema
    }

    pub fn structure(&self) -> (r: &LeadershipStructure)
        ensures
            *r == self@.structure,
    {
        &self.structure
    }

    pub fn total_directives(&self) -> (r: usize)
        ensures
            r == self@.total_directives,
    {
        self.total_directives
    }

    pub fn complied_directives(&self) -> (r: usize)
        ensures
            r == self@.complied_directives,
    {
        self.complied_directives
    }

    pub fn dissented_directives(&self) -> (r: usize)
        ensures
            r == self@.dissented_directives,
    {
        self.dissented_directives
    }

    pub fn compliance_rate_bp(&self) -> (r: u32)
        ensures
            r == self@.compliance_rate_bp,
    {
        self.compliance_rate_bp
    }

    pub fn consensus_deadlocks(&self) -> (r: usize)
        ensures
            r == self@.consensus_deadlocks,
    {
        self.consensus_deadlocks
    }

    pub fn fallback_activations(&self) -> (r: usize)
        ensures
            r == self@.fallback_activations,
    {
        self.fallback_activations
    }

    pub fn caller_reputation_delta_bp(&self) -> (r: i32)
        ensures
            r == self@.caller_reputation_delta_bp,
    {
        self.caller_reputation_delta_bp
    }
}

/// An integrated debrief of a team encounter.
#[derive(Clone, Copy, Debug, PartialEq, Eq, Hash)]
pub struct TeamEncounterDebriefReport {
    pub schema: &'static str,
    pub turn: u32,
    pub observation_id: ObservationId,
    pub resolution: TeamSimultaneousResolution,
    pub attribution: Option<CoordinationExecutionAttribution>,
    pub communication_debrief: CommunicationDebriefSummary,
    pub leadership_debrief: LeadershipDebriefSummary,
    pub strategic_takeaway: &'static str,
    pub chain_of_thought_present: bool,
}

/// The integrated debrief of its parts, or why it is refused.
pub open spec fn encounter_report_of(
    turn: u32,
    observation_id: ObservationId,
    resolution: TeamSimultaneousResolution,
    attribution: Option<CoordinationExecutionAttribution>,
    communication_debrief: CommunicationDebriefSummary,
    leadership_debrief: LeadershipDebriefSummary,
    strategic_takeaway: &'static str,
    chain_of_thought_present: bool,
) -> Result<TeamEncounterDebriefReport, TeamDebriefError> {
    if chain_of_thought_present {
        Err(TeamDebriefError::ChainOfThoughtForbidden)
    } else {
        Ok(
            TeamEncounterDebriefReport {
                schema: TEAM_ENCOUNTER_DEBRIEF_SCHEMA,
                turn,
                observation_id,
                resolution,
                attribution,
                communication_debrief,
                leadership_debrief,
                strategic_takeaway,
                chain_of_thought_present: false,
            },
        )
    }
}

/// A basis-point value followed by its percentage, as `bp / 100` and `bp % 100`.
pub open spec fn bp_with_percent(bp: u32) -> Seq<char> {
    decimal(bp as nat) + " bp ("@ + decimal((bp / 100) as nat) + "."@ + decimal((bp % 100) as nat) + "%)"@
}

/// The attribution section of a debrief, when there is an attribution.
pub open spec fn attribution_section(a: Option<CoordinationExecutionAttribution>) -> Seq<char> {
    match a {
        None => Seq::empty(),
        Some(a) => "## Strategic Attribution\n\n- **Quadrant:** `"@ + quadrant_name(a.quadrant)
            + "`\n- **Coordination Rating:** `"@ + coordination_rating_name(a.coordination_assessment.rating)
            + "` ("@ + decimal(a.coordination_assessment.cohesion_bp as nat)
            + " bp)\n- **Primary Coordination Factor:** `"@ + coordination_factor_name(
            a.coordination_assessment.primary_factor,
        ) + "`\n- **Execution Rating:** `"@ + execution_rating_name(a.execution_assessment.rating) + "` ("@
            + decimal(a.execution_assessment.execution_score_bp as nat)
            + " bp)\n- **Primary Execution Factor:** `"@ + execution_factor_name(
            a.execution_assessment.primary_factor,
        ) + "`\n\n"@,
    }
}

/// The communication section of a debrief.
pub open spec fn communication_section(c: CommunicationDebriefSummary) -> Seq<char> {
    "## Communication Channel Performance\n\n- **Messages Sent / Delivered:** "@ + decimal(c@.sent_count as nat)
        + " / "@ + decimal(c@.delivered_count as nat) + "\n- **Delayed:** "@ + decimal(c@.delayed_count as nat)
        + " | **Dropped (Overload):** "@ + decimal(c@.dropped_overload_count as nat)
        + " | **Dropped (Noise):** "@ + decimal(c@.dropped_noise_count as nat)
        + "\n- **Transmission Reliability:** "@ + bp_with_percent(c@.reliability_bp)
        + "\n- **Dialogue Rounds:** "@ + decimal(c@.dialogue_rounds as nat) + "\n\n"@
}

/// The leadership section of a debrief.
pub open spec fn leadership_section(l: LeadershipDebriefSummary) -> Seq<char> {
    "## Leadership & Shot-Calling Performance\n\n- **Structure:** `"@ + leadership_name(l@.structure)
        + "`\n- **Directives Complied / Total:** "@ + decimal(l@.complied_directives as nat) + " / "@
        + decimal(l@.total_directives as nat) + "\n- **Compliance Rate:** "@ + bp_with_percent(
        l@.compliance_rate_bp,
    ) + "\n- **Consensus Deadlocks:** "@ + decimal(l@.consensus_deadlocks as nat)
        + " | **Fallback Activations:** "@ + decimal(l@.fallback_activations as nat)
        + "\n- **Caller Reputation Delta:** "@ + signed_decimal(l@.caller_reputation_delta_bp as int)
        + " bp\n\n"@
}

/// The Markdown rendering of an integrated debrief.
pub open spec fn encounter_markdown(r: TeamEncounterDebriefReport) -> Seq<char> {
    "# Team Encounter Debrief\n\n- **Schema:** `"@ + r.schema@ + "`\n- **Turn:** "@ + decimal(r.turn as nat)
        + "\n- **Observation ID:** "@ + decimal(r.observation_id.0 as nat)
        + "\n- **Coordination Outcome:** `"@ + coordination_outcome_name(r.resolution.coordination_outcome)
        + "`\n- **Team Cohesion:** "@ + bp_with_percent(r.resolution.team_cohesion_bp) + "\n\n"@
        + attribution_section(r.attribution) + communication_section(r.communication_debrief)
        + leadership_section(r.leadership_debrief) + "## Strategic Takeaway\n\n"@ + r.strategic_takeaway@
        + "\n"@
}

/// Append a basis-point value followed by its percentage.
fn push_bp_with_percent(out: &mut String, bp: u32)
    ensures
        final(out)@ == old(out)@ + bp_with_percent(bp),
{
    push_decimal(out, bp as u64);
    push_str(out, " bp (");
    push_decimal(out, (bp / 100) as u64);
    push_str(out, ".");
    push_decimal(out, (bp % 100) as u64);
    push_str(out, "%)");
}

/// Append the attribution section of a debrief.
fn push_attribution_section(out: &mut String, a: Option<CoordinationExecutionAttribution>)
    ensures
        final(out)@ == old(out)@ + attribution_section(a),
{
    match a {
        None => {
            proof {
                assert(old(out)@ + attribution_section(a) =~= old(out)@);
            }
        },
        Some(a) => {
            push_str(out, "## Strategic Attribution\n\n- **Quadrant:** `");
            push_str(out, a.quadrant.name());
            push_str(out, "`\n- **Coordination Rating:** `");
            push_str(out, a.coordination_assessment.rating.name());
            push_str(out, "` (");
            push_decimal(out, a.coordination_assessment.cohesion_bp as u64);
            push_str(out, " bp)\n- **Primary Coordination Factor:** `");
            push_str(out, a.coordination_assessment.primary_factor.name());
            push_str(out, "`\n- **Execution Rating:** `");
            push_str(out, a.execution_assessment.rating.name());
            push_str(out, "` (");
            push_decimal(out, a.execution_assessment.execution_score_bp as u64);
            push_str(out, " bp)\n- **Primary Execution Factor:** `");
            push_str(out, a.execution_assessment.primary_factor.name());
            push_str(out, "`\n\n");
        },
    }
}

/// Append the communication section of a debrief.
fn push_communication_section(out: &mut String, c: CommunicationDebriefSummary)
    ensures
        final(out)@ == old(out)@ + communication_section(c),
{
    push_str(out, "## Communication Channel Performance\n\n- **Messages Sent / Delivered:** ");
    push_decimal(out, c.sent_count as u64);
    push_str(out, " / ");
    push_decimal(out, c.delivered_count as u64);
    push_str(out, "\n- **Delayed:** ");
    push_decimal(out, c.delayed_count as u64);
    push_str(out, " | **Dropped (Overload):** ");
    push_decimal(out, c.dropped_overload_count as u64);
    push_str(out, " | **Dropped (Noise):** ");
    push_decimal(out, c.dropped_noise_count as u64);
    push_str(out, "\n- **Transmission Reliability:** ");
    push_bp_with_percent(out, c.reliability_bp);
    push_str(out, "\n- **Dialogue Rounds:** ");
    push_decimal(out, c.dialogue_rounds as u64);
    push_str(out, "\n\n");
}

/// Append the leadership section of a debrief.
fn push_leadership_section(out: &mut String, l: LeadershipDebriefSummary)
    ensures
        final(out)@ == old(out)@ + leadership_section(l),
{
    push_str(out, "## Leadership & Shot-Calling Performance\n\n- **Structure:** `");
    match l.structure {
        LeadershipStructure::DesignatedShotCaller { caller, fallback_mode } => {
            push_str(out, "DesignatedShotCaller { caller: ");
            push_str(out, caller.name());
            push_str(out, ", fallback_mode: ");
            push_str(out, "FallbackToDefaultHold");
            push_str(out, " }");
            proof {
                assert(fallback_mode is FallbackToDefaultHold);
            }
        },
    }
    push_str(out, "`\n- **Directives Complied / Total:** ");
    push_decimal(out, l.complied_directives as u64);
    push_str(out, " / ");
    push_decimal(out, l.total_directives as u64);
    push_str(out, "\n- **Compliance Rate:** ");
    push_bp_with_percent(out, l.compliance_rate_bp);
    push_str(out, "\n- **Consensus Deadlocks:** ");
    push_decimal(out, l.consensus_deadlocks as u64);
    push_str(out, " | **Fallback Activations:** ");
    push_decimal(out, l.fallback_activations as u64);
    push_str(out, "\n- **Caller Reputation Delta:** ");
    push_signed(out, l.caller_reputation_delta_bp as i64);
    push_str(out, " bp\n\n");
}

impl TeamEncounterDebriefReport {
    /// An integrated debrief; one carrying chain-of-thought is refused.
    pub fn new(
        turn: u32,
        observation_id: ObservationId,
        resolution: TeamSimultaneousResolution,
        attribution: Option<CoordinationExecutionAttribution>,
        communication_debrief: CommunicationDebriefSummary,
        leadership_debrief: LeadershipDebriefSummary,
        strategic_takeaway: &'static str,
        chain_of_thought_present: bool,
    ) -> (r: Result<Self, TeamDebriefError>)
        ensures
            r == encounter_report_of(
                turn,
                observation_id,
                resolution,
                attribution,
                communication_debrief,
                leadership_debrief,
                strategic_takeaway,
                chain_of_thought_present,
            ),
    {
        if chain_of_thought_present {
            return Err(TeamDebriefError::ChainOfThoughtForbidden);
        }
        Ok(TeamEncounterDebriefReport {
            schema: TEAM_ENCOUNTER_DEBRIEF_SCHEMA,
            turn,
            observation_id,
            resolution,
            attribution,
            communication_debrief,
            leadership_debrief,
            strategic_takeaway,
            chain_of_thought_present: false,
        })
    }

    pub fn schema(&self) -> (r: &'static str)
        ensures
            r == self.schema,
    {
        self.schema
    }

    pub fn turn(&self) -> (r: u32)
        ensures
            r == self.turn,
    {
        self.turn
    }

    pub fn observation_id(&self) -> (r: ObservationId)
        ensures
            r == self.observation_id,
    {
        self.observation_id
    }

    pub fn resolution(&self) -> (r: &TeamSimultaneousResolution)
        ensures
            *r == self.resolution,
    {
        &self.resolution
    }

    pub fn attribution(&self) -> (r: Option<&CoordinationExecutionAttribution>)
        ensures
            match r {
                Some(a) => self.attribution == Some(*a),
                None => self.attribution is None,
            },
    {
        match &self.attribution {
            Some(a) => Some(a),
            None => None,
        }
    }

    pub fn communication_debrief(&self) -> (r: &CommunicationDebriefSummary)
        ensures
            *r == self.communication_debrief,
    {
        &self.communication_debrief
    }

    pub fn leadership_debrief(&self) -> (r: &LeadershipDebriefSummary)
        ensures
            *r == self.leadership_debrief,
    {
        &self.leadership_debrief
    }

    pub fn strategic_takeaway(&self) -> (r: &'static str)
        ensures
            r == self.strategic_takeaway,
    {
        self.strategic_takeaway
    }

    /// The Markdown rendering of this debrief.
    pub fn render_markdown(&self) -> (r: String)
        ensures
            r@ == encounter_markdown(*self),
    {
        let mut out = String::new();
        push_str(&mut out, "# Team Encounter Debrief\n\n- **Schema:** `");
        push_str(&mut out, self.schema);
        push_str(&mut out, "`\n- **Turn:** ");
        push_decimal(&mut out, self.turn as u64);
        push_str(&mut out, "\n- **Observation ID:** ");
        push_decimal(&mut out, self.observation_id.value());
        push_str(&mut out, "\n- **Coordination Outcome:** `");
        push_str(&mut out, self.resolution.coordination_outcome.name());
        push_str(&mut out, "`\n- **Team Cohesion:** ");
        push_bp_with_percent(&mut out, self.resolution.team_cohesion_bp);
        push_str(&mut out, "\n\n");
        push_attribution_section(&mut out, self.attribution);
        push_communication_section(&mut out, self.communication_debrief);
        push_leadership_section(&mut out, self.leadership_debrief);
        push_str(&mut out, "## Strategic Takeaway\n\n");
        push_str(&mut out, self.strategic_takeaway);
        push_str(&mut out, "\n");
        out
    }
}

} // verus!
