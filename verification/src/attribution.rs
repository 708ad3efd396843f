//! Attribution of a team encounter's result to coordination and to
//! execution separately: four quadrants, rating tiers, causal factors,
//! contribution weights that sum to the whole, a chain-of-thought-free
//! report with its Markdown debrief, and a catalog of reference scenarios.

use vstd::prelude::*;
use crate::lane::{outcome_name, LaneOutcome};
use crate::simultaneous::{
    coordination_outcome_name, TeamCoordinationOutcome, TeamSimultaneousResolution, MAX_COHESION_BP,
};
use crate::text::{bool_text, decimal, push_bool, push_decimal, push_str, str_eq};

verus! {

/// Versioned schema for coordination and execution attribution structures.
pub const ATTRIBUTION_SCHEMA: &'static str = "m8-coordination-execution-attribution-v1";

/// Versioned schema for coordination and execution attribution reports.
pub const ATTRIBUTION_REPORT_SCHEMA: &'static str = "m8-coordination-execution-attribution-report-v1";

/// Versioned schema for the coordination attribution scenario catalog.
pub const ATTRIBUTION_CATALOG_SCHEMA: &'static str = "m8-coordination-attribution-catalog-v1";

/// The whole scale, in basis points.
pub const MAX_ATTRIBUTION_BP: u32 = 10_000;

/// Threshold of effective coordination.
pub const COORDINATION_THRESHOLD_BP: u32 = 5_000;

/// Threshold of effective execution.
pub const EXECUTION_THRESHOLD_BP: u32 = 5_000;

/// Threshold of the high rating tier.
pub const HIGH_RATING_THRESHOLD_BP: u32 = 7_500;

/// Threshold of the moderate rating tier.
pub const MODERATE_RATING_THRESHOLD_BP: u32 = 5_000;

/// Threshold of the low rating tier.
pub const LOW_RATING_THRESHOLD_BP: u32 = 2_500;

/// Why an attribution is refused.
#[derive(Clone, Copy, Debug, PartialEq, Eq, Hash)]
pub enum TeamAttributionError {
    /// Private chain-of-thought was present or requested.
    ChainOfThoughtForbidden,
    /// A score is above its scale.
    BasisPointOutOfRange { bp: u32, max: u32 },
    /// Contribution weights do not sum to the whole scale.
    SumConservationViolation { coordination_bp: u32, execution_bp: u32, exogenous_bp: u32, total_bp: u32 },
    /// No scenario of the catalog has the name.
    CatalogScenarioNotFound(&'static str),
    /// The scenario name is empty.
    InvalidScenarioName,
}

/// The message describing an attribution error.
pub open spec fn attribution_error_message(e: TeamAttributionError) -> Seq<char> {
    match e {
        TeamAttributionError::ChainOfThoughtForbidden => "private chain-of-thought is strictly forbidden in attribution contracts"@,
        TeamAttributionError::BasisPointOutOfRange { bp, max } => "basis point value "@ + decimal(bp as nat)
            + " exceeds maximum allowed bound "@ + decimal(max as nat),
        TeamAttributionError::SumConservationViolation { coordination_bp, execution_bp, exogenous_bp, total_bp } =>
            "attribution sum conservation violation: coordination "@ + decimal(coordination_bp as nat)
            + " + execution "@ + decimal(execution_bp as nat) + " + exogenous "@ + decimal(exogenous_bp as nat)
            + " = "@ + decimal(total_bp as nat) + " (expected 10000)"@,
        TeamAttributionError::CatalogScenarioNotFound(name) => "attribution scenario `"@ + name@
            + "` was not found in catalog"@,
        TeamAttributionError::InvalidScenarioName => "scenario name cannot be empty"@,
    }
}

impl TeamAttributionError {
    /// The message describing this error.
    pub fn message(&self) -> (r: String)
        ensures
            r@ == attribution_error_message(*self),
    {
        let mut out = String::new();
        match *self {
            TeamAttributionError::ChainOfThoughtForbidden => {
                push_str(&mut out, "private chain-of-thought is strictly forbidden in attribution contracts");
            },
            TeamAttributionError::BasisPointOutOfRange { bp, max } => {
                push_str(&mut out, "basis point value ");
                push_decimal(&mut out, bp as u64);
                push_str(&mut out, " exceeds maximum allowed bound ");
                push_decimal(&mut out, max as u64);
            },
            TeamAttributionError::SumConservationViolation { coordination_bp, execution_bp, exogenous_bp, total_bp } => {
                push_str(&mut out, "attribution sum conservation violation: coordination ");
                push_decimal(&mut out, coordination_bp as u64);
                push_str(&mut out, " + execution ");
                push_decimal(&mut out, execution_bp as u64);
                push_str(&mut out, " + exogenous ");
                push_decimal(&mut out, exogenous_bp as u64);
                push_str(&mut out, " = ");
                push_decimal(&mut out, total_bp as u64);
                push_str(&mut out, " (expected 10000)");
            },
            TeamAttributionError::CatalogScenarioNotFound(name) => {
                push_str(&mut out, "attribution scenario `");
                push_str(&mut out, name);
                push_str(&mut out, "` was not found in catalog");
            },
            TeamAttributionError::InvalidScenarioName => {
                push_str(&mut out, "scenario name cannot be empty");
            },
        }
        out
    }
}

/// The quadrant of a coordination and an execution score, or why there is none.
pub open spec fn classify_spec(coordination_bp: u32, execution_bp: u32) -> Result<
    AttributionQuadrant,
    TeamAttributionError,
> {
    if coordination_bp > MAX_ATTRIBUTION_BP {
        Err(TeamAttributionError::BasisPointOutOfRange { bp: coordination_bp, max: MAX_ATTRIBUTION_BP })
    } else if execution_bp > MAX_ATTRIBUTION_BP {
        Err(TeamAttributionError::BasisPointOutOfRange { bp: execution_bp, max: MAX_ATTRIBUTION_BP })
    } else if coordination_bp >= COORDINATION_THRESHOLD_BP && execution_bp >= EXECUTION_THRESHOLD_BP {
        Ok(AttributionQuadrant::CoordinatedTriumph)
    } else if coordination_bp >= COORDINATION_THRESHOLD_BP {
        Ok(AttributionQuadrant::CoordinatedFailure)
    } else if execution_bp >= EXECUTION_THRESHOLD_BP {
        Ok(AttributionQuadrant::UncoordinatedBailout)
    } else {
        Ok(AttributionQuadrant::CompoundedFailure)
    }
}

/// The summary of a quadrant.
pub open spec fn quadrant_description(q: AttributionQuadrant) -> Seq<char> {
    match q {
        AttributionQuadrant::CoordinatedTriumph => "High coordination alignment coupled with effective execution resolution"@,
        AttributionQuadrant::CoordinatedFailure => "High coordination alignment undermined by mechanical execution failure or adversary outplay"@,
        AttributionQuadrant::UncoordinatedBailout => "Low coordination cohesion or tactical dissent saved by individual execution success"@,
        AttributionQuadrant::CompoundedFailure => "Low coordination cohesion and directive failure compounded by execution collapse"@,
    }
}

/// The coordination tier of a score, or why there is none.
pub open spec fn coordination_rating_of(bp: u32) -> Result<CoordinationRating, TeamAttributionError> {
    if bp > MAX_ATTRIBUTION_BP {
        Err(TeamAttributionError::BasisPointOutOfRange { bp, max: MAX_ATTRIBUTION_BP })
    } else if bp >= HIGH_RATING_THRESHOLD_BP {
        Ok(CoordinationRating::HighCoordination)
    } else if bp >= MODERATE_RATING_THRESHOLD_BP {
        Ok(CoordinationRating::ModerateCoordination)
    } else if bp >= LOW_RATING_THRESHOLD_BP {
        Ok(CoordinationRating::LowCoordination)
    } else {
        Ok(CoordinationRating::FailedCoordination)
    }
}

/// The execution tier of a score, or why there is none.
pub open spec fn execution_rating_of(bp: u32) -> Result<ExecutionRating, TeamAttributionError> {
    if bp > MAX_ATTRIBUTION_BP {
        Err(TeamAttributionError::BasisPointOutOfRange { bp, max: MAX_ATTRIBUTION_BP })
    } else if bp >= HIGH_RATING_THRESHOLD_BP {
        Ok(ExecutionRating::FlawlessExecution)
    } else if bp >= MODERATE_RATING_THRESHOLD_BP {
        Ok(ExecutionRating::CompetentExecution)
    } else if bp >= LOW_RATING_THRESHOLD_BP {
        Ok(ExecutionRating::CompromisedExecution)
    } else {
        Ok(ExecutionRating::FailedExecution)
    }
}

/// Whether a coordination factor contributed positively.
pub open spec fn coordination_factor_favorable(f: CoordinationCausalFactor) -> bool {
    f is UnanimousAlignment || f is DirectiveCompliance || f is PeerConsensusArbitrated
}

/// Whether an execution factor contributed positively.
pub open spec fn execution_factor_favorable(f: ExecutionCausalFactor) -> bool {
    f is DecisiveDamageAdvantage || f is ObjectiveSecured || f is FavorablePositioning
}

/// Variant name, as debugging output spells it.
pub open spec fn quadrant_name(x: AttributionQuadrant) -> Seq<char> {
    match x {
        AttributionQuadrant::CoordinatedTriumph => "CoordinatedTriumph"@,
        AttributionQuadrant::CoordinatedFailure => "CoordinatedFailure"@,
        AttributionQuadrant::UncoordinatedBailout => "UncoordinatedBailout"@,
        AttributionQuadrant::CompoundedFailure => "CompoundedFailure"@,
    }
}

/// The four quadrants of strategic attribution.
#[derive(Clone, Copy, Debug, PartialEq, Eq, Hash, Structural)]
pub enum AttributionQuadrant {
    /// Sound coordination followed by successful execution.
    CoordinatedTriumph,
    /// Sound coordination undermined by failed execution.
    CoordinatedFailure,
    /// Weak or dissenting coordination saved by individual execution.
    UncoordinatedBailout,
    /// Fractured coordination compounded by execution collapse.
    CompoundedFailure,
}

/// Canonical label of a quadrant.
pub open spec fn quadrant_label(x: AttributionQuadrant) -> Seq<char> {
    match x {
        AttributionQuadrant::CoordinatedTriumph => "coordinated-triumph"@,
        AttributionQuadrant::CoordinatedFailure => "coordinated-failure"@,
        AttributionQuadrant::UncoordinatedBailout => "uncoordinated-bailout"@,
        AttributionQuadrant::CompoundedFailure => "compounded-failure"@,
    }
}

impl AttributionQuadrant {
    /// Return the canonical label.
    pub fn as_str(self) -> (r: &'static str)
        ensures
            r@ == quadrant_label(self),
    {
        match self {
            Self::CoordinatedTriumph => "coordinated-triumph",
            Self::CoordinatedFailure => "coordinated-failure",
            Self::UncoordinatedBailout => "uncoordinated-bailout",
            Self::CompoundedFailure => "compounded-failure",
        }
    }

    /// A concise summary of the quadrant.
    pub fn description(self) -> (r: &'static str)
        ensures
            r@ == quadrant_description(self),
    {
        match self {
            Self::CoordinatedTriumph => "High coordination alignment coupled with effective execution resolution",
            Self::CoordinatedFailure => "High coordination alignment undermined by mechanical execution failure or adversary outplay",
            Self::UncoordinatedBailout => "Low coordination cohesion or tactical dissent saved by individual execution success",
            Self::CompoundedFailure => "Low coordination cohesion and directive failure compounded by execution collapse",
        }
    }

    /// Whether the coordination dimension was effective.
    pub fn is_coordination_effective(self) -> (r: bool)
        ensures
            r == (self is CoordinatedTriumph || self is CoordinatedFailure),
    {
        match self {
            Self::CoordinatedTriumph | Self::CoordinatedFailure => true,
            _ => false,
        }
    }

    /// Whether the execution dimension was effective.
    pub fn is_execution_effective(self) -> (r: bool)
        ensures
            r == (self is CoordinatedTriumph || self is UncoordinatedBailout),
    {
        match self {
            Self::CoordinatedTriumph | Self::UncoordinatedBailout => true,
            _ => false,
        }
    }

    /// Classify coordination and execution scores into a quadrant; a score above
    /// the scale is refused.
    pub fn classify(coordination_cohesion_bp: u32, execution_efficiency_bp: u32) -> (r: Result<
        Self,
        TeamAttributionError,
    >)
        ensures
            r == classify_spec(coordination_cohesion_bp, execution_efficiency_bp),
    {
        if coordination_cohesion_bp > MAX_ATTRIBUTION_BP {
            return Err(TeamAttributionError::BasisPointOutOfRange {
                bp: coordination_cohesion_bp,
                max: MAX_ATTRIBUTION_BP,
            });
        }
        if execution_efficiency_bp > MAX_ATTRIBUTION_BP {
            return Err(TeamAttributionError::BasisPointOutOfRange {
                bp: execution_efficiency_bp,
                max: MAX_ATTRIBUTION_BP,
            });
        }
        let coord_ok = coordination_cohesion_bp >= COORDINATION_THRESHOLD_BP;
        let exec_ok = execution_efficiency_bp >= EXECUTION_THRESHOLD_BP;
        if coord_ok && exec_ok {
            Ok(Self::CoordinatedTriumph)
        } else if coord_ok {
            Ok(Self::CoordinatedFailure)
        } else if exec_ok {
            Ok(Self::UncoordinatedBailout)
        } else {
            Ok(Self::CompoundedFailure)
        }
    }

    /// Variant name, as debugging output spells it.
    pub fn name(self) -> (r: &'static str)
        ensures
            r@ == quadrant_name(self),
    {
        match self {
            Self::CoordinatedTriumph => "CoordinatedTriumph",
            Self::CoordinatedFailure => "CoordinatedFailure",
            Self::UncoordinatedBailout => "UncoordinatedBailout",
            Self::CompoundedFailure => "CompoundedFailure",
        }
    }
}

/// Variant name, as debugging output spells it.
pub open spec fn coordination_rating_name(x: CoordinationRating) -> Seq<char> {
    match x {
        CoordinationRating::HighCoordination => "HighCoordination"@,
        CoordinationRating::ModerateCoordination => "ModerateCoordination"@,
        CoordinationRating::LowCoordination => "LowCoordination"@,
        CoordinationRating::FailedCoordination => "FailedCoordination"@,
    }
}

/// Rating tier of the coordination dimension.
#[derive(Clone, Copy, Debug, PartialEq, Eq, Hash, Structural)]
pub enum CoordinationRating {
    /// Strong cohesion and compliance (at least 7,500 bp).
    HighCoordination,
    /// Moderate alignment with minor dissent (5,000 to 7,499 bp).
    ModerateCoordination,
    /// Divergent intents or weak compliance (2,500 to 4,999 bp).
    LowCoordination,
    /// Communication failure or deadlock (below 2,500 bp).
    FailedCoordination,
}

/// Canonical label of a coordination rating.
pub open spec fn coordination_rating_label(x: CoordinationRating) -> Seq<char> {
    match x {
        CoordinationRating::HighCoordination => "high-coordination"@,
        CoordinationRating::ModerateCoordination => "moderate-coordination"@,
        CoordinationRating::LowCoordination => "low-coordination"@,
        CoordinationRating::FailedCoordination => "failed-coordination"@,
    }
}

impl CoordinationRating {
    /// Return the canonical label.
    pub fn as_str(self) -> (r: &'static str)
        ensures
            r@ == coordination_rating_label(self),
    {
        match self {
            Self::HighCoordination => "high-coordination",
            Self::ModerateCoordination => "moderate-coordination",
            Self::LowCoordination => "low-coordination",
            Self::FailedCoordination => "failed-coordination",
        }
    }

    /// The tier of a score; a score above the scale is refused.
    pub fn from_basis_points(bp: u32) -> (r: Result<Self, TeamAttributionError>)
        ensures
            r == coordination_rating_of(bp),
    {
        if bp > MAX_ATTRIBUTION_BP {
            return Err(TeamAttributionError::BasisPointOutOfRange { bp, max: MAX_ATTRIBUTION_BP });
        }
        if bp >= HIGH_RATING_THRESHOLD_BP {
            Ok(Self::HighCoordination)
        } else if bp >= MODERATE_RATING_THRESHOLD_BP {
            Ok(Self::ModerateCoordination)
        } else if bp >= LOW_RATING_THRESHOLD_BP {
            Ok(Self::LowCoordination)
        } else {
            Ok(Self::FailedCoordination)
        }
    }

    /// Variant name, as debugging output spells it.
    pub fn name(self) -> (r: &'static str)
        ensures
            r@ == coordination_rating_name(self),
    {
        match self {
            Self::HighCoordination => "HighCoordination",
            Self::ModerateCoordination => "ModerateCoordination",
            Self::LowCoordination => "LowCoordination",
            Self::FailedCoordination => "FailedCoordination",
        }
    }
}

/// Variant name, as debugging output spells it.
pub open spec fn execution_rating_name(x: ExecutionRating) -> Seq<char> {
    match x {
        ExecutionRating::FlawlessExecution => "FlawlessExecution"@,
        ExecutionRating::CompetentExecution => "CompetentExecution"@,
        ExecutionRating::CompromisedExecution => "CompromisedExecution"@,
        ExecutionRating::FailedExecution => "FailedExecution"@,
    }
}

/// Rating tier of the execution dimension.
#[derive(Clone, Copy, Debug, PartialEq, Eq, Hash, Structural)]
pub enum ExecutionRating {
    /// Clean execution with a decisive gain (at least 7,500 bp).
    FlawlessExecution,
    /// Competent execution meeting primary objectives (5,000 to 7,499 bp).
    CompetentExecution,
    /// Degraded execution with substantial losses (2,500 to 4,999 bp).
    CompromisedExecution,
    /// Mechanical collapse or forced withdrawal (below 2,500 bp).
    FailedExecution,
}

/// Canonical label of an execution rating.
pub open spec fn execution_rating_label(x: ExecutionRating) -> Seq<char> {
    match x {
        ExecutionRating::FlawlessExecution => "flawless-execution"@,
        ExecutionRating::CompetentExecution => "competent-execution"@,
        ExecutionRating::CompromisedExecution => "compromised-execution"@,
        ExecutionRating::FailedExecution => "failed-execution"@,
    }
}

impl ExecutionRating {
    /// Return the canonical label.
    pub fn as_str(self) -> (r: &'static str)
        ensures
            r@ == execution_rating_label(self),
    {
        match self {
            Self::FlawlessExecution => "flawless-execution",
            Self::CompetentExecution => "competent-execution",
            Self::CompromisedExecution => "compromised-execution",
            Self::FailedExecution => "failed-execution",
        }
    }

    /// The tier of a score; a score above the scale is refused.
    pub fn from_basis_points(bp: u32) -> (r: Result<Self, TeamAttributionError>)
        ensures
            r == execution_rating_of(bp),
    {
        if bp > MAX_ATTRIBUTION_BP {
            return Err(TeamAttributionError::BasisPointOutOfRange { bp, max: MAX_ATTRIBUTION_BP });
        }
        if bp >= HIGH_RATING_THRESHOLD_BP {
            Ok(Self::FlawlessExecution)
        } else if bp >= MODERATE_RATING_THRESHOLD_BP {
            Ok(Self::CompetentExecution)
        } else if bp >= LOW_RATING_THRESHOLD_BP {
            Ok(Self::CompromisedExecution)
        } else {
            Ok(Self::FailedExecution)
        }
    }

    /// Variant name, as debugging output spells it.
    pub fn name(self) -> (r: &'static str)
        ensures
            r@ == execution_rating_name(self),
    {
        match self {
            Self::FlawlessExecution => "FlawlessExecution",
            Self::CompetentExecution => "CompetentExecution",
            Self::CompromisedExecution => "CompromisedExecution",
            Self::FailedExecution => "FailedExecution",
        }
    }
}

/// Variant name, as debugging output spells it.
pub open spec fn coordination_factor_name(x: CoordinationCausalFactor) -> Seq<char> {
    match x {
        CoordinationCausalFactor::UnanimousAlignment => "UnanimousAlignment"@,
        CoordinationCausalFactor::DirectiveCompliance => "DirectiveCompliance"@,
        CoordinationCausalFactor::PeerConsensusArbitrated => "PeerConsensusArbitrated"@,
        CoordinationCausalFactor::TrustDeficitDissent => "TrustDeficitDissent"@,
        CoordinationCausalFactor::ConflictingDirectives => "ConflictingDirectives"@,
        CoordinationCausalFactor::ChannelTransmissionLoss => "ChannelTransmissionLoss"@,
        CoordinationCausalFactor::ConditionUnmetDissent => "ConditionUnmetDissent"@,
        CoordinationCausalFactor::DivergentStrategicPriorities => "DivergentStrategicPriorities"@,
    }
}

/// Causal factors explaining coordination quality.
#[derive(Clone, Copy, Debug, PartialEq, Eq, Hash, Structural)]
pub enum CoordinationCausalFactor {
    /// All participants committed to the team plan.
    UnanimousAlignment,
    /// Teammates followed the shot-caller's directives.
    DirectiveCompliance,
    /// Peer proposals were resolved by consensus rules.
    PeerConsensusArbitrated,
    /// Dissent caused by a caller's reputation deficit.
    TrustDeficitDissent,
    /// Conflicting calls or proposals deadlocked the team.
    ConflictingDirectives,
    /// Messages were delayed or dropped in transit.
    ChannelTransmissionLoss,
    /// Legitimate dissent over an unmet tactical prerequisite.
    ConditionUnmetDissent,
    /// Actors pursued disjoint individual objectives.
    DivergentStrategicPriorities,
}

/// Canonical label of a coordination factor.
pub open spec fn coordination_factor_label(x: CoordinationCausalFactor) -> Seq<char> {
    match x {
        CoordinationCausalFactor::UnanimousAlignment => "unanimous-alignment"@,
        CoordinationCausalFactor::DirectiveCompliance => "directive-compliance"@,
        CoordinationCausalFactor::PeerConsensusArbitrated => "peer-consensus-arbitrated"@,
        CoordinationCausalFactor::TrustDeficitDissent => "trust-deficit-dissent"@,
        CoordinationCausalFactor::ConflictingDirectives => "conflicting-directives"@,
        CoordinationCausalFactor::ChannelTransmissionLoss => "channel-transmission-loss"@,
        CoordinationCausalFactor::ConditionUnmetDissent => "condition-unmet-dissent"@,
        CoordinationCausalFactor::DivergentStrategicPriorities => "divergent-strategic-priorities"@,
    }
}

impl CoordinationCausalFactor {
    /// Return the canonical label.
    pub fn as_str(self) -> (r: &'static str)
        ensures
            r@ == coordination_factor_label(self),
    {
        match self {
            Self::UnanimousAlignment => "unanimous-alignment",
            Self::DirectiveCompliance => "directive-compliance",
            Self::PeerConsensusArbitrated => "peer-consensus-arbitrated",
            Self::TrustDeficitDissent => "trust-deficit-dissent",
            Self::ConflictingDirectives => "conflicting-directives",
            Self::ChannelTransmissionLoss => "channel-transmission-loss",
            Self::ConditionUnmetDissent => "condition-unmet-dissent",
            Self::DivergentStrategicPriorities => "divergent-strategic-priorities",
        }
    }

    /// Whether this factor contributed positively to coordination.
    pub fn is_favorable(self) -> (r: bool)
        ensures
            r == coordination_factor_favorable(self),
    {
        match self {
            Self::UnanimousAlignment | Self::DirectiveCompliance | Self::PeerConsensusArbitrated => true,
            _ => false,
        }
    }

    /// Variant name, as debugging output spells it.
    pub fn name(self) -> (r: &'static str)
        ensures
            r@ == coordination_factor_name(self),
    {
        match self {
            Self::UnanimousAlignment => "UnanimousAlignment",
            Self::DirectiveCompliance => "DirectiveCompliance",
            Self::PeerConsensusArbitrated => "PeerConsensusArbitrated",
            Self::TrustDeficitDissent => "TrustDeficitDissent",
            Self::ConflictingDirectives => "ConflictingDirectives",
            Self::ChannelTransmissionLoss => "ChannelTransmissionLoss",
            Self::ConditionUnmetDissent => "ConditionUnmetDissent",
            Self::DivergentStrategicPriorities => "DivergentStrategicPriorities",
        }
    }
}

/// Variant name, as debugging output spells it.
pub open spec fn execution_factor_name(x: ExecutionCausalFactor) -> Seq<char> {
    match x {
        ExecutionCausalFactor::DecisiveDamageAdvantage => "DecisiveDamageAdvantage"@,
        ExecutionCausalFactor::ObjectiveSecured => "ObjectiveSecured"@,
        ExecutionCausalFactor::FavorablePositioning => "FavorablePositioning"@,
        ExecutionCausalFactor::OpponentMechanicalCounter => "OpponentMechanicalCounter"@,
        ExecutionCausalFactor::SevereHealthAttrition => "SevereHealthAttrition"@,
        ExecutionCausalFactor::ResourceDepletion => "ResourceDepletion"@,
        ExecutionCausalFactor::WavePressureDisadvantage => "WavePressureDisadvantage"@,
        ExecutionCausalFactor::UnfavorableStochasticRoll => "UnfavorableStochasticRoll"@,
    }
}

/// Causal factors explaining execution quality.
#[derive(Clone, Copy, Debug, PartialEq, Eq, Hash, Structural)]
pub enum ExecutionCausalFactor {
    /// Dominant combat exchange efficiency.
    DecisiveDamageAdvantage,
    /// Space or objective captured cleanly.
    ObjectiveSecured,
    /// Good positioning during the beat.
    FavorablePositioning,
    /// The adversary executed superior counterplay.
    OpponentMechanicalCounter,
    /// Attrition forced a defensive posture or retreat.
    SevereHealthAttrition,
    /// Mana or cooldowns limited effectiveness.
    ResourceDepletion,
    /// Wave pressure forced a space concession.
    WavePressureDisadvantage,
    /// Chance favored the adversary.
    UnfavorableStochasticRoll,
}

/// Canonical label of an execution factor.
pub open spec fn execution_factor_label(x: ExecutionCausalFactor) -> Seq<char> {
    match x {
        ExecutionCausalFactor::DecisiveDamageAdvantage => "decisive-damage-advantage"@,
        ExecutionCausalFactor::ObjectiveSecured => "objective-secured"@,
        ExecutionCausalFactor::FavorablePositioning => "favorable-positioning"@,
        ExecutionCausalFactor::OpponentMechanicalCounter => "opponent-mechanical-counter"@,
        ExecutionCausalFactor::SevereHealthAttrition => "severe-health-attrition"@,
        ExecutionCausalFactor::ResourceDepletion => "resource-depletion"@,
        ExecutionCausalFactor::WavePressureDisadvantage => "wave-pressure-disadvantage"@,
        ExecutionCausalFactor::UnfavorableStochasticRoll => "unfavorable-stochastic-roll"@,
    }
}

impl ExecutionCausalFactor {
    /// Return the canonical label.
    pub fn as_str(self) -> (r: &'static str)
        ensures
            r@ == execution_factor_label(self),
    {
        match self {
            Self::DecisiveDamageAdvantage => "decisive-damage-advantage",
            Self::ObjectiveSecured => "objective-secured",
            Self::FavorablePositioning => "favorable-positioning",
            Self::OpponentMechanicalCounter => "opponent-mechanical-counter",
            Self::SevereHealthAttrition => "severe-health-attrition",
            Self::ResourceDepletion => "resource-depletion",
            Self::WavePressureDisadvantage => "wave-pressure-disadvantage",
            Self::UnfavorableStochasticRoll => "unfavorable-stochastic-roll",
        }
    }

    /// Whether this factor contributed positively to execution.
    pub fn is_favorable(self) -> (r: bool)
        ensures
            r == execution_factor_favorable(self),
    {
        match self {
            Self::DecisiveDamageAdvantage | Self::ObjectiveSecured | Self::FavorablePositioning => true,
            _ => false,
        }
    }

    /// Variant name, as debugging output spells it.
    pub fn name(self) -> (r: &'static str)
        ensures
            r@ == execution_factor_name(self),
    {
        match self {
            Self::DecisiveDamageAdvantage => "DecisiveDamageAdvantage",
            Self::ObjectiveSecured => "ObjectiveSecured",
            Self::FavorablePositioning => "FavorablePositioning",
            Self::OpponentMechanicalCounter => "OpponentMechanicalCounter",
            Self::SevereHealthAttrition => "SevereHealthAttrition",
            Self::ResourceDepletion => "ResourceDepletion",
            Self::WavePressureDisadvantage => "WavePressureDisadvantage",
            Self::UnfavorableStochasticRoll => "UnfavorableStochasticRoll",
        }
    }
}

/// Assessment of the coordination dimension.
#[derive(Clone, Copy, Debug, PartialEq, Eq, Hash)]
pub struct CoordinationAssessment {
    pub coordination_outcome: TeamCoordinationOutcome,
    pub cohesion_bp: u32,
    pub rating: CoordinationRating,
    pub primary_factor: CoordinationCausalFactor,
    pub secondary_factors: [Option<CoordinationCausalFactor>; 2],
}

/// The coordination assessment built from its parts, or why it is refused.
pub open spec fn coordination_assessment_of(
    coordination_outcome: TeamCoordinationOutcome,
    cohesion_bp: u32,
    primary_factor: CoordinationCausalFactor,
    secondary_factors: [Option<CoordinationCausalFactor>; 2],
) -> Result<CoordinationAssessment, TeamAttributionError> {
    if cohesion_bp > MAX_COHESION_BP {
        Err(TeamAttributionError::BasisPointOutOfRange { bp: cohesion_bp, max: MAX_COHESION_BP })
    } else {
        match coordination_rating_of(cohesion_bp) {
            Err(e) => Err(e),
            Ok(rating) => Ok(
                CoordinationAssessment {
                    coordination_outcome,
                    cohesion_bp,
                    rating,
                    primary_factor,
                    secondary_factors,
                },
            ),
        }
    }
}

impl CoordinationAssessment {
    /// A coordination assessment rated by its cohesion; a cohesion above its
    /// scale is refused.
    pub fn new(
        coordination_outcome: TeamCoordinationOutcome,
        cohesion_bp: u32,
        primary_factor: CoordinationCausalFactor,
        secondary_factors: [Option<CoordinationCausalFactor>; 2],
    ) -> (r: Result<Self, TeamAttributionError>)
        ensures
            r == coordination_assessment_of(
                coordination_outcome,
                cohesion_bp,
                primary_factor,
                secondary_factors,
            ),
    {
        if cohesion_bp > MAX_COHESION_BP {
            return Err(TeamAttributionError::BasisPointOutOfRange {
                bp: cohesion_bp,
                max: MAX_COHESION_BP,
            });
        }
        let rating = CoordinationRating::from_basis_points(cohesion_bp)?;
        Ok(CoordinationAssessment {
            coordination_outcome,
            cohesion_bp,
            rating,
            primary_factor,
            secondary_factors,
        })
    }

    pub fn coordination_outcome(&self) -> (r: TeamCoordinationOutcome)
        ensures
            r == self.coordination_outcome,
    {
        self.coordination_outcome
    }

    pub fn cohesion_bp(&self) -> (r: u32)
        ensures
            r == self.cohesion_bp,
    {
        self.cohesion_bp
    }

    pub fn rating(&self) -> (r: CoordinationRating)
        ensures
            r == self.rating,
    {
        self.rating
    }

    pub fn primary_factor(&self) -> (r: CoordinationCausalFactor)
        ensures
            r == self.primary_factor,
    {
        self.primary_factor
    }

    pub fn secondary_factors(&self) -> (r: [Option<CoordinationCausalFactor>; 2])
        ensures
            r == self.secondary_factors,
    {
        self.secondary_factors
    }
}

/// Assessment of the execution dimension.
#[derive(Clone, Copy, Debug, PartialEq, Eq, Hash)]
pub struct ExecutionAssessment {
    pub lane_outcome: LaneOutcome,
    pub execution_score_bp: u32,
    pub rating: ExecutionRating,
    pub primary_factor: ExecutionCausalFactor,
    pub secondary_factors: [Option<ExecutionCausalFactor>; 2],
}

/// The execution assessment built from its parts, or why it is refused.
pub open spec fn execution_assessment_of(
    lane_outcome: LaneOutcome,
    execution_score_bp: u32,
    primary_factor: ExecutionCausalFactor,
    secondary_factors: [Option<ExecutionCausalFactor>; 2],
) -> Result<ExecutionAssessment, TeamAttributionError> {
    match execution_rating_of(execution_score_bp) {
        Err(e) => Err(e),
        Ok(rating) => Ok(
            ExecutionAssessment {
                lane_outcome,
                execution_score_bp,
                rating,
                primary_factor,
                secondary_factors,
            },
        ),
    }
}

impl ExecutionAssessment {
    /// An execution assessment rated by its score; a score above the scale is refused.
    pub fn new(
        lane_outcome: LaneOutcome,
        execution_score_bp: u32,
        primary_factor: ExecutionCausalFactor,
        secondary_factors: [Option<ExecutionCausalFactor>; 2],
    ) -> (r: Result<Self, TeamAttributionError>)
        ensures
            r == execution_assessment_of(
                lane_outcome,
                execution_score_bp,
                primary_factor,
                secondary_factors,
            ),
    {
        let rating = ExecutionRating::from_basis_points(execution_score_bp)?;
        Ok(ExecutionAssessment {
            lane_outcome,
            execution_score_bp,
            rating,
            primary_factor,
            secondary_factors,
        })
    }

    pub fn lane_outcome(&self) -> (r: LaneOutcome)
        ensures
            r == self.lane_outcome,
    {
        self.lane_outcome
    }

    pub fn execution_score_bp(&self) -> (r: u32)
        ensures
            r == self.execution_score_bp,
    {
        self.execution_score_bp
    }

    pub fn rating(&self) -> (r: ExecutionRating)
        ensures
            r == self.rating,
    {
        self.rating
    }

    pub fn primary_factor(&self) -> (r: ExecutionCausalFactor)
        ensures
            r == self.primary_factor,
    {
        self.primary_factor
    }

    pub fn secondary_factors(&self) -> (r: [Option<ExecutionCausalFactor>; 2])
        ensures
            r == self.secondary_factors,
    {
        self.secondary_factors
    }
}

/// Contributions to a result, in basis points of the whole.
#[derive(Clone, Copy, Debug, PartialEq, Eq, Hash, Structural)]
pub struct AttributionWeights {
    coordination_contribution_bp: u32,
    execution_contribution_bp: u32,
    exogenous_variance_bp: u32,
}

/// The content of contribution weights.
pub struct WeightsView {
    pub coordination_contribution_bp: u32,
    pub execution_contribution_bp: u32,
    pub exogenous_variance_bp: u32,
}

impl View for AttributionWeights {
    type V = WeightsView;

    closed spec fn view(&self) -> WeightsView {
        WeightsView {
            coordination_contribution_bp: self.coordination_contribution_bp,
            execution_contribution_bp: self.execution_contribution_bp,
            exogenous_variance_bp: self.exogenous_variance_bp,
        }
    }
}

/// Why contribution weights are refused, if they are: each must be within the
/// scale and together they must make up exactly the whole.
pub open spec fn weights_check(c: u32, e: u32, x: u32) -> Result<(), TeamAttributionError> {
    if c > MAX_ATTRIBUTION_BP {
        Err(TeamAttributionError::BasisPointOutOfRange { bp: c, max: MAX_ATTRIBUTION_BP })
    } else if e > MAX_ATTRIBUTION_BP {
        Err(TeamAttributionError::BasisPointOutOfRange { bp: e, max: MAX_ATTRIBUTION_BP })
    } else if x > MAX_ATTRIBUTION_BP {
        Err(TeamAttributionError::BasisPointOutOfRange { bp: x, max: MAX_ATTRIBUTION_BP })
    } else if c + e + x != MAX_ATTRIBUTION_BP {
        Err(
            TeamAttributionError::SumConservationViolation {
                coordination_bp: c,
                execution_bp: e,
                exogenous_bp: x,
                total_bp: (c + e + x) as u32,
            },
        )
    } else {
        Ok(())
    }
}

impl AttributionWeights {
    /// Weights always pass their check: each within the scale, together the whole.
    #[verifier::type_invariant]
    spec fn conserved(self) -> bool {
        weights_check(
            self.coordination_contribution_bp,
            self.execution_contribution_bp,
            self.exogenous_variance_bp,
        ) is Ok
    }

    /// Weights that make up exactly the whole scale.
    pub fn new(
        coordination_contribution_bp: u32,
        execution_contribution_bp: u32,
        exogenous_variance_bp: u32,
    ) -> (r: Result<Self, TeamAttributionError>)
        ensures
            match weights_check(coordination_contribution_bp, execution_contribution_bp, exogenous_variance_bp) {
                Err(e) => r == Err::<Self, TeamAttributionError>(e),
                Ok(_) => r is Ok && r->Ok_0@ == (WeightsView {
                    coordination_contribution_bp,
                    execution_contribution_bp,
                    exogenous_variance_bp,
                }),
            },
    {
        if coordination_contribution_bp > MAX_ATTRIBUTION_BP {
            return Err(TeamAttributionError::BasisPointOutOfRange {
                bp: coordination_contribution_bp,
                max: MAX_ATTRIBUTION_BP,
            });
        }
        if execution_contribution_bp > MAX_ATTRIBUTION_BP {
            return Err(TeamAttributionError::BasisPointOutOfRange {
                bp: execution_contribution_bp,
                max: MAX_ATTRIBUTION_BP,
            });
        }
        if exogenous_variance_bp > MAX_ATTRIBUTION_BP {
            return Err(TeamAttributionError::BasisPointOutOfRange {
                bp: exogenous_variance_bp,
                max: MAX_ATTRIBUTION_BP,
            });
        }
        let total = coordination_contribution_bp + execution_contribution_bp + exogenous_variance_bp;
        if total != MAX_ATTRIBUTION_BP {
            return Err(TeamAttributionError::SumConservationViolation {
                coordination_bp: coordination_contribution_bp,
                execution_bp: execution_contribution_bp,
                exogenous_bp: exogenous_variance_bp,
                total_bp: total,
            });
        }
        Ok(AttributionWeights {
            coordination_contribution_bp,
            execution_contribution_bp,
            exogenous_variance_bp,
        })
    }

    pub fn coordination_contribution_bp(self) -> (r: u32)
        ensures
            r == self@.coordination_contribution_bp,
            self@.coordination_contribution_bp + self@.execution_contribution_bp
                + self@.exogenous_variance_bp == MAX_ATTRIBUTION_BP,
    {
        proof {
            use_type_invariant(&self);
        }
        self.coordination_contribution_bp
    }

    pub fn execution_contribution_bp(self) -> (r: u32)
        ensures
            r == self@.execution_contribution_bp,
            self@.coordination_contribution_bp + self@.execution_contribution_bp
                + self@.exogenous_variance_bp == MAX_ATTRIBUTION_BP,
    {
        proof {
            use_type_invariant(&self);
        }
        self.execution_contribution_bp
    }

    pub fn exogenous_variance_bp(self) -> (r: u32)
        ensures
            r == self@.exogenous_variance_bp,
            self@.coordination_contribution_bp + self@.execution_contribution_bp
                + self@.exogenous_variance_bp == MAX_ATTRIBUTION_BP,
    {
        proof {
            use_type_invariant(&self);
        }
        self.exogenous_variance_bp
    }
}

/// Weights that pass their check make up exactly the whole scale.
pub proof fn lemma_weights_conserve(c: u32, e: u32, x: u32)
    ensures
        weights_check(c, e, x) is Ok <==> c + e + x == MAX_ATTRIBUTION_BP,
{
}

/// An attribution: the quadrant of the two assessments, the assessments, the
/// contribution weights and notes.
#[derive(Clone, Copy, Debug, PartialEq, Eq, Hash)]
pub struct CoordinationExecutionAttribution {
    pub quadrant: AttributionQuadrant,
    pub coordination_assessment: CoordinationAssessment,
    pub execution_assessment: ExecutionAssessment,
    pub weights: AttributionWeights,
    pub summary_notes: &'static str,
}

/// The attribution of two assessments, or why there is none.
pub open spec fn attribution_of(
    coordination_assessment: CoordinationAssessment,
    execution_assessment: ExecutionAssessment,
    weights: AttributionWeights,
    summary_notes: &'static str,
) -> Result<CoordinationExecutionAttribution, TeamAttributionError> {
    match classify_spec(coordination_assessment.cohesion_bp, execution_assessment.execution_score_bp) {
        Err(e) => Err(e),
        Ok(quadrant) => Ok(
            CoordinationExecutionAttribution {
                quadrant,
                coordination_assessment,
                execution_assessment,
                weights,
                summary_notes,
            },
        ),
    }
}

impl CoordinationExecutionAttribution {
    /// Classify two assessments into their quadrant.
    pub fn new(
        coordination_assessment: CoordinationAssessment,
        execution_assessment: ExecutionAssessment,
        weights: AttributionWeights,
        summary_notes: &'static str,
    ) -> (r: Result<Self, TeamAttributionError>)
        ensures
            r == attribution_of(coordination_assessment, execution_assessment, weights, summary_notes),
    {
        let quadrant = AttributionQuadrant::classify(
            coordination_assessment.cohesion_bp,
            execution_assessment.execution_score_bp,
        )?;
        Ok(CoordinationExecutionAttribution {
            quadrant,
            coordination_assessment,
            execution_assessment,
            weights,
            summary_notes,
        })
    }

    pub fn quadrant(&self) -> (r: AttributionQuadrant)
        ensures
            r == self.quadrant,
    {
        self.quadrant
    }

    pub fn coordination_assessment(&self) -> (r: &CoordinationAssessment)
        ensures
            *r == self.coordination_assessment,
    {
        &self.coordination_assessment
    }

    pub fn execution_assessment(&self) -> (r: &ExecutionAssessment)
        ensures
            *r == self.execution_assessment,
    {
        &self.execution_assessment
    }

    pub fn weights(&self) -> (r: AttributionWeights)
        ensures
            r == self.weights,
    {
        self.weights
    }

    pub fn summary_notes(&self) -> (r: &'static str)
        ensures
            r == self.summary_notes,
    {
        self.summary_notes
    }
}

/// A debrief report of an attribution, free of chain-of-thought.
#[derive(Clone, Copy, Debug, PartialEq, Eq, Hash)]
pub struct CoordinationExecutionAttributionReport {
    pub schema: &'static str,
    pub turn: u32,
    pub observation_id: u64,
    pub attribution: CoordinationExecutionAttribution,
    pub chain_of_thought_free: bool,
}

/// The report of an attribution, or why it is refused.
pub open spec fn attribution_report_of(
    turn: u32,
    observation_id: u64,
    attribution: CoordinationExecutionAttribution,
    chain_of_thought_present: bool,
) -> Result<CoordinationExecutionAttributionReport, TeamAttributionError> {
    if chain_of_thought_present {
        Err(TeamAttributionError::ChainOfThoughtForbidden)
    } else {
        Ok(
            CoordinationExecutionAttributionReport {
                schema: ATTRIBUTION_REPORT_SCHEMA,
                turn,
                observation_id,
                attribution,
                chain_of_thought_free: true,
            },
        )
    }
}

/// The secondary factor lines of a coordination assessment.
pub open spec fn coordination_secondary_lines(f: [Option<CoordinationCausalFactor>; 2]) -> Seq<char> {
    (match f[0] {
        Some(x) => "- **Secondary Factor 1:** `"@ + coordination_factor_label(x) + "`\n"@,
        None => Seq::empty(),
    }) + (match f[1] {
        Some(x) => "- **Secondary Factor 2:** `"@ + coordination_factor_label(x) + "`\n"@,
        None => Seq::empty(),
    })
}

/// The secondary factor lines of an execution assessment.
pub open spec fn execution_secondary_lines(f: [Option<ExecutionCausalFactor>; 2]) -> Seq<char> {
    (match f[0] {
        Some(x) => "- **Secondary Factor 1:** `"@ + execution_factor_label(x) + "`\n"@,
        None => Seq::empty(),
    }) + (match f[1] {
        Some(x) => "- **Secondary Factor 2:** `"@ + execution_factor_label(x) + "`\n"@,
        None => Seq::empty(),
    })
}

/// The coordination section of an attribution debrief.
pub open spec fn coordination_section(c: CoordinationAssessment) -> Seq<char> {
    "## 1. Coordination Assessment\n\n- **Outcome:** `"@ + coordination_outcome_name(c.coordination_outcome)
        + "`\n- **Cohesion Score:** "@ + decimal(c.cohesion_bp as nat) + " bp (Rating: `"@
        + coordination_rating_label(c.rating) + "`)\n- **Primary Causal Factor:** `"@
        + coordination_factor_label(c.primary_factor) + "` (Favorable: "@ + bool_text(
        coordination_factor_favorable(c.primary_factor),
    ) + ")\n"@ + coordination_secondary_lines(c.secondary_factors)
}

/// The execution section of an attribution debrief.
pub open spec fn execution_section(x: ExecutionAssessment) -> Seq<char> {
    "\n## 2. Mechanical Execution Assessment\n\n- **Lane Outcome:** `"@ + outcome_name(x.lane_outcome)
        + "`\n- **Execution Efficiency:** "@ + decimal(x.execution_score_bp as nat) + " bp (Rating: `"@
        + execution_rating_label(x.rating) + "`)\n- **Primary Causal Factor:** `"@
        + execution_factor_label(x.primary_factor) + "` (Favorable: "@ + bool_text(
        execution_factor_favorable(x.primary_factor),
    ) + ")\n"@ + execution_secondary_lines(x.secondary_factors)
}

/// The Markdown debrief of an attribution report.
pub open spec fn attribution_markdown(r: CoordinationExecutionAttributionReport) -> Seq<char> {
    let a = r.attribution;
    "# Strategic Attribution Debrief Report\n\n- **Schema:** `"@ + r.schema@ + "`\n- **Turn:** "@
        + decimal(r.turn as nat) + "\n- **Observation ID:** "@ + decimal(r.observation_id as nat)
        + "\n- **Attribution Quadrant:** `"@ + quadrant_label(a.quadrant) + "` ("@ + quadrant_description(
        a.quadrant,
    ) + ")\n\n"@ + coordination_section(a.coordination_assessment) + execution_section(
        a.execution_assessment,
    ) + "\n## 3. Causal Impact Distribution\n\n- **Coordination Contribution:** "@ + decimal(
        a.weights@.coordination_contribution_bp as nat,
    ) + " bp\n- **Execution Contribution:** "@ + decimal(a.weights@.execution_contribution_bp as nat)
        + " bp\n- **Exogenous / Luck Variance:** "@ + decimal(a.weights@.exogenous_variance_bp as nat)
        + " bp\n- **Notes:** "@ + a.summary_notes@
        + "\n\n> [!NOTE]\n> Coordination and execution are decoupled to prevent outcome bias in team evaluation.\n"@
}

/// Append the secondary factor lines of a coordination assessment.
fn push_coordination_secondary(out: &mut String, f: [Option<CoordinationCausalFactor>; 2])
    ensures
        final(out)@ == old(out)@ + coordination_secondary_lines(f),
{
    let ghost start = out@;
    match f[0] {
        Some(x) => {
            push_str(out, "- **Secondary Factor 1:** `");
            push_str(out, x.as_str());
            push_str(out, "`\n");
        },
        None => {},
    }
    let ghost mid = out@;
    match f[1] {
        Some(x) => {
            push_str(out, "- **Secondary Factor 2:** `");
            push_str(out, x.as_str());
            push_str(out, "`\n");
        },
        None => {},
    }
    proof {
        assert(out@ =~= start + (mid.subrange(start.len() as int, mid.len() as int)) + out@.subrange(mid.len() as int, out@.len() as int));
    }
}

/// Append the secondary factor lines of an execution assessment.
fn push_execution_secondary(out: &mut String, f: [Option<ExecutionCausalFactor>; 2])
    ensures
        final(out)@ == old(out)@ + execution_secondary_lines(f),
{
    let ghost start = out@;
    match f[0] {
        Some(x) => {
            push_str(out, "- **Secondary Factor 1:** `");
            push_str(out, x.as_str());
            push_str(out, "`\n");
        },
        None => {},
    }
    let ghost mid = out@;
    match f[1] {
        Some(x) => {
            push_str(out, "- **Secondary Factor 2:** `");
            push_str(out, x.as_str());
            push_str(out, "`\n");
        },
        None => {},
    }
    proof {
        assert(out@ =~= start + (mid.subrange(start.len() as int, mid.len() as int)) + out@.subrange(mid.len() as int, out@.len() as int));
    }
}

/// Append the coordination section of a debrief.
fn push_coordination_section(out: &mut String, c: CoordinationAssessment)
    ensures
        final(out)@ == old(out)@ + coordination_section(c),
{
    push_str(out, "## 1. Coordination Assessment\n\n- **Outcome:** `");
    push_str(out, c.coordination_outcome.name());
    push_str(out, "`\n- **Cohesion Score:** ");
    push_decimal(out, c.cohesion_bp as u64);
    push_str(out, " bp (Rating: `");
    push_str(out, c.rating.as_str());
    push_str(out, "`)\n- **Primary Causal Factor:** `");
    push_str(out, c.primary_factor.as_str());
    push_str(out, "` (Favorable: ");
    push_bool(out, c.primary_factor.is_favorable());
    push_str(out, ")\n");
    push_coordination_secondary(out, c.secondary_factors);
}

/// Append the execution section of a debrief.
fn push_execution_section(out: &mut String, x: ExecutionAssessment)
    ensures
        final(out)@ == old(out)@ + execution_section(x),
{
    push_str(out, "\n## 2. Mechanical Execution Assessment\n\n- **Lane Outcome:** `");
    push_str(out, x.lane_outcome.name());
    push_str(out, "`\n- **Execution Efficiency:** ");
    push_decimal(out, x.execution_score_bp as u64);
    push_str(out, " bp (Rating: `");
    push_str(out, x.rating.as_str());
    push_str(out, "`)\n- **Primary Causal Factor:** `");
    push_str(out, x.primary_factor.as_str());
    push_str(out, "` (Favorable: ");
    push_bool(out, x.primary_factor.is_favorable());
    push_str(out, ")\n");
    push_execution_secondary(out, x.secondary_factors);
}

impl CoordinationExecutionAttributionReport {
    /// The report of an attribution; one carrying chain-of-thought is refused.
    pub fn new(
        turn: u32,
        observation_id: u64,
        attribution: CoordinationExecutionAttribution,
        chain_of_thought_present: bool,
    ) -> (r: Result<Self, TeamAttributionError>)
        ensures
            r == attribution_report_of(turn, observation_id, attribution, chain_of_thought_present),
    {
        if chain_of_thought_present {
            return Err(TeamAttributionError::ChainOfThoughtForbidden);
        }
        Ok(CoordinationExecutionAttributionReport {
            schema: ATTRIBUTION_REPORT_SCHEMA,
            turn,
            observation_id,
            attribution,
            chain_of_thought_free: true,
        })
    }

    pub fn schema(&self) -> (r: &'static str)
        ensures
            r == self.schema,
    {
        self.schema
    }

    pub fn turn(&self) -> (r: u32)
        ensures
            r == self.turn,
    {
        self.turn
    }

    pub fn observation_id(&self) -> (r: u64)
        ensures
            r == self.observation_id,
    {
        self.observation_id
    }

    pub fn attribution(&self) -> (r: &CoordinationExecutionAttribution)
        ensures
            *r == self.attribution,
    {
        &self.attribution
    }

    /// The Markdown debrief of this report.
    pub fn to_markdown(&self) -> (r: String)
        ensures
            r@ == attribution_markdown(*self),
    {
        let a = self.attribution;
        let mut out = String::new();
        push_str(&mut out, "# Strategic Attribution Debrief Report\n\n- **Schema:** `");
        push_str(&mut out, self.schema);
        push_str(&mut out, "`\n- **Turn:** ");
        push_decimal(&mut out, self.turn as u64);
        push_str(&mut out, "\n- **Observation ID:** ");
        push_decimal(&mut out, self.observation_id);
        push_str(&mut out, "\n- **Attribution Quadrant:** `");
        push_str(&mut out, a.quadrant.as_str());
        push_str(&mut out, "` (");
        push_str(&mut out, a.quadrant.description());
        push_str(&mut out, ")\n\n");
        push_coordination_section(&mut out, a.coordination_assessment);
        push_execution_section(&mut out, a.execution_assessment);
        push_str(&mut out, "\n## 3. Causal Impact Distribution\n\n- **Coordination Contribution:** ");
        push_decimal(&mut out, a.weights.coordination_contribution_bp() as u64);
        push_str(&mut out, " bp\n- **Execution Contribution:** ");
        push_decimal(&mut out, a.weights.execution_contribution_bp() as u64);
        push_str(&mut out, " bp\n- **Exogenous / Luck Variance:** ");
        push_decimal(&mut out, a.weights.exogenous_variance_bp() as u64);
        push_str(&mut out, " bp\n- **Notes:** ");
        push_str(&mut out, a.summary_notes);
        push_str(
            &mut out,
            "\n\n> [!NOTE]\n> Coordination and execution are decoupled to prevent outcome bias in team evaluation.\n",
        );
        out
    }
}

/// What an attribution is evaluated from, besides the resolved turn.
#[derive(Clone, Copy, Debug, PartialEq, Eq, Hash)]
pub struct AttributionEvaluationInput {
    pub lane_outcome: LaneOutcome,
    pub execution_score_bp: u32,
    pub primary_coord_factor: CoordinationCausalFactor,
    pub secondary_coord_factors: [Option<CoordinationCausalFactor>; 2],
    pub primary_exec_factor: ExecutionCausalFactor,
    pub secondary_exec_factors: [Option<ExecutionCausalFactor>; 2],
    pub weights: AttributionWeights,
    pub summary_notes: &'static str,
    pub chain_of_thought_present: bool,
}

/// The attribution report of a resolved turn and an input, or why there is none.
pub open spec fn evaluation_of(
    resolution: TeamSimultaneousResolution,
    input: AttributionEvaluationInput,
) -> Result<CoordinationExecutionAttributionReport, TeamAttributionError> {
    if input.chain_of_thought_present {
        Err(TeamAttributionError::ChainOfThoughtForbidden)
    } else {
        match coordination_assessment_of(
            resolution.coordination_outcome,
            resolution.team_cohesion_bp,
            input.primary_coord_factor,
            input.secondary_coord_factors,
        ) {
            Err(e) => Err(e),
            Ok(c) => match execution_assessment_of(
                input.lane_outcome,
                input.execution_score_bp,
                input.primary_exec_factor,
                input.secondary_exec_factors,
            ) {
                Err(e) => Err(e),
                Ok(x) => match attribution_of(c, x, input.weights, input.summary_notes) {
                    Err(e) => Err(e),
                    Ok(a) => attribution_report_of(resolution.turn, resolution.observation_id, a, false),
                },
            },
        }
    }
}

/// Evaluates resolved turns into attribution reports.
pub struct TeamAttributionEvaluator;

impl TeamAttributionEvaluator {
    /// The attribution report of a resolved turn.
    pub fn evaluate(
        simultaneous_resolution: &TeamSimultaneousResolution,
        input: AttributionEvaluationInput,
    ) -> (r: Result<CoordinationExecutionAttributionReport, TeamAttributionError>)
        ensures
            r == evaluation_of(*simultaneous_resolution, input),
    {
        if input.chain_of_thought_present {
            return Err(TeamAttributionError::ChainOfThoughtForbidden);
        }
        let coord_assessment = CoordinationAssessment::new(
            simultaneous_resolution.coordination_outcome(),
            simultaneous_resolution.team_cohesion_bp(),
            input.primary_coord_factor,
            input.secondary_coord_factors,
        )?;
        let exec_assessment = ExecutionAssessment::new(
            input.lane_outcome,
            input.execution_score_bp,
            input.primary_exec_factor,
            input.secondary_exec_factors,
        )?;
        let attribution = CoordinationExecutionAttribution::new(
            coord_assessment,
            exec_assessment,
            input.weights,
            input.summary_notes,
        )?;
        CoordinationExecutionAttributionReport::new(
            simultaneous_resolution.turn(),
            simultaneous_resolution.observation_id(),
            attribution,
            false,
        )
    }
}

/// A reference scenario for attribution.
#[derive(Clone, Copy, Debug, PartialEq, Eq, Hash)]
pub struct AttributionScenario {
    pub name: &'static str,
    pub description: &'static str,
    pub coordination_outcome: TeamCoordinationOutcome,
    pub cohesion_bp: u32,
    pub primary_coord_factor: CoordinationCausalFactor,
    pub lane_outcome: LaneOutcome,
    pub execution_score_bp: u32,
    pub primary_exec_factor: ExecutionCausalFactor,
    pub expected_quadrant: AttributionQuadrant,
    pub expected_coordination_rating: CoordinationRating,
    pub expected_execution_rating: ExecutionRating,
    pub coordination_contribution_bp: u32,
    pub execution_contribution_bp: u32,
    pub exogenous_variance_bp: u32,
    pub summary_notes: &'static str,
}

/// Why a scenario is inconsistent, if it is: a named scenario whose scores are
/// in range, classify and rate as it expects, and whose weights make up the whole.
pub open spec fn scenario_check(s: AttributionScenario) -> Result<(), TeamAttributionError> {
    if s.name@.len() == 0 {
        Err(TeamAttributionError::InvalidScenarioName)
    } else if s.cohesion_bp > MAX_COHESION_BP {
        Err(TeamAttributionError::BasisPointOutOfRange { bp: s.cohesion_bp, max: MAX_COHESION_BP })
    } else if s.execution_score_bp > MAX_ATTRIBUTION_BP {
        Err(TeamAttributionError::BasisPointOutOfRange { bp: s.execution_score_bp, max: MAX_ATTRIBUTION_BP })
    } else {
        match classify_spec(s.cohesion_bp, s.execution_score_bp) {
            Err(e) => Err(e),
            Ok(q) => if q != s.expected_quadrant {
                Err(TeamAttributionError::BasisPointOutOfRange { bp: s.cohesion_bp, max: MAX_ATTRIBUTION_BP })
            } else {
                match coordination_rating_of(s.cohesion_bp) {
                    Err(e) => Err(e),
                    Ok(c) => if c != s.expected_coordination_rating {
                        Err(TeamAttributionError::BasisPointOutOfRange { bp: s.cohesion_bp, max: MAX_ATTRIBUTION_BP })
                    } else {
                        match execution_rating_of(s.execution_score_bp) {
                            Err(e) => Err(e),
                            Ok(x) => if x != s.expected_execution_rating {
                                Err(
                                    TeamAttributionError::BasisPointOutOfRange {
                                        bp: s.execution_score_bp,
                                        max: MAX_ATTRIBUTION_BP,
                                    },
                                )
                            } else {
                                weights_check(
                                    s.coordination_contribution_bp,
                                    s.execution_contribution_bp,
                                    s.exogenous_variance_bp,
                                )
                            },
                        }
                    },
                }
            },
        }
    }
}

impl AttributionScenario {
    /// Check the scenario's internal consistency.
    pub fn validate(&self) -> (r: Result<(), TeamAttributionError>)
        ensures
            r == scenario_check(*self),
    {
        if self.name.unicode_len() == 0 {
            return Err(TeamAttributionError::InvalidScenarioName);
        }
        if self.cohesion_bp > MAX_COHESION_BP {
            return Err(TeamAttributionError::BasisPointOutOfRange {
                bp: self.cohesion_bp,
                max: MAX_COHESION_BP,
            });
        }
        if self.execution_score_bp > MAX_ATTRIBUTION_BP {
            return Err(TeamAttributionError::BasisPointOutOfRange {
                bp: self.execution_score_bp,
                max: MAX_ATTRIBUTION_BP,
            });
        }
        let quad = AttributionQuadrant::classify(self.cohesion_bp, self.execution_score_bp)?;
        if quad != self.expected_quadrant {
            return Err(TeamAttributionError::BasisPointOutOfRange {
                bp: self.cohesion_bp,
                max: MAX_ATTRIBUTION_BP,
            });
        }
        let coord_rat = CoordinationRating::from_basis_points(self.cohesion_bp)?;
        if coord_rat != self.expected_coordination_rating {
            return Err(TeamAttributionError::BasisPointOutOfRange {
                bp: self.cohesion_bp,
                max: MAX_ATTRIBUTION_BP,
            });
        }
        let exec_rat = ExecutionRating::from_basis_points(self.execution_score_bp)?;
        if exec_rat != self.expected_execution_rating {
            return Err(TeamAttributionError::BasisPointOutOfRange {
                bp: self.execution_score_bp,
                max: MAX_ATTRIBUTION_BP,
            });
        }
        match AttributionWeights::new(
            self.coordination_contribution_bp,
            self.execution_contribution_bp,
            self.exogenous_variance_bp,
        ) {
            Ok(_) => Ok(()),
            Err(e) => Err(e),
        }
    }
}

/// Reference scenario `k` of the attribution catalog.
pub open spec fn catalog_scenario(k: int) -> AttributionScenario {
    if k == 0 {
        AttributionScenario {
            name: "attr-coordinated-triumph-gank-v1",
            description: "High-trust gank directive executed cleanly with decisive damage advantage",
            coordination_outcome: TeamCoordinationOutcome::FullyCoordinated,
            cohesion_bp: 8750,
            primary_coord_factor: CoordinationCausalFactor::DirectiveCompliance,
            lane_outcome: LaneOutcome::HeldSpace,
            execution_score_bp: 8500,
            primary_exec_factor: ExecutionCausalFactor::DecisiveDamageAdvantage,
            expected_quadrant: AttributionQuadrant::CoordinatedTriumph,
            expected_coordination_rating: CoordinationRating::HighCoordination,
            expected_execution_rating: ExecutionRating::FlawlessExecution,
            coordination_contribution_bp: 5500,
            execution_contribution_bp: 3500,
            exogenous_variance_bp: 1000,
            summary_notes: "Gank directive followed with full alignment and decisive execution",
        }
    } else if k == 1 {
        AttributionScenario {
            name: "attr-coordinated-failure-overreach-v1",
            description: "Sound team consensus to contest, but enemy mechanical outplay reverses the trade",
            coordination_outcome: TeamCoordinationOutcome::FullyCoordinated,
            cohesion_bp: 8000,
            primary_coord_factor: CoordinationCausalFactor::UnanimousAlignment,
            lane_outcome: LaneOutcome::ForcedOut,
            execution_score_bp: 2000,
            primary_exec_factor: ExecutionCausalFactor::OpponentMechanicalCounter,
            expected_quadrant: AttributionQuadrant::CoordinatedFailure,
            expected_coordination_rating: CoordinationRating::HighCoordination,
            expected_execution_rating: ExecutionRating::FailedExecution,
            coordination_contribution_bp: 4000,
            execution_contribution_bp: 5000,
            exogenous_variance_bp: 1000,
            summary_notes: "Unanimous contest agreement defeated by opponent tactical counterplay",
        }
    } else if k == 2 {
        AttributionScenario {
            name: "attr-uncoordinated-bailout-clutch-v1",
            description: "Communication breakdown and dissent saved by an extraordinary solo mechanical duel",
            coordination_outcome: TeamCoordinationOutcome::CommunicationFailure,
            cohesion_bp: 1500,
            primary_coord_factor: CoordinationCausalFactor::ChannelTransmissionLoss,
            lane_outcome: LaneOutcome::HeldSpace,
            execution_score_bp: 8200,
            primary_exec_factor: ExecutionCausalFactor::DecisiveDamageAdvantage,
            expected_quadrant: AttributionQuadrant::UncoordinatedBailout,
            expected_coordination_rating: CoordinationRating::FailedCoordination,
            expected_execution_rating: ExecutionRating::FlawlessExecution,
            coordination_contribution_bp: 2000,
            execution_contribution_bp: 7500,
            exogenous_variance_bp: 500,
            summary_notes: "Channel loss caused plan failure but solo laner clutch secured the lane",
        }
    } else if k == 3 {
        AttributionScenario {
            name: "attr-compounded-failure-deadlock-v1",
            description: "Conflicting directives deadlocked team action, resulting in severe attrition and wipe",
            coordination_outcome: TeamCoordinationOutcome::ConflictingDirectives,
            cohesion_bp: 1200,
            primary_coord_factor: CoordinationCausalFactor::ConflictingDirectives,
            lane_outcome: LaneOutcome::ForcedOut,
            execution_score_bp: 1000,
            primary_exec_factor: ExecutionCausalFactor::SevereHealthAttrition,
            expected_quadrant: AttributionQuadrant::CompoundedFailure,
            expected_coordination_rating: CoordinationRating::FailedCoordination,
            expected_execution_rating: ExecutionRating::FailedExecution,
            coordination_contribution_bp: 6000,
            execution_contribution_bp: 3500,
            exogenous_variance_bp: 500,
            summary_notes: "Directive deadlock split the team, precipitating total mechanical collapse",
        }
    } else if k == 4 {
        AttributionScenario {
            name: "attr-legitimate-dissent-avoided-wipe-v1",
            description: "Low-health laner legitimately dissents from reckless dive, preserving resources and tower",
            coordination_outcome: TeamCoordinationOutcome::PartiallyCoordinated,
            cohesion_bp: 4500,
            primary_coord_factor: CoordinationCausalFactor::ConditionUnmetDissent,
            lane_outcome: LaneOutcome::YieldedSpace,
            execution_score_bp: 6000,
            primary_exec_factor: ExecutionCausalFactor::FavorablePositioning,
            expected_quadrant: AttributionQuadrant::UncoordinatedBailout,
            expected_coordination_rating: CoordinationRating::LowCoordination,
            expected_execution_rating: ExecutionRating::CompetentExecution,
            coordination_contribution_bp: 3000,
            execution_contribution_bp: 6000,
            exogenous_variance_bp: 1000,
            summary_notes: "Condition dissent prevented overextension, allowing stable defensive yield",
        }
    } else {
        AttributionScenario {
            name: "attr-trust-breakdown-execution-miss-v1",
            description: "Low-reputation caller ignored, resulting in disjointed positioning and wave concession",
            coordination_outcome: TeamCoordinationOutcome::DivergentIntents,
            cohesion_bp: 2000,
            primary_coord_factor: CoordinationCausalFactor::TrustDeficitDissent,
            lane_outcome: LaneOutcome::YieldedSpace,
            execution_score_bp: 3500,
            primary_exec_factor: ExecutionCausalFactor::WavePressureDisadvantage,
            expected_quadrant: AttributionQuadrant::CompoundedFailure,
            expected_coordination_rating: CoordinationRating::FailedCoordination,
            expected_execution_rating: ExecutionRating::CompromisedExecution,
            coordination_contribution_bp: 5000,
            execution_contribution_bp: 4000,
            exogenous_variance_bp: 1000,
            summary_notes: "Trust deficit caused fragmented response and concession of wave pressure",
        }
    }
}

/// The index of the catalog scenario with a name, if any.
pub open spec fn catalog_scenario_index(name: Seq<char>) -> Option<int> {
    if name == "attr-coordinated-triumph-gank-v1"@ {
        Some(0)
    } else if name == "attr-coordinated-failure-overreach-v1"@ {
        Some(1)
    } else if name == "attr-uncoordinated-bailout-clutch-v1"@ {
        Some(2)
    } else if name == "attr-compounded-failure-deadlock-v1"@ {
        Some(3)
    } else if name == "attr-legitimate-dissent-avoided-wipe-v1"@ {
        Some(4)
    } else if name == "attr-trust-breakdown-execution-miss-v1"@ {
        Some(5)
    } else {
        None
    }
}

/// Registered reference scenarios for attribution.
pub struct CoordinationAttributionCatalog;

impl CoordinationAttributionCatalog {
    /// Reference scenario `k`.
    fn scenario(k: usize) -> (r: AttributionScenario)
        requires
            k < 6,
        ensures
            r == catalog_scenario(k as int),
    {
        if k == 0 {
            AttributionScenario {
                name: "attr-coordinated-triumph-gank-v1",
                description: "High-trust gank directive executed cleanly with decisive damage advantage",
                coordination_outcome: TeamCoordinationOutcome::FullyCoordinated,
                cohesion_bp: 8750,
                primary_coord_factor: CoordinationCausalFactor::DirectiveCompliance,
                lane_outcome: LaneOutcome::HeldSpace,
                execution_score_bp: 8500,
                primary_exec_factor: ExecutionCausalFactor::DecisiveDamageAdvantage,
                expected_quadrant: AttributionQuadrant::CoordinatedTriumph,
                expected_coordination_rating: CoordinationRating::HighCoordination,
                expected_execution_rating: ExecutionRating::FlawlessExecution,
                coordination_contribution_bp: 5500,
                execution_contribution_bp: 3500,
                exogenous_variance_bp: 1000,
                summary_notes: "Gank directive followed with full alignment and decisive execution",
            }
        } else if k == 1 {
            AttributionScenario {
                name: "attr-coordinated-failure-overreach-v1",
                description: "Sound team consensus to contest, but enemy mechanical outplay reverses the trade",
                coordination_outcome: TeamCoordinationOutcome::FullyCoordinated,
                cohesion_bp: 8000,
                primary_coord_factor: CoordinationCausalFactor::UnanimousAlignment,
                lane_outcome: LaneOutcome::ForcedOut,
                execution_score_bp: 2000,
                primary_exec_factor: ExecutionCausalFactor::OpponentMechanicalCounter,
                expected_quadrant: AttributionQuadrant::CoordinatedFailure,
                expected_coordination_rating: CoordinationRating::HighCoordination,
                expected_execution_rating: ExecutionRating::FailedExecution,
                coordination_contribution_bp: 4000,
                execution_contribution_bp: 5000,
                exogenous_variance_bp: 1000,
                summary_notes: "Unanimous contest agreement defeated by opponent tactical counterplay",
            }
        } else if k == 2 {
            AttributionScenario {
                name: "attr-uncoordinated-bailout-clutch-v1",
                description: "Communication breakdown and dissent saved by an extraordinary solo mechanical duel",
                coordination_outcome: TeamCoordinationOutcome::CommunicationFailure,
                cohesion_bp: 1500,
                primary_coord_factor: CoordinationCausalFactor::ChannelTransmissionLoss,
                lane_outcome: LaneOutcome::HeldSpace,
                execution_score_bp: 8200,
                primary_exec_factor: ExecutionCausalFactor::DecisiveDamageAdvantage,
                expected_quadrant: AttributionQuadrant::UncoordinatedBailout,
                expected_coordination_rating: CoordinationRating::FailedCoordination,
                expected_execution_rating: ExecutionRating::FlawlessExecution,
                coordination_contribution_bp: 2000,
                execution_contribution_bp: 7500,
                exogenous_variance_bp: 500,
                summary_notes: "Channel loss caused plan failure but solo laner clutch secured the lane",
            }
        } else if k == 3 {
            AttributionScenario {
                name: "attr-compounded-failure-deadlock-v1",
                description: "Conflicting directives deadlocked team action, resulting in severe attrition and wipe",
                coordination_outcome: TeamCoordinationOutcome::ConflictingDirectives,
                cohesion_bp: 1200,
                primary_coord_factor: CoordinationCausalFactor::ConflictingDirectives,
                lane_outcome: LaneOutcome::ForcedOut,
                execution_score_bp: 1000,
                primary_exec_factor: ExecutionCausalFactor::SevereHealthAttrition,
                expected_quadrant: AttributionQuadrant::CompoundedFailure,
                expected_coordination_rating: CoordinationRating::FailedCoordination,
                expected_execution_rating: ExecutionRating::FailedExecution,
                coordination_contribution_bp: 6000,
                execution_contribution_bp: 3500,
                exogenous_variance_bp: 500,
                summary_notes: "Directive deadlock split the team, precipitating total mechanical collapse",
            }
        } else if k == 4 {
            AttributionScenario {
                name: "attr-legitimate-dissent-avoided-wipe-v1",
                description: "Low-health laner legitimately dissents from reckless dive, preserving resources and tower",
                coordination_outcome: TeamCoordinationOutcome::PartiallyCoordinated,
                cohesion_bp: 4500,
                primary_coord_factor: CoordinationCausalFactor::ConditionUnmetDissent,
                lane_outcome: LaneOutcome::YieldedSpace,
                execution_score_bp: 6000,
                primary_exec_factor: ExecutionCausalFactor::FavorablePositioning,
                expected_quadrant: AttributionQuadrant::UncoordinatedBailout,
                expected_coordination_rating: CoordinationRating::LowCoordination,
                expected_execution_rating: ExecutionRating::CompetentExecution,
                coordination_contribution_bp: 3000,
                execution_contribution_bp: 6000,
                exogenous_variance_bp: 1000,
                summary_notes: "Condition dissent prevented overextension, allowing stable defensive yield",
            }
        } else {
            AttributionScenario {
                name: "attr-trust-breakdown-execution-miss-v1",
                description: "Low-reputation caller ignored, resulting in disjointed positioning and wave concession",
                coordination_outcome: TeamCoordinationOutcome::DivergentIntents,
                cohesion_bp: 2000,
                primary_coord_factor: CoordinationCausalFactor::TrustDeficitDissent,
                lane_outcome: LaneOutcome::YieldedSpace,
                execution_score_bp: 3500,
                primary_exec_factor: ExecutionCausalFactor::WavePressureDisadvantage,
                expected_quadrant: AttributionQuadrant::CompoundedFailure,
                expected_coordination_rating: CoordinationRating::FailedCoordination,
                expected_execution_rating: ExecutionRating::CompromisedExecution,
                coordination_contribution_bp: 5000,
                execution_contribution_bp: 4000,
                exogenous_variance_bp: 1000,
                summary_notes: "Trust deficit caused fragmented response and concession of wave pressure",
            }
        }
    }

    /// All registered scenarios, in their stable order.
    pub fn all_scenarios() -> (r: [AttributionScenario; 6])
        ensures
            forall|k: int| 0 <= k < 6 ==> r[k] == catalog_scenario(k),
    {
        [
            Self::scenario(0),
            Self::scenario(1),
            Self::scenario(2),
            Self::scenario(3),
            Self::scenario(4),
            Self::scenario(5),
        ]
    }

    /// The scenario with a name; an empty name, or one that no scenario has, is refused.
    pub fn lookup(name: &str) -> (r: Result<AttributionScenario, TeamAttributionError>)
        ensures
            name@.len() == 0 ==> r == Err::<AttributionScenario, TeamAttributionError>(
                TeamAttributionError::InvalidScenarioName,
            ),
            name@.len() > 0 ==> r == match catalog_scenario_index(name@) {
                Some(k) => Ok::<AttributionScenario, TeamAttributionError>(catalog_scenario(k)),
                None => Err(TeamAttributionError::CatalogScenarioNotFound("unknown-scenario")),
            },
    {
        if name.unicode_len() == 0 {
            return Err(TeamAttributionError::InvalidScenarioName);
        }
        if str_eq(name, "attr-coordinated-triumph-gank-v1") {
            return Ok(Self::scenario(0));
        }
        if str_eq(name, "attr-coordinated-failure-overreach-v1") {
            return Ok(Self::scenario(1));
        }
        if str_eq(name, "attr-uncoordinated-bailout-clutch-v1") {
            return Ok(Self::scenario(2));
        }
        if str_eq(name, "attr-compounded-failure-deadlock-v1") {
            return Ok(Self::scenario(3));
        }
        if str_eq(name, "attr-legitimate-dissent-avoided-wipe-v1") {
            return Ok(Self::scenario(4));
        }
        if str_eq(name, "attr-trust-breakdown-execution-miss-v1") {
            return Ok(Self::scenario(5));
        }
        Err(TeamAttributionError::CatalogScenarioNotFound("unknown-scenario"))
    }

    /// Check every registered scenario.
    pub fn all_scenarios_are_valid() -> (r: Result<(), TeamAttributionError>)
        ensures
            r == Ok::<(), TeamAttributionError>(()),
    {
        proof {
            lemma_catalog_scenarios_valid();
        }
        let scenarios = Self::all_scenarios();
        let mut i: usize = 0;
        while i < 6
            invariant
                i <= 6,
                forall|k: int| 0 <= k < 6 ==> scenarios[k] == catalog_scenario(k),
                forall|k: int| 0 <= k < 6 ==> scenario_check(#[trigger] catalog_scenario(k)) == Ok::<(), TeamAttributionError>(()),
            decreases 6 - i,
        {
            assert(scenario_check(catalog_scenario(i as int)) == Ok::<(), TeamAttributionError>(()));
            let r = scenarios[i].validate();
            match r {
                Ok(_) => {},
                Err(e) => {
                    return Err(e);
                },
            }
            i = i + 1;
        }
        Ok(())
    }
}

/// Every registered scenario is internally consistent, and each is found by its name.
pub proof fn lemma_catalog_scenarios_valid()
    ensures
        forall|k: int| 0 <= k < 6 ==> scenario_check(#[trigger] catalog_scenario(k)) == Ok::<(), TeamAttributionError>(()),
        forall|k: int| 0 <= k < 6 ==> catalog_scenario_index(#[trigger] catalog_scenario(k).name@) == Some(k),
{
    reveal_strlit("attr-coordinated-triumph-gank-v1");
    reveal_strlit("attr-coordinated-failure-overreach-v1");
    reveal_strlit("attr-uncoordinated-bailout-clutch-v1");
    reveal_strlit("attr-compounded-failure-deadlock-v1");
    reveal_strlit("attr-legitimate-dissent-avoided-wipe-v1");
    reveal_strlit("attr-trust-breakdown-execution-miss-v1");
    assert("attr-coordinated-failure-overreach-v1"@.len() != "attr-coordinated-triumph-gank-v1"@.len());
    assert("attr-uncoordinated-bailout-clutch-v1"@.len() != "attr-coordinated-triumph-gank-v1"@.len());
    assert("attr-uncoordinated-bailout-clutch-v1"@.len() != "attr-coordinated-failure-overreach-v1"@.len());
    assert("attr-compounded-failure-deadlock-v1"@.len() != "attr-coordinated-triumph-gank-v1"@.len());
    assert("attr-compounded-failure-deadlock-v1"@.len() != "attr-coordinated-failure-overreach-v1"@.len());
    assert("attr-compounded-failure-deadlock-v1"@.len() != "attr-uncoordinated-bailout-clutch-v1"@.len());
    assert("attr-legitimate-dissent-avoided-wipe-v1"@.len() != "attr-coordinated-triumph-gank-v1"@.len());
    assert("attr-legitimate-dissent-avoided-wipe-v1"@.len() != "attr-coordinated-failure-overreach-v1"@.len());
    assert("attr-legitimate-dissent-avoided-wipe-v1"@.len() != "attr-uncoordinated-bailout-clutch-v1"@.len());
    assert("attr-legitimate-dissent-avoided-wipe-v1"@.len() != "attr-compounded-failure-deadlock-v1"@.len());
    assert("attr-trust-breakdown-execution-miss-v1"@.len() != "attr-coordinated-triumph-gank-v1"@.len());
    assert("attr-trust-breakdown-execution-miss-v1"@.len() != "attr-coordinated-failure-overreach-v1"@.len());
    assert("attr-trust-breakdown-execution-miss-v1"@.len() != "attr-uncoordinated-bailout-clutch-v1"@.len());
    assert("attr-trust-breakdown-execution-miss-v1"@.len() != "attr-compounded-failure-deadlock-v1"@.len());
    assert("attr-trust-breakdown-execution-miss-v1"@.len() != "attr-legitimate-dissent-avoided-wipe-v1"@.len());
    assert forall|k: int| 0 <= k < 6 implies scenario_check(#[trigger] catalog_scenario(k)) == Ok::<(), TeamAttributionError>(()) && catalog_scenario_index(catalog_scenario(k).name@) == Some(k) by {
        if k == 0 {
        } else if k == 1 {
        } else if k == 2 {
        } else if k == 3 {
        } else if k == 4 {
        } else {
        }
    }
}

} // verus!
