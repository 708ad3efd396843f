//! Semantic profile vocabulary and the diagnostic choice catalog: compact
//! trait labels with their canonical spellings, the three baseline profile
//! definitions, and the seven lane dilemmas with their contrasting intents.

use vstd::prelude::*;
use crate::lane::LaneIntent;
use crate::text::str_eq;

verus! {

/// Versioned identity for the semantic profile vocabulary.
pub const SEMANTIC_PROFILE_VOCABULARY_SCHEMA: &'static str = "m7-semantic-profile-vocabulary-v1";

/// Stable identity of the cautious semantic profile.
pub const CAUTIOUS_SEMANTIC_PROFILE_ID: &'static str = "cautious-laner-semantic-v1";

/// Stable identity of the risk-taking semantic profile.
pub const RISK_TAKING_SEMANTIC_PROFILE_ID: &'static str = "risk-taking-laner-semantic-v1";

/// Stable identity of the yielding semantic profile.
pub const YIELDING_SEMANTIC_PROFILE_ID: &'static str = "yielding-laner-semantic-v1";

/// Versioned identity for the diagnostic choice catalog.
pub const DIAGNOSTIC_CHOICE_CATALOG_SCHEMA: &'static str = "m7-diagnostic-choice-catalog-v1";

pub const CHOICE_CONTEST_CONCEDE_ID: &'static str = "choice-contest-concede-v1";

pub const CHOICE_FOLLOW_REJECT_ID: &'static str = "choice-follow-reject-v1";

pub const CHOICE_FARM_ASSIST_ID: &'static str = "choice-farm-assist-v1";

pub const CHOICE_RECALL_TIMING_ID: &'static str = "choice-recall-timing-v1";

pub const CHOICE_SACRIFICE_ID: &'static str = "choice-sacrifice-v1";

pub const CHOICE_SURPRISE_ID: &'static str = "choice-surprise-v1";

pub const CHOICE_RESPONSE_TO_FAILURE_ID: &'static str = "choice-response-to-failure-v1";

/// Compact semantic risk tolerance level.
#[derive(Clone, Copy, Debug, PartialEq, Eq, Hash, Structural)]
pub enum SemanticRiskTolerance {
    /// Prioritizes damage avoidance and retreat under ambiguity or threat.
    Cautious,
    /// Balances resource gain and safety.
    Balanced,
    /// Prioritizes contested objectives and forward pressure despite risk.
    RiskSeeking,
}

/// Canonical label of a risk tolerance level.
pub open spec fn risk_label(x: SemanticRiskTolerance) -> Seq<char> {
    match x {
        SemanticRiskTolerance::Cautious => "cautious"@,
        SemanticRiskTolerance::Balanced => "balanced"@,
        SemanticRiskTolerance::RiskSeeking => "risk-seeking"@,
    }
}

/// The risk tolerance level a label spells, if any.
pub open spec fn risk_from_label(s: Seq<char>) -> Option<SemanticRiskTolerance> {
    if s == "cautious"@ {
        Some(SemanticRiskTolerance::Cautious)
    } else if s == "balanced"@ {
        Some(SemanticRiskTolerance::Balanced)
    } else if s == "risk-seeking"@ {
        Some(SemanticRiskTolerance::RiskSeeking)
    } else {
        None
    }
}

impl SemanticRiskTolerance {
    /// Return the canonical label for this risk tolerance level.
    pub fn as_str(self) -> (r: &'static str)
        ensures
            r@ == risk_label(self),
    {
        match self {
            Self::Cautious => "cautious",
            Self::Balanced => "balanced",
            Self::RiskSeeking => "risk-seeking",
        }
    }

    /// Parse a risk tolerance level from a canonical label.
    pub fn parse(label: &str) -> (r: Option<Self>)
        ensures
            r == risk_from_label(label@),
    {
        if str_eq(label, "cautious") {
            Some(Self::Cautious)
        } else if str_eq(label, "balanced") {
            Some(Self::Balanced)
        } else if str_eq(label, "risk-seeking") {
            Some(Self::RiskSeeking)
        } else {
            None
        }
    }
}

/// Parsing the canonical label of a risk tolerance level gives it back.
pub proof fn lemma_risk_label_round_trip(x: SemanticRiskTolerance)
    ensures
        risk_from_label(risk_label(x)) == Some(x),
{
    reveal_strlit("cautious");
    reveal_strlit("balanced");
    reveal_strlit("risk-seeking");
    assert("cautious"@[0] == 'c');
    assert("balanced"@[0] == 'b');
    assert("risk-seeking"@[0] == 'r');
}

/// Compact semantic deference level for authority and coordination.
#[derive(Clone, Copy, Debug, PartialEq, Eq, Hash, Structural)]
pub enum SemanticDeference {
    /// Acts primarily on own local evaluation.
    Autonomous,
    /// Aligns with external calls or leader direction.
    Compliant,
    /// Readily yields contest priority to ally or neutral presence.
    Yielding,
}

/// Canonical label of a deference level.
pub open spec fn deference_label(x: SemanticDeference) -> Seq<char> {
    match x {
        SemanticDeference::Autonomous => "autonomous"@,
        SemanticDeference::Compliant => "compliant"@,
        SemanticDeference::Yielding => "yielding"@,
    }
}

/// The deference level a label spells, if any.
pub open spec fn deference_from_label(s: Seq<char>) -> Option<SemanticDeference> {
    if s == "autonomous"@ {
        Some(SemanticDeference::Autonomous)
    } else if s == "compliant"@ {
        Some(SemanticDeference::Compliant)
    } else if s == "yielding"@ {
        Some(SemanticDeference::Yielding)
    } else {
        None
    }
}

impl SemanticDeference {
    /// Return the canonical label for this deference level.
    pub fn as_str(self) -> (r: &'static str)
        ensures
            r@ == deference_label(self),
    {
        match self {
            Self::Autonomous => "autonomous",
            Self::Compliant => "compliant",
            Self::Yielding => "yielding",
        }
    }

    /// Parse a deference level from a canonical label.
    pub fn parse(label: &str) -> (r: Option<Self>)
        ensures
            r == deference_from_label(label@),
    {
        if str_eq(label, "autonomous") {
            Some(Self::Autonomous)
        } else if str_eq(label, "compliant") {
            Some(Self::Compliant)
        } else if str_eq(label, "yielding") {
            Some(Self::Yielding)
        } else {
            None
        }
    }
}

/// Parsing the canonical label of a deference level gives it back.
pub proof fn lemma_deference_label_round_trip(x: SemanticDeference)
    ensures
        deference_from_label(deference_label(x)) == Some(x),
{
    reveal_strlit("autonomous");
    reveal_strlit("compliant");
    reveal_strlit("yielding");
    assert("autonomous"@[0] == 'a');
    assert("compliant"@[0] == 'c');
    assert("yielding"@[0] == 'y');
}

/// Compact semantic focus level for decision posture.
#[derive(Clone, Copy, Debug, PartialEq, Eq, Hash, Structural)]
pub enum SemanticFocus {
    /// Waits for wave stabilization and defensive positioning.
    Patience,
    /// Exploits openings and immediate favorable conditions.
    Opportunity,
    /// Prioritizes rapid escalation or immediate objective contest.
    Urgency,
}

/// Canonical label of a focus level.
pub open spec fn focus_label(x: SemanticFocus) -> Seq<char> {
    match x {
        SemanticFocus::Patience => "patience"@,
        SemanticFocus::Opportunity => "opportunity"@,
        SemanticFocus::Urgency => "urgency"@,
    }
}

/// The focus level a label spells, if any.
pub open spec fn focus_from_label(s: Seq<char>) -> Option<SemanticFocus> {
    if s == "patience"@ {
        Some(SemanticFocus::Patience)
    } else if s == "opportunity"@ {
        Some(SemanticFocus::Opportunity)
    } else if s == "urgency"@ {
        Some(SemanticFocus::Urgency)
    } else {
        None
    }
}

impl SemanticFocus {
    /// Return the canonical label for this focus level.
    pub fn as_str(self) -> (r: &'static str)
        ensures
            r@ == focus_label(self),
    {
        match self {
            Self::Patience => "patience",
            Self::Opportunity => "opportunity",
            Self::Urgency => "urgency",
        }
    }

    /// Parse a focus level from a canonical label.
    pub fn parse(label: &str) -> (r: Option<Self>)
        ensures
            r == focus_from_label(label@),
    {
        if str_eq(label, "patience") {
            Some(Self::Patience)
        } else if str_eq(label, "opportunity") {
            Some(Self::Opportunity)
        } else if str_eq(label, "urgency") {
            Some(Self::Urgency)
        } else {
            None
        }
    }
}

/// Parsing the canonical label of a focus level gives it back.
pub proof fn lemma_focus_label_round_trip(x: SemanticFocus)
    ensures
        focus_from_label(focus_label(x)) == Some(x),
{
    reveal_strlit("patience");
    reveal_strlit("opportunity");
    reveal_strlit("urgency");
    assert("patience"@[0] == 'p');
    assert("opportunity"@[0] == 'o');
    assert("urgency"@[0] == 'u');
}

/// Compact semantic communication clarity level.
#[derive(Clone, Copy, Debug, PartialEq, Eq, Hash, Structural)]
pub enum SemanticCommunicationClarity {
    /// Minimal signals, essential threat and status only.
    Terse,
    /// Balanced communicative frequency.
    Standard,
    /// High communicative frequency and explicit intents.
    Verbose,
}

/// Canonical label of a communication clarity level.
pub open spec fn clarity_label(x: SemanticCommunicationClarity) -> Seq<char> {
    match x {
        SemanticCommunicationClarity::Terse => "terse"@,
        SemanticCommunicationClarity::Standard => "standard"@,
        SemanticCommunicationClarity::Verbose => "verbose"@,
    }
}

/// The communication clarity level a label spells, if any.
pub open spec fn clarity_from_label(s: Seq<char>) -> Option<SemanticCommunicationClarity> {
    if s == "terse"@ {
        Some(SemanticCommunicationClarity::Terse)
    } else if s == "standard"@ {
        Some(SemanticCommunicationClarity::Standard)
    } else if s == "verbose"@ {
        Some(SemanticCommunicationClarity::Verbose)
    } else {
        None
    }
}

impl SemanticCommunicationClarity {
    /// Return the canonical label for this communication clarity level.
    pub fn as_str(self) -> (r: &'static str)
        ensures
            r@ == clarity_label(self),
    {
        match self {
            Self::Terse => "terse",
            Self::Standard => "standard",
            Self::Verbose => "verbose",
        }
    }

    /// Parse a communication clarity level from a canonical label.
    pub fn parse(label: &str) -> (r: Option<Self>)
        ensures
            r == clarity_from_label(label@),
    {
        if str_eq(label, "terse") {
            Some(Self::Terse)
        } else if str_eq(label, "standard") {
            Some(Self::Standard)
        } else if str_eq(label, "verbose") {
            Some(Self::Verbose)
        } else {
            None
        }
    }
}

/// Parsing the canonical label of a communication clarity level gives it back.
pub proof fn lemma_clarity_label_round_trip(x: SemanticCommunicationClarity)
    ensures
        clarity_from_label(clarity_label(x)) == Some(x),
{
    reveal_strlit("terse");
    reveal_strlit("standard");
    reveal_strlit("verbose");
    assert("terse"@[0] == 't');
    assert("standard"@[0] == 's');
    assert("verbose"@[0] == 'v');
}

/// Compact semantic profile definition schema and trait bundle.
#[derive(Clone, Copy, Debug, PartialEq, Eq, Hash)]
pub struct SemanticProfileDefinition {
    profile_id: &'static str,
    schema: &'static str,
    risk_tolerance: SemanticRiskTolerance,
    deference: SemanticDeference,
    focus: SemanticFocus,
    communication_clarity: SemanticCommunicationClarity,
    description: &'static str,
}

/// The content of a semantic profile definition.
pub struct SemanticProfileView {
    pub profile_id: Seq<char>,
    pub schema: Seq<char>,
    pub risk_tolerance: SemanticRiskTolerance,
    pub deference: SemanticDeference,
    pub focus: SemanticFocus,
    pub communication_clarity: SemanticCommunicationClarity,
    pub description: Seq<char>,
}

impl View for SemanticProfileDefinition {
    type V = SemanticProfileView;

    closed spec fn view(&self) -> SemanticProfileView {
        SemanticProfileView {
            profile_id: self.profile_id@,
            schema: self.schema@,
            risk_tolerance: self.risk_tolerance,
            deference: self.deference,
            focus: self.focus,
            communication_clarity: self.communication_clarity,
            description: self.description@,
        }
    }
}

/// The cautious baseline semantic profile.
pub open spec fn cautious_semantic() -> SemanticProfileView {
    SemanticProfileView {
        profile_id: CAUTIOUS_SEMANTIC_PROFILE_ID@,
        schema: SEMANTIC_PROFILE_VOCABULARY_SCHEMA@,
        risk_tolerance: SemanticRiskTolerance::Cautious,
        deference: SemanticDeference::Autonomous,
        focus: SemanticFocus::Patience,
        communication_clarity: SemanticCommunicationClarity::Terse,
        description: "Cautious autonomous laner prioritizing lane stabilization and threat retreat."@,
    }
}

/// The risk-taking baseline semantic profile.
pub open spec fn risk_taking_semantic() -> SemanticProfileView {
    SemanticProfileView {
        profile_id: RISK_TAKING_SEMANTIC_PROFILE_ID@,
        schema: SEMANTIC_PROFILE_VOCABULARY_SCHEMA@,
        risk_tolerance: SemanticRiskTolerance::RiskSeeking,
        deference: SemanticDeference::Autonomous,
        focus: SemanticFocus::Opportunity,
        communication_clarity: SemanticCommunicationClarity::Standard,
        description: "Risk-seeking autonomous laner prioritizing contest opportunities."@,
    }
}

/// The yielding baseline semantic profile.
pub open spec fn yielding_semantic() -> SemanticProfileView {
    SemanticProfileView {
        profile_id: YIELDING_SEMANTIC_PROFILE_ID@,
        schema: SEMANTIC_PROFILE_VOCABULARY_SCHEMA@,
        risk_tolerance: SemanticRiskTolerance::Cautious,
        deference: SemanticDeference::Yielding,
        focus: SemanticFocus::Patience,
        communication_clarity: SemanticCommunicationClarity::Terse,
        description: "Yielding laner deferring contest to avoid confrontation."@,
    }
}

/// The semantic profile registered under an identity, if any.
pub open spec fn semantic_profile_for(id: Seq<char>) -> Option<SemanticProfileView> {
    if id == CAUTIOUS_SEMANTIC_PROFILE_ID@ {
        Some(cautious_semantic())
    } else if id == RISK_TAKING_SEMANTIC_PROFILE_ID@ {
        Some(risk_taking_semantic())
    } else if id == YIELDING_SEMANTIC_PROFILE_ID@ {
        Some(yielding_semantic())
    } else {
        None
    }
}

impl SemanticProfileDefinition {
    /// Construct the cautious baseline semantic profile definition.
    pub fn cautious_v1() -> (r: Self)
        ensures
            r@ == cautious_semantic(),
    {
        Self {
            profile_id: CAUTIOUS_SEMANTIC_PROFILE_ID,
            schema: SEMANTIC_PROFILE_VOCABULARY_SCHEMA,
            risk_tolerance: SemanticRiskTolerance::Cautious,
            deference: SemanticDeference::Autonomous,
            focus: SemanticFocus::Patience,
            communication_clarity: SemanticCommunicationClarity::Terse,
            description: "Cautious autonomous laner prioritizing lane stabilization and threat retreat.",
        }
    }

    /// Construct the risk-taking baseline semantic profile definition.
    pub fn risk_taking_v1() -> (r: Self)
        ensures
            r@ == risk_taking_semantic(),
    {
        Self {
            profile_id: RISK_TAKING_SEMANTIC_PROFILE_ID,
            schema: SEMANTIC_PROFILE_VOCABULARY_SCHEMA,
            risk_tolerance: SemanticRiskTolerance::RiskSeeking,
            deference: SemanticDeference::Autonomous,
            focus: SemanticFocus::Opportunity,
            communication_clarity: SemanticCommunicationClarity::Standard,
            description: "Risk-seeking autonomous laner prioritizing contest opportunities.",
        }
    }

    /// Construct the yielding baseline semantic profile definition.
    pub fn yielding_v1() -> (r: Self)
        ensures
            r@ == yielding_semantic(),
    {
        Self {
            profile_id: YIELDING_SEMANTIC_PROFILE_ID,
            schema: SEMANTIC_PROFILE_VOCABULARY_SCHEMA,
            risk_tolerance: SemanticRiskTolerance::Cautious,
            deference: SemanticDeference::Yielding,
            focus: SemanticFocus::Patience,
            communication_clarity: SemanticCommunicationClarity::Terse,
            description: "Yielding laner deferring contest to avoid confrontation.",
        }
    }

    pub fn profile_id(self) -> (r: &'static str)
        ensures
            r@ == self@.profile_id,
    {
        self.profile_id
    }

    pub fn schema(self) -> (r: &'static str)
        ensures
            r@ == self@.schema,
    {
        self.schema
    }

    pub fn risk_tolerance(self) -> (r: SemanticRiskTolerance)
        ensures
            r == self@.risk_tolerance,
    {
        self.risk_tolerance
    }

    pub fn deference(self) -> (r: SemanticDeference)
        ensures
            r == self@.deference,
    {
        self.deference
    }

    pub fn focus(self) -> (r: SemanticFocus)
        ensures
            r == self@.focus,
    {
        self.focus
    }

    pub fn communication_clarity(self) -> (r: SemanticCommunicationClarity)
        ensures
            r == self@.communication_clarity,
    {
        self.communication_clarity
    }

    pub fn description(self) -> (r: &'static str)
        ensures
            r@ == self@.description,
    {
        self.description
    }
}

/// Errors raised when parsing or validating semantic profile vocabulary.
#[derive(Clone, Copy, Debug, PartialEq, Eq, Hash, Structural)]
pub enum SemanticProfileVocabularyError {
    UnknownProfile,
}

/// Canonical catalog of semantic profile vocabulary entries.
#[derive(Clone, Copy, Debug, PartialEq, Eq, Hash, Structural)]
pub struct SemanticProfileVocabulary;

impl SemanticProfileVocabulary {
    /// Return all registered canonical semantic profile definitions.
    pub fn all_profiles() -> (r: [SemanticProfileDefinition; 3])
        ensures
            r@.len() == 3,
            r@[0]@ == cautious_semantic(),
            r@[1]@ == risk_taking_semantic(),
            r@[2]@ == yielding_semantic(),
    {
        [
            SemanticProfileDefinition::cautious_v1(),
            SemanticProfileDefinition::risk_taking_v1(),
            SemanticProfileDefinition::yielding_v1(),
        ]
    }

    /// Lookup a semantic profile definition by its stable ID.
    pub fn lookup(profile_id: &str) -> (r: Option<SemanticProfileDefinition>)
        ensures
            match r {
                Some(d) => semantic_profile_for(profile_id@) == Some(d@),
                None => semantic_profile_for(profile_id@) is None,
            },
    {
        if str_eq(profile_id, CAUTIOUS_SEMANTIC_PROFILE_ID) {
            Some(SemanticProfileDefinition::cautious_v1())
        } else if str_eq(profile_id, RISK_TAKING_SEMANTIC_PROFILE_ID) {
            Some(SemanticProfileDefinition::risk_taking_v1())
        } else if str_eq(profile_id, YIELDING_SEMANTIC_PROFILE_ID) {
            Some(SemanticProfileDefinition::yielding_v1())
        } else {
            None
        }
    }

    /// Validate that a profile ID exists in the vocabulary.
    pub fn validate_profile_id(profile_id: &str) -> (r: Result<
        SemanticProfileDefinition,
        SemanticProfileVocabularyError,
    >)
        ensures
            match r {
                Ok(d) => semantic_profile_for(profile_id@) == Some(d@),
                Err(e) => semantic_profile_for(profile_id@) is None && e
                    == SemanticProfileVocabularyError::UnknownProfile,
            },
    {
        match Self::lookup(profile_id) {
            Some(d) => Ok(d),
            None => Err(SemanticProfileVocabularyError::UnknownProfile),
        }
    }
}

/// Every registered semantic profile is found again under its own identity,
/// and the three identities are distinct.
pub proof fn lemma_semantic_profiles_found_by_id()
    ensures
        semantic_profile_for(cautious_semantic().profile_id) == Some(cautious_semantic()),
        semantic_profile_for(risk_taking_semantic().profile_id) == Some(risk_taking_semantic()),
        semantic_profile_for(yielding_semantic().profile_id) == Some(yielding_semantic()),
        cautious_semantic().profile_id != risk_taking_semantic().profile_id,
        cautious_semantic().profile_id != yielding_semantic().profile_id,
        risk_taking_semantic().profile_id != yielding_semantic().profile_id,
{
    reveal_strlit("cautious-laner-semantic-v1");
    reveal_strlit("risk-taking-laner-semantic-v1");
    reveal_strlit("yielding-laner-semantic-v1");
    assert("cautious-laner-semantic-v1"@[0] == 'c');
    assert("risk-taking-laner-semantic-v1"@[0] == 'r');
    assert("yielding-laner-semantic-v1"@[0] == 'y');
}

/// Compact diagnostic choice domain covering core lane decision dilemmas.
#[derive(Clone, Copy, Debug, PartialEq, Eq, Hash, Structural)]
pub enum DiagnosticChoiceDomain {
    /// Contesting space vs yielding position.
    ContestConcede,
    /// Following allied calls vs acting autonomously.
    FollowReject,
    /// Solo resource farming vs rotating to assist.
    FarmAssist,
    /// Greedy lane stay vs timely recall reset.
    RecallTiming,
    /// Holding ground under threat vs self-preservation.
    Sacrifice,
    /// Adapting to sudden threat vs holding prior posture.
    Surprise,
    /// Resetting after unfavorable outcome vs doubling down.
    ResponseToFailure,
}

/// Canonical label of a choice domain.
pub open spec fn domain_label(x: DiagnosticChoiceDomain) -> Seq<char> {
    match x {
        DiagnosticChoiceDomain::ContestConcede => "contest-concede"@,
        DiagnosticChoiceDomain::FollowReject => "follow-reject"@,
        DiagnosticChoiceDomain::FarmAssist => "farm-assist"@,
        DiagnosticChoiceDomain::RecallTiming => "recall-timing"@,
        DiagnosticChoiceDomain::Sacrifice => "sacrifice"@,
        DiagnosticChoiceDomain::Surprise => "surprise"@,
        DiagnosticChoiceDomain::ResponseToFailure => "response-to-failure"@,
    }
}

/// The choice domain a label spells, if any.
pub open spec fn domain_from_label(s: Seq<char>) -> Option<DiagnosticChoiceDomain> {
    if s == "contest-concede"@ {
        Some(DiagnosticChoiceDomain::ContestConcede)
    } else if s == "follow-reject"@ {
        Some(DiagnosticChoiceDomain::FollowReject)
    } else if s == "farm-assist"@ {
        Some(DiagnosticChoiceDomain::FarmAssist)
    } else if s == "recall-timing"@ {
        Some(DiagnosticChoiceDomain::RecallTiming)
    } else if s == "sacrifice"@ {
        Some(DiagnosticChoiceDomain::Sacrifice)
    } else if s == "surprise"@ {
        Some(DiagnosticChoiceDomain::Surprise)
    } else if s == "response-to-failure"@ {
        Some(DiagnosticChoiceDomain::ResponseToFailure)
    } else {
        None
    }
}

impl DiagnosticChoiceDomain {
    /// Return the canonical label for this choice domain.
    pub fn as_str(self) -> (r: &'static str)
        ensures
            r@ == domain_label(self),
    {
        match self {
            Self::ContestConcede => "contest-concede",
            Self::FollowReject => "follow-reject",
            Self::FarmAssist => "farm-assist",
            Self::RecallTiming => "recall-timing",
            Self::Sacrifice => "sacrifice",
            Self::Surprise => "surprise",
            Self::ResponseToFailure => "response-to-failure",
        }
    }

    /// Parse a choice domain from a canonical label.
    pub fn parse(label: &str) -> (r: Option<Self>)
        ensures
            r == domain_from_label(label@),
    {
        if str_eq(label, "contest-concede") {
            Some(Self::ContestConcede)
        } else if str_eq(label, "follow-reject") {
            Some(Self::FollowReject)
        } else if str_eq(label, "farm-assist") {
            Some(Self::FarmAssist)
        } else if str_eq(label, "recall-timing") {
            Some(Self::RecallTiming)
        } else if str_eq(label, "sacrifice") {
            Some(Self::Sacrifice)
        } else if str_eq(label, "surprise") {
            Some(Self::Surprise)
        } else if str_eq(label, "response-to-failure") {
            Some(Self::ResponseToFailure)
        } else {
            None
        }
    }
}

/// Parsing the canonical label of a choice domain gives it back.
pub proof fn lemma_domain_label_round_trip(x: DiagnosticChoiceDomain)
    ensures
        domain_from_label(domain_label(x)) == Some(x),
{
    reveal_strlit("contest-concede");
    reveal_strlit("follow-reject");
    reveal_strlit("farm-assist");
    reveal_strlit("recall-timing");
    reveal_strlit("sacrifice");
    reveal_strlit("surprise");
    reveal_strlit("response-to-failure");
    assert("contest-concede"@[0] == 'c');
    assert("contest-concede"@[1] == 'o');
    assert("contest-concede"@[2] == 'n');
    assert("follow-reject"@[0] == 'f');
    assert("follow-reject"@[1] == 'o');
    assert("follow-reject"@[2] == 'l');
    assert("farm-assist"@[0] == 'f');
    assert("farm-assist"@[1] == 'a');
    assert("farm-assist"@[2] == 'r');
    assert("recall-timing"@[0] == 'r');
    assert("recall-timing"@[1] == 'e');
    assert("recall-timing"@[2] == 'c');
    assert("sacrifice"@[0] == 's');
    assert("sacrifice"@[1] == 'a');
    assert("sacrifice"@[2] == 'c');
    assert("surprise"@[0] == 's');
    assert("surprise"@[1] == 'u');
    assert("surprise"@[2] == 'r');
    assert("response-to-failure"@[0] == 'r');
    assert("response-to-failure"@[1] == 'e');
    assert("response-to-failure"@[2] == 's');
}

/// Compact diagnostic choice definition schema and contrast metadata.
#[derive(Clone, Copy, Debug, PartialEq, Eq, Hash)]
pub struct DiagnosticChoiceDefinition {
    choice_id: &'static str,
    schema: &'static str,
    domain: DiagnosticChoiceDomain,
    primary_intent: LaneIntent,
    alternative_intent: LaneIntent,
    intended_contrast: &'static str,
    description: &'static str,
}

/// The content of a diagnostic choice definition.
pub struct DiagnosticChoiceView {
    pub choice_id: Seq<char>,
    pub schema: Seq<char>,
    pub domain: DiagnosticChoiceDomain,
    pub primary_intent: LaneIntent,
    pub alternative_intent: LaneIntent,
    pub intended_contrast: Seq<char>,
    pub description: Seq<char>,
}

impl View for DiagnosticChoiceDefinition {
    type V = DiagnosticChoiceView;

    closed spec fn view(&self) -> DiagnosticChoiceView {
        DiagnosticChoiceView {
            choice_id: self.choice_id@,
            schema: self.schema@,
            domain: self.domain,
            primary_intent: self.primary_intent,
            alternative_intent: self.alternative_intent,
            intended_contrast: self.intended_contrast@,
            description: self.description@,
        }
    }
}

/// A catalog choice from its identity, domain, intents and texts.
pub open spec fn choice_view(
    id: Seq<char>,
    domain: DiagnosticChoiceDomain,
    primary: LaneIntent,
    alternative: LaneIntent,
    contrast: Seq<char>,
    description: Seq<char>,
) -> DiagnosticChoiceView {
    DiagnosticChoiceView {
        choice_id: id,
        schema: DIAGNOSTIC_CHOICE_CATALOG_SCHEMA@,
        domain,
        primary_intent: primary,
        alternative_intent: alternative,
        intended_contrast: contrast,
        description,
    }
}

/// The canonical choice of each domain.
pub open spec fn choice_of_domain(d: DiagnosticChoiceDomain) -> DiagnosticChoiceView {
    match d {
        DiagnosticChoiceDomain::ContestConcede => choice_view(
            CHOICE_CONTEST_CONCEDE_ID@,
            d,
            LaneIntent::Contest,
            LaneIntent::Yield,
            "Contesting space vs yielding position to preserve survivability."@,
            "Diagnostic choice contrasting contested wave/objective assertiveness against tactical concession."@,
        ),
        DiagnosticChoiceDomain::FollowReject => choice_view(
            CHOICE_FOLLOW_REJECT_ID@,
            d,
            LaneIntent::Contest,
            LaneIntent::Stabilize,
            "Accepting allied coordinated contest vs autonomous lane stabilization."@,
            "Diagnostic choice contrasting adherence to allied coordination proposals against autonomous action."@,
        ),
        DiagnosticChoiceDomain::FarmAssist => choice_view(
            CHOICE_FARM_ASSIST_ID@,
            d,
            LaneIntent::Stabilize,
            LaneIntent::Contest,
            "Farming wave resources in lane vs committing to assist forward contest."@,
            "Diagnostic choice contrasting solo resource farming against assisting allied engagements."@,
        ),
        DiagnosticChoiceDomain::RecallTiming => choice_view(
            CHOICE_RECALL_TIMING_ID@,
            d,
            LaneIntent::Recall,
            LaneIntent::Stabilize,
            "Executing timely recall to reset vs greedily remaining in lane to stabilize wave."@,
            "Diagnostic choice contrasting proactive recall resets against high-risk wave stabilization."@,
        ),
        DiagnosticChoiceDomain::Sacrifice => choice_view(
            CHOICE_SACRIFICE_ID@,
            d,
            LaneIntent::Contest,
            LaneIntent::Withdraw,
            "Holding ground despite attrition danger vs withdrawing to preserve health."@,
            "Diagnostic choice contrasting objective defense at personal cost against self-preservation."@,
        ),
        DiagnosticChoiceDomain::Surprise => choice_view(
            CHOICE_SURPRISE_ID@,
            d,
            LaneIntent::Withdraw,
            LaneIntent::Stabilize,
            "Immediate threat withdrawal vs standing ground under unexpected pressure."@,
            "Diagnostic choice contrasting reactive threat retreat against holding standard posture when surprised."@,
        ),
        DiagnosticChoiceDomain::ResponseToFailure => choice_view(
            CHOICE_RESPONSE_TO_FAILURE_ID@,
            d,
            LaneIntent::Yield,
            LaneIntent::Contest,
            "Yielding space after an unfavorable exchange vs doubling down on contest."@,
            "Diagnostic choice contrasting risk reduction and tactical reset against persistent escalation after failure."@,
        ),
    }
}

/// The choice registered under an identity, if any.
pub open spec fn choice_for_id(id: Seq<char>) -> Option<DiagnosticChoiceView> {
    if id == CHOICE_CONTEST_CONCEDE_ID@ {
        Some(choice_of_domain(DiagnosticChoiceDomain::ContestConcede))
    } else if id == CHOICE_FOLLOW_REJECT_ID@ {
        Some(choice_of_domain(DiagnosticChoiceDomain::FollowReject))
    } else if id == CHOICE_FARM_ASSIST_ID@ {
        Some(choice_of_domain(DiagnosticChoiceDomain::FarmAssist))
    } else if id == CHOICE_RECALL_TIMING_ID@ {
        Some(choice_of_domain(DiagnosticChoiceDomain::RecallTiming))
    } else if id == CHOICE_SACRIFICE_ID@ {
        Some(choice_of_domain(DiagnosticChoiceDomain::Sacrifice))
    } else if id == CHOICE_SURPRISE_ID@ {
        Some(choice_of_domain(DiagnosticChoiceDomain::Surprise))
    } else if id == CHOICE_RESPONSE_TO_FAILURE_ID@ {
        Some(choice_of_domain(DiagnosticChoiceDomain::ResponseToFailure))
    } else {
        None
    }
}

impl DiagnosticChoiceDefinition {
    /// Construct the canonical contest/concede diagnostic choice definition.
    pub fn contest_concede_v1() -> (r: Self)
        ensures
            r@ == choice_of_domain(DiagnosticChoiceDomain::ContestConcede),
    {
        Self {
            choice_id: CHOICE_CONTEST_CONCEDE_ID,
            schema: DIAGNOSTIC_CHOICE_CATALOG_SCHEMA,
            domain: DiagnosticChoiceDomain::ContestConcede,
            primary_intent: LaneIntent::Contest,
            alternative_intent: LaneIntent::Yield,
            intended_contrast: "Contesting space vs yielding position to preserve survivability.",
            description: "Diagnostic choice contrasting contested wave/objective assertiveness against tactical concession.",
        }
    }

    /// Construct the canonical follow/reject diagnostic choice definition.
    pub fn follow_reject_v1() -> (r: Self)
        ensures
            r@ == choice_of_domain(DiagnosticChoiceDomain::FollowReject),
    {
        Self {
            choice_id: CHOICE_FOLLOW_REJECT_ID,
            schema: DIAGNOSTIC_CHOICE_CATALOG_SCHEMA,
            domain: DiagnosticChoiceDomain::FollowReject,
            primary_intent: LaneIntent::Contest,
            alternative_intent: LaneIntent::Stabilize,
            intended_contrast: "Accepting allied coordinated contest vs autonomous lane stabilization.",
            description: "Diagnostic choice contrasting adherence to allied coordination proposals against autonomous action.",
        }
    }

    /// Construct the canonical farm/assist diagnostic choice definition.
    pub fn farm_assist_v1() -> (r: Self)
        ensures
            r@ == choice_of_domain(DiagnosticChoiceDomain::FarmAssist),
    {
        Self {
            choice_id: CHOICE_FARM_ASSIST_ID,
            schema: DIAGNOSTIC_CHOICE_CATALOG_SCHEMA,
            domain: DiagnosticChoiceDomain::FarmAssist,
            primary_intent: LaneIntent::Stabilize,
            alternative_intent: LaneIntent::Contest,
            intended_contrast: "Farming wave resources in lane vs committing to assist forward contest.",
            description: "Diagnostic choice contrasting solo resource farming against assisting allied engagements.",
        }
    }

    /// Construct the canonical recall timing diagnostic choice definition.
    pub fn recall_timing_v1() -> (r: Self)
        ensures
            r@ == choice_of_domain(DiagnosticChoiceDomain::RecallTiming),
    {
        Self {
            choice_id: CHOICE_RECALL_TIMING_ID,
            schema: DIAGNOSTIC_CHOICE_CATALOG_SCHEMA,
            domain: DiagnosticChoiceDomain::RecallTiming,
            primary_intent: LaneIntent::Recall,
            alternative_intent: LaneIntent::Stabilize,
            intended_contrast: "Executing timely recall to reset vs greedily remaining in lane to stabilize wave.",
            description: "Diagnostic choice contrasting proactive recall resets against high-risk wave stabilization.",
        }
    }

    /// Construct the canonical sacrifice diagnostic choice definition.
    pub fn sacrifice_v1() -> (r: Self)
        ensures
            r@ == choice_of_domain(DiagnosticChoiceDomain::Sacrifice),
    {
        Self {
            choice_id: CHOICE_SACRIFICE_ID,
            schema: DIAGNOSTIC_CHOICE_CATALOG_SCHEMA,
            domain: DiagnosticChoiceDomain::Sacrifice,
            primary_intent: LaneIntent::Contest,
            alternative_intent: LaneIntent::Withdraw,
            intended_contrast: "Holding ground despite attrition danger vs withdrawing to preserve health.",
            description: "Diagnostic choice contrasting objective defense at personal cost against self-preservation.",
        }
    }

    /// Construct the canonical surprise diagnostic choice definition.
    pub fn surprise_v1() -> (r: Self)
        ensures
            r@ == choice_of_domain(DiagnosticChoiceDomain::Surprise),
    {
        Self {
            choice_id: CHOICE_SURPRISE_ID,
            schema: DIAGNOSTIC_CHOICE_CATALOG_SCHEMA,
            domain: DiagnosticChoiceDomain::Surprise,
            primary_intent: LaneIntent::Withdraw,
            alternative_intent: LaneIntent::Stabilize,
            intended_contrast: "Immediate threat withdrawal vs standing ground under unexpected pressure.",
            description: "Diagnostic choice contrasting reactive threat retreat against holding standard posture when surprised.",
        }
    }

    /// Construct the canonical response to failure diagnostic choice definition.
    pub fn response_to_failure_v1() -> (r: Self)
        ensures
            r@ == choice_of_domain(DiagnosticChoiceDomain::ResponseToFailure),
    {
        Self {
            choice_id: CHOICE_RESPONSE_TO_FAILURE_ID,
            schema: DIAGNOSTIC_CHOICE_CATALOG_SCHEMA,
            domain: DiagnosticChoiceDomain::ResponseToFailure,
            primary_intent: LaneIntent::Yield,
            alternative_intent: LaneIntent::Contest,
            intended_contrast: "Yielding space after an unfavorable exchange vs doubling down on contest.",
            description: "Diagnostic choice contrasting risk reduction and tactical reset against persistent escalation after failure.",
        }
    }

    pub fn choice_id(self) -> (r: &'static str)
        ensures
            r@ == self@.choice_id,
    {
        self.choice_id
    }

    pub fn schema(self) -> (r: &'static str)
        ensures
            r@ == self@.schema,
    {
        self.schema
    }

    pub fn domain(self) -> (r: DiagnosticChoiceDomain)
        ensures
            r == self@.domain,
    {
        self.domain
    }

    pub fn primary_intent(self) -> (r: LaneIntent)
        ensures
            r == self@.primary_intent,
    {
        self.primary_intent
    }

    pub fn alternative_intent(self) -> (r: LaneIntent)
        ensures
            r == self@.alternative_intent,
    {
        self.alternative_intent
    }

    pub fn intended_contrast(self) -> (r: &'static str)
        ensures
            r@ == self@.intended_contrast,
    {
        self.intended_contrast
    }

    pub fn description(self) -> (r: &'static str)
        ensures
            r@ == self@.description,
    {
        self.description
    }
}

/// Errors raised when validating diagnostic choice catalog lookups.
#[derive(Clone, Copy, Debug, PartialEq, Eq, Hash, Structural)]
pub enum DiagnosticChoiceCatalogError {
    UnknownChoice,
}

/// Canonical catalog of diagnostic choice definitions.
#[derive(Clone, Copy, Debug, PartialEq, Eq, Hash, Structural)]
pub struct DiagnosticChoiceCatalog;

/// The seven domains in catalog order.
pub open spec fn catalog_domains() -> Seq<DiagnosticChoiceDomain> {
    seq![
        DiagnosticChoiceDomain::ContestConcede,
        DiagnosticChoiceDomain::FollowReject,
        DiagnosticChoiceDomain::FarmAssist,
        DiagnosticChoiceDomain::RecallTiming,
        DiagnosticChoiceDomain::Sacrifice,
        DiagnosticChoiceDomain::Surprise,
        DiagnosticChoiceDomain::ResponseToFailure,
    ]
}

impl DiagnosticChoiceCatalog {
    /// Return all registered canonical diagnostic choice definitions.
    pub fn all_choices() -> (r: [DiagnosticChoiceDefinition; 7])
        ensures
            r@.len() == 7,
            forall|i: int| 0 <= i < 7 ==> (#[trigger] r@[i])@ == choice_of_domain(catalog_domains()[i]),
    {
        let r = [
            DiagnosticChoiceDefinition::contest_concede_v1(),
            DiagnosticChoiceDefinition::follow_reject_v1(),
            DiagnosticChoiceDefinition::farm_assist_v1(),
            DiagnosticChoiceDefinition::recall_timing_v1(),
            DiagnosticChoiceDefinition::sacrifice_v1(),
            DiagnosticChoiceDefinition::surprise_v1(),
            DiagnosticChoiceDefinition::response_to_failure_v1(),
        ];
        assert forall|i: int| 0 <= i < 7 implies (#[trigger] r@[i])@ == choice_of_domain(
            catalog_domains()[i],
        ) by {
            if i == 0 {
            } else if i == 1 {
            } else if i == 2 {
            } else if i == 3 {
            } else if i == 4 {
            } else if i == 5 {
            } else {
            }
        }
        r
    }

    /// Lookup a diagnostic choice definition by its stable ID.
    pub fn lookup(choice_id: &str) -> (r: Option<DiagnosticChoiceDefinition>)
        ensures
            match r {
                Some(d) => choice_for_id(choice_id@) == Some(d@),
                None => choice_for_id(choice_id@) is None,
            },
    {
        if str_eq(choice_id, CHOICE_CONTEST_CONCEDE_ID) {
            Some(DiagnosticChoiceDefinition::contest_concede_v1())
        } else if str_eq(choice_id, CHOICE_FOLLOW_REJECT_ID) {
            Some(DiagnosticChoiceDefinition::follow_reject_v1())
        } else if str_eq(choice_id, CHOICE_FARM_ASSIST_ID) {
            Some(DiagnosticChoiceDefinition::farm_assist_v1())
        } else if str_eq(choice_id, CHOICE_RECALL_TIMING_ID) {
            Some(DiagnosticChoiceDefinition::recall_timing_v1())
        } else if str_eq(choice_id, CHOICE_SACRIFICE_ID) {
            Some(DiagnosticChoiceDefinition::sacrifice_v1())
        } else if str_eq(choice_id, CHOICE_SURPRISE_ID) {
            Some(DiagnosticChoiceDefinition::surprise_v1())
        } else if str_eq(choice_id, CHOICE_RESPONSE_TO_FAILURE_ID) {
            Some(DiagnosticChoiceDefinition::response_to_failure_v1())
        } else {
            None
        }
    }

    /// Validate that a choice ID exists in the catalog.
    pub fn validate_choice_id(choice_id: &str) -> (r: Result<
        DiagnosticChoiceDefinition,
        DiagnosticChoiceCatalogError,
    >)
        ensures
            match r {
                Ok(d) => choice_for_id(choice_id@) == Some(d@),
                Err(e) => choice_for_id(choice_id@) is None && e
                    == DiagnosticChoiceCatalogError::UnknownChoice,
            },
    {
        match Self::lookup(choice_id) {
            Some(d) => Ok(d),
            None => Err(DiagnosticChoiceCatalogError::UnknownChoice),
        }
    }

    /// Return the canonical choice definition for a given domain.
    pub fn choice_for_domain(domain: DiagnosticChoiceDomain) -> (r: DiagnosticChoiceDefinition)
        ensures
            r@ == choice_of_domain(domain),
    {
        match domain {
            DiagnosticChoiceDomain::ContestConcede => DiagnosticChoiceDefinition::contest_concede_v1(),
            DiagnosticChoiceDomain::FollowReject => DiagnosticChoiceDefinition::follow_reject_v1(),
            DiagnosticChoiceDomain::FarmAssist => DiagnosticChoiceDefinition::farm_assist_v1(),
            DiagnosticChoiceDomain::RecallTiming => DiagnosticChoiceDefinition::recall_timing_v1(),
            DiagnosticChoiceDomain::Sacrifice => DiagnosticChoiceDefinition::sacrifice_v1(),
            DiagnosticChoiceDomain::Surprise => DiagnosticChoiceDefinition::surprise_v1(),
            DiagnosticChoiceDomain::ResponseToFailure => {
                DiagnosticChoiceDefinition::response_to_failure_v1()
            },
        }
    }
}

/// Every catalog choice is found again under its own identity, and each
/// choice's primary and alternative intents differ.
pub proof fn lemma_choices_found_by_id(d: DiagnosticChoiceDomain)
    ensures
        choice_for_id(choice_of_domain(d).choice_id) == Some(choice_of_domain(d)),
        choice_of_domain(d).domain == d,
        choice_of_domain(d).primary_intent != choice_of_domain(d).alternative_intent,
{
    reveal_strlit("choice-contest-concede-v1");
    reveal_strlit("choice-follow-reject-v1");
    reveal_strlit("choice-farm-assist-v1");
    reveal_strlit("choice-recall-timing-v1");
    reveal_strlit("choice-sacrifice-v1");
    reveal_strlit("choice-surprise-v1");
    reveal_strlit("choice-response-to-failure-v1");
    assert("choice-contest-concede-v1"@[7] == 'c');
    assert("choice-contest-concede-v1"@[8] == 'o');
    assert("choice-contest-concede-v1"@[9] == 'n');
    assert("choice-follow-reject-v1"@[7] == 'f');
    assert("choice-follow-reject-v1"@[8] == 'o');
    assert("choice-follow-reject-v1"@[9] == 'l');
    assert("choice-farm-assist-v1"@[7] == 'f');
    assert("choice-farm-assist-v1"@[8] == 'a');
    assert("choice-farm-assist-v1"@[9] == 'r');
    assert("choice-recall-timing-v1"@[7] == 'r');
    assert("choice-recall-timing-v1"@[8] == 'e');
    assert("choice-recall-timing-v1"@[9] == 'c');
    assert("choice-sacrifice-v1"@[7] == 's');
    assert("choice-sacrifice-v1"@[8] == 'a');
    assert("choice-sacrifice-v1"@[9] == 'c');
    assert("choice-surprise-v1"@[7] == 's');
    assert("choice-surprise-v1"@[8] == 'u');
    assert("choice-surprise-v1"@[9] == 'r');
    assert("choice-response-to-failure-v1"@[7] == 'r');
    assert("choice-response-to-failure-v1"@[8] == 'e');
    assert("choice-response-to-failure-v1"@[9] == 's');
}

} // verus!
