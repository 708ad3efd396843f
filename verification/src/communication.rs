//! Team communication: speech acts, addressing, urgency, confidence,
//! conditions and visibility of messages; the message envelope and its
//! validation; the bounded dialogue state machine; and the catalogs of
//! reference envelopes and dialogues.

use vstd::prelude::*;
use crate::lane::{
    intent_label, optional_intent_name, role_label, LaneActorRole, LaneIntent,
};
use crate::text::{bool_text, decimal, push_bool, push_decimal, push_str, str_eq};

verus! {

/// Versioned schema for the team communication speech act catalog.
pub const TEAM_COMMUNICATION_SCHEMA: &'static str = "m8-team-communication-v1";

/// Versioned schema for the team speech act vocabulary.
pub const TEAM_SPEECH_ACT_SCHEMA: &'static str = "m8-team-speech-act-v1";

/// Versioned schema for the team message envelope.
pub const TEAM_MESSAGE_ENVELOPE_SCHEMA: &'static str = "m8-team-message-envelope-v1";

/// Versioned schema for the team dialogue session state machine.
pub const TEAM_DIALOGUE_SCHEMA: &'static str = "m8-team-dialogue-v1";

/// Maximum number of messages in one dialogue session.
pub const MAX_DIALOGUE_MESSAGES: usize = 8;

/// Maximum number of negotiation rounds before a dialogue must conclude.
pub const MAX_DIALOGUE_ROUNDS: u8 = 4;

/// Canonical speech acts for team communication and shot-calling.
#[derive(Clone, Copy, Debug, PartialEq, Eq, Hash, Structural)]
pub enum TeamSpeechAct {
    /// Proposes a strategic intent or cooperative tactical maneuver.
    Proposal,
    /// Requests or provides clarification on timing, target, or positioning.
    Clarification,
    /// Explicitly confirms or acknowledges agreement with an active plan.
    Confirmation,
    /// Explicitly dissents or communicates an inability or unwillingness to comply.
    Disagreement,
    /// Offers an alternative intent or contingency proposal.
    CounterProposal,
    /// Pledges support contingent on specific prerequisite conditions.
    ConditionalCommitment,
    /// Cancels a previously communicated proposal or commitment.
    Withdrawal,
    /// Reports an aborted attempt, execution breakdown, or loss of advantage.
    FailureReport,
}

/// Canonical label of a speech act.
pub open spec fn speech_act_label(x: TeamSpeechAct) -> Seq<char> {
    match x {
        TeamSpeechAct::Proposal => "proposal"@,
        TeamSpeechAct::Clarification => "clarification"@,
        TeamSpeechAct::Confirmation => "confirmation"@,
        TeamSpeechAct::Disagreement => "disagreement"@,
        TeamSpeechAct::CounterProposal => "counter-proposal"@,
        TeamSpeechAct::ConditionalCommitment => "conditional-commitment"@,
        TeamSpeechAct::Withdrawal => "withdrawal"@,
        TeamSpeechAct::FailureReport => "failure-report"@,
    }
}

/// The speech act a label spells, if any.
pub open spec fn speech_act_from_label(s: Seq<char>) -> Option<TeamSpeechAct> {
    if s == "proposal"@ {
        Some(TeamSpeechAct::Proposal)
    } else if s == "clarification"@ {
        Some(TeamSpeechAct::Clarification)
    } else if s == "confirmation"@ {
        Some(TeamSpeechAct::Confirmation)
    } else if s == "disagreement"@ {
        Some(TeamSpeechAct::Disagreement)
    } else if s == "counter-proposal"@ {
        Some(TeamSpeechAct::CounterProposal)
    } else if s == "conditional-commitment"@ {
        Some(TeamSpeechAct::ConditionalCommitment)
    } else if s == "withdrawal"@ {
        Some(TeamSpeechAct::Withdrawal)
    } else if s == "failure-report"@ {
        Some(TeamSpeechAct::FailureReport)
    } else {
        None
    }
}

impl TeamSpeechAct {
    /// Return the canonical label.
    pub fn as_str(self) -> (r: &'static str)
        ensures
            r@ == speech_act_label(self),
    {
        match self {
            Self::Proposal => "proposal",
            Self::Clarification => "clarification",
            Self::Confirmation => "confirmation",
            Self::Disagreement => "disagreement",
            Self::CounterProposal => "counter-proposal",
            Self::ConditionalCommitment => "conditional-commitment",
            Self::Withdrawal => "withdrawal",
            Self::FailureReport => "failure-report",
        }
    }

    /// Parse from a canonical label.
    pub fn parse(label: &str) -> (r: Option<Self>)
        ensures
            r == speech_act_from_label(label@),
    {
        if str_eq(label, "proposal") {
            Some(Self::Proposal)
        } else if str_eq(label, "clarification") {
            Some(Self::Clarification)
        } else if str_eq(label, "confirmation") {
            Some(Self::Confirmation)
        } else if str_eq(label, "disagreement") {
            Some(Self::Disagreement)
        } else if str_eq(label, "counter-proposal") {
            Some(Self::CounterProposal)
        } else if str_eq(label, "conditional-commitment") {
            Some(Self::ConditionalCommitment)
        } else if str_eq(label, "withdrawal") {
            Some(Self::Withdrawal)
        } else if str_eq(label, "failure-report") {
            Some(Self::FailureReport)
        } else {
            None
        }
    }

    /// All values in their stable order.
    pub fn all() -> (r: [Self; 8])
        ensures
            r@ == seq![Self::Proposal, Self::Clarification, Self::Confirmation, Self::Disagreement, Self::CounterProposal, Self::ConditionalCommitment, Self::Withdrawal, Self::FailureReport],
    {
        [Self::Proposal, Self::Clarification, Self::Confirmation, Self::Disagreement, Self::CounterProposal, Self::ConditionalCommitment, Self::Withdrawal, Self::FailureReport]
    }
}

/// Parsing the canonical label of a speech act gives it back.
pub proof fn lemma_speech_act_label_round_trip(x: TeamSpeechAct)
    ensures
        speech_act_from_label(speech_act_label(x)) == Some(x),
{
    reveal_strlit("proposal");
    reveal_strlit("clarification");
    reveal_strlit("confirmation");
    reveal_strlit("disagreement");
    reveal_strlit("counter-proposal");
    reveal_strlit("conditional-commitment");
    reveal_strlit("withdrawal");
    reveal_strlit("failure-report");
    assert("clarification"@.len() != "proposal"@.len());
    assert("confirmation"@.len() != "proposal"@.len());
    assert("confirmation"@.len() != "clarification"@.len());
    assert("disagreement"@.len() != "proposal"@.len());
    assert("disagreement"@.len() != "clarification"@.len());
    assert("disagreement"@[0] != "confirmation"@[0]);
    assert("counter-proposal"@.len() != "proposal"@.len());
    assert("counter-proposal"@.len() != "clarification"@.len());
    assert("counter-proposal"@.len() != "confirmation"@.len());
    assert("counter-proposal"@.len() != "disagreement"@.len());
    assert("conditional-commitment"@.len() != "proposal"@.len());
    assert("conditional-commitment"@.len() != "clarification"@.len());
    assert("conditional-commitment"@.len() != "confirmation"@.len());
    assert("conditional-commitment"@.len() != "disagreement"@.len());
    assert("conditional-commitment"@.len() != "counter-proposal"@.len());
    assert("withdrawal"@.len() != "proposal"@.len());
    assert("withdrawal"@.len() != "clarification"@.len());
    assert("withdrawal"@.len() != "confirmation"@.len());
    assert("withdrawal"@.len() != "disagreement"@.len());
    assert("withdrawal"@.len() != "counter-proposal"@.len());
    assert("withdrawal"@.len() != "conditional-commitment"@.len());
    assert("failure-report"@.len() != "proposal"@.len());
    assert("failure-report"@.len() != "clarification"@.len());
    assert("failure-report"@.len() != "confirmation"@.len());
    assert("failure-report"@.len() != "disagreement"@.len());
    assert("failure-report"@.len() != "counter-proposal"@.len());
    assert("failure-report"@.len() != "conditional-commitment"@.len());
    assert("failure-report"@.len() != "withdrawal"@.len());
}

/// Urgency level of a team communication.
#[derive(Clone, Copy, Debug, PartialEq, Eq, Hash, Structural)]
pub enum TeamMessageUrgency {
    /// Informational or exploratory coordination.
    Low,
    /// Standard operational pacing.
    Standard,
    /// High-priority emergency or immediate tactical execution.
    Critical,
}

/// Canonical label of an urgency level.
pub open spec fn urgency_label(x: TeamMessageUrgency) -> Seq<char> {
    match x {
        TeamMessageUrgency::Low => "low"@,
        TeamMessageUrgency::Standard => "standard"@,
        TeamMessageUrgency::Critical => "critical"@,
    }
}

/// The urgency level a label spells, if any.
pub open spec fn urgency_from_label(s: Seq<char>) -> Option<TeamMessageUrgency> {
    if s == "low"@ {
        Some(TeamMessageUrgency::Low)
    } else if s == "standard"@ {
        Some(TeamMessageUrgency::Standard)
    } else if s == "critical"@ {
        Some(TeamMessageUrgency::Critical)
    } else {
        None
    }
}

impl TeamMessageUrgency {
    /// Return the canonical label.
    pub fn as_str(self) -> (r: &'static str)
        ensures
            r@ == urgency_label(self),
    {
        match self {
            Self::Low => "low",
            Self::Standard => "standard",
            Self::Critical => "critical",
        }
    }

    /// Parse from a canonical label.
    pub fn parse(label: &str) -> (r: Option<Self>)
        ensures
            r == urgency_from_label(label@),
    {
        if str_eq(label, "low") {
            Some(Self::Low)
        } else if str_eq(label, "standard") {
            Some(Self::Standard)
        } else if str_eq(label, "critical") {
            Some(Self::Critical)
        } else {
            None
        }
    }

    /// All values in their stable order.
    pub fn all() -> (r: [Self; 3])
        ensures
            r@ == seq![Self::Low, Self::Standard, Self::Critical],
    {
        [Self::Low, Self::Standard, Self::Critical]
    }
}

/// Parsing the canonical label of an urgency level gives it back.
pub proof fn lemma_urgency_label_round_trip(x: TeamMessageUrgency)
    ensures
        urgency_from_label(urgency_label(x)) == Some(x),
{
    reveal_strlit("low");
    reveal_strlit("standard");
    reveal_strlit("critical");
    assert("standard"@.len() != "low"@.len());
    assert("critical"@.len() != "low"@.len());
    assert("critical"@[0] != "standard"@[0]);
}

/// Confidence rating of a communicative proposal or commitment.
#[derive(Clone, Copy, Debug, PartialEq, Eq, Hash, Structural)]
pub enum TeamConfidenceLevel {
    /// Tentative or exploratory recommendation.
    Tentative,
    /// Confident tactical recommendation.
    Confident,
    /// Definite command, firm commitment, or high-certainty directive.
    Definite,
}

/// Canonical label of a confidence level.
pub open spec fn confidence_label(x: TeamConfidenceLevel) -> Seq<char> {
    match x {
        TeamConfidenceLevel::Tentative => "tentative"@,
        TeamConfidenceLevel::Confident => "confident"@,
        TeamConfidenceLevel::Definite => "definite"@,
    }
}

/// The confidence level a label spells, if any.
pub open spec fn confidence_from_label(s: Seq<char>) -> Option<TeamConfidenceLevel> {
    if s == "tentative"@ {
        Some(TeamConfidenceLevel::Tentative)
    } else if s == "confident"@ {
        Some(TeamConfidenceLevel::Confident)
    } else if s == "definite"@ {
        Some(TeamConfidenceLevel::Definite)
    } else {
        None
    }
}

impl TeamConfidenceLevel {
    /// Return the canonical label.
    pub fn as_str(self) -> (r: &'static str)
        ensures
            r@ == confidence_label(self),
    {
        match self {
            Self::Tentative => "tentative",
            Self::Confident => "confident",
            Self::Definite => "definite",
        }
    }

    /// Parse from a canonical label.
    pub fn parse(label: &str) -> (r: Option<Self>)
        ensures
            r == confidence_from_label(label@),
    {
        if str_eq(label, "tentative") {
            Some(Self::Tentative)
        } else if str_eq(label, "confident") {
            Some(Self::Confident)
        } else if str_eq(label, "definite") {
            Some(Self::Definite)
        } else {
            None
        }
    }

    /// All values in their stable order.
    pub fn all() -> (r: [Self; 3])
        ensures
            r@ == seq![Self::Tentative, Self::Confident, Self::Definite],
    {
        [Self::Tentative, Self::Confident, Self::Definite]
    }
}

/// Parsing the canonical label of a confidence level gives it back.
pub proof fn lemma_confidence_label_round_trip(x: TeamConfidenceLevel)
    ensures
        confidence_from_label(confidence_label(x)) == Some(x),
{
    reveal_strlit("tentative");
    reveal_strlit("confident");
    reveal_strlit("definite");
    assert("confident"@[0] != "tentative"@[0]);
    assert("definite"@.len() != "tentative"@.len());
    assert("definite"@.len() != "confident"@.len());
}

/// Tactical conditions attached to proposals or commitments.
#[derive(Clone, Copy, Debug, PartialEq, Eq, Hash, Structural)]
pub enum TeamMessageCondition {
    /// Unconditional commitment or proposal.
    Unconditional,
    /// Contingent on health remaining above a safe threshold.
    HealthAboveThreshold,
    /// Contingent on the opposing jungle threat being absent.
    ThreatAbsent,
    /// Contingent on allied presence or arrival.
    AlliedPresence,
    /// Contingent on sufficient mana or resources.
    ResourceSufficient,
}

/// Canonical label of a condition.
pub open spec fn condition_label(x: TeamMessageCondition) -> Seq<char> {
    match x {
        TeamMessageCondition::Unconditional => "unconditional"@,
        TeamMessageCondition::HealthAboveThreshold => "health-above-threshold"@,
        TeamMessageCondition::ThreatAbsent => "threat-absent"@,
        TeamMessageCondition::AlliedPresence => "allied-presence"@,
        TeamMessageCondition::ResourceSufficient => "resource-sufficient"@,
    }
}

/// The condition a label spells, if any.
pub open spec fn condition_from_label(s: Seq<char>) -> Option<TeamMessageCondition> {
    if s == "unconditional"@ {
        Some(TeamMessageCondition::Unconditional)
    } else if s == "health-above-threshold"@ {
        Some(TeamMessageCondition::HealthAboveThreshold)
    } else if s == "threat-absent"@ {
        Some(TeamMessageCondition::ThreatAbsent)
    } else if s == "allied-presence"@ {
        Some(TeamMessageCondition::AlliedPresence)
    } else if s == "resource-sufficient"@ {
        Some(TeamMessageCondition::ResourceSufficient)
    } else {
        None
    }
}

impl TeamMessageCondition {
    /// Return the canonical label.
    pub fn as_str(self) -> (r: &'static str)
        ensures
            r@ == condition_label(self),
    {
        match self {
            Self::Unconditional => "unconditional",
            Self::HealthAboveThreshold => "health-above-threshold",
            Self::ThreatAbsent => "threat-absent",
            Self::AlliedPresence => "allied-presence",
            Self::ResourceSufficient => "resource-sufficient",
        }
    }

    /// Parse from a canonical label.
    pub fn parse(label: &str) -> (r: Option<Self>)
        ensures
            r == condition_from_label(label@),
    {
        if str_eq(label, "unconditional") {
            Some(Self::Unconditional)
        } else if str_eq(label, "health-above-threshold") {
            Some(Self::HealthAboveThreshold)
        } else if str_eq(label, "threat-absent") {
            Some(Self::ThreatAbsent)
        } else if str_eq(label, "allied-presence") {
            Some(Self::AlliedPresence)
        } else if str_eq(label, "resource-sufficient") {
            Some(Self::ResourceSufficient)
        } else {
            None
        }
    }

    /// All values in their stable order.
    pub fn all() -> (r: [Self; 5])
        ensures
            r@ == seq![Self::Unconditional, Self::HealthAboveThreshold, Self::ThreatAbsent, Self::AlliedPresence, Self::ResourceSufficient],
    {
        [Self::Unconditional, Self::HealthAboveThreshold, Self::ThreatAbsent, Self::AlliedPresence, Self::ResourceSufficient]
    }
}

/// Parsing the canonical label of a condition gives it back.
pub proof fn lemma_condition_label_round_trip(x: TeamMessageCondition)
    ensures
        condition_from_label(condition_label(x)) == Some(x),
{
    reveal_strlit("unconditional");
    reveal_strlit("health-above-threshold");
    reveal_strlit("threat-absent");
    reveal_strlit("allied-presence");
    reveal_strlit("resource-sufficient");
    assert("health-above-threshold"@.len() != "unconditional"@.len());
    assert("threat-absent"@[0] != "unconditional"@[0]);
    assert("threat-absent"@.len() != "health-above-threshold"@.len());
    assert("allied-presence"@.len() != "unconditional"@.len());
    assert("allied-presence"@.len() != "health-above-threshold"@.len());
    assert("allied-presence"@.len() != "threat-absent"@.len());
    assert("resource-sufficient"@.len() != "unconditional"@.len());
    assert("resource-sufficient"@.len() != "health-above-threshold"@.len());
    assert("resource-sufficient"@.len() != "threat-absent"@.len());
    assert("resource-sufficient"@.len() != "allied-presence"@.len());
}

/// Message visibility boundaries.
#[derive(Clone, Copy, Debug, PartialEq, Eq, Hash, Structural)]
pub enum TeamMessageVisibility {
    /// Visible to all members of the sender's team.
    TeamOnly,
    /// Visible only to the sender and the designated recipient.
    DirectOnly,
    /// Visible across team boundaries.
    Public,
}

/// Canonical label of a visibility mode.
pub open spec fn visibility_label(x: TeamMessageVisibility) -> Seq<char> {
    match x {
        TeamMessageVisibility::TeamOnly => "team-only"@,
        TeamMessageVisibility::DirectOnly => "direct-only"@,
        TeamMessageVisibility::Public => "public"@,
    }
}

/// The visibility mode a label spells, if any.
pub open spec fn visibility_from_label(s: Seq<char>) -> Option<TeamMessageVisibility> {
    if s == "team-only"@ {
        Some(TeamMessageVisibility::TeamOnly)
    } else if s == "direct-only"@ {
        Some(TeamMessageVisibility::DirectOnly)
    } else if s == "public"@ {
        Some(TeamMessageVisibility::Public)
    } else {
        None
    }
}

impl TeamMessageVisibility {
    /// Return the canonical label.
    pub fn as_str(self) -> (r: &'static str)
        ensures
            r@ == visibility_label(self),
    {
        match self {
            Self::TeamOnly => "team-only",
            Self::DirectOnly => "direct-only",
            Self::Public => "public",
        }
    }

    /// Parse from a canonical label.
    pub fn parse(label: &str) -> (r: Option<Self>)
        ensures
            r == visibility_from_label(label@),
    {
        if str_eq(label, "team-only") {
            Some(Self::TeamOnly)
        } else if str_eq(label, "direct-only") {
            Some(Self::DirectOnly)
        } else if str_eq(label, "public") {
            Some(Self::Public)
        } else {
            None
        }
    }
}

/// Parsing the canonical label of a visibility mode gives it back.
pub proof fn lemma_visibility_label_round_trip(x: TeamMessageVisibility)
    ensures
        visibility_from_label(visibility_label(x)) == Some(x),
{
    reveal_strlit("team-only");
    reveal_strlit("direct-only");
    reveal_strlit("public");
    assert("direct-only"@.len() != "team-only"@.len());
    assert("public"@.len() != "team-only"@.len());
    assert("public"@.len() != "direct-only"@.len());
}

/// Status of an active or concluded dialogue session.
#[derive(Clone, Copy, Debug, PartialEq, Eq, Hash, Structural)]
pub enum TeamDialogueStatus {
    /// Session is initialized and idle.
    Idle,
    /// A proposal is open and awaiting a response.
    Proposed,
    /// Clarification has been requested or provided.
    Clarifying,
    /// Counter-proposals or conditional commitments are under negotiation.
    Negotiating,
    /// Agreement reached.
    Agreed,
    /// Disagreement reached without counter-agreement.
    Diverged,
    /// Proposal or commitment withdrawn.
    Aborted,
    /// Execution breakdown or failure reported.
    Failed,
}

/// Canonical label of a dialogue status.
pub open spec fn dialogue_status_label(x: TeamDialogueStatus) -> Seq<char> {
    match x {
        TeamDialogueStatus::Idle => "idle"@,
        TeamDialogueStatus::Proposed => "proposed"@,
        TeamDialogueStatus::Clarifying => "clarifying"@,
        TeamDialogueStatus::Negotiating => "negotiating"@,
        TeamDialogueStatus::Agreed => "agreed"@,
        TeamDialogueStatus::Diverged => "diverged"@,
        TeamDialogueStatus::Aborted => "aborted"@,
        TeamDialogueStatus::Failed => "failed"@,
    }
}

/// The dialogue status a label spells, if any.
pub open spec fn dialogue_status_from_label(s: Seq<char>) -> Option<TeamDialogueStatus> {
    if s == "idle"@ {
        Some(TeamDialogueStatus::Idle)
    } else if s == "proposed"@ {
        Some(TeamDialogueStatus::Proposed)
    } else if s == "clarifying"@ {
        Some(TeamDialogueStatus::Clarifying)
    } else if s == "negotiating"@ {
        Some(TeamDialogueStatus::Negotiating)
    } else if s == "agreed"@ {
        Some(TeamDialogueStatus::Agreed)
    } else if s == "diverged"@ {
        Some(TeamDialogueStatus::Diverged)
    } else if s == "aborted"@ {
        Some(TeamDialogueStatus::Aborted)
    } else if s == "failed"@ {
        Some(TeamDialogueStatus::Failed)
    } else {
        None
    }
}

impl TeamDialogueStatus {
    /// Return the canonical label.
    pub fn as_str(self) -> (r: &'static str)
        ensures
            r@ == dialogue_status_label(self),
    {
        match self {
            Self::Idle => "idle",
            Self::Proposed => "proposed",
            Self::Clarifying => "clarifying",
            Self::Negotiating => "negotiating",
            Self::Agreed => "agreed",
            Self::Diverged => "diverged",
            Self::Aborted => "aborted",
            Self::Failed => "failed",
        }
    }

    /// Parse from a canonical label.
    pub fn parse(label: &str) -> (r: Option<Self>)
        ensures
            r == dialogue_status_from_label(label@),
    {
        if str_eq(label, "idle") {
            Some(Self::Idle)
        } else if str_eq(label, "proposed") {
            Some(Self::Proposed)
        } else if str_eq(label, "clarifying") {
            Some(Self::Clarifying)
        } else if str_eq(label, "negotiating") {
            Some(Self::Negotiating)
        } else if str_eq(label, "agreed") {
            Some(Self::Agreed)
        } else if str_eq(label, "diverged") {
            Some(Self::Diverged)
        } else if str_eq(label, "aborted") {
            Some(Self::Aborted)
        } else if str_eq(label, "failed") {
            Some(Self::Failed)
        } else {
            None
        }
    }

    /// All values in their stable order.
    pub fn all() -> (r: [Self; 8])
        ensures
            r@ == seq![Self::Idle, Self::Proposed, Self::Clarifying, Self::Negotiating, Self::Agreed, Self::Diverged, Self::Aborted, Self::Failed],
    {
        [Self::Idle, Self::Proposed, Self::Clarifying, Self::Negotiating, Self::Agreed, Self::Diverged, Self::Aborted, Self::Failed]
    }
}

/// Parsing the canonical label of a dialogue status gives it back.
pub proof fn lemma_dialogue_status_label_round_trip(x: TeamDialogueStatus)
    ensures
        dialogue_status_from_label(dialogue_status_label(x)) == Some(x),
{
    reveal_strlit("idle");
    reveal_strlit("proposed");
    reveal_strlit("clarifying");
    reveal_strlit("negotiating");
    reveal_strlit("agreed");
    reveal_strlit("diverged");
    reveal_strlit("aborted");
    reveal_strlit("failed");
    assert("proposed"@.len() != "idle"@.len());
    assert("clarifying"@.len() != "idle"@.len());
    assert("clarifying"@.len() != "proposed"@.len());
    assert("negotiating"@.len() != "idle"@.len());
    assert("negotiating"@.len() != "proposed"@.len());
    assert("negotiating"@.len() != "clarifying"@.len());
    assert("agreed"@.len() != "idle"@.len());
    assert("agreed"@.len() != "proposed"@.len());
    assert("agreed"@.len() != "clarifying"@.len());
    assert("agreed"@.len() != "negotiating"@.len());
    assert("diverged"@.len() != "idle"@.len());
    assert("diverged"@[0] != "proposed"@[0]);
    assert("diverged"@.len() != "clarifying"@.len());
    assert("diverged"@.len() != "negotiating"@.len());
    assert("diverged"@.len() != "agreed"@.len());
    assert("aborted"@.len() != "idle"@.len());
    assert("aborted"@.len() != "proposed"@.len());
    assert("aborted"@.len() != "clarifying"@.len());
    assert("aborted"@.len() != "negotiating"@.len());
    assert("aborted"@.len() != "agreed"@.len());
    assert("aborted"@.len() != "diverged"@.len());
    assert("failed"@.len() != "idle"@.len());
    assert("failed"@.len() != "proposed"@.len());
    assert("failed"@.len() != "clarifying"@.len());
    assert("failed"@.len() != "negotiating"@.len());
    assert("failed"@[0] != "agreed"@[0]);
    assert("failed"@.len() != "diverged"@.len());
    assert("failed"@.len() != "aborted"@.len());
}

/// Discrete causal reasons for disagreeing with a team proposal or call.
#[derive(Clone, Copy, Debug, PartialEq, Eq, Hash, Structural)]
pub enum TeamDissentReason {
    /// Health is too low for the proposed exposure.
    LowHealth,
    /// An opposing jungle or roaming threat is nearby.
    ThreatDetected,
    /// Insufficient mana or essential resources.
    ManaDeficit,
    /// An essential ability is on cooldown.
    CooldownActive,
    /// Prioritizing wave management, farming, or turret defense.
    AlternativeObjectivePriority,
    /// The action conflicts with the actor's posture or risk tolerance.
    PostureIncompatible,
}

/// Canonical label of a dissent reason.
pub open spec fn dissent_label(x: TeamDissentReason) -> Seq<char> {
    match x {
        TeamDissentReason::LowHealth => "low-health"@,
        TeamDissentReason::ThreatDetected => "threat-detected"@,
        TeamDissentReason::ManaDeficit => "mana-deficit"@,
        TeamDissentReason::CooldownActive => "cooldown-active"@,
        TeamDissentReason::AlternativeObjectivePriority => "alternative-objective-priority"@,
        TeamDissentReason::PostureIncompatible => "posture-incompatible"@,
    }
}

/// The dissent reason a label spells, if any.
pub open spec fn dissent_from_label(s: Seq<char>) -> Option<TeamDissentReason> {
    if s == "low-health"@ {
        Some(TeamDissentReason::LowHealth)
    } else if s == "threat-detected"@ {
        Some(TeamDissentReason::ThreatDetected)
    } else if s == "mana-deficit"@ {
        Some(TeamDissentReason::ManaDeficit)
    } else if s == "cooldown-active"@ {
        Some(TeamDissentReason::CooldownActive)
    } else if s == "alternative-objective-priority"@ {
        Some(TeamDissentReason::AlternativeObjectivePriority)
    } else if s == "posture-incompatible"@ {
        Some(TeamDissentReason::PostureIncompatible)
    } else {
        None
    }
}

impl TeamDissentReason {
    /// Return the canonical label.
    pub fn as_str(self) -> (r: &'static str)
        ensures
            r@ == dissent_label(self),
    {
        match self {
            Self::LowHealth => "low-health",
            Self::ThreatDetected => "threat-detected",
            Self::ManaDeficit => "mana-deficit",
            Self::CooldownActive => "cooldown-active",
            Self::AlternativeObjectivePriority => "alternative-objective-priority",
            Self::PostureIncompatible => "posture-incompatible",
        }
    }

    /// Parse from a canonical label.
    pub fn parse(label: &str) -> (r: Option<Self>)
        ensures
            r == dissent_from_label(label@),
    {
        if str_eq(label, "low-health") {
            Some(Self::LowHealth)
        } else if str_eq(label, "threat-detected") {
            Some(Self::ThreatDetected)
        } else if str_eq(label, "mana-deficit") {
            Some(Self::ManaDeficit)
        } else if str_eq(label, "cooldown-active") {
            Some(Self::CooldownActive)
        } else if str_eq(label, "alternative-objective-priority") {
            Some(Self::AlternativeObjectivePriority)
        } else if str_eq(label, "posture-incompatible") {
            Some(Self::PostureIncompatible)
        } else {
            None
        }
    }

    /// All values in their stable order.
    pub fn all() -> (r: [Self; 6])
        ensures
            r@ == seq![Self::LowHealth, Self::ThreatDetected, Self::ManaDeficit, Self::CooldownActive, Self::AlternativeObjectivePriority, Self::PostureIncompatible],
    {
        [Self::LowHealth, Self::ThreatDetected, Self::ManaDeficit, Self::CooldownActive, Self::AlternativeObjectivePriority, Self::PostureIncompatible]
    }
}

/// Parsing the canonical label of a dissent reason gives it back.
pub proof fn lemma_dissent_label_round_trip(x: TeamDissentReason)
    ensures
        dissent_from_label(dissent_label(x)) == Some(x),
{
    reveal_strlit("low-health");
    reveal_strlit("threat-detected");
    reveal_strlit("mana-deficit");
    reveal_strlit("cooldown-active");
    reveal_strlit("alternative-objective-priority");
    reveal_strlit("posture-incompatible");
    assert("threat-detected"@.len() != "low-health"@.len());
    assert("mana-deficit"@.len() != "low-health"@.len());
    assert("mana-deficit"@.len() != "threat-detected"@.len());
    assert("cooldown-active"@.len() != "low-health"@.len());
    assert("cooldown-active"@[0] != "threat-detected"@[0]);
    assert("cooldown-active"@.len() != "mana-deficit"@.len());
    assert("alternative-objective-priority"@.len() != "low-health"@.len());
    assert("alternative-objective-priority"@.len() != "threat-detected"@.len());
    assert("alternative-objective-priority"@.len() != "mana-deficit"@.len());
    assert("alternative-objective-priority"@.len() != "cooldown-active"@.len());
    assert("posture-incompatible"@.len() != "low-health"@.len());
    assert("posture-incompatible"@.len() != "threat-detected"@.len());
    assert("posture-incompatible"@.len() != "mana-deficit"@.len());
    assert("posture-incompatible"@.len() != "cooldown-active"@.len());
    assert("posture-incompatible"@.len() != "alternative-objective-priority"@.len());
}

/// Message addressing.
#[derive(Clone, Copy, Debug, PartialEq, Eq, Hash, Structural)]
pub enum TeamRecipient {
    /// Broadcast to all allied team members.
    Broadcast,
    /// Directed to one actor role.
    Direct(LaneActorRole),
}

/// Whether an actor is addressed by a recipient specification.
pub open spec fn recipient_matches(r: TeamRecipient, actor: LaneActorRole) -> bool {
    match r {
        TeamRecipient::Broadcast => true,
        TeamRecipient::Direct(target) => target == actor,
    }
}

/// Canonical label of a recipient specification.
pub open spec fn recipient_label(r: TeamRecipient) -> Seq<char> {
    match r {
        TeamRecipient::Broadcast => "broadcast"@,
        TeamRecipient::Direct(LaneActorRole::HumanLaner) => "direct:human-laner"@,
        TeamRecipient::Direct(LaneActorRole::OpposingLaner) => "direct:opposing-laner"@,
        TeamRecipient::Direct(LaneActorRole::AlliedAutonomous) => "direct:allied-autonomous"@,
        TeamRecipient::Direct(LaneActorRole::OpposingJungleThreat) => "direct:opposing-jungle-threat"@,
    }
}

/// The recipient specification a label spells, if any; `all` is read as a broadcast.
pub open spec fn recipient_from_label(s: Seq<char>) -> Option<TeamRecipient> {
    if s == "broadcast"@ || s == "all"@ {
        Some(TeamRecipient::Broadcast)
    } else if s == "direct:human-laner"@ {
        Some(TeamRecipient::Direct(LaneActorRole::HumanLaner))
    } else if s == "direct:opposing-laner"@ {
        Some(TeamRecipient::Direct(LaneActorRole::OpposingLaner))
    } else if s == "direct:allied-autonomous"@ {
        Some(TeamRecipient::Direct(LaneActorRole::AlliedAutonomous))
    } else if s == "direct:opposing-jungle-threat"@ {
        Some(TeamRecipient::Direct(LaneActorRole::OpposingJungleThreat))
    } else {
        None
    }
}

impl TeamRecipient {
    /// Whether the actor is the direct recipient, or the message is a broadcast.
    pub fn matches_recipient(self, actor: LaneActorRole) -> (r: bool)
        ensures
            r == recipient_matches(self, actor),
    {
        match self {
            Self::Broadcast => true,
            Self::Direct(target) => target == actor,
        }
    }

    /// Return the canonical label.
    pub fn as_str(self) -> (r: &'static str)
        ensures
            r@ == recipient_label(self),
    {
        match self {
            Self::Broadcast => "broadcast",
            Self::Direct(LaneActorRole::HumanLaner) => "direct:human-laner",
            Self::Direct(LaneActorRole::OpposingLaner) => "direct:opposing-laner",
            Self::Direct(LaneActorRole::AlliedAutonomous) => "direct:allied-autonomous",
            Self::Direct(LaneActorRole::OpposingJungleThreat) => "direct:opposing-jungle-threat",
        }
    }

    /// Parse from a canonical label.
    pub fn parse(label: &str) -> (r: Option<Self>)
        ensures
            r == recipient_from_label(label@),
    {
        if str_eq(label, "broadcast") || str_eq(label, "all") {
            Some(Self::Broadcast)
        } else if str_eq(label, "direct:human-laner") {
            Some(Self::Direct(LaneActorRole::HumanLaner))
        } else if str_eq(label, "direct:opposing-laner") {
            Some(Self::Direct(LaneActorRole::OpposingLaner))
        } else if str_eq(label, "direct:allied-autonomous") {
            Some(Self::Direct(LaneActorRole::AlliedAutonomous))
        } else if str_eq(label, "direct:opposing-jungle-threat") {
            Some(Self::Direct(LaneActorRole::OpposingJungleThreat))
        } else {
            None
        }
    }
}

/// Parsing the canonical label of a recipient specification gives it back.
pub proof fn lemma_recipient_label_round_trip(x: TeamRecipient)
    ensures
        recipient_from_label(recipient_label(x)) == Some(x),
{
    reveal_strlit("broadcast");
    reveal_strlit("all");
    reveal_strlit("direct:human-laner");
    reveal_strlit("direct:opposing-laner");
    reveal_strlit("direct:allied-autonomous");
    reveal_strlit("direct:opposing-jungle-threat");
    assert("broadcast"@.len() != "direct:human-laner"@.len());
    assert("broadcast"@.len() != "direct:opposing-laner"@.len());
    assert("broadcast"@.len() != "direct:allied-autonomous"@.len());
    assert("broadcast"@.len() != "direct:opposing-jungle-threat"@.len());
    assert("all"@.len() != "direct:human-laner"@.len());
    assert("all"@.len() != "direct:opposing-laner"@.len());
    assert("all"@.len() != "direct:allied-autonomous"@.len());
    assert("all"@.len() != "direct:opposing-jungle-threat"@.len());
    assert("direct:human-laner"@[7] != "direct:opposing-laner"@[7]);
    assert("direct:human-laner"@[7] != "direct:allied-autonomous"@[7]);
    assert("direct:human-laner"@[7] != "direct:opposing-jungle-threat"@[7]);
    assert("direct:opposing-laner"@[7] != "direct:allied-autonomous"@[7]);
    assert("direct:opposing-laner"@.len() != "direct:opposing-jungle-threat"@.len());
    assert("direct:allied-autonomous"@[7] != "direct:opposing-jungle-threat"@[7]);
}

/// Whether a message of a visibility mode is seen by a viewer.
pub open spec fn visible_to(
    visibility: TeamMessageVisibility,
    viewer: LaneActorRole,
    sender: LaneActorRole,
    recipient: TeamRecipient,
    is_same_team: bool,
) -> bool {
    match visibility {
        TeamMessageVisibility::Public => true,
        TeamMessageVisibility::TeamOnly => is_same_team,
        TeamMessageVisibility::DirectOnly => viewer == sender || recipient_matches(recipient, viewer),
    }
}

impl TeamMessageVisibility {
    /// Whether a message with this visibility is seen by the viewer.
    pub fn is_visible_to(
        self,
        viewer: LaneActorRole,
        sender: LaneActorRole,
        recipient: TeamRecipient,
        is_same_team: bool,
    ) -> (r: bool)
        ensures
            r == visible_to(self, viewer, sender, recipient, is_same_team),
            self is Public ==> r,
    {
        match self {
            Self::Public => true,
            Self::TeamOnly => is_same_team,
            Self::DirectOnly => viewer == sender || recipient.matches_recipient(viewer),
        }
    }
}

/// A public message is seen by every viewer, whatever the viewer, the
/// sender, the recipient and whether the viewer is on the sender's team; it is
/// the widest mode, seen by everyone who sees a message of any mode. A
/// team-only message is seen by exactly the viewers on the sender's team.
pub proof fn lemma_public_messages_cross_team_boundaries(
    visibility: TeamMessageVisibility,
    viewer: LaneActorRole,
    sender: LaneActorRole,
    recipient: TeamRecipient,
    is_same_team: bool,
)
    ensures
        visible_to(TeamMessageVisibility::Public, viewer, sender, recipient, is_same_team),
        visible_to(TeamMessageVisibility::Public, viewer, sender, recipient, false),
        visible_to(visibility, viewer, sender, recipient, is_same_team) ==> visible_to(
            TeamMessageVisibility::Public,
            viewer,
            sender,
            recipient,
            is_same_team,
        ),
        visible_to(TeamMessageVisibility::TeamOnly, viewer, sender, recipient, is_same_team)
            == is_same_team,
{
}

/// Whether a dialogue status is a concluded state.
pub open spec fn status_is_terminal(s: TeamDialogueStatus) -> bool {
    s is Agreed || s is Diverged || s is Aborted || s is Failed
}

impl TeamDialogueStatus {
    /// Whether this status is a concluded state.
    pub fn is_terminal(self) -> (r: bool)
        ensures
            r == status_is_terminal(self),
    {
        match self {
            Self::Agreed | Self::Diverged | Self::Aborted | Self::Failed => true,
            _ => false,
        }
    }
}

/// Whether a message condition holds for the actor-visible state.
pub open spec fn condition_holds(
    condition: TeamMessageCondition,
    laner_health: u8,
    threat_present: bool,
    allied_present: bool,
    laner_mana: u8,
) -> bool {
    match condition {
        TeamMessageCondition::Unconditional => true,
        TeamMessageCondition::HealthAboveThreshold => laner_health >= 3,
        TeamMessageCondition::ThreatAbsent => !threat_present,
        TeamMessageCondition::AlliedPresence => allied_present,
        TeamMessageCondition::ResourceSufficient => laner_mana >= 2,
    }
}

/// Checks prerequisite conditions against actor-visible context.
pub struct TeamConditionEvaluator;

impl TeamConditionEvaluator {
    /// Whether a prerequisite message condition is currently satisfied.
    pub fn is_condition_satisfied(
        condition: TeamMessageCondition,
        laner_health: u8,
        threat_present: bool,
        allied_present: bool,
        laner_mana: u8,
    ) -> (r: bool)
        ensures
            r == condition_holds(condition, laner_health, threat_present, allied_present, laner_mana),
    {
        match condition {
            TeamMessageCondition::Unconditional => true,
            TeamMessageCondition::HealthAboveThreshold => laner_health >= 3,
            TeamMessageCondition::ThreatAbsent => !threat_present,
            TeamMessageCondition::AlliedPresence => allied_present,
            TeamMessageCondition::ResourceSufficient => laner_mana >= 2,
        }
    }
}

/// Postures for answering incoming speech acts.
#[derive(Clone, Copy, Debug, PartialEq, Eq, Hash, Structural)]
pub enum TeamSpeechActProfile {
    /// Defensive: prefers to stabilize and dissents under threat or low health.
    Cautious,
    /// Aggressive: prefers to contest and counters passive calls.
    RiskTaking,
    /// Deferential: follows proposals unless in critical danger.
    Yielding,
}

/// Answer to an incoming speech act.
#[derive(Clone, Copy, Debug, PartialEq, Eq, Hash, Structural)]
pub enum TeamEvaluationOutcome {
    /// Confirm the proposed intent.
    Accept(LaneIntent),
    /// Dissent for a reason.
    Dissent(TeamDissentReason),
    /// Counter-propose another intent.
    Counter(LaneIntent),
    /// Commit to an intent under a condition.
    Conditional(LaneIntent, TeamMessageCondition),
    /// Provide or acknowledge clarification.
    Clarify,
    /// Acknowledge a withdrawal.
    Withdraw,
    /// Acknowledge a failure report.
    Failure,
}

/// How a posture answers a proposal, given the actor-visible state.
pub open spec fn proposal_outcome(
    profile: TeamSpeechActProfile,
    proposed_intent: LaneIntent,
    laner_health: u8,
    threat_present: bool,
    wave_pressure: u8,
    laner_mana: u8,
) -> TeamEvaluationOutcome {
    match profile {
        TeamSpeechActProfile::Cautious => if threat_present {
            TeamEvaluationOutcome::Dissent(TeamDissentReason::ThreatDetected)
        } else if laner_health <= 2 {
            TeamEvaluationOutcome::Dissent(TeamDissentReason::LowHealth)
        } else if proposed_intent == LaneIntent::Contest && wave_pressure <= 1 {
            TeamEvaluationOutcome::Counter(LaneIntent::Stabilize)
        } else if proposed_intent == LaneIntent::Contest {
            TeamEvaluationOutcome::Conditional(LaneIntent::Contest, TeamMessageCondition::ThreatAbsent)
        } else {
            TeamEvaluationOutcome::Accept(proposed_intent)
        },
        TeamSpeechActProfile::RiskTaking => if proposed_intent == LaneIntent::Stabilize
            && laner_health >= 4 && laner_mana >= 2 && !threat_present {
            TeamEvaluationOutcome::Counter(LaneIntent::Contest)
        } else if laner_health <= 1 {
            TeamEvaluationOutcome::Dissent(TeamDissentReason::LowHealth)
        } else {
            TeamEvaluationOutcome::Accept(proposed_intent)
        },
        TeamSpeechActProfile::Yielding => if laner_health <= 1 {
            TeamEvaluationOutcome::Dissent(TeamDissentReason::LowHealth)
        } else if threat_present && proposed_intent == LaneIntent::Contest {
            TeamEvaluationOutcome::Conditional(LaneIntent::Contest, TeamMessageCondition::AlliedPresence)
        } else {
            TeamEvaluationOutcome::Accept(proposed_intent)
        },
    }
}

/// No posture counter-proposes while a threat is in sight. A risk-taker
/// facing a threat accepts the proposal as made unless its health is critical
/// (one or less), when it dissents for low health; its only counter is to
/// contest a stabilize proposal, and only with health at least four, mana at
/// least two and no threat present.
pub proof fn lemma_no_counter_under_threat(
    profile: TeamSpeechActProfile,
    proposed_intent: LaneIntent,
    laner_health: u8,
    threat_present: bool,
    wave_pressure: u8,
    laner_mana: u8,
)
    ensures
        !(proposal_outcome(profile, proposed_intent, laner_health, true, wave_pressure, laner_mana) is Counter),
        laner_health > 1 ==> proposal_outcome(
            TeamSpeechActProfile::RiskTaking,
            proposed_intent,
            laner_health,
            true,
            wave_pressure,
            laner_mana,
        ) == TeamEvaluationOutcome::Accept(proposed_intent),
        laner_health <= 1 ==> proposal_outcome(
            TeamSpeechActProfile::RiskTaking,
            proposed_intent,
            laner_health,
            true,
            wave_pressure,
            laner_mana,
        ) == TeamEvaluationOutcome::Dissent(TeamDissentReason::LowHealth),
        (proposal_outcome(
            TeamSpeechActProfile::RiskTaking,
            proposed_intent,
            laner_health,
            threat_present,
            wave_pressure,
            laner_mana,
        ) is Counter) <==> (proposed_intent == LaneIntent::Stabilize && laner_health >= 4
            && laner_mana >= 2 && !threat_present),
        proposal_outcome(
            TeamSpeechActProfile::RiskTaking,
            proposed_intent,
            laner_health,
            threat_present,
            wave_pressure,
            laner_mana,
        ) is Counter ==> proposal_outcome(
            TeamSpeechActProfile::RiskTaking,
            proposed_intent,
            laner_health,
            threat_present,
            wave_pressure,
            laner_mana,
        ) == TeamEvaluationOutcome::Counter(LaneIntent::Contest),
{
}

impl TeamSpeechActProfile {
    /// Answer an incoming proposal against the actor-visible state.
    pub fn evaluate_proposal(
        self,
        proposed_intent: LaneIntent,
        laner_health: u8,
        threat_present: bool,
        wave_pressure: u8,
        laner_mana: u8,
    ) -> (r: TeamEvaluationOutcome)
        ensures
            r == proposal_outcome(
                self,
                proposed_intent,
                laner_health,
                threat_present,
                wave_pressure,
                laner_mana,
            ),
            threat_present ==> !(r is Counter),
    {
        match self {
            Self::Cautious => {
                if threat_present {
                    TeamEvaluationOutcome::Dissent(TeamDissentReason::ThreatDetected)
                } else if laner_health <= 2 {
                    TeamEvaluationOutcome::Dissent(TeamDissentReason::LowHealth)
                } else if proposed_intent == LaneIntent::Contest && wave_pressure <= 1 {
                    TeamEvaluationOutcome::Counter(LaneIntent::Stabilize)
                } else if proposed_intent == LaneIntent::Contest {
                    TeamEvaluationOutcome::Conditional(
                        LaneIntent::Contest,
                        TeamMessageCondition::ThreatAbsent,
                    )
                } else {
                    TeamEvaluationOutcome::Accept(proposed_intent)
                }
            },
            Self::RiskTaking => {
                if proposed_intent == LaneIntent::Stabilize && laner_health >= 4 && laner_mana >= 2
                    && !threat_present {
                    TeamEvaluationOutcome::Counter(LaneIntent::Contest)
                } else if laner_health <= 1 {
                    TeamEvaluationOutcome::Dissent(TeamDissentReason::LowHealth)
                } else {
                    TeamEvaluationOutcome::Accept(proposed_intent)
                }
            },
            Self::Yielding => {
                if laner_health <= 1 {
                    TeamEvaluationOutcome::Dissent(TeamDissentReason::LowHealth)
                } else if threat_present && proposed_intent == LaneIntent::Contest {
                    TeamEvaluationOutcome::Conditional(
                        LaneIntent::Contest,
                        TeamMessageCondition::AlliedPresence,
                    )
                } else {
                    TeamEvaluationOutcome::Accept(proposed_intent)
                }
            },
        }
    }
}

/// Errors raised during team communication validation and lookup.
#[derive(Clone, Copy, Debug, PartialEq, Eq, Hash, Structural)]
pub enum TeamCommunicationError {
    /// Private chain-of-thought is forbidden in envelopes.
    ChainOfThoughtForbidden,
    /// The message identity is empty.
    EmptyMessageId,
    /// The schema identity is not the envelope schema.
    InvalidSchema,
    /// The direct recipient is the sender.
    SelfAddressingForbidden,
    /// No canonical envelope has this identity.
    UnknownEnvelopeId,
    /// The speech act is not allowed in the dialogue's current status.
    InvalidTransition,
    /// The dialogue used all its negotiation rounds.
    MaxRoundsExceeded,
    /// The dialogue holds as many messages as it may.
    MaxHistoryExceeded,
    /// The dialogue is concluded.
    SessionAlreadyClosed,
    /// The sender or recipient is not a participant of the dialogue.
    ActorMismatch,
    /// No canonical dialogue has this identity.
    UnknownDialogueId,
}

/// A structured team message.
#[derive(Clone, Copy, Debug, PartialEq, Eq, Hash)]
pub struct TeamMessageEnvelope {
    schema: &'static str,
    message_id: &'static str,
    sender: LaneActorRole,
    recipient: TeamRecipient,
    speech_act: TeamSpeechAct,
    proposed_intent: Option<LaneIntent>,
    urgency: TeamMessageUrgency,
    confidence: TeamConfidenceLevel,
    condition: TeamMessageCondition,
    visibility: TeamMessageVisibility,
    turn: u32,
    content_summary: &'static str,
    chain_of_thought_present: bool,
}

/// The content of a message.
pub struct EnvelopeView {
    pub schema: Seq<char>,
    pub message_id: Seq<char>,
    pub sender: LaneActorRole,
    pub recipient: TeamRecipient,
    pub speech_act: TeamSpeechAct,
    pub proposed_intent: Option<LaneIntent>,
    pub urgency: TeamMessageUrgency,
    pub confidence: TeamConfidenceLevel,
    pub condition: TeamMessageCondition,
    pub visibility: TeamMessageVisibility,
    pub turn: u32,
    pub content_summary: Seq<char>,
    pub chain_of_thought_present: bool,
}

impl View for TeamMessageEnvelope {
    type V = EnvelopeView;

    closed spec fn view(&self) -> EnvelopeView {
        EnvelopeView {
            schema: self.schema@,
            message_id: self.message_id@,
            sender: self.sender,
            recipient: self.recipient,
            speech_act: self.speech_act,
            proposed_intent: self.proposed_intent,
            urgency: self.urgency,
            confidence: self.confidence,
            condition: self.condition,
            visibility: self.visibility,
            turn: self.turn,
            content_summary: self.content_summary@,
            chain_of_thought_present: self.chain_of_thought_present,
        }
    }
}

/// The content of a message built from its parts, flagged for chain-of-thought as given.
pub open spec fn envelope_of(
    message_id: Seq<char>,
    sender: LaneActorRole,
    recipient: TeamRecipient,
    speech_act: TeamSpeechAct,
    proposed_intent: Option<LaneIntent>,
    urgency: TeamMessageUrgency,
    confidence: TeamConfidenceLevel,
    condition: TeamMessageCondition,
    visibility: TeamMessageVisibility,
    turn: u32,
    content_summary: Seq<char>,
    chain_of_thought_present: bool,
) -> EnvelopeView {
    EnvelopeView {
        schema: TEAM_MESSAGE_ENVELOPE_SCHEMA@,
        message_id,
        sender,
        recipient,
        speech_act,
        proposed_intent,
        urgency,
        confidence,
        condition,
        visibility,
        turn,
        content_summary,
        chain_of_thought_present,
    }
}

/// Why a message is refused, if it is.
pub open spec fn envelope_check(v: EnvelopeView) -> Result<(), TeamCommunicationError> {
    if v.chain_of_thought_present {
        Err(TeamCommunicationError::ChainOfThoughtForbidden)
    } else if v.message_id.len() == 0 {
        Err(TeamCommunicationError::EmptyMessageId)
    } else if v.schema != TEAM_MESSAGE_ENVELOPE_SCHEMA@ {
        Err(TeamCommunicationError::InvalidSchema)
    } else if v.recipient == TeamRecipient::Direct(v.sender) {
        Err(TeamCommunicationError::SelfAddressingForbidden)
    } else {
        Ok(())
    }
}

/// The label of an optional intent, or `none`.
pub open spec fn intent_or_none(i: Option<LaneIntent>) -> Seq<char> {
    match i {
        Some(x) => intent_label(x),
        None => "none"@,
    }
}

/// The Markdown summary of a message.
pub open spec fn envelope_markdown(v: EnvelopeView) -> Seq<char> {
    "### Message `"@ + v.message_id + "`\n- **Sender:** "@ + role_label(v.sender)
        + "\n- **Recipient:** "@ + recipient_label(v.recipient) + "\n- **Speech Act:** "@
        + speech_act_label(v.speech_act) + "\n- **Proposed Intent:** "@ + intent_or_none(
        v.proposed_intent,
    ) + "\n- **Urgency:** "@ + urgency_label(v.urgency) + "\n- **Confidence:** "@ + confidence_label(
        v.confidence,
    ) + "\n- **Condition:** "@ + condition_label(v.condition) + "\n- **Visibility:** "@
        + visibility_label(v.visibility) + "\n- **Turn:** "@ + decimal(v.turn as nat)
        + "\n- **Summary:** "@ + v.content_summary + "\n- **Chain-of-Thought Free:** "@ + bool_text(
        !v.chain_of_thought_present,
    ) + "\n"@
}

/// Append the label of an optional intent, or `none`.
fn push_intent_or_none(out: &mut String, i: Option<LaneIntent>)
    ensures
        final(out)@ == old(out)@ + intent_or_none(i),
{
    match i {
        Some(x) => push_str(out, x.as_str()),
        None => push_str(out, "none"),
    }
}

impl TeamMessageEnvelope {
    /// A message free of chain-of-thought, under the envelope schema.
    pub fn new(
        message_id: &'static str,
        sender: LaneActorRole,
        recipient: TeamRecipient,
        speech_act: TeamSpeechAct,
        proposed_intent: Option<LaneIntent>,
        urgency: TeamMessageUrgency,
        confidence: TeamConfidenceLevel,
        condition: TeamMessageCondition,
        visibility: TeamMessageVisibility,
        turn: u32,
        content_summary: &'static str,
    ) -> (r: Self)
        ensures
            r@ == envelope_of(
                message_id@,
                sender,
                recipient,
                speech_act,
                proposed_intent,
                urgency,
                confidence,
                condition,
                visibility,
                turn,
                content_summary@,
                false,
            ),
    {
        TeamMessageEnvelope {
            schema: TEAM_MESSAGE_ENVELOPE_SCHEMA,
            message_id,
            sender,
            recipient,
            speech_act,
            proposed_intent,
            urgency,
            confidence,
            condition,
            visibility,
            turn,
            content_summary,
            chain_of_thought_present: false,
        }
    }

    /// A message carrying the given chain-of-thought flag, to exercise its refusal.
    pub fn with_chain_of_thought_flag(
        message_id: &'static str,
        sender: LaneActorRole,
        recipient: TeamRecipient,
        speech_act: TeamSpeechAct,
        proposed_intent: Option<LaneIntent>,
        urgency: TeamMessageUrgency,
        confidence: TeamConfidenceLevel,
        condition: TeamMessageCondition,
        visibility: TeamMessageVisibility,
        turn: u32,
        content_summary: &'static str,
        chain_of_thought_present: bool,
    ) -> (r: Self)
        ensures
            r@ == envelope_of(
                message_id@,
                sender,
                recipient,
                speech_act,
                proposed_intent,
                urgency,
                confidence,
                condition,
                visibility,
                turn,
                content_summary@,
                chain_of_thought_present,
            ),
    {
        TeamMessageEnvelope {
            schema: TEAM_MESSAGE_ENVELOPE_SCHEMA,
            message_id,
            sender,
            recipient,
            speech_act,
            proposed_intent,
            urgency,
            confidence,
            condition,
            visibility,
            turn,
            content_summary,
            chain_of_thought_present,
        }
    }

    pub fn schema(self) -> (r: &'static str)
        ensures
            r@ == self@.schema,
    {
        self.schema
    }

    pub fn message_id(self) -> (r: &'static str)
        ensures
            r@ == self@.message_id,
    {
        self.message_id
    }

    pub fn sender(self) -> (r: LaneActorRole)
        ensures
            r == self@.sender,
    {
        self.sender
    }

    pub fn recipient(self) -> (r: TeamRecipient)
        ensures
            r == self@.recipient,
    {
        self.recipient
    }

    pub fn speech_act(self) -> (r: TeamSpeechAct)
        ensures
            r == self@.speech_act,
    {
        self.speech_act
    }

    pub fn proposed_intent(self) -> (r: Option<LaneIntent>)
        ensures
            r == self@.proposed_intent,
    {
        self.proposed_intent
    }

    pub fn urgency(self) -> (r: TeamMessageUrgency)
        ensures
            r == self@.urgency,
    {
        self.urgency
    }

    pub fn confidence(self) -> (r: TeamConfidenceLevel)
        ensures
            r == self@.confidence,
    {
        self.confidence
    }

    pub fn condition(self) -> (r: TeamMessageCondition)
        ensures
            r == self@.condition,
    {
        self.condition
    }

    pub fn visibility(self) -> (r: TeamMessageVisibility)
        ensures
            r == self@.visibility,
    {
        self.visibility
    }

    pub fn turn(self) -> (r: u32)
        ensures
            r == self@.turn,
    {
        self.turn
    }

    pub fn content_summary(self) -> (r: &'static str)
        ensures
            r@ == self@.content_summary,
    {
        self.content_summary
    }

    pub fn chain_of_thought_present(self) -> (r: bool)
        ensures
            r == self@.chain_of_thought_present,
    {
        self.chain_of_thought_present
    }

    /// Refuse a message carrying chain-of-thought, an empty identity, a foreign
    /// schema, or addressed directly to its own sender.
    pub fn validate(self) -> (r: Result<(), TeamCommunicationError>)
        ensures
            r == envelope_check(self@),
    {
        if self.chain_of_thought_present {
            return Err(TeamCommunicationError::ChainOfThoughtForbidden);
        }
        if self.message_id.unicode_len() == 0 {
            return Err(TeamCommunicationError::EmptyMessageId);
        }
        if !str_eq(self.schema, TEAM_MESSAGE_ENVELOPE_SCHEMA) {
            return Err(TeamCommunicationError::InvalidSchema);
        }
        match self.recipient {
            TeamRecipient::Direct(target) => {
                if target == self.sender {
                    return Err(TeamCommunicationError::SelfAddressingForbidden);
                }
            },
            TeamRecipient::Broadcast => {},
        }
        Ok(())
    }

    /// Whether the viewer sees this message.
    pub fn is_visible_to(self, viewer: LaneActorRole, is_same_team: bool) -> (r: bool)
        ensures
            r == visible_to(self@.visibility, viewer, self@.sender, self@.recipient, is_same_team),
    {
        self.visibility.is_visible_to(viewer, self.sender, self.recipient, is_same_team)
    }

    /// The Markdown summary of this message.
    pub fn format_markdown(&self) -> (r: String)
        ensures
            r@ == envelope_markdown(self@),
    {
        let mut out = String::new();
        push_str(&mut out, "### Message `");
        push_str(&mut out, self.message_id);
        push_str(&mut out, "`\n- **Sender:** ");
        push_str(&mut out, self.sender.as_str());
        push_str(&mut out, "\n- **Recipient:** ");
        push_str(&mut out, self.recipient.as_str());
        push_str(&mut out, "\n- **Speech Act:** ");
        push_str(&mut out, self.speech_act.as_str());
        push_str(&mut out, "\n- **Proposed Intent:** ");
        push_intent_or_none(&mut out, self.proposed_intent);
        push_str(&mut out, "\n- **Urgency:** ");
        push_str(&mut out, self.urgency.as_str());
        push_str(&mut out, "\n- **Confidence:** ");
        push_str(&mut out, self.confidence.as_str());
        push_str(&mut out, "\n- **Condition:** ");
        push_str(&mut out, self.condition.as_str());
        push_str(&mut out, "\n- **Visibility:** ");
        push_str(&mut out, self.visibility.as_str());
        push_str(&mut out, "\n- **Turn:** ");
        push_decimal(&mut out, self.turn as u64);
        push_str(&mut out, "\n- **Summary:** ");
        push_str(&mut out, self.content_summary);
        push_str(&mut out, "\n- **Chain-of-Thought Free:** ");
        push_bool(&mut out, !self.chain_of_thought_present);
        push_str(&mut out, "\n");
        out
    }
}

/// A bounded dialogue between two participants.
#[derive(Debug, PartialEq, Eq)]
pub struct TeamDialogueSession {
    schema: &'static str,
    session_id: &'static str,
    initiator: LaneActorRole,
    responder: LaneActorRole,
    turn: u32,
    status: TeamDialogueStatus,
    active_intent: Option<LaneIntent>,
    active_condition: TeamMessageCondition,
    round: u8,
    history: Vec<TeamMessageEnvelope>,
}

/// The content of a dialogue.
pub struct DialogueView {
    pub session_id: Seq<char>,
    pub initiator: LaneActorRole,
    pub responder: LaneActorRole,
    pub turn: u32,
    pub status: TeamDialogueStatus,
    pub active_intent: Option<LaneIntent>,
    pub active_condition: TeamMessageCondition,
    pub round: nat,
    pub history: Seq<EnvelopeView>,
}

/// The contents of a list of messages.
pub open spec fn envelope_views(v: Seq<TeamMessageEnvelope>) -> Seq<EnvelopeView> {
    v.map_values(|e: TeamMessageEnvelope| e@)
}

impl View for TeamDialogueSession {
    type V = DialogueView;

    closed spec fn view(&self) -> DialogueView {
        DialogueView {
            session_id: self.session_id@,
            initiator: self.initiator,
            responder: self.responder,
            turn: self.turn,
            status: self.status,
            active_intent: self.active_intent,
            active_condition: self.active_condition,
            round: self.round as nat,
            history: envelope_views(self.history@),
        }
    }
}

/// Whether a dialogue is within its bounds: at most the allowed rounds and messages.
pub open spec fn dialogue_within_bounds(v: DialogueView) -> bool {
    v.round <= MAX_DIALOGUE_ROUNDS && v.history.len() <= MAX_DIALOGUE_MESSAGES
}

/// A dialogue before any message.
pub open spec fn dialogue_start(
    session_id: Seq<char>,
    initiator: LaneActorRole,
    responder: LaneActorRole,
    turn: u32,
) -> DialogueView {
    DialogueView {
        session_id,
        initiator,
        responder,
        turn,
        status: TeamDialogueStatus::Idle,
        active_intent: None,
        active_condition: TeamMessageCondition::Unconditional,
        round: 0,
        history: Seq::empty(),
    }
}

/// How a speech act moves a dialogue out of a status: the next status, whether
/// the message's intent and condition become the active ones, and whether it
/// uses a negotiation round.
pub open spec fn dialogue_transition(
    status: TeamDialogueStatus,
    act: TeamSpeechAct,
    round: nat,
) -> Result<(TeamDialogueStatus, bool, bool), TeamCommunicationError> {
    let negotiate = if round >= MAX_DIALOGUE_ROUNDS {
        Err(TeamCommunicationError::MaxRoundsExceeded)
    } else {
        Ok((TeamDialogueStatus::Negotiating, true, true))
    };
    match status {
        TeamDialogueStatus::Idle => match act {
            TeamSpeechAct::Proposal => Ok((TeamDialogueStatus::Proposed, true, false)),
            TeamSpeechAct::Clarification => Ok((TeamDialogueStatus::Clarifying, false, false)),
            _ => Err(TeamCommunicationError::InvalidTransition),
        },
        TeamDialogueStatus::Proposed => match act {
            TeamSpeechAct::Confirmation => Ok((TeamDialogueStatus::Agreed, false, false)),
            TeamSpeechAct::Disagreement => Ok((TeamDialogueStatus::Diverged, false, false)),
            TeamSpeechAct::CounterProposal => negotiate,
            TeamSpeechAct::ConditionalCommitment => negotiate,
            TeamSpeechAct::Clarification => Ok((TeamDialogueStatus::Clarifying, false, false)),
            TeamSpeechAct::Withdrawal => Ok((TeamDialogueStatus::Aborted, false, false)),
            TeamSpeechAct::FailureReport => Ok((TeamDialogueStatus::Failed, false, false)),
            TeamSpeechAct::Proposal => Err(TeamCommunicationError::InvalidTransition),
        },
        TeamDialogueStatus::Clarifying => match act {
            TeamSpeechAct::Proposal => Ok((TeamDialogueStatus::Proposed, true, false)),
            TeamSpeechAct::CounterProposal => negotiate,
            TeamSpeechAct::ConditionalCommitment => negotiate,
            TeamSpeechAct::Confirmation => Ok((TeamDialogueStatus::Agreed, false, false)),
            TeamSpeechAct::Disagreement => Ok((TeamDialogueStatus::Diverged, false, false)),
            TeamSpeechAct::Withdrawal => Ok((TeamDialogueStatus::Aborted, false, false)),
            TeamSpeechAct::FailureReport => Ok((TeamDialogueStatus::Failed, false, false)),
            TeamSpeechAct::Clarification => Ok((TeamDialogueStatus::Clarifying, false, false)),
        },
        TeamDialogueStatus::Negotiating => match act {
            TeamSpeechAct::Confirmation => Ok((TeamDialogueStatus::Agreed, false, false)),
            TeamSpeechAct::Disagreement => Ok((TeamDialogueStatus::Diverged, false, false)),
            TeamSpeechAct::CounterProposal => negotiate,
            TeamSpeechAct::Withdrawal => Ok((TeamDialogueStatus::Aborted, false, false)),
            TeamSpeechAct::FailureReport => Ok((TeamDialogueStatus::Failed, false, false)),
            _ => Err(TeamCommunicationError::InvalidTransition),
        },
        TeamDialogueStatus::Agreed => match act {
            TeamSpeechAct::Withdrawal => Ok((TeamDialogueStatus::Aborted, false, false)),
            TeamSpeechAct::FailureReport => Ok((TeamDialogueStatus::Failed, false, false)),
            _ => Err(TeamCommunicationError::SessionAlreadyClosed),
        },
        _ => Err(TeamCommunicationError::SessionAlreadyClosed),
    }
}

/// What posting a message to a dialogue gives: the dialogue after it, or why
/// it is refused.
pub open spec fn dialogue_step(v: DialogueView, e: EnvelopeView) -> Result<
    DialogueView,
    TeamCommunicationError,
> {
    match envelope_check(e) {
        Err(x) => Err(x),
        Ok(_) => if e.sender != v.initiator && e.sender != v.responder {
            Err(TeamCommunicationError::ActorMismatch)
        } else if (match e.recipient {
            TeamRecipient::Direct(t) => t != v.initiator && t != v.responder,
            TeamRecipient::Broadcast => false,
        }) {
            Err(TeamCommunicationError::ActorMismatch)
        } else if v.history.len() >= MAX_DIALOGUE_MESSAGES {
            Err(TeamCommunicationError::MaxHistoryExceeded)
        } else {
            match dialogue_transition(v.status, e.speech_act, v.round) {
                Err(x) => Err(x),
                Ok(t) => Ok(
                    DialogueView {
                        status: t.0,
                        active_intent: if t.1 {
                            e.proposed_intent
                        } else {
                            v.active_intent
                        },
                        active_condition: if t.1 {
                            e.condition
                        } else {
                            v.active_condition
                        },
                        round: if t.2 {
                            v.round + 1
                        } else {
                            v.round
                        },
                        history: v.history.push(e),
                        ..v
                    },
                ),
            }
        },
    }
}

/// Posting messages in order, stopping at the first refusal.
pub open spec fn dialogue_run(v: DialogueView, es: Seq<EnvelopeView>) -> Result<
    DialogueView,
    TeamCommunicationError,
>
    decreases es.len(),
{
    if es.len() == 0 {
        Ok(v)
    } else {
        match dialogue_run(v, es.drop_last()) {
            Err(x) => Err(x),
            Ok(w) => dialogue_step(w, es.last()),
        }
    }
}

/// One line of a dialogue transcript.
pub open spec fn transcript_line(e: EnvelopeView, step: nat) -> Seq<char> {
    "**"@ + decimal(step) + ". ["@ + speech_act_label(e.speech_act) + "] "@ + role_label(e.sender)
        + " -> "@ + recipient_label(e.recipient) + ":** "@ + e.content_summary + " *(intent: "@
        + optional_intent_name(e.proposed_intent) + ", condition: "@ + condition_label(e.condition)
        + ", urgency: "@ + urgency_label(e.urgency) + ")*\n"@
}

/// The transcript of the first `n` messages.
pub open spec fn transcript(h: Seq<EnvelopeView>, n: nat) -> Seq<char>
    decreases n,
{
    if n == 0 {
        Seq::empty()
    } else {
        transcript(h, (n - 1) as nat) + transcript_line(h[n - 1], n)
    }
}

/// The Markdown report of a dialogue.
pub open spec fn dialogue_markdown(v: DialogueView) -> Seq<char> {
    "## Team Dialogue `"@ + v.session_id + "`\n- **Initiator:** "@ + role_label(v.initiator)
        + "\n- **Responder:** "@ + role_label(v.responder) + "\n- **Turn:** "@ + decimal(v.turn as nat)
        + "\n- **Status:** "@ + dialogue_status_label(v.status) + "\n- **Active Intent:** "@
        + intent_or_none(v.active_intent) + "\n- **Active Condition:** "@ + condition_label(
        v.active_condition,
    ) + "\n- **Negotiation Rounds:** "@ + decimal(v.round) + "\n- **Message Count:** "@ + decimal(
        v.history.len(),
    ) + "\n\n### Transcript\n"@ + transcript(v.history, v.history.len())
}

/// Append one transcript line.
fn push_transcript_line(out: &mut String, e: TeamMessageEnvelope, step: usize)
    ensures
        final(out)@ == old(out)@ + transcript_line(e@, step as nat),
{
    push_str(out, "**");
    push_decimal(out, step as u64);
    push_str(out, ". [");
    push_str(out, e.speech_act().as_str());
    push_str(out, "] ");
    push_str(out, e.sender().as_str());
    push_str(out, " -> ");
    push_str(out, e.recipient().as_str());
    push_str(out, ":** ");
    push_str(out, e.content_summary());
    push_str(out, " *(intent: ");
    match e.proposed_intent() {
        Some(x) => {
            push_str(out, "Some(");
            push_str(out, x.name());
            push_str(out, ")");
        },
        None => push_str(out, "None"),
    }
    push_str(out, ", condition: ");
    push_str(out, e.condition().as_str());
    push_str(out, ", urgency: ");
    push_str(out, e.urgency().as_str());
    push_str(out, ")*\n");
}

impl TeamDialogueSession {
    #[verifier::type_invariant]
    spec fn bounded(self) -> bool {
        &&& self.round <= MAX_DIALOGUE_ROUNDS
        &&& self.history.len() <= MAX_DIALOGUE_MESSAGES
        &&& self.schema@ == TEAM_DIALOGUE_SCHEMA@
    }

    /// An idle dialogue between two participants.
    pub fn new(
        session_id: &'static str,
        initiator: LaneActorRole,
        responder: LaneActorRole,
        turn: u32,
    ) -> (r: Self)
        ensures
            r@ == dialogue_start(session_id@, initiator, responder, turn),
    {
        let r = TeamDialogueSession {
            schema: TEAM_DIALOGUE_SCHEMA,
            session_id,
            initiator,
            responder,
            turn,
            status: TeamDialogueStatus::Idle,
            active_intent: None,
            active_condition: TeamMessageCondition::Unconditional,
            round: 0,
            history: Vec::new(),
        };
        proof {
            assert(envelope_views(r.history@) =~= Seq::<EnvelopeView>::empty());
        }
        r
    }

    pub fn schema(&self) -> (r: &'static str)
        ensures
            r@ == TEAM_DIALOGUE_SCHEMA@,
    {
        proof {
            use_type_invariant(self);
        }
        self.schema
    }

    pub fn session_id(&self) -> (r: &'static str)
        ensures
            r@ == self@.session_id,
    {
        self.session_id
    }

    pub fn initiator(&self) -> (r: LaneActorRole)
        ensures
            r == self@.initiator,
    {
        self.initiator
    }

    pub fn responder(&self) -> (r: LaneActorRole)
        ensures
            r == self@.responder,
    {
        self.responder
    }

    pub fn turn(&self) -> (r: u32)
        ensures
            r == self@.turn,
    {
        self.turn
    }

    pub fn status(&self) -> (r: TeamDialogueStatus)
        ensures
            r == self@.status,
    {
        self.status
    }

    pub fn active_intent(&self) -> (r: Option<LaneIntent>)
        ensures
            r == self@.active_intent,
    {
        self.active_intent
    }

    pub fn active_condition(&self) -> (r: TeamMessageCondition)
        ensures
            r == self@.active_condition,
    {
        self.active_condition
    }

    pub fn round(&self) -> (r: u8)
        ensures
            r == self@.round,
            dialogue_within_bounds(self@),
    {
        proof {
            use_type_invariant(self);
        }
        self.round
    }

    pub fn history(&self) -> (r: &[TeamMessageEnvelope])
        ensures
            envelope_views(r@) == self@.history,
            dialogue_within_bounds(self@),
    {
        proof {
            use_type_invariant(self);
        }
        self.history.as_slice()
    }

    /// Post a message: check it and its participants, then advance the state
    /// machine and record it; a refused message changes nothing.
    pub fn step(&mut self, envelope: TeamMessageEnvelope) -> (r: Result<
        TeamDialogueStatus,
        TeamCommunicationError,
    >)
        ensures
            match dialogue_step(old(self)@, envelope@) {
                Ok(w) => r == Ok::<TeamDialogueStatus, TeamCommunicationError>(w.status)
                    && final(self)@ == w,
                Err(x) => r == Err::<TeamDialogueStatus, TeamCommunicationError>(x) && final(self)@
                    == old(self)@,
            },
            dialogue_within_bounds(final(self)@),
    {
        proof {
            use_type_invariant(&*self);
        }
        envelope.validate()?;
        if envelope.sender() != self.initiator && envelope.sender() != self.responder {
            return Err(TeamCommunicationError::ActorMismatch);
        }
        match envelope.recipient() {
            TeamRecipient::Direct(target) => {
                if target != self.initiator && target != self.responder {
                    return Err(TeamCommunicationError::ActorMismatch);
                }
            },
            TeamRecipient::Broadcast => {},
        }
        if self.history.len() >= MAX_DIALOGUE_MESSAGES {
            return Err(TeamCommunicationError::MaxHistoryExceeded);
        }
        let can_negotiate = self.round < MAX_DIALOGUE_ROUNDS;
        let (next, adopt, bump): (TeamDialogueStatus, bool, bool) = match self.status {
            TeamDialogueStatus::Idle => match envelope.speech_act() {
                TeamSpeechAct::Proposal => (TeamDialogueStatus::Proposed, true, false),
                TeamSpeechAct::Clarification => (TeamDialogueStatus::Clarifying, false, false),
                _ => {
                    return Err(TeamCommunicationError::InvalidTransition);
                },
            },
            TeamDialogueStatus::Proposed => match envelope.speech_act() {
                TeamSpeechAct::Confirmation => (TeamDialogueStatus::Agreed, false, false),
                TeamSpeechAct::Disagreement => (TeamDialogueStatus::Diverged, false, false),
                TeamSpeechAct::CounterProposal | TeamSpeechAct::ConditionalCommitment => {
                    if !can_negotiate {
                        return Err(TeamCommunicationError::MaxRoundsExceeded);
                    }
                    (TeamDialogueStatus::Negotiating, true, true)
                },
                TeamSpeechAct::Clarification => (TeamDialogueStatus::Clarifying, false, false),
                TeamSpeechAct::Withdrawal => (TeamDialogueStatus::Aborted, false, false),
                TeamSpeechAct::FailureReport => (TeamDialogueStatus::Failed, false, false),
                TeamSpeechAct::Proposal => {
                    return Err(TeamCommunicationError::InvalidTransition);
                },
            },
            TeamDialogueStatus::Clarifying => match envelope.speech_act() {
                TeamSpeechAct::Proposal => (TeamDialogueStatus::Proposed, true, false),
                TeamSpeechAct::CounterProposal | TeamSpeechAct::ConditionalCommitment => {
                    if !can_negotiate {
                        return Err(TeamCommunicationError::MaxRoundsExceeded);
                    }
                    (TeamDialogueStatus::Negotiating, true, true)
                },
                TeamSpeechAct::Confirmation => (TeamDialogueStatus::Agreed, false, false),
                TeamSpeechAct::Disagreement => (TeamDialogueStatus::Diverged, false, false),
                TeamSpeechAct::Withdrawal => (TeamDialogueStatus::Aborted, false, false),
                TeamSpeechAct::FailureReport => (TeamDialogueStatus::Failed, false, false),
                TeamSpeechAct::Clarification => (TeamDialogueStatus::Clarifying, false, false),
            },
            TeamDialogueStatus::Negotiating => match envelope.speech_act() {
                TeamSpeechAct::Confirmation => (TeamDialogueStatus::Agreed, false, false),
                TeamSpeechAct::Disagreement => (TeamDialogueStatus::Diverged, false, false),
                TeamSpeechAct::CounterProposal => {
                    if !can_negotiate {
                        return Err(TeamCommunicationError::MaxRoundsExceeded);
                    }
                    (TeamDialogueStatus::Negotiating, true, true)
                },
                TeamSpeechAct::Withdrawal => (TeamDialogueStatus::Aborted, false, false),
                TeamSpeechAct::FailureReport => (TeamDialogueStatus::Failed, false, false),
                _ => {
                    return Err(TeamCommunicationError::InvalidTransition);
                },
            },
            TeamDialogueStatus::Agreed => match envelope.speech_act() {
                TeamSpeechAct::Withdrawal => (TeamDialogueStatus::Aborted, false, false),
                TeamSpeechAct::FailureReport => (TeamDialogueStatus::Failed, false, false),
                _ => {
                    return Err(TeamCommunicationError::SessionAlreadyClosed);
                },
            },
            _ => {
                return Err(TeamCommunicationError::SessionAlreadyClosed);
            },
        };
        if adopt {
            self.active_intent = envelope.proposed_intent();
            self.active_condition = envelope.condition();
        }
        if bump {
            self.round = self.round + 1;
        }
        self.status = next;
        let mut history: Vec<TeamMessageEnvelope> = Vec::new();
        std::mem::swap(&mut history, &mut self.history);
        history.push(envelope);
        self.history = history;
        proof {
            assert(envelope_views(self.history@) =~= envelope_views(old(self).history@).push(
                envelope@,
            ));
        }
        Ok(next)
    }

    /// The Markdown report of this dialogue and its transcript.
    pub fn format_markdown(&self) -> (r: String)
        ensures
            r@ == dialogue_markdown(self@),
    {
        proof {
            use_type_invariant(self);
        }
        let mut out = String::new();
        push_str(&mut out, "## Team Dialogue `");
        push_str(&mut out, self.session_id);
        push_str(&mut out, "`\n- **Initiator:** ");
        push_str(&mut out, self.initiator.as_str());
        push_str(&mut out, "\n- **Responder:** ");
        push_str(&mut out, self.responder.as_str());
        push_str(&mut out, "\n- **Turn:** ");
        push_decimal(&mut out, self.turn as u64);
        push_str(&mut out, "\n- **Status:** ");
        push_str(&mut out, self.status.as_str());
        push_str(&mut out, "\n- **Active Intent:** ");
        push_intent_or_none(&mut out, self.active_intent);
        push_str(&mut out, "\n- **Active Condition:** ");
        push_str(&mut out, self.active_condition.as_str());
        push_str(&mut out, "\n- **Negotiation Rounds:** ");
        push_decimal(&mut out, self.round as u64);
        push_str(&mut out, "\n- **Message Count:** ");
        push_decimal(&mut out, self.history.len() as u64);
        push_str(&mut out, "\n\n### Transcript\n");
        let ghost head = out@;
        let n = self.history.len();
        let mut i: usize = 0;
        while i < n
            invariant
                n == self.history@.len(),
                n <= MAX_DIALOGUE_MESSAGES,
                i <= n,
                out@ == head + transcript(envelope_views(self.history@), i as nat),
            decreases n - i,
        {
            push_transcript_line(&mut out, self.history[i], i + 1);
            proof {
                assert(envelope_views(self.history@)[i as int] == self.history@[i as int]@);
            }
            i = i + 1;
        }
        out
    }
}

/// A refused message leaves a dialogue unchanged, and an accepted one keeps
/// it within its bounds, appends exactly that message, and uses at most one
/// negotiation round.
pub proof fn lemma_dialogue_step_bounded(v: DialogueView, e: EnvelopeView)
    requires
        dialogue_within_bounds(v),
    ensures
        dialogue_step(v, e) matches Ok(w) ==> dialogue_within_bounds(w) && w.history == v.history.push(e)
            && w.session_id == v.session_id && w.initiator == v.initiator && w.responder
            == v.responder && w.turn == v.turn && v.round <= w.round <= v.round + 1,
{
}

/// A diverged, aborted, or failed dialogue refuses every further message, and
/// an agreed one accepts only a withdrawal or a failure report.
pub proof fn lemma_concluded_dialogue_stays_concluded(v: DialogueView, e: EnvelopeView)
    ensures
        (v.status is Diverged || v.status is Aborted || v.status is Failed) ==> dialogue_step(v, e) is Err,
        v.status is Agreed && dialogue_step(v, e) is Ok ==> (e.speech_act is Withdrawal
            || e.speech_act is FailureReport),
        status_is_terminal(v.status) ==> (dialogue_step(v, e) matches Ok(w) ==> status_is_terminal(
            w.status,
        )),
{
}

/// An accepted disagreement always ends a dialogue as diverged, never as
/// agreed; and the only accepted message that brings a dialogue not yet agreed
/// to agreement is a confirmation.
pub proof fn lemma_disagreement_diverges(v: DialogueView, e: EnvelopeView)
    ensures
        e.speech_act is Disagreement ==> (dialogue_step(v, e) matches Ok(w) ==> w.status is Diverged),
        dialogue_step(v, e) matches Ok(w) && w.status is Agreed && !(v.status is Agreed)
            ==> e.speech_act is Confirmation,
        e.speech_act is Confirmation ==> (dialogue_step(v, e) matches Ok(w) ==> w.status is Agreed),
{
}

/// The canonical envelope of a contest proposal.
pub open spec fn proposal_contest_v1_view() -> EnvelopeView {
    envelope_of("msg-proposal-contest-v1"@, LaneActorRole::AlliedAutonomous, TeamRecipient::Direct(LaneActorRole::HumanLaner), TeamSpeechAct::Proposal, Some(LaneIntent::Contest), TeamMessageUrgency::Standard, TeamConfidenceLevel::Confident, TeamMessageCondition::ThreatAbsent, TeamMessageVisibility::TeamOnly, 1, "Propose coordinated wave contest if river threat remains clear."@, false)
}

/// The canonical envelope of a timing clarification query.
pub open spec fn clarification_timing_v1_view() -> EnvelopeView {
    envelope_of("msg-clarification-timing-v1"@, LaneActorRole::HumanLaner, TeamRecipient::Direct(LaneActorRole::AlliedAutonomous), TeamSpeechAct::Clarification, None, TeamMessageUrgency::Low, TeamConfidenceLevel::Tentative, TeamMessageCondition::Unconditional, TeamMessageVisibility::DirectOnly, 1, "Inquire regarding ally arrival timing before committing to forward contest."@, false)
}

/// The canonical envelope of an explicit confirmation.
pub open spec fn confirmation_contest_v1_view() -> EnvelopeView {
    envelope_of("msg-confirmation-contest-v1"@, LaneActorRole::HumanLaner, TeamRecipient::Direct(LaneActorRole::AlliedAutonomous), TeamSpeechAct::Confirmation, Some(LaneIntent::Contest), TeamMessageUrgency::Standard, TeamConfidenceLevel::Confident, TeamMessageCondition::Unconditional, TeamMessageVisibility::TeamOnly, 1, "Confirm agreement to contest wave together as proposed."@, false)
}

/// The canonical envelope of an explicit disagreement.
pub open spec fn disagreement_contest_v1_view() -> EnvelopeView {
    envelope_of("msg-disagreement-contest-v1"@, LaneActorRole::HumanLaner, TeamRecipient::Direct(LaneActorRole::AlliedAutonomous), TeamSpeechAct::Disagreement, None, TeamMessageUrgency::Standard, TeamConfidenceLevel::Definite, TeamMessageCondition::HealthAboveThreshold, TeamMessageVisibility::TeamOnly, 1, "Decline contest call due to insufficient health and defensive posture."@, false)
}

/// The canonical envelope of a counter-proposal to stabilize.
pub open spec fn counter_proposal_stabilize_v1_view() -> EnvelopeView {
    envelope_of("msg-counter-proposal-stabilize-v1"@, LaneActorRole::HumanLaner, TeamRecipient::Direct(LaneActorRole::AlliedAutonomous), TeamSpeechAct::CounterProposal, Some(LaneIntent::Stabilize), TeamMessageUrgency::Standard, TeamConfidenceLevel::Confident, TeamMessageCondition::Unconditional, TeamMessageVisibility::TeamOnly, 1, "Counter-propose wave stabilization near tower instead of aggressive contest."@, false)
}

/// The canonical envelope of a conditional commitment.
pub open spec fn conditional_commitment_contest_v1_view() -> EnvelopeView {
    envelope_of("msg-conditional-commitment-contest-v1"@, LaneActorRole::AlliedAutonomous, TeamRecipient::Broadcast, TeamSpeechAct::ConditionalCommitment, Some(LaneIntent::Contest), TeamMessageUrgency::Critical, TeamConfidenceLevel::Confident, TeamMessageCondition::AlliedPresence, TeamMessageVisibility::TeamOnly, 2, "Commit to contest if laner initiates engagement and holds space."@, false)
}

/// The canonical envelope of a call withdrawal.
pub open spec fn withdrawal_call_v1_view() -> EnvelopeView {
    envelope_of("msg-withdrawal-call-v1"@, LaneActorRole::AlliedAutonomous, TeamRecipient::Broadcast, TeamSpeechAct::Withdrawal, Some(LaneIntent::Withdraw), TeamMessageUrgency::Critical, TeamConfidenceLevel::Definite, TeamMessageCondition::ThreatAbsent, TeamMessageVisibility::TeamOnly, 2, "Withdraw contest proposal due to detected river threat proximity."@, false)
}

/// The canonical envelope of an execution failure report.
pub open spec fn failure_report_v1_view() -> EnvelopeView {
    envelope_of("msg-failure-report-v1"@, LaneActorRole::AlliedAutonomous, TeamRecipient::Broadcast, TeamSpeechAct::FailureReport, None, TeamMessageUrgency::Critical, TeamConfidenceLevel::Definite, TeamMessageCondition::Unconditional, TeamMessageVisibility::TeamOnly, 2, "Report gank attempt failed; forced to disengage and retreat."@, false)
}

/// A message of the canonical dialogues.
pub open spec fn ally_accept_view() -> EnvelopeView {
    envelope_of("msg-ally-accept-counter-v1"@, LaneActorRole::AlliedAutonomous, TeamRecipient::Direct(LaneActorRole::HumanLaner), TeamSpeechAct::Confirmation, Some(LaneIntent::Stabilize), TeamMessageUrgency::Standard, TeamConfidenceLevel::Confident, TeamMessageCondition::Unconditional, TeamMessageVisibility::TeamOnly, 1, "Ally confirms counter-proposal to stabilize wave near turret."@, false)
}

/// A message of the canonical dialogues.
fn ally_accept() -> (r: TeamMessageEnvelope)
    ensures
        r@ == ally_accept_view(),
{
    TeamMessageEnvelope::new(
        "msg-ally-accept-counter-v1",
        LaneActorRole::AlliedAutonomous,
        TeamRecipient::Direct(LaneActorRole::HumanLaner),
        TeamSpeechAct::Confirmation,
        Some(LaneIntent::Stabilize),
        TeamMessageUrgency::Standard,
        TeamConfidenceLevel::Confident,
        TeamMessageCondition::Unconditional,
        TeamMessageVisibility::TeamOnly,
        1,
        "Ally confirms counter-proposal to stabilize wave near turret.",
    )
}

/// A message of the canonical dialogues.
pub open spec fn laner_prop_view() -> EnvelopeView {
    envelope_of("msg-laner-propose-contest-v2"@, LaneActorRole::HumanLaner, TeamRecipient::Direct(LaneActorRole::AlliedAutonomous), TeamSpeechAct::Proposal, Some(LaneIntent::Contest), TeamMessageUrgency::Standard, TeamConfidenceLevel::Confident, TeamMessageCondition::Unconditional, TeamMessageVisibility::TeamOnly, 2, "Laner proposes contesting next minion wave."@, false)
}

/// A message of the canonical dialogues.
fn laner_prop() -> (r: TeamMessageEnvelope)
    ensures
        r@ == laner_prop_view(),
{
    TeamMessageEnvelope::new(
        "msg-laner-propose-contest-v2",
        LaneActorRole::HumanLaner,
        TeamRecipient::Direct(LaneActorRole::AlliedAutonomous),
        TeamSpeechAct::Proposal,
        Some(LaneIntent::Contest),
        TeamMessageUrgency::Standard,
        TeamConfidenceLevel::Confident,
        TeamMessageCondition::Unconditional,
        TeamMessageVisibility::TeamOnly,
        2,
        "Laner proposes contesting next minion wave.",
    )
}

/// A message of the canonical dialogues.
pub open spec fn confirm_presence_view() -> EnvelopeView {
    envelope_of("msg-laner-confirm-presence-v2"@, LaneActorRole::HumanLaner, TeamRecipient::Direct(LaneActorRole::AlliedAutonomous), TeamSpeechAct::Confirmation, Some(LaneIntent::Contest), TeamMessageUrgency::Critical, TeamConfidenceLevel::Definite, TeamMessageCondition::AlliedPresence, TeamMessageVisibility::TeamOnly, 2, "Laner confirms forward engagement presence for wave contest."@, false)
}

/// A message of the canonical dialogues.
fn confirm_presence() -> (r: TeamMessageEnvelope)
    ensures
        r@ == confirm_presence_view(),
{
    TeamMessageEnvelope::new(
        "msg-laner-confirm-presence-v2",
        LaneActorRole::HumanLaner,
        TeamRecipient::Direct(LaneActorRole::AlliedAutonomous),
        TeamSpeechAct::Confirmation,
        Some(LaneIntent::Contest),
        TeamMessageUrgency::Critical,
        TeamConfidenceLevel::Definite,
        TeamMessageCondition::AlliedPresence,
        TeamMessageVisibility::TeamOnly,
        2,
        "Laner confirms forward engagement presence for wave contest.",
    )
}

/// The canonical envelope with an identity, if any.
pub open spec fn catalog_envelope(id: Seq<char>) -> Option<EnvelopeView> {
    if id == "msg-proposal-contest-v1"@ {
        Some(proposal_contest_v1_view())
    } else if id == "msg-clarification-timing-v1"@ {
        Some(clarification_timing_v1_view())
    } else if id == "msg-confirmation-contest-v1"@ {
        Some(confirmation_contest_v1_view())
    } else if id == "msg-disagreement-contest-v1"@ {
        Some(disagreement_contest_v1_view())
    } else if id == "msg-counter-proposal-stabilize-v1"@ {
        Some(counter_proposal_stabilize_v1_view())
    } else if id == "msg-conditional-commitment-contest-v1"@ {
        Some(conditional_commitment_contest_v1_view())
    } else if id == "msg-withdrawal-call-v1"@ {
        Some(withdrawal_call_v1_view())
    } else if id == "msg-failure-report-v1"@ {
        Some(failure_report_v1_view())
    } else {
        None
    }
}

/// Registered reference message envelopes.
pub struct TeamCommunicationCatalog;

impl TeamCommunicationCatalog {
    /// The canonical envelope of a contest proposal.
    pub fn proposal_contest_v1() -> (r: TeamMessageEnvelope)
        ensures
            r@ == proposal_contest_v1_view(),
    {
        TeamMessageEnvelope::new(
            "msg-proposal-contest-v1",
            LaneActorRole::AlliedAutonomous,
            TeamRecipient::Direct(LaneActorRole::HumanLaner),
            TeamSpeechAct::Proposal,
            Some(LaneIntent::Contest),
            TeamMessageUrgency::Standard,
            TeamConfidenceLevel::Confident,
            TeamMessageCondition::ThreatAbsent,
            TeamMessageVisibility::TeamOnly,
            1,
            "Propose coordinated wave contest if river threat remains clear.",
        )
    }

    /// The canonical envelope of a timing clarification query.
    pub fn clarification_timing_v1() -> (r: TeamMessageEnvelope)
        ensures
            r@ == clarification_timing_v1_view(),
    {
        TeamMessageEnvelope::new(
            "msg-clarification-timing-v1",
            LaneActorRole::HumanLaner,
            TeamRecipient::Direct(LaneActorRole::AlliedAutonomous),
            TeamSpeechAct::Clarification,
            None,
            TeamMessageUrgency::Low,
            TeamConfidenceLevel::Tentative,
            TeamMessageCondition::Unconditional,
            TeamMessageVisibility::DirectOnly,
            1,
            "Inquire regarding ally arrival timing before committing to forward contest.",
        )
    }

    /// The canonical envelope of an explicit confirmation.
    pub fn confirmation_contest_v1() -> (r: TeamMessageEnvelope)
        ensures
            r@ == confirmation_contest_v1_view(),
    {
        TeamMessageEnvelope::new(
            "msg-confirmation-contest-v1",
            LaneActorRole::HumanLaner,
            TeamRecipient::Direct(LaneActorRole::AlliedAutonomous),
            TeamSpeechAct::Confirmation,
            Some(LaneIntent::Contest),
            TeamMessageUrgency::Standard,
            TeamConfidenceLevel::Confident,
            TeamMessageCondition::Unconditional,
            TeamMessageVisibility::TeamOnly,
            1,
            "Confirm agreement to contest wave together as proposed.",
        )
    }

    /// The canonical envelope of an explicit disagreement.
    pub fn disagreement_contest_v1() -> (r: TeamMessageEnvelope)
        ensures
            r@ == disagreement_contest_v1_view(),
    {
        TeamMessageEnvelope::new(
            "msg-disagreement-contest-v1",
            LaneActorRole::HumanLaner,
            TeamRecipient::Direct(LaneActorRole::AlliedAutonomous),
            TeamSpeechAct::Disagreement,
            None,
            TeamMessageUrgency::Standard,
            TeamConfidenceLevel::Definite,
            TeamMessageCondition::HealthAboveThreshold,
            TeamMessageVisibility::TeamOnly,
            1,
            "Decline contest call due to insufficient health and defensive posture.",
        )
    }

    /// The canonical envelope of a counter-proposal to stabilize.
    pub fn counter_proposal_stabilize_v1() -> (r: TeamMessageEnvelope)
        ensures
            r@ == counter_proposal_stabilize_v1_view(),
    {
        TeamMessageEnvelope::new(
            "msg-counter-proposal-stabilize-v1",
            LaneActorRole::HumanLaner,
            TeamRecipient::Direct(LaneActorRole::AlliedAutonomous),
            TeamSpeechAct::CounterProposal,
            Some(LaneIntent::Stabilize),
            TeamMessageUrgency::Standard,
            TeamConfidenceLevel::Confident,
            TeamMessageCondition::Unconditional,
            TeamMessageVisibility::TeamOnly,
            1,
            "Counter-propose wave stabilization near tower instead of aggressive contest.",
        )
    }

    /// The canonical envelope of a conditional commitment.
    pub fn conditional_commitment_contest_v1() -> (r: TeamMessageEnvelope)
        ensures
            r@ == conditional_commitment_contest_v1_view(),
    {
        TeamMessageEnvelope::new(
            "msg-conditional-commitment-contest-v1",
            LaneActorRole::AlliedAutonomous,
            TeamRecipient::Broadcast,
            TeamSpeechAct::ConditionalCommitment,
            Some(LaneIntent::Contest),
            TeamMessageUrgency::Critical,
            TeamConfidenceLevel::Confident,
            TeamMessageCondition::AlliedPresence,
            TeamMessageVisibility::TeamOnly,
            2,
            "Commit to contest if laner initiates engagement and holds space.",
        )
    }

    /// The canonical envelope of a call withdrawal.
    pub fn withdrawal_call_v1() -> (r: TeamMessageEnvelope)
        ensures
            r@ == withdrawal_call_v1_view(),
    {
        TeamMessageEnvelope::new(
            "msg-withdrawal-call-v1",
            LaneActorRole::AlliedAutonomous,
            TeamRecipient::Broadcast,
            TeamSpeechAct::Withdrawal,
            Some(LaneIntent::Withdraw),
            TeamMessageUrgency::Critical,
            TeamConfidenceLevel::Definite,
            TeamMessageCondition::ThreatAbsent,
            TeamMessageVisibility::TeamOnly,
            2,
            "Withdraw contest proposal due to detected river threat proximity.",
        )
    }

    /// The canonical envelope of an execution failure report.
    pub fn failure_report_v1() -> (r: TeamMessageEnvelope)
        ensures
            r@ == failure_report_v1_view(),
    {
        TeamMessageEnvelope::new(
            "msg-failure-report-v1",
            LaneActorRole::AlliedAutonomous,
            TeamRecipient::Broadcast,
            TeamSpeechAct::FailureReport,
            None,
            TeamMessageUrgency::Critical,
            TeamConfidenceLevel::Definite,
            TeamMessageCondition::Unconditional,
            TeamMessageVisibility::TeamOnly,
            2,
            "Report gank attempt failed; forced to disengage and retreat.",
        )
    }

    /// All canonical envelopes in their stable order.
    pub fn all_envelopes() -> (r: [TeamMessageEnvelope; 8])
        ensures
            r@[0]@ == proposal_contest_v1_view(),
            r@[1]@ == clarification_timing_v1_view(),
            r@[2]@ == confirmation_contest_v1_view(),
            r@[3]@ == disagreement_contest_v1_view(),
            r@[4]@ == counter_proposal_stabilize_v1_view(),
            r@[5]@ == conditional_commitment_contest_v1_view(),
            r@[6]@ == withdrawal_call_v1_view(),
            r@[7]@ == failure_report_v1_view(),
    {
        [
            Self::proposal_contest_v1(),
            Self::clarification_timing_v1(),
            Self::confirmation_contest_v1(),
            Self::disagreement_contest_v1(),
            Self::counter_proposal_stabilize_v1(),
            Self::conditional_commitment_contest_v1(),
            Self::withdrawal_call_v1(),
            Self::failure_report_v1(),
        ]
    }

    /// The canonical envelope with an identity, if any.
    pub fn lookup(message_id: &str) -> (r: Option<TeamMessageEnvelope>)
        ensures
            match r {
                Some(e) => catalog_envelope(message_id@) == Some(e@),
                None => catalog_envelope(message_id@) is None,
            },
    {
        if str_eq(message_id, "msg-proposal-contest-v1") {
            Some(Self::proposal_contest_v1())
        } else if str_eq(message_id, "msg-clarification-timing-v1") {
            Some(Self::clarification_timing_v1())
        } else if str_eq(message_id, "msg-confirmation-contest-v1") {
            Some(Self::confirmation_contest_v1())
        } else if str_eq(message_id, "msg-disagreement-contest-v1") {
            Some(Self::disagreement_contest_v1())
        } else if str_eq(message_id, "msg-counter-proposal-stabilize-v1") {
            Some(Self::counter_proposal_stabilize_v1())
        } else if str_eq(message_id, "msg-conditional-commitment-contest-v1") {
            Some(Self::conditional_commitment_contest_v1())
        } else if str_eq(message_id, "msg-withdrawal-call-v1") {
            Some(Self::withdrawal_call_v1())
        } else if str_eq(message_id, "msg-failure-report-v1") {
            Some(Self::failure_report_v1())
        } else {
            None
        }
    }

    /// The canonical envelope with an identity, or why there is none.
    pub fn validate_message_id(message_id: &str) -> (r: Result<TeamMessageEnvelope, TeamCommunicationError>)
        ensures
            match r {
                Ok(e) => catalog_envelope(message_id@) == Some(e@),
                Err(x) => catalog_envelope(message_id@) is None && x == TeamCommunicationError::UnknownEnvelopeId,
            },
    {
        match Self::lookup(message_id) {
            Some(e) => Ok(e),
            None => Err(TeamCommunicationError::UnknownEnvelopeId),
        }
    }
}

/// Every canonical envelope passes validation and is found by its own identity.
pub proof fn lemma_catalog_envelopes_valid_and_found()
    ensures
        envelope_check(proposal_contest_v1_view()) is Ok && catalog_envelope(proposal_contest_v1_view().message_id) == Some(proposal_contest_v1_view()),
        envelope_check(clarification_timing_v1_view()) is Ok && catalog_envelope(clarification_timing_v1_view().message_id) == Some(clarification_timing_v1_view()),
        envelope_check(confirmation_contest_v1_view()) is Ok && catalog_envelope(confirmation_contest_v1_view().message_id) == Some(confirmation_contest_v1_view()),
        envelope_check(disagreement_contest_v1_view()) is Ok && catalog_envelope(disagreement_contest_v1_view().message_id) == Some(disagreement_contest_v1_view()),
        envelope_check(counter_proposal_stabilize_v1_view()) is Ok && catalog_envelope(counter_proposal_stabilize_v1_view().message_id) == Some(counter_proposal_stabilize_v1_view()),
        envelope_check(conditional_commitment_contest_v1_view()) is Ok && catalog_envelope(conditional_commitment_contest_v1_view().message_id) == Some(conditional_commitment_contest_v1_view()),
        envelope_check(withdrawal_call_v1_view()) is Ok && catalog_envelope(withdrawal_call_v1_view().message_id) == Some(withdrawal_call_v1_view()),
        envelope_check(failure_report_v1_view()) is Ok && catalog_envelope(failure_report_v1_view().message_id) == Some(failure_report_v1_view()),
{
    reveal_strlit("msg-proposal-contest-v1");
    reveal_strlit("msg-clarification-timing-v1");
    reveal_strlit("msg-confirmation-contest-v1");
    reveal_strlit("msg-disagreement-contest-v1");
    reveal_strlit("msg-counter-proposal-stabilize-v1");
    reveal_strlit("msg-conditional-commitment-contest-v1");
    reveal_strlit("msg-withdrawal-call-v1");
    reveal_strlit("msg-failure-report-v1");
    assert("msg-clarification-timing-v1"@.len() != "msg-proposal-contest-v1"@.len());
    assert("msg-confirmation-contest-v1"@.len() != "msg-proposal-contest-v1"@.len());
    assert("msg-confirmation-contest-v1"@[5] != "msg-clarification-timing-v1"@[5]);
    assert("msg-disagreement-contest-v1"@.len() != "msg-proposal-contest-v1"@.len());
    assert("msg-disagreement-contest-v1"@[4] != "msg-clarification-timing-v1"@[4]);
    assert("msg-disagreement-contest-v1"@[4] != "msg-confirmation-contest-v1"@[4]);
    assert("msg-counter-proposal-stabilize-v1"@.len() != "msg-proposal-contest-v1"@.len());
    assert("msg-counter-proposal-stabilize-v1"@.len() != "msg-clarification-timing-v1"@.len());
    assert("msg-counter-proposal-stabilize-v1"@.len() != "msg-confirmation-contest-v1"@.len());
    assert("msg-counter-proposal-stabilize-v1"@.len() != "msg-disagreement-contest-v1"@.len());
    assert("msg-conditional-commitment-contest-v1"@.len() != "msg-proposal-contest-v1"@.len());
    assert("msg-conditional-commitment-contest-v1"@.len() != "msg-clarification-timing-v1"@.len());
    assert("msg-conditional-commitment-contest-v1"@.len() != "msg-confirmation-contest-v1"@.len());
    assert("msg-conditional-commitment-contest-v1"@.len() != "msg-disagreement-contest-v1"@.len());
    assert("msg-conditional-commitment-contest-v1"@.len() != "msg-counter-proposal-stabilize-v1"@.len());
    assert("msg-withdrawal-call-v1"@.len() != "msg-proposal-contest-v1"@.len());
    assert("msg-withdrawal-call-v1"@.len() != "msg-clarification-timing-v1"@.len());
    assert("msg-withdrawal-call-v1"@.len() != "msg-confirmation-contest-v1"@.len());
    assert("msg-withdrawal-call-v1"@.len() != "msg-disagreement-contest-v1"@.len());
    assert("msg-withdrawal-call-v1"@.len() != "msg-counter-proposal-stabilize-v1"@.len());
    assert("msg-withdrawal-call-v1"@.len() != "msg-conditional-commitment-contest-v1"@.len());
    assert("msg-failure-report-v1"@.len() != "msg-proposal-contest-v1"@.len());
    assert("msg-failure-report-v1"@.len() != "msg-clarification-timing-v1"@.len());
    assert("msg-failure-report-v1"@.len() != "msg-confirmation-contest-v1"@.len());
    assert("msg-failure-report-v1"@.len() != "msg-disagreement-contest-v1"@.len());
    assert("msg-failure-report-v1"@.len() != "msg-counter-proposal-stabilize-v1"@.len());
    assert("msg-failure-report-v1"@.len() != "msg-conditional-commitment-contest-v1"@.len());
    assert("msg-failure-report-v1"@.len() != "msg-withdrawal-call-v1"@.len());
}

/// The canonical dialogues: their identity, participants, turn, and messages.
pub open spec fn canonical_dialogue_start(k: int) -> DialogueView {
    if k == 0 {
        dialogue_start("dialogue-agreed-contest-v1"@, LaneActorRole::AlliedAutonomous, LaneActorRole::HumanLaner, 1)
    } else if k == 1 {
        dialogue_start("dialogue-dissent-threat-v1"@, LaneActorRole::AlliedAutonomous, LaneActorRole::HumanLaner, 1)
    } else if k == 2 {
        dialogue_start("dialogue-counter-negotiation-v1"@, LaneActorRole::AlliedAutonomous, LaneActorRole::HumanLaner, 1)
    } else if k == 3 {
        dialogue_start("dialogue-clarification-v1"@, LaneActorRole::HumanLaner, LaneActorRole::AlliedAutonomous, 1)
    } else if k == 4 {
        dialogue_start("dialogue-conditional-commitment-v1"@, LaneActorRole::HumanLaner, LaneActorRole::AlliedAutonomous, 2)
    } else if k == 5 {
        dialogue_start("dialogue-withdrawal-v1"@, LaneActorRole::HumanLaner, LaneActorRole::AlliedAutonomous, 2)
    } else {
        dialogue_start("dialogue-failure-recovery-v1"@, LaneActorRole::AlliedAutonomous, LaneActorRole::HumanLaner, 1)
    }
}

/// The messages of canonical dialogue `k`, in order.
pub open spec fn canonical_dialogue_messages(k: int) -> Seq<EnvelopeView> {
    if k == 0 {
        seq![proposal_contest_v1_view(), confirmation_contest_v1_view()]
    } else if k == 1 {
        seq![proposal_contest_v1_view(), disagreement_contest_v1_view()]
    } else if k == 2 {
        seq![proposal_contest_v1_view(), counter_proposal_stabilize_v1_view(), ally_accept_view()]
    } else if k == 3 {
        seq![clarification_timing_v1_view(), proposal_contest_v1_view(), confirmation_contest_v1_view()]
    } else if k == 4 {
        seq![laner_prop_view(), conditional_commitment_contest_v1_view(), confirm_presence_view()]
    } else if k == 5 {
        seq![laner_prop_view(), conditional_commitment_contest_v1_view(), withdrawal_call_v1_view()]
    } else {
        seq![proposal_contest_v1_view(), confirmation_contest_v1_view(), failure_report_v1_view()]
    }
}

/// Canonical dialogue `k` after all its messages.
pub open spec fn canonical_dialogue(k: int) -> Result<DialogueView, TeamCommunicationError> {
    dialogue_run(canonical_dialogue_start(k), canonical_dialogue_messages(k))
}

/// The index of the canonical dialogue with an identity, if any.
pub open spec fn canonical_dialogue_index(id: Seq<char>) -> Option<int> {
    if id == "dialogue-agreed-contest-v1"@ {
        Some(0)
    } else if id == "dialogue-dissent-threat-v1"@ {
        Some(1)
    } else if id == "dialogue-counter-negotiation-v1"@ {
        Some(2)
    } else if id == "dialogue-clarification-v1"@ {
        Some(3)
    } else if id == "dialogue-conditional-commitment-v1"@ {
        Some(4)
    } else if id == "dialogue-withdrawal-v1"@ {
        Some(5)
    } else if id == "dialogue-failure-recovery-v1"@ {
        Some(6)
    } else {
        None
    }
}

/// Posting the first messages of a canonical dialogue, one at a time, follows its run.
proof fn lemma_dialogue_run_push(v: DialogueView, es: Seq<EnvelopeView>, e: EnvelopeView)
    ensures
        dialogue_run(v, es.push(e)) == (match dialogue_run(v, es) {
            Err(x) => Err(x),
            Ok(w) => dialogue_step(w, e),
        }),
{
    assert(es.push(e).drop_last() =~= es);
}

/// Every message identity of the canonical dialogues is non-empty.
proof fn lemma_dialogue_message_ids()
    ensures
        proposal_contest_v1_view().message_id.len() > 0,
        clarification_timing_v1_view().message_id.len() > 0,
        confirmation_contest_v1_view().message_id.len() > 0,
        disagreement_contest_v1_view().message_id.len() > 0,
        counter_proposal_stabilize_v1_view().message_id.len() > 0,
        conditional_commitment_contest_v1_view().message_id.len() > 0,
        withdrawal_call_v1_view().message_id.len() > 0,
        failure_report_v1_view().message_id.len() > 0,
        ally_accept_view().message_id.len() > 0,
        laner_prop_view().message_id.len() > 0,
        confirm_presence_view().message_id.len() > 0,
{
    reveal_strlit("msg-proposal-contest-v1");
    reveal_strlit("msg-clarification-timing-v1");
    reveal_strlit("msg-confirmation-contest-v1");
    reveal_strlit("msg-disagreement-contest-v1");
    reveal_strlit("msg-counter-proposal-stabilize-v1");
    reveal_strlit("msg-conditional-commitment-contest-v1");
    reveal_strlit("msg-withdrawal-call-v1");
    reveal_strlit("msg-failure-report-v1");
    reveal_strlit("msg-ally-accept-counter-v1");
    reveal_strlit("msg-laner-propose-contest-v2");
    reveal_strlit("msg-laner-confirm-presence-v2");
}

/// Post a message that the dialogue accepts.
fn post(session: &mut TeamDialogueSession, envelope: TeamMessageEnvelope)
    requires
        dialogue_step(old(session)@, envelope@) is Ok,
    ensures
        Ok::<DialogueView, TeamCommunicationError>(final(session)@) == dialogue_step(
            old(session)@,
            envelope@,
        ),
{
    let r = session.step(envelope);
}

/// Registered reference dialogues.
pub struct TeamDialogueCatalog;

impl TeamDialogueCatalog {
    /// A proposal, then its confirmation.
    pub fn dialogue_agreed_contest_v1() -> (r: Result<TeamDialogueSession, TeamCommunicationError>)
        ensures
            r matches Ok(s) && Ok::<DialogueView, TeamCommunicationError>(s@) == canonical_dialogue(0),
    {
        proof {
            lemma_dialogue_message_ids();
            lemma_dialogue_run_push(canonical_dialogue_start(0), seq![], proposal_contest_v1_view());
            lemma_dialogue_run_push(canonical_dialogue_start(0), seq![proposal_contest_v1_view()], confirmation_contest_v1_view());
            assert(seq![proposal_contest_v1_view()].push(confirmation_contest_v1_view()) =~= canonical_dialogue_messages(0));
            assert(Seq::<EnvelopeView>::empty().push(proposal_contest_v1_view()) =~= seq![proposal_contest_v1_view()]);
        }
        let mut session = TeamDialogueSession::new(
            "dialogue-agreed-contest-v1",
            LaneActorRole::AlliedAutonomous,
            LaneActorRole::HumanLaner,
            1,
        );
        post(&mut session, TeamCommunicationCatalog::proposal_contest_v1());
        post(&mut session, TeamCommunicationCatalog::confirmation_contest_v1());
        Ok(session)
    }

    /// A proposal, then a disagreement.
    pub fn dialogue_dissent_threat_v1() -> (r: Result<TeamDialogueSession, TeamCommunicationError>)
        ensures
            r matches Ok(s) && Ok::<DialogueView, TeamCommunicationError>(s@) == canonical_dialogue(1),
    {
        proof {
            lemma_dialogue_message_ids();
            lemma_dialogue_run_push(canonical_dialogue_start(1), seq![], proposal_contest_v1_view());
            lemma_dialogue_run_push(canonical_dialogue_start(1), seq![proposal_contest_v1_view()], disagreement_contest_v1_view());
            assert(seq![proposal_contest_v1_view()].push(disagreement_contest_v1_view()) =~= canonical_dialogue_messages(1));
            assert(Seq::<EnvelopeView>::empty().push(proposal_contest_v1_view()) =~= seq![proposal_contest_v1_view()]);
        }
        let mut session = TeamDialogueSession::new(
            "dialogue-dissent-threat-v1",
            LaneActorRole::AlliedAutonomous,
            LaneActorRole::HumanLaner,
            1,
        );
        post(&mut session, TeamCommunicationCatalog::proposal_contest_v1());
        post(&mut session, TeamCommunicationCatalog::disagreement_contest_v1());
        Ok(session)
    }

    /// A proposal, a counter-proposal, then the initiator's confirmation.
    pub fn dialogue_counter_negotiation_v1() -> (r: Result<TeamDialogueSession, TeamCommunicationError>)
        ensures
            r matches Ok(s) && Ok::<DialogueView, TeamCommunicationError>(s@) == canonical_dialogue(2),
    {
        proof {
            lemma_dialogue_message_ids();
            let a = proposal_contest_v1_view();
            let b = counter_proposal_stabilize_v1_view();
            let c = ally_accept_view();
            lemma_dialogue_run_push(canonical_dialogue_start(2), seq![], a);
            lemma_dialogue_run_push(canonical_dialogue_start(2), seq![a], b);
            lemma_dialogue_run_push(canonical_dialogue_start(2), seq![a, b], c);
            assert(Seq::<EnvelopeView>::empty().push(a) =~= seq![a]);
            assert(seq![a].push(b) =~= seq![a, b]);
            assert(seq![a, b].push(c) =~= canonical_dialogue_messages(2));
        }
        let mut session = TeamDialogueSession::new(
            "dialogue-counter-negotiation-v1",
            LaneActorRole::AlliedAutonomous,
            LaneActorRole::HumanLaner,
            1,
        );
        post(&mut session, TeamCommunicationCatalog::proposal_contest_v1());
        post(&mut session, TeamCommunicationCatalog::counter_proposal_stabilize_v1());
        post(&mut session, ally_accept());
        Ok(session)
    }

    /// A clarification, a proposal, then its confirmation.
    pub fn dialogue_clarification_v1() -> (r: Result<TeamDialogueSession, TeamCommunicationError>)
        ensures
            r matches Ok(s) && Ok::<DialogueView, TeamCommunicationError>(s@) == canonical_dialogue(3),
    {
        proof {
            lemma_dialogue_message_ids();
            let a = clarification_timing_v1_view();
            let b = proposal_contest_v1_view();
            let c = confirmation_contest_v1_view();
            lemma_dialogue_run_push(canonical_dialogue_start(3), seq![], a);
            lemma_dialogue_run_push(canonical_dialogue_start(3), seq![a], b);
            lemma_dialogue_run_push(canonical_dialogue_start(3), seq![a, b], c);
            assert(Seq::<EnvelopeView>::empty().push(a) =~= seq![a]);
            assert(seq![a].push(b) =~= seq![a, b]);
            assert(seq![a, b].push(c) =~= canonical_dialogue_messages(3));
        }
        let mut session = TeamDialogueSession::new(
            "dialogue-clarification-v1",
            LaneActorRole::HumanLaner,
            LaneActorRole::AlliedAutonomous,
            1,
        );
        post(&mut session, TeamCommunicationCatalog::clarification_timing_v1());
        post(&mut session, TeamCommunicationCatalog::proposal_contest_v1());
        post(&mut session, TeamCommunicationCatalog::confirmation_contest_v1());
        Ok(session)
    }

    /// A proposal, a conditional commitment, then a confirmation.
    pub fn dialogue_conditional_commitment_v1() -> (r: Result<TeamDialogueSession, TeamCommunicationError>)
        ensures
            r matches Ok(s) && Ok::<DialogueView, TeamCommunicationError>(s@) == canonical_dialogue(4),
    {
        proof {
            lemma_dialogue_message_ids();
            let a = laner_prop_view();
            let b = conditional_commitment_contest_v1_view();
            let c = confirm_presence_view();
            lemma_dialogue_run_push(canonical_dialogue_start(4), seq![], a);
            lemma_dialogue_run_push(canonical_dialogue_start(4), seq![a], b);
            lemma_dialogue_run_push(canonical_dialogue_start(4), seq![a, b], c);
            assert(Seq::<EnvelopeView>::empty().push(a) =~= seq![a]);
            assert(seq![a].push(b) =~= seq![a, b]);
            assert(seq![a, b].push(c) =~= canonical_dialogue_messages(4));
        }
        let mut session = TeamDialogueSession::new(
            "dialogue-conditional-commitment-v1",
            LaneActorRole::HumanLaner,
            LaneActorRole::AlliedAutonomous,
            2,
        );
        post(&mut session, laner_prop());
        post(&mut session, TeamCommunicationCatalog::conditional_commitment_contest_v1());
        post(&mut session, confirm_presence());
        Ok(session)
    }

    /// A proposal, a conditional commitment, then its withdrawal.
    pub fn dialogue_withdrawal_v1() -> (r: Result<TeamDialogueSession, TeamCommunicationError>)
        ensures
            r matches Ok(s) && Ok::<DialogueView, TeamCommunicationError>(s@) == canonical_dialogue(5),
    {
        proof {
            lemma_dialogue_message_ids();
            let a = laner_prop_view();
            let b = conditional_commitment_contest_v1_view();
            let c = withdrawal_call_v1_view();
            lemma_dialogue_run_push(canonical_dialogue_start(5), seq![], a);
            lemma_dialogue_run_push(canonical_dialogue_start(5), seq![a], b);
            lemma_dialogue_run_push(canonical_dialogue_start(5), seq![a, b], c);
            assert(Seq::<EnvelopeView>::empty().push(a) =~= seq![a]);
            assert(seq![a].push(b) =~= seq![a, b]);
            assert(seq![a, b].push(c) =~= canonical_dialogue_messages(5));
        }
        let mut session = TeamDialogueSession::new(
            "dialogue-withdrawal-v1",
            LaneActorRole::HumanLaner,
            LaneActorRole::AlliedAutonomous,
            2,
        );
        post(&mut session, laner_prop());
        post(&mut session, TeamCommunicationCatalog::conditional_commitment_contest_v1());
        post(&mut session, TeamCommunicationCatalog::withdrawal_call_v1());
        Ok(session)
    }

    /// An agreed plan, then a failure report.
    pub fn dialogue_failure_recovery_v1() -> (r: Result<TeamDialogueSession, TeamCommunicationError>)
        ensures
            r matches Ok(s) && Ok::<DialogueView, TeamCommunicationError>(s@) == canonical_dialogue(6),
    {
        proof {
            lemma_dialogue_message_ids();
            let a = proposal_contest_v1_view();
            let b = confirmation_contest_v1_view();
            let c = failure_report_v1_view();
            lemma_dialogue_run_push(canonical_dialogue_start(6), seq![], a);
            lemma_dialogue_run_push(canonical_dialogue_start(6), seq![a], b);
            lemma_dialogue_run_push(canonical_dialogue_start(6), seq![a, b], c);
            assert(Seq::<EnvelopeView>::empty().push(a) =~= seq![a]);
            assert(seq![a].push(b) =~= seq![a, b]);
            assert(seq![a, b].push(c) =~= canonical_dialogue_messages(6));
        }
        let mut session = TeamDialogueSession::new(
            "dialogue-failure-recovery-v1",
            LaneActorRole::AlliedAutonomous,
            LaneActorRole::HumanLaner,
            1,
        );
        post(&mut session, TeamCommunicationCatalog::proposal_contest_v1());
        post(&mut session, TeamCommunicationCatalog::confirmation_contest_v1());
        post(&mut session, TeamCommunicationCatalog::failure_report_v1());
        Ok(session)
    }

    /// All canonical dialogues in their stable order.
    pub fn all_dialogues() -> (r: Vec<TeamDialogueSession>)
        ensures
            r.len() == 7,
            forall|k: int|
                0 <= k < 7 ==> Ok::<DialogueView, TeamCommunicationError>((#[trigger] r@[k])@)
                    == canonical_dialogue(k),
    {
        let mut r: Vec<TeamDialogueSession> = Vec::new();
        r.push(Self::dialogue_agreed_contest_v1().unwrap());
        r.push(Self::dialogue_dissent_threat_v1().unwrap());
        r.push(Self::dialogue_counter_negotiation_v1().unwrap());
        r.push(Self::dialogue_clarification_v1().unwrap());
        r.push(Self::dialogue_conditional_commitment_v1().unwrap());
        r.push(Self::dialogue_withdrawal_v1().unwrap());
        r.push(Self::dialogue_failure_recovery_v1().unwrap());
        r
    }

    /// The canonical dialogue with an identity, if any.
    pub fn lookup(session_id: &str) -> (r: Option<TeamDialogueSession>)
        ensures
            match r {
                Some(s) => canonical_dialogue_index(session_id@) matches Some(k) && Ok::<
                    DialogueView,
                    TeamCommunicationError,
                >(s@) == canonical_dialogue(k),
                None => canonical_dialogue_index(session_id@) is None,
            },
    {
        if str_eq(session_id, "dialogue-agreed-contest-v1") {
            Self::dialogue_agreed_contest_v1().ok()
        } else if str_eq(session_id, "dialogue-dissent-threat-v1") {
            Self::dialogue_dissent_threat_v1().ok()
        } else if str_eq(session_id, "dialogue-counter-negotiation-v1") {
            Self::dialogue_counter_negotiation_v1().ok()
        } else if str_eq(session_id, "dialogue-clarification-v1") {
            Self::dialogue_clarification_v1().ok()
        } else if str_eq(session_id, "dialogue-conditional-commitment-v1") {
            Self::dialogue_conditional_commitment_v1().ok()
        } else if str_eq(session_id, "dialogue-withdrawal-v1") {
            Self::dialogue_withdrawal_v1().ok()
        } else if str_eq(session_id, "dialogue-failure-recovery-v1") {
            Self::dialogue_failure_recovery_v1().ok()
        } else {
            None
        }
    }

    /// The canonical dialogue with an identity, or why there is none.
    pub fn validate_dialogue(session_id: &str) -> (r: Result<TeamDialogueSession, TeamCommunicationError>)
        ensures
            match r {
                Ok(s) => canonical_dialogue_index(session_id@) matches Some(k) && Ok::<
                    DialogueView,
                    TeamCommunicationError,
                >(s@) == canonical_dialogue(k),
                Err(x) => canonical_dialogue_index(session_id@) is None && x
                    == TeamCommunicationError::UnknownDialogueId,
            },
    {
        match Self::lookup(session_id) {
            Some(s) => Ok(s),
            None => Err(TeamCommunicationError::UnknownDialogueId),
        }
    }
}

} // verus!
