//! The outcome of a simultaneous team resolution, as debriefs and
//! attribution read it: the turn and observation it resolved, how well the
//! team's submissions agreed, and the team's cohesion in basis points.

use vstd::prelude::*;

verus! {

/// Largest team cohesion, in basis points.
pub const MAX_COHESION_BP: u32 = 10_000;

/// How well a team's simultaneous submissions agreed.
#[derive(Clone, Copy, Debug, PartialEq, Eq, Hash, Structural)]
pub enum TeamCoordinationOutcome {
    /// Every participant committed to one plan.
    FullyCoordinated,
    /// Most participants agreed, with some dissent.
    PartiallyCoordinated,
    /// Participants pursued different intents.
    DivergentIntents,
    /// Leadership calls or proposals conflicted.
    ConflictingDirectives,
    /// Messages did not reach their recipients.
    CommunicationFailure,
}

/// Variant name of a coordination outcome, as debugging output spells it.
pub open spec fn coordination_outcome_name(o: TeamCoordinationOutcome) -> Seq<char> {
    match o {
        TeamCoordinationOutcome::FullyCoordinated => "FullyCoordinated"@,
        TeamCoordinationOutcome::PartiallyCoordinated => "PartiallyCoordinated"@,
        TeamCoordinationOutcome::DivergentIntents => "DivergentIntents"@,
        TeamCoordinationOutcome::ConflictingDirectives => "ConflictingDirectives"@,
        TeamCoordinationOutcome::CommunicationFailure => "CommunicationFailure"@,
    }
}

impl TeamCoordinationOutcome {
    /// Variant name of this outcome.
    pub fn name(self) -> (r: &'static str)
        ensures
            r@ == coordination_outcome_name(self),
    {
        match self {
            Self::FullyCoordinated => "FullyCoordinated",
            Self::PartiallyCoordinated => "PartiallyCoordinated",
            Self::DivergentIntents => "DivergentIntents",
            Self::ConflictingDirectives => "ConflictingDirectives",
            Self::CommunicationFailure => "CommunicationFailure",
        }
    }
}

/// A resolved simultaneous team turn.
#[derive(Clone, Copy, Debug, PartialEq, Eq, Hash, Structural)]
pub struct TeamSimultaneousResolution {
    pub turn: u32,
    pub observation_id: u64,
    pub coordination_outcome: TeamCoordinationOutcome,
    pub team_cohesion_bp: u32,
}

impl TeamSimultaneousResolution {
    pub fn new(
        turn: u32,
        observation_id: u64,
        coordination_outcome: TeamCoordinationOutcome,
        team_cohesion_bp: u32,
    ) -> (r: Self)
        ensures
            r == (TeamSimultaneousResolution {
                turn,
                observation_id,
                coordination_outcome,
                team_cohesion_bp,
            }),
    {
        TeamSimultaneousResolution { turn, observation_id, coordination_outcome, team_cohesion_bp }
    }

    pub fn turn(&self) -> (r: u32)
        ensures
            r == self.turn,
    {
        self.turn
    }

    pub fn observation_id(&self) -> (r: u64)
        ensures
            r == self.observation_id,
    {
        self.observation_id
    }

    pub fn coordination_outcome(&self) -> (r: TeamCoordinationOutcome)
        ensures
            r == self.coordination_outcome,
    {
        self.coordination_outcome
    }

    pub fn team_cohesion_bp(&self) -> (r: u32)
        ensures
            r == self.team_cohesion_bp,
    {
        self.team_cohesion_bp
    }
}

} // verus!
