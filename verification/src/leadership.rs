//! How a team is led, as debriefs read it.

use vstd::prelude::*;
use crate::lane::{role_name, LaneActorRole};

verus! {

/// What a team does when its leader's call cannot be followed.
#[derive(Clone, Copy, Debug, PartialEq, Eq, Hash, Structural)]
pub enum FallbackLeadershipMode {
    /// Hold the default plan.
    FallbackToDefaultHold,
}

/// Variant name of a fallback mode, as debugging output spells it.
pub open spec fn fallback_mode_name(m: FallbackLeadershipMode) -> Seq<char> {
    match m {
        FallbackLeadershipMode::FallbackToDefaultHold => "FallbackToDefaultHold"@,
    }
}

/// The leadership structure of a team.
#[derive(Clone, Copy, Debug, PartialEq, Eq, Hash, Structural)]
pub enum LeadershipStructure {
    /// One role calls the shots; the fallback mode applies when its call fails.
    DesignatedShotCaller { caller: LaneActorRole, fallback_mode: FallbackLeadershipMode },
}

/// A leadership structure as debugging output spells it.
pub open spec fn leadership_name(s: LeadershipStructure) -> Seq<char> {
    match s {
        LeadershipStructure::DesignatedShotCaller { caller, fallback_mode } => "DesignatedShotCaller { caller: "@
            + role_name(caller) + ", fallback_mode: "@ + fallback_mode_name(fallback_mode) + " }"@,
    }
}

} // verus!
