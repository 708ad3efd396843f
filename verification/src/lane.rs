//! Actor-visible lane vocabulary consumed by the scripted policy: actor and
//! observation identities, policy stream identities, lane intents, and the
//! observation record a laner receives.

use vstd::prelude::*;

verus! {

/// Identity of one actor in the lane scenario.
#[derive(Clone, Copy, Debug, PartialEq, Eq, Hash, Structural)]
pub struct ActorId(pub u8);

impl ActorId {
    pub fn new(value: u8) -> (r: Self)
        ensures
            r.0 == value,
    {
        ActorId(value)
    }

    pub fn value(self) -> (r: u8)
        ensures
            r == self.0,
    {
        self.0
    }
}

/// Actor number of the player-controlled laner.
pub const HUMAN_LANER_ACTOR_ID: u8 = 1;

/// Actor number of the opposing laner.
pub const OPPOSING_LANER_ACTOR_ID: u8 = 2;

/// Actor number of the allied autonomous actor sharing the scenario.
pub const ALLIED_AUTONOMOUS_ACTOR_ID: u8 = 3;

/// Actor number of the opposing jungle threat.
pub const OPPOSING_JUNGLE_THREAT_ACTOR_ID: u8 = 4;

/// Caller-assigned identity of one observation.
#[derive(Clone, Copy, Debug, PartialEq, Eq, Hash, Structural)]
pub struct ObservationId(pub u64);

impl ObservationId {
    pub fn new(value: u64) -> (r: Self)
        ensures
            r.0 == value,
    {
        ObservationId(value)
    }

    pub fn value(self) -> (r: u64)
        ensures
            r == self.0,
    {
        self.0
    }
}

/// Identity of one explicit randomness stream.
#[derive(Clone, Copy, Debug, PartialEq, Eq, Hash, Structural)]
pub struct StreamId(pub u8);

impl StreamId {
    pub fn new(value: u8) -> (r: Self)
        ensures
            r.0 == value,
    {
        StreamId(value)
    }

    pub fn value(self) -> (r: u8)
        ensures
            r == self.0,
    {
        self.0
    }
}

/// Identity of one draw within a randomness stream.
#[derive(Clone, Copy, Debug, PartialEq, Eq, Hash, Structural)]
pub struct DrawId(pub u16);

impl DrawId {
    pub fn new(value: u16) -> (r: Self)
        ensures
            r.0 == value,
    {
        DrawId(value)
    }

    pub fn value(self) -> (r: u16)
        ensures
            r == self.0,
    {
        self.0
    }
}

/// One explicit (stream, draw) position.
#[derive(Clone, Copy, Debug, PartialEq, Eq, Hash, Structural)]
pub struct InputTrace {
    pub stream: StreamId,
    pub draw: DrawId,
}

impl InputTrace {
    pub fn new(stream: StreamId, draw: DrawId) -> (r: Self)
        ensures
            r.stream == stream,
            r.draw == draw,
    {
        InputTrace { stream, draw }
    }

    pub fn stream(self) -> (r: StreamId)
        ensures
            r == self.stream,
    {
        self.stream
    }

    pub fn draw(self) -> (r: DrawId)
        ensures
            r == self.draw,
    {
        self.draw
    }
}

/// Version of the lane ruleset.
#[derive(Clone, Copy, Debug, PartialEq, Eq, Hash, Structural)]
pub struct LaneRuleset(pub u8);

impl LaneRuleset {
    pub fn value(self) -> (r: u8)
        ensures
            r == self.0,
    {
        self.0
    }
}

/// Version of the lane ruleset the fixture is built on.
pub const M2_LANE_RULESET_VERSION: u8 = 4;

/// One lane turn.
#[derive(Clone, Copy, Debug, PartialEq, Eq, Hash, Structural)]
pub struct LaneTurn(pub u32);

impl LaneTurn {
    pub fn new(value: u32) -> (r: Self)
        ensures
            r.0 == value,
    {
        LaneTurn(value)
    }

    pub fn value(self) -> (r: u32)
        ensures
            r == self.0,
    {
        self.0
    }
}

/// The five lane intents, in their canonical order.
#[derive(Clone, Copy, Debug, PartialEq, Eq, Hash, Structural)]
pub enum LaneIntent {
    Stabilize,
    Contest,
    Yield,
    Recall,
    Withdraw,
}

/// Canonical index of an intent in `[Stabilize, Contest, Yield, Recall, Withdraw]`.
pub open spec fn intent_index(intent: LaneIntent) -> nat {
    match intent {
        LaneIntent::Stabilize => 0,
        LaneIntent::Contest => 1,
        LaneIntent::Yield => 2,
        LaneIntent::Recall => 3,
        LaneIntent::Withdraw => 4,
    }
}

/// The intent at a canonical index.
pub open spec fn intent_at(index: int) -> LaneIntent {
    if index == 0 {
        LaneIntent::Stabilize
    } else if index == 1 {
        LaneIntent::Contest
    } else if index == 2 {
        LaneIntent::Yield
    } else if index == 3 {
        LaneIntent::Recall
    } else {
        LaneIntent::Withdraw
    }
}

impl LaneIntent {
    /// The intent at a canonical index.
    pub fn from_index(index: usize) -> (r: LaneIntent)
        requires
            index < 5,
        ensures
            r == intent_at(index as int),
            intent_index(r) == index,
    {
        if index == 0 {
            LaneIntent::Stabilize
        } else if index == 1 {
            LaneIntent::Contest
        } else if index == 2 {
            LaneIntent::Yield
        } else if index == 3 {
            LaneIntent::Recall
        } else {
            LaneIntent::Withdraw
        }
    }

    /// The canonical index of this intent.
    pub fn index(self) -> (r: usize)
        ensures
            r == intent_index(self),
            intent_at(r as int) == self,
    {
        match self {
            LaneIntent::Stabilize => 0,
            LaneIntent::Contest => 1,
            LaneIntent::Yield => 2,
            LaneIntent::Recall => 3,
            LaneIntent::Withdraw => 4,
        }
    }
}

/// Canonical label of an intent.
pub open spec fn intent_label(i: LaneIntent) -> Seq<char> {
    match i {
        LaneIntent::Stabilize => "stabilize"@,
        LaneIntent::Contest => "contest"@,
        LaneIntent::Yield => "yield"@,
        LaneIntent::Recall => "recall"@,
        LaneIntent::Withdraw => "withdraw"@,
    }
}

/// Variant name of an intent, as debugging output spells it.
pub open spec fn intent_name(i: LaneIntent) -> Seq<char> {
    match i {
        LaneIntent::Stabilize => "Stabilize"@,
        LaneIntent::Contest => "Contest"@,
        LaneIntent::Yield => "Yield"@,
        LaneIntent::Recall => "Recall"@,
        LaneIntent::Withdraw => "Withdraw"@,
    }
}

/// An optional intent as debugging output spells it.
pub open spec fn optional_intent_name(i: Option<LaneIntent>) -> Seq<char> {
    match i {
        Some(x) => "Some("@ + intent_name(x) + ")"@,
        None => "None"@,
    }
}

impl LaneIntent {
    /// Canonical label of this intent.
    pub fn as_str(self) -> (r: &'static str)
        ensures
            r@ == intent_label(self),
    {
        match self {
            LaneIntent::Stabilize => "stabilize",
            LaneIntent::Contest => "contest",
            LaneIntent::Yield => "yield",
            LaneIntent::Recall => "recall",
            LaneIntent::Withdraw => "withdraw",
        }
    }

    /// Variant name of this intent.
    pub fn name(self) -> (r: &'static str)
        ensures
            r@ == intent_name(self),
    {
        match self {
            LaneIntent::Stabilize => "Stabilize",
            LaneIntent::Contest => "Contest",
            LaneIntent::Yield => "Yield",
            LaneIntent::Recall => "Recall",
            LaneIntent::Withdraw => "Withdraw",
        }
    }
}

/// Set of intents advertised to an actor, one flag per intent.
#[derive(Clone, Copy, Debug, PartialEq, Eq, Hash, Structural)]
pub struct LaneIntentSet {
    pub stabilize: bool,
    pub contest: bool,
    pub yield_: bool,
    pub recall: bool,
    pub withdraw: bool,
}

/// Membership in an intent set.
pub open spec fn intent_set_contains(set: LaneIntentSet, intent: LaneIntent) -> bool {
    match intent {
        LaneIntent::Stabilize => set.stabilize,
        LaneIntent::Contest => set.contest,
        LaneIntent::Yield => set.yield_,
        LaneIntent::Recall => set.recall,
        LaneIntent::Withdraw => set.withdraw,
    }
}

/// The members of an intent set among the first `n` canonical intents, in canonical order.
pub open spec fn intent_set_prefix(set: LaneIntentSet, n: nat) -> Seq<LaneIntent>
    decreases n,
{
    if n == 0 {
        Seq::empty()
    } else {
        let rest = intent_set_prefix(set, (n - 1) as nat);
        let intent = intent_at(n - 1);
        if intent_set_contains(set, intent) {
            rest.push(intent)
        } else {
            rest
        }
    }
}

/// The members of an intent set in canonical order.
pub open spec fn intent_set_seq(set: LaneIntentSet) -> Seq<LaneIntent> {
    intent_set_prefix(set, 5)
}

/// Every member of a prefix lies below the prefix bound, occurs once, and the
/// prefix holds exactly the members below the bound.
pub proof fn lemma_intent_set_prefix(set: LaneIntentSet, n: nat)
    requires
        n <= 5,
    ensures
        forall|i: int|
            0 <= i < intent_set_prefix(set, n).len() ==> intent_index(
                #[trigger] intent_set_prefix(set, n)[i],
            ) < n && intent_set_contains(set, intent_set_prefix(set, n)[i]),
        forall|intent: LaneIntent|
            intent_index(intent) < n && intent_set_contains(set, intent) ==> #[trigger] intent_set_prefix(
                set,
                n,
            ).contains(intent),
        intent_set_prefix(set, n).no_duplicates(),
        intent_set_prefix(set, n).len() <= n,
    decreases n,
{
    if n > 0 {
        lemma_intent_set_prefix(set, (n - 1) as nat);
        let rest = intent_set_prefix(set, (n - 1) as nat);
        let intent = intent_at(n - 1);
        if intent_set_contains(set, intent) {
            assert forall|x: LaneIntent|
                intent_index(x) < n && intent_set_contains(set, x) implies #[trigger] rest.push(
                intent,
            ).contains(x) by {
                if intent_index(x) < n - 1 {
                    assert(rest.contains(x));
                    let k = choose|k: int| 0 <= k < rest.len() && rest[k] == x;
                    assert(rest.push(intent)[k] == x);
                } else {
                    assert(x == intent);
                    assert(rest.push(intent)[rest.len() as int] == x);
                }
            }
        } else {
            assert forall|x: LaneIntent|
                intent_index(x) < n && intent_set_contains(set, x) implies #[trigger] rest.contains(
                x,
            ) by {
                if intent_index(x) == n - 1 {
                    assert(x == intent);
                } else {
                    assert(rest.contains(x));
                }
            }
        }
    }
}

impl LaneIntentSet {
    /// Whether the set advertises the intent.
    pub fn contains(self, intent: LaneIntent) -> (r: bool)
        ensures
            r == intent_set_contains(self, intent),
    {
        match intent {
            LaneIntent::Stabilize => self.stabilize,
            LaneIntent::Contest => self.contest,
            LaneIntent::Yield => self.yield_,
            LaneIntent::Recall => self.recall,
            LaneIntent::Withdraw => self.withdraw,
        }
    }

    /// The advertised intents in canonical order.
    pub fn to_vec(self) -> (r: Vec<LaneIntent>)
        ensures
            r@ == intent_set_seq(self),
    {
        let mut out: Vec<LaneIntent> = Vec::new();
        let mut i: usize = 0;
        while i < 5
            invariant
                i <= 5,
                out@ == intent_set_prefix(self, i as nat),
            decreases 5 - i,
        {
            let intent = LaneIntent::from_index(i);
            if self.contains(intent) {
                out.push(intent);
            }
            i = i + 1;
        }
        out
    }
}

/// Position of a laner in the lane.
#[derive(Clone, Copy, Debug, PartialEq, Eq, Hash, Structural)]
pub enum LanePosition {
    NearTower,
    Center,
    FarSide,
}

/// The only jungle region a threat can be seen in.
#[derive(Clone, Copy, Debug, PartialEq, Eq, Hash, Structural)]
pub enum JungleThreatRegion {
    RiverSide,
}

/// True position of the jungle threat.
#[derive(Clone, Copy, Debug, PartialEq, Eq, Hash, Structural)]
pub enum JungleThreatTruth {
    Absent,
    RiverSide,
}

/// Value hidden from the observing actor.
#[derive(Clone, Copy, Debug, PartialEq, Eq, Hash, Structural)]
pub enum HiddenValue {
    Unknown,
}

/// Target focus a laner may commit to.
#[derive(Clone, Copy, Debug, PartialEq, Eq, Hash, Structural)]
pub enum LaneTargetFocus {
    Minions,
    OpposingLaner,
    Tower,
}

/// Commitment level of a plan.
#[derive(Clone, Copy, Debug, PartialEq, Eq, Hash, Structural)]
pub enum LaneCommitment {
    Standard,
    Cautious,
    Aggressive,
}

/// Ping signal an actor may send.
#[derive(Clone, Copy, Debug, PartialEq, Eq, Hash, Structural)]
pub enum LanePingSignal {
    NoPing,
    Danger,
    OnMyWay,
    Assist,
    EnemyMissing,
}

/// Condition that aborts a plan.
#[derive(Clone, Copy, Debug, PartialEq, Eq, Hash, Structural)]
pub enum LaneAbortCondition {
    NoAbort,
    HealthThreshold,
    ThreatSpotted,
    ResourceDepleted,
}

/// Behavior after an aborted plan.
#[derive(Clone, Copy, Debug, PartialEq, Eq, Hash, Structural)]
pub enum LaneFallbackBehavior {
    MaintainPlan,
    RetreatToTower,
    SafeFarm,
    ConserveResources,
}

/// Observable outcome of one lane exchange.
#[derive(Clone, Copy, Debug, PartialEq, Eq, Hash, Structural)]
pub enum LaneOutcome {
    HeldSpace,
    ForcedOut,
    YieldedSpace,
}

/// Variant name of an outcome, as debugging output spells it.
pub open spec fn outcome_name(o: LaneOutcome) -> Seq<char> {
    match o {
        LaneOutcome::HeldSpace => "HeldSpace"@,
        LaneOutcome::ForcedOut => "ForcedOut"@,
        LaneOutcome::YieldedSpace => "YieldedSpace"@,
    }
}

impl LaneOutcome {
    /// Variant name of this outcome.
    pub fn name(self) -> (r: &'static str)
        ensures
            r@ == outcome_name(self),
    {
        match self {
            LaneOutcome::HeldSpace => "HeldSpace",
            LaneOutcome::ForcedOut => "ForcedOut",
            LaneOutcome::YieldedSpace => "YieldedSpace",
        }
    }
}

/// Roles on the lane roster.
#[derive(Clone, Copy, Debug, PartialEq, Eq, Hash, Structural)]
pub enum LaneActorRole {
    HumanLaner,
    OpposingLaner,
    AlliedAutonomous,
    OpposingJungleThreat,
}

/// Canonical label of a role.
pub open spec fn role_label(r: LaneActorRole) -> Seq<char> {
    match r {
        LaneActorRole::HumanLaner => "human-laner"@,
        LaneActorRole::OpposingLaner => "opposing-laner"@,
        LaneActorRole::AlliedAutonomous => "allied-autonomous"@,
        LaneActorRole::OpposingJungleThreat => "opposing-jungle-threat"@,
    }
}

/// Variant name of a role, as debugging output spells it.
pub open spec fn role_name(r: LaneActorRole) -> Seq<char> {
    match r {
        LaneActorRole::HumanLaner => "HumanLaner"@,
        LaneActorRole::OpposingLaner => "OpposingLaner"@,
        LaneActorRole::AlliedAutonomous => "AlliedAutonomous"@,
        LaneActorRole::OpposingJungleThreat => "OpposingJungleThreat"@,
    }
}

impl LaneActorRole {
    /// Canonical label of this role.
    pub fn as_str(self) -> (r: &'static str)
        ensures
            r@ == role_label(self),
    {
        match self {
            LaneActorRole::HumanLaner => "human-laner",
            LaneActorRole::OpposingLaner => "opposing-laner",
            LaneActorRole::AlliedAutonomous => "allied-autonomous",
            LaneActorRole::OpposingJungleThreat => "opposing-jungle-threat",
        }
    }

    /// Variant name of this role.
    pub fn name(self) -> (r: &'static str)
        ensures
            r@ == role_name(self),
    {
        match self {
            LaneActorRole::HumanLaner => "HumanLaner",
            LaneActorRole::OpposingLaner => "OpposingLaner",
            LaneActorRole::AlliedAutonomous => "AlliedAutonomous",
            LaneActorRole::OpposingJungleThreat => "OpposingJungleThreat",
        }
    }

    /// The roster in its fixed order.
    pub fn roster() -> (r: [LaneActorRole; 4])
        ensures
            r@ == seq![
                LaneActorRole::HumanLaner,
                LaneActorRole::OpposingLaner,
                LaneActorRole::AlliedAutonomous,
                LaneActorRole::OpposingJungleThreat,
            ],
    {
        [
            LaneActorRole::HumanLaner,
            LaneActorRole::OpposingLaner,
            LaneActorRole::AlliedAutonomous,
            LaneActorRole::OpposingJungleThreat,
        ]
    }

    /// The actor that plays this role.
    pub fn actor(self) -> (r: ActorId)
        ensures
            r == (match self {
                LaneActorRole::HumanLaner => ActorId(HUMAN_LANER_ACTOR_ID),
                LaneActorRole::OpposingLaner => ActorId(OPPOSING_LANER_ACTOR_ID),
                LaneActorRole::AlliedAutonomous => ActorId(ALLIED_AUTONOMOUS_ACTOR_ID),
            LaneActorRole::OpposingJungleThreat => ActorId(OPPOSING_JUNGLE_THREAT_ACTOR_ID),
            }),
    {
        match self {
            LaneActorRole::HumanLaner => ActorId(HUMAN_LANER_ACTOR_ID),
            LaneActorRole::OpposingLaner => ActorId(OPPOSING_LANER_ACTOR_ID),
            LaneActorRole::AlliedAutonomous => ActorId(ALLIED_AUTONOMOUS_ACTOR_ID),
            LaneActorRole::OpposingJungleThreat => ActorId(OPPOSING_JUNGLE_THREAT_ACTOR_ID),
        }
    }
}

/// Largest wave pressure the lane tracks.
pub const MAX_WAVE_PRESSURE: u8 = 3;

/// Bounded pressure of the minion wave on the observer's side.
#[derive(Clone, Copy, Debug, PartialEq, Eq, Hash, Structural)]
pub struct WavePressure(pub u8);

impl WavePressure {
    /// A pressure, if it is within the lane's bound.
    pub fn new(value: u8) -> (r: Option<Self>)
        ensures
            r == (if value <= MAX_WAVE_PRESSURE {
                Some(WavePressure(value))
            } else {
                None::<WavePressure>
            }),
    {
        if value <= MAX_WAVE_PRESSURE {
            Some(WavePressure(value))
        } else {
            None
        }
    }

    pub fn value(self) -> (r: u8)
        ensures
            r == self.0,
    {
        self.0
    }
}

/// Wave state of one lane snapshot.
#[derive(Clone, Copy, Debug, PartialEq, Eq, Hash, Structural)]
pub struct WaveState {
    pub pressure: WavePressure,
}

impl WaveState {
    pub fn new(pressure: WavePressure) -> (r: Self)
        ensures
            r.pressure == pressure,
    {
        WaveState { pressure }
    }

    pub fn pressure(self) -> (r: WavePressure)
        ensures
            r == self.pressure,
    {
        self.pressure
    }
}

/// Whether the lane still accepts intents.
#[derive(Clone, Copy, Debug, PartialEq, Eq, Hash, Structural)]
pub enum LaneStatus {
    Open,
    Resolved,
}

/// True resources and position of one laner.
#[derive(Clone, Copy, Debug, PartialEq, Eq, Hash, Structural)]
pub struct LaneActorState {
    pub health: u8,
    pub mana: u8,
    pub gold: u8,
    pub experience: u8,
    pub cooldown: u8,
    pub position: LanePosition,
}

/// True state of the lane.
#[derive(Clone, Copy, Debug, PartialEq, Eq, Hash, Structural)]
pub struct LaneSnapshot {
    pub ruleset: LaneRuleset,
    pub turn: LaneTurn,
    pub status: LaneStatus,
    pub player: LaneActorState,
    pub opponent: LaneActorState,
    pub wave: WaveState,
    pub jungle_threat: JungleThreatTruth,
}

impl LaneSnapshot {
    /// The fixture's opening state.
    pub fn initial() -> (r: Self)
        ensures
            r == initial_snapshot(),
    {
        LaneSnapshot {
            ruleset: LaneRuleset(M2_LANE_RULESET_VERSION),
            turn: LaneTurn(0),
            status: LaneStatus::Open,
            player: LaneActorState {
                health: 100,
                mana: 50,
                gold: 0,
                experience: 0,
                cooldown: 0,
                position: LanePosition::Center,
            },
            opponent: LaneActorState {
                health: 100,
                mana: 50,
                gold: 0,
                experience: 0,
                cooldown: 0,
                position: LanePosition::Center,
            },
            wave: WaveState { pressure: WavePressure(1) },
            jungle_threat: JungleThreatTruth::Absent,
        }
    }

    pub fn new(
        ruleset: LaneRuleset,
        turn: LaneTurn,
        status: LaneStatus,
        player: LaneActorState,
        opponent: LaneActorState,
        wave: WaveState,
        jungle_threat: JungleThreatTruth,
    ) -> (r: Self)
        ensures
            r == (LaneSnapshot { ruleset, turn, status, player, opponent, wave, jungle_threat }),
    {
        LaneSnapshot { ruleset, turn, status, player, opponent, wave, jungle_threat }
    }

    pub fn ruleset(self) -> (r: LaneRuleset)
        ensures
            r == self.ruleset,
    {
        self.ruleset
    }

    pub fn turn(self) -> (r: LaneTurn)
        ensures
            r == self.turn,
    {
        self.turn
    }

    pub fn status(self) -> (r: LaneStatus)
        ensures
            r == self.status,
    {
        self.status
    }

    pub fn player(self) -> (r: LaneActorState)
        ensures
            r == self.player,
    {
        self.player
    }

    pub fn opponent(self) -> (r: LaneActorState)
        ensures
            r == self.opponent,
    {
        self.opponent
    }

    pub fn wave(self) -> (r: WaveState)
        ensures
            r == self.wave,
    {
        self.wave
    }

    pub fn jungle_threat(self) -> (r: JungleThreatTruth)
        ensures
            r == self.jungle_threat,
    {
        self.jungle_threat
    }
}

/// The fixture's opening state.
pub open spec fn initial_snapshot() -> LaneSnapshot {
    LaneSnapshot {
        ruleset: LaneRuleset(4),
        turn: LaneTurn(0),
        status: LaneStatus::Open,
        player: LaneActorState {
            health: 100,
            mana: 50,
            gold: 0,
            experience: 0,
            cooldown: 0,
            position: LanePosition::Center,
        },
        opponent: LaneActorState {
            health: 100,
            mana: 50,
            gold: 0,
            experience: 0,
            cooldown: 0,
            position: LanePosition::Center,
        },
        wave: WaveState { pressure: WavePressure(1) },
        jungle_threat: JungleThreatTruth::Absent,
    }
}

/// What the observer knows of the opposing laner.
#[derive(Clone, Copy, Debug, PartialEq, Eq, Hash, Structural)]
pub struct OpponentObservation {
    pub last_known_position: Option<LanePosition>,
    pub last_seen_turn: Option<LaneTurn>,
    pub health: HiddenValue,
    pub posture: HiddenValue,
}

/// Where and when the jungle threat was seen.
#[derive(Clone, Copy, Debug, PartialEq, Eq, Hash, Structural)]
pub struct ThreatSighting {
    pub region: JungleThreatRegion,
    pub turn: LaneTurn,
}

/// What the observer knows of the jungle threat: where and when it was last seen.
#[derive(Clone, Copy, Debug, PartialEq, Eq, Hash, Structural)]
pub struct JungleThreatObservation {
    pub last_known: Option<ThreatSighting>,
}

impl JungleThreatObservation {
    pub fn last_known_region(self) -> (r: Option<JungleThreatRegion>)
        ensures
            r == (match self.last_known {
                Some(k) => Some(k.region),
                None => None::<JungleThreatRegion>,
            }),
    {
        match self.last_known {
            Some(k) => Some(k.region),
            None => None,
        }
    }

    pub fn last_seen_turn(self) -> (r: Option<LaneTurn>)
        ensures
            r == (match self.last_known {
                Some(k) => Some(k.turn),
                None => None::<LaneTurn>,
            }),
    {
        match self.last_known {
            Some(k) => Some(k.turn),
            None => None,
        }
    }
}

impl OpponentObservation {
    pub fn last_known_position(self) -> (r: Option<LanePosition>)
        ensures
            r == self.last_known_position,
    {
        self.last_known_position
    }

    pub fn last_seen_turn(self) -> (r: Option<LaneTurn>)
        ensures
            r == self.last_seen_turn,
    {
        self.last_seen_turn
    }

    pub fn health(self) -> (r: HiddenValue)
        ensures
            r == self.health,
    {
        self.health
    }

    pub fn posture(self) -> (r: HiddenValue)
        ensures
            r == self.posture,
    {
        self.posture
    }
}

/// The actor of each roster role.
#[derive(Clone, Copy, Debug, PartialEq, Eq, Hash, Structural)]
pub struct LaneRoster {
    pub human_laner: ActorId,
    pub opposing_laner: ActorId,
    pub allied_autonomous: ActorId,
    pub opposing_jungle_threat: ActorId,
}

/// Which target focuses are advertised.
#[derive(Clone, Copy, Debug, PartialEq, Eq, Hash, Structural)]
pub struct LaneTargetFocusSet {
    pub minions: bool,
    pub opposing_laner: bool,
    pub tower: bool,
}

/// Which commitment levels are advertised.
#[derive(Clone, Copy, Debug, PartialEq, Eq, Hash, Structural)]
pub struct LaneCommitmentSet {
    pub standard: bool,
    pub cautious: bool,
    pub aggressive: bool,
}

/// Which ping signals are advertised.
#[derive(Clone, Copy, Debug, PartialEq, Eq, Hash, Structural)]
pub struct LanePingSignalSet {
    pub no_ping: bool,
    pub danger: bool,
    pub on_my_way: bool,
    pub assist: bool,
    pub enemy_missing: bool,
}

/// Which abort conditions are advertised.
#[derive(Clone, Copy, Debug, PartialEq, Eq, Hash, Structural)]
pub struct LaneAbortConditionSet {
    pub no_abort: bool,
    pub health_threshold: bool,
    pub threat_spotted: bool,
    pub resource_depleted: bool,
}

/// Which fallback behaviors are advertised.
#[derive(Clone, Copy, Debug, PartialEq, Eq, Hash, Structural)]
pub struct LaneFallbackBehaviorSet {
    pub maintain_plan: bool,
    pub retreat_to_tower: bool,
    pub safe_farm: bool,
    pub conserve_resources: bool,
}

/// Everything a laner may read when choosing an intent; it holds no true
/// state of other actors.
#[derive(Clone, Copy, Debug, PartialEq, Eq, Hash, Structural)]
pub struct LanerObservation {
    pub observer: ActorId,
    pub turn: LaneTurn,
    pub observation_id: ObservationId,
    pub self_health: u8,
    pub self_mana: u8,
    pub self_gold: u8,
    pub self_experience: u8,
    pub self_cooldown: u8,
    pub self_position: LanePosition,
    pub wave_pressure: WavePressure,
    pub opponent: OpponentObservation,
    pub jungle_threat: JungleThreatObservation,
    pub available_intents: LaneIntentSet,
    pub available_threat_response: Option<LaneIntent>,
    pub actors: LaneRoster,
    pub available_target_focuses: LaneTargetFocusSet,
    pub available_commitments: LaneCommitmentSet,
    pub available_ping_signals: LanePingSignalSet,
    pub available_abort_conditions: LaneAbortConditionSet,
    pub available_fallback_behaviors: LaneFallbackBehaviorSet,
    pub window_beats: u32,
}

/// Schema identity of a laner observation.
pub const LANER_OBSERVATION_SCHEMA: &'static str = "m2-laner-observation-v1";

impl LanerObservation {
    pub fn schema(self) -> (r: &'static str)
        ensures
            r@ == LANER_OBSERVATION_SCHEMA@,
    {
        LANER_OBSERVATION_SCHEMA
    }

    pub fn observer(self) -> (r: ActorId)
        ensures
            r == self.observer,
    {
        self.observer
    }

    pub fn turn(self) -> (r: LaneTurn)
        ensures
            r == self.turn,
    {
        self.turn
    }

    pub fn observation_id(self) -> (r: ObservationId)
        ensures
            r == self.observation_id,
    {
        self.observation_id
    }

    pub fn self_health(self) -> (r: u8)
        ensures
            r == self.self_health,
    {
        self.self_health
    }

    pub fn self_mana(self) -> (r: u8)
        ensures
            r == self.self_mana,
    {
        self.self_mana
    }

    pub fn self_gold(self) -> (r: u8)
        ensures
            r == self.self_gold,
    {
        self.self_gold
    }

    pub fn self_experience(self) -> (r: u8)
        ensures
            r == self.self_experience,
    {
        self.self_experience
    }

    pub fn self_cooldown(self) -> (r: u8)
        ensures
            r == self.self_cooldown,
    {
        self.self_cooldown
    }

    pub fn self_position(self) -> (r: LanePosition)
        ensures
            r == self.self_position,
    {
        self.self_position
    }

    pub fn wave_pressure(self) -> (r: WavePressure)
        ensures
            r == self.wave_pressure,
    {
        self.wave_pressure
    }

    pub fn opponent(self) -> (r: OpponentObservation)
        ensures
            r == self.opponent,
    {
        self.opponent
    }

    pub fn jungle_threat(self) -> (r: JungleThreatObservation)
        ensures
            r == self.jungle_threat,
    {
        self.jungle_threat
    }

    /// The advertised intents in canonical order.
    pub fn available_intents(self) -> (r: Vec<LaneIntent>)
        ensures
            r@ == intent_set_seq(self.available_intents),
    {
        self.available_intents.to_vec()
    }

    /// The intent that answers a visible threat, if one is visible.
    pub fn available_threat_response(self) -> (r: Option<LaneIntent>)
        ensures
            r == self.available_threat_response,
    {
        self.available_threat_response
    }

    pub fn window_beats(self) -> (r: u32)
        ensures
            r == self.window_beats,
    {
        self.window_beats
    }
}

/// The observation the player receives of a snapshot.
pub open spec fn player_observation(state: LaneSnapshot, id: ObservationId) -> LanerObservation {
    let open = state.status == LaneStatus::Open;
    let threat = state.jungle_threat == JungleThreatTruth::RiverSide;
    LanerObservation {
        observer: ActorId(HUMAN_LANER_ACTOR_ID),
        turn: state.turn,
        observation_id: id,
        self_health: state.player.health,
        self_mana: state.player.mana,
        self_gold: state.player.gold,
        self_experience: state.player.experience,
        self_cooldown: state.player.cooldown,
        self_position: state.player.position,
        wave_pressure: state.wave.pressure,
        opponent: OpponentObservation {
            last_known_position: Some(state.opponent.position),
            last_seen_turn: Some(state.turn),
            health: HiddenValue::Unknown,
            posture: HiddenValue::Unknown,
        },
        jungle_threat: JungleThreatObservation {
            last_known: if threat {
                Some(ThreatSighting { region: JungleThreatRegion::RiverSide, turn: state.turn })
            } else {
                None
            },
        },
        available_intents: LaneIntentSet {
            stabilize: open,
            contest: open,
            yield_: open,
            recall: open,
            withdraw: false,
        },
        available_threat_response: if open && threat {
            Some(LaneIntent::Withdraw)
        } else {
            None
        },
        actors: LaneRoster {
            human_laner: ActorId(HUMAN_LANER_ACTOR_ID),
            opposing_laner: ActorId(OPPOSING_LANER_ACTOR_ID),
            allied_autonomous: ActorId(ALLIED_AUTONOMOUS_ACTOR_ID),
            opposing_jungle_threat: ActorId(OPPOSING_JUNGLE_THREAT_ACTOR_ID),
        },
        available_target_focuses: LaneTargetFocusSet { minions: open, opposing_laner: open, tower: open },
        available_commitments: LaneCommitmentSet { standard: open, cautious: open, aggressive: open },
        available_ping_signals: LanePingSignalSet {
            no_ping: open,
            danger: open,
            on_my_way: open,
            assist: open,
            enemy_missing: open,
        },
        available_abort_conditions: LaneAbortConditionSet {
            no_abort: open,
            health_threshold: open,
            threat_spotted: open,
            resource_depleted: open,
        },
        available_fallback_behaviors: LaneFallbackBehaviorSet {
            maintain_plan: open,
            retreat_to_tower: open,
            safe_farm: open,
            conserve_resources: open,
        },
        window_beats: 2,
    }
}

/// An observation handed to an actor, bound to the snapshot's turn.
#[derive(Clone, Copy, Debug, PartialEq, Eq, Hash, Structural)]
pub struct ObservationReceipt {
    pub observation: LanerObservation,
}

impl ObservationReceipt {
    pub fn observation(self) -> (r: LanerObservation)
        ensures
            r == self.observation,
    {
        self.observation
    }
}

/// Observe a snapshot from the player's side.
pub fn observe_player(state: &LaneSnapshot, id: ObservationId) -> (r: ObservationReceipt)
    ensures
        r.observation == player_observation(*state, id),
{
    let open = match state.status {
        LaneStatus::Open => true,
        LaneStatus::Resolved => false,
    };
    let threat = match state.jungle_threat {
        JungleThreatTruth::RiverSide => true,
        JungleThreatTruth::Absent => false,
    };
    let observation = LanerObservation {
        observer: ActorId(HUMAN_LANER_ACTOR_ID),
        turn: state.turn,
        observation_id: id,
        self_health: state.player.health,
        self_mana: state.player.mana,
        self_gold: state.player.gold,
        self_experience: state.player.experience,
        self_cooldown: state.player.cooldown,
        self_position: state.player.position,
        wave_pressure: state.wave.pressure,
        opponent: OpponentObservation {
            last_known_position: Some(state.opponent.position),
            last_seen_turn: Some(state.turn),
            health: HiddenValue::Unknown,
            posture: HiddenValue::Unknown,
        },
        jungle_threat: JungleThreatObservation {
            last_known: if threat {
                Some(ThreatSighting { region: JungleThreatRegion::RiverSide, turn: state.turn })
            } else {
                None
            },
        },
        available_intents: LaneIntentSet {
            stabilize: open,
            contest: open,
            yield_: open,
            recall: open,
            withdraw: false,
        },
        available_threat_response: if open && threat {
            Some(LaneIntent::Withdraw)
        } else {
            None
        },
        actors: LaneRoster {
            human_laner: ActorId(HUMAN_LANER_ACTOR_ID),
            opposing_laner: ActorId(OPPOSING_LANER_ACTOR_ID),
            allied_autonomous: ActorId(ALLIED_AUTONOMOUS_ACTOR_ID),
            opposing_jungle_threat: ActorId(OPPOSING_JUNGLE_THREAT_ACTOR_ID),
        },
        available_target_focuses: LaneTargetFocusSet { minions: open, opposing_laner: open, tower: open },
        available_commitments: LaneCommitmentSet { standard: open, cautious: open, aggressive: open },
        available_ping_signals: LanePingSignalSet {
            no_ping: open,
            danger: open,
            on_my_way: open,
            assist: open,
            enemy_missing: open,
        },
        available_abort_conditions: LaneAbortConditionSet {
            no_abort: open,
            health_threshold: open,
            threat_spotted: open,
            resource_depleted: open,
        },
        available_fallback_behaviors: LaneFallbackBehaviorSet {
            maintain_plan: open,
            retreat_to_tower: open,
            safe_farm: open,
            conserve_resources: open,
        },
        window_beats: 2,
    };
    ObservationReceipt { observation }
}

/// An actor's request to act on one observation.
#[derive(Clone, Copy, Debug, PartialEq, Eq, Hash, Structural)]
pub struct LaneIntentRequest {
    pub actor: ActorId,
    pub observation_id: ObservationId,
    pub intent: LaneIntent,
}

impl LaneIntentRequest {
    pub fn new(actor: ActorId, observation_id: ObservationId, intent: LaneIntent) -> (r: Self)
        ensures
            r == (LaneIntentRequest { actor, observation_id, intent }),
    {
        LaneIntentRequest { actor, observation_id, intent }
    }

    pub fn actor(self) -> (r: ActorId)
        ensures
            r == self.actor,
    {
        self.actor
    }

    pub fn observation_id(self) -> (r: ObservationId)
        ensures
            r == self.observation_id,
    {
        self.observation_id
    }

    pub fn intent(self) -> (r: LaneIntent)
        ensures
            r == self.intent,
    {
        self.intent
    }
}

/// Why the host refused a lane request.
#[derive(Clone, Copy, Debug, PartialEq, Eq, Hash, Structural)]
pub enum LaneRequestError {
    StaleObservation,
    WrongActor,
    UnavailableIntent,
}

/// Whether a request is one the observation advertised.
pub open spec fn request_is_advertised(observation: LanerObservation, intent: LaneIntent) -> bool {
    intent_set_contains(observation.available_intents, intent)
        || observation.available_threat_response == Some(intent)
}

/// Validate a request against the snapshot and the receipt it answers.
pub fn validate_lane_request(
    state: &LaneSnapshot,
    receipt: &ObservationReceipt,
    request: &LaneIntentRequest,
) -> (r: Result<(), LaneRequestError>)
    ensures
        r == (if receipt.observation.turn != state.turn || request.observation_id
            != receipt.observation.observation_id {
            Err(LaneRequestError::StaleObservation)
        } else if request.actor != receipt.observation.observer {
            Err(LaneRequestError::WrongActor)
        } else if !request_is_advertised(receipt.observation, request.intent) {
            Err(LaneRequestError::UnavailableIntent)
        } else {
            Ok(())
        }),
{
    let observation = receipt.observation;
    if observation.turn.0 != state.turn.0 || request.observation_id.0
        != observation.observation_id.0 {
        return Err(LaneRequestError::StaleObservation);
    }
    if request.actor.0 != observation.observer.0 {
        return Err(LaneRequestError::WrongActor);
    }
    let listed = observation.available_intents.contains(request.intent);
    let threat = match observation.available_threat_response {
        Some(intent) => intent == request.intent,
        None => false,
    };
    if !listed && !threat {
        return Err(LaneRequestError::UnavailableIntent);
    }
    Ok(())
}

} // verus!
