//! The battle and campaign facts that the presentation layer reads.
//!
//! Every screen decision in this crate is a function of these plain values;
//! the rules engine that produces them hands them over as a snapshot.
use vstd::prelude::*;

verus! {

/// A board cell, column `x` and row `y`.
#[derive(Clone, Copy, Debug, PartialEq, Eq, Structural)]
pub struct GridPos {
    pub x: u8,
    pub y: u8,
}

impl GridPos {
    pub fn new(x: u8, y: u8) -> (p: GridPos)
        ensures
            p.x == x,
            p.y == y,
    {
        GridPos { x, y }
    }

    /// Taxicab distance between two cells.
    pub open spec fn spec_manhattan(self, other: GridPos) -> int {
        (if self.x >= other.x { self.x - other.x } else { other.x - self.x })
            + (if self.y >= other.y { self.y - other.y } else { other.y - self.y })
    }

    pub fn manhattan(self, other: GridPos) -> (d: u16)
        ensures
            d == self.spec_manhattan(other),
    {
        let dx: u16 = if self.x >= other.x {
            (self.x - other.x) as u16
        } else {
            (other.x - self.x) as u16
        };
        let dy: u16 = if self.y >= other.y {
            (self.y - other.y) as u16
        } else {
            (other.y - self.y) as u16
        };
        dx + dy
    }
}

#[derive(Clone, Copy, Debug, PartialEq, Eq, Structural)]
pub struct UnitId(pub u32);

#[derive(Clone, Copy, Debug, PartialEq, Eq, Structural)]
pub struct WeaponId(pub u32);

#[derive(Clone, Copy, Debug, PartialEq, Eq, Structural)]
pub enum Faction {
    Player,
    Enemy,
}

#[derive(Clone, Copy, Debug, PartialEq, Eq, Structural)]
pub enum UnitArchetype {
    Vanguard,
    Gunner,
    Interceptor,
    Rifleman,
    Striker,
    Artillery,
    Flanker,
    Bulwark,
    Controller,
    Dreadnought,
    Regent,
}

#[derive(Clone, Copy, Debug, PartialEq, Eq, Structural)]
pub enum BattlePhase {
    EnemyPlanning,
    Player,
    EnemyResolution,
    Victory,
    Defeat,
}

#[derive(Clone, Copy, Debug, PartialEq, Eq, Structural)]
pub enum Reaction {
    Counter,
    Guard,
    Evade,
}

#[derive(Clone, Copy, Debug, PartialEq, Eq, Structural)]
pub enum WeaponShape {
    Single,
    Cross1,
}

#[derive(Clone, Copy, Debug, PartialEq, Eq, Structural)]
pub enum Terrain {
    Plain,
    Road,
    Forest,
    Sea,
    Mountain,
}

/// The mission's win condition.
#[derive(Clone, Copy, Debug, PartialEq, Eq, Structural)]
pub enum PrimaryObjective {
    EliminateAllEnemies,
    ProtectThroughRound { target: UnitId, round: u16 },
    InterceptBeforeEscape { target: UnitId, escape: GridPos, deadline_round: u16 },
    EliminateTarget { target: UnitId },
}

/// The mission's bonus condition.
#[derive(Clone, Copy, Debug, PartialEq, Eq, Structural)]
pub enum OptionalObjective {
    Turnabout,
    ProtectTargetAtHalfHp { target: UnitId },
    VictoryByRound { round: u16 },
}

#[derive(Clone, Copy, Debug, PartialEq, Eq, Structural)]
pub struct MissionResult {
    pub victory: bool,
    /// Whether the bonus objective was met.
    pub optional_complete: bool,
    /// Rounds the mission took.
    pub rounds: u16,
}

/// Errors that the presentation layer raises itself, plus any refusal that
/// the rules engine reports (carried with its own message).
#[derive(Clone, Debug, PartialEq, Eq)]
pub enum BattleError {
    WrongPhase { expected: BattlePhase, actual: BattlePhase },
    NoUnitSelected,
    UnknownUnit(UnitId),
    UnknownWeapon(WeaponId),
    MoveAlreadySpent(UnitId),
    ActionAlreadySpent(UnitId),
    InsufficientEn { unit: UnitId, required: i16, available: i16 },
    PilotSkillWrongUnit(UnitId),
    DestinationOccupied(GridPos),
    Rejected(String),
}

/// One step of the engine's event stream, with the fields the screens show.
#[derive(Clone, Copy, Debug, PartialEq, Eq, Structural)]
pub enum BattleEvent {
    UnitMoved { unit: UnitId, from: GridPos, to: GridPos },
    AttackRolled { attacker: UnitId, target: UnitId, hit: bool, critical: bool },
    DamageApplied { target: UnitId, amount: i16 },
    UnitKnockedOut { unit: UnitId },
    UnitPushed { unit: UnitId, from: GridPos, to: GridPos },
    CollisionOccurred { blocked_at: GridPos },
    HazardTriggered { position: GridPos },
    ExplosiveDamaged { position: GridPos, amount: i16 },
    ExplosionTriggered { position: GridPos },
    IntentCommitted { attacker: UnitId },
    IntentCanceled { attacker: UnitId },
    AttackHitEmpty { cell: GridPos },
    CounterFired { defender: UnitId },
    OptionalObjectiveCompleted,
    MissionCompleted,
    MissionFailed,
}

/// What the presentation reads of one unit.
#[derive(Clone, Debug)]
pub struct UnitFacts {
    pub id: UnitId,
    pub name: &'static str,
    pub faction: Faction,
    pub archetype: UnitArchetype,
    pub position: GridPos,
    pub hp: i16,
    pub max_hp: i16,
    pub en: i16,
    pub max_en: i16,
    pub armor: i16,
    pub movement: u8,
    pub evasion: i16,
    pub moved: bool,
    pub acted: bool,
    pub finished: bool,
    pub reaction: Option<Reaction>,
    pub knocked_out: bool,
    pub weapons: Vec<WeaponId>,
}

/// What the presentation reads of one weapon profile.
#[derive(Clone, Copy, Debug, PartialEq, Eq)]
pub struct WeaponFacts {
    pub id: WeaponId,
    pub name: &'static str,
    pub shape: WeaponShape,
    pub min_range: u8,
    pub max_range: u8,
    pub base_damage: i16,
    pub hit_modifier: i16,
    pub crit_chance: u8,
    pub en_cost: i16,
    pub push: bool,
    pub counter_weapon: bool,
}

/// Once-per-mission pilot skills.
#[derive(Clone, Copy, Debug, PartialEq, Eq, Structural)]
pub struct PilotSkills {
    pub aegis_used: bool,
    pub aegis_target: Option<UnitId>,
    pub focus_used: bool,
    pub focus_pending: bool,
    pub overdrive_used: bool,
    pub overdrive_active: bool,
}

/// The damage and hit chance that an attack would have on one cell.
#[derive(Clone, Debug)]
pub struct AttackPreview {
    pub target: GridPos,
    pub footprint: Vec<GridPos>,
    pub normal_damage: i16,
    pub critical_damage: i16,
    pub hit_chance: u8,
    pub en_cost: i16,
}

/// The preview an enemy intent carries for the unit it aims at.
#[derive(Clone, Copy, Debug, PartialEq, Eq, Structural)]
pub struct IntentPreview {
    pub normal_damage: i16,
    pub hit_chance: u8,
}

/// An enemy attack committed for the coming resolution.
#[derive(Clone, Debug)]
pub struct IntentFacts {
    pub attacker: UnitId,
    pub weapon: WeaponId,
    pub base_damage: i16,
    pub accuracy: i16,
    pub hit_modifier: i16,
    pub origin: GridPos,
    pub footprint: Vec<GridPos>,
    pub intended_occupant: Option<UnitId>,
    pub intended_preview: Option<IntentPreview>,
}

/// A snapshot of the battle, units in the engine's iteration order.
#[derive(Clone, Debug)]
pub struct BattleFacts {
    pub phase: BattlePhase,
    pub active_unit: Option<UnitId>,
    pub round: u16,
    pub result: Option<MissionResult>,
    pub primary: PrimaryObjective,
    pub optional: OptionalObjective,
    pub optional_complete: bool,
    pub ready_to_resolve: bool,
    pub pilot: PilotSkills,
    pub units: Vec<UnitFacts>,
    pub weapons: Vec<WeaponFacts>,
    pub intents: Vec<IntentFacts>,
}

/// Index of the first unit with the given id, if any.
pub open spec fn unit_index(units: Seq<UnitFacts>, id: UnitId) -> Option<int>
    decreases units.len(),
{
    if units.len() == 0 {
        None
    } else if units[0].id == id {
        Some(0)
    } else {
        match unit_index(units.drop_first(), id) {
            Some(i) => Some(i + 1),
            None => None,
        }
    }
}

/// Index of the first weapon with the given id, if any.
pub open spec fn weapon_index(weapons: Seq<WeaponFacts>, id: WeaponId) -> Option<int>
    decreases weapons.len(),
{
    if weapons.len() == 0 {
        None
    } else if weapons[0].id == id {
        Some(0)
    } else {
        match weapon_index(weapons.drop_first(), id) {
            Some(i) => Some(i + 1),
            None => None,
        }
    }
}

pub proof fn lemma_unit_index(units: Seq<UnitFacts>, id: UnitId)
    ensures
        match unit_index(units, id) {
            Some(i) => 0 <= i < units.len() && units[i].id == id && forall|j: int|
                0 <= j < i ==> units[j].id != id,
            None => forall|j: int| 0 <= j < units.len() ==> units[j].id != id,
        },
    decreases units.len(),
{
    if units.len() > 0 {
        lemma_unit_index(units.drop_first(), id);
        assert forall|j: int| 1 <= j < units.len() implies units[j] == units.drop_first()[j - 1] by {}
    }
}

pub proof fn lemma_weapon_index(weapons: Seq<WeaponFacts>, id: WeaponId)
    ensures
        match weapon_index(weapons, id) {
            Some(i) => 0 <= i < weapons.len() && weapons[i].id == id && forall|j: int|
                0 <= j < i ==> weapons[j].id != id,
            None => forall|j: int| 0 <= j < weapons.len() ==> weapons[j].id != id,
        },
    decreases weapons.len(),
{
    if weapons.len() > 0 {
        lemma_weapon_index(weapons.drop_first(), id);
        assert forall|j: int| 1 <= j < weapons.len() implies weapons[j] == weapons.drop_first()[
            j - 1
        ] by {}
    }
}

impl BattleFacts {
    /// The first unit with this id, as the rules engine looks units up.
    pub open spec fn unit_of(&self, id: UnitId) -> Option<UnitFacts> {
        match unit_index(self.units@, id) {
            Some(i) => Some(self.units@[i]),
            None => None,
        }
    }

    pub open spec fn weapon_of(&self, id: WeaponId) -> Option<WeaponFacts> {
        match weapon_index(self.weapons@, id) {
            Some(i) => Some(self.weapons@[i]),
            None => None,
        }
    }

    pub fn unit(&self, id: UnitId) -> (u: Option<&UnitFacts>)
        ensures
            match u {
                Some(u) => self.unit_of(id) == Some(*u),
                None => self.unit_of(id).is_none(),
            },
    {
        proof {
            lemma_unit_index(self.units@, id);
        }
        let mut i: usize = 0;
        while i < self.units.len()
            invariant
                i <= self.units@.len(),
                forall|j: int| 0 <= j < i ==> self.units@[j].id != id,
                match unit_index(self.units@, id) {
                    Some(k) => 0 <= k < self.units@.len() && self.units@[k].id == id && forall|
                        j: int,
                    | 0 <= j < k ==> self.units@[j].id != id,
                    None => forall|j: int| 0 <= j < self.units@.len() ==> self.units@[j].id != id,
                },
            decreases self.units.len() - i,
        {
            if self.units[i].id == id {
                return Some(&self.units[i]);
            }
            i = i + 1;
        }
        None
    }

    pub fn weapon(&self, id: WeaponId) -> (w: Option<&WeaponFacts>)
        ensures
            match w {
                Some(w) => self.weapon_of(id) == Some(*w),
                None => self.weapon_of(id).is_none(),
            },
    {
        proof {
            lemma_weapon_index(self.weapons@, id);
        }
        let mut i: usize = 0;
        while i < self.weapons.len()
            invariant
                i <= self.weapons@.len(),
                forall|j: int| 0 <= j < i ==> self.weapons@[j].id != id,
                match weapon_index(self.weapons@, id) {
                    Some(k) => 0 <= k < self.weapons@.len() && self.weapons@[k].id == id && forall|
                        j: int,
                    | 0 <= j < k ==> self.weapons@[j].id != id,
                    None => forall|j: int|
                        0 <= j < self.weapons@.len() ==> self.weapons@[j].id != id,
                },
            decreases self.weapons.len() - i,
        {
            if self.weapons[i].id == id {
                return Some(&self.weapons[i]);
            }
            i = i + 1;
        }
        None
    }
}

} // verus!
