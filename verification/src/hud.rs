//! The battle HUD: the snapshot the sidebar, header and result overlay are
//! drawn from, and the copy they show.
use vstd::prelude::*;
use crate::interaction::{CommandAction, InteractionMode};
use crate::theme::{Icon, ThemeColor, spec_archetype_style, spec_shape_cell_active, unit_archetype_style, shape_cell_active, Rgb};
use crate::model::{
    BattleEvent, BattleFacts, BattlePhase, Faction, GridPos, IntentFacts, MissionResult,
    OptionalObjective, PrimaryObjective, Reaction, UnitArchetype, UnitFacts, UnitId, WeaponFacts,
    WeaponId, WeaponShape,
};
use crate::text::{dec, dec2, push_decimal, push_decimal2, push_signed, signed_dec};

verus! {

/// Appends one character with std's `String::push`. Trusted: the contract
/// claims that the text afterwards is the old text followed by `c`, which is
/// what `String::push` documents.
#[verifier::external_body]
pub(crate) fn push_char(s: &mut String, c: char)
    ensures
        final(s)@ == old(s)@.push(c),
{
    s.push(c);
}

pub open spec fn spec_phase_label(phase: BattlePhase) -> Seq<char> {
    match phase {
        BattlePhase::EnemyPlanning => "Enemy Planning"@,
        BattlePhase::Player => "Player Phase"@,
        BattlePhase::EnemyResolution => "Enemy Resolution"@,
        BattlePhase::Victory => "Victory"@,
        BattlePhase::Defeat => "Defeat"@,
    }
}

pub fn phase_label(phase: BattlePhase) -> (s: &'static str)
    ensures
        s@ == spec_phase_label(phase),
{
    match phase {
        BattlePhase::EnemyPlanning => "Enemy Planning",
        BattlePhase::Player => "Player Phase",
        BattlePhase::EnemyResolution => "Enemy Resolution",
        BattlePhase::Victory => "Victory",
        BattlePhase::Defeat => "Defeat",
    }
}

pub open spec fn spec_unit_name(battle: BattleFacts, id: UnitId) -> Seq<char> {
    match battle.unit_of(id) {
        Some(u) => u.name@,
        None => "UNKNOWN"@,
    }
}

/// Display name of a unit, `UNKNOWN` when the battle has no such unit.
pub fn unit_name(battle: &BattleFacts, id: UnitId) -> (s: &'static str)
    ensures
        s@ == spec_unit_name(*battle, id),
{
    match battle.unit(id) {
        Some(u) => u.name,
        None => "UNKNOWN",
    }
}

pub open spec fn spec_format_event(event: BattleEvent, battle: BattleFacts) -> Seq<char> {
    match event {
        BattleEvent::UnitMoved { unit, .. } => match battle.unit_of(unit) {
            Some(u) => u.name@ + " MOVING"@,
            None => "UNIT MOVING"@,
        },
        BattleEvent::AttackRolled { attacker, target, hit, critical } => spec_unit_name(
            battle,
            attacker,
        ) + " -> "@ + spec_unit_name(battle, target) + "\n"@ + (if critical {
            "CRITICAL"@
        } else if hit {
            "HIT"@
        } else {
            "MISS"@
        }),
        BattleEvent::DamageApplied { target, amount } => spec_unit_name(battle, target) + "\n-"@
            + signed_dec(amount as int) + " HP"@,
        BattleEvent::UnitKnockedOut { unit } => spec_unit_name(battle, unit) + " KNOCKED OUT"@,
        BattleEvent::UnitPushed { unit, .. } => spec_unit_name(battle, unit) + " PUSHED"@,
        BattleEvent::CollisionOccurred { .. } => "COLLISION  -3 HP"@,
        BattleEvent::HazardTriggered { .. } => "HAZARD  -3 HP"@,
        BattleEvent::ExplosiveDamaged { amount, .. } => "EXPLOSIVE  -"@ + signed_dec(amount as int)
            + " HP"@,
        BattleEvent::ExplosionTriggered { .. } => "EXPLOSION"@,
        BattleEvent::IntentCommitted { attacker } => spec_unit_name(battle, attacker)
            + " LOCKED INTENT"@,
        BattleEvent::IntentCanceled { attacker } => spec_unit_name(battle, attacker)
            + " INTENT CANCELED"@,
        BattleEvent::AttackHitEmpty { .. } => "ATTACK HIT EMPTY"@,
        BattleEvent::CounterFired { defender } => spec_unit_name(battle, defender) + " COUNTER"@,
        BattleEvent::OptionalObjectiveCompleted => "BONUS ACHIEVED"@,
        BattleEvent::MissionCompleted => "MISSION COMPLETE"@,
        BattleEvent::MissionFailed => "MISSION FAILED"@,
    }
}

/// The recent-battle-log line of an event.
pub fn format_event(event: &BattleEvent, battle: &BattleFacts) -> (s: String)
    ensures
        s@ == spec_format_event(*event, *battle),
{
    let mut s = String::new();
    match *event {
        BattleEvent::UnitMoved { unit, .. } => match battle.unit(unit) {
            Some(u) => {
                s.append(u.name);
                s.append(" MOVING");
            },
            None => s.append("UNIT MOVING"),
        },
        BattleEvent::AttackRolled { attacker, target, hit, critical } => {
            s.append(unit_name(battle, attacker));
            s.append(" -> ");
            s.append(unit_name(battle, target));
            s.append("\n");
            if critical {
                s.append("CRITICAL");
            } else if hit {
                s.append("HIT");
            } else {
                s.append("MISS");
            }
        },
        BattleEvent::DamageApplied { target, amount } => {
            s.append(unit_name(battle, target));
            s.append("\n-");
            push_signed(&mut s, amount as i64);
            s.append(" HP");
        },
        BattleEvent::UnitKnockedOut { unit } => {
            s.append(unit_name(battle, unit));
            s.append(" KNOCKED OUT");
        },
        BattleEvent::UnitPushed { unit, .. } => {
            s.append(unit_name(battle, unit));
            s.append(" PUSHED");
        },
        BattleEvent::CollisionOccurred { .. } => s.append("COLLISION  -3 HP"),
        BattleEvent::HazardTriggered { .. } => s.append("HAZARD  -3 HP"),
        BattleEvent::ExplosiveDamaged { amount, .. } => {
            s.append("EXPLOSIVE  -");
            push_signed(&mut s, amount as i64);
            s.append(" HP");
        },
        BattleEvent::ExplosionTriggered { .. } => s.append("EXPLOSION"),
        BattleEvent::IntentCommitted { attacker } => {
            s.append(unit_name(battle, attacker));
            s.append(" LOCKED INTENT");
        },
        BattleEvent::IntentCanceled { attacker } => {
            s.append(unit_name(battle, attacker));
            s.append(" INTENT CANCELED");
        },
        BattleEvent::AttackHitEmpty { .. } => s.append("ATTACK HIT EMPTY"),
        BattleEvent::CounterFired { defender } => {
            s.append(unit_name(battle, defender));
            s.append(" COUNTER");
        },
        BattleEvent::OptionalObjectiveCompleted => s.append("BONUS ACHIEVED"),
        BattleEvent::MissionCompleted => s.append("MISSION COMPLETE"),
        BattleEvent::MissionFailed => s.append("MISSION FAILED"),
    }
    s
}

/// Live tracker of the mission's primary objective.
#[derive(Clone, Copy, Debug, PartialEq, Eq)]
pub enum ObjectiveTrackSnapshot {
    EliminateAll { remaining: usize, total: usize },
    Protect { name: &'static str, hp: i16, max_hp: i16, round: u16, position: GridPos },
    Intercept {
        name: &'static str,
        distance: u16,
        deadline_round: u16,
        position: GridPos,
        escape: GridPos,
    },
    Target { name: &'static str, hp: i16, max_hp: i16, position: GridPos },
}

pub open spec fn spec_format_track(track: ObjectiveTrackSnapshot) -> Seq<char> {
    match track {
        ObjectiveTrackSnapshot::EliminateAll { remaining, total } => dec(remaining as nat) + "/"@
            + dec(total as nat) + " ENEMIES REMAIN"@,
        ObjectiveTrackSnapshot::Protect { name, hp, max_hp, .. } => name@ + " HP "@ + signed_dec(
            hp as int,
        ) + "/"@ + signed_dec(max_hp as int),
        ObjectiveTrackSnapshot::Intercept { name, distance, .. } => name@ + " "@ + dec(
            distance as nat,
        ) + " FROM EXIT"@,
        ObjectiveTrackSnapshot::Target { name, hp, max_hp, .. } => "TARGET "@ + name@ + " HP "@
            + signed_dec(hp as int) + "/"@ + signed_dec(max_hp as int),
    }
}

/// The TRACK line of the objective panel.
pub fn format_track(track: &ObjectiveTrackSnapshot) -> (s: String)
    ensures
        s@ == spec_format_track(*track),
{
    let mut s = String::new();
    match *track {
        ObjectiveTrackSnapshot::EliminateAll { remaining, total } => {
            push_decimal(&mut s, remaining as u64);
            s.append("/");
            push_decimal(&mut s, total as u64);
            s.append(" ENEMIES REMAIN");
        },
        ObjectiveTrackSnapshot::Protect { name, hp, max_hp, .. } => {
            s.append(name);
            s.append(" HP ");
            push_signed(&mut s, hp as i64);
            s.append("/");
            push_signed(&mut s, max_hp as i64);
        },
        ObjectiveTrackSnapshot::Intercept { name, distance, .. } => {
            s.append(name);
            s.append(" ");
            push_decimal(&mut s, distance as u64);
            s.append(" FROM EXIT");
        },
        ObjectiveTrackSnapshot::Target { name, hp, max_hp, .. } => {
            s.append("TARGET ");
            s.append(name);
            s.append(" HP ");
            push_signed(&mut s, hp as i64);
            s.append("/");
            push_signed(&mut s, max_hp as i64);
        },
    }
    s
}

pub open spec fn spec_result_primary_progress(track: Option<ObjectiveTrackSnapshot>) -> Seq<char> {
    match track {
        Some(ObjectiveTrackSnapshot::EliminateAll { remaining, total }) => dec(
            (if total >= remaining {
                total - remaining
            } else {
                0
            }) as nat,
        ) + "/"@ + dec(total as nat),
        Some(ObjectiveTrackSnapshot::Protect { hp, max_hp, .. }) => "HP "@ + signed_dec(hp as int)
            + "/"@ + signed_dec(max_hp as int),
        Some(ObjectiveTrackSnapshot::Target { hp, max_hp, .. }) => "HP "@ + signed_dec(hp as int)
            + "/"@ + signed_dec(max_hp as int),
        Some(ObjectiveTrackSnapshot::Intercept { distance, .. }) => dec(distance as nat)
            + " FROM EXIT"@,
        None => "—"@,
    }
}

/// The primary-objective metric of the result overlay: enemies destroyed
/// out of the authored total, the tracked unit's HP, or the distance to the
/// exit.
pub fn result_primary_progress(track: Option<&ObjectiveTrackSnapshot>) -> (s: String)
    ensures
        s@ == spec_result_primary_progress(match track {
            Some(t) => Some(*t),
            None => None,
        }),
{
    let mut s = String::new();
    match track {
        Some(ObjectiveTrackSnapshot::EliminateAll { remaining, total }) => {
            let done: usize = if *total >= *remaining {
                *total - *remaining
            } else {
                0
            };
            push_decimal(&mut s, done as u64);
            s.append("/");
            push_decimal(&mut s, *total as u64);
        },
        Some(ObjectiveTrackSnapshot::Protect { hp, max_hp, .. })
        | Some(ObjectiveTrackSnapshot::Target { hp, max_hp, .. }) => {
            s.append("HP ");
            push_signed(&mut s, *hp as i64);
            s.append("/");
            push_signed(&mut s, *max_hp as i64);
        },
        Some(ObjectiveTrackSnapshot::Intercept { distance, .. }) => {
            push_decimal(&mut s, *distance as u64);
            s.append(" FROM EXIT");
        },
        None => s.append("—"),
    }
    s
}

pub open spec fn spec_defeat_reason(primary: PrimaryObjective) -> Seq<char> {
    match primary {
        PrimaryObjective::EliminateAllEnemies => "Squad knocked out"@,
        PrimaryObjective::EliminateTarget { .. } => "Squad knocked out"@,
        PrimaryObjective::ProtectThroughRound { .. } => "Protect target lost"@,
        PrimaryObjective::InterceptBeforeEscape { .. } => "Courier not stopped in time"@,
    }
}

/// The overlay's headline: the first line of its copy.
pub open spec fn spec_result_headline(result: MissionResult) -> Seq<char> {
    if result.victory {
        "MISSION COMPLETE"@
    } else {
        "MISSION FAILED"@
    }
}

/// The rest of the overlay copy: on victory the mission title and whether
/// the bonus was achieved, on defeat why the mission was lost.
pub open spec fn spec_result_detail(
    result: MissionResult,
    primary: PrimaryObjective,
    title: Seq<char>,
) -> Seq<char> {
    if result.victory {
        title + "\nBONUS "@ + (if result.optional_complete {
            "Achieved"@
        } else {
            "Missed"@
        })
    } else {
        spec_defeat_reason(primary)
    }
}

pub open spec fn spec_result_overlay_copy(
    result: MissionResult,
    primary: PrimaryObjective,
    title: Seq<char>,
) -> Seq<char> {
    spec_result_headline(result) + "\n"@ + spec_result_detail(result, primary, title)
}

fn defeat_reason(primary: PrimaryObjective) -> (s: &'static str)
    ensures
        s@ == spec_defeat_reason(primary),
{
    match primary {
        PrimaryObjective::EliminateAllEnemies | PrimaryObjective::EliminateTarget { .. } => {
            "Squad knocked out"
        },
        PrimaryObjective::ProtectThroughRound { .. } => "Protect target lost",
        PrimaryObjective::InterceptBeforeEscape { .. } => "Courier not stopped in time",
    }
}

fn result_headline(result: MissionResult) -> (s: &'static str)
    ensures
        s@ == spec_result_headline(result),
{
    if result.victory {
        "MISSION COMPLETE"
    } else {
        "MISSION FAILED"
    }
}

fn result_detail(result: MissionResult, primary: PrimaryObjective, title: &str) -> (s: String)
    ensures
        s@ == spec_result_detail(result, primary, title@),
{
    let mut s = String::new();
    if result.victory {
        s.append(title);
        s.append("\nBONUS ");
        if result.optional_complete {
            s.append("Achieved");
        } else {
            s.append("Missed");
        }
    } else {
        s.append(defeat_reason(primary));
    }
    s
}

/// Result-overlay copy of mission `title`: the headline, then on victory
/// the title and the bonus outcome, on defeat a line naming why.
pub fn result_overlay_copy(result: MissionResult, primary: PrimaryObjective, title: &str) -> (s:
    String)
    ensures
        s@ == spec_result_overlay_copy(result, primary, title@),
{
    let mut s = String::new();
    s.append(result_headline(result));
    s.append("\n");
    let detail = result_detail(result, primary, title);
    s.append(detail.as_str());
    s
}

/// The overlay copy split at its first line break: the headline row and
/// the detail row (which the overlay shows on defeat only).
pub fn result_overlay_lines(result: MissionResult, primary: PrimaryObjective, title: &str) -> (r: (
    &'static str,
    String,
))
    ensures
        r.0@ == spec_result_headline(result),
        r.1@ == spec_result_detail(result, primary, title@),
        spec_result_overlay_copy(result, primary, title@) == r.0@ + "\n"@ + r.1@,
{
    (result_headline(result), result_detail(result, primary, title))
}

pub open spec fn spec_format_signed(v: int) -> Seq<char> {
    if v >= 0 {
        "+"@ + dec(v as nat)
    } else {
        signed_dec(v)
    }
}

/// A modifier with an explicit sign: `+2`, `0` as `+0`, `-3`.
pub fn format_signed(value: i16) -> (s: String)
    ensures
        s@ == spec_format_signed(value as int),
{
    let mut s = String::new();
    if value >= 0 {
        s.append("+");
        push_decimal(&mut s, value as u64);
    } else {
        push_signed(&mut s, value as i64);
    }
    s
}

/// The text with every `·` separator replaced by `/`.
pub open spec fn spec_ascii_separators(t: Seq<char>) -> Seq<char> {
    t.map_values(|c: char| if c == '·' { '/' } else { c })
}

pub fn ascii_separators(value: &str) -> (s: String)
    ensures
        s@ == spec_ascii_separators(value@),
{
    let n = value.unicode_len();
    let mut s = String::new();
    let mut i: usize = 0;
    while i < n
        invariant
            n == value@.len(),
            i <= n,
            s@ == spec_ascii_separators(value@.subrange(0, i as int)),
        decreases n - i,
    {
        let c = value.get_char(i);
        let d = if c == '·' {
            '/'
        } else {
            c
        };
        push_char(&mut s, d);
        proof {
            assert(value@.subrange(0, i + 1) == value@.subrange(0, i as int).push(c));
            assert(spec_ascii_separators(value@.subrange(0, i + 1)) =~= spec_ascii_separators(
                value@.subrange(0, i as int),
            ).push(d));
        }
        i = i + 1;
    }
    assert(value@.subrange(0, n as int) == value@);
    s
}


/// The authored objective copy of the mission in play.
#[derive(Clone, Copy, Debug, PartialEq, Eq)]
pub struct MissionCopy {
    pub primary_objective: &'static str,
    pub optional_objective: &'static str,
}

/// The inspected unit's card.
#[derive(Clone, Copy, Debug, PartialEq, Eq)]
pub struct InspectorSnapshot {
    pub unit_id: Option<UnitId>,
    pub name: Option<&'static str>,
    pub archetype: Option<UnitArchetype>,
    pub faction: Option<Faction>,
    pub hp: Option<i16>,
    pub max_hp: Option<i16>,
    pub en: Option<i16>,
    pub max_en: Option<i16>,
    pub armor: Option<i16>,
    pub movement: Option<u8>,
    pub evasion: Option<i16>,
    pub moved: bool,
    pub acted: bool,
    pub finished: bool,
    pub reaction: Option<Reaction>,
}

pub open spec fn inspector_shows(i: InspectorSnapshot, u: UnitFacts) -> bool {
    &&& i.unit_id == Some(u.id)
    &&& i.name == Some(u.name)
    &&& i.archetype == Some(u.archetype)
    &&& i.faction == Some(u.faction)
    &&& i.hp == Some(u.hp)
    &&& i.max_hp == Some(u.max_hp)
    &&& i.en == Some(u.en)
    &&& i.max_en == Some(u.max_en)
    &&& i.armor == Some(u.armor)
    &&& i.movement == Some(u.movement)
    &&& i.evasion == Some(u.evasion)
    &&& i.moved == u.moved
    &&& i.acted == u.acted
    &&& i.finished == u.finished
    &&& i.reaction == u.reaction
}

pub open spec fn inspector_empty(i: InspectorSnapshot) -> bool {
    &&& i.unit_id.is_none()
    &&& i.name.is_none()
    &&& i.archetype.is_none()
    &&& i.faction.is_none()
    &&& i.hp.is_none()
    &&& i.max_hp.is_none()
    &&& i.en.is_none()
    &&& i.max_en.is_none()
    &&& i.armor.is_none()
    &&& i.movement.is_none()
    &&& i.evasion.is_none()
    &&& !i.moved
    &&& !i.acted
    &&& !i.finished
    &&& i.reaction.is_none()
}

impl InspectorSnapshot {
    pub fn empty() -> (i: InspectorSnapshot)
        ensures
            inspector_empty(i),
    {
        InspectorSnapshot {
            unit_id: None,
            name: None,
            archetype: None,
            faction: None,
            hp: None,
            max_hp: None,
            en: None,
            max_en: None,
            armor: None,
            movement: None,
            evasion: None,
            moved: false,
            acted: false,
            finished: false,
            reaction: None,
        }
    }

    pub fn from_unit(unit: &UnitFacts) -> (i: InspectorSnapshot)
        ensures
            inspector_shows(i, *unit),
    {
        InspectorSnapshot {
            unit_id: Some(unit.id),
            name: Some(unit.name),
            archetype: Some(unit.archetype),
            faction: Some(unit.faction),
            hp: Some(unit.hp),
            max_hp: Some(unit.max_hp),
            en: Some(unit.en),
            max_en: Some(unit.max_en),
            armor: Some(unit.armor),
            movement: Some(unit.movement),
            evasion: Some(unit.evasion),
            moved: unit.moved,
            acted: unit.acted,
            finished: unit.finished,
            reaction: unit.reaction,
        }
    }

    pub fn is_empty(&self) -> (b: bool)
        ensures
            b == self.unit_id.is_none(),
    {
        self.unit_id.is_none()
    }
}

/// One weapon row of the active pilot.
#[derive(Clone, Copy, Debug, PartialEq, Eq)]
pub struct WeaponSnapshot {
    pub id: WeaponId,
    pub name: &'static str,
    pub shape: WeaponShape,
    pub min_range: u8,
    pub max_range: u8,
    pub base_damage: i16,
    pub hit_modifier: i16,
    pub crit_chance: u8,
    pub en_cost: i16,
    pub push: bool,
    pub counter_weapon: bool,
    pub enabled: bool,
}

pub open spec fn weapon_shows(s: WeaponSnapshot, w: WeaponFacts, enabled: bool) -> bool {
    &&& s.id == w.id
    &&& s.name == w.name
    &&& s.shape == w.shape
    &&& s.min_range == w.min_range
    &&& s.max_range == w.max_range
    &&& s.base_damage == w.base_damage
    &&& s.hit_modifier == w.hit_modifier
    &&& s.crit_chance == w.crit_chance
    &&& s.en_cost == w.en_cost
    &&& s.push == w.push
    &&& s.counter_weapon == w.counter_weapon
    &&& s.enabled == enabled
}

/// A committed enemy attack as the threat cards show it.
#[derive(Clone, Debug, PartialEq, Eq)]
pub struct ThreatSnapshot {
    pub attacker_id: UnitId,
    pub attacker: &'static str,
    pub attacker_archetype: UnitArchetype,
    pub weapon_id: WeaponId,
    pub weapon: &'static str,
    pub shape: WeaponShape,
    pub cells: Vec<GridPos>,
    pub intended_occupant_id: Option<UnitId>,
    pub intended_occupant: Option<&'static str>,
    pub normal_damage: i16,
    pub hit_chance: u8,
}

/// Progress of the mission's bonus objective.
#[derive(Clone, Copy, Debug, PartialEq, Eq)]
pub enum OptionalProgressSnapshot {
    Turnabout { complete: bool },
    ProtectTargetAtHalfHp {
        target: UnitId,
        name: &'static str,
        hp: i16,
        max_hp: i16,
        complete: bool,
    },
    VictoryByRound { round: u16, current_round: u16, complete: bool },
}

/// Everything the battle HUD draws, derived from the battle snapshot.
#[derive(Clone, Debug, PartialEq, Eq)]
pub struct HudSnapshot {
    pub round_phase: String,
    pub primary: String,
    pub optional: String,
    pub objective_track: Option<ObjectiveTrackSnapshot>,
    pub optional_progress: OptionalProgressSnapshot,
    pub selected_name: Option<&'static str>,
    pub inspector: InspectorSnapshot,
    pub threats: Vec<ThreatSnapshot>,
    pub ally_count: usize,
    pub enemy_count: usize,
    pub awaiting_count: usize,
    pub weapon_names: [Option<&'static str>; 3],
    pub weapon_specs: [Option<WeaponSnapshot>; 3],
    pub weapon_enabled: [bool; 3],
    pub can_move: bool,
    pub can_pilot: bool,
    pub can_choose_reaction: bool,
    pub can_finish: bool,
    pub can_resolve: bool,
    pub is_terminal: bool,
    pub is_victory: bool,
    pub pilot_label: &'static str,
    pub pilot_aegis: &'static str,
    pub pilot_focus: &'static str,
    pub pilot_overdrive: &'static str,
}

/// Number of units that satisfy `f`.
pub open spec fn count_units(units: Seq<UnitFacts>, f: spec_fn(UnitFacts) -> bool) -> nat
    decreases units.len(),
{
    if units.len() == 0 {
        0
    } else {
        count_units(units.drop_last(), f) + if f(units.last()) {
            1nat
        } else {
            0nat
        }
    }
}

pub open spec fn is_enemy(u: UnitFacts) -> bool {
    u.faction == Faction::Enemy
}

pub open spec fn is_living_enemy(u: UnitFacts) -> bool {
    u.faction == Faction::Enemy && !u.knocked_out
}

pub open spec fn is_living_player(u: UnitFacts) -> bool {
    u.faction == Faction::Player && !u.knocked_out
}

pub open spec fn is_awaiting(u: UnitFacts) -> bool {
    u.faction == Faction::Player && !u.knocked_out && !u.finished
}

#[derive(Clone, Copy, Debug, PartialEq, Eq, Structural)]
enum UnitFilter {
    Enemy,
    LivingEnemy,
    LivingPlayer,
    Awaiting,
}

spec fn filter_fn(k: UnitFilter) -> spec_fn(UnitFacts) -> bool {
    match k {
        UnitFilter::Enemy => |u: UnitFacts| is_enemy(u),
        UnitFilter::LivingEnemy => |u: UnitFacts| is_living_enemy(u),
        UnitFilter::LivingPlayer => |u: UnitFacts| is_living_player(u),
        UnitFilter::Awaiting => |u: UnitFacts| is_awaiting(u),
    }
}

fn count_filtered(units: &Vec<UnitFacts>, k: UnitFilter) -> (n: usize)
    ensures
        n == count_units(units@, filter_fn(k)),
{
    let mut n: usize = 0;
    let mut i: usize = 0;
    while i < units.len()
        invariant
            i <= units@.len(),
            n == count_units(units@.subrange(0, i as int), filter_fn(k)),
            n <= i,
        decreases units@.len() - i,
    {
        let u = &units[i];
        let hit = match k {
            UnitFilter::Enemy => u.faction == Faction::Enemy,
            UnitFilter::LivingEnemy => u.faction == Faction::Enemy && !u.knocked_out,
            UnitFilter::LivingPlayer => u.faction == Faction::Player && !u.knocked_out,
            UnitFilter::Awaiting => u.faction == Faction::Player && !u.knocked_out && !u.finished,
        };
        proof {
            let sub = units@.subrange(0, i + 1);
            assert(sub.drop_last() == units@.subrange(0, i as int));
            assert(sub.last() == units@[i as int]);
            assert(hit == filter_fn(k)(units@[i as int]));
        }
        if hit {
            n = n + 1;
        }
        i = i + 1;
    }
    assert(units@.subrange(0, units@.len() as int) == units@);
    n
}

/// The unit holding command authority, when it may act.
pub open spec fn spec_active(b: BattleFacts) -> Option<UnitFacts> {
    match b.active_unit {
        Some(id) => match b.unit_of(id) {
            Some(u) => if b.phase == BattlePhase::Player && !u.knocked_out {
                Some(u)
            } else {
                None
            },
            None => None,
        },
        None => None,
    }
}

fn active_unit<'a>(battle: &'a BattleFacts) -> (r: Option<&'a UnitFacts>)
    ensures
        match r {
            Some(u) => spec_active(*battle) == Some(*u),
            None => spec_active(*battle).is_none(),
        },
{
    match battle.active_unit {
        Some(id) => match battle.unit(id) {
            Some(u) => {
                let player = match battle.phase {
                    BattlePhase::Player => true,
                    _ => false,
                };
                if player && !u.knocked_out {
                    Some(u)
                } else {
                    None
                }
            },
            None => None,
        },
        None => None,
    }
}

/// The active pilot's weapon in `slot`, when the battle knows it.
pub open spec fn slot_weapon_facts(b: BattleFacts, slot: int) -> Option<(UnitFacts, WeaponFacts)> {
    match spec_active(b) {
        Some(u) => if 0 <= slot < u.weapons@.len() {
            match b.weapon_of(u.weapons@[slot]) {
                Some(w) => Some((u, w)),
                None => None,
            }
        } else {
            None
        },
        None => None,
    }
}

pub open spec fn slot_enabled(u: UnitFacts, w: WeaponFacts) -> bool {
    !u.acted && u.en >= w.en_cost
}

fn weapon_slot(battle: &BattleFacts, slot: usize) -> (r: (Option<&'static str>, bool, Option<
    WeaponSnapshot,
>))
    ensures
        match slot_weapon_facts(*battle, slot as int) {
            Some((u, w)) => r.0 == Some(w.name) && r.1 == slot_enabled(u, w) && r.2.is_some()
                && weapon_shows(r.2.unwrap(), w, slot_enabled(u, w)),
            None => r.0.is_none() && !r.1 && r.2.is_none(),
        },
{
    let unit = match active_unit(battle) {
        Some(u) => u,
        None => {
            return (None, false, None);
        },
    };
    if slot >= unit.weapons.len() {
        return (None, false, None);
    }
    let w = match battle.weapon(unit.weapons[slot]) {
        Some(w) => w,
        None => {
            return (None, false, None);
        },
    };
    let enabled = !unit.acted && unit.en >= w.en_cost;
    (
        Some(w.name),
        enabled,
        Some(
            WeaponSnapshot {
                id: w.id,
                name: w.name,
                shape: w.shape,
                min_range: w.min_range,
                max_range: w.max_range,
                base_damage: w.base_damage,
                hit_modifier: w.hit_modifier,
                crit_chance: w.crit_chance,
                en_cost: w.en_cost,
                push: w.push,
                counter_weapon: w.counter_weapon,
                enabled,
            },
        ),
    )
}

pub open spec fn clamp_hit(v: int) -> int {
    if v < 5 {
        5
    } else if v > 95 {
        95
    } else {
        v
    }
}

/// Whether an intent yields a threat card: its attacker and weapon exist.
pub open spec fn threat_shown(b: BattleFacts, i: IntentFacts) -> bool {
    b.unit_of(i.attacker).is_some() && b.weapon_of(i.weapon).is_some()
}

/// The intents that yield threat cards, in commit order.
pub open spec fn shown_intents(b: BattleFacts, intents: Seq<IntentFacts>) -> Seq<IntentFacts> {
    intents.filter(|i: IntentFacts| threat_shown(b, i))
}

pub open spec fn threat_matches(t: ThreatSnapshot, b: BattleFacts, i: IntentFacts) -> bool {
    let attacker = b.unit_of(i.attacker).unwrap();
    let weapon = b.weapon_of(i.weapon).unwrap();
    &&& t.attacker_id == i.attacker
    &&& t.attacker == attacker.name
    &&& t.attacker_archetype == attacker.archetype
    &&& t.weapon_id == i.weapon
    &&& t.weapon == weapon.name
    &&& t.shape == weapon.shape
    &&& t.cells@ == i.footprint@
    &&& t.intended_occupant_id == i.intended_occupant
    &&& t.intended_occupant == match i.intended_occupant {
        Some(target) => match b.unit_of(target) {
            Some(u) => Some(u.name),
            None => None,
        },
        None => None,
    }
    &&& t.normal_damage == match i.intended_preview {
        Some(p) => p.normal_damage,
        None => i.base_damage,
    }
    &&& t.hit_chance == match i.intended_preview {
        Some(p) => p.hit_chance as int,
        None => clamp_hit(i.accuracy + i.hit_modifier),
    }
}

fn threat_of(battle: &BattleFacts, intent: &IntentFacts) -> (t: Option<ThreatSnapshot>)
    ensures
        match t {
            Some(t) => threat_shown(*battle, *intent) && threat_matches(t, *battle, *intent),
            None => !threat_shown(*battle, *intent),
        },
{
    let attacker = match battle.unit(intent.attacker) {
        Some(u) => u,
        None => {
            return None;
        },
    };
    let weapon = match battle.weapon(intent.weapon) {
        Some(w) => w,
        None => {
            return None;
        },
    };
    let intended_occupant = match intent.intended_occupant {
        Some(target) => match battle.unit(target) {
            Some(u) => Some(u.name),
            None => None,
        },
        None => None,
    };
    let normal_damage = match intent.intended_preview {
        Some(p) => p.normal_damage,
        None => intent.base_damage,
    };
    let hit_chance: u8 = match intent.intended_preview {
        Some(p) => p.hit_chance,
        None => {
            let v: i32 = intent.accuracy as i32 + intent.hit_modifier as i32;
            if v < 5 {
                5
            } else if v > 95 {
                95
            } else {
                v as u8
            }
        },
    };
    Some(
        ThreatSnapshot {
            attacker_id: intent.attacker,
            attacker: attacker.name,
            attacker_archetype: attacker.archetype,
            weapon_id: intent.weapon,
            weapon: weapon.name,
            shape: weapon.shape,
            cells: intent.footprint.clone(),
            intended_occupant_id: intent.intended_occupant,
            intended_occupant,
            normal_damage,
            hit_chance,
        },
    )
}

fn threats_of(battle: &BattleFacts) -> (ts: Vec<ThreatSnapshot>)
    ensures
        ts@.len() == shown_intents(*battle, battle.intents@).len(),
        forall|k: int|
            0 <= k < ts@.len() ==> threat_matches(
                #[trigger] ts@[k],
                *battle,
                shown_intents(*battle, battle.intents@)[k],
            ),
{
    let mut ts: Vec<ThreatSnapshot> = Vec::new();
    let mut i: usize = 0;
    while i < battle.intents.len()
        invariant
            i <= battle.intents@.len(),
            ts@.len() == shown_intents(*battle, battle.intents@.subrange(0, i as int)).len(),
            forall|k: int|
                0 <= k < ts@.len() ==> threat_matches(
                    #[trigger] ts@[k],
                    *battle,
                    shown_intents(*battle, battle.intents@.subrange(0, i as int))[k],
                ),
        decreases battle.intents@.len() - i,
    {
        let t = threat_of(battle, &battle.intents[i]);
        proof {
            let pre = battle.intents@.subrange(0, i as int);
            let post = battle.intents@.subrange(0, i + 1);
            assert(post == pre.push(battle.intents@[i as int]));
            pre.lemma_filter_push(battle.intents@[i as int], |x: IntentFacts| threat_shown(*battle, x));
        }
        match t {
            Some(t) => {
                ts.push(t);
            },
            None => {},
        }
        i = i + 1;
    }
    assert(battle.intents@.subrange(0, battle.intents@.len() as int) == battle.intents@);
    ts
}

pub open spec fn spec_pilot_status(used: bool, active_now: bool) -> Seq<char> {
    if active_now {
        "ACTIVE"@
    } else if used {
        "USED"@
    } else {
        "READY"@
    }
}

/// A pilot skill's status tag.
pub fn pilot_status(used: bool, active_now: bool) -> (s: &'static str)
    ensures
        s@ == spec_pilot_status(used, active_now),
{
    if active_now {
        "ACTIVE"
    } else if used {
        "USED"
    } else {
        "READY"
    }
}

pub open spec fn spec_pilot_label(active: Option<UnitFacts>) -> Seq<char> {
    match active {
        Some(u) => match u.archetype {
            UnitArchetype::Vanguard => "[P] AEGIS"@,
            UnitArchetype::Gunner => "[P] FOCUS"@,
            UnitArchetype::Interceptor => "[P] OVERDRIVE"@,
            _ => "[P] PILOT"@,
        },
        None => "[P] PILOT"@,
    }
}

pub open spec fn spec_can_pilot(b: BattleFacts) -> bool {
    match spec_active(b) {
        Some(u) => match u.archetype {
            UnitArchetype::Vanguard => !b.pilot.aegis_used,
            UnitArchetype::Gunner => !b.pilot.focus_used,
            UnitArchetype::Interceptor => !b.pilot.overdrive_used && !u.moved,
            _ => false,
        },
        None => false,
    }
}

pub open spec fn spec_objective_track(b: BattleFacts, remaining: nat, total: nat) -> Option<
    ObjectiveTrackSnapshot,
> {
    match b.primary {
        PrimaryObjective::ProtectThroughRound { target, round } => match b.unit_of(target) {
            Some(u) => Some(
                ObjectiveTrackSnapshot::Protect {
                    name: u.name,
                    hp: u.hp,
                    max_hp: u.max_hp,
                    round,
                    position: u.position,
                },
            ),
            None => None,
        },
        PrimaryObjective::InterceptBeforeEscape { target, escape, deadline_round } => match b.unit_of(
            target,
        ) {
            Some(u) => Some(
                ObjectiveTrackSnapshot::Intercept {
                    name: u.name,
                    distance: u.position.spec_manhattan(escape) as u16,
                    deadline_round,
                    position: u.position,
                    escape,
                },
            ),
            None => None,
        },
        PrimaryObjective::EliminateTarget { target } => match b.unit_of(target) {
            Some(u) => Some(
                ObjectiveTrackSnapshot::Target {
                    name: u.name,
                    hp: u.hp,
                    max_hp: u.max_hp,
                    position: u.position,
                },
            ),
            None => None,
        },
        PrimaryObjective::EliminateAllEnemies => Some(
            ObjectiveTrackSnapshot::EliminateAll {
                remaining: remaining as usize,
                total: total as usize,
            },
        ),
    }
}

fn objective_track(battle: &BattleFacts, remaining: usize, total: usize) -> (t: Option<
    ObjectiveTrackSnapshot,
>)
    ensures
        t == spec_objective_track(*battle, remaining as nat, total as nat),
{
    match battle.primary {
        PrimaryObjective::ProtectThroughRound { target, round } => match battle.unit(target) {
            Some(u) => Some(
                ObjectiveTrackSnapshot::Protect {
                    name: u.name,
                    hp: u.hp,
                    max_hp: u.max_hp,
                    round,
                    position: u.position,
                },
            ),
            None => None,
        },
        PrimaryObjective::InterceptBeforeEscape { target, escape, deadline_round } => match battle.unit(
            target,
        ) {
            Some(u) => Some(
                ObjectiveTrackSnapshot::Intercept {
                    name: u.name,
                    distance: u.position.manhattan(escape),
                    deadline_round,
                    position: u.position,
                    escape,
                },
            ),
            None => None,
        },
        PrimaryObjective::EliminateTarget { target } => match battle.unit(target) {
            Some(u) => Some(
                ObjectiveTrackSnapshot::Target {
                    name: u.name,
                    hp: u.hp,
                    max_hp: u.max_hp,
                    position: u.position,
                },
            ),
            None => None,
        },
        PrimaryObjective::EliminateAllEnemies => Some(
            ObjectiveTrackSnapshot::EliminateAll { remaining, total },
        ),
    }
}

pub open spec fn spec_round_cap(primary: PrimaryObjective) -> Option<u16> {
    match primary {
        PrimaryObjective::ProtectThroughRound { round, .. } => Some(round),
        PrimaryObjective::InterceptBeforeEscape { deadline_round, .. } => Some(deadline_round),
        _ => None,
    }
}

pub open spec fn spec_round_phase(b: BattleFacts) -> Seq<char> {
    match spec_round_cap(b.primary) {
        Some(cap) => "Round "@ + dec(b.round as nat) + "/"@ + dec(cap as nat) + " · "@
            + spec_phase_label(b.phase),
        None => "Round "@ + dec(b.round as nat) + " · "@ + spec_phase_label(b.phase),
    }
}

fn round_phase(battle: &BattleFacts) -> (s: String)
    ensures
        s@ == spec_round_phase(*battle),
{
    let mut s = String::new();
    s.append("Round ");
    push_decimal(&mut s, battle.round as u64);
    match battle.primary {
        PrimaryObjective::ProtectThroughRound { round, .. } => {
            s.append("/");
            push_decimal(&mut s, round as u64);
        },
        PrimaryObjective::InterceptBeforeEscape { deadline_round, .. } => {
            s.append("/");
            push_decimal(&mut s, deadline_round as u64);
        },
        _ => {},
    }
    s.append(" · ");
    s.append(phase_label(battle.phase));
    s
}

pub open spec fn spec_optional_progress(b: BattleFacts) -> OptionalProgressSnapshot {
    match b.optional {
        OptionalObjective::Turnabout => OptionalProgressSnapshot::Turnabout {
            complete: b.optional_complete,
        },
        OptionalObjective::ProtectTargetAtHalfHp { target } => match b.unit_of(target) {
            Some(u) => OptionalProgressSnapshot::ProtectTargetAtHalfHp {
                target,
                name: u.name,
                hp: u.hp,
                max_hp: u.max_hp,
                complete: b.optional_complete,
            },
            None => OptionalProgressSnapshot::ProtectTargetAtHalfHp {
                target,
                name: "UNKNOWN",
                hp: 0,
                max_hp: 0,
                complete: b.optional_complete,
            },
        },
        OptionalObjective::VictoryByRound { round } => OptionalProgressSnapshot::VictoryByRound {
            round,
            current_round: b.round,
            complete: b.optional_complete,
        },
    }
}

/// Two progress values agree, names compared by their text.
pub open spec fn progress_matches(p: OptionalProgressSnapshot, q: OptionalProgressSnapshot) -> bool {
    match (p, q) {
        (
            OptionalProgressSnapshot::ProtectTargetAtHalfHp { target, name, hp, max_hp, complete },
            OptionalProgressSnapshot::ProtectTargetAtHalfHp {
                target: t2,
                name: n2,
                hp: h2,
                max_hp: m2,
                complete: c2,
            },
        ) => target == t2 && name@ == n2@ && hp == h2 && max_hp == m2 && complete == c2,
        (x, y) => x == y,
    }
}

/// Progress of the bonus objective; an unknown protect target shows as
/// `UNKNOWN` at 0/0 HP.
pub fn optional_progress_snapshot(battle: &BattleFacts) -> (p: OptionalProgressSnapshot)
    ensures
        progress_matches(p, spec_optional_progress(*battle)),
{
    let complete = battle.optional_complete;
    match battle.optional {
        OptionalObjective::Turnabout => OptionalProgressSnapshot::Turnabout { complete },
        OptionalObjective::ProtectTargetAtHalfHp { target } => match battle.unit(target) {
            Some(u) => OptionalProgressSnapshot::ProtectTargetAtHalfHp {
                target,
                name: u.name,
                hp: u.hp,
                max_hp: u.max_hp,
                complete,
            },
            None => OptionalProgressSnapshot::ProtectTargetAtHalfHp {
                target,
                name: "UNKNOWN",
                hp: 0,
                max_hp: 0,
                complete,
            },
        },
        OptionalObjective::VictoryByRound { round } => OptionalProgressSnapshot::VictoryByRound {
            round,
            current_round: battle.round,
            complete,
        },
    }
}

impl HudSnapshot {
    pub fn optional_progress_complete(&self) -> (b: bool)
        ensures
            b == match self.optional_progress {
                OptionalProgressSnapshot::Turnabout { complete } => complete,
                OptionalProgressSnapshot::ProtectTargetAtHalfHp { complete, .. } => complete,
                OptionalProgressSnapshot::VictoryByRound { complete, .. } => complete,
            },
    {
        match self.optional_progress {
            OptionalProgressSnapshot::Turnabout { complete }
            | OptionalProgressSnapshot::ProtectTargetAtHalfHp { complete, .. }
            | OptionalProgressSnapshot::VictoryByRound { complete, .. } => complete,
        }
    }

    /// The HUD of `battle` with `selected` inspected, in mission `copy`.
    pub fn from_battle(battle: &BattleFacts, selected: Option<UnitId>, copy: &MissionCopy) -> (h:
        HudSnapshot)
        ensures
            h.enemy_count == count_units(battle.units@, |u: UnitFacts| is_living_enemy(u)),
            h.ally_count == count_units(battle.units@, |u: UnitFacts| is_living_player(u)),
            h.awaiting_count == count_units(battle.units@, |u: UnitFacts| is_awaiting(u)),
            h.objective_track == spec_objective_track(
                *battle,
                count_units(battle.units@, |u: UnitFacts| is_living_enemy(u)),
                count_units(battle.units@, |u: UnitFacts| is_enemy(u)),
            ),
            h.round_phase@ == spec_round_phase(*battle),
            progress_matches(h.optional_progress, spec_optional_progress(*battle)),
            h.primary@ == (if battle.primary is EliminateAllEnemies {
                copy.primary_objective@ + " · "@ + dec(
                    count_units(battle.units@, |u: UnitFacts| is_living_enemy(u)),
                ) + " remaining"@
            } else {
                copy.primary_objective@
            }),
            h.optional@ == copy.optional_objective@ + " · "@ + (if battle.optional_complete {
                "Complete"@
            } else {
                "Not yet"@
            }),
            match selected {
                Some(id) => match battle.unit_of(id) {
                    Some(u) => h.selected_name == Some(u.name) && inspector_shows(h.inspector, u),
                    None => h.selected_name.is_none() && inspector_empty(h.inspector),
                },
                None => h.selected_name.is_none() && inspector_empty(h.inspector),
            },
            forall|k: int|
                #![trigger slot_weapon_facts(*battle, k)]
                0 <= k < 3 ==> match slot_weapon_facts(*battle, k) {
                    Some((u, w)) => h.weapon_names[k] == Some(w.name) && h.weapon_enabled[k]
                        == slot_enabled(u, w) && h.weapon_specs[k].is_some() && weapon_shows(
                        h.weapon_specs[k].unwrap(),
                        w,
                        slot_enabled(u, w),
                    ),
                    None => h.weapon_names[k].is_none() && !h.weapon_enabled[k]
                        && h.weapon_specs[k].is_none(),
                },
            h.threats@.len() == shown_intents(*battle, battle.intents@).len(),
            forall|k: int|
                0 <= k < h.threats@.len() ==> threat_matches(
                    #[trigger] h.threats@[k],
                    *battle,
                    shown_intents(*battle, battle.intents@)[k],
                ),
            h.can_move == (spec_active(*battle).is_some() && !spec_active(*battle).unwrap().moved),
            h.can_pilot == spec_can_pilot(*battle),
            h.can_choose_reaction == (spec_active(*battle).is_some() && !spec_active(
                *battle,
            ).unwrap().finished),
            h.can_finish == (spec_active(*battle).is_some() && spec_active(
                *battle,
            ).unwrap().reaction.is_some()),
            h.can_resolve == battle.ready_to_resolve,
            h.is_terminal == battle.result.is_some(),
            h.is_victory == (battle.result.is_some() && battle.result.unwrap().victory),
            h.pilot_label@ == spec_pilot_label(spec_active(*battle)),
            h.pilot_aegis@ == spec_pilot_status(
                battle.pilot.aegis_used,
                battle.pilot.aegis_target.is_some(),
            ),
            h.pilot_focus@ == spec_pilot_status(battle.pilot.focus_used, battle.pilot.focus_pending),
            h.pilot_overdrive@ == spec_pilot_status(
                battle.pilot.overdrive_used,
                battle.pilot.overdrive_active,
            ),
    {
        let remaining = count_filtered(&battle.units, UnitFilter::LivingEnemy);
        let enemy_total = count_filtered(&battle.units, UnitFilter::Enemy);
        let ally_count = count_filtered(&battle.units, UnitFilter::LivingPlayer);
        let awaiting_count = count_filtered(&battle.units, UnitFilter::Awaiting);
        proof {
            assert(filter_fn(UnitFilter::LivingEnemy) == |u: UnitFacts| is_living_enemy(u));
            assert(filter_fn(UnitFilter::Enemy) == |u: UnitFacts| is_enemy(u));
            assert(filter_fn(UnitFilter::LivingPlayer) == |u: UnitFacts| is_living_player(u));
            assert(filter_fn(UnitFilter::Awaiting) == |u: UnitFacts| is_awaiting(u));
        }
        let (n0, e0, s0) = weapon_slot(battle, 0);
        let (n1, e1, s1) = weapon_slot(battle, 1);
        let (n2, e2, s2) = weapon_slot(battle, 2);
        let selected_unit = match selected {
            Some(id) => battle.unit(id),
            None => None,
        };
        let (selected_name, inspector) = match selected_unit {
            Some(u) => (Some(u.name), InspectorSnapshot::from_unit(u)),
            None => (None, InspectorSnapshot::empty()),
        };
        let active = active_unit(battle);
        let pilot = battle.pilot;
        let can_move = match active {
            Some(u) => !u.moved,
            None => false,
        };
        let can_pilot = match active {
            Some(u) => match u.archetype {
                UnitArchetype::Vanguard => !pilot.aegis_used,
                UnitArchetype::Gunner => !pilot.focus_used,
                UnitArchetype::Interceptor => !pilot.overdrive_used && !u.moved,
                UnitArchetype::Rifleman | UnitArchetype::Striker | UnitArchetype::Artillery
                | UnitArchetype::Flanker | UnitArchetype::Bulwark | UnitArchetype::Controller
                | UnitArchetype::Dreadnought | UnitArchetype::Regent => false,
            },
            None => false,
        };
        let can_choose_reaction = match active {
            Some(u) => !u.finished,
            None => false,
        };
        let can_finish = match active {
            Some(u) => u.reaction.is_some(),
            None => false,
        };
        let pilot_label = match active {
            Some(u) => match u.archetype {
                UnitArchetype::Vanguard => "[P] AEGIS",
                UnitArchetype::Gunner => "[P] FOCUS",
                UnitArchetype::Interceptor => "[P] OVERDRIVE",
                UnitArchetype::Rifleman | UnitArchetype::Striker | UnitArchetype::Artillery
                | UnitArchetype::Flanker | UnitArchetype::Bulwark | UnitArchetype::Controller
                | UnitArchetype::Dreadnought | UnitArchetype::Regent => "[P] PILOT",
            },
            None => "[P] PILOT",
        };
        let mut primary = String::new();
        primary.append(copy.primary_objective);
        match battle.primary {
            PrimaryObjective::EliminateAllEnemies => {
                primary.append(" · ");
                push_decimal(&mut primary, remaining as u64);
                primary.append(" remaining");
            },
            _ => {},
        }
        let mut optional = String::new();
        optional.append(copy.optional_objective);
        optional.append(" · ");
        if battle.optional_complete {
            optional.append("Complete");
        } else {
            optional.append("Not yet");
        }
        let is_victory = match battle.result {
            Some(r) => r.victory,
            None => false,
        };
        let optional_progress = optional_progress_snapshot(battle);
        let h = HudSnapshot {
            round_phase: round_phase(battle),
            primary,
            optional,
            objective_track: objective_track(battle, remaining, enemy_total),
            optional_progress,
            selected_name,
            inspector,
            threats: threats_of(battle),
            ally_count,
            enemy_count: remaining,
            awaiting_count,
            weapon_names: [n0, n1, n2],
            weapon_specs: [s0, s1, s2],
            weapon_enabled: [e0, e1, e2],
            can_move,
            can_pilot,
            can_choose_reaction,
            can_finish,
            can_resolve: battle.ready_to_resolve,
            is_terminal: battle.result.is_some(),
            is_victory,
            pilot_label,
            pilot_aegis: pilot_status(pilot.aegis_used, pilot.aegis_target.is_some()),
            pilot_focus: pilot_status(pilot.focus_used, pilot.focus_pending),
            pilot_overdrive: pilot_status(pilot.overdrive_used, pilot.overdrive_active),
        };
        proof {
            assert forall|k: int| #![trigger slot_weapon_facts(*battle, k)] 0 <= k < 3 implies match slot_weapon_facts(*battle, k) {
                Some((u, w)) => h.weapon_names[k] == Some(w.name) && h.weapon_enabled[k]
                    == slot_enabled(u, w) && h.weapon_specs[k].is_some() && weapon_shows(
                    h.weapon_specs[k].unwrap(),
                    w,
                    slot_enabled(u, w),
                ),
                None => h.weapon_names[k].is_none() && !h.weapon_enabled[k]
                    && h.weapon_specs[k].is_none(),
            } by {
                if k == 0 {
                } else if k == 1 {
                } else {
                }
            }
        }
        h
    }
}

pub open spec fn spec_command_enabled(action: CommandAction, hud: HudSnapshot) -> bool {
    match action {
        CommandAction::Move => hud.can_move,
        CommandAction::WeaponSlot(slot) => slot < 3 && hud.weapon_enabled[slot as int],
        CommandAction::PilotSkill => hud.can_pilot,
        CommandAction::Reaction(_) => hud.can_choose_reaction,
        CommandAction::FinishUnit => hud.can_finish,
        CommandAction::ResolveAttacks => hud.can_resolve,
        CommandAction::Restart => hud.is_terminal && !hud.is_victory,
        CommandAction::ContinueVictory => hud.is_victory,
        CommandAction::Cancel => true,
    }
}

/// Whether a command button accepts clicks, from the HUD's allowances.
pub fn command_enabled(action: CommandAction, hud: &HudSnapshot) -> (b: bool)
    ensures
        b == spec_command_enabled(action, *hud),
{
    match action {
        CommandAction::Move => hud.can_move,
        CommandAction::WeaponSlot(slot) => slot < 3 && hud.weapon_enabled[slot],
        CommandAction::PilotSkill => hud.can_pilot,
        CommandAction::Reaction(_) => hud.can_choose_reaction,
        CommandAction::FinishUnit => hud.can_finish,
        CommandAction::ResolveAttacks => hud.can_resolve,
        CommandAction::Restart => hud.is_terminal && !hud.is_victory,
        CommandAction::ContinueVictory => hud.is_victory,
        CommandAction::Cancel => true,
    }
}


/// Indices of the threats that involve the inspected unit, as attacker or
/// as intended target.
pub fn selected_threats(threats: &Vec<ThreatSnapshot>, inspected: Option<UnitId>) -> (ix: Vec<usize>)
    ensures
        forall|k: int| 0 <= k < ix@.len() ==> (#[trigger] ix@[k]) < threats@.len(),
        forall|k: int, m: int| 0 <= k < m < ix@.len() ==> ix@[k] < ix@[m],
        forall|j: int|
            #![trigger threats@[j]]
            0 <= j < threats@.len() ==> (ix@.contains(j as usize) <==> match inspected {
                Some(u) => threats@[j].attacker_id == u || threats@[j].intended_occupant_id
                    == Some(u),
                None => false,
            }),
{
    let mut ix: Vec<usize> = Vec::new();
    let unit = match inspected {
        Some(u) => u,
        None => {
            assert forall|j: int| #![trigger threats@[j]] 0 <= j < threats@.len() implies !ix@.contains(j as usize) by {}
            return ix;
        },
    };
    let mut i: usize = 0;
    while i < threats.len()
        invariant
            i <= threats@.len(),
            inspected == Some(unit),
            forall|k: int| 0 <= k < ix@.len() ==> (#[trigger] ix@[k]) < i,
            forall|k: int, m: int| 0 <= k < m < ix@.len() ==> ix@[k] < ix@[m],
            forall|j: int|
                #![trigger threats@[j]]
                0 <= j < i ==> (ix@.contains(j as usize) <==> (threats@[j].attacker_id == unit
                    || threats@[j].intended_occupant_id == Some(unit))),
        decreases threats@.len() - i,
    {
        let t = &threats[i];
        let ghost before = ix@;
        let hit = t.attacker_id == unit || t.intended_occupant_id == Some(unit);
        if hit {
            ix.push(i);
        }
        proof {
            assert forall|j: int|
                #![trigger threats@[j]]
                0 <= j < i + 1 implies (ix@.contains(j as usize) <==> (threats@[j].attacker_id
                == unit || threats@[j].intended_occupant_id == Some(unit))) by {
                if hit {
                    assert(ix@ == before.push(i));
                    if j == i {
                        assert(ix@[before.len() as int] == i);
                    } else {
                        if ix@.contains(j as usize) {
                            let k = choose|k: int| 0 <= k < ix@.len() && ix@[k] == j as usize;
                            if k < before.len() {
                                assert(before[k] == j as usize);
                            }
                        }
                        if before.contains(j as usize) {
                            let k = choose|k: int| 0 <= k < before.len() && before[k] == j as usize;
                            assert(ix@[k] == j as usize);
                        }
                    }
                } else {
                    assert(ix@ == before);
                    if j == i && ix@.contains(j as usize) {
                        let k = choose|k: int| 0 <= k < ix@.len() && ix@[k] == j as usize;
                        assert(ix@[k] < i);
                    }
                }
            }
        }
        i = i + 1;
    }
    ix
}

/// The status line: playback overrides the last command's message.
pub fn status_line(input_locked: bool, status: &str) -> (s: String)
    ensures
        s@ == (if input_locked {
            "Resolving committed events..."@
        } else {
            status@
        }),
{
    let mut s = String::new();
    if input_locked {
        s.append("Resolving committed events...");
    } else {
        s.append(status);
    }
    s
}

pub open spec fn spec_objective_text(hud: HudSnapshot) -> Seq<char> {
    "// OBJECTIVES\n"@ + spec_ascii_separators(hud.round_phase@) + "\nPRIMARY  "@
        + spec_ascii_separators(hud.primary@) + "\nBONUS    "@ + spec_ascii_separators(
        hud.optional@,
    ) + match hud.objective_track {
        Some(t) => "\nTRACK    "@ + spec_ascii_separators(spec_format_track(t)),
        None => Seq::empty(),
    }
}

/// The objective panel: round and phase, primary, bonus, and the tracker.
pub fn objective_text(hud: &HudSnapshot) -> (s: String)
    ensures
        s@ == spec_objective_text(*hud),
{
    let mut s = String::new();
    s.append("// OBJECTIVES\n");
    let a = ascii_separators(hud.round_phase.as_str());
    s.append(a.as_str());
    s.append("\nPRIMARY  ");
    let b = ascii_separators(hud.primary.as_str());
    s.append(b.as_str());
    s.append("\nBONUS    ");
    let c = ascii_separators(hud.optional.as_str());
    s.append(c.as_str());
    match &hud.objective_track {
        Some(t) => {
            s.append("\nTRACK    ");
            let f = format_track(t);
            let g = ascii_separators(f.as_str());
            s.append(g.as_str());
        },
        None => {
            assert(s@ + Seq::<char>::empty() =~= s@);
        },
    }
    s
}

/// A log line on one row: line breaks become ` · `.
pub open spec fn spec_log_line(t: Seq<char>) -> Seq<char>
    decreases t.len(),
{
    if t.len() == 0 {
        Seq::empty()
    } else {
        spec_log_line(t.drop_last()) + if t.last() == '\n' {
            " · "@
        } else {
            seq![t.last()]
        }
    }
}

pub fn log_line(entry: &str) -> (s: String)
    ensures
        s@ == spec_log_line(entry@),
{
    let n = entry.unicode_len();
    let mut s = String::new();
    let mut i: usize = 0;
    while i < n
        invariant
            n == entry@.len(),
            i <= n,
            s@ == spec_log_line(entry@.subrange(0, i as int)),
        decreases n - i,
    {
        let c = entry.get_char(i);
        proof {
            let post = entry@.subrange(0, i + 1);
            assert(post.drop_last() == entry@.subrange(0, i as int));
            assert(post.last() == c);
        }
        if c == '\n' {
            s.append(" · ");
        } else {
            push_char(&mut s, c);
        }
        i = i + 1;
    }
    assert(entry@.subrange(0, n as int) == entry@);
    s
}

pub open spec fn spec_pair(a: Option<i16>, b: Option<i16>) -> Seq<char> {
    match (a, b) {
        (Some(x), Some(y)) => signed_dec(x as int) + "/"@ + signed_dec(y as int),
        _ => "—"@,
    }
}

#[derive(Clone, Copy, Debug, PartialEq, Eq, Structural)]
pub enum InspectorTextKind {
    Name,
    Hp,
    En,
    Armor,
    Movement,
    Evasion,
}

pub open spec fn spec_inspector_text(i: InspectorSnapshot, kind: InspectorTextKind) -> Seq<char> {
    match kind {
        InspectorTextKind::Name => match i.name {
            Some(n) => n@,
            None => "—"@,
        },
        InspectorTextKind::Hp => spec_pair(i.hp, i.max_hp),
        InspectorTextKind::En => spec_pair(i.en, i.max_en),
        InspectorTextKind::Armor => match i.armor {
            Some(a) => signed_dec(a as int),
            None => "—"@,
        },
        InspectorTextKind::Movement => match i.movement {
            Some(m) => dec(m as nat),
            None => "—"@,
        },
        InspectorTextKind::Evasion => match i.evasion {
            Some(e) => signed_dec(e as int) + "%"@,
            None => "—"@,
        },
    }
}

fn push_pair(s: &mut String, a: Option<i16>, b: Option<i16>)
    ensures
        final(s)@ == old(s)@ + spec_pair(a, b),
{
    match (a, b) {
        (Some(x), Some(y)) => {
            push_signed(s, x as i64);
            s.append("/");
            push_signed(s, y as i64);
        },
        _ => s.append("—"),
    }
}

/// One value of the inspector card, `—` when nothing is inspected.
pub fn inspector_text(i: &InspectorSnapshot, kind: InspectorTextKind) -> (s: String)
    ensures
        s@ == spec_inspector_text(*i, kind),
{
    let mut s = String::new();
    match kind {
        InspectorTextKind::Name => match i.name {
            Some(n) => s.append(n),
            None => s.append("—"),
        },
        InspectorTextKind::Hp => push_pair(&mut s, i.hp, i.max_hp),
        InspectorTextKind::En => push_pair(&mut s, i.en, i.max_en),
        InspectorTextKind::Armor => match i.armor {
            Some(a) => push_signed(&mut s, a as i64),
            None => s.append("—"),
        },
        InspectorTextKind::Movement => match i.movement {
            Some(m) => push_decimal(&mut s, m as u64),
            None => s.append("—"),
        },
        InspectorTextKind::Evasion => match i.evasion {
            Some(e) => {
                push_signed(&mut s, e as i64);
                s.append("%");
            },
            None => s.append("—"),
        },
    }
    s
}

#[derive(Clone, Copy, Debug, PartialEq, Eq, Structural)]
pub enum WeaponTextKind {
    Name,
    Damage,
    Hit,
}

pub open spec fn spec_weapon_text(w: Option<WeaponSnapshot>, kind: WeaponTextKind) -> Seq<char> {
    match w {
        Some(w) => match kind {
            WeaponTextKind::Name => w.name@,
            WeaponTextKind::Damage => signed_dec(w.base_damage as int),
            WeaponTextKind::Hit => spec_format_signed(w.hit_modifier as int),
        },
        None => "—"@,
    }
}

/// One value of a weapon row, `—` for an empty slot.
pub fn weapon_text(w: Option<&WeaponSnapshot>, kind: WeaponTextKind) -> (s: String)
    ensures
        s@ == spec_weapon_text(
            match w {
                Some(x) => Some(*x),
                None => None,
            },
            kind,
        ),
{
    match w {
        Some(w) => match kind {
            WeaponTextKind::Name => {
                let mut s = String::new();
                s.append(w.name);
                s
            },
            WeaponTextKind::Damage => crate::text::signed_decimal(w.base_damage as i64),
            WeaponTextKind::Hit => format_signed(w.hit_modifier),
        },
        None => {
            let mut s = String::new();
            s.append("—");
            s
        },
    }
}

#[derive(Clone, Copy, Debug, PartialEq, Eq, Structural)]
pub enum ThreatTextKind {
    Attacker,
    Weapon,
    Target,
    Damage,
    Hit,
}

pub open spec fn spec_threat_text(t: Option<ThreatSnapshot>, kind: ThreatTextKind) -> Seq<char> {
    match t {
        Some(t) => match kind {
            ThreatTextKind::Attacker => t.attacker@,
            ThreatTextKind::Weapon => t.weapon@,
            ThreatTextKind::Target => match t.intended_occupant {
                Some(n) => n@,
                None => "EMPTY"@,
            },
            ThreatTextKind::Damage => signed_dec(t.normal_damage as int),
            ThreatTextKind::Hit => dec(t.hit_chance as nat) + "%"@,
        },
        None => "—"@,
    }
}

/// One value of a threat card, `—` for an empty card.
pub fn threat_text(t: Option<&ThreatSnapshot>, kind: ThreatTextKind) -> (s: String)
    ensures
        s@ == spec_threat_text(
            match t {
                Some(x) => Some(*x),
                None => None,
            },
            kind,
        ),
{
    let mut s = String::new();
    match t {
        Some(t) => match kind {
            ThreatTextKind::Attacker => s.append(t.attacker),
            ThreatTextKind::Weapon => s.append(t.weapon),
            ThreatTextKind::Target => match t.intended_occupant {
                Some(n) => s.append(n),
                None => s.append("EMPTY"),
            },
            ThreatTextKind::Damage => push_signed(&mut s, t.normal_damage as i64),
            ThreatTextKind::Hit => {
                push_decimal(&mut s, t.hit_chance as u64);
                s.append("%");
            },
        },
        None => s.append("—"),
    }
    s
}

#[derive(Clone, Copy, Debug, PartialEq, Eq, Structural)]
pub enum PreviewValueKind {
    Damage,
    Critical,
    Hit,
}

pub open spec fn spec_preview_text(
    p: Option<(i16, i16, u8)>,
    kind: PreviewValueKind,
) -> Seq<char> {
    match p {
        Some((normal, critical, hit)) => match kind {
            PreviewValueKind::Damage => signed_dec(normal as int),
            PreviewValueKind::Critical => "/"@ + signed_dec(critical as int),
            PreviewValueKind::Hit => dec(hit as nat) + "%"@,
        },
        None => match kind {
            PreviewValueKind::Critical => "/—"@,
            _ => "—"@,
        },
    }
}

/// One value of the attack preview panel.
pub fn preview_text(preview: Option<&crate::model::AttackPreview>, kind: PreviewValueKind) -> (s:
    String)
    ensures
        s@ == spec_preview_text(
            match preview {
                Some(p) => Some((p.normal_damage, p.critical_damage, p.hit_chance)),
                None => None,
            },
            kind,
        ),
{
    let mut s = String::new();
    match preview {
        Some(p) => match kind {
            PreviewValueKind::Damage => push_signed(&mut s, p.normal_damage as i64),
            PreviewValueKind::Critical => {
                s.append("/");
                push_signed(&mut s, p.critical_damage as i64);
            },
            PreviewValueKind::Hit => {
                push_decimal(&mut s, p.hit_chance as u64);
                s.append("%");
            },
        },
        None => match kind {
            PreviewValueKind::Critical => s.append("/—"),
            _ => s.append("—"),
        },
    }
    s
}

/// Whether pip `index` of a meter filled to `value` is lit (negative
/// values light nothing).
pub fn pip_lit(index: usize, value: i16) -> (b: bool)
    ensures
        b == (index < value),
{
    value > 0 && index < value as usize
}

/// Header counters and metrics.
#[derive(Clone, Copy, Debug, PartialEq, Eq, Structural)]
pub enum HeaderValue {
    Round,
    Allies,
    Enemies,
    Awaiting,
    Credits,
}

pub open spec fn spec_header_text(
    value: HeaderValue,
    round: u16,
    hud: HudSnapshot,
    credits: Option<u32>,
) -> Seq<char> {
    match value {
        HeaderValue::Round => dec2(round as nat),
        HeaderValue::Allies => dec(hud.ally_count as nat),
        HeaderValue::Enemies => dec(hud.enemy_count as nat),
        HeaderValue::Awaiting => dec(hud.awaiting_count as nat),
        HeaderValue::Credits => match credits {
            Some(c) => dec(c as nat),
            None => "—"@,
        },
    }
}

/// One header value; credits show `—` without an active campaign.
pub fn header_text(value: HeaderValue, round: u16, hud: &HudSnapshot, credits: Option<u32>) -> (s:
    String)
    ensures
        s@ == spec_header_text(value, round, *hud, credits),
{
    let mut s = String::new();
    match value {
        HeaderValue::Round => push_decimal2(&mut s, round as u64),
        HeaderValue::Allies => push_decimal(&mut s, hud.ally_count as u64),
        HeaderValue::Enemies => push_decimal(&mut s, hud.enemy_count as u64),
        HeaderValue::Awaiting => push_decimal(&mut s, hud.awaiting_count as u64),
        HeaderValue::Credits => match credits {
            Some(c) => push_decimal(&mut s, c as u64),
            None => s.append("—"),
        },
    }
    s
}

pub open spec fn spec_primary_pip_count(track: Option<ObjectiveTrackSnapshot>) -> int {
    match track {
        Some(ObjectiveTrackSnapshot::EliminateAll { remaining, .. }) => if remaining < 4 {
            remaining as int
        } else {
            4
        },
        Some(ObjectiveTrackSnapshot::Protect { hp, .. }) => if hp > 0 {
            1
        } else {
            0
        },
        Some(ObjectiveTrackSnapshot::Target { hp, .. }) => if hp > 0 {
            1
        } else {
            0
        },
        Some(ObjectiveTrackSnapshot::Intercept { distance, .. }) => if distance > 0 {
            1
        } else {
            0
        },
        None => 0,
    }
}

/// How many of the header's primary-objective pips are lit.
pub fn primary_pip_count(track: Option<&ObjectiveTrackSnapshot>) -> (n: usize)
    ensures
        n == spec_primary_pip_count(
            match track {
                Some(t) => Some(*t),
                None => None,
            },
        ),
{
    match track {
        Some(ObjectiveTrackSnapshot::EliminateAll { remaining, .. }) => if *remaining < 4 {
            *remaining
        } else {
            4
        },
        Some(ObjectiveTrackSnapshot::Protect { hp, .. })
        | Some(ObjectiveTrackSnapshot::Target { hp, .. }) => if *hp > 0 {
            1
        } else {
            0
        },
        Some(ObjectiveTrackSnapshot::Intercept { distance, .. }) => if *distance > 0 {
            1
        } else {
            0
        },
        None => 0,
    }
}

/// An icon and its tint.
#[derive(Clone, Copy, Debug, PartialEq, Eq, Structural)]
pub enum IconTint {
    Palette(ThemeColor),
    Custom(Rgb),
    White,
}

#[derive(Clone, Copy, Debug, PartialEq, Eq, Structural)]
pub enum InspectorIconKind {
    Glyph,
    Reaction,
    Activation,
}

pub open spec fn spec_inspector_icon(i: InspectorSnapshot, kind: InspectorIconKind) -> (Icon, IconTint) {
    match kind {
        InspectorIconKind::Glyph => match i.archetype {
            Some(a) => (spec_archetype_style(a).glyph, IconTint::Custom(spec_archetype_style(a).color)),
            None => (Icon::GlyphHex, IconTint::Palette(ThemeColor::Muted)),
        },
        InspectorIconKind::Reaction => match i.reaction {
            Some(Reaction::Counter) => (Icon::Counter, IconTint::Palette(ThemeColor::Enemy)),
            Some(Reaction::Guard) => (Icon::Guard, IconTint::Palette(ThemeColor::Accent)),
            Some(Reaction::Evade) => (Icon::Evade, IconTint::Palette(ThemeColor::Mint)),
            None => (Icon::Guard, IconTint::Palette(ThemeColor::Muted)),
        },
        InspectorIconKind::Activation => if i.faction == Some(Faction::Enemy) {
            (Icon::Attack, IconTint::Palette(ThemeColor::Enemy))
        } else if i.finished {
            (Icon::Wait, IconTint::Palette(ThemeColor::Mint))
        } else if i.unit_id.is_some() {
            (Icon::ForwardCompact, IconTint::Palette(ThemeColor::Gold))
        } else {
            (Icon::ForwardCompact, IconTint::Palette(ThemeColor::Muted))
        },
    }
}

/// The inspector's glyph, reaction and activation icons.
pub fn inspector_icon(i: &InspectorSnapshot, kind: InspectorIconKind) -> (r: (Icon, IconTint))
    ensures
        r == spec_inspector_icon(*i, kind),
{
    match kind {
        InspectorIconKind::Glyph => match i.archetype {
            Some(a) => {
                let style = unit_archetype_style(a);
                (style.glyph, IconTint::Custom(style.color))
            },
            None => (Icon::GlyphHex, IconTint::Palette(ThemeColor::Muted)),
        },
        InspectorIconKind::Reaction => match i.reaction {
            Some(Reaction::Counter) => (Icon::Counter, IconTint::Palette(ThemeColor::Enemy)),
            Some(Reaction::Guard) => (Icon::Guard, IconTint::Palette(ThemeColor::Accent)),
            Some(Reaction::Evade) => (Icon::Evade, IconTint::Palette(ThemeColor::Mint)),
            None => (Icon::Guard, IconTint::Palette(ThemeColor::Muted)),
        },
        InspectorIconKind::Activation => {
            if i.faction == Some(Faction::Enemy) {
                (Icon::Attack, IconTint::Palette(ThemeColor::Enemy))
            } else if i.finished {
                (Icon::Wait, IconTint::Palette(ThemeColor::Mint))
            } else if i.unit_id.is_some() {
                (Icon::ForwardCompact, IconTint::Palette(ThemeColor::Gold))
            } else {
                (Icon::ForwardCompact, IconTint::Palette(ThemeColor::Muted))
            }
        },
    }
}

/// What the inspector portrait shows.
#[derive(Clone, Copy, Debug, PartialEq, Eq, Structural)]
pub enum Portrait {
    VanguardArt,
    GunnerArt,
    InterceptorArt,
    Glyph(Icon, IconTint),
}

pub open spec fn spec_portrait(i: InspectorSnapshot) -> Portrait {
    match (i.faction, i.archetype) {
        (Some(Faction::Player), Some(UnitArchetype::Vanguard)) => Portrait::VanguardArt,
        (Some(Faction::Player), Some(UnitArchetype::Gunner)) => Portrait::GunnerArt,
        (Some(Faction::Player), Some(UnitArchetype::Interceptor)) => Portrait::InterceptorArt,
        (_, Some(a)) => Portrait::Glyph(
            spec_archetype_style(a).glyph,
            IconTint::Custom(spec_archetype_style(a).color),
        ),
        _ => Portrait::Glyph(Icon::GlyphHex, IconTint::Palette(ThemeColor::Muted)),
    }
}

/// Player pilots show their art; every other unit its glyph.
pub fn inspector_portrait(i: &InspectorSnapshot) -> (p: Portrait)
    ensures
        p == spec_portrait(*i),
{
    match (i.faction, i.archetype) {
        (Some(Faction::Player), Some(UnitArchetype::Vanguard)) => Portrait::VanguardArt,
        (Some(Faction::Player), Some(UnitArchetype::Gunner)) => Portrait::GunnerArt,
        (Some(Faction::Player), Some(UnitArchetype::Interceptor)) => Portrait::InterceptorArt,
        (_, Some(a)) => {
            let style = unit_archetype_style(a);
            Portrait::Glyph(style.glyph, IconTint::Custom(style.color))
        },
        _ => Portrait::Glyph(Icon::GlyphHex, IconTint::Palette(ThemeColor::Muted)),
    }
}

/// The threat card's attacker or target glyph.
pub fn threat_icon(battle: &BattleFacts, unit: Option<UnitId>) -> (r: (Icon, IconTint))
    ensures
        r == match unit {
            Some(id) => match battle.unit_of(id) {
                Some(u) => (
                    spec_archetype_style(u.archetype).glyph,
                    IconTint::Custom(spec_archetype_style(u.archetype).color),
                ),
                None => (Icon::GlyphSquare, IconTint::Palette(ThemeColor::Muted)),
            },
            None => (Icon::GlyphSquare, IconTint::Palette(ThemeColor::Muted)),
        },
{
    match unit {
        Some(id) => match battle.unit(id) {
            Some(u) => {
                let style = unit_archetype_style(u.archetype);
                (style.glyph, IconTint::Custom(style.color))
            },
            None => (Icon::GlyphSquare, IconTint::Palette(ThemeColor::Muted)),
        },
        None => (Icon::GlyphSquare, IconTint::Palette(ThemeColor::Muted)),
    }
}

/// The shape meter of a threat or weapon: lit cells in `lit`, others in
/// the border colour.
pub fn shape_meter_color(shape: Option<WeaponShape>, index: usize, lit: ThemeColor) -> (c: ThemeColor)
    ensures
        c == (if shape.is_some() && spec_shape_cell_active(shape.unwrap(), index as int) {
            lit
        } else {
            ThemeColor::Border
        }),
{
    match shape {
        Some(s) => if shape_cell_active(s, index) {
            lit
        } else {
            ThemeColor::Border
        },
        None => ThemeColor::Border,
    }
}

/// Faction styling of the inspector card.
#[derive(Clone, Copy, Debug, PartialEq, Eq, Structural)]
pub enum InspectorTone {
    Player,
    Enemy,
    /// Nothing inspected: the plain panel without an outline.
    Neutral,
}

/// How the inspector card is laid out this frame.
#[derive(Clone, Copy, Debug, PartialEq, Eq, Structural)]
pub struct InspectorPanelView {
    /// Inner padding, only around an inspected unit.
    pub padded: bool,
    pub tone: InspectorTone,
    /// The unit's header and stat rows.
    pub details_shown: bool,
    /// The "nothing inspected" placeholder.
    pub empty_shown: bool,
    /// The energy pips, for player pilots only.
    pub energy_row_shown: bool,
    /// Fill colour of the HP bar.
    pub hp_meter: ThemeColor,
}

pub fn inspector_panel_view(i: &InspectorSnapshot) -> (v: InspectorPanelView)
    ensures
        v.padded == i.unit_id.is_some(),
        v.tone == match i.faction {
            Some(Faction::Player) => InspectorTone::Player,
            Some(Faction::Enemy) => InspectorTone::Enemy,
            None => InspectorTone::Neutral,
        },
        v.details_shown == i.unit_id.is_some(),
        v.empty_shown == i.unit_id.is_none(),
        v.energy_row_shown == (i.unit_id.is_some() && i.faction == Some(Faction::Player)),
        v.hp_meter == match i.faction {
            Some(Faction::Enemy) => ThemeColor::Enemy,
            Some(Faction::Player) => ThemeColor::Mint,
            None => ThemeColor::Muted,
        },
{
    let selected = i.unit_id.is_some();
    let (tone, hp_meter) = match i.faction {
        Some(Faction::Player) => (InspectorTone::Player, ThemeColor::Mint),
        Some(Faction::Enemy) => (InspectorTone::Enemy, ThemeColor::Enemy),
        None => (InspectorTone::Neutral, ThemeColor::Muted),
    };
    let player = match i.faction {
        Some(Faction::Player) => true,
        _ => false,
    };
    InspectorPanelView {
        padded: selected,
        tone,
        details_shown: selected,
        empty_shown: !selected,
        energy_row_shown: selected && player,
        hp_meter,
    }
}

/// The property badges of a weapon row.
#[derive(Clone, Copy, Debug, PartialEq, Eq, Structural)]
pub enum WeaponTag {
    Push,
    Counter,
}

/// A weapon-row badge: whether the weapon has the property, its icon and
/// its tint.
pub fn weapon_tag(w: Option<&WeaponSnapshot>, tag: WeaponTag) -> (r: (bool, Icon, ThemeColor))
    ensures
        r.0 == match w {
            Some(x) => match tag {
                WeaponTag::Push => x.push,
                WeaponTag::Counter => x.counter_weapon,
            },
            None => false,
        },
        r.1 == match tag {
            WeaponTag::Push => Icon::Move,
            WeaponTag::Counter => Icon::Counter,
        },
        r.2 == match tag {
            WeaponTag::Push => ThemeColor::Gold,
            WeaponTag::Counter => ThemeColor::Enemy,
        },
{
    let shown = match w {
        Some(x) => match tag {
            WeaponTag::Push => x.push,
            WeaponTag::Counter => x.counter_weapon,
        },
        None => false,
    };
    match tag {
        WeaponTag::Push => (shown, Icon::Move, ThemeColor::Gold),
        WeaponTag::Counter => (shown, Icon::Counter, ThemeColor::Enemy),
    }
}

/// The range bar of a weapon row on its eight-cell scale: where it starts,
/// how many cells it spans (both clamped to the scale) and its colour.
#[derive(Clone, Copy, Debug, PartialEq, Eq, Structural)]
pub struct RangeMeter {
    pub start_cells: u8,
    pub span_cells: u8,
    pub color: ThemeColor,
}

pub open spec fn clamp8(v: int) -> int {
    if v < 0 {
        0
    } else if v > 8 {
        8
    } else {
        v
    }
}

/// `None` for an empty slot (its bar has no width).
pub fn weapon_range_meter(w: Option<&WeaponSnapshot>) -> (m: Option<RangeMeter>)
    ensures
        match w {
            Some(x) => m.is_some() && m.unwrap().start_cells == clamp8(x.min_range as int)
                && m.unwrap().span_cells == clamp8(
                (if x.max_range > 1 { x.max_range as int } else { 1 }) - x.min_range + 1,
            ) && m.unwrap().color == (if x.enabled {
                ThemeColor::Gold
            } else {
                ThemeColor::Muted
            }),
            None => m.is_none(),
        },
{
    match w {
        Some(x) => {
            let max_range: i16 = if x.max_range > 1 {
                x.max_range as i16
            } else {
                1
            };
            let span: i16 = max_range - x.min_range as i16 + 1;
            let start: u8 = if x.min_range > 8 {
                8
            } else {
                x.min_range
            };
            let span_cells: u8 = if span < 0 {
                0
            } else if span > 8 {
                8
            } else {
                span as u8
            };
            Some(
                RangeMeter {
                    start_cells: start,
                    span_cells,
                    color: if x.enabled {
                        ThemeColor::Gold
                    } else {
                        ThemeColor::Muted
                    },
                },
            )
        },
        None => None,
    }
}

/// The result card's icon: victory, defeat, or the primary marker mid-battle.
pub fn result_icon(hud: &HudSnapshot) -> (i: Icon)
    ensures
        i == (if hud.is_victory {
            Icon::ResultVictory
        } else if hud.is_terminal {
            Icon::ResultDefeat
        } else {
            Icon::ResultPrimary
        }),
{
    if hud.is_victory {
        Icon::ResultVictory
    } else if hud.is_terminal {
        Icon::ResultDefeat
    } else {
        Icon::ResultPrimary
    }
}

/// The result overlay appears once the battle is over and playback is done.
pub fn result_overlay_visible(hud: &HudSnapshot, input_locked: bool) -> (b: bool)
    ensures
        b == (hud.is_terminal && !input_locked),
{
    hud.is_terminal && !input_locked
}

/// The save-error line beside Continue: a terminal battle whose status
/// reports a save file error.
pub fn result_status_shown(hud: &HudSnapshot, status: &str) -> (b: bool)
    ensures
        b == (hud.is_terminal && status@.len() >= 16 && status@.subrange(0, 16)
            == "save file error:"@),
{
    proof {
        reveal_strlit("save file error:");
    }
    if !hud.is_terminal {
        return false;
    }
    let prefix = "save file error:";
    let n = status.unicode_len();
    if n < 16 {
        return false;
    }
    let mut i: usize = 0;
    while i < 16
        invariant
            n == status@.len(),
            n >= 16,
            prefix@ == "save file error:"@,
            prefix@.len() == 16,
            i <= 16,
            forall|j: int| 0 <= j < i ==> status@[j] == prefix@[j],
        decreases 16 - i,
    {
        if status.get_char(i) != prefix.get_char(i) {
            assert(status@.subrange(0, 16)[i as int] != prefix@[i as int]);
            return false;
        }
        i = i + 1;
    }
    assert(status@.subrange(0, 16) =~= prefix@);
    true
}

/// Background class of a command button.
#[derive(Clone, Copy, Debug, PartialEq, Eq, Structural)]
pub enum ButtonTone {
    TerminalAction,
    Cancel,
    Resolve,
    Armed,
    Enabled,
    Disabled,
}

/// How one command button is drawn this frame.
#[derive(Clone, Copy, Debug, PartialEq, Eq, Structural)]
pub struct CommandButtonView {
    pub enabled: bool,
    pub armed: bool,
    pub tone: ButtonTone,
    /// Visibility of the terminal actions (Restart, Continue); other
    /// buttons keep theirs (`None`).
    pub shown: Option<bool>,
}

pub open spec fn spec_armed(
    battle: BattleFacts,
    hud: HudSnapshot,
    action: CommandAction,
    mode: InteractionMode,
) -> bool {
    match (action, mode) {
        (CommandAction::Move, InteractionMode::Move) => true,
        (CommandAction::PilotSkill, InteractionMode::AegisTarget) => true,
        (CommandAction::WeaponSlot(slot), InteractionMode::Attack(weapon)) => slot < 3
            && hud.weapon_names[slot as int].is_some() && match battle.active_unit {
            Some(id) => match battle.unit_of(id) {
                Some(u) => slot < u.weapons@.len() && u.weapons@[slot as int] == weapon,
                None => false,
            },
            None => false,
        },
        _ => false,
    }
}

/// Visibility of the terminal actions: the header's Restart while the battle
/// runs, the overlay's Restart after a defeat, Continue after a victory; no
/// opinion on other buttons (`None`).
pub open spec fn spec_button_shown(
    hud: HudSnapshot,
    action: CommandAction,
    header_restart: bool,
    input_locked: bool,
) -> Option<bool> {
    if action == CommandAction::Restart {
        Some(
            !input_locked && if header_restart {
                !hud.is_terminal
            } else {
                hud.is_terminal && !hud.is_victory
            },
        )
    } else if action == CommandAction::ContinueVictory {
        Some(!input_locked && hud.is_victory)
    } else {
        None
    }
}

/// A command button's state: `header_restart` marks the header's restart
/// button (the overlay has its own), `restart_ok` is `restart_allowed`.
pub fn command_button_view(
    battle: &BattleFacts,
    hud: &HudSnapshot,
    action: CommandAction,
    header_restart: bool,
    mode: InteractionMode,
    input_locked: bool,
    restart_ok: bool,
) -> (v: CommandButtonView)
    ensures
        v.enabled == (!input_locked && if action == CommandAction::Restart {
            restart_ok
        } else {
            spec_command_enabled(action, *hud)
        }),
        v.armed == spec_armed(*battle, *hud, action, mode),
        v.tone == (if !header_restart && (action == CommandAction::Restart || action
            == CommandAction::ContinueVictory) {
            ButtonTone::TerminalAction
        } else if action == CommandAction::Cancel {
            ButtonTone::Cancel
        } else if action == CommandAction::ResolveAttacks {
            ButtonTone::Resolve
        } else if v.armed {
            ButtonTone::Armed
        } else if v.enabled {
            ButtonTone::Enabled
        } else {
            ButtonTone::Disabled
        }),
        v.shown == spec_button_shown(*hud, action, header_restart, input_locked),
{
    let enabled = !input_locked && if action == CommandAction::Restart {
        restart_ok
    } else {
        command_enabled(action, hud)
    };
    let armed = match (action, mode) {
        (CommandAction::Move, InteractionMode::Move) => true,
        (CommandAction::PilotSkill, InteractionMode::AegisTarget) => true,
        (CommandAction::WeaponSlot(slot), InteractionMode::Attack(weapon)) => {
            slot < 3 && hud.weapon_names[slot].is_some() && match battle.active_unit {
                Some(id) => match battle.unit(id) {
                    Some(u) => slot < u.weapons.len() && u.weapons[slot] == weapon,
                    None => false,
                },
                None => false,
            }
        },
        _ => false,
    };
    let terminal_result_action = !header_restart && (action == CommandAction::Restart || action
        == CommandAction::ContinueVictory);
    let tone = if terminal_result_action {
        ButtonTone::TerminalAction
    } else if action == CommandAction::Cancel {
        ButtonTone::Cancel
    } else if action == CommandAction::ResolveAttacks {
        ButtonTone::Resolve
    } else if armed {
        ButtonTone::Armed
    } else if enabled {
        ButtonTone::Enabled
    } else {
        ButtonTone::Disabled
    };
    let shown = if action == CommandAction::Restart {
        Some(
            !input_locked && if header_restart {
                !hud.is_terminal
            } else {
                hud.is_terminal && !hud.is_victory
            },
        )
    } else if action == CommandAction::ContinueVictory {
        Some(!input_locked && hud.is_victory)
    } else {
        None
    };
    CommandButtonView { enabled, armed, tone, shown }
}

/// A finished battle offers exactly one way out on the result overlay:
/// Restart after a defeat, Continue after a victory, never both; and only
/// that one of the two accepts clicks.
pub proof fn law_result_overlay_offers_one_action(hud: HudSnapshot, input_locked: bool)
    requires
        hud.is_victory ==> hud.is_terminal,
    ensures
        !(spec_button_shown(hud, CommandAction::Restart, false, input_locked) == Some(true)
            && spec_button_shown(hud, CommandAction::ContinueVictory, false, input_locked)
            == Some(true)),
        hud.is_terminal && !input_locked ==> (spec_button_shown(
            hud,
            CommandAction::Restart,
            false,
            input_locked,
        ) == Some(true) || spec_button_shown(
            hud,
            CommandAction::ContinueVictory,
            false,
            input_locked,
        ) == Some(true)),
        !(spec_command_enabled(CommandAction::Restart, hud) && spec_command_enabled(
            CommandAction::ContinueVictory,
            hud,
        )),
        hud.is_terminal ==> (spec_command_enabled(CommandAction::Restart, hud)
            || spec_command_enabled(CommandAction::ContinueVictory, hud)),
{
}

/// Each pilot skill is usable once per mission and belongs to its own
/// pilot: while a living pilot holds command in the player phase, the HUD
/// offers the skill exactly when that pilot's own skill is unused (the
/// Interceptor's Overdrive also only before it moves), whatever the other
/// pilots' skills are; an enemy never has one, and once the active pilot's
/// skill is spent it is never offered again.
pub proof fn law_pilot_skill_once_per_mission(b: BattleFacts, u: UnitFacts)
    requires
        spec_active(b) == Some(u),
    ensures
        u.archetype == UnitArchetype::Vanguard ==> (spec_can_pilot(b) <==> !b.pilot.aegis_used),
        u.archetype == UnitArchetype::Gunner ==> (spec_can_pilot(b) <==> !b.pilot.focus_used),
        u.archetype == UnitArchetype::Interceptor ==> (spec_can_pilot(b) <==> (
        !b.pilot.overdrive_used && !u.moved)),
        (u.archetype != UnitArchetype::Vanguard && u.archetype != UnitArchetype::Gunner
            && u.archetype != UnitArchetype::Interceptor) ==> !spec_can_pilot(b),
        (u.archetype == UnitArchetype::Vanguard && b.pilot.aegis_used) ==> !spec_can_pilot(b),
        (u.archetype == UnitArchetype::Gunner && b.pilot.focus_used) ==> !spec_can_pilot(b),
        (u.archetype == UnitArchetype::Interceptor && b.pilot.overdrive_used) ==> !spec_can_pilot(
            b,
        ),
{
}

/// The other pilots' skill flags never change what the active pilot is
/// offered: two battles that differ only there give the same allowance.
pub proof fn law_pilot_skill_ignores_other_pilots(b1: BattleFacts, b2: BattleFacts, u: UnitFacts)
    requires
        spec_active(b1) == Some(u),
        spec_active(b2) == Some(u),
        u.archetype == UnitArchetype::Vanguard ==> b1.pilot.aegis_used == b2.pilot.aegis_used,
        u.archetype == UnitArchetype::Gunner ==> b1.pilot.focus_used == b2.pilot.focus_used,
        u.archetype == UnitArchetype::Interceptor ==> b1.pilot.overdrive_used
            == b2.pilot.overdrive_used,
    ensures
        spec_can_pilot(b1) == spec_can_pilot(b2),
{
}

/// Finish needs a chosen reaction: the Finish button accepts clicks only
/// when the HUD allows finishing, and never merely because a reaction may
/// still be chosen.
pub proof fn law_finish_needs_a_reaction(hud: HudSnapshot)
    ensures
        spec_command_enabled(CommandAction::FinishUnit, hud) ==> hud.can_finish,
        !hud.can_finish ==> !spec_command_enabled(CommandAction::FinishUnit, hud),
        (hud.can_choose_reaction && !hud.can_finish) ==> !spec_command_enabled(
            CommandAction::FinishUnit,
            hud,
        ),
{
}

/// With the HUD built from a battle, Finish is enabled exactly when the
/// active pilot has chosen a reaction.
pub proof fn law_finish_follows_the_chosen_reaction(b: BattleFacts, hud: HudSnapshot, u: UnitFacts)
    requires
        hud.can_finish == (spec_active(b).is_some() && spec_active(b).unwrap().reaction.is_some()),
        spec_active(b) == Some(u),
    ensures
        spec_command_enabled(CommandAction::FinishUnit, hud) <==> u.reaction.is_some(),
{
}

/// The end of a mission is logged as what happened: a failure reads
/// "MISSION FAILED", a victory "MISSION COMPLETE", the bonus "BONUS
/// ACHIEVED", in every battle; no two of these outcomes share a line.
pub proof fn law_mission_outcomes_log_distinct_lines(b1: BattleFacts, b2: BattleFacts)
    ensures
        spec_format_event(BattleEvent::MissionFailed, b1) == "MISSION FAILED"@,
        spec_format_event(BattleEvent::MissionCompleted, b1) == "MISSION COMPLETE"@,
        spec_format_event(BattleEvent::OptionalObjectiveCompleted, b1) == "BONUS ACHIEVED"@,
        spec_format_event(BattleEvent::MissionFailed, b1) != spec_format_event(
            BattleEvent::MissionCompleted,
            b2,
        ),
        spec_format_event(BattleEvent::MissionFailed, b1) != spec_format_event(
            BattleEvent::OptionalObjectiveCompleted,
            b2,
        ),
        spec_format_event(BattleEvent::MissionCompleted, b1) != spec_format_event(
            BattleEvent::OptionalObjectiveCompleted,
            b2,
        ),
{
    reveal_strlit("MISSION FAILED");
    reveal_strlit("MISSION COMPLETE");
    reveal_strlit("BONUS ACHIEVED");
    assert("MISSION FAILED"@[8] != "MISSION COMPLETE"@[8]);
    assert("MISSION FAILED"@[0] != "BONUS ACHIEVED"@[0]);
    assert("MISSION COMPLETE"@[0] != "BONUS ACHIEVED"@[0]);
}

} // verus!
