//! Pointer, keyboard and command routing for the battle screen.
//!
//! The rules engine owns every battle mutation. A routing function reads the
//! battle snapshot and either finishes at once or names the one engine call
//! it needs (`Step::Call`); the caller performs that call and hands its
//! outcome to the matching `settle_*` function, which finishes the route.
use vstd::prelude::*;
use std::collections::VecDeque;
use crate::assets::AssetLoadStatus;
use crate::menu::MenuState;
use crate::model::{
    AttackPreview, BattleError, BattleEvent, BattleFacts, BattlePhase, Faction, GridPos, MissionResult,
    Reaction,
    UnitArchetype, UnitFacts, UnitId, WeaponId,
};
use crate::playback::EventPlayback;

verus! {

#[derive(Clone, Copy, Debug, PartialEq, Eq, Structural)]
pub enum InteractionMode {
    Inspect,
    Move,
    Attack(WeaponId),
    AegisTarget,
}

impl Default for InteractionMode {
    fn default() -> (m: Self)
        ensures
            m == InteractionMode::Inspect,
    {
        InteractionMode::Inspect
    }
}

/// Operator-side battle state: who is inspected, what is hovered, which
/// targeting mode is armed, the sidebar menu and the hover preview.
#[derive(Clone, Debug)]
pub struct InteractionState {
    /// Inspection never grants command authority: commands always act on
    /// the battle's active unit.
    pub inspected_unit: Option<UnitId>,
    pub hovered_cell: Option<GridPos>,
    pub mode: InteractionMode,
    pub menu: MenuState,
    pub preview: Option<AttackPreview>,
}

impl Default for InteractionState {
    fn default() -> (s: Self)
        ensures
            s.inspected_unit.is_none(),
            s.hovered_cell.is_none(),
            s.mode == InteractionMode::Inspect,
            s.menu == MenuState::Hidden,
            s.preview.is_none(),
    {
        InteractionState {
            inspected_unit: None,
            hovered_cell: None,
            mode: InteractionMode::Inspect,
            menu: MenuState::Hidden,
            preview: None,
        }
    }
}

#[derive(Clone, Copy, Debug, PartialEq, Eq, Structural)]
pub enum CommandAction {
    Move,
    WeaponSlot(usize),
    PilotSkill,
    Reaction(Reaction),
    FinishUnit,
    ResolveAttacks,
    Cancel,
    Restart,
    ContinueVictory,
}

/// One call into the rules engine that a route needs.
#[derive(Clone, Copy, Debug, PartialEq, Eq, Structural)]
pub enum BattleCall {
    MoveUnit { unit: UnitId, to: GridPos },
    Attack { unit: UnitId, weapon: WeaponId, target: GridPos },
    /// Shield `ally`, chosen by a click on `at`.
    UseAegis { ally: UnitId, at: GridPos },
    /// Start `unit`'s activation; `clicked` is the cell that asked for it, or
    /// `None` for the hand-off after a unit finishes.
    BeginActivation { unit: UnitId, clicked: Option<GridPos> },
    UseFocus,
    UseOverdrive,
    ChooseReaction { unit: UnitId, reaction: Reaction },
    FinishActivation { unit: UnitId },
    ResolveEnemyPhase,
    /// Compute the attack preview for `cell` (a query, never refused: a
    /// refusal is reported as `Preview(None)`).
    PreviewAttack { unit: UnitId, weapon: WeaponId, cell: GridPos },
}

/// What the engine answered to a `BattleCall`. Calls that produce no events
/// answer `Events` with no events; `PreviewAttack` answers `Preview`.
#[derive(Clone, Debug)]
pub enum CallOutcome {
    Events(Vec<BattleEvent>),
    Refused(BattleError),
    Preview(Option<AttackPreview>),
}

pub open spec fn outcome_fits(call: BattleCall, outcome: CallOutcome) -> bool {
    (call is PreviewAttack) == (outcome is Preview)
}

/// Either the route's result, or the engine call it is waiting on.
#[derive(Debug)]
pub enum Step {
    Done(Result<Vec<BattleEvent>, BattleError>),
    Call(BattleCall),
}

pub open spec fn done_ok_empty(s: Step) -> bool {
    match s {
        Step::Done(Ok(events)) => events@.len() == 0,
        _ => false,
    }
}

pub open spec fn done_err(s: Step, e: BattleError) -> bool {
    match s {
        Step::Done(Err(x)) => x == e,
        _ => false,
    }
}

pub open spec fn is_call(s: Step, c: BattleCall) -> bool {
    match s {
        Step::Call(x) => x == c,
        _ => false,
    }
}

pub open spec fn same_interaction(a: InteractionState, b: InteractionState) -> bool {
    &&& a.inspected_unit == b.inspected_unit
    &&& a.hovered_cell == b.hovered_cell
    &&& a.mode == b.mode
    &&& a.menu == b.menu
    &&& a.preview == b.preview
}

pub open spec fn spec_require_active_unit(b: BattleFacts) -> Result<UnitId, BattleError> {
    if b.phase != BattlePhase::Player {
        Err(BattleError::WrongPhase { expected: BattlePhase::Player, actual: b.phase })
    } else {
        match b.active_unit {
            Some(u) => Ok(u),
            None => Err(BattleError::NoUnitSelected),
        }
    }
}

/// The unit that holds command authority.
pub fn require_active_unit(battle: &BattleFacts) -> (r: Result<UnitId, BattleError>)
    ensures
        r == spec_require_active_unit(*battle),
{
    match battle.phase {
        BattlePhase::Player => {},
        _ => {
            return Err(BattleError::WrongPhase { expected: BattlePhase::Player, actual: battle.phase });
        },
    }
    match battle.active_unit {
        Some(u) => Ok(u),
        None => Err(BattleError::NoUnitSelected),
    }
}

/// Fixed pilot hand-off order.
pub open spec fn pilot_order(k: int) -> UnitArchetype {
    if k == 0 {
        UnitArchetype::Vanguard
    } else if k == 1 {
        UnitArchetype::Gunner
    } else {
        UnitArchetype::Interceptor
    }
}

/// A living player pilot of this archetype who has not finished.
pub open spec fn ready_pilot(u: UnitFacts, a: UnitArchetype) -> bool {
    u.faction == Faction::Player && u.archetype == a && !u.knocked_out && !u.finished
}

pub open spec fn has_ready(units: Seq<UnitFacts>, a: UnitArchetype) -> bool {
    exists|i: int| 0 <= i < units.len() && ready_pilot(units[i], a)
}

/// `id` is the first ready pilot of archetype `a` in the engine's order.
pub open spec fn first_ready_is(units: Seq<UnitFacts>, a: UnitArchetype, id: UnitId) -> bool {
    exists|i: int|
        0 <= i < units.len() && ready_pilot(units[i], a) && units[i].id == id && forall|j: int|
            0 <= j < i ==> !ready_pilot(#[trigger] units[j], a)
}

fn first_ready(units: &Vec<UnitFacts>, a: UnitArchetype) -> (r: Option<UnitId>)
    ensures
        match r {
            Some(id) => first_ready_is(units@, a, id),
            None => !has_ready(units@, a),
        },
{
    let mut i: usize = 0;
    while i < units.len()
        invariant
            i <= units@.len(),
            forall|j: int| 0 <= j < i ==> !ready_pilot(#[trigger] units@[j], a),
        decreases units@.len() - i,
    {
        let u = &units[i];
        if u.faction == Faction::Player && u.archetype == a && !u.knocked_out && !u.finished {
            return Some(u.id);
        }
        i = i + 1;
    }
    None
}

/// The next living, unfinished player pilot in the fixed order Vanguard,
/// Gunner, Interceptor; within an archetype, the first in engine order.
pub fn next_ready_unit(battle: &BattleFacts) -> (r: Option<UnitId>)
    ensures
        match r {
            Some(id) => exists|k: int|
                0 <= k < 3 && first_ready_is(battle.units@, pilot_order(k), id) && forall|m: int|
                    0 <= m < k ==> !has_ready(battle.units@, #[trigger] pilot_order(m)),
            None => forall|k: int| 0 <= k < 3 ==> !has_ready(battle.units@, #[trigger] pilot_order(k)),
        },
{
    match first_ready(&battle.units, UnitArchetype::Vanguard) {
        Some(id) => {
            assert(pilot_order(0) == UnitArchetype::Vanguard);
            return Some(id);
        },
        None => {},
    }
    match first_ready(&battle.units, UnitArchetype::Gunner) {
        Some(id) => {
            assert(pilot_order(0) == UnitArchetype::Vanguard);
            assert(pilot_order(1) == UnitArchetype::Gunner);
            return Some(id);
        },
        None => {},
    }
    let r = first_ready(&battle.units, UnitArchetype::Interceptor);
    assert(pilot_order(0) == UnitArchetype::Vanguard);
    assert(pilot_order(1) == UnitArchetype::Gunner);
    assert(pilot_order(2) == UnitArchetype::Interceptor);
    r
}

/// An idle player phase (no activation under way) or a lost battle.
pub open spec fn restart_window(b: BattleFacts) -> bool {
    (b.phase == BattlePhase::Player && b.active_unit.is_none()) || match b.result {
        Some(r) => !r.victory,
        None => false,
    }
}

/// A won battle is never restarted: the restart gate (`restart_allowed`)
/// and the Restart command (`execute_command`) both refuse it; a defeat is
/// always inside the window.
pub proof fn law_restart_only_before_victory(b: BattleFacts)
    ensures
        (b.phase == BattlePhase::Victory && b.result.is_some() && b.result.unwrap().victory)
            ==> !restart_window(b),
        (b.result.is_some() && !b.result.unwrap().victory) ==> restart_window(b),
{
}

/// Restart needs an idle player phase or a defeat, ready assets, no playback
/// under way or queued, and no screen change or restart already requested.
pub fn restart_allowed(
    battle: &BattleFacts,
    asset_status: &AssetLoadStatus,
    playback: &EventPlayback,
    transition_pending: bool,
    restart_pending: bool,
) -> (b: bool)
    ensures
        b == (restart_window(*battle) && *asset_status is Ready && !playback.input_locked
            && playback.current.is_none() && !transition_pending && !restart_pending),
{
    let idle_player = match battle.phase {
        BattlePhase::Player => battle.active_unit.is_none(),
        _ => false,
    };
    let defeat = match battle.result {
        Some(r) => !r.victory,
        None => false,
    };
    let ready = match asset_status {
        AssetLoadStatus::Ready => true,
        _ => false,
    };
    (idle_player || defeat) && ready && !playback.input_locked && playback.current.is_none()
        && !transition_pending && !restart_pending
}

/// Pointer and keyboard input reach the battle only once assets are ready
/// and no event playback holds the input lock.
pub fn stage_event_ready(status: &AssetLoadStatus, playback: &EventPlayback) -> (b: bool)
    ensures
        b == (*status is Ready && !playback.input_locked),
{
    let ready = match status {
        AssetLoadStatus::Ready => true,
        _ => false,
    };
    ready && !playback.input_locked
}

/// Whether a click on a player unit starts its activation.
pub open spec fn starts_activation(b: BattleFacts, u: UnitFacts) -> bool {
    u.faction == Faction::Player && b.phase == BattlePhase::Player && b.active_unit.is_none()
        && !u.finished && !u.knocked_out
}

/// What a click on board cell `clicked` (whose occupant is `occupant`) does:
/// the step `s` it yields and the interaction state `after` it leaves.
pub open spec fn spec_cell_click(
    battle: BattleFacts,
    before: InteractionState,
    after: InteractionState,
    clicked: GridPos,
    occupant: Option<UnitId>,
    s: Step,
) -> bool {
    match before.mode {
        InteractionMode::Move => (match spec_require_active_unit(battle) {
            Ok(u) => is_call(s, BattleCall::MoveUnit { unit: u, to: clicked }),
            Err(e) => done_err(s, e),
        }) && same_interaction(after, before),
        InteractionMode::Attack(w) => (match spec_require_active_unit(battle) {
            Ok(u) => is_call(s, BattleCall::Attack { unit: u, weapon: w, target: clicked }),
            Err(e) => done_err(s, e),
        }) && same_interaction(after, before),
        InteractionMode::AegisTarget => (match occupant {
            Some(ally) => is_call(s, BattleCall::UseAegis { ally, at: clicked }),
            None => done_err(s, BattleError::NoUnitSelected),
        }) && same_interaction(after, before),
        InteractionMode::Inspect => match occupant {
            None => done_ok_empty(s) && after.hovered_cell == Some(clicked)
                && after.preview.is_none() && after.inspected_unit
                == before.inspected_unit && after.mode == before.mode && after.menu == before.menu,
            Some(id) => match battle.unit_of(id) {
                None => done_err(s, BattleError::UnknownUnit(id)) && same_interaction(
                    after,
                    before,
                ),
                Some(u) => if starts_activation(battle, u) {
                    is_call(s, BattleCall::BeginActivation { unit: id, clicked: Some(clicked) })
                        && same_interaction(after, before)
                } else {
                    done_ok_empty(s) && after.inspected_unit == Some(id) && after.hovered_cell == Some(clicked) && after.preview.is_none()
                        && after.mode == before.mode && after.menu == before.menu
                },
            },
        },
    }
}

/// Routes a click on board cell `clicked`, whose occupant is `occupant`.
pub fn route_cell_click(
    battle: &BattleFacts,
    interaction: &mut InteractionState,
    clicked: GridPos,
    occupant: Option<UnitId>,
) -> (s: Step)
    ensures
        spec_cell_click(*battle, *old(interaction), *final(interaction), clicked, occupant, s),
{
    match interaction.mode {
        InteractionMode::Move => match require_active_unit(battle) {
            Ok(u) => Step::Call(BattleCall::MoveUnit { unit: u, to: clicked }),
            Err(e) => Step::Done(Err(e)),
        },
        InteractionMode::Attack(w) => match require_active_unit(battle) {
            Ok(u) => Step::Call(BattleCall::Attack { unit: u, weapon: w, target: clicked }),
            Err(e) => Step::Done(Err(e)),
        },
        InteractionMode::AegisTarget => match occupant {
            Some(ally) => Step::Call(BattleCall::UseAegis { ally, at: clicked }),
            None => Step::Done(Err(BattleError::NoUnitSelected)),
        },
        InteractionMode::Inspect => {
            if let Some(id) = occupant {
                let unit = match battle.unit(id) {
                    Some(u) => u,
                    None => {
                        return Step::Done(Err(BattleError::UnknownUnit(id)));
                    },
                };
                if unit.faction == Faction::Player {
                    let phase_player = match battle.phase {
                        BattlePhase::Player => true,
                        _ => false,
                    };
                    if phase_player && battle.active_unit.is_none() && !unit.finished
                        && !unit.knocked_out {
                        return Step::Call(
                            BattleCall::BeginActivation { unit: id, clicked: Some(clicked) },
                        );
                    }
                }
                interaction.inspected_unit = Some(id);
            }
            interaction.hovered_cell = Some(clicked);
            interaction.preview = None;
            Step::Done(Ok(Vec::new()))
        },
    }
}

/// Routes a click on a unit's token: the same route as a click on the
/// unit's current cell, whose occupant is `occupant`.
pub fn route_token_click(
    battle: &BattleFacts,
    interaction: &mut InteractionState,
    unit_id: UnitId,
    occupant: Option<UnitId>,
) -> (s: Step)
    ensures
        match battle.unit_of(unit_id) {
            None => done_err(s, BattleError::UnknownUnit(unit_id)) && same_interaction(
                *final(interaction),
                *old(interaction),
            ),
            Some(u) => spec_cell_click(
                *battle,
                *old(interaction),
                *final(interaction),
                u.position,
                occupant,
                s,
            ),
        },
{
    let position = match battle.unit(unit_id) {
        Some(u) => u.position,
        None => {
            return Step::Done(Err(BattleError::UnknownUnit(unit_id)));
        },
    };
    route_cell_click(battle, interaction, position, occupant)
}

/// Finishes a route once the engine has answered its call. A refusal
/// (`Refused`) leaves the interaction state untouched.
pub fn settle(
    battle_after: &BattleFacts,
    interaction: &mut InteractionState,
    call: BattleCall,
    outcome: CallOutcome,
) -> (s: Step)
    requires
        outcome_fits(call, outcome),
    ensures
        match outcome {
            CallOutcome::Refused(e) => done_err(s, e) && same_interaction(
                *final(interaction),
                *old(interaction),
            ),
            CallOutcome::Preview(p) => done_ok_empty(s) && final(interaction).preview == p
                && final(interaction).inspected_unit == old(interaction).inspected_unit && final(interaction).hovered_cell == old(interaction).hovered_cell && final(interaction).mode == old(interaction).mode && final(interaction).menu == old(interaction).menu,
            CallOutcome::Events(events) => match call {
                BattleCall::MoveUnit { to, .. } => (match s {
                    Step::Done(Ok(r)) => r == events,
                    _ => false,
                }) && final(interaction).mode == InteractionMode::Inspect && final(interaction).menu == MenuState::Root && final(interaction).hovered_cell == Some(to) && final(interaction).preview.is_none() && final(interaction).inspected_unit == old(interaction).inspected_unit,
                BattleCall::Attack { target, .. } => (match s {
                    Step::Done(Ok(r)) => r == events,
                    _ => false,
                }) && final(interaction).mode == InteractionMode::Inspect && final(interaction).menu == MenuState::Root && final(interaction).hovered_cell == Some(target)
                    && final(interaction).preview.is_none() && final(interaction).inspected_unit
                    == old(interaction).inspected_unit,
                BattleCall::UseAegis { at, .. } => done_ok_empty(s) && final(interaction).mode
                    == InteractionMode::Inspect && final(interaction).menu == MenuState::Root
                    && final(interaction).hovered_cell == Some(at) && final(interaction).preview.is_none() && final(interaction).inspected_unit == old(interaction).inspected_unit,
                BattleCall::BeginActivation { unit, clicked } => done_ok_empty(s) && final(interaction).menu == MenuState::Root && final(interaction).inspected_unit == Some(unit)
                    && final(interaction).mode == old(interaction).mode && match clicked {
                    Some(c) => final(interaction).hovered_cell == Some(c) && final(interaction).preview.is_none(),
                    None => final(interaction).hovered_cell == old(interaction).hovered_cell
                        && final(interaction).preview == old(interaction).preview,
                },
                BattleCall::UseFocus | BattleCall::UseOverdrive | BattleCall::ChooseReaction {
                    ..
                } => done_ok_empty(s) && final(interaction).menu == MenuState::Root && final(interaction).mode == old(interaction).mode && final(interaction).inspected_unit == old(interaction).inspected_unit && final(interaction).hovered_cell == old(interaction).hovered_cell && final(interaction).preview == old(interaction).preview,
                BattleCall::FinishActivation { .. } => final(interaction).mode
                    == InteractionMode::Inspect && final(interaction).preview.is_none() && final(interaction).hovered_cell == old(interaction).hovered_cell && match s {
                    Step::Call(BattleCall::BeginActivation { unit, clicked }) => clicked.is_none()
                        && (exists|k: int|
                        0 <= k < 3 && first_ready_is(battle_after.units@, pilot_order(k), unit)
                            && (forall|m: int|
                            0 <= m < k ==> !has_ready(battle_after.units@, #[trigger] pilot_order(m))))
                        && final(interaction).menu == old(interaction).menu
                        && final(interaction).inspected_unit == old(interaction).inspected_unit,
                    Step::Done(Ok(r)) => r@.len() == 0 && (forall|k: int|
                        0 <= k < 3 ==> !has_ready(battle_after.units@, #[trigger] pilot_order(k)))
                        && final(interaction).inspected_unit.is_none() && final(interaction).menu
                        == MenuState::Hidden,
                    _ => false,
                },
                BattleCall::ResolveEnemyPhase => (match s {
                    Step::Done(Ok(r)) => r == events,
                    _ => false,
                }) && final(interaction).inspected_unit.is_none() && final(interaction).hovered_cell.is_none() && final(interaction).mode == InteractionMode::Inspect
                    && final(interaction).menu == MenuState::Hidden && final(interaction).preview.is_none(),
                BattleCall::PreviewAttack { .. } => false,
            },
        },
{
    let events = match outcome {
        CallOutcome::Refused(e) => {
            return Step::Done(Err(e));
        },
        CallOutcome::Preview(p) => {
            interaction.preview = p;
            return Step::Done(Ok(Vec::new()));
        },
        CallOutcome::Events(events) => events,
    };
    match call {
        BattleCall::MoveUnit { to, .. } => {
            interaction.mode = InteractionMode::Inspect;
            interaction.menu = MenuState::Root;
            interaction.hovered_cell = Some(to);
            interaction.preview = None;
            Step::Done(Ok(events))
        },
        BattleCall::Attack { target, .. } => {
            interaction.mode = InteractionMode::Inspect;
            interaction.menu = MenuState::Root;
            interaction.hovered_cell = Some(target);
            interaction.preview = None;
            Step::Done(Ok(events))
        },
        BattleCall::UseAegis { at, .. } => {
            interaction.mode = InteractionMode::Inspect;
            interaction.menu = MenuState::Root;
            interaction.hovered_cell = Some(at);
            interaction.preview = None;
            Step::Done(Ok(Vec::new()))
        },
        BattleCall::BeginActivation { unit, clicked } => {
            interaction.menu = MenuState::Root;
            interaction.inspected_unit = Some(unit);
            if let Some(c) = clicked {
                interaction.hovered_cell = Some(c);
                interaction.preview = None;
            }
            Step::Done(Ok(Vec::new()))
        },
        BattleCall::UseFocus | BattleCall::UseOverdrive | BattleCall::ChooseReaction { .. } => {
            interaction.menu = MenuState::Root;
            Step::Done(Ok(Vec::new()))
        },
        BattleCall::FinishActivation { .. } => {
            interaction.mode = InteractionMode::Inspect;
            interaction.preview = None;
            match next_ready_unit(battle_after) {
                Some(next) => Step::Call(BattleCall::BeginActivation { unit: next, clicked: None }),
                None => {
                    interaction.inspected_unit = None;
                    interaction.menu = MenuState::Hidden;
                    Step::Done(Ok(Vec::new()))
                },
            }
        },
        BattleCall::ResolveEnemyPhase => {
            interaction.inspected_unit = None;
            interaction.hovered_cell = None;
            interaction.mode = InteractionMode::Inspect;
            interaction.menu = MenuState::Hidden;
            interaction.preview = None;
            Step::Done(Ok(events))
        },
        BattleCall::PreviewAttack { .. } => Step::Done(Ok(Vec::new())),
    }
}

/// The weapon in `slot` of a unit's loadout.
pub open spec fn slot_weapon(u: UnitFacts, slot: int) -> Option<WeaponId> {
    if 0 <= slot < u.weapons@.len() {
        Some(u.weapons@[slot])
    } else {
        None
    }
}

/// The unit on whose behalf an engine call acts, if it names one.
pub open spec fn call_actor(c: BattleCall) -> Option<UnitId> {
    match c {
        BattleCall::MoveUnit { unit, .. } => Some(unit),
        BattleCall::Attack { unit, .. } => Some(unit),
        BattleCall::BeginActivation { unit, .. } => Some(unit),
        BattleCall::ChooseReaction { unit, .. } => Some(unit),
        BattleCall::FinishActivation { unit } => Some(unit),
        BattleCall::PreviewAttack { unit, .. } => Some(unit),
        _ => None,
    }
}

/// Executes a sidebar or keyboard command against the active unit.
pub fn execute_command(battle: &BattleFacts, interaction: &mut InteractionState, action: CommandAction) -> (s:
    Step)
    ensures
        // Inspection never grants command authority: every engine call that a
        // command names acts on the battle's active unit, and no command
        // changes which unit is inspected.
        match s {
            Step::Call(c) => call_actor(c).is_some() ==> call_actor(c) == battle.active_unit,
            Step::Done(_) => true,
        },
        final(interaction).inspected_unit == old(interaction).inspected_unit,
        match action {
            CommandAction::Move => match spec_require_active_unit(*battle) {
                Err(e) => done_err(s, e) && same_interaction(*final(interaction), *old(interaction)),
                Ok(id) => match battle.unit_of(id) {
                    None => done_err(s, BattleError::UnknownUnit(id)) && same_interaction(
                        *final(interaction),
                        *old(interaction),
                    ),
                    Some(u) => if u.moved {
                        done_err(s, BattleError::MoveAlreadySpent(id)) && same_interaction(
                            *final(interaction),
                            *old(interaction),
                        )
                    } else {
                        done_ok_empty(s) && final(interaction).mode == InteractionMode::Move
                            && final(interaction).menu == MenuState::Hidden && final(interaction).preview.is_none() && final(interaction).inspected_unit == old(interaction).inspected_unit && final(interaction).hovered_cell == old(interaction).hovered_cell
                    },
                },
            },
            CommandAction::WeaponSlot(slot) => match spec_require_active_unit(*battle) {
                Err(e) => done_err(s, e) && same_interaction(*final(interaction), *old(interaction)),
                Ok(id) => match battle.unit_of(id) {
                    None => done_err(s, BattleError::UnknownUnit(id)) && same_interaction(
                        *final(interaction),
                        *old(interaction),
                    ),
                    Some(u) => if u.acted {
                        done_err(s, BattleError::ActionAlreadySpent(id)) && same_interaction(
                            *final(interaction),
                            *old(interaction),
                        )
                    } else {
                        match slot_weapon(u, slot as int) {
                            None => done_err(s, BattleError::UnknownWeapon(WeaponId(0)))
                                && same_interaction(*final(interaction), *old(interaction)),
                            Some(wid) => match battle.weapon_of(wid) {
                                None => done_err(s, BattleError::UnknownWeapon(wid))
                                    && same_interaction(*final(interaction), *old(interaction)),
                                Some(w) => if u.en < w.en_cost {
                                    done_err(
                                        s,
                                        BattleError::InsufficientEn {
                                            unit: id,
                                            required: w.en_cost,
                                            available: u.en,
                                        },
                                    ) && same_interaction(*final(interaction), *old(interaction))
                                } else {
                                    final(interaction).mode == InteractionMode::Attack(wid)
                                        && final(interaction).menu == MenuState::Hidden && final(interaction).inspected_unit == old(interaction).inspected_unit && final(interaction).hovered_cell == old(interaction).hovered_cell
                                        && match old(interaction).hovered_cell {
                                        Some(cell) => is_call(
                                            s,
                                            BattleCall::PreviewAttack {
                                                unit: id,
                                                weapon: wid,
                                                cell,
                                            },
                                        ),
                                        None => done_ok_empty(s) && final(interaction).preview.is_none(),
                                    }
                                },
                            },
                        }
                    },
                },
            },
            CommandAction::PilotSkill => match spec_require_active_unit(*battle) {
                Err(e) => done_err(s, e) && same_interaction(*final(interaction), *old(interaction)),
                Ok(id) => match battle.unit_of(id) {
                    None => done_err(s, BattleError::UnknownUnit(id)) && same_interaction(
                        *final(interaction),
                        *old(interaction),
                    ),
                    Some(u) => match u.archetype {
                        UnitArchetype::Vanguard => done_ok_empty(s) && final(interaction).mode
                            == InteractionMode::AegisTarget && final(interaction).menu
                            == MenuState::Hidden && final(interaction).preview.is_none() && final(interaction).inspected_unit == old(interaction).inspected_unit && final(interaction).hovered_cell == old(interaction).hovered_cell,
                        UnitArchetype::Gunner => is_call(s, BattleCall::UseFocus)
                            && same_interaction(*final(interaction), *old(interaction)),
                        UnitArchetype::Interceptor => is_call(s, BattleCall::UseOverdrive)
                            && same_interaction(*final(interaction), *old(interaction)),
                        _ => done_err(s, BattleError::PilotSkillWrongUnit(id)) && same_interaction(
                            *final(interaction),
                            *old(interaction),
                        ),
                    },
                },
            },
            CommandAction::Reaction(r) => (match spec_require_active_unit(*battle) {
                Err(e) => done_err(s, e),
                Ok(id) => is_call(s, BattleCall::ChooseReaction { unit: id, reaction: r }),
            }) && same_interaction(*final(interaction), *old(interaction)),
            CommandAction::FinishUnit => (match spec_require_active_unit(*battle) {
                Err(e) => done_err(s, e),
                Ok(id) => is_call(s, BattleCall::FinishActivation { unit: id }),
            }) && same_interaction(*final(interaction), *old(interaction)),
            CommandAction::ResolveAttacks => is_call(s, BattleCall::ResolveEnemyPhase)
                && same_interaction(*final(interaction), *old(interaction)),
            CommandAction::Cancel => done_ok_empty(s) && final(interaction).mode
                == InteractionMode::Inspect && final(interaction).menu == (if battle.active_unit.is_some() {
                MenuState::Root
            } else {
                MenuState::Hidden
            }) && final(interaction).preview.is_none() && final(interaction).inspected_unit == old(interaction).inspected_unit && final(interaction).hovered_cell == old(interaction).hovered_cell,
            CommandAction::Restart => (if restart_window(*battle) {
                done_ok_empty(s)
            } else {
                done_err(
                    s,
                    BattleError::WrongPhase { expected: BattlePhase::Defeat, actual: battle.phase },
                )
            }) && same_interaction(*final(interaction), *old(interaction)),
            CommandAction::ContinueVictory => (if battle.result.is_some()
                && battle.result.unwrap().victory {
                done_ok_empty(s)
            } else {
                done_err(
                    s,
                    BattleError::WrongPhase { expected: BattlePhase::Victory, actual: battle.phase },
                )
            }) && same_interaction(*final(interaction), *old(interaction)),
        },
{
    match action {
        CommandAction::Move => {
            let unit_id = match require_active_unit(battle) {
                Ok(u) => u,
                Err(e) => {
                    return Step::Done(Err(e));
                },
            };
            let unit = match battle.unit(unit_id) {
                Some(u) => u,
                None => {
                    return Step::Done(Err(BattleError::UnknownUnit(unit_id)));
                },
            };
            if unit.moved {
                return Step::Done(Err(BattleError::MoveAlreadySpent(unit_id)));
            }
            interaction.mode = InteractionMode::Move;
            interaction.menu = MenuState::Hidden;
            interaction.preview = None;
            Step::Done(Ok(Vec::new()))
        },
        CommandAction::WeaponSlot(slot) => {
            let unit_id = match require_active_unit(battle) {
                Ok(u) => u,
                Err(e) => {
                    return Step::Done(Err(e));
                },
            };
            let unit = match battle.unit(unit_id) {
                Some(u) => u,
                None => {
                    return Step::Done(Err(BattleError::UnknownUnit(unit_id)));
                },
            };
            if unit.acted {
                return Step::Done(Err(BattleError::ActionAlreadySpent(unit_id)));
            }
            if slot >= unit.weapons.len() {
                return Step::Done(Err(BattleError::UnknownWeapon(WeaponId(0))));
            }
            let weapon_id = unit.weapons[slot];
            let weapon = match battle.weapon(weapon_id) {
                Some(w) => w,
                None => {
                    return Step::Done(Err(BattleError::UnknownWeapon(weapon_id)));
                },
            };
            if unit.en < weapon.en_cost {
                return Step::Done(
                    Err(
                        BattleError::InsufficientEn {
                            unit: unit_id,
                            required: weapon.en_cost,
                            available: unit.en,
                        },
                    ),
                );
            }
            interaction.mode = InteractionMode::Attack(weapon_id);
            interaction.menu = MenuState::Hidden;
            match interaction.hovered_cell {
                Some(cell) => Step::Call(
                    BattleCall::PreviewAttack { unit: unit_id, weapon: weapon_id, cell },
                ),
                None => {
                    interaction.preview = None;
                    Step::Done(Ok(Vec::new()))
                },
            }
        },
        CommandAction::PilotSkill => {
            let unit_id = match require_active_unit(battle) {
                Ok(u) => u,
                Err(e) => {
                    return Step::Done(Err(e));
                },
            };
            let unit = match battle.unit(unit_id) {
                Some(u) => u,
                None => {
                    return Step::Done(Err(BattleError::UnknownUnit(unit_id)));
                },
            };
            match unit.archetype {
                UnitArchetype::Vanguard => {
                    interaction.mode = InteractionMode::AegisTarget;
                    interaction.menu = MenuState::Hidden;
                    interaction.preview = None;
                    Step::Done(Ok(Vec::new()))
                },
                UnitArchetype::Gunner => Step::Call(BattleCall::UseFocus),
                UnitArchetype::Interceptor => Step::Call(BattleCall::UseOverdrive),
                UnitArchetype::Rifleman | UnitArchetype::Striker | UnitArchetype::Artillery
                | UnitArchetype::Flanker | UnitArchetype::Bulwark | UnitArchetype::Controller
                | UnitArchetype::Dreadnought | UnitArchetype::Regent => {
                    Step::Done(Err(BattleError::PilotSkillWrongUnit(unit_id)))
                },
            }
        },
        CommandAction::Reaction(reaction) => match require_active_unit(battle) {
            Ok(u) => Step::Call(BattleCall::ChooseReaction { unit: u, reaction }),
            Err(e) => Step::Done(Err(e)),
        },
        CommandAction::FinishUnit => match require_active_unit(battle) {
            Ok(u) => Step::Call(BattleCall::FinishActivation { unit: u }),
            Err(e) => Step::Done(Err(e)),
        },
        CommandAction::ResolveAttacks => Step::Call(BattleCall::ResolveEnemyPhase),
        CommandAction::Cancel => {
            interaction.mode = InteractionMode::Inspect;
            interaction.menu = if battle.active_unit.is_some() {
                MenuState::Root
            } else {
                MenuState::Hidden
            };
            interaction.preview = None;
            Step::Done(Ok(Vec::new()))
        },
        CommandAction::Restart => {
            let idle_player = match battle.phase {
                BattlePhase::Player => battle.active_unit.is_none(),
                _ => false,
            };
            let defeat = match battle.result {
                Some(r) => !r.victory,
                None => false,
            };
            if !idle_player && !defeat {
                return Step::Done(
                    Err(BattleError::WrongPhase { expected: BattlePhase::Defeat, actual: battle.phase }),
                );
            }
            Step::Done(Ok(Vec::new()))
        },
        CommandAction::ContinueVictory => {
            let victory = match battle.result {
                Some(r) => r.victory,
                None => false,
            };
            if !victory {
                return Step::Done(
                    Err(
                        BattleError::WrongPhase { expected: BattlePhase::Victory, actual: battle.phase },
                    ),
                );
            }
            Step::Done(Ok(Vec::new()))
        },
    }
}

/// Sets the hovered cell and, while a weapon is armed for the active unit,
/// asks for that weapon's preview on the cell; otherwise clears the preview.
pub fn update_hover_preview(battle: &BattleFacts, interaction: &mut InteractionState, cell: GridPos) -> (c:
    Option<BattleCall>)
    ensures
        final(interaction).hovered_cell == Some(cell),
        final(interaction).inspected_unit == old(interaction).inspected_unit,
        final(interaction).mode == old(interaction).mode,
        final(interaction).menu == old(interaction).menu,
        match (battle.active_unit, old(interaction).mode) {
            (Some(attacker), InteractionMode::Attack(weapon)) => c == Some(
                BattleCall::PreviewAttack { unit: attacker, weapon, cell },
            ) && final(interaction).preview == old(interaction).preview,
            _ => c.is_none() && final(interaction).preview.is_none(),
        },
{
    interaction.hovered_cell = Some(cell);
    match (battle.active_unit, interaction.mode) {
        (Some(attacker), InteractionMode::Attack(weapon)) => Some(
            BattleCall::PreviewAttack { unit: attacker, weapon, cell },
        ),
        _ => {
            interaction.preview = None;
            None
        },
    }
}

/// Pointer left the stage: nothing is hovered or previewed.
pub fn clear_hover_preview(interaction: &mut InteractionState)
    ensures
        final(interaction).hovered_cell.is_none(),
        final(interaction).preview.is_none(),
        final(interaction).inspected_unit == old(interaction).inspected_unit,
        final(interaction).mode == old(interaction).mode,
        final(interaction).menu == old(interaction).menu,
{
    interaction.hovered_cell = None;
    interaction.preview = None;
}

/// Pointer left a token: only a hover still on that unit's cell is cleared.
pub fn clear_token_hover(interaction: &mut InteractionState, token_cell: Option<GridPos>) -> (cleared:
    bool)
    ensures
        cleared == (old(interaction).hovered_cell == token_cell),
        cleared ==> final(interaction).hovered_cell.is_none() && final(interaction).preview.is_none(),
        !cleared ==> same_interaction(*final(interaction), *old(interaction)),
        final(interaction).inspected_unit == old(interaction).inspected_unit,
        final(interaction).mode == old(interaction).mode,
        final(interaction).menu == old(interaction).menu,
{
    if interaction.hovered_cell == token_cell {
        interaction.hovered_cell = None;
        interaction.preview = None;
        true
    } else {
        false
    }
}

/// The cells highlighted as the attack preview's footprint.
pub fn preview_cells(interaction: &InteractionState) -> (cells: Vec<GridPos>)
    ensures
        match interaction.preview {
            Some(p) => cells@ == p.footprint@,
            None => cells@.len() == 0,
        },
{
    match &interaction.preview {
        Some(p) => p.footprint.clone(),
        None => Vec::new(),
    }
}

pub open spec fn spec_success_message(action: CommandAction, mode: InteractionMode) -> Seq<char> {
    match action {
        CommandAction::Move => "MOVE ARMED — choose a cyan destination."@,
        CommandAction::WeaponSlot(_) => "WEAPON ARMED — choose an amber target."@,
        CommandAction::PilotSkill => if mode == InteractionMode::AegisTarget {
            "AEGIS ARMED — click an adjacent ally to shield."@
        } else {
            "Pilot skill engaged."@
        },
        CommandAction::Reaction(Reaction::Counter) => "COUNTER stance selected."@,
        CommandAction::Reaction(Reaction::Guard) => "GUARD stance selected."@,
        CommandAction::Reaction(Reaction::Evade) => "EVADE stance selected."@,
        CommandAction::FinishUnit => "Unit finished."@,
        CommandAction::ResolveAttacks => "Committed enemy attacks resolved."@,
        CommandAction::Cancel => "Command cancelled."@,
        CommandAction::Restart => "Mission restarted."@,
        CommandAction::ContinueVictory => "Campaign progress saved."@,
    }
}

/// Status line after a command succeeded, given the mode it left armed.
pub fn command_success_message(action: CommandAction, mode: InteractionMode) -> (m: &'static str)
    ensures
        m@ == spec_success_message(action, mode),
{
    match action {
        CommandAction::Move => "MOVE ARMED — choose a cyan destination.",
        CommandAction::WeaponSlot(_) => "WEAPON ARMED — choose an amber target.",
        CommandAction::PilotSkill => {
            if mode == InteractionMode::AegisTarget {
                "AEGIS ARMED — click an adjacent ally to shield."
            } else {
                "Pilot skill engaged."
            }
        },
        CommandAction::Reaction(Reaction::Counter) => "COUNTER stance selected.",
        CommandAction::Reaction(Reaction::Guard) => "GUARD stance selected.",
        CommandAction::Reaction(Reaction::Evade) => "EVADE stance selected.",
        CommandAction::FinishUnit => "Unit finished.",
        CommandAction::ResolveAttacks => "Committed enemy attacks resolved.",
        CommandAction::Cancel => "Command cancelled.",
        CommandAction::Restart => "Mission restarted.",
        CommandAction::ContinueVictory => "Campaign progress saved.",
    }
}


/// Keys bound to battle commands.
#[derive(Clone, Copy, Debug, PartialEq, Eq, Structural)]
pub enum ShortcutKey {
    KeyM,
    Digit1,
    Digit2,
    Digit3,
    KeyP,
    KeyC,
    KeyG,
    KeyE,
    KeyF,
    Space,
    Escape,
    KeyR,
}

fn pressed(keys: &Vec<ShortcutKey>, k: ShortcutKey) -> (b: bool)
    ensures
        b == keys@.contains(k),
{
    let mut i: usize = 0;
    while i < keys.len()
        invariant
            i <= keys@.len(),
            forall|j: int| 0 <= j < i ==> keys@[j] != k,
        decreases keys@.len() - i,
    {
        if keys[i] == k {
            assert(keys@[i as int] == k);
            return true;
        }
        i = i + 1;
    }
    false
}

pub open spec fn spec_shortcut_action(keys: Seq<ShortcutKey>) -> Option<CommandAction> {
    if keys.contains(ShortcutKey::KeyM) {
        Some(CommandAction::Move)
    } else if keys.contains(ShortcutKey::Digit1) {
        Some(CommandAction::WeaponSlot(0))
    } else if keys.contains(ShortcutKey::Digit2) {
        Some(CommandAction::WeaponSlot(1))
    } else if keys.contains(ShortcutKey::Digit3) {
        Some(CommandAction::WeaponSlot(2))
    } else if keys.contains(ShortcutKey::KeyP) {
        Some(CommandAction::PilotSkill)
    } else if keys.contains(ShortcutKey::KeyC) {
        Some(CommandAction::Reaction(Reaction::Counter))
    } else if keys.contains(ShortcutKey::KeyG) {
        Some(CommandAction::Reaction(Reaction::Guard))
    } else if keys.contains(ShortcutKey::KeyE) {
        Some(CommandAction::Reaction(Reaction::Evade))
    } else if keys.contains(ShortcutKey::KeyF) {
        Some(CommandAction::FinishUnit)
    } else if keys.contains(ShortcutKey::Space) {
        Some(CommandAction::ResolveAttacks)
    } else if keys.contains(ShortcutKey::Escape) {
        Some(CommandAction::Cancel)
    } else if keys.contains(ShortcutKey::KeyR) {
        Some(CommandAction::Restart)
    } else {
        None
    }
}

/// The command of the keys pressed this frame; when several are pressed the
/// first binding in the fixed list M, 1, 2, 3, P, C, G, E, F, Space, Escape,
/// R wins.
pub fn shortcut_action(just_pressed: &Vec<ShortcutKey>) -> (a: Option<CommandAction>)
    ensures
        a == spec_shortcut_action(just_pressed@),
{
    if pressed(just_pressed, ShortcutKey::KeyM) {
        Some(CommandAction::Move)
    } else if pressed(just_pressed, ShortcutKey::Digit1) {
        Some(CommandAction::WeaponSlot(0))
    } else if pressed(just_pressed, ShortcutKey::Digit2) {
        Some(CommandAction::WeaponSlot(1))
    } else if pressed(just_pressed, ShortcutKey::Digit3) {
        Some(CommandAction::WeaponSlot(2))
    } else if pressed(just_pressed, ShortcutKey::KeyP) {
        Some(CommandAction::PilotSkill)
    } else if pressed(just_pressed, ShortcutKey::KeyC) {
        Some(CommandAction::Reaction(Reaction::Counter))
    } else if pressed(just_pressed, ShortcutKey::KeyG) {
        Some(CommandAction::Reaction(Reaction::Guard))
    } else if pressed(just_pressed, ShortcutKey::KeyE) {
        Some(CommandAction::Reaction(Reaction::Evade))
    } else if pressed(just_pressed, ShortcutKey::KeyF) {
        Some(CommandAction::FinishUnit)
    } else if pressed(just_pressed, ShortcutKey::Space) {
        Some(CommandAction::ResolveAttacks)
    } else if pressed(just_pressed, ShortcutKey::Escape) {
        Some(CommandAction::Cancel)
    } else if pressed(just_pressed, ShortcutKey::KeyR) {
        Some(CommandAction::Restart)
    } else {
        None
    }
}

/// What the battle status line shows next.
#[derive(Clone, Debug)]
pub enum StatusUpdate {
    /// Empty the status line.
    Clear,
    /// Show this fixed text.
    Text(&'static str),
    /// Show the error's message.
    Error(BattleError),
}

/// Appends `events` to the playback queue; any event locks input until
/// playback drains the queue.
pub fn enqueue_events(events: Vec<BattleEvent>, playback: &mut EventPlayback, queue: &mut VecDeque<
    BattleEvent,
>)
    ensures
        final(queue)@ == old(queue)@ + events@,
        final(playback).input_locked == (old(playback).input_locked || events@.len() > 0),
        final(playback).current == old(playback).current,
{
    if events.len() > 0 {
        playback.input_locked = true;
    }
    let mut i: usize = 0;
    while i < events.len()
        invariant
            i <= events@.len(),
            queue@ == old(queue)@ + events@.subrange(0, i as int),
        decreases events@.len() - i,
    {
        queue.push_back(events[i]);
        proof {
            assert(events@.subrange(0, i + 1) == events@.subrange(0, i as int).push(events@[i as int]));
        }
        i = i + 1;
    }
    assert(events@.subrange(0, events@.len() as int) == events@);
}

/// Result of a board click: events go to playback and clear the status
/// line; a refusal shows its message.
pub fn route_pointer_result(
    result: Result<Vec<BattleEvent>, BattleError>,
    playback: &mut EventPlayback,
    queue: &mut VecDeque<BattleEvent>,
) -> (status: StatusUpdate)
    ensures
        match result {
            Ok(events) => status is Clear && final(queue)@ == old(queue)@ + events@ && final(playback).input_locked == (old(playback).input_locked || events@.len() > 0),
            Err(e) => (match status {
                StatusUpdate::Error(x) => x == e,
                _ => false,
            }) && final(queue)@ == old(queue)@ && final(playback).input_locked == old(playback).input_locked,
        },
        final(playback).current == old(playback).current,
{
    match result {
        Ok(events) => {
            enqueue_events(events, playback, queue);
            StatusUpdate::Clear
        },
        Err(e) => StatusUpdate::Error(e),
    }
}

/// How a command is dispatched before any battle routing.
#[derive(Clone, Copy, Debug, PartialEq, Eq, Structural)]
pub enum CommandGate {
    /// Continue after victory has its own route.
    ContinueVictory,
    /// Restart is not available now: report it and do nothing else.
    RestartUnavailable,
    /// Route through `execute_command`.
    Execute,
}

pub fn command_gate(action: CommandAction, restart_allowed: bool) -> (g: CommandGate)
    ensures
        g == (if action == CommandAction::ContinueVictory {
            CommandGate::ContinueVictory
        } else if action == CommandAction::Restart && !restart_allowed {
            CommandGate::RestartUnavailable
        } else {
            CommandGate::Execute
        }),
{
    if action == CommandAction::ContinueVictory {
        CommandGate::ContinueVictory
    } else if action == CommandAction::Restart && !restart_allowed {
        CommandGate::RestartUnavailable
    } else {
        CommandGate::Execute
    }
}

/// Status text when a restart is refused by `restart_allowed`.
pub fn restart_unavailable_message() -> (m: &'static str)
    ensures
        m@ == "Restart is unavailable right now."@,
{
    "Restart is unavailable right now."
}

/// Result of an executed command. On success its events are queued, the
/// status shows the command's success line and a restart asks for a fresh
/// seed (`true`); a refusal only shows its message.
pub fn finish_command(
    action: CommandAction,
    mode_after: InteractionMode,
    result: Result<Vec<BattleEvent>, BattleError>,
    playback: &mut EventPlayback,
    queue: &mut VecDeque<BattleEvent>,
) -> (r: (StatusUpdate, bool))
    ensures
        match result {
            Ok(events) => (match r.0 {
                StatusUpdate::Text(t) => t@ == spec_success_message(action, mode_after),
                _ => false,
            }) && r.1 == (action == CommandAction::Restart) && final(queue)@ == old(queue)@
                + events@ && final(playback).input_locked == (old(playback).input_locked
                || events@.len() > 0),
            Err(e) => (match r.0 {
                StatusUpdate::Error(x) => x == e,
                _ => false,
            }) && !r.1 && final(queue)@ == old(queue)@ && final(playback).input_locked == old(playback).input_locked,
        },
        final(playback).current == old(playback).current,
{
    match result {
        Ok(events) => {
            enqueue_events(events, playback, queue);
            (
                StatusUpdate::Text(command_success_message(action, mode_after)),
                action == CommandAction::Restart,
            )
        },
        Err(e) => (StatusUpdate::Error(e), false),
    }
}

/// What Continue does after a victory.
#[derive(Clone, Debug)]
pub enum ContinuePlan {
    /// A screen change is already queued this frame: do nothing.
    Wait,
    /// Record the mission's completion with this result, then on success
    /// open the aftermath.
    Complete(MissionResult),
    /// The battle was not won.
    Refuse(BattleError),
}

pub fn plan_continue_victory(battle: &BattleFacts, transition_pending: bool) -> (p: ContinuePlan)
    ensures
        transition_pending ==> p is Wait,
        !transition_pending ==> match battle.result {
            Some(r) => if r.victory {
                match p {
                    ContinuePlan::Complete(x) => x == r,
                    _ => false,
                }
            } else {
                match p {
                    ContinuePlan::Refuse(e) => e == BattleError::WrongPhase {
                        expected: BattlePhase::Victory,
                        actual: battle.phase,
                    },
                    _ => false,
                }
            },
            None => match p {
                ContinuePlan::Refuse(e) => e == BattleError::WrongPhase {
                    expected: BattlePhase::Victory,
                    actual: battle.phase,
                },
                _ => false,
            },
        },
{
    if transition_pending {
        return ContinuePlan::Wait;
    }
    match battle.result {
        Some(r) => {
            if r.victory {
                return ContinuePlan::Complete(r);
            }
        },
        None => {},
    }
    ContinuePlan::Refuse(BattleError::WrongPhase { expected: BattlePhase::Victory, actual: battle.phase })
}

/// Click on the single-unit viability board: a second click away from the
/// selected unit's cell moves unit 1 there; every click selects its cell.
pub fn handle_viability_cell_click(battle: &BattleFacts, selected: &mut Option<GridPos>, clicked: GridPos) -> (s:
    Step)
    ensures
        match battle.unit_of(UnitId(1)) {
            None => done_err(s, BattleError::UnknownUnit(UnitId(1))) && *final(selected) == *old(selected),
            Some(u) => if *old(selected) == Some(u.position) && clicked != u.position {
                is_call(s, BattleCall::MoveUnit { unit: UnitId(1), to: clicked }) && *final(selected) == *old(selected)
            } else {
                done_ok_empty(s) && *final(selected) == Some(clicked)
            },
        },
{
    let position = match battle.unit(UnitId(1)) {
        Some(u) => u.position,
        None => {
            return Step::Done(Err(BattleError::UnknownUnit(UnitId(1))));
        },
    };
    if *selected == Some(position) && clicked != position {
        Step::Call(BattleCall::MoveUnit { unit: UnitId(1), to: clicked })
    } else {
        *selected = Some(clicked);
        Step::Done(Ok(Vec::new()))
    }
}

/// Finishes a viability move: the clicked cell becomes the selection only
/// if the move went through.
pub fn settle_viability_move(selected: &mut Option<GridPos>, clicked: GridPos, outcome: Result<
    Vec<BattleEvent>,
    BattleError,
>) -> (r: Result<Vec<BattleEvent>, BattleError>)
    ensures
        r == outcome,
        outcome is Ok ==> *final(selected) == Some(clicked),
        outcome is Err ==> *final(selected) == *old(selected),
{
    if outcome.is_ok() {
        *selected = Some(clicked);
    }
    outcome
}

/// Clears the operator-side state that a restart or a fresh battle entry
/// must not inherit: interaction, status line, queued events, playback and
/// the attack-preview cells. (The recent battle log is cleared beside it,
/// with `RecentBattleLog::clear`.)
pub fn reset_transient_battle_state(
    interaction: &mut InteractionState,
    status: &mut String,
    queue: &mut VecDeque<BattleEvent>,
    playback: &mut EventPlayback,
    preview_cells: &mut Vec<GridPos>,
)
    ensures
        final(interaction).inspected_unit.is_none(),
        final(interaction).hovered_cell.is_none(),
        final(interaction).mode == InteractionMode::Inspect,
        final(interaction).menu == MenuState::Hidden,
        final(interaction).preview.is_none(),
        final(status)@.len() == 0,
        final(queue)@.len() == 0,
        final(playback).current.is_none(),
        !final(playback).input_locked,
        final(preview_cells)@.len() == 0,
{
    *interaction = InteractionState::default();
    *status = String::new();
    queue.clear();
    *playback = EventPlayback::default();
    preview_cells.clear();
}

/// The digit keys pick the weapon slots in order: pressing only the key `n`
/// (1, 2 or 3) arms weapon slot `n - 1`.
pub proof fn law_digit_key_arms_its_weapon_slot(keys: Seq<ShortcutKey>, n: int)
    requires
        1 <= n <= 3,
        keys.len() > 0,
        forall|i: int|
            0 <= i < keys.len() ==> keys[i] == (if n == 1 {
                ShortcutKey::Digit1
            } else if n == 2 {
                ShortcutKey::Digit2
            } else {
                ShortcutKey::Digit3
            }),
    ensures
        spec_shortcut_action(keys) == Some(CommandAction::WeaponSlot((n - 1) as usize)),
{
    assert(keys[0] == keys[0]);
    assert(keys.contains(keys[0]));
}

/// A weapon slot is only ever armed by its own digit key, so distinct digit
/// keys arm distinct slots: slot 0 needs 1 pressed, slot 1 needs 2, slot 2
/// needs 3, and no other slot is reachable from the keyboard.
pub proof fn law_weapon_slot_needs_its_digit(keys: Seq<ShortcutKey>, slot: usize)
    requires
        spec_shortcut_action(keys) == Some(CommandAction::WeaponSlot(slot)),
    ensures
        slot < 3,
        slot == 0 ==> keys.contains(ShortcutKey::Digit1),
        slot == 1 ==> keys.contains(ShortcutKey::Digit2),
        slot == 2 ==> keys.contains(ShortcutKey::Digit3),
{
}

/// Each key pressed alone gives the command of the keyboard table: M move,
/// 1–3 the weapon slots, P the pilot skill, C/G/E the reactions Counter,
/// Guard and Evade, F finish, Space resolve, Escape cancel, R restart.
pub proof fn law_key_alone_gives_its_command(keys: Seq<ShortcutKey>, k: ShortcutKey)
    requires
        keys.len() > 0,
        forall|i: int| 0 <= i < keys.len() ==> keys[i] == k,
    ensures
        spec_shortcut_action(keys) == Some(
            match k {
                ShortcutKey::KeyM => CommandAction::Move,
                ShortcutKey::Digit1 => CommandAction::WeaponSlot(0),
                ShortcutKey::Digit2 => CommandAction::WeaponSlot(1),
                ShortcutKey::Digit3 => CommandAction::WeaponSlot(2),
                ShortcutKey::KeyP => CommandAction::PilotSkill,
                ShortcutKey::KeyC => CommandAction::Reaction(Reaction::Counter),
                ShortcutKey::KeyG => CommandAction::Reaction(Reaction::Guard),
                ShortcutKey::KeyE => CommandAction::Reaction(Reaction::Evade),
                ShortcutKey::KeyF => CommandAction::FinishUnit,
                ShortcutKey::Space => CommandAction::ResolveAttacks,
                ShortcutKey::Escape => CommandAction::Cancel,
                ShortcutKey::KeyR => CommandAction::Restart,
            },
        ),
{
    assert(keys.contains(keys[0]));
}

} // verus!
