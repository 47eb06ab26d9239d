//! The battle sidebar's drill-down menu.
use vstd::prelude::*;
use crate::interaction::{InteractionMode, InteractionState};
use crate::model::{BattleFacts, BattlePhase};

verus! {

/// Presentation-only drill-down state for the fixed left sidebar.
#[derive(Clone, Copy, Debug, PartialEq, Eq, Structural)]
pub enum MenuState {
    Hidden,
    Root,
    Weapons,
    Stances,
}

impl Default for MenuState {
    fn default() -> (m: Self)
        ensures
            m == MenuState::Hidden,
    {
        MenuState::Hidden
    }
}

#[derive(Clone, Copy, Debug, PartialEq, Eq, Structural)]
pub enum MenuAction {
    Open(MenuState),
    Back,
}

/// The active pilot owns the command area: player phase, an activation in
/// progress, and no targeting mode armed.
pub open spec fn has_menu_authority(battle: BattleFacts, mode: InteractionMode) -> bool {
    battle.phase == BattlePhase::Player && battle.active_unit.is_some() && mode
        == InteractionMode::Inspect
}

/// Applies a sidebar navigation action. Without menu authority nothing
/// changes and `false` is returned.
pub fn apply_menu_action(
    battle: &BattleFacts,
    interaction: &mut InteractionState,
    action: MenuAction,
) -> (applied: bool)
    ensures
        applied == has_menu_authority(*battle, old(interaction).mode),
        final(interaction).mode == old(interaction).mode,
        final(interaction).inspected_unit == old(interaction).inspected_unit,
        final(interaction).hovered_cell == old(interaction).hovered_cell,
        final(interaction).preview == old(interaction).preview,
        !applied ==> final(interaction).menu == old(interaction).menu,
        applied ==> final(interaction).menu == match action {
            MenuAction::Open(state) => state,
            MenuAction::Back => MenuState::Root,
        },
{
    let authority = match battle.phase {
        BattlePhase::Player => battle.active_unit.is_some() && match interaction.mode {
            InteractionMode::Inspect => true,
            _ => false,
        },
        _ => false,
    };
    if !authority {
        return false;
    }
    match action {
        MenuAction::Open(state) => interaction.menu = state,
        MenuAction::Back => interaction.menu = MenuState::Root,
    }
    true
}

/// What the sidebar shows for one frame.
#[derive(Clone, Copy, Debug, PartialEq, Eq, Structural)]
pub struct BattleMenuView {
    /// The menu region currently shown, if any.
    pub region: Option<MenuState>,
    /// The targeting row (cancel plus mode icon).
    pub targeting: bool,
    /// The move icon inside the targeting row.
    pub targeting_move_icon: bool,
    /// The attack icon inside the targeting row.
    pub targeting_attack_icon: bool,
    pub resolve: bool,
    /// The "ATTACK" and "STANCE" rows of the root region.
    pub open_buttons_enabled: bool,
    /// The back rows of the weapons and stances regions.
    pub back_buttons_enabled: bool,
}

pub open spec fn menu_active(battle: BattleFacts, input_locked: bool) -> bool {
    battle.phase == BattlePhase::Player && battle.active_unit.is_some() && !input_locked
}

pub open spec fn is_targeting(mode: InteractionMode) -> bool {
    mode is Move || mode is Attack || mode is AegisTarget
}

/// Keeps the three menu regions and the targeting row mutually exclusive.
pub fn battle_menu_view(battle: &BattleFacts, interaction: &InteractionState, input_locked: bool) -> (v:
    BattleMenuView)
    ensures
        ({
            let active = menu_active(*battle, input_locked);
            let inspect = interaction.mode == InteractionMode::Inspect;
            &&& v.region == (if active && inspect && interaction.menu != MenuState::Hidden {
                Some(interaction.menu)
            } else {
                None
            })
            &&& v.targeting == (active && is_targeting(interaction.mode))
            &&& v.targeting_move_icon == (v.targeting && interaction.mode is Move)
            &&& v.targeting_attack_icon == (v.targeting && (interaction.mode is Attack
                || interaction.mode is AegisTarget))
            &&& v.resolve == (battle.ready_to_resolve && !input_locked)
            &&& v.open_buttons_enabled == (active && inspect && interaction.menu
                == MenuState::Root)
            &&& v.back_buttons_enabled == (active && inspect && (interaction.menu
                == MenuState::Weapons || interaction.menu == MenuState::Stances))
        }),
        v.region.is_some() ==> !v.targeting,
{
    let active = match battle.phase {
        BattlePhase::Player => battle.active_unit.is_some() && !input_locked,
        _ => false,
    };
    let inspect = match interaction.mode {
        InteractionMode::Inspect => true,
        _ => false,
    };
    let region = if active && inspect && interaction.menu != MenuState::Hidden {
        Some(interaction.menu)
    } else {
        None
    };
    let targeting = active && !inspect;
    let move_mode = match interaction.mode {
        InteractionMode::Move => true,
        _ => false,
    };
    BattleMenuView {
        region,
        targeting,
        targeting_move_icon: targeting && move_mode,
        targeting_attack_icon: targeting && !move_mode,
        resolve: battle.ready_to_resolve && !input_locked,
        open_buttons_enabled: active && inspect && interaction.menu == MenuState::Root,
        back_buttons_enabled: active && inspect && (interaction.menu == MenuState::Weapons
            || interaction.menu == MenuState::Stances),
    }
}

} // verus!
