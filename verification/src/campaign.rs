//! Campaign-flow screens: routing between screens, dialogue paging, and the
//! values the briefing, hangar and ending screens show.
use vstd::prelude::*;
use crate::hud::{count_units, is_enemy};
use crate::model::{BattleFacts, Faction, UnitFacts};
use crate::text::{dec, push_decimal};
use crate::theme::{Icon, ThemeColor};

verus! {

/// The game's screens.
#[derive(Clone, Copy, Debug, PartialEq, Eq, Structural)]
pub enum GameScreen {
    Title,
    PreMissionStory,
    Briefing,
    Battle,
    Aftermath,
    Upgrade,
    Ending,
}

#[derive(Clone, Copy, Debug, PartialEq, Eq, Structural)]
pub enum MissionId {
    One,
    Two,
    Three,
    Four,
    Five,
    Six,
    Seven,
}

#[derive(Clone, Copy, Debug, PartialEq, Eq, Structural)]
pub enum PlayerMech {
    Vanguard,
    Gunner,
    Interceptor,
}

#[derive(Clone, Copy, Debug, PartialEq, Eq, Structural)]
pub enum UpgradeTrack {
    Hp,
    Armor,
    Mobility,
    Weapon,
}

/// One mech's purchased level on each track.
#[derive(Clone, Copy, Debug, PartialEq, Eq, Structural)]
pub struct UpgradeLevels {
    pub hp: u8,
    pub armor: u8,
    pub mobility: u8,
    pub weapon: u8,
}

impl UpgradeLevels {
    pub open spec fn spec_level(self, track: UpgradeTrack) -> u8 {
        match track {
            UpgradeTrack::Hp => self.hp,
            UpgradeTrack::Armor => self.armor,
            UpgradeTrack::Mobility => self.mobility,
            UpgradeTrack::Weapon => self.weapon,
        }
    }

    pub fn level(&self, track: UpgradeTrack) -> (l: u8)
        ensures
            l == self.spec_level(track),
    {
        match track {
            UpgradeTrack::Hp => self.hp,
            UpgradeTrack::Armor => self.armor,
            UpgradeTrack::Mobility => self.mobility,
            UpgradeTrack::Weapon => self.weapon,
        }
    }
}

/// The fixed squad's upgrades.
#[derive(Clone, Copy, Debug, PartialEq, Eq, Structural)]
pub struct SquadUpgrades {
    pub vanguard: UpgradeLevels,
    pub gunner: UpgradeLevels,
    pub interceptor: UpgradeLevels,
}

impl SquadUpgrades {
    pub open spec fn spec_levels(self, mech: PlayerMech) -> UpgradeLevels {
        match mech {
            PlayerMech::Vanguard => self.vanguard,
            PlayerMech::Gunner => self.gunner,
            PlayerMech::Interceptor => self.interceptor,
        }
    }

    pub fn levels(&self, mech: PlayerMech) -> (l: UpgradeLevels)
        ensures
            l == self.spec_levels(mech),
    {
        match mech {
            PlayerMech::Vanguard => self.vanguard,
            PlayerMech::Gunner => self.gunner,
            PlayerMech::Interceptor => self.interceptor,
        }
    }
}

/// The persisted campaign.
#[derive(Clone, Copy, Debug, PartialEq, Eq, Structural)]
pub struct CampaignState {
    pub next_mission: MissionId,
    pub credits: u32,
    pub upgrades: SquadUpgrades,
    pub completed: bool,
}

/// Action emitted by campaign-flow buttons.
#[derive(Clone, Copy, Debug, PartialEq, Eq, Structural)]
pub enum CampaignUiAction {
    NewGame,
    Continue,
    AdvanceDialogue,
    SkipDialogue,
    StartMission,
    AdvanceAftermath,
    PurchaseUpgrade(PlayerMech, UpgradeTrack),
    Proceed,
    ReturnToTitle,
}

pub open spec fn spec_campaign_destination(action: CampaignUiAction, state: CampaignState) -> Option<
    GameScreen,
> {
    match action {
        CampaignUiAction::Continue => if state.completed {
            Some(GameScreen::Ending)
        } else if state.next_mission == MissionId::One {
            Some(GameScreen::PreMissionStory)
        } else {
            Some(GameScreen::Upgrade)
        },
        CampaignUiAction::AdvanceAftermath => if state.completed {
            Some(GameScreen::Ending)
        } else {
            Some(GameScreen::Upgrade)
        },
        CampaignUiAction::Proceed => if state.completed {
            Some(GameScreen::Ending)
        } else {
            Some(GameScreen::PreMissionStory)
        },
        _ => None,
    }
}

/// Terminal routing shared by Continue, the final Aftermath advance and
/// Proceed; `None` for actions that do not route by campaign state.
pub fn campaign_destination(action: CampaignUiAction, state: &CampaignState) -> (s: Option<GameScreen>)
    ensures
        s == spec_campaign_destination(action, *state),
{
    match action {
        CampaignUiAction::Continue => if state.completed {
            Some(GameScreen::Ending)
        } else if state.next_mission == MissionId::One {
            Some(GameScreen::PreMissionStory)
        } else {
            Some(GameScreen::Upgrade)
        },
        CampaignUiAction::AdvanceAftermath => if state.completed {
            Some(GameScreen::Ending)
        } else {
            Some(GameScreen::Upgrade)
        },
        CampaignUiAction::Proceed => if state.completed {
            Some(GameScreen::Ending)
        } else {
            Some(GameScreen::PreMissionStory)
        },
        _ => None,
    }
}

/// A completed campaign never routes back into a mission: Continue, the
/// aftermath advance and Proceed all land on the ending.
pub proof fn law_completed_campaign_routes_to_ending(action: CampaignUiAction, state: CampaignState)
    requires
        state.completed,
        action == CampaignUiAction::Continue || action == CampaignUiAction::AdvanceAftermath
            || action == CampaignUiAction::Proceed,
    ensures
        spec_campaign_destination(action, state) == Some(GameScreen::Ending),
{
}

/// Whether a screen change is already queued this frame (`Some`).
pub fn screen_transition_pending(next_state: &Option<GameScreen>) -> (b: bool)
    ensures
        b == next_state.is_some(),
{
    next_state.is_some()
}

/// Shows the next dialogue line, or on the last line stays there and opens
/// `next_screen`.
pub fn advance_dialogue(
    cursor: &mut usize,
    line_count: usize,
    next_screen: GameScreen,
    next_state: &mut Option<GameScreen>,
)
    ensures
        *old(cursor) + 1 < line_count ==> *final(cursor) == *old(cursor) + 1 && *final(next_state) == *old(next_state),
        !(*old(cursor) + 1 < line_count) ==> *final(cursor) == (if line_count > 0 {
            line_count - 1
        } else {
            0
        }) && *final(next_state) == Some(next_screen),
        line_count > 0 ==> *final(cursor) < line_count,
{
    if *cursor < line_count && line_count - *cursor > 1 {
        *cursor = *cursor + 1;
    } else {
        *cursor = if line_count > 0 {
            line_count - 1
        } else {
            0
        };
        *next_state = Some(next_screen);
    }
}

/// The outside call an action needs from the campaign session.
#[derive(Clone, Copy, Debug, PartialEq, Eq, Structural)]
pub enum CampaignCall {
    /// Nothing to call: the action is done.
    Nothing,
    /// Start a fresh campaign and save it.
    StartNewGame,
    /// Load the saved campaign.
    ContinueGame,
    /// Buy one level and save it.
    PurchaseUpgrade(PlayerMech, UpgradeTrack),
}

/// Dispatches a campaign button. `pre_mission_lines` is the line count of
/// the active mission's pre-mission story (0 without one);
/// `aftermath_lines` that of the aftermath scene (`None` without an active
/// mission); `state` the campaign in memory. Nothing happens while a screen
/// change is queued.
pub fn apply_campaign_action(
    action: CampaignUiAction,
    current_screen: GameScreen,
    state: Option<&CampaignState>,
    pre_mission_lines: usize,
    aftermath_lines: Option<usize>,
    cursor: &mut usize,
    status: &mut String,
    next_state: &mut Option<GameScreen>,
) -> (call: CampaignCall)
    ensures
        old(next_state).is_some() ==> call == CampaignCall::Nothing && *final(cursor) == *old(cursor) && final(status)@ == old(status)@ && *final(next_state) == *old(next_state),
        old(next_state).is_none() ==> match action {
            CampaignUiAction::NewGame => call == CampaignCall::StartNewGame && *final(cursor)
                == *old(cursor) && final(status)@ == old(status)@ && final(next_state).is_none(),
            CampaignUiAction::Continue => call == CampaignCall::ContinueGame && *final(cursor)
                == *old(cursor) && final(status)@ == old(status)@ && final(next_state).is_none(),
            CampaignUiAction::PurchaseUpgrade(m, t) => call == CampaignCall::PurchaseUpgrade(m, t)
                && *final(cursor) == *old(cursor) && final(status)@ == old(status)@ && final(next_state).is_none(),
            CampaignUiAction::AdvanceDialogue => call == CampaignCall::Nothing && if current_screen
                != GameScreen::PreMissionStory {
                final(status)@ == "Advance is only available during pre-mission story."@ && *final(cursor) == *old(cursor) && final(next_state).is_none()
            } else {
                final(status)@ == old(status)@ && if *old(cursor) + 1 < pre_mission_lines {
                    *final(cursor) == *old(cursor) + 1 && final(next_state).is_none()
                } else {
                    *final(cursor) == (if pre_mission_lines > 0 {
                        pre_mission_lines - 1
                    } else {
                        0
                    }) && *final(next_state) == Some(GameScreen::Briefing)
                }
            },
            CampaignUiAction::SkipDialogue => call == CampaignCall::Nothing && if current_screen
                != GameScreen::PreMissionStory {
                final(status)@ == "Skip is only available during pre-mission story."@ && *final(cursor) == *old(cursor) && final(next_state).is_none()
            } else {
                final(status)@ == old(status)@ && *final(cursor) == (if pre_mission_lines > 0 {
                    pre_mission_lines - 1
                } else {
                    0
                }) && *final(next_state) == Some(GameScreen::Briefing)
            },
            CampaignUiAction::StartMission => call == CampaignCall::Nothing && *final(cursor)
                == *old(cursor) && final(status)@ == old(status)@ && *final(next_state) == Some(
                GameScreen::Battle,
            ),
            CampaignUiAction::AdvanceAftermath => call == CampaignCall::Nothing && final(status)@
                == old(status)@ && match aftermath_lines {
                None => *final(cursor) == *old(cursor) && final(next_state).is_none(),
                Some(n) => {
                    let dest = match state {
                        Some(s) => spec_campaign_destination(action, *s).unwrap(),
                        None => GameScreen::Upgrade,
                    };
                    if *old(cursor) + 1 < n {
                        *final(cursor) == *old(cursor) + 1 && final(next_state).is_none()
                    } else {
                        *final(cursor) == (if n > 0 {
                            n - 1
                        } else {
                            0
                        }) && *final(next_state) == Some(dest)
                    }
                },
            },
            CampaignUiAction::Proceed => call == CampaignCall::Nothing && *final(cursor) == *old(cursor) && final(status)@ == old(status)@ && *final(next_state) == match state {
                Some(s) => spec_campaign_destination(action, *s),
                None => None,
            },
            CampaignUiAction::ReturnToTitle => call == CampaignCall::Nothing && *final(cursor)
                == *old(cursor) && final(status)@ == old(status)@ && *final(next_state) == Some(
                GameScreen::Title,
            ),
        },
{
    if screen_transition_pending(next_state) {
        return CampaignCall::Nothing;
    }
    match action {
        CampaignUiAction::NewGame => CampaignCall::StartNewGame,
        CampaignUiAction::Continue => CampaignCall::ContinueGame,
        CampaignUiAction::AdvanceDialogue => {
            if current_screen != GameScreen::PreMissionStory {
                *status = String::new();
                status.append("Advance is only available during pre-mission story.");
                return CampaignCall::Nothing;
            }
            advance_dialogue(cursor, pre_mission_lines, GameScreen::Briefing, next_state);
            CampaignCall::Nothing
        },
        CampaignUiAction::SkipDialogue => {
            if current_screen != GameScreen::PreMissionStory {
                *status = String::new();
                status.append("Skip is only available during pre-mission story.");
                return CampaignCall::Nothing;
            }
            *cursor = if pre_mission_lines > 0 {
                pre_mission_lines - 1
            } else {
                0
            };
            *next_state = Some(GameScreen::Briefing);
            CampaignCall::Nothing
        },
        CampaignUiAction::StartMission => {
            *next_state = Some(GameScreen::Battle);
            CampaignCall::Nothing
        },
        CampaignUiAction::AdvanceAftermath => {
            let lines = match aftermath_lines {
                Some(n) => n,
                None => {
                    return CampaignCall::Nothing;
                },
            };
            let destination = match state {
                Some(s) => match campaign_destination(CampaignUiAction::AdvanceAftermath, s) {
                    Some(d) => d,
                    None => GameScreen::Upgrade,
                },
                None => GameScreen::Upgrade,
            };
            advance_dialogue(cursor, lines, destination, next_state);
            CampaignCall::Nothing
        },
        CampaignUiAction::PurchaseUpgrade(mech, track) => CampaignCall::PurchaseUpgrade(mech, track),
        CampaignUiAction::Proceed => {
            match state {
                Some(s) => {
                    *next_state = campaign_destination(CampaignUiAction::Proceed, s);
                },
                None => {},
            }
            CampaignCall::Nothing
        },
        CampaignUiAction::ReturnToTitle => {
            *next_state = Some(GameScreen::Title);
            CampaignCall::Nothing
        },
    }
}

/// What the campaign session answered: success, or its error message.
#[derive(Clone, Debug)]
pub enum CallResult {
    Done,
    Failed(String),
}

/// Finishes an action once the campaign session has answered. `state` is the
/// campaign in memory after the call.
pub fn settle_campaign_call(
    call: CampaignCall,
    result: CallResult,
    state: Option<&CampaignState>,
    status: &mut String,
    next_state: &mut Option<GameScreen>,
)
    ensures
        match result {
            CallResult::Failed(msg) => call != CampaignCall::Nothing ==> final(status)@ == msg@
                && *final(next_state) == *old(next_state),
            CallResult::Done => match call {
                CampaignCall::Nothing => final(status)@ == old(status)@ && *final(next_state)
                    == *old(next_state),
                CampaignCall::StartNewGame => final(status)@ == old(status)@ && *final(next_state)
                    == Some(GameScreen::PreMissionStory),
                CampaignCall::ContinueGame => final(status)@ == old(status)@ && *final(next_state)
                    == match state {
                    Some(s) => spec_campaign_destination(CampaignUiAction::Continue, *s),
                    None => *old(next_state),
                },
                CampaignCall::PurchaseUpgrade(..) => *final(next_state) == *old(next_state)
                    && final(status)@ == "Upgrade purchased — "@ + dec(
                    match state {
                        Some(s) => s.credits as nat,
                        None => 0,
                    },
                ) + " credits remaining."@,
            },
        },
        match (call, result) {
            (CampaignCall::Nothing, CallResult::Failed(_)) => final(status)@ == old(status)@
                && *final(next_state) == *old(next_state),
            _ => true,
        },
{
    match call {
        CampaignCall::Nothing => {},
        CampaignCall::StartNewGame => match result {
            CallResult::Done => {
                *next_state = Some(GameScreen::PreMissionStory);
            },
            CallResult::Failed(msg) => {
                *status = msg;
            },
        },
        CampaignCall::ContinueGame => match result {
            CallResult::Done => match state {
                Some(s) => {
                    *next_state = campaign_destination(CampaignUiAction::Continue, s);
                },
                None => {},
            },
            CallResult::Failed(msg) => {
                *status = msg;
            },
        },
        CampaignCall::PurchaseUpgrade(..) => match result {
            CallResult::Done => {
                let credits: u32 = match state {
                    Some(s) => s.credits,
                    None => 0,
                };
                let mut s = String::new();
                s.append("Upgrade purchased — ");
                push_decimal(&mut s, credits as u64);
                s.append(" credits remaining.");
                *status = s;
            },
            CallResult::Failed(msg) => {
                *status = msg;
            },
        },
    }
}

/// One authored dialogue line.
#[derive(Clone, Copy, Debug, PartialEq, Eq)]
pub struct DialogueLine {
    pub speaker: &'static str,
    pub text: &'static str,
    pub portrait: &'static str,
}

/// The line shown for `cursor`: past the end the last line stays up.
pub fn dialogue_snapshot(lines: &Vec<DialogueLine>, cursor: usize) -> (l: DialogueLine)
    requires
        lines@.len() > 0,
    ensures
        l == lines@[if cursor < lines@.len() {
            cursor as int
        } else {
            lines@.len() - 1
        }],
{
    let last = lines.len() - 1;
    let i = if cursor < last {
        cursor
    } else {
        last
    };
    lines[i]
}

/// Whether the pager dot `pip` marks the current line.
pub fn dialogue_pip_active(pip: usize, cursor: usize) -> (b: bool)
    ensures
        b == (pip == cursor),
{
    pip == cursor
}

/// Which scene a dialogue screen plays.
#[derive(Clone, Copy, Debug, PartialEq, Eq, Structural)]
pub enum DialogueScene {
    PreMission,
    Aftermath,
}

/// The aftermath screen plays the finished mission's aftermath; every other
/// dialogue screen the active mission's pre-mission story.
pub fn dialogue_scene_for(screen: GameScreen) -> (d: DialogueScene)
    ensures
        d == (if screen == GameScreen::Aftermath {
            DialogueScene::Aftermath
        } else {
            DialogueScene::PreMission
        }),
{
    if screen == GameScreen::Aftermath {
        DialogueScene::Aftermath
    } else {
        DialogueScene::PreMission
    }
}

/// Mission facts rendered by the briefing screen.
#[derive(Clone, Copy, Debug, PartialEq, Eq)]
pub struct BriefingSnapshot {
    pub mission: MissionId,
    pub title: &'static str,
    pub enemy_count: usize,
    pub primary: &'static str,
    pub optional: &'static str,
    pub base_reward: u32,
    pub optional_reward: u32,
    pub credits: u32,
}

/// The authored facts of a mission.
#[derive(Clone, Copy, Debug, PartialEq, Eq)]
pub struct MissionFacts {
    pub id: MissionId,
    pub title: &'static str,
    pub primary_objective: &'static str,
    pub optional_objective: &'static str,
    pub base_reward: u32,
    pub optional_reward: u32,
}

/// The briefing of `mission`, counting the enemies of one deterministic
/// build of it (`built`).
pub fn briefing_snapshot(mission: &MissionFacts, built: &BattleFacts, campaign: &CampaignState) -> (b:
    BriefingSnapshot)
    ensures
        b.mission == mission.id,
        b.title == mission.title,
        b.enemy_count == count_units(built.units@, |u: UnitFacts| is_enemy(u)),
        b.primary == mission.primary_objective,
        b.optional == mission.optional_objective,
        b.base_reward == mission.base_reward,
        b.optional_reward == mission.optional_reward,
        b.credits == campaign.credits,
{
    let mut n: usize = 0;
    let mut i: usize = 0;
    while i < built.units.len()
        invariant
            i <= built.units@.len(),
            n == count_units(built.units@.subrange(0, i as int), |u: UnitFacts| is_enemy(u)),
            n <= i,
        decreases built.units@.len() - i,
    {
        proof {
            let sub = built.units@.subrange(0, i + 1);
            assert(sub.drop_last() == built.units@.subrange(0, i as int));
            assert(sub.last() == built.units@[i as int]);
        }
        if built.units[i].faction == Faction::Enemy {
            n = n + 1;
        }
        i = i + 1;
    }
    assert(built.units@.subrange(0, built.units@.len() as int) == built.units@);
    BriefingSnapshot {
        mission: mission.id,
        title: mission.title,
        enemy_count: n,
        primary: mission.primary_objective,
        optional: mission.optional_objective,
        base_reward: mission.base_reward,
        optional_reward: mission.optional_reward,
        credits: campaign.credits,
    }
}

/// Highest level of any upgrade track.
pub const MAX_UPGRADE_LEVEL: u8 = 3;

/// Credits for the next level of a track at `level`, `None` once maxed.
pub open spec fn spec_upgrade_cost(level: u8) -> Option<u32> {
    if level == 0 {
        Some(200)
    } else if level == 1 {
        Some(400)
    } else if level == 2 {
        Some(600)
    } else {
        None
    }
}

pub fn upgrade_cost(level: u8) -> (c: Option<u32>)
    ensures
        c == spec_upgrade_cost(level),
{
    if level == 0 {
        Some(200)
    } else if level == 1 {
        Some(400)
    } else if level == 2 {
        Some(600)
    } else {
        None
    }
}

pub open spec fn spec_track_label(track: UpgradeTrack) -> Seq<char> {
    match track {
        UpgradeTrack::Hp => "HP"@,
        UpgradeTrack::Armor => "ARMOR"@,
        UpgradeTrack::Mobility => "MOBILITY"@,
        UpgradeTrack::Weapon => "WEAPON"@,
    }
}

pub fn track_label(track: UpgradeTrack) -> (s: &'static str)
    ensures
        s@ == spec_track_label(track),
{
    match track {
        UpgradeTrack::Hp => "HP",
        UpgradeTrack::Armor => "ARMOR",
        UpgradeTrack::Mobility => "MOBILITY",
        UpgradeTrack::Weapon => "WEAPON",
    }
}

pub open spec fn spec_track_effect(track: UpgradeTrack, level: u8) -> Seq<char> {
    match track {
        UpgradeTrack::Hp => "+"@ + dec((3 * level) as nat) + " MAX HP"@,
        UpgradeTrack::Armor => "+"@ + dec(level as nat) + " ARMOR"@,
        UpgradeTrack::Mobility => "+"@ + dec((5 * level) as nat) + " EVASION"@,
        UpgradeTrack::Weapon => "+"@ + dec(level as nat) + " WEAPON DMG"@,
    }
}

/// The cumulative effect of `level` levels of a track: +3 max HP, +1
/// armor, +5 evasion or +1 weapon damage per level.
pub fn track_effect(track: UpgradeTrack, level: u8) -> (s: String)
    ensures
        s@ == spec_track_effect(track, level),
{
    let mut s = String::new();
    s.append("+");
    match track {
        UpgradeTrack::Hp => {
            push_decimal(&mut s, 3 * level as u64);
            s.append(" MAX HP");
        },
        UpgradeTrack::Armor => {
            push_decimal(&mut s, level as u64);
            s.append(" ARMOR");
        },
        UpgradeTrack::Mobility => {
            push_decimal(&mut s, 5 * level as u64);
            s.append(" EVASION");
        },
        UpgradeTrack::Weapon => {
            push_decimal(&mut s, level as u64);
            s.append(" WEAPON DMG");
        },
    }
    s
}

/// Upgrade facts rendered by one hangar row.
#[derive(Clone, Debug, PartialEq, Eq)]
pub struct UpgradeRowSnapshot {
    pub mech: PlayerMech,
    pub track: UpgradeTrack,
    pub level: u8,
    pub current_effect: String,
    pub next_effect: String,
    pub cost: Option<u32>,
    pub maxed: bool,
    pub affordable: bool,
}

pub fn upgrade_row_snapshot(state: &CampaignState, mech: PlayerMech, track: UpgradeTrack) -> (r:
    UpgradeRowSnapshot)
    ensures
        r.mech == mech,
        r.track == track,
        r.level == state.upgrades.spec_levels(mech).spec_level(track),
        r.maxed == (r.level >= MAX_UPGRADE_LEVEL),
        r.cost == (if r.maxed {
            None
        } else {
            spec_upgrade_cost(r.level)
        }),
        r.current_effect@ == spec_track_effect(track, r.level),
        r.next_effect@ == (if r.maxed {
            "MAX"@
        } else {
            spec_track_effect(track, (r.level + 1) as u8)
        }),
        r.affordable == (r.cost.is_some() && state.credits >= r.cost.unwrap()),
{
    let level = state.upgrades.levels(mech).level(track);
    let maxed = level >= MAX_UPGRADE_LEVEL;
    let cost = if maxed {
        None
    } else {
        upgrade_cost(level)
    };
    let next_effect = if maxed {
        let mut s = String::new();
        s.append("MAX");
        s
    } else {
        track_effect(track, level + 1)
    };
    let affordable = match cost {
        Some(c) => state.credits >= c,
        None => false,
    };
    UpgradeRowSnapshot {
        mech,
        track,
        level,
        current_effect: track_effect(track, level),
        next_effect,
        cost,
        maxed,
        affordable,
    }
}

pub open spec fn spec_upgrade_row_text(r: UpgradeRowSnapshot) -> Seq<char> {
    spec_track_label(r.track) + "   LV "@ + dec(r.level as nat) + "   "@ + r.current_effect@
        + "  ->  "@ + r.next_effect@ + "   "@ + match r.cost {
        Some(c) => dec(c as nat) + " CR"@,
        None => "MAX"@,
    }
}

/// One hangar row: track, level, current and next effect, and the cost.
pub fn format_upgrade_row(r: &UpgradeRowSnapshot) -> (s: String)
    ensures
        s@ == spec_upgrade_row_text(*r),
{
    let mut s = String::new();
    s.append(track_label(r.track));
    s.append("   LV ");
    push_decimal(&mut s, r.level as u64);
    s.append("   ");
    s.append(r.current_effect.as_str());
    s.append("  ->  ");
    s.append(r.next_effect.as_str());
    s.append("   ");
    match r.cost {
        Some(c) => {
            push_decimal(&mut s, c as u64);
            s.append(" CR");
        },
        None => s.append("MAX"),
    }
    s
}

/// The hangar's credit counter.
pub fn credits_text(credits: u32) -> (s: String)
    ensures
        s@ == "CREDITS "@ + dec(credits as nat),
{
    let mut s = String::new();
    s.append("CREDITS ");
    push_decimal(&mut s, credits as u64);
    s
}

/// Whether level pip `index` of a track is filled.
pub fn upgrade_pip_lit(index: u8, level: u8) -> (b: bool)
    ensures
        b == (index < level),
{
    index < level
}

/// Persisted values rendered by the ending screen.
#[derive(Clone, Copy, Debug, PartialEq, Eq, Structural)]
pub struct EndingSnapshot {
    pub credits: u32,
    pub vanguard: UpgradeLevels,
    pub gunner: UpgradeLevels,
    pub interceptor: UpgradeLevels,
}

pub fn ending_snapshot(state: &CampaignState) -> (e: EndingSnapshot)
    ensures
        e.credits == state.credits,
        e.vanguard == state.upgrades.vanguard,
        e.gunner == state.upgrades.gunner,
        e.interceptor == state.upgrades.interceptor,
{
    EndingSnapshot {
        credits: state.credits,
        vanguard: state.upgrades.vanguard,
        gunner: state.upgrades.gunner,
        interceptor: state.upgrades.interceptor,
    }
}

/// The hangar icon of an upgrade track.
pub fn track_icon(track: UpgradeTrack) -> (i: Icon)
    ensures
        i == match track {
            UpgradeTrack::Hp => Icon::Guard,
            UpgradeTrack::Armor => Icon::Counter,
            UpgradeTrack::Mobility => Icon::Move,
            UpgradeTrack::Weapon => Icon::Attack,
        },
{
    match track {
        UpgradeTrack::Hp => Icon::Guard,
        UpgradeTrack::Armor => Icon::Counter,
        UpgradeTrack::Mobility => Icon::Move,
        UpgradeTrack::Weapon => Icon::Attack,
    }
}

/// Whether the title's CONTINUE is enabled, from loading the save: a save
/// enables it; no save or an unreadable one disables it, the latter with its
/// error message in the status line (cleared otherwise).
pub fn title_continue_enabled(load: Result<bool, String>, status: &mut String) -> (enabled: bool)
    ensures
        match load {
            Ok(exists) => enabled == exists && final(status)@.len() == 0,
            Err(message) => !enabled && final(status)@ == message@,
        },
{
    match load {
        Ok(exists) => {
            *status = String::new();
            exists
        },
        Err(message) => {
            *status = message;
            false
        },
    }
}

/// What a mission victory paid, as the campaign recorded it.
#[derive(Clone, Copy, Debug, PartialEq, Eq, Structural)]
pub struct CompletionReceipt {
    pub mission: MissionId,
    pub base_reward: u32,
    pub optional_reward: u32,
    pub total_reward: u32,
    pub credits_after: u32,
}

/// The aftermath's salvage rows below the mission row: base, bonus, total
/// and credits, each label with its value and tint, read verbatim from the
/// receipt.
pub fn receipt_rows(r: &CompletionReceipt) -> (rows: Vec<(&'static str, String, ThemeColor)>)
    ensures
        rows@.len() == 4,
        rows@[0].0@ == "BASE"@ && rows@[0].1@ == dec(r.base_reward as nat) && rows@[0].2
            == ThemeColor::Text,
        rows@[1].0@ == "BONUS"@ && rows@[1].1@ == "+"@ + dec(r.optional_reward as nat)
            && rows@[1].2 == ThemeColor::Gold,
        rows@[2].0@ == "TOTAL"@ && rows@[2].1@ == dec(r.total_reward as nat) && rows@[2].2
            == ThemeColor::Accent,
        rows@[3].0@ == "CREDITS"@ && rows@[3].1@ == dec(r.credits_after as nat) && rows@[3].2
            == ThemeColor::Gold,
{
    let mut rows: Vec<(&'static str, String, ThemeColor)> = Vec::new();
    rows.push(("BASE", crate::text::decimal(r.base_reward as u64), ThemeColor::Text));
    let mut bonus = String::new();
    bonus.append("+");
    push_decimal(&mut bonus, r.optional_reward as u64);
    rows.push(("BONUS", bonus, ThemeColor::Gold));
    rows.push(("TOTAL", crate::text::decimal(r.total_reward as u64), ThemeColor::Accent));
    rows.push(("CREDITS", crate::text::decimal(r.credits_after as u64), ThemeColor::Gold));
    rows
}

/// Continue resumes an unfinished campaign by its next mission: the
/// pre-mission story for Mission 1 and only for it, the upgrade screen for
/// every later mission.
pub proof fn law_continue_resumes_by_mission(state: CampaignState)
    requires
        !state.completed,
    ensures
        (spec_campaign_destination(CampaignUiAction::Continue, state) == Some(
            GameScreen::PreMissionStory,
        )) <==> state.next_mission == MissionId::One,
        state.next_mission != MissionId::One ==> spec_campaign_destination(
            CampaignUiAction::Continue,
            state,
        ) == Some(GameScreen::Upgrade),
        spec_campaign_destination(CampaignUiAction::Continue, state).is_some(),
{
}

/// An unfinished campaign's aftermath leads to the hangar and Proceed to the
/// next mission's story; neither ever opens the ending.
pub proof fn law_unfinished_campaign_moves_on(state: CampaignState)
    requires
        !state.completed,
    ensures
        spec_campaign_destination(CampaignUiAction::AdvanceAftermath, state) == Some(
            GameScreen::Upgrade,
        ),
        spec_campaign_destination(CampaignUiAction::Proceed, state) == Some(
            GameScreen::PreMissionStory,
        ),
{
}

} // verus!
