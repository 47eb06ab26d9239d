use scorpius::campaign::{receipt_rows, title_continue_enabled, CompletionReceipt};
use scorpius::theme::ThemeColor;
use scorpius::campaign::track_icon;
use scorpius::theme::Icon;
use scorpius::campaign::{
    advance_dialogue, apply_campaign_action, campaign_destination, credits_text,
    dialogue_pip_active, dialogue_scene_for, dialogue_snapshot, ending_snapshot,
    format_upgrade_row, screen_transition_pending, settle_campaign_call, track_effect,
    track_label, upgrade_cost, upgrade_pip_lit, upgrade_row_snapshot, CallResult, CampaignCall,
    CampaignState, CampaignUiAction, DialogueLine, DialogueScene, GameScreen, MissionId,
    PlayerMech, SquadUpgrades, UpgradeLevels, UpgradeTrack, MAX_UPGRADE_LEVEL,
};

fn levels(hp: u8, armor: u8, mobility: u8, weapon: u8) -> UpgradeLevels {
    UpgradeLevels { hp, armor, mobility, weapon }
}

fn state(completed: bool, next_mission: MissionId) -> CampaignState {
    CampaignState {
        next_mission,
        credits: 0,
        upgrades: SquadUpgrades {
            vanguard: levels(0, 0, 0, 0),
            gunner: levels(0, 0, 0, 0),
            interceptor: levels(0, 0, 0, 0),
        },
        completed,
    }
}

#[test]
fn campaign_destination_pins_the_terminal_routing_truth_table() {
    let completed = state(true, MissionId::Seven);
    let unfinished_seven = state(false, MissionId::Seven);
    let unfinished_one = state(false, MissionId::One);

    assert_eq!(
        campaign_destination(CampaignUiAction::Continue, &completed),
        Some(GameScreen::Ending)
    );
    assert_eq!(
        campaign_destination(CampaignUiAction::Continue, &unfinished_one),
        Some(GameScreen::PreMissionStory)
    );
    assert_eq!(
        campaign_destination(CampaignUiAction::Continue, &unfinished_seven),
        Some(GameScreen::Upgrade)
    );
    assert_eq!(
        campaign_destination(CampaignUiAction::AdvanceAftermath, &completed),
        Some(GameScreen::Ending)
    );
    assert_eq!(
        campaign_destination(CampaignUiAction::AdvanceAftermath, &unfinished_seven),
        Some(GameScreen::Upgrade)
    );
    assert_eq!(
        campaign_destination(CampaignUiAction::Proceed, &completed),
        Some(GameScreen::Ending)
    );
    assert_eq!(
        campaign_destination(CampaignUiAction::Proceed, &unfinished_seven),
        Some(GameScreen::PreMissionStory)
    );
    assert_eq!(campaign_destination(CampaignUiAction::NewGame, &completed), None);
}

#[test]
fn upgrade_costs_are_200_400_600() {
    assert_eq!(upgrade_cost(0), Some(200));
    assert_eq!(upgrade_cost(1), Some(400));
    assert_eq!(upgrade_cost(2), Some(600));
    assert_eq!(upgrade_cost(MAX_UPGRADE_LEVEL), None);
    assert_eq!(upgrade_cost(9), None);
}

fn row_text(state: &CampaignState, mech: PlayerMech, track: UpgradeTrack) -> String {
    format_upgrade_row(&upgrade_row_snapshot(state, mech, track))
}

#[test]
fn upgrade_row_copy_lists_level_effects_cost_and_max() {
    let state = CampaignState {
        next_mission: MissionId::Two,
        credits: 300,
        upgrades: SquadUpgrades {
            vanguard: levels(1, 0, 0, 0),
            gunner: levels(0, 0, 0, 0),
            interceptor: levels(3, 3, 3, 3),
        },
        completed: false,
    };

    let row = row_text(&state, PlayerMech::Vanguard, UpgradeTrack::Hp);
    assert!(row.contains("LV 1"), "{row}");
    assert!(row.contains("+3 MAX HP"), "{row}");
    assert!(row.contains("+6 MAX HP"), "{row}");
    assert!(row.contains("400 CR"), "{row}");

    let row = row_text(&state, PlayerMech::Gunner, UpgradeTrack::Mobility);
    assert!(row.contains("LV 0"), "{row}");
    assert!(row.contains("+0 EVASION"), "{row}");
    assert!(row.contains("+5 EVASION"), "{row}");
    assert!(row.contains("200 CR"), "{row}");

    let row = row_text(&state, PlayerMech::Interceptor, UpgradeTrack::Weapon);
    assert!(row.contains("LV 3"), "{row}");
    assert!(row.contains("+3 WEAPON DMG"), "{row}");
    assert!(row.contains("MAX"), "{row}");
    assert!(!row.contains("CR"), "{row}");
}

#[test]
fn upgrade_row_snapshot_pins_every_field() {
    let mut s = state(false, MissionId::Three);
    s.credits = 399;
    s.upgrades.gunner = levels(0, 1, 0, 0);
    let row = upgrade_row_snapshot(&s, PlayerMech::Gunner, UpgradeTrack::Armor);
    assert_eq!(row.level, 1);
    assert_eq!(row.cost, Some(400));
    assert!(!row.maxed);
    assert!(!row.affordable);
    assert_eq!(row.current_effect, "+1 ARMOR");
    assert_eq!(row.next_effect, "+2 ARMOR");
    assert_eq!(
        format_upgrade_row(&row),
        "ARMOR   LV 1   +1 ARMOR  ->  +2 ARMOR   400 CR"
    );
    s.credits = 400;
    assert!(upgrade_row_snapshot(&s, PlayerMech::Gunner, UpgradeTrack::Armor).affordable);
    s.upgrades.gunner.armor = 3;
    let maxed = upgrade_row_snapshot(&s, PlayerMech::Gunner, UpgradeTrack::Armor);
    assert!(maxed.maxed && !maxed.affordable);
    assert_eq!(maxed.cost, None);
    assert_eq!(maxed.next_effect, "MAX");
}

#[test]
fn track_copy_is_pinned() {
    assert_eq!(track_label(UpgradeTrack::Hp), "HP");
    assert_eq!(track_label(UpgradeTrack::Mobility), "MOBILITY");
    assert_eq!(track_effect(UpgradeTrack::Hp, 2), "+6 MAX HP");
    assert_eq!(track_effect(UpgradeTrack::Mobility, 3), "+15 EVASION");
    assert_eq!(track_effect(UpgradeTrack::Weapon, 1), "+1 WEAPON DMG");
    assert_eq!(credits_text(1250), "CREDITS 1250");
    assert_eq!(credits_text(0), "CREDITS 0");
    assert!(upgrade_pip_lit(0, 1));
    assert!(!upgrade_pip_lit(1, 1));
}

fn line(text: &'static str) -> DialogueLine {
    DialogueLine { speaker: "KADE", text, portrait: "ui/vanguard.png" }
}

#[test]
fn dialogue_pages_stop_on_the_last_line_and_open_the_next_screen() {
    let mut cursor = 0usize;
    let mut next = None;
    advance_dialogue(&mut cursor, 3, GameScreen::Briefing, &mut next);
    assert_eq!((cursor, next), (1, None));
    advance_dialogue(&mut cursor, 3, GameScreen::Briefing, &mut next);
    assert_eq!((cursor, next), (2, None));
    advance_dialogue(&mut cursor, 3, GameScreen::Briefing, &mut next);
    assert_eq!((cursor, next), (2, Some(GameScreen::Briefing)));

    let lines = vec![line("one"), line("two")];
    assert_eq!(dialogue_snapshot(&lines, 0).text, "one");
    assert_eq!(dialogue_snapshot(&lines, 1).text, "two");
    assert_eq!(dialogue_snapshot(&lines, 7).text, "two");
    assert!(dialogue_pip_active(1, 1));
    assert!(!dialogue_pip_active(0, 1));
    assert_eq!(dialogue_scene_for(GameScreen::Aftermath), DialogueScene::Aftermath);
    assert_eq!(dialogue_scene_for(GameScreen::PreMissionStory), DialogueScene::PreMission);
}

#[test]
fn advancing_dialogue_walks_all_lines_then_opens_briefing() {
    let mut cursor = 0usize;
    let mut status = String::new();
    let mut next = None;
    for expected in 1..4usize {
        let call = apply_campaign_action(
            CampaignUiAction::AdvanceDialogue,
            GameScreen::PreMissionStory,
            None,
            4,
            None,
            &mut cursor,
            &mut status,
            &mut next,
        );
        assert_eq!(call, CampaignCall::Nothing);
        assert_eq!(cursor, expected);
        assert_eq!(next, None);
    }
    apply_campaign_action(
        CampaignUiAction::AdvanceDialogue,
        GameScreen::PreMissionStory,
        None,
        4,
        None,
        &mut cursor,
        &mut status,
        &mut next,
    );
    assert_eq!(cursor, 3);
    assert_eq!(next, Some(GameScreen::Briefing));
    assert!(screen_transition_pending(&next));
    // A queued change swallows further input.
    let call = apply_campaign_action(
        CampaignUiAction::ReturnToTitle,
        GameScreen::PreMissionStory,
        None,
        4,
        None,
        &mut cursor,
        &mut status,
        &mut next,
    );
    assert_eq!(call, CampaignCall::Nothing);
    assert_eq!(next, Some(GameScreen::Briefing));
}

#[test]
fn dialogue_controls_off_the_story_screen_report_a_status() {
    let mut cursor = 0usize;
    let mut status = String::new();
    let mut next = None;
    apply_campaign_action(
        CampaignUiAction::AdvanceDialogue,
        GameScreen::Briefing,
        None,
        4,
        None,
        &mut cursor,
        &mut status,
        &mut next,
    );
    assert_eq!(status, "Advance is only available during pre-mission story.");
    apply_campaign_action(
        CampaignUiAction::SkipDialogue,
        GameScreen::Title,
        None,
        4,
        None,
        &mut cursor,
        &mut status,
        &mut next,
    );
    assert_eq!(status, "Skip is only available during pre-mission story.");
    assert_eq!((cursor, next), (0, None));
    apply_campaign_action(
        CampaignUiAction::SkipDialogue,
        GameScreen::PreMissionStory,
        None,
        4,
        None,
        &mut cursor,
        &mut status,
        &mut next,
    );
    assert_eq!((cursor, next), (3, Some(GameScreen::Briefing)));
}

#[test]
fn advancing_aftermath_walks_lines_then_opens_upgrade() {
    let unfinished = state(false, MissionId::Three);
    let mut cursor = 0usize;
    let mut status = String::new();
    let mut next = None;
    apply_campaign_action(
        CampaignUiAction::AdvanceAftermath,
        GameScreen::Aftermath,
        Some(&unfinished),
        0,
        Some(2),
        &mut cursor,
        &mut status,
        &mut next,
    );
    assert_eq!((cursor, next), (1, None));
    apply_campaign_action(
        CampaignUiAction::AdvanceAftermath,
        GameScreen::Aftermath,
        Some(&unfinished),
        0,
        Some(2),
        &mut cursor,
        &mut status,
        &mut next,
    );
    assert_eq!((cursor, next), (1, Some(GameScreen::Upgrade)));

    let done = state(true, MissionId::Seven);
    let mut cursor = 0usize;
    let mut next = None;
    apply_campaign_action(
        CampaignUiAction::AdvanceAftermath,
        GameScreen::Aftermath,
        Some(&done),
        0,
        Some(1),
        &mut cursor,
        &mut status,
        &mut next,
    );
    assert_eq!(next, Some(GameScreen::Ending));
}

#[test]
fn session_calls_are_handed_out_and_settled() {
    let mut cursor = 0usize;
    let mut status = String::new();
    let mut next = None;
    let call = apply_campaign_action(
        CampaignUiAction::NewGame,
        GameScreen::Title,
        None,
        0,
        None,
        &mut cursor,
        &mut status,
        &mut next,
    );
    assert_eq!(call, CampaignCall::StartNewGame);
    settle_campaign_call(call, CallResult::Done, None, &mut status, &mut next);
    assert_eq!(next, Some(GameScreen::PreMissionStory));

    let mut next = None;
    settle_campaign_call(
        CampaignCall::ContinueGame,
        CallResult::Failed("No active campaign.".to_string()),
        None,
        &mut status,
        &mut next,
    );
    assert_eq!(status, "No active campaign.");
    assert_eq!(next, None);

    let saved = state(false, MissionId::Four);
    settle_campaign_call(
        CampaignCall::ContinueGame,
        CallResult::Done,
        Some(&saved),
        &mut status,
        &mut next,
    );
    assert_eq!(next, Some(GameScreen::Upgrade));

    let mut bought = state(false, MissionId::Four);
    bought.credits = 600;
    let mut next = None;
    settle_campaign_call(
        CampaignCall::PurchaseUpgrade(PlayerMech::Gunner, UpgradeTrack::Hp),
        CallResult::Done,
        Some(&bought),
        &mut status,
        &mut next,
    );
    assert_eq!(status, "Upgrade purchased — 600 credits remaining.");
    assert_eq!(next, None);
}

#[test]
fn proceed_and_return_route_by_campaign_state() {
    let mut cursor = 2usize;
    let mut status = String::new();
    let mut next = None;
    let done = state(true, MissionId::Seven);
    apply_campaign_action(
        CampaignUiAction::Proceed,
        GameScreen::Upgrade,
        Some(&done),
        0,
        None,
        &mut cursor,
        &mut status,
        &mut next,
    );
    assert_eq!(next, Some(GameScreen::Ending));
    let mut next = None;
    apply_campaign_action(
        CampaignUiAction::ReturnToTitle,
        GameScreen::Ending,
        Some(&done),
        0,
        None,
        &mut cursor,
        &mut status,
        &mut next,
    );
    assert_eq!(next, Some(GameScreen::Title));
    assert_eq!(cursor, 2);
}

#[test]
fn ending_copy_lists_credits_and_all_upgrade_levels() {
    let mut s = state(true, MissionId::Seven);
    s.credits = 3300;
    s.upgrades.vanguard = levels(1, 2, 3, 0);
    s.upgrades.interceptor = levels(3, 3, 3, 3);
    let ending = ending_snapshot(&s);
    assert_eq!(ending.credits, 3300);
    assert_eq!(ending.vanguard, levels(1, 2, 3, 0));
    assert_eq!(ending.gunner, levels(0, 0, 0, 0));
    assert_eq!(ending.interceptor.weapon, 3);
    assert_eq!(s.upgrades.levels(PlayerMech::Vanguard).level(UpgradeTrack::Mobility), 3);
}

#[test]
fn hangar_track_icons_are_pinned() {
    assert_eq!(track_icon(UpgradeTrack::Hp), Icon::Guard);
    assert_eq!(track_icon(UpgradeTrack::Armor), Icon::Counter);
    assert_eq!(track_icon(UpgradeTrack::Mobility), Icon::Move);
    assert_eq!(track_icon(UpgradeTrack::Weapon), Icon::Attack);
}

#[test]
fn title_continue_is_enabled_only_by_a_readable_save() {
    let mut status = "old".to_string();
    assert!(title_continue_enabled(Ok(true), &mut status));
    assert!(status.is_empty());
    assert!(!title_continue_enabled(Ok(false), &mut status));
    assert!(!title_continue_enabled(Err("save file error: bad json".to_string()), &mut status));
    assert_eq!(status, "save file error: bad json");
}

#[test]
fn aftermath_salvage_rows_read_the_receipt_verbatim() {
    let receipt = CompletionReceipt {
        mission: MissionId::One,
        base_reward: 300,
        optional_reward: 100,
        total_reward: 400,
        credits_after: 400,
    };
    assert_eq!(
        receipt_rows(&receipt),
        vec![
            ("BASE", "300".to_string(), ThemeColor::Text),
            ("BONUS", "+100".to_string(), ThemeColor::Gold),
            ("TOTAL", "400".to_string(), ThemeColor::Accent),
            ("CREDITS", "400".to_string(), ThemeColor::Gold),
        ]
    );
    let missed = CompletionReceipt { optional_reward: 0, total_reward: 300, credits_after: 300, ..receipt };
    assert_eq!(receipt_rows(&missed)[1].1, "+0");
}
