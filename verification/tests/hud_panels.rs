use scorpius::hud::{inspector_panel_view, weapon_range_meter, weapon_tag, InspectorTone, RangeMeter, WeaponTag};
use scorpius::theme::{Icon, ThemeColor};
use scorpius::hud::{command_button_view, result_overlay_visible, ButtonTone};
use scorpius::interaction::{CommandAction, InteractionMode};
use scorpius::hud::{
    ascii_separators, format_event, format_signed, format_track, header_text, inspector_text,
    log_line, objective_text, optional_progress_snapshot, phase_label, pilot_status, pip_lit,
    preview_text, primary_pip_count, result_overlay_copy, result_overlay_lines,
    result_primary_progress, selected_threats, status_line, threat_text, unit_name, weapon_text,
    HeaderValue, HudSnapshot, InspectorSnapshot, InspectorTextKind, MissionCopy,
    ObjectiveTrackSnapshot, OptionalProgressSnapshot, PreviewValueKind, ThreatTextKind,
    WeaponTextKind,
};
use scorpius::model::{
    AttackPreview, BattleEvent, BattleFacts, BattlePhase, Faction, GridPos, IntentFacts,
    IntentPreview, MissionResult, OptionalObjective, PilotSkills, PrimaryObjective, Reaction,
    UnitArchetype, UnitFacts, UnitId, WeaponFacts, WeaponId, WeaponShape,
};
use scorpius::text::{decimal, signed_decimal};

const VANGUARD: UnitId = UnitId(1);
const GUNNER: UnitId = UnitId(2);
const INTERCEPTOR: UnitId = UnitId(3);
const RIFLEMAN_LEFT: UnitId = UnitId(10);
const RIFLEMAN_RIGHT: UnitId = UnitId(11);
const STRIKER: UnitId = UnitId(12);
const ARTILLERY: UnitId = UnitId(13);

fn unit(
    id: UnitId,
    name: &'static str,
    faction: Faction,
    archetype: UnitArchetype,
    position: GridPos,
    weapons: Vec<WeaponId>,
) -> UnitFacts {
    UnitFacts {
        id,
        name,
        faction,
        archetype,
        position,
        hp: 12,
        max_hp: 12,
        en: 3,
        max_en: 3,
        armor: 1,
        movement: 3,
        evasion: 10,
        moved: false,
        acted: false,
        finished: false,
        reaction: None,
        knocked_out: false,
        weapons,
    }
}

fn weapon(id: WeaponId, name: &'static str, en_cost: i16) -> WeaponFacts {
    WeaponFacts {
        id,
        name,
        shape: WeaponShape::Single,
        min_range: 1,
        max_range: 1,
        base_damage: 5,
        hit_modifier: 0,
        crit_chance: 10,
        en_cost,
        push: false,
        counter_weapon: false,
    }
}

fn mission_one() -> BattleFacts {
    BattleFacts {
        phase: BattlePhase::Player,
        active_unit: None,
        round: 1,
        result: None,
        primary: PrimaryObjective::EliminateAllEnemies,
        optional: OptionalObjective::Turnabout,
        optional_complete: false,
        ready_to_resolve: false,
        pilot: PilotSkills {
            aegis_used: false,
            aegis_target: None,
            focus_used: false,
            focus_pending: false,
            overdrive_used: false,
            overdrive_active: false,
        },
        units: vec![
            unit(VANGUARD, "Vanguard", Faction::Player, UnitArchetype::Vanguard, GridPos::new(4, 7), vec![WeaponId(1), WeaponId(4)]),
            unit(GUNNER, "Gunner", Faction::Player, UnitArchetype::Gunner, GridPos::new(3, 7), vec![WeaponId(2)]),
            unit(INTERCEPTOR, "Interceptor", Faction::Player, UnitArchetype::Interceptor, GridPos::new(5, 7), vec![WeaponId(3)]),
            unit(RIFLEMAN_LEFT, "Rifleman L", Faction::Enemy, UnitArchetype::Rifleman, GridPos::new(2, 2), vec![WeaponId(20)]),
            unit(RIFLEMAN_RIGHT, "Rifleman R", Faction::Enemy, UnitArchetype::Rifleman, GridPos::new(6, 2), vec![WeaponId(20)]),
            unit(STRIKER, "Striker", Faction::Enemy, UnitArchetype::Striker, GridPos::new(4, 4), vec![WeaponId(21)]),
            unit(ARTILLERY, "Artillery", Faction::Enemy, UnitArchetype::Artillery, GridPos::new(4, 1), vec![WeaponId(22)]),
        ],
        weapons: vec![
            weapon(WeaponId(1), "Pile Lance", 1),
            weapon(WeaponId(2), "Rail Cannon", 1),
            weapon(WeaponId(3), "Twin Blades", 1),
            weapon(WeaponId(4), "Shield Bash", 4),
            weapon(WeaponId(20), "Carbine", 0),
            weapon(WeaponId(21), "Claw", 0),
            weapon(WeaponId(22), "Mortar", 0),
        ],
        intents: vec![],
    }
}

fn copy() -> MissionCopy {
    MissionCopy {
        primary_objective: "Eliminate all hostile units",
        optional_objective: "Turnabout",
    }
}

fn knock_out(battle: &mut BattleFacts, id: UnitId) {
    let u = battle.units.iter_mut().find(|u| u.id == id).unwrap();
    u.hp = 0;
    u.knocked_out = true;
}

#[test]
fn elimination_objective_keeps_the_remaining_enemy_count() {
    let battle = mission_one();
    let hud = HudSnapshot::from_battle(&battle, None, &copy());
    assert!(hud.primary.contains("remaining"), "primary: {}", hud.primary);
    assert_eq!(hud.primary, "Eliminate all hostile units · 4 remaining");
    assert_eq!(
        hud.objective_track,
        Some(ObjectiveTrackSnapshot::EliminateAll { remaining: 4, total: 4 })
    );
    assert_eq!(hud.round_phase, "Round 1 · Player Phase");
    assert_eq!(hud.optional, "Turnabout · Not yet");
}

#[test]
fn header_enemy_count_tracks_living_enemies_but_objective_total_stays_authored() {
    let mut battle = mission_one();
    for id in [RIFLEMAN_LEFT, RIFLEMAN_RIGHT, STRIKER] {
        knock_out(&mut battle, id);
    }
    let hud = HudSnapshot::from_battle(&battle, None, &copy());
    assert_eq!(hud.enemy_count, 1);
    assert_eq!(hud.ally_count, 3);
    assert_eq!(hud.awaiting_count, 3);
    assert_eq!(
        hud.objective_track,
        Some(ObjectiveTrackSnapshot::EliminateAll { remaining: 1, total: 4 })
    );
    assert_eq!(header_text(HeaderValue::Enemies, battle.round, &hud, None), "1");
    assert_eq!(header_text(HeaderValue::Round, 3, &hud, None), "03");
    assert_eq!(header_text(HeaderValue::Credits, 3, &hud, None), "—");
    assert_eq!(header_text(HeaderValue::Credits, 3, &hud, Some(800)), "800");
    assert_eq!(result_primary_progress(hud.objective_track.as_ref()), "3/4");
}

#[test]
fn target_objective_tracks_target_without_enemy_count_and_formats_as_target() {
    let mut battle = mission_one();
    battle.primary = PrimaryObjective::EliminateTarget { target: STRIKER };
    let definition = MissionCopy { primary_objective: "Destroy the Striker.", ..copy() };
    let hud = HudSnapshot::from_battle(&battle, None, &definition);
    assert_eq!(
        hud.objective_track,
        Some(ObjectiveTrackSnapshot::Target {
            name: "Striker",
            hp: 12,
            max_hp: 12,
            position: GridPos::new(4, 4),
        })
    );
    assert_eq!(hud.primary, "Destroy the Striker.");
    assert_eq!(
        format_track(hud.objective_track.as_ref().unwrap()),
        "TARGET Striker HP 12/12"
    );
}

#[test]
fn mission_two_and_three_primaries_lose_the_remaining_enemy_count() {
    let mut m2 = mission_one();
    m2.primary = PrimaryObjective::ProtectThroughRound { target: GUNNER, round: 3 };
    let hud = HudSnapshot::from_battle(&m2, None, &MissionCopy {
        primary_objective: "Keep the Gunner operational through round 3.",
        optional_objective: "Keep the Gunner above half HP.",
    });
    assert!(!hud.primary.contains("remaining"), "m2: {}", hud.primary);
    assert_eq!(hud.round_phase, "Round 1/3 · Player Phase");

    let mut m3 = mission_one();
    m3.primary = PrimaryObjective::InterceptBeforeEscape {
        target: STRIKER,
        escape: GridPos::new(8, 0),
        deadline_round: 4,
    };
    let hud = HudSnapshot::from_battle(&m3, None, &copy());
    assert!(!hud.primary.contains("remaining"), "m3: {}", hud.primary);
    assert_eq!(
        hud.objective_track,
        Some(ObjectiveTrackSnapshot::Intercept {
            name: "Striker",
            distance: 8,
            deadline_round: 4,
            position: GridPos::new(4, 4),
            escape: GridPos::new(8, 0),
        })
    );
    assert_eq!(format_track(hud.objective_track.as_ref().unwrap()), "Striker 8 FROM EXIT");
}

#[test]
fn objective_panel_renders_round_cap_and_protect_tracker() {
    let mut battle = mission_one();
    battle.primary = PrimaryObjective::ProtectThroughRound { target: GUNNER, round: 3 };
    battle.units[1].hp = 15;
    battle.units[1].max_hp = 15;
    let hud = HudSnapshot::from_battle(&battle, None, &copy());
    let text = objective_text(&hud);
    assert!(text.contains("Round 1/3"), "objective text: {text}");
    assert!(text.contains("TRACK    Gunner HP 15/15"), "objective text: {text}");
    assert!(text.starts_with("// OBJECTIVES\nRound 1/3 / Player Phase\nPRIMARY  "), "{text}");
}

#[test]
fn hud_reports_pilot_skill_states_and_dynamic_pilot_label() {
    let mut battle = mission_one();
    battle.pilot.focus_pending = true;
    battle.pilot.focus_used = true;
    battle.pilot.overdrive_used = true;
    battle.pilot.overdrive_active = true;
    battle.active_unit = Some(INTERCEPTOR);
    let hud = HudSnapshot::from_battle(&battle, Some(INTERCEPTOR), &copy());
    assert_eq!(hud.pilot_label, "[P] OVERDRIVE");
    assert_eq!(hud.pilot_aegis, "READY");
    assert_eq!(hud.pilot_focus, "ACTIVE");
    assert_eq!(hud.pilot_overdrive, "ACTIVE");
    assert!(!hud.can_pilot);

    battle.active_unit = None;
    battle.pilot.overdrive_active = false;
    let hud = HudSnapshot::from_battle(&battle, None, &copy());
    assert_eq!(hud.pilot_label, "[P] PILOT");
    assert_eq!(hud.pilot_aegis, "READY");
    assert_eq!(hud.pilot_focus, "ACTIVE");
    assert_eq!(hud.pilot_overdrive, "USED");
    assert_eq!(pilot_status(false, false), "READY");
}

#[test]
fn active_pilot_allowances_and_weapon_slots() {
    let mut battle = mission_one();
    battle.active_unit = Some(VANGUARD);
    let hud = HudSnapshot::from_battle(&battle, Some(STRIKER), &copy());
    assert!(hud.can_move && hud.can_pilot && hud.can_choose_reaction);
    assert!(!hud.can_finish);
    assert_eq!(hud.weapon_names, [Some("Pile Lance"), Some("Shield Bash"), None]);
    assert_eq!(hud.weapon_enabled, [true, false, false]);
    assert_eq!(hud.weapon_specs[0].unwrap().base_damage, 5);
    assert_eq!(hud.selected_name, Some("Striker"));
    assert_eq!(hud.inspector, InspectorSnapshot::from_unit(&battle.units[5]));
    assert_eq!(inspector_text(&hud.inspector, InspectorTextKind::Hp), "12/12");
    assert_eq!(inspector_text(&hud.inspector, InspectorTextKind::Evasion), "10%");
    assert_eq!(
        inspector_text(&InspectorSnapshot::empty(), InspectorTextKind::Name),
        "—"
    );
    assert!(InspectorSnapshot::empty().is_empty());
    assert_eq!(weapon_text(hud.weapon_specs[0].as_ref(), WeaponTextKind::Hit), "+0");
    assert_eq!(weapon_text(None, WeaponTextKind::Damage), "—");

    battle.units[0].reaction = Some(Reaction::Guard);
    battle.units[0].moved = true;
    let hud = HudSnapshot::from_battle(&battle, None, &copy());
    assert!(hud.can_finish && !hud.can_move);

    battle.phase = BattlePhase::EnemyResolution;
    let hud = HudSnapshot::from_battle(&battle, None, &copy());
    assert!(!hud.can_move && !hud.can_finish);
    assert_eq!(hud.weapon_names, [None, None, None]);
}

fn intent(attacker: UnitId, weapon: WeaponId, occupant: Option<UnitId>) -> IntentFacts {
    IntentFacts {
        attacker,
        weapon,
        base_damage: 4,
        accuracy: 70,
        hit_modifier: 40,
        origin: GridPos::new(4, 4),
        footprint: vec![GridPos::new(4, 6)],
        intended_occupant: occupant,
        intended_preview: None,
    }
}

#[test]
fn threats_follow_committed_intents_and_selection() {
    let mut battle = mission_one();
    let mut previewed = intent(STRIKER, WeaponId(21), Some(VANGUARD));
    previewed.intended_preview = Some(IntentPreview { normal_damage: 3, hit_chance: 60 });
    battle.intents = vec![
        intent(ARTILLERY, WeaponId(22), None),
        intent(UnitId(99), WeaponId(22), None),
        previewed,
    ];
    let hud = HudSnapshot::from_battle(&battle, None, &copy());
    assert_eq!(hud.threats.len(), 2);
    assert_eq!(hud.threats[0].attacker, "Artillery");
    assert_eq!(hud.threats[0].hit_chance, 95);
    assert_eq!(hud.threats[0].normal_damage, 4);
    assert_eq!(hud.threats[1].intended_occupant, Some("Vanguard"));
    assert_eq!(hud.threats[1].hit_chance, 60);
    assert_eq!(threat_text(Some(&hud.threats[0]), ThreatTextKind::Target), "EMPTY");
    assert_eq!(threat_text(Some(&hud.threats[1]), ThreatTextKind::Hit), "60%");
    assert_eq!(threat_text(None, ThreatTextKind::Weapon), "—");
    assert_eq!(selected_threats(&hud.threats, Some(VANGUARD)), vec![1]);
    assert_eq!(selected_threats(&hud.threats, Some(ARTILLERY)), vec![0]);
    assert!(selected_threats(&hud.threats, None).is_empty());
}

#[test]
fn optional_progress_reads_the_bonus_condition() {
    let mut battle = mission_one();
    battle.optional = OptionalObjective::ProtectTargetAtHalfHp { target: GUNNER };
    battle.optional_complete = true;
    assert_eq!(
        optional_progress_snapshot(&battle),
        OptionalProgressSnapshot::ProtectTargetAtHalfHp {
            target: GUNNER,
            name: "Gunner",
            hp: 12,
            max_hp: 12,
            complete: true,
        }
    );
    battle.optional = OptionalObjective::ProtectTargetAtHalfHp { target: UnitId(77) };
    assert_eq!(
        optional_progress_snapshot(&battle),
        OptionalProgressSnapshot::ProtectTargetAtHalfHp {
            target: UnitId(77),
            name: "UNKNOWN",
            hp: 0,
            max_hp: 0,
            complete: true,
        }
    );
    battle.optional = OptionalObjective::VictoryByRound { round: 5 };
    battle.round = 2;
    let hud = HudSnapshot::from_battle(&battle, None, &copy());
    assert_eq!(
        hud.optional_progress,
        OptionalProgressSnapshot::VictoryByRound { round: 5, current_round: 2, complete: true }
    );
    assert!(hud.optional_progress_complete());
    assert_eq!(hud.optional, "Turnabout · Complete");
}

const MISSION_ONE_TITLE: &str = "Mission 1 — Turnabout at Relay Nine";

fn defeat_result() -> MissionResult {
    MissionResult { victory: false, optional_complete: false, rounds: 3 }
}

#[test]
fn terminal_overlay_copy_matches_the_mission_result() {
    assert_eq!(
        result_overlay_copy(
            MissionResult { victory: true, optional_complete: true, rounds: 2 },
            PrimaryObjective::EliminateAllEnemies,
            MISSION_ONE_TITLE,
        ),
        "MISSION COMPLETE\nMission 1 — Turnabout at Relay Nine\nBONUS Achieved"
    );
    assert_eq!(
        result_overlay_copy(
            MissionResult { victory: false, optional_complete: false, rounds: 3 },
            PrimaryObjective::EliminateAllEnemies,
            MISSION_ONE_TITLE,
        ),
        "MISSION FAILED\nSquad knocked out"
    );
}

#[test]
fn overlay_rows_split_the_copy_at_its_first_break() {
    assert_eq!(
        result_overlay_lines(defeat_result(), PrimaryObjective::EliminateAllEnemies, MISSION_ONE_TITLE),
        ("MISSION FAILED", "Squad knocked out".to_string())
    );
    assert_eq!(
        result_overlay_lines(
            MissionResult { victory: true, optional_complete: false, rounds: 4 },
            PrimaryObjective::EliminateAllEnemies,
            MISSION_ONE_TITLE,
        ),
        ("MISSION COMPLETE", "Mission 1 — Turnabout at Relay Nine\nBONUS Missed".to_string())
    );
}

#[test]
fn defeat_overlay_names_the_lost_protect_target() {
    assert_eq!(
        result_overlay_copy(
            defeat_result(),
            PrimaryObjective::ProtectThroughRound { target: GUNNER, round: 3 },
            "Mission 2 — Hold Relay Nine",
        ),
        "MISSION FAILED\nProtect target lost"
    );
}

#[test]
fn defeat_overlay_names_the_escaped_courier() {
    assert_eq!(
        result_overlay_copy(
            defeat_result(),
            PrimaryObjective::InterceptBeforeEscape {
                target: STRIKER,
                escape: GridPos::new(8, 0),
                deadline_round: 4,
            },
            "Mission 3 — Intercept Courier",
        ),
        "MISSION FAILED\nCourier not stopped in time"
    );
}

#[test]
fn battle_log_copy_names_units_and_amounts() {
    let battle = mission_one();
    let lines = [
        (BattleEvent::UnitMoved { unit: VANGUARD, from: GridPos::new(4, 7), to: GridPos::new(4, 6) }, "Vanguard MOVING"),
        (BattleEvent::AttackRolled { attacker: VANGUARD, target: STRIKER, hit: true, critical: false }, "Vanguard -> Striker\nHIT"),
        (BattleEvent::AttackRolled { attacker: VANGUARD, target: STRIKER, hit: true, critical: true }, "Vanguard -> Striker\nCRITICAL"),
        (BattleEvent::AttackRolled { attacker: STRIKER, target: UnitId(77), hit: false, critical: false }, "Striker -> UNKNOWN\nMISS"),
        (BattleEvent::DamageApplied { target: STRIKER, amount: 6 }, "Striker\n-6 HP"),
        (BattleEvent::UnitKnockedOut { unit: STRIKER }, "Striker KNOCKED OUT"),
        (BattleEvent::ExplosiveDamaged { position: GridPos::new(1, 1), amount: 4 }, "EXPLOSIVE  -4 HP"),
        (BattleEvent::CollisionOccurred { blocked_at: GridPos::new(1, 1) }, "COLLISION  -3 HP"),
        (BattleEvent::OptionalObjectiveCompleted, "BONUS ACHIEVED"),
        (BattleEvent::MissionCompleted, "MISSION COMPLETE"),
    ];
    for (event, expected) in lines {
        assert_eq!(format_event(&event, &battle), expected);
    }
    assert_eq!(unit_name(&battle, GUNNER), "Gunner");
    assert_eq!(unit_name(&battle, UnitId(77)), "UNKNOWN");
    assert_eq!(log_line("Striker\n-6 HP"), "Striker · -6 HP");
    assert_eq!(phase_label(BattlePhase::EnemyPlanning), "Enemy Planning");
}

#[test]
fn small_formatters_pin_their_text() {
    assert_eq!(format_signed(2), "+2");
    assert_eq!(format_signed(0), "+0");
    assert_eq!(format_signed(-3), "-3");
    assert_eq!(ascii_separators("Round 2 · PLAYER"), "Round 2 / PLAYER");
    assert_eq!(status_line(true, "Moved."), "Resolving committed events...");
    assert_eq!(status_line(false, "Moved."), "Moved.");
    assert_eq!(decimal(0), "0");
    assert_eq!(decimal(1234567), "1234567");
    assert_eq!(signed_decimal(-40), "-40");
    assert!(pip_lit(0, 1) && !pip_lit(1, 1) && !pip_lit(0, -2));
    let preview = AttackPreview {
        target: GridPos::new(4, 4),
        footprint: vec![GridPos::new(4, 4)],
        normal_damage: 6,
        critical_damage: 9,
        hit_chance: 85,
        en_cost: 1,
    };
    assert_eq!(preview_text(Some(&preview), PreviewValueKind::Critical), "/9");
    assert_eq!(preview_text(Some(&preview), PreviewValueKind::Hit), "85%");
    assert_eq!(preview_text(None, PreviewValueKind::Critical), "/—");
    assert_eq!(preview_text(None, PreviewValueKind::Damage), "—");
    let track = ObjectiveTrackSnapshot::EliminateAll { remaining: 6, total: 6 };
    assert_eq!(primary_pip_count(Some(&track)), 4);
    assert_eq!(primary_pip_count(None), 0);
    assert_eq!(result_primary_progress(None), "—");
}

fn terminal_hud(victory: bool) -> (BattleFacts, HudSnapshot) {
    let mut battle = mission_one();
    battle.result = Some(MissionResult { victory, optional_complete: false, rounds: 3 });
    battle.phase = if victory { BattlePhase::Victory } else { BattlePhase::Defeat };
    let hud = HudSnapshot::from_battle(&battle, None, &copy());
    (battle, hud)
}

#[test]
fn defeat_shows_restart_visible_enabled_and_hides_continue() {
    let (battle, hud) = terminal_hud(false);
    assert!(result_overlay_visible(&hud, false));
    let restart = command_button_view(&battle, &hud, CommandAction::Restart, false, InteractionMode::Inspect, false, true);
    let cont = command_button_view(&battle, &hud, CommandAction::ContinueVictory, false, InteractionMode::Inspect, false, true);
    assert_eq!(restart.shown, Some(true));
    assert!(restart.enabled, "Restart must stay clickable on defeat");
    assert_eq!(restart.tone, ButtonTone::TerminalAction);
    assert_eq!(cont.shown, Some(false));
    assert!(!cont.enabled, "Continue must be unhoverable on defeat");
}

#[test]
fn victory_shows_continue_visible_enabled_and_hides_restart() {
    let (battle, hud) = terminal_hud(true);
    let restart = command_button_view(&battle, &hud, CommandAction::Restart, false, InteractionMode::Inspect, false, false);
    let cont = command_button_view(&battle, &hud, CommandAction::ContinueVictory, false, InteractionMode::Inspect, false, false);
    assert_eq!(cont.shown, Some(true));
    assert!(cont.enabled, "Continue must be clickable on victory");
    assert_eq!(restart.shown, Some(false));
    assert!(!restart.enabled, "Restart must be unhoverable on victory");
    let header = command_button_view(&battle, &hud, CommandAction::Restart, true, InteractionMode::Inspect, false, false);
    assert_eq!(header.shown, Some(false));
    let locked = command_button_view(&battle, &hud, CommandAction::ContinueVictory, false, InteractionMode::Inspect, true, false);
    assert_eq!(locked.shown, Some(false));
    assert!(!locked.enabled);
}

#[test]
fn inspector_card_follows_the_inspected_faction() {
    let battle = mission_one();
    let empty = inspector_panel_view(&InspectorSnapshot::empty());
    assert!(!empty.padded && !empty.details_shown && empty.empty_shown && !empty.energy_row_shown);
    assert_eq!(empty.tone, InspectorTone::Neutral);
    assert_eq!(empty.hp_meter, ThemeColor::Muted);
    let pilot = inspector_panel_view(&InspectorSnapshot::from_unit(&battle.units[0]));
    assert!(pilot.padded && pilot.details_shown && !pilot.empty_shown && pilot.energy_row_shown);
    assert_eq!((pilot.tone, pilot.hp_meter), (InspectorTone::Player, ThemeColor::Mint));
    let enemy = inspector_panel_view(&InspectorSnapshot::from_unit(&battle.units[5]));
    assert!(!enemy.energy_row_shown);
    assert_eq!((enemy.tone, enemy.hp_meter), (InspectorTone::Enemy, ThemeColor::Enemy));
}

#[test]
fn weapon_rows_show_badges_and_a_clamped_range_bar() {
    let mut battle = mission_one();
    battle.active_unit = Some(VANGUARD);
    battle.weapons[0].push = true;
    battle.weapons[0].min_range = 2;
    battle.weapons[0].max_range = 12;
    let hud = HudSnapshot::from_battle(&battle, None, &copy());
    let lance = hud.weapon_specs[0].as_ref();
    assert_eq!(weapon_tag(lance, WeaponTag::Push), (true, Icon::Move, ThemeColor::Gold));
    assert_eq!(weapon_tag(lance, WeaponTag::Counter), (false, Icon::Counter, ThemeColor::Enemy));
    assert_eq!(weapon_tag(None, WeaponTag::Push).0, false);
    assert_eq!(
        weapon_range_meter(lance),
        Some(RangeMeter { start_cells: 2, span_cells: 8, color: ThemeColor::Gold })
    );
    assert_eq!(
        weapon_range_meter(hud.weapon_specs[1].as_ref()),
        Some(RangeMeter { start_cells: 1, span_cells: 1, color: ThemeColor::Muted })
    );
    assert_eq!(weapon_range_meter(None), None);
}
