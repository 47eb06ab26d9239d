use scorpius::playback::log_row;
use scorpius::layout::is_regional;
use scorpius::sync::{opening_focus, reconcile_cells};
use scorpius::layout::{cell_node_position, footprint_node_position};
use scorpius::sync::focus_cell;
use scorpius::sync::{token_hp_fill, token_hp_text};
use std::collections::VecDeque;

use scorpius::layout::{iso_center, PixelPoint, TOKEN_HEIGHT};
use scorpius::model::{
    BattleEvent, BattleFacts, BattlePhase, Faction, GridPos, IntentFacts, OptionalObjective,
    PilotSkills, PrimaryObjective, Reaction, UnitArchetype, UnitFacts, UnitId, WeaponFacts,
    WeaponId, WeaponShape,
};
use scorpius::playback::{
    damage_number, event_duration_ms, event_effect, play_battle_events, restarted_round_begun,
    EventPlayback, PlaybackStep, PlayingEvent, RecentBattleLog, LOG_CAPACITY,
};
use scorpius::sync::{
    cell_tint, extraction_key, highlight_unit, intent_line_keys, intent_target_keys,
    reaction_keys, reconcile_markers, selection_tint, telegraph_keys, telegraph_shape,
    token_card_view, CellTint, MarkerKey,
};
use scorpius::theme::{Icon, ThemeColor};

const VANGUARD: UnitId = UnitId(1);
const GUNNER: UnitId = UnitId(2);
const STRIKER: UnitId = UnitId(12);
const ARTILLERY: UnitId = UnitId(13);

fn unit(id: UnitId, name: &'static str, faction: Faction, position: GridPos) -> UnitFacts {
    UnitFacts {
        id,
        name,
        faction,
        archetype: if faction == Faction::Player {
            UnitArchetype::Vanguard
        } else {
            UnitArchetype::Striker
        },
        position,
        hp: 12,
        max_hp: 12,
        en: 3,
        max_en: 3,
        armor: 1,
        movement: 3,
        evasion: 10,
        moved: false,
        acted: false,
        finished: false,
        reaction: None,
        knocked_out: false,
        weapons: vec![],
    }
}

fn weapon(id: WeaponId, shape: WeaponShape) -> WeaponFacts {
    WeaponFacts {
        id,
        name: "Mortar",
        shape,
        min_range: 2,
        max_range: 4,
        base_damage: 4,
        hit_modifier: 0,
        crit_chance: 5,
        en_cost: 0,
        push: false,
        counter_weapon: false,
    }
}

fn intent(attacker: UnitId, weapon: WeaponId, footprint: Vec<GridPos>, occupant: Option<UnitId>) -> IntentFacts {
    IntentFacts {
        attacker,
        weapon,
        base_damage: 4,
        accuracy: 70,
        hit_modifier: 0,
        origin: GridPos::new(4, 1),
        footprint,
        intended_occupant: occupant,
        intended_preview: None,
    }
}

fn battle() -> BattleFacts {
    BattleFacts {
        phase: BattlePhase::Player,
        active_unit: Some(VANGUARD),
        round: 1,
        result: None,
        primary: PrimaryObjective::EliminateAllEnemies,
        optional: OptionalObjective::Turnabout,
        optional_complete: false,
        ready_to_resolve: false,
        pilot: PilotSkills {
            aegis_used: false,
            aegis_target: None,
            focus_used: false,
            focus_pending: false,
            overdrive_used: false,
            overdrive_active: false,
        },
        units: vec![
            unit(VANGUARD, "Vanguard", Faction::Player, GridPos::new(4, 7)),
            unit(GUNNER, "Gunner", Faction::Player, GridPos::new(3, 7)),
            unit(STRIKER, "Striker", Faction::Enemy, GridPos::new(4, 4)),
            unit(ARTILLERY, "Artillery", Faction::Enemy, GridPos::new(4, 1)),
        ],
        weapons: vec![weapon(WeaponId(1), WeaponShape::Single), weapon(WeaponId(2), WeaponShape::Cross1)],
        intents: vec![],
    }
}

#[test]
fn playback_records_each_event_in_the_recent_battle_log() {
    let battle = battle();
    let mut playback = EventPlayback::default();
    let mut queue = VecDeque::from([BattleEvent::OptionalObjectiveCompleted]);
    let mut log = RecentBattleLog::default();
    let step = play_battle_events(&mut playback, &mut queue, &mut log, &battle, false);
    assert_eq!(
        step,
        PlaybackStep::Start {
            finished_previous: false,
            event: BattleEvent::OptionalObjectiveCompleted,
            duration_ms: 180,
        }
    );
    assert_eq!(log.0, VecDeque::from(["BONUS ACHIEVED".to_string()]));
    assert!(playback.input_locked);
    assert!(queue.is_empty());
}

#[test]
fn playback_waits_for_the_timer_then_unlocks() {
    let battle = battle();
    let mut playback = EventPlayback::default();
    let moved = BattleEvent::UnitMoved { unit: VANGUARD, from: GridPos::new(4, 7), to: GridPos::new(4, 6) };
    let mut queue = VecDeque::from([moved, BattleEvent::MissionCompleted]);
    let mut log = RecentBattleLog::default();

    play_battle_events(&mut playback, &mut queue, &mut log, &battle, false);
    assert_eq!(playback.current, Some(PlayingEvent { event: moved, duration_ms: 300 }));
    assert_eq!(
        play_battle_events(&mut playback, &mut queue, &mut log, &battle, false),
        PlaybackStep::Animate
    );
    assert_eq!(queue.len(), 1);
    let step = play_battle_events(&mut playback, &mut queue, &mut log, &battle, true);
    assert_eq!(
        step,
        PlaybackStep::Start { finished_previous: true, event: BattleEvent::MissionCompleted, duration_ms: 180 }
    );
    assert_eq!(log.0, VecDeque::from(["MISSION COMPLETE".to_string(), "Vanguard MOVING".to_string()]));
    let step = play_battle_events(&mut playback, &mut queue, &mut log, &battle, true);
    assert_eq!(step, PlaybackStep::Idle { finished_previous: true });
    assert_eq!(playback, EventPlayback { current: None, input_locked: false });
    assert_eq!(
        play_battle_events(&mut playback, &mut queue, &mut log, &battle, true),
        PlaybackStep::Idle { finished_previous: false }
    );
    assert_eq!(log.0.len(), 2);
}

#[test]
fn recent_log_keeps_the_six_newest_lines() {
    let mut log = RecentBattleLog::default();
    for i in 0..9 {
        log.push(format!("line {i}"));
    }
    assert_eq!(log.0.len(), LOG_CAPACITY);
    assert_eq!(log.0[0], "line 8");
    assert_eq!(log.0[5], "line 3");
    log.clear();
    assert!(log.0.is_empty());
}

#[test]
fn restarted_round_queues_authored_events_before_unlocking_input() {
    let mut pending = true;
    let mut playback = EventPlayback::default();
    let mut queue = VecDeque::new();
    let events = vec![
        BattleEvent::IntentCommitted { attacker: STRIKER },
        BattleEvent::IntentCommitted { attacker: ARTILLERY },
    ];
    let status = restarted_round_begun(&mut pending, events.clone(), &mut playback, &mut queue);
    assert_eq!(status, "Mission restarted.");
    assert!(!pending);
    assert!(playback.input_locked);
    assert_eq!(queue, VecDeque::from(events));

    let mut pending = true;
    let mut playback = EventPlayback::default();
    let mut queue = VecDeque::new();
    restarted_round_begun(&mut pending, Vec::new(), &mut playback, &mut queue);
    assert!(!playback.input_locked);
    assert!(queue.is_empty());
}

#[test]
fn event_durations_and_effects() {
    let battle = battle();
    assert_eq!(event_duration_ms(&BattleEvent::UnitPushed { unit: STRIKER, from: GridPos::new(1, 1), to: GridPos::new(1, 2) }), 300);
    assert_eq!(event_duration_ms(&BattleEvent::DamageApplied { target: STRIKER, amount: 3 }), 220);
    assert_eq!(event_duration_ms(&BattleEvent::IntentCanceled { attacker: STRIKER }), 120);
    assert_eq!(event_duration_ms(&BattleEvent::HazardTriggered { position: GridPos::new(1, 1) }), 180);

    assert_eq!(
        event_effect(&BattleEvent::HazardTriggered { position: GridPos::new(2, 3) }, &battle),
        Some((GridPos::new(2, 3), Icon::Guard))
    );
    assert_eq!(
        event_effect(&BattleEvent::CollisionOccurred { blocked_at: GridPos::new(5, 5) }, &battle),
        Some((GridPos::new(5, 5), Icon::Counter))
    );
    assert_eq!(
        event_effect(&BattleEvent::AttackRolled { attacker: VANGUARD, target: STRIKER, hit: true, critical: false }, &battle),
        Some((GridPos::new(4, 4), Icon::Attack))
    );
    assert_eq!(
        event_effect(&BattleEvent::AttackRolled { attacker: VANGUARD, target: STRIKER, hit: false, critical: false }, &battle),
        None
    );
    assert_eq!(event_effect(&BattleEvent::MissionCompleted, &battle), None);

    let c = iso_center(GridPos::new(4, 4));
    assert_eq!(
        damage_number(&BattleEvent::DamageApplied { target: STRIKER, amount: 6 }, &battle),
        Some((PixelPoint { x: c.x, y: c.y - TOKEN_HEIGHT - 10 }, "-6".to_string()))
    );
    assert_eq!(damage_number(&BattleEvent::DamageApplied { target: UnitId(99), amount: 6 }, &battle), None);
    assert_eq!(damage_number(&BattleEvent::MissionFailed, &battle), None);
}

#[test]
fn reconciliation_removes_stale_and_duplicate_markers_and_spawns_missing_ones() {
    let a = MarkerKey::Extraction { cell: GridPos::new(8, 0) };
    let b = MarkerKey::Reaction { unit: VANGUARD, reaction: Reaction::Guard };
    let c = MarkerKey::Telegraph { attacker: STRIKER, cell: GridPos::new(4, 6) };
    let expected = vec![a, b];
    let existing = vec![b, c, b];
    let plan = reconcile_markers(&expected, &existing);
    assert_eq!(plan.despawn, vec![1, 2]);
    assert_eq!(plan.spawn, vec![a]);

    let plan = reconcile_markers(&expected, &vec![a, b]);
    assert!(plan.despawn.is_empty() && plan.spawn.is_empty());
    let plan = reconcile_markers(&Vec::new(), &vec![a]);
    assert_eq!(plan.despawn, vec![0]);
}

#[test]
fn committed_footprints_create_one_marker_per_unique_cell() {
    let mut battle = battle();
    battle.intents = vec![
        intent(ARTILLERY, WeaponId(2), vec![GridPos::new(4, 6), GridPos::new(4, 7), GridPos::new(4, 6)], Some(VANGUARD)),
        intent(STRIKER, WeaponId(1), vec![GridPos::new(4, 5)], None),
        intent(STRIKER, WeaponId(9), vec![GridPos::new(1, 1)], None),
    ];
    let keys = telegraph_keys(&battle);
    assert_eq!(
        keys,
        vec![
            MarkerKey::Telegraph { attacker: ARTILLERY, cell: GridPos::new(4, 6) },
            MarkerKey::Telegraph { attacker: ARTILLERY, cell: GridPos::new(4, 7) },
            MarkerKey::Telegraph { attacker: STRIKER, cell: GridPos::new(4, 5) },
        ]
    );
    assert_eq!(telegraph_shape(&battle, ARTILLERY, GridPos::new(4, 7)), Some(WeaponShape::Cross1));
    assert_eq!(telegraph_shape(&battle, STRIKER, GridPos::new(1, 1)), None);
    assert_eq!(
        intent_target_keys(&battle),
        vec![MarkerKey::IntentTarget { attacker: ARTILLERY, target: VANGUARD }]
    );
    let lines = intent_line_keys(&battle);
    assert_eq!(lines.len(), 2);
    assert!(lines.contains(&MarkerKey::IntentLine {
        attacker: ARTILLERY,
        origin: GridPos::new(4, 1),
        center: GridPos::new(4, 6),
    }));
}

#[test]
fn reaction_badges_and_extraction_ring() {
    let mut battle = battle();
    battle.units[0].reaction = Some(Reaction::Guard);
    battle.units[1].reaction = Some(Reaction::Evade);
    battle.units[1].knocked_out = true;
    battle.units[2].reaction = Some(Reaction::Counter);
    assert_eq!(reaction_keys(&battle), vec![MarkerKey::Reaction { unit: VANGUARD, reaction: Reaction::Guard }]);
    assert_eq!(extraction_key(&battle), None);
    battle.primary = PrimaryObjective::InterceptBeforeEscape {
        target: STRIKER,
        escape: GridPos::new(8, 0),
        deadline_round: 4,
    };
    assert_eq!(extraction_key(&battle), Some(MarkerKey::Extraction { cell: GridPos::new(8, 0) }));
}

#[test]
fn token_and_cell_tints() {
    let mut battle = battle();
    assert_eq!(selection_tint(&battle, &battle.units[0], None), Some(ThemeColor::BoardSelected));
    assert_eq!(selection_tint(&battle, &battle.units[2], Some(STRIKER)), Some(ThemeColor::BoardInspected));
    assert_eq!(selection_tint(&battle, &battle.units[1], Some(STRIKER)), None);
    battle.units[0].knocked_out = true;
    assert_eq!(selection_tint(&battle, &battle.units[0], None), None);

    let mut finished = battle.units[1].clone();
    finished.finished = true;
    let view = token_card_view(&finished);
    assert!(view.player && view.dimmed && !view.awaiting && view.visible);
    let enemy = token_card_view(&battle.units[2]);
    assert!(!enemy.player && !enemy.dimmed && !enemy.awaiting);

    assert_eq!(
        cell_tint(GridPos::new(1, 1), true, Some(GridPos::new(1, 1)), true),
        CellTint { stroke: ThemeColor::BoardAttack, inset: ThemeColor::BoardAttackInset }
    );
    assert_eq!(
        cell_tint(GridPos::new(1, 1), false, Some(GridPos::new(1, 1)), false),
        CellTint { stroke: ThemeColor::BoardSelected, inset: ThemeColor::BoardReachable }
    );
    assert_eq!(
        cell_tint(GridPos::new(1, 1), false, None, false),
        CellTint { stroke: ThemeColor::BoardStroke, inset: ThemeColor::BoardLight }
    );
    assert_eq!(
        cell_tint(GridPos::new(1, 2), false, None, false),
        CellTint { stroke: ThemeColor::BoardStroke, inset: ThemeColor::BoardDark }
    );

    assert_eq!(highlight_unit(&battle, Some(GUNNER), Some(VANGUARD)), Some(GUNNER));
    assert_eq!(highlight_unit(&battle, Some(STRIKER), None), None);
    assert_eq!(highlight_unit(&battle, None, Some(VANGUARD)), Some(VANGUARD));
    assert_eq!(highlight_unit(&battle, None, Some(STRIKER)), None);
}

#[test]
fn map_focus_prefers_the_active_then_the_inspected_then_the_first_standing_pilot() {
    let mut battle = battle();
    assert_eq!(focus_cell(&battle, Some(STRIKER)), Some(GridPos::new(4, 7)));
    battle.active_unit = None;
    assert_eq!(focus_cell(&battle, Some(STRIKER)), Some(GridPos::new(4, 4)));
    assert_eq!(focus_cell(&battle, None), Some(GridPos::new(4, 7)));
    battle.units[0].knocked_out = true;
    assert_eq!(focus_cell(&battle, Some(UnitId(99))), Some(GridPos::new(3, 7)));
    battle.units[1].knocked_out = true;
    assert_eq!(focus_cell(&battle, None), None);
}

#[test]
fn token_hp_readout_and_bar() {
    let mut u = unit(VANGUARD, "Vanguard", Faction::Player, GridPos::new(0, 0));
    u.hp = 7;
    assert_eq!(token_hp_text(&u), "7");
    assert_eq!(token_hp_fill(&u), (7, 12));
    u.hp = -2;
    u.max_hp = 0;
    assert_eq!(token_hp_text(&u), "-2");
    assert_eq!(token_hp_fill(&u), (0, 1));
}

#[test]
fn token_shadow_and_selection_footprints_follow_domain_positions() {
    let battle = battle();
    let vanguard = &battle.units[0];
    let striker = &battle.units[2];
    let c = scorpius::layout::stage_point(vanguard.position);
    assert_eq!(footprint_node_position(vanguard.position), PixelPoint { x: c.x - 56, y: c.y - 68 });
    assert_eq!(cell_node_position(vanguard.position), PixelPoint { x: c.x - 56, y: c.y - 28 });
    assert_eq!(selection_tint(&battle, vanguard, Some(STRIKER)), Some(ThemeColor::BoardSelected));
    assert_eq!(selection_tint(&battle, striker, Some(STRIKER)), Some(ThemeColor::BoardInspected));
}

#[test]
fn intercept_mission_spawns_one_white_extraction_ring_at_the_escape_cell() {
    let mut battle = battle();
    battle.primary = PrimaryObjective::InterceptBeforeEscape {
        target: STRIKER,
        escape: GridPos::new(8, 0),
        deadline_round: 5,
    };
    let expected: Vec<MarkerKey> = extraction_key(&battle).into_iter().collect();
    assert_eq!(expected, vec![MarkerKey::Extraction { cell: GridPos::new(8, 0) }]);
    let plan = reconcile_markers(&expected, &Vec::new());
    assert_eq!(plan.spawn, vec![MarkerKey::Extraction { cell: GridPos::new(8, 0) }]);
}

#[test]
fn missions_without_an_intercept_primary_spawn_no_extraction_marker() {
    let mut battle = battle();
    for primary in [
        PrimaryObjective::EliminateAllEnemies,
        PrimaryObjective::ProtectThroughRound { target: GUNNER, round: 3 },
        PrimaryObjective::EliminateTarget { target: STRIKER },
    ] {
        battle.primary = primary;
        assert_eq!(extraction_key(&battle), None);
    }
    let stale = vec![MarkerKey::Extraction { cell: GridPos::new(8, 0) }];
    assert_eq!(reconcile_markers(&Vec::new(), &stale).despawn, vec![0]);
}

#[test]
fn reconcile_visible_cells_diffs_spawned_and_despawned_tiles() {
    let a = GridPos::new(0, 0);
    let b = GridPos::new(1, 0);
    let c = GridPos::new(2, 0);
    let d = GridPos::new(9, 9);
    let plan = reconcile_cells(&vec![a, b, c, c], &vec![d, b, b]);
    assert_eq!(plan.despawn, vec![0]);
    assert_eq!(plan.spawn, vec![a, c]);
    let plan = reconcile_cells(&Vec::new(), &vec![a, b]);
    assert_eq!(plan.despawn, vec![0, 1]);
    assert!(plan.spawn.is_empty());
}

#[test]
fn regional_boards_open_on_the_squad() {
    assert!(!is_regional(9, 9));
    assert!(is_regional(10, 9));
    assert!(is_regional(9, 24));
    let mut battle = battle();
    assert_eq!(opening_focus(&battle), GridPos::new(4, 7));
    battle.units[0].knocked_out = true;
    assert_eq!(opening_focus(&battle), GridPos::new(3, 7));
    battle.units[1].knocked_out = true;
    assert_eq!(opening_focus(&battle), GridPos::new(0, 0));
}

#[test]
fn battle_snapshot_renders_recent_playback_log_entries() {
    let mut log = RecentBattleLog::default();
    log.push("VANGUARD -> STRIKER\nHIT".to_owned());
    assert_eq!(log_row(&log, 0), (true, "VANGUARD -> STRIKER · HIT".to_string(), ThemeColor::Gold));
    assert_eq!(log_row(&log, 1), (false, String::new(), ThemeColor::Border));
    log.push("Striker KNOCKED OUT".to_owned());
    assert_eq!(log_row(&log, 0), (true, "Striker KNOCKED OUT".to_string(), ThemeColor::Enemy));
    assert_eq!(log_row(&log, 1).1, "VANGUARD -> STRIKER · HIT");
    assert!(!log_row(&log, 5).0);
}
