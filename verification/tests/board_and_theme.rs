use scorpius::assets::{asset_status_text, AssetStatusLine};
use scorpius::layout::reaction_badge_position;
use scorpius::assets::{
    failed_path, is_ready, map_sprite, map_sprite_catalog_index, mission_assets_ready,
    monitor_mission_assets, AssetLoadStatus, AssetProbe, MapSprite, CATALOG_LEN, FONT_COUNT,
    IMAGE_COUNT,
};
use scorpius::layout::{
    battle_stage_rect, cell_node_position, depth_key, footprint_node_position, iso_center,
    marker_position, mission_grid_cells, stage_point, tile_bounds, token_node_position,
    PixelPoint, PixelRect, BATTLE_STAGE_HEIGHT, BATTLE_STAGE_WIDTH,
};
use scorpius::model::{GridPos, Terrain, UnitArchetype, WeaponShape};
use scorpius::theme::{
    atlas_rect, font_index, icon_rect, log_dot_color, opaque_rgb, shape_cell_active,
    terrain_color, text_contains, unit_archetype_style, FontFamily, Icon, Rgb, ThemeColor,
};

fn rgb(r: u8, g: u8, b: u8) -> Rgb {
    Rgb { r, g, b }
}

fn point(x: i32, y: i32) -> PixelPoint {
    PixelPoint { x, y }
}

#[test]
fn updated_battle_stage_and_iso_centers_are_pinned() {
    assert_eq!(
        battle_stage_rect(),
        PixelRect { min_x: 456, min_y: 204, max_x: 1464, max_y: 968 }
    );
    assert_eq!(iso_center(GridPos::new(0, 0)), point(960, 394));
    assert_eq!(iso_center(GridPos::new(8, 0)), point(1408, 618));
    assert_eq!(iso_center(GridPos::new(0, 8)), point(512, 618));
    assert_eq!(iso_center(GridPos::new(8, 8)), point(960, 842));
}

#[test]
fn board_stage_fits_the_authored_design_rect() {
    let stage = battle_stage_rect();
    assert_eq!(stage.max_x - stage.min_x, BATTLE_STAGE_WIDTH);
    assert_eq!(stage.max_y - stage.min_y, BATTLE_STAGE_HEIGHT);
    for y in 0..9 {
        for x in 0..9 {
            let tile = tile_bounds(GridPos::new(x, y));
            assert!(tile.min_x >= stage.min_x && tile.max_x <= stage.max_x);
            assert!(tile.min_y >= stage.min_y && tile.max_y <= stage.max_y);
        }
    }
}

#[test]
fn mission_board_exposes_all_eighty_one_logical_cells() {
    let cells = mission_grid_cells(9, 9);
    assert_eq!(cells.len(), 81);
    assert_eq!(cells[0], GridPos::new(0, 0));
    assert_eq!(cells[8], GridPos::new(8, 0));
    assert_eq!(cells[9], GridPos::new(0, 1));
    assert_eq!(cells[80], GridPos::new(8, 8));
    for (i, cell) in cells.iter().enumerate() {
        assert_eq!(cell.x as usize, i % 9);
        assert_eq!(cell.y as usize, i / 9);
    }
}

#[test]
fn empty_board_has_no_cells() {
    assert!(mission_grid_cells(0, 9).is_empty());
    assert!(mission_grid_cells(9, 0).is_empty());
    assert_eq!(mission_grid_cells(3, 2).len(), 6);
}

#[test]
fn stage_anchors_are_relative_to_the_stage_corner() {
    let cell = GridPos::new(4, 7);
    assert_eq!(stage_point(cell), point(504 - 3 * 56, 190 + 11 * 28));
    assert_eq!(tile_bounds(GridPos::new(0, 0)), PixelRect {
        min_x: 904,
        min_y: 366,
        max_x: 1016,
        max_y: 422
    });
    let c = stage_point(GridPos::new(2, 3));
    assert_eq!(token_node_position(GridPos::new(2, 3)), point(c.x - 38, c.y - 68));
    assert_eq!(footprint_node_position(GridPos::new(2, 3)), point(c.x - 56, c.y - 68));
    assert_eq!(cell_node_position(GridPos::new(2, 3)), point(c.x - 56, c.y - 28));
    assert_eq!(marker_position(point(100, 50), 40, 20, 6), point(80, 46));
    assert_eq!(marker_position(point(100, 50), 33, 17, 0), point(84, 42));
}

#[test]
fn depth_orders_cells_from_back_to_front() {
    assert_eq!(depth_key(GridPos::new(0, 0)), 0);
    assert_eq!(depth_key(GridPos::new(3, 5)), 8);
    assert!(depth_key(GridPos::new(8, 8)) > depth_key(GridPos::new(8, 7)));
    assert!(iso_center(GridPos::new(8, 8)).y > iso_center(GridPos::new(8, 7)).y);
}

#[test]
fn distinct_cells_have_distinct_centres() {
    let cells = mission_grid_cells(9, 9);
    for a in &cells {
        for b in &cells {
            if a != b {
                assert_ne!(iso_center(*a), iso_center(*b));
            }
        }
    }
}

#[test]
fn map_sprite_covers_every_archetype_and_shares_one_enemy_handle() {
    let enemies = [
        UnitArchetype::Rifleman,
        UnitArchetype::Striker,
        UnitArchetype::Artillery,
        UnitArchetype::Flanker,
        UnitArchetype::Bulwark,
        UnitArchetype::Controller,
        UnitArchetype::Dreadnought,
        UnitArchetype::Regent,
    ];
    for archetype in enemies {
        assert_eq!(map_sprite(archetype), MapSprite::Enemy);
    }
    assert_eq!(map_sprite(UnitArchetype::Vanguard), MapSprite::Vanguard);
    assert_eq!(map_sprite(UnitArchetype::Gunner), MapSprite::Gunner);
    assert_eq!(map_sprite(UnitArchetype::Interceptor), MapSprite::Interceptor);
    assert_eq!(map_sprite_catalog_index(MapSprite::Vanguard), 5);
    assert_eq!(map_sprite_catalog_index(MapSprite::Enemy), 8);
}

#[test]
fn image_readiness_gate_covers_all_twelve_images() {
    assert_eq!(IMAGE_COUNT, 12);
    assert_eq!(FONT_COUNT, 7);
    assert_eq!(CATALOG_LEN, IMAGE_COUNT + FONT_COUNT);
}

fn probe(path: &'static str, failed: bool, loaded: bool) -> AssetProbe {
    AssetProbe { path, failed, loaded }
}

#[test]
fn first_failed_asset_is_reported_and_readiness_needs_every_entry() {
    let probes = vec![
        probe("ui/key_art.png", false, true),
        probe("ui/map/enemy.png", true, false),
        probe("fonts/chakra-petch-400.ttf", true, false),
    ];
    assert_eq!(failed_path(&probes), Some("ui/map/enemy.png"));
    assert!(!is_ready(&probes));
    let loaded = vec![probe("a", false, true), probe("b", false, true)];
    assert_eq!(failed_path(&loaded), None);
    assert!(is_ready(&loaded));
    assert!(is_ready(&Vec::new()));
}

#[test]
fn only_a_loading_status_moves() {
    let loading = vec![probe("a", false, true), probe("b", false, false)];
    let mut status = AssetLoadStatus::Loading;
    monitor_mission_assets(&mut status, Some(&loading));
    assert_eq!(status, AssetLoadStatus::Loading);
    assert!(!mission_assets_ready(&status));

    let ready = vec![probe("a", false, true), probe("b", false, true)];
    monitor_mission_assets(&mut status, Some(&ready));
    assert_eq!(status, AssetLoadStatus::Ready);
    assert!(mission_assets_ready(&status));

    let failing = vec![probe("a", false, true), probe("ui/icons.png", true, false)];
    monitor_mission_assets(&mut status, Some(&failing));
    assert_eq!(status, AssetLoadStatus::Ready);

    let mut fresh = AssetLoadStatus::Loading;
    monitor_mission_assets(&mut fresh, None);
    assert_eq!(fresh, AssetLoadStatus::Loading);
    monitor_mission_assets(&mut fresh, Some(&failing));
    assert_eq!(fresh, AssetLoadStatus::Failed("ui/icons.png"));
    assert!(!mission_assets_ready(&fresh));
    monitor_mission_assets(&mut fresh, Some(&ready));
    assert_eq!(fresh, AssetLoadStatus::Failed("ui/icons.png"));
}

#[test]
fn terrain_color_distinguishes_every_regional_tile() {
    assert_eq!(terrain_color(Terrain::Plain, GridPos::new(0, 0)), rgb(78, 105, 75));
    assert_eq!(terrain_color(Terrain::Plain, GridPos::new(0, 1)), rgb(72, 98, 70));
    assert_eq!(terrain_color(Terrain::Road, GridPos::new(3, 3)), rgb(156, 141, 103));
    assert_eq!(terrain_color(Terrain::Forest, GridPos::new(0, 0)), rgb(34, 76, 51));
    assert_eq!(terrain_color(Terrain::Forest, GridPos::new(1, 0)), rgb(30, 69, 46));
    assert_eq!(terrain_color(Terrain::Sea, GridPos::new(0, 0)), rgb(25, 81, 116));
    assert_eq!(terrain_color(Terrain::Sea, GridPos::new(2, 1)), rgb(22, 75, 110));
    assert_eq!(terrain_color(Terrain::Mountain, GridPos::new(4, 4)), rgb(105, 110, 115));
}

#[test]
fn canonical_archetype_glyphs_and_colors_are_explicit() {
    let accent = opaque_rgb(ThemeColor::Accent).unwrap();
    let player = opaque_rgb(ThemeColor::Player).unwrap();
    let enemy = opaque_rgb(ThemeColor::Enemy).unwrap();
    let gold = opaque_rgb(ThemeColor::Gold).unwrap();
    let styles = [
        (UnitArchetype::Vanguard, Icon::GlyphHex, accent),
        (UnitArchetype::Gunner, Icon::GlyphDiamond, rgb(127, 191, 232)),
        (UnitArchetype::Interceptor, Icon::GlyphTriangle, player),
        (UnitArchetype::Rifleman, Icon::GlyphSquare, rgb(255, 143, 128)),
        (UnitArchetype::Striker, Icon::GlyphTriangle, enemy),
        (UnitArchetype::Artillery, Icon::GlyphDiamond, rgb(255, 176, 76)),
        (UnitArchetype::Flanker, Icon::GlyphTriangle, rgb(180, 140, 255)),
        (UnitArchetype::Bulwark, Icon::GlyphSquare, gold),
        (UnitArchetype::Controller, Icon::GlyphDiamond, rgb(95, 200, 232)),
        (UnitArchetype::Dreadnought, Icon::GlyphHex, rgb(220, 68, 80)),
        (UnitArchetype::Regent, Icon::GlyphHex, rgb(180, 140, 255)),
    ];
    for (archetype, glyph, color) in styles {
        let style = unit_archetype_style(archetype);
        assert_eq!(style.glyph, glyph, "{archetype:?}");
        assert_eq!(style.color, color, "{archetype:?}");
        assert_eq!(
            style.footprint,
            PixelRect { min_x: 224, min_y: 0, max_x: 336, max_y: 96 },
            "{archetype:?}"
        );
    }
}

#[test]
fn palette_and_atlas_slots_are_pinned() {
    assert_eq!(opaque_rgb(ThemeColor::Background), Some(rgb(5, 8, 15)));
    assert_eq!(opaque_rgb(ThemeColor::BoardInspected), Some(rgb(255, 156, 96)));
    assert_eq!(opaque_rgb(ThemeColor::BoardTelegraph), None);
    assert_eq!(icon_rect(0), PixelRect { min_x: 0, min_y: 0, max_x: 64, max_y: 64 });
    assert_eq!(icon_rect(9), PixelRect { min_x: 64, min_y: 64, max_x: 128, max_y: 128 });
    assert_eq!(atlas_rect(Icon::GlyphHex), icon_rect(51));
    assert_eq!(atlas_rect(Icon::Back), icon_rect(62));
    assert_eq!(
        atlas_rect(Icon::ResultVictory),
        PixelRect { min_x: 132, min_y: 324, max_x: 188, max_y: 380 }
    );
    assert_eq!(font_index(FontFamily::ChakraPetch, 400), 0);
    assert_eq!(font_index(FontFamily::ChakraPetch, 700), 3);
    assert_eq!(font_index(FontFamily::IbmPlexMono, 400), 4);
    assert_eq!(font_index(FontFamily::IbmPlexMono, 600), 6);
}

#[test]
fn log_dots_rank_losses_over_damage_over_the_rest() {
    assert!(text_contains("Rifleman MISS", "MISS"));
    assert!(!text_contains("MIS", "MISS"));
    assert!(text_contains("anything", ""));
    assert_eq!(log_dot_color("Striker KNOCKED OUT"), ThemeColor::Enemy);
    assert_eq!(log_dot_color("Vanguard HIT Striker -6 HP"), ThemeColor::Gold);
    assert_eq!(log_dot_color("MISS after HIT"), ThemeColor::Enemy);
    assert_eq!(log_dot_color("ROUND 2"), ThemeColor::Mint);
}

#[test]
fn shape_meter_lights_the_footprint_cells() {
    let single: Vec<bool> = (0..9).map(|i| shape_cell_active(WeaponShape::Single, i)).collect();
    assert_eq!(single, vec![false, false, false, false, true, false, false, false, false]);
    let cross: Vec<bool> = (0..9).map(|i| shape_cell_active(WeaponShape::Cross1, i)).collect();
    assert_eq!(cross, vec![false, true, false, true, true, true, false, true, false]);
}

#[test]
fn asset_panel_copy_follows_the_load_status() {
    assert_eq!(
        asset_status_text(&AssetLoadStatus::Loading),
        Some(AssetStatusLine::Loading("Loading battle UI assets...".to_string()))
    );
    assert_eq!(asset_status_text(&AssetLoadStatus::Ready), None);
    assert_eq!(
        asset_status_text(&AssetLoadStatus::Failed("ui/icons.png")),
        Some(AssetStatusLine::Failed("ASSET LOAD FAILED\nui/icons.png".to_string()))
    );
}

#[test]
fn reaction_badges_sit_above_the_token() {
    let c = stage_point(GridPos::new(4, 7));
    assert_eq!(reaction_badge_position(GridPos::new(4, 7)), point(c.x - 16, c.y - 64));
}

#[test]
fn ready_asset_status_hides_a_newly_spawned_battle_panel() {
    use_ready_status();
}

fn use_ready_status() {
    assert_eq!(asset_status_text(&AssetLoadStatus::Ready), None);
    assert!(asset_status_text(&AssetLoadStatus::Loading).is_some());
}

#[test]
fn palette_and_atlas_contract_is_source_shaped() {
    assert_eq!(opaque_rgb(ThemeColor::Accent), Some(rgb(0x3e, 0xc7, 0xdb)));
    assert_eq!(opaque_rgb(ThemeColor::Gold), Some(rgb(0xff, 0xd1, 0x75)));
    let r = atlas_rect(Icon::Move);
    assert_eq!((r.max_x - r.min_x, r.max_y - r.min_y), (64, 64));
    for icon in [Icon::GlyphHex, Icon::GlyphDiamond, Icon::GlyphTriangle, Icon::GlyphSquare, Icon::Attack, Icon::Guard, Icon::Counter, Icon::Evade, Icon::Skill, Icon::Wait, Icon::Back] {
        let r = atlas_rect(icon);
        assert_eq!((r.max_x - r.min_x, r.max_y - r.min_y), (64, 64), "{icon:?}");
        assert!(r.max_x <= 512 && r.max_y <= 576, "{icon:?} inside the 512x576 atlas");
    }
}
