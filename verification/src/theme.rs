//! Palette, icon atlas and font catalogue shared by every screen.
use vstd::prelude::*;
use crate::layout::PixelRect;
use crate::model::{GridPos, Terrain, UnitArchetype, WeaponShape};

verus! {

pub const ICON_ATLAS_PATH: &'static str = "ui/icons.png";
pub const BOARD_ATLAS_PATH: &'static str = "ui/board.png";
pub const CHAKRA_PETCH_400_PATH: &'static str = "fonts/chakra-petch-400.ttf";
pub const CHAKRA_PETCH_500_PATH: &'static str = "fonts/chakra-petch-500.ttf";
pub const CHAKRA_PETCH_600_PATH: &'static str = "fonts/chakra-petch-600.ttf";
pub const CHAKRA_PETCH_700_PATH: &'static str = "fonts/chakra-petch-700.ttf";
pub const IBM_PLEX_MONO_400_PATH: &'static str = "fonts/ibm-plex-mono-400.ttf";
pub const IBM_PLEX_MONO_500_PATH: &'static str = "fonts/ibm-plex-mono-500.ttf";
pub const IBM_PLEX_MONO_600_PATH: &'static str = "fonts/ibm-plex-mono-600.ttf";

/// An opaque sRGB colour with 8-bit channels.
#[derive(Clone, Copy, Debug, PartialEq, Eq, Structural)]
pub struct Rgb {
    pub r: u8,
    pub g: u8,
    pub b: u8,
}

pub open spec fn rgb(r: u8, g: u8, b: u8) -> Rgb {
    Rgb { r, g, b }
}

/// The named colours of the palette.
#[derive(Clone, Copy, Debug, PartialEq, Eq, Structural)]
pub enum ThemeColor {
    Background,
    Panel,
    PanelRaised,
    Border,
    Accent,
    Gold,
    Mint,
    Player,
    Enemy,
    Text,
    Muted,
    BoardStroke,
    BoardLight,
    BoardDark,
    BoardReachable,
    BoardSelected,
    BoardAttack,
    BoardAttackInset,
    BoardInspected,
    /// Translucent red of committed enemy footprints.
    BoardTelegraph,
    /// Translucent amber of the escape cell.
    BoardExtraction,
    /// Translucent red of hazard cells.
    BoardHazard,
    /// Translucent orange of explosive props.
    BoardExplosive,
}

pub open spec fn spec_opaque_rgb(c: ThemeColor) -> Option<Rgb> {
    match c {
        ThemeColor::Background => Some(rgb(5, 8, 15)),
        ThemeColor::Panel => Some(rgb(10, 20, 32)),
        ThemeColor::PanelRaised => Some(rgb(14, 44, 58)),
        ThemeColor::Border => Some(rgb(29, 50, 68)),
        ThemeColor::Accent => Some(rgb(62, 199, 219)),
        ThemeColor::Gold => Some(rgb(255, 209, 117)),
        ThemeColor::Mint => Some(rgb(127, 220, 154)),
        ThemeColor::Player => Some(rgb(143, 224, 196)),
        ThemeColor::Enemy => Some(rgb(255, 107, 92)),
        ThemeColor::Text => Some(rgb(226, 236, 245)),
        ThemeColor::Muted => Some(rgb(109, 130, 153)),
        ThemeColor::BoardStroke => Some(rgb(22, 40, 58)),
        ThemeColor::BoardLight => Some(rgb(13, 24, 38)),
        ThemeColor::BoardDark => Some(rgb(10, 20, 32)),
        ThemeColor::BoardReachable => Some(rgb(20, 87, 108)),
        ThemeColor::BoardSelected => Some(rgb(62, 199, 219)),
        ThemeColor::BoardAttack => Some(rgb(255, 209, 117)),
        ThemeColor::BoardAttackInset => Some(rgb(82, 64, 31)),
        ThemeColor::BoardInspected => Some(rgb(255, 156, 96)),
        ThemeColor::BoardTelegraph => None,
        ThemeColor::BoardExtraction => None,
        ThemeColor::BoardHazard => None,
        ThemeColor::BoardExplosive => None,
    }
}

/// The 8-bit sRGB value of an opaque palette colour; `None` for the
/// translucent board overlays.
pub fn opaque_rgb(c: ThemeColor) -> (v: Option<Rgb>)
    ensures
        v == spec_opaque_rgb(c),
{
    match c {
        ThemeColor::Background => Some(Rgb { r: 5, g: 8, b: 15 }),
        ThemeColor::Panel => Some(Rgb { r: 10, g: 20, b: 32 }),
        ThemeColor::PanelRaised => Some(Rgb { r: 14, g: 44, b: 58 }),
        ThemeColor::Border => Some(Rgb { r: 29, g: 50, b: 68 }),
        ThemeColor::Accent => Some(Rgb { r: 62, g: 199, b: 219 }),
        ThemeColor::Gold => Some(Rgb { r: 255, g: 209, b: 117 }),
        ThemeColor::Mint => Some(Rgb { r: 127, g: 220, b: 154 }),
        ThemeColor::Player => Some(Rgb { r: 143, g: 224, b: 196 }),
        ThemeColor::Enemy => Some(Rgb { r: 255, g: 107, b: 92 }),
        ThemeColor::Text => Some(Rgb { r: 226, g: 236, b: 245 }),
        ThemeColor::Muted => Some(Rgb { r: 109, g: 130, b: 153 }),
        ThemeColor::BoardStroke => Some(Rgb { r: 22, g: 40, b: 58 }),
        ThemeColor::BoardLight => Some(Rgb { r: 13, g: 24, b: 38 }),
        ThemeColor::BoardDark => Some(Rgb { r: 10, g: 20, b: 32 }),
        ThemeColor::BoardReachable => Some(Rgb { r: 20, g: 87, b: 108 }),
        ThemeColor::BoardSelected => Some(Rgb { r: 62, g: 199, b: 219 }),
        ThemeColor::BoardAttack => Some(Rgb { r: 255, g: 209, b: 117 }),
        ThemeColor::BoardAttackInset => Some(Rgb { r: 82, g: 64, b: 31 }),
        ThemeColor::BoardInspected => Some(Rgb { r: 255, g: 156, b: 96 }),
        ThemeColor::BoardTelegraph => None,
        ThemeColor::BoardExtraction => None,
        ThemeColor::BoardHazard => None,
        ThemeColor::BoardExplosive => None,
    }
}

/// Edge of one square cell of the icon atlas.
pub const ICON_CELL: u32 = 64;

/// Crop of atlas slot `slot`: eight 64px cells per row. The slot must keep
/// the crop inside `i32` pixel coordinates.
pub fn icon_rect(slot: u32) -> (r: PixelRect)
    requires
        slot < 0x0800_0000,
    ensures
        r.min_x == (slot % 8) * 64,
        r.min_y == (slot / 8) * 64,
        r.max_x == r.min_x + 64,
        r.max_y == r.min_y + 64,
{
    let x = ((slot % 8) * ICON_CELL) as i32;
    let y = ((slot / 8) * ICON_CELL) as i32;
    PixelRect { min_x: x, min_y: y, max_x: x + 64, max_y: y + 64 }
}

/// Icons that screen decisions choose between.
#[derive(Clone, Copy, Debug, PartialEq, Eq, Structural)]
pub enum Icon {
    GlyphHex,
    GlyphDiamond,
    GlyphTriangle,
    GlyphSquare,
    Move,
    Attack,
    Guard,
    Counter,
    Evade,
    Skill,
    Wait,
    Back,
    ForwardCompact,
    BattleRestart,
    ResultPrimary,
    ResultBonus,
    ResultVictory,
    ResultDefeat,
}

/// Atlas slot of the icons packed in whole cells.
pub open spec fn spec_icon_slot(icon: Icon) -> Option<u32> {
    match icon {
        Icon::GlyphHex => Some(51),
        Icon::GlyphDiamond => Some(52),
        Icon::GlyphTriangle => Some(53),
        Icon::GlyphSquare => Some(54),
        Icon::Move => Some(55),
        Icon::Attack => Some(56),
        Icon::Guard => Some(57),
        Icon::Counter => Some(58),
        Icon::Evade => Some(59),
        Icon::Skill => Some(60),
        Icon::Wait => Some(61),
        Icon::Back => Some(62),
        _ => None,
    }
}

pub open spec fn spec_cropped_icon_rect(icon: Icon) -> PixelRect {
    match icon {
        Icon::ForwardCompact => PixelRect { min_x: 14, min_y: 398, max_x: 50, max_y: 434 },
        Icon::BattleRestart => PixelRect { min_x: 469, min_y: 149, max_x: 493, max_y: 173 },
        Icon::ResultPrimary => PixelRect { min_x: 276, min_y: 340, max_x: 300, max_y: 364 },
        Icon::ResultBonus => PixelRect { min_x: 340, min_y: 340, max_x: 364, max_y: 364 },
        Icon::ResultVictory => PixelRect { min_x: 132, min_y: 324, max_x: 188, max_y: 380 },
        _ => PixelRect { min_x: 196, min_y: 324, max_x: 252, max_y: 380 },
    }
}

/// The atlas crop of an icon.
pub fn atlas_rect(icon: Icon) -> (r: PixelRect)
    ensures
        match spec_icon_slot(icon) {
            Some(slot) => r.min_x == (slot % 8) * 64 && r.min_y == (slot / 8) * 64 && r.max_x
                == r.min_x + 64 && r.max_y == r.min_y + 64,
            None => r == spec_cropped_icon_rect(icon),
        },
{
    match icon {
        Icon::GlyphHex => icon_rect(51),
        Icon::GlyphDiamond => icon_rect(52),
        Icon::GlyphTriangle => icon_rect(53),
        Icon::GlyphSquare => icon_rect(54),
        Icon::Move => icon_rect(55),
        Icon::Attack => icon_rect(56),
        Icon::Guard => icon_rect(57),
        Icon::Counter => icon_rect(58),
        Icon::Evade => icon_rect(59),
        Icon::Skill => icon_rect(60),
        Icon::Wait => icon_rect(61),
        Icon::Back => icon_rect(62),
        Icon::ForwardCompact => PixelRect { min_x: 14, min_y: 398, max_x: 50, max_y: 434 },
        Icon::BattleRestart => PixelRect { min_x: 469, min_y: 149, max_x: 493, max_y: 173 },
        Icon::ResultPrimary => PixelRect { min_x: 276, min_y: 340, max_x: 300, max_y: 364 },
        Icon::ResultBonus => PixelRect { min_x: 340, min_y: 340, max_x: 364, max_y: 364 },
        Icon::ResultVictory => PixelRect { min_x: 132, min_y: 324, max_x: 188, max_y: 380 },
        Icon::ResultDefeat => PixelRect { min_x: 196, min_y: 324, max_x: 252, max_y: 380 },
    }
}

#[derive(Clone, Copy, Debug, PartialEq, Eq, Structural)]
pub enum FontFamily {
    ChakraPetch,
    IbmPlexMono,
}

/// Whether a bundled font file exists for this family and weight.
pub open spec fn font_supported(family: FontFamily, weight: u16) -> bool {
    match family {
        FontFamily::ChakraPetch => weight == 400 || weight == 500 || weight == 600 || weight == 700,
        FontFamily::IbmPlexMono => weight == 400 || weight == 500 || weight == 600,
    }
}

/// Position of a face in the seven-entry font catalogue.
pub fn font_index(family: FontFamily, weight: u16) -> (i: usize)
    requires
        font_supported(family, weight),
    ensures
        i < 7,
        family == FontFamily::ChakraPetch ==> i == (weight - 400) / 100,
        family == FontFamily::IbmPlexMono ==> i == 4 + (weight - 400) / 100,
{
    match family {
        FontFamily::ChakraPetch => {
            if weight == 400 {
                0
            } else if weight == 500 {
                1
            } else if weight == 600 {
                2
            } else {
                3
            }
        },
        FontFamily::IbmPlexMono => {
            if weight == 400 {
                4
            } else if weight == 500 {
                5
            } else {
                6
            }
        },
    }
}

/// How a unit is drawn: its glyph, its shadow-footprint crop of the board
/// atlas, and its glyph colour.
#[derive(Clone, Copy, Debug, PartialEq, Eq, Structural)]
pub struct ArchetypeStyle {
    pub glyph: Icon,
    pub footprint: PixelRect,
    pub color: Rgb,
}

/// The token-shadow crop of the board atlas.
pub open spec fn spec_token_shadow_rect() -> PixelRect {
    PixelRect { min_x: 224, min_y: 0, max_x: 336, max_y: 96 }
}

fn token_shadow_rect() -> (r: PixelRect)
    ensures
        r == spec_token_shadow_rect(),
{
    PixelRect { min_x: 224, min_y: 0, max_x: 336, max_y: 96 }
}

pub open spec fn spec_archetype_style(a: UnitArchetype) -> ArchetypeStyle {
    match a {
        UnitArchetype::Vanguard => ArchetypeStyle {
            footprint: spec_token_shadow_rect(), glyph: Icon::GlyphHex, color: rgb(62, 199, 219) },
        UnitArchetype::Gunner => ArchetypeStyle {
            footprint: spec_token_shadow_rect(),
            glyph: Icon::GlyphDiamond,
            color: rgb(127, 191, 232),
        },
        UnitArchetype::Interceptor => ArchetypeStyle {
            footprint: spec_token_shadow_rect(),
            glyph: Icon::GlyphTriangle,
            color: rgb(143, 224, 196),
        },
        UnitArchetype::Rifleman => ArchetypeStyle {
            footprint: spec_token_shadow_rect(),
            glyph: Icon::GlyphSquare,
            color: rgb(255, 143, 128),
        },
        UnitArchetype::Striker => ArchetypeStyle {
            footprint: spec_token_shadow_rect(),
            glyph: Icon::GlyphTriangle,
            color: rgb(255, 107, 92),
        },
        UnitArchetype::Artillery => ArchetypeStyle {
            footprint: spec_token_shadow_rect(),
            glyph: Icon::GlyphDiamond,
            color: rgb(255, 176, 76),
        },
        UnitArchetype::Flanker => ArchetypeStyle {
            footprint: spec_token_shadow_rect(),
            glyph: Icon::GlyphTriangle,
            color: rgb(180, 140, 255),
        },
        UnitArchetype::Bulwark => ArchetypeStyle {
            footprint: spec_token_shadow_rect(),
            glyph: Icon::GlyphSquare,
            color: rgb(255, 209, 117),
        },
        UnitArchetype::Controller => ArchetypeStyle {
            footprint: spec_token_shadow_rect(),
            glyph: Icon::GlyphDiamond,
            color: rgb(95, 200, 232),
        },
        UnitArchetype::Dreadnought => ArchetypeStyle {
            footprint: spec_token_shadow_rect(),
            glyph: Icon::GlyphHex,
            color: rgb(220, 68, 80),
        },
        UnitArchetype::Regent => ArchetypeStyle {
            footprint: spec_token_shadow_rect(),
            glyph: Icon::GlyphHex,
            color: rgb(180, 140, 255),
        },
    }
}

/// Glyph, footprint crop and colour of every archetype; the footprint crop
/// is the token shadow for all of them.
pub fn unit_archetype_style(archetype: UnitArchetype) -> (s: ArchetypeStyle)
    ensures
        s == spec_archetype_style(archetype),
{
    let footprint = token_shadow_rect();
    match archetype {
        UnitArchetype::Vanguard => ArchetypeStyle {
            footprint,
            glyph: Icon::GlyphHex,
            color: Rgb { r: 62, g: 199, b: 219 },
        },
        UnitArchetype::Gunner => ArchetypeStyle {
            footprint,
            glyph: Icon::GlyphDiamond,
            color: Rgb { r: 127, g: 191, b: 232 },
        },
        UnitArchetype::Interceptor => ArchetypeStyle {
            footprint,
            glyph: Icon::GlyphTriangle,
            color: Rgb { r: 143, g: 224, b: 196 },
        },
        UnitArchetype::Rifleman => ArchetypeStyle {
            footprint,
            glyph: Icon::GlyphSquare,
            color: Rgb { r: 255, g: 143, b: 128 },
        },
        UnitArchetype::Striker => ArchetypeStyle {
            footprint,
            glyph: Icon::GlyphTriangle,
            color: Rgb { r: 255, g: 107, b: 92 },
        },
        UnitArchetype::Artillery => ArchetypeStyle {
            footprint,
            glyph: Icon::GlyphDiamond,
            color: Rgb { r: 255, g: 176, b: 76 },
        },
        UnitArchetype::Flanker => ArchetypeStyle {
            footprint,
            glyph: Icon::GlyphTriangle,
            color: Rgb { r: 180, g: 140, b: 255 },
        },
        UnitArchetype::Bulwark => ArchetypeStyle {
            footprint,
            glyph: Icon::GlyphSquare,
            color: Rgb { r: 255, g: 209, b: 117 },
        },
        UnitArchetype::Controller => ArchetypeStyle {
            footprint,
            glyph: Icon::GlyphDiamond,
            color: Rgb { r: 95, g: 200, b: 232 },
        },
        UnitArchetype::Dreadnought => ArchetypeStyle {
            footprint,
            glyph: Icon::GlyphHex,
            color: Rgb { r: 220, g: 68, b: 80 },
        },
        UnitArchetype::Regent => ArchetypeStyle {
            footprint,
            glyph: Icon::GlyphHex,
            color: Rgb { r: 180, g: 140, b: 255 },
        },
    }
}

/// Whether `needle` occurs in `hay` starting at position `i`.
pub open spec fn occurs_at(hay: Seq<char>, needle: Seq<char>, i: int) -> bool {
    0 <= i && i + needle.len() <= hay.len() && hay.subrange(i, i + needle.len()) == needle
}

pub open spec fn contains_text(hay: Seq<char>, needle: Seq<char>) -> bool {
    exists|i: int| occurs_at(hay, needle, i)
}

fn occurs_at_exec(hay: &str, hay_len: usize, needle: &str, needle_len: usize, i: usize) -> (b:
    bool)
    requires
        hay_len == hay@.len(),
        needle_len == needle@.len(),
        i + needle_len <= hay_len,
    ensures
        b == occurs_at(hay@, needle@, i as int),
{
    let mut k: usize = 0;
    while k < needle_len
        invariant
            hay_len == hay@.len(),
            needle_len == needle@.len(),
            i + needle_len <= hay_len,
            k <= needle_len,
            forall|j: int| 0 <= j < k ==> hay@[i + j] == needle@[j],
        decreases needle_len - k,
    {
        if hay.get_char(i + k) != needle.get_char(k) {
            assert(hay@.subrange(i as int, i + needle@.len())[k as int] != needle@[k as int]);
            return false;
        }
        k = k + 1;
    }
    assert(hay@.subrange(i as int, i + needle@.len()) =~= needle@);
    true
}

/// Substring search over characters.
pub fn text_contains(hay: &str, needle: &str) -> (b: bool)
    ensures
        b == contains_text(hay@, needle@),
{
    let hay_len = hay.unicode_len();
    let needle_len = needle.unicode_len();
    if needle_len > hay_len {
        assert(forall|i: int| !occurs_at(hay@, needle@, i));
        return false;
    }
    let last = hay_len - needle_len;
    let mut i: usize = 0;
    loop
        invariant
            hay_len == hay@.len(),
            needle_len == needle@.len(),
            last == hay_len - needle_len,
            i <= last,
            forall|j: int| 0 <= j < i ==> !occurs_at(hay@, needle@, j),
        ensures
            forall|j: int| 0 <= j <= last ==> !occurs_at(hay@, needle@, j),
        decreases last - i,
    {
        if occurs_at_exec(hay, hay_len, needle, needle_len, i) {
            return true;
        }
        if i == last {
            break;
        }
        i = i + 1;
    }
    assert forall|j: int| !occurs_at(hay@, needle@, j) by {
        if occurs_at(hay@, needle@, j) {
            assert(j <= last);
        }
    }
    false
}

pub open spec fn spec_log_dot_color(entry: Seq<char>) -> ThemeColor {
    if contains_text(entry, "MISS"@) || contains_text(entry, "KNOCKED"@) || contains_text(
        entry,
        "FAILED"@,
    ) {
        ThemeColor::Enemy
    } else if contains_text(entry, "HIT"@) || contains_text(entry, "HP"@) || contains_text(
        entry,
        "COLLISION"@,
    ) {
        ThemeColor::Gold
    } else {
        ThemeColor::Mint
    }
}

/// Dot colour of a battle-log line: losses red, damage gold, the rest mint.
pub fn log_dot_color(entry: &str) -> (c: ThemeColor)
    ensures
        c == spec_log_dot_color(entry@),
{
    if text_contains(entry, "MISS") || text_contains(entry, "KNOCKED") || text_contains(
        entry,
        "FAILED",
    ) {
        ThemeColor::Enemy
    } else if text_contains(entry, "HIT") || text_contains(entry, "HP") || text_contains(
        entry,
        "COLLISION",
    ) {
        ThemeColor::Gold
    } else {
        ThemeColor::Mint
    }
}

pub open spec fn spec_shape_cell_active(shape: WeaponShape, index: int) -> bool {
    match shape {
        WeaponShape::Single => index == 4,
        WeaponShape::Cross1 => index == 1 || index == 3 || index == 4 || index == 5 || index == 7,
    }
}

/// Whether cell `index` of the 3×3 shape meter is part of the footprint.
pub fn shape_cell_active(shape: WeaponShape, index: usize) -> (b: bool)
    ensures
        b == spec_shape_cell_active(shape, index as int),
{
    match shape {
        WeaponShape::Single => index == 4,
        WeaponShape::Cross1 => index == 1 || index == 3 || index == 4 || index == 5 || index == 7,
    }
}

pub open spec fn light_cell(cell: GridPos) -> bool {
    (cell.x + cell.y) % 2 == 0
}

pub open spec fn spec_terrain_color(terrain: Terrain, cell: GridPos) -> Rgb {
    match terrain {
        Terrain::Plain => if light_cell(cell) {
            rgb(78, 105, 75)
        } else {
            rgb(72, 98, 70)
        },
        Terrain::Road => rgb(156, 141, 103),
        Terrain::Forest => if light_cell(cell) {
            rgb(34, 76, 51)
        } else {
            rgb(30, 69, 46)
        },
        Terrain::Sea => if light_cell(cell) {
            rgb(25, 81, 116)
        } else {
            rgb(22, 75, 110)
        },
        Terrain::Mountain => rgb(105, 110, 115),
    }
}

/// Checkerboarded regional-map fill of a terrain cell.
pub fn terrain_color(terrain: Terrain, cell: GridPos) -> (c: Rgb)
    ensures
        c == spec_terrain_color(terrain, cell),
{
    let light = (cell.x as u16 + cell.y as u16) % 2 == 0;
    match terrain {
        Terrain::Plain => if light {
            Rgb { r: 78, g: 105, b: 75 }
        } else {
            Rgb { r: 72, g: 98, b: 70 }
        },
        Terrain::Road => Rgb { r: 156, g: 141, b: 103 },
        Terrain::Forest => if light {
            Rgb { r: 34, g: 76, b: 51 }
        } else {
            Rgb { r: 30, g: 69, b: 46 }
        },
        Terrain::Sea => if light {
            Rgb { r: 25, g: 81, b: 116 }
        } else {
            Rgb { r: 22, g: 75, b: 110 }
        },
        Terrain::Mountain => Rgb { r: 105, g: 110, b: 115 },
    }
}

} // verus!
