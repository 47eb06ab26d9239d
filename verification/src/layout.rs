//! Board geometry of the fixed 1920×1080 design canvas, in whole design pixels.
//!
//! Every board anchor is an integer pixel: the isometric projection uses the
//! half tile sizes 56 and 28 and an integer origin.
use vstd::prelude::*;
use crate::model::GridPos;

verus! {

pub const DESIGN_WIDTH: i32 = 1920;
pub const DESIGN_HEIGHT: i32 = 1080;
pub const BATTLE_STAGE_WIDTH: i32 = 1008;
pub const BATTLE_STAGE_HEIGHT: i32 = 764;
pub const TILE_WIDTH: i32 = 112;
pub const TILE_HEIGHT: i32 = 56;
pub const BLOCK_HEIGHT: i32 = 26;
pub const ISO_ORIGIN_X: i32 = 960;
pub const ISO_ORIGIN_Y: i32 = 394;
pub const ISO_ORIGIN_STAGE_X: i32 = 504;
pub const ISO_ORIGIN_STAGE_Y: i32 = 190;
pub const TOKEN_WIDTH: i32 = 76;
pub const TOKEN_HEIGHT: i32 = 64;
pub const BATTLE_GRID_WIDTH: u8 = 9;
pub const BATTLE_GRID_HEIGHT: u8 = 9;

/// A point in design pixels.
#[derive(Clone, Copy, Debug, PartialEq, Eq, Structural)]
pub struct PixelPoint {
    pub x: i32,
    pub y: i32,
}

/// An axis-aligned rectangle in design pixels, `min` inclusive.
#[derive(Clone, Copy, Debug, PartialEq, Eq, Structural)]
pub struct PixelRect {
    pub min_x: i32,
    pub min_y: i32,
    pub max_x: i32,
    pub max_y: i32,
}

pub open spec fn spec_iso_center_x(pos: GridPos) -> int {
    960 + (pos.x - pos.y) * 56
}

pub open spec fn spec_iso_center_y(pos: GridPos) -> int {
    394 + (pos.x + pos.y) * 28
}

/// The board stage's rectangle on the design canvas.
pub fn battle_stage_rect() -> (r: PixelRect)
    ensures
        r.min_x == 456 && r.min_y == 204 && r.max_x == 1464 && r.max_y == 968,
        r.max_x - r.min_x == BATTLE_STAGE_WIDTH,
        r.max_y - r.min_y == BATTLE_STAGE_HEIGHT,
{
    PixelRect { min_x: 456, min_y: 204, max_x: 1464, max_y: 968 }
}

/// Centre of a cell's diamond on the design canvas.
pub fn iso_center(pos: GridPos) -> (p: PixelPoint)
    ensures
        p.x == spec_iso_center_x(pos),
        p.y == spec_iso_center_y(pos),
{
    let x = pos.x as i32;
    let y = pos.y as i32;
    PixelPoint { x: ISO_ORIGIN_X + (x - y) * 56, y: ISO_ORIGIN_Y + (x + y) * 28 }
}

/// The bounding box of a cell's diamond.
pub fn tile_bounds(pos: GridPos) -> (r: PixelRect)
    ensures
        r.min_x == spec_iso_center_x(pos) - 56,
        r.max_x == spec_iso_center_x(pos) + 56,
        r.min_y == spec_iso_center_y(pos) - 28,
        r.max_y == spec_iso_center_y(pos) + 28,
{
    let c = iso_center(pos);
    PixelRect {
        min_x: c.x - 56,
        min_y: c.y - 28,
        max_x: c.x + 56,
        max_y: c.y + 28,
    }
}

/// Painter's order of a cell: larger keys are nearer the viewer.
pub fn depth_key(pos: GridPos) -> (k: i16)
    ensures
        k == pos.x + pos.y,
{
    pos.x as i16 + pos.y as i16
}

/// A cell's centre relative to the board stage's top-left corner.
pub fn stage_point(cell: GridPos) -> (p: PixelPoint)
    ensures
        p.x == spec_iso_center_x(cell) - 456,
        p.y == spec_iso_center_y(cell) - 204,
        p.x == 504 + (cell.x - cell.y) * 56,
        p.y == 190 + (cell.x + cell.y) * 28,
{
    let c = iso_center(cell);
    let stage = battle_stage_rect();
    PixelPoint { x: c.x - stage.min_x, y: c.y - stage.min_y }
}

/// Top-left corner of a unit's token node on the stage.
pub fn token_node_position(cell: GridPos) -> (p: PixelPoint)
    ensures
        p.x == spec_iso_center_x(cell) - 456 - 38,
        p.y == spec_iso_center_y(cell) - 204 - TOKEN_HEIGHT - 4,
{
    let c = stage_point(cell);
    PixelPoint { x: c.x - 38, y: c.y - TOKEN_HEIGHT - 4 }
}

/// Top-left corner of a unit's shadow footprint on the stage.
pub fn footprint_node_position(cell: GridPos) -> (p: PixelPoint)
    ensures
        p.x == spec_iso_center_x(cell) - 456 - 56,
        p.y == spec_iso_center_y(cell) - 204 - 68,
{
    let c = stage_point(cell);
    PixelPoint { x: c.x - 56, y: c.y - 68 }
}

/// Top-left corner of a cell-sized marker (selection, target, cell node).
pub fn cell_node_position(cell: GridPos) -> (p: PixelPoint)
    ensures
        p.x == spec_iso_center_x(cell) - 456 - 56,
        p.y == spec_iso_center_y(cell) - 204 - 28,
{
    let c = stage_point(cell);
    PixelPoint { x: c.x - 56, y: c.y - 28 }
}

/// Top-left corner of a marker of the given size centred on `center`,
/// shifted down by `top_offset`; an odd size's half rounds down. The corner
/// must fit in `i32` pixels.
pub fn marker_position(center: PixelPoint, width: i32, height: i32, top_offset: i32) -> (p:
    PixelPoint)
    requires
        0 <= width,
        0 <= height,
        i32::MIN <= center.x - width / 2,
        i32::MIN <= center.y - height / 2,
        i32::MIN <= center.y - height / 2 + top_offset <= i32::MAX,
    ensures
        p.x == center.x - width / 2,
        p.y == center.y - height / 2 + top_offset,
{
    PixelPoint { x: center.x - width / 2, y: center.y - height / 2 + top_offset }
}

/// Every cell of a `width`×`height` board, row by row.
pub fn mission_grid_cells(width: u8, height: u8) -> (cells: Vec<GridPos>)
    ensures
        cells@.len() == width * height,
        forall|i: int|
            0 <= i < cells@.len() ==> (#[trigger] cells@[i]).x == i % (width as int) && cells@[i].y
                == i / (width as int),
{
    let mut cells: Vec<GridPos> = Vec::new();
    let mut y: u8 = 0;
    while y < height
        invariant
            y <= height,
            cells@.len() == y * width,
            forall|i: int|
                0 <= i < cells@.len() ==> (#[trigger] cells@[i]).x == i % (width as int)
                    && cells@[i].y == i / (width as int),
        decreases height - y,
    {
        let mut x: u8 = 0;
        while x < width
            invariant
                y < height,
                x <= width,
                cells@.len() == y * width + x,
                forall|i: int|
                    0 <= i < cells@.len() ==> (#[trigger] cells@[i]).x == i % (width as int)
                        && cells@[i].y == i / (width as int),
            decreases width - x,
        {
            proof {
                let n = y * width + x;
                assert(n % (width as int) == x && n / (width as int) == y) by (nonlinear_arith)
                    requires
                        n == y * width + x,
                        0 <= x < width,
                        0 <= y,
                ;
            }
            cells.push(GridPos { x, y });
            x = x + 1;
        }
        proof {
            assert((y + 1) * width == y * width + width) by (nonlinear_arith);
        }
        y = y + 1;
    }
    cells
}

/// Distinct cells of the authored board never share a diamond centre.
pub proof fn lemma_iso_center_injective(a: GridPos, b: GridPos)
    requires
        spec_iso_center_x(a) == spec_iso_center_x(b),
        spec_iso_center_y(a) == spec_iso_center_y(b),
    ensures
        a == b,
{
}

/// Every diamond of the authored 9×9 board lies inside the board stage.
pub proof fn lemma_authored_tiles_inside_stage(pos: GridPos)
    requires
        pos.x < BATTLE_GRID_WIDTH,
        pos.y < BATTLE_GRID_HEIGHT,
    ensures
        456 <= spec_iso_center_x(pos) - 56,
        spec_iso_center_x(pos) + 56 <= 1464,
        204 <= spec_iso_center_y(pos) - 28,
        spec_iso_center_y(pos) + 28 <= 968,
{
}

/// Cells later in painter's order sit lower on screen.
pub proof fn lemma_depth_orders_rows(a: GridPos, b: GridPos)
    requires
        a.x + a.y < b.x + b.y,
    ensures
        spec_iso_center_y(a) < spec_iso_center_y(b),
{
}

/// Top-left corner of a unit's 32px reaction badge, above its token.
pub fn reaction_badge_position(cell: GridPos) -> (p: PixelPoint)
    ensures
        p.x == spec_iso_center_x(cell) - 456 - 16,
        p.y == spec_iso_center_y(cell) - 204 - 64,
{
    let c = stage_point(cell);
    PixelPoint { x: c.x - 16, y: c.y - 48 - 16 }
}

/// Whether a board is larger than the authored 9×9 stage and needs the
/// pannable regional map view.
pub fn is_regional(width: u8, height: u8) -> (b: bool)
    ensures
        b == (width > BATTLE_GRID_WIDTH || height > BATTLE_GRID_HEIGHT),
{
    width > BATTLE_GRID_WIDTH || height > BATTLE_GRID_HEIGHT
}

} // verus!
