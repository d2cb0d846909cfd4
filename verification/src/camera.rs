use vstd::prelude::*;
use crate::units::{floor_div, Point, HALF_SPRITE, UNIT, WORLD_LIMIT};

verus! {

/// Width of the logical render surface, in whole units.
pub const RENDER_WIDTH: i64 = 320;

/// Height of the logical render surface, in whole units.
pub const RENDER_HEIGHT: i64 = 180;

/// Largest work-size extent a camera may have, in thousandths.
pub const WORK_LIMIT: i64 = 0x10_0000;

/// The viewport: where it looks, how large its work area is, and its zoom.
#[derive(Clone, Copy, PartialEq, Eq, Structural, Debug)]
pub struct Camera2D {
    pub pos: Point,
    pub work_size: Point,
    pub zoom: i64,
}

/// Pixel index along one axis for a world coordinate: the coordinate times
/// `work / (2 * render)`, plus `offset`, rounded down to a whole pixel.
pub open spec fn mask_axis(coord: int, work: int, render: int, offset: int) -> int {
    (coord * work + offset * (2 * render * UNIT)) / (2 * render * UNIT * UNIT)
}

impl Camera2D {
    /// The work size is positive and within [`WORK_LIMIT`].
    pub open spec fn wf(&self) -> bool {
        0 < self.work_size.x <= WORK_LIMIT && 0 < self.work_size.y <= WORK_LIMIT
    }

    /// Executable form of [`Camera2D::wf`].
    pub fn is_wf(&self) -> (r: bool)
        ensures
            r == self.wf(),
    {
        0 < self.work_size.x && self.work_size.x <= WORK_LIMIT && 0 < self.work_size.y
            && self.work_size.y <= WORK_LIMIT
    }

    /// The mask pixel under world position `p`, shifted by `offset`
    /// thousandths after scaling.
    pub open spec fn mask_pixel(&self, p: (int, int), offset: int) -> (int, int) {
        (
            mask_axis(p.0, self.work_size.x as int, RENDER_WIDTH as int, offset),
            mask_axis(p.1, self.work_size.y as int, RENDER_HEIGHT as int, offset),
        )
    }

    /// A camera at `(x, y)` with the given work size and a zoom of one.
    pub fn new(x: i64, y: i64, width: i64, height: i64) -> (c: Camera2D)
        ensures
            c == (Camera2D {
                pos: Point { x, y },
                work_size: Point { x: width, y: height },
                zoom: UNIT,
            }),
    {
        Camera2D { pos: Point { x, y }, work_size: Point { x: width, y: height }, zoom: UNIT }
    }

    /// Moves the camera.
    pub fn set_position(&mut self, x: i64, y: i64)
        ensures
            *final(self) == (Camera2D { pos: Point { x, y }, ..*old(self) }),
    {
        self.pos = Point { x, y };
    }

    /// Sets the zoom factor, in thousandths.
    pub fn set_zoom(&mut self, zoom: i64)
        ensures
            *final(self) == (Camera2D { zoom, ..*old(self) }),
    {
        self.zoom = zoom;
    }

    /// Maps a world position to the mask pixel beneath it.
    pub fn to_mask(&self, p: Point, offset: i64) -> (px: Point)
        requires
            self.wf(),
            p.within(2 * WORLD_LIMIT),
            0 <= offset <= HALF_SPRITE,
        ensures
            (px.x as int, px.y as int) == self.mask_pixel((p.x as int, p.y as int), offset as int),
    {
        Point {
            x: scale_axis(p.x, self.work_size.x, RENDER_WIDTH, offset),
            y: scale_axis(p.y, self.work_size.y, RENDER_HEIGHT, offset),
        }
    }

    /// Whether `p` lies strictly inside the rectangle that reaches one render
    /// width and one render height from the camera's position on each side.
    pub open spec fn sees(&self, p: Point) -> bool {
        self.pos.x - RENDER_WIDTH * UNIT < p.x < self.pos.x + RENDER_WIDTH * UNIT
            && self.pos.y - RENDER_HEIGHT * UNIT < p.y < self.pos.y + RENDER_HEIGHT * UNIT
    }

    /// Executable form of [`Camera2D::sees`].
    pub fn in_view(&self, p: Point) -> (b: bool)
        ensures
            b == self.sees(p),
    {
        let w: i128 = 320_000;
        let h: i128 = 180_000;
        let cx: i128 = self.pos.x as i128;
        let cy: i128 = self.pos.y as i128;
        let px: i128 = p.x as i128;
        let py: i128 = p.y as i128;
        cx - w < px && px < cx + w && cy - h < py && py < cy + h
    }
}

fn scale_axis(coord: i64, work: i64, render: i64, offset: i64) -> (px: i64)
    requires
        -2 * WORLD_LIMIT <= coord <= 2 * WORLD_LIMIT,
        0 < work <= WORK_LIMIT,
        render == RENDER_WIDTH || render == RENDER_HEIGHT,
        0 <= offset <= HALF_SPRITE,
    ensures
        px == mask_axis(coord as int, work as int, render as int, offset as int),
{
    assert(-0x200_0000_0000 * 0x10_0000 <= coord * work <= 0x200_0000_0000 * 0x10_0000)
        by (nonlinear_arith)
        requires
            -0x200_0000_0000 <= coord <= 0x200_0000_0000,
            0 < work <= 0x10_0000,
    ;
    let per_unit: i64 = 2 * render * UNIT;
    assert(0 <= offset * per_unit <= 16_000 * 640_000) by (nonlinear_arith)
        requires
            0 <= offset <= 16_000,
            0 < per_unit <= 640_000,
    ;
    let num: i64 = coord * work + offset * per_unit;
    floor_div(num, per_unit * UNIT)
}

} // verus!
