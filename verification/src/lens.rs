//! Geometry resolver: maps the two corner points of a drag gesture to a
//! normalized capture rectangle.

use vstd::prelude::*;

verus! {

/// Minimum width a capture rectangle must have to start a session.
pub const MIN_WIDTH: i64 = 10;

/// Minimum height a capture rectangle must have to start a session.
pub const MIN_HEIGHT: i64 = 10;

/// Largest magnitude a screen coordinate may have; keeps the deltas
/// computed by the resolver within `i64`.
pub const COORD_LIMIT: i64 = 0x4000_0000_0000_0000;

/// True when a coordinate pair is within the range the resolver accepts.
pub open spec fn in_coord_range(p: (i64, i64)) -> bool {
    &&& -COORD_LIMIT < p.0 < COORD_LIMIT
    &&& -COORD_LIMIT < p.1 < COORD_LIMIT
}

/// Mathematical model of a capture rectangle.
pub struct LensModel {
    pub x: int,
    pub y: int,
    pub width: int,
    pub height: int,
}

/// A coordinate clamped to be non-negative.
pub open spec fn clamp_low(v: int) -> int {
    if v < 0 {
        0
    } else {
        v
    }
}

/// What resolving a drag from `(sx, sy)` to `(ex, ey)` yields: the origin
/// is the corner with the smaller coordinate on each axis, clamped to be
/// non-negative, and the extents are the absolute deltas; a zero delta on
/// either axis yields the zero rectangle.
pub open spec fn resolve_spec(sx: int, sy: int, ex: int, ey: int) -> LensModel {
    let dx = ex - sx;
    let dy = ey - sy;
    if dx > 0 && dy > 0 {
        LensModel { x: clamp_low(sx), y: clamp_low(sy), width: dx, height: dy }
    } else if dx < 0 && dy < 0 {
        LensModel { x: clamp_low(ex), y: clamp_low(ey), width: -dx, height: -dy }
    } else if dx > 0 && dy < 0 {
        LensModel { x: clamp_low(sx), y: clamp_low(ey), width: dx, height: -dy }
    } else if dx < 0 && dy > 0 {
        LensModel { x: clamp_low(ex), y: clamp_low(sy), width: -dx, height: dy }
    } else {
        LensModel { x: 0, y: 0, width: 0, height: 0 }
    }
}

/// The normalized capture rectangle resolved from a drag gesture, in
/// device pixels: origin at the top-left, non-negative extents.
#[derive(Clone, Copy, Debug, PartialEq, Eq, Structural)]
pub struct Lens {
    pub x: i64,
    pub y: i64,
    pub width: i64,
    pub height: i64,
}

impl View for Lens {
    type V = LensModel;

    open spec fn view(&self) -> LensModel {
        LensModel { x: self.x as int, y: self.y as int, width: self.width as int, height: self.height as int }
    }
}

impl Lens {
    /// All fields of a resolved rectangle are non-negative.
    pub open spec fn wf(self) -> bool {
        &&& self.x >= 0
        &&& self.y >= 0
        &&& self.width >= 0
        &&& self.height >= 0
    }

    /// Resolves the two corner points of a drag into a normalized
    /// rectangle, as `resolve_spec` describes.
    pub fn from(start_point: (i64, i64), end_point: (i64, i64)) -> (r: Lens)
        requires
            in_coord_range(start_point),
            in_coord_range(end_point),
        ensures
            r@ == resolve_spec(start_point.0 as int, start_point.1 as int, end_point.0 as int, end_point.1 as int),
            r.wf(),
    {
        let x_v = end_point.0 - start_point.0;
        let y_v = end_point.1 - start_point.1;

        let x: i64;
        let y: i64;
        let width: i64;
        let height: i64;
        if x_v > 0 && y_v > 0 {
            x = start_point.0;
            y = start_point.1;
            width = x_v;
            height = y_v;
        } else if x_v < 0 && y_v < 0 {
            x = end_point.0;
            y = end_point.1;
            width = -x_v;
            height = -y_v;
        } else if x_v > 0 && y_v < 0 {
            x = start_point.0;
            y = end_point.1;
            width = x_v;
            height = -y_v;
        } else if x_v < 0 && y_v > 0 {
            x = end_point.0;
            y = start_point.1;
            width = -x_v;
            height = y_v;
        } else {
            x = 0;
            y = 0;
            width = 0;
            height = 0;
        }

        let x: i64 = if x < 0 { 0 } else { x };
        let y: i64 = if y < 0 { 0 } else { y };

        Lens { x, y, width, height }
    }

    /// True when both extents reach the configured minimum capture size.
    pub fn meets_min(&self) -> (r: bool)
        ensures
            r == lens_meets_min(self@),
    {
        self.width >= MIN_WIDTH && self.height >= MIN_HEIGHT
    }
}

/// The minimum-size policy: a rectangle below the configured minimum on
/// either axis must not start a capture.
pub open spec fn lens_meets_min(m: LensModel) -> bool {
    m.width >= MIN_WIDTH && m.height >= MIN_HEIGHT
}

/// Width of the border the overlay window adds around the capture.
pub const BORDER_WIDTH: i64 = 5;

/// Position and size of the overlay window for a capture, in logical
/// pixels.
#[derive(Clone, Copy, Debug, PartialEq, Eq, Structural)]
pub struct Placement {
    pub x: i64,
    pub y: i64,
    pub width: i64,
    pub height: i64,
}

impl Lens {
    /// This rectangle divided by a per-monitor scale factor, given in
    /// percent, truncating each coordinate: device pixels are divided
    /// down to the capture provider's logical pixels before a capture.
    pub fn scaled(&self, scale_percent: u32) -> (r: Lens)
        requires
            self.wf(),
            1 <= scale_percent,
            self.x * 100 <= i64::MAX,
            self.y * 100 <= i64::MAX,
            self.width * 100 <= i64::MAX,
            self.height * 100 <= i64::MAX,
        ensures
            r.x == self.x * 100 / (scale_percent as int),
            r.y == self.y * 100 / (scale_percent as int),
            r.width == self.width * 100 / (scale_percent as int),
            r.height == self.height * 100 / (scale_percent as int),
            r.wf(),
    {
        let s = scale_percent as i64;
        Lens {
            x: (self.x * 100) / s,
            y: (self.y * 100) / s,
            width: (self.width * 100) / s,
            height: (self.height * 100) / s,
        }
    }
}

/// Where the overlay window for a capture goes and how big it is: the
/// captured image scaled back to logical pixels, with the border added
/// on every side, placed so the border surrounds the captured region.
pub fn overlay_placement(lens: &Lens, image_width: u32, image_height: u32, scale_percent: u32) -> (p:
    Placement)
    requires
        lens.wf(),
        1 <= scale_percent,
        lens.x * 100 <= i64::MAX,
        lens.y * 100 <= i64::MAX,
    ensures
        p.x == lens.x * 100 / (scale_percent as int) - BORDER_WIDTH,
        p.y == lens.y * 100 / (scale_percent as int) - BORDER_WIDTH,
        p.width == (image_width as int) * 100 / (scale_percent as int) + 2 * BORDER_WIDTH,
        p.height == (image_height as int) * 100 / (scale_percent as int) + 2 * BORDER_WIDTH,
{
    let s = scale_percent as i64;
    Placement {
        x: (lens.x * 100) / s - BORDER_WIDTH,
        y: (lens.y * 100) / s - BORDER_WIDTH,
        width: ((image_width as i64) * 100) / s + 2 * BORDER_WIDTH,
        height: ((image_height as i64) * 100) / s + 2 * BORDER_WIDTH,
    }
}

/// Law: when the drag moves right and down from a non-negative start, the
/// resolved origin is the start point and the extents are the deltas.
pub proof fn lemma_resolve_positive_delta(sx: int, sy: int, ex: int, ey: int)
    requires
        0 <= sx,
        0 <= sy,
        sx < ex,
        sy < ey,
    ensures
        resolve_spec(sx, sy, ex, ey) == (LensModel { x: sx, y: sy, width: ex - sx, height: ey - sy }),
{
}

/// Law: whenever both deltas are non-zero, the resolved origin is the
/// elementwise minimum of the two corners clamped to be non-negative, and
/// the extents are the absolute deltas.
pub proof fn lemma_resolve_min_corner(sx: int, sy: int, ex: int, ey: int)
    requires
        ex != sx,
        ey != sy,
    ensures
        resolve_spec(sx, sy, ex, ey).x == clamp_low(if sx <= ex { sx } else { ex }),
        resolve_spec(sx, sy, ex, ey).y == clamp_low(if sy <= ey { sy } else { ey }),
        resolve_spec(sx, sy, ex, ey).width == (if ex - sx >= 0 { ex - sx } else { sx - ex }),
        resolve_spec(sx, sy, ex, ey).height == (if ey - sy >= 0 { ey - sy } else { sy - ey }),
{
}

/// Law: the resolved extents are never negative, for any input.
pub proof fn lemma_resolve_extents_nonneg(sx: int, sy: int, ex: int, ey: int)
    ensures
        resolve_spec(sx, sy, ex, ey).width >= 0,
        resolve_spec(sx, sy, ex, ey).height >= 0,
{
}

/// Law: a drag with zero delta resolves to the zero rectangle.
pub proof fn lemma_resolve_zero_delta(px: int, py: int)
    ensures
        resolve_spec(px, py, px, py) == (LensModel { x: 0, y: 0, width: 0, height: 0 }),
{
}

/// Law: the resolved origin is never negative, even when the raw minimum
/// corner would be.
pub proof fn lemma_resolve_origin_nonneg(sx: int, sy: int, ex: int, ey: int)
    ensures
        resolve_spec(sx, sy, ex, ey).x >= 0,
        resolve_spec(sx, sy, ex, ey).y >= 0,
{
}

} // verus!
