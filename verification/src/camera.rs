//! The camera: maps world coordinates to screen coordinates and back, with
//! a rational zoom factor and either a simple follow or a bounded follow
//! that keeps the visible rectangle inside the map.
//!
//! `worldToScreen(p) = (p - position) * zoom + viewport / 2`, and
//! `screenToWorld` is its inverse up to the rounding of integer division:
//! exact for whole-number zoom, and within one millipixel whenever
//! `zoom >= 1` (see `lemma_screen_world_round_trip`).

use vstd::arithmetic::div_mod::{
    lemma_fundamental_div_mod, lemma_fundamental_div_mod_converse, lemma_mod_bound,
};
use vstd::prelude::*;

use crate::arith::{div_floor, lemma_mul_bound};

use crate::geometry::{clamp_i64, clamp_spec, Recti, Vec2i, WORLD_LIMIT};

verus! {

/// Screen coordinates handed to `screen_to_world` stay within this bound.
pub const SCREEN_LIMIT: i64 = 10_000_000_000_000;

/// Largest zoom numerator and denominator the camera admits.
pub const ZOOM_LIMIT: i64 = 10_000;

/// The camera focus can sit this far out: a zoomed-out bounded follow may
/// park it up to a viewport half-extent beyond the map edge.
pub const CAMERA_POS_LIMIT: i64 = 2_000_000_000_000;

/// A world-space focus point, a viewport size in screen millipixels, and a
/// positive rational zoom factor `zoom_num / zoom_den`.
#[derive(Clone, Copy, Debug, PartialEq, Eq, Structural)]
pub struct GameCamera {
    pub position: Vec2i,
    pub viewport_size: Vec2i,
    pub zoom_num: i64,
    pub zoom_den: i64,
}

/// One axis of the world-to-screen transform.
pub open spec fn world_to_screen_axis(p: int, pos: int, vp: int, zn: int, zd: int) -> int {
    (p - pos) * zn / zd + vp / 2
}

/// One axis of the screen-to-world transform.
pub open spec fn screen_to_world_axis(q: int, pos: int, vp: int, zn: int, zd: int) -> int {
    (q - vp / 2) * zd / zn + pos
}

impl GameCamera {
    /// The camera's invariant: the zoom is a positive rational with small
    /// numerator and denominator, the viewport is in-world, and the focus
    /// sits within `CAMERA_POS_LIMIT`.
    pub open spec fn wf(self) -> bool {
        &&& 1 <= self.zoom_num <= ZOOM_LIMIT
        &&& 1 <= self.zoom_den <= ZOOM_LIMIT
        &&& -CAMERA_POS_LIMIT <= self.position.x <= CAMERA_POS_LIMIT
        &&& -CAMERA_POS_LIMIT <= self.position.y <= CAMERA_POS_LIMIT
        &&& 0 <= self.viewport_size.x <= WORLD_LIMIT
        &&& 0 <= self.viewport_size.y <= WORLD_LIMIT
    }

    /// A fresh camera at the origin with the given viewport and a
    /// two-and-a-half-times zoom, the scale the game is drawn at.
    pub fn new(viewport_size: Vec2i) -> (cam: GameCamera)
        requires
            0 <= viewport_size.x <= WORLD_LIMIT,
            0 <= viewport_size.y <= WORLD_LIMIT,
        ensures
            cam.wf(),
            cam.position == (Vec2i { x: 0, y: 0 }),
            cam.viewport_size == viewport_size,
            cam.zoom_num == 5,
            cam.zoom_den == 2,
    {
        GameCamera { position: Vec2i { x: 0, y: 0 }, viewport_size, zoom_num: 5, zoom_den: 2 }
    }

    /// Record a new window size; must be called before `update` whenever the
    /// window changes, since the bounded follow's clamp depends on it.
    pub fn update_viewport_size(&mut self, viewport_size: Vec2i)
        requires
            old(self).wf(),
            0 <= viewport_size.x <= WORLD_LIMIT,
            0 <= viewport_size.y <= WORLD_LIMIT,
        ensures
            final(self).wf(),
            final(self).viewport_size == viewport_size,
            final(self).position == old(self).position,
            final(self).zoom_num == old(self).zoom_num,
            final(self).zoom_den == old(self).zoom_den,
    {
        self.viewport_size = viewport_size;
    }

    /// Simple follow: center the camera on the target unconditionally.
    pub fn update(&mut self, target_position: Vec2i)
        requires
            old(self).wf(),
            target_position.in_world(),
        ensures
            final(self).wf(),
            final(self).position == target_position,
            final(self).viewport_size == old(self).viewport_size,
            final(self).zoom_num == old(self).zoom_num,
            final(self).zoom_den == old(self).zoom_den,
    {
        self.position = target_position;
    }

    /// The world-space half-extent of the viewport along one axis: half the
    /// viewport, divided by the zoom.
    pub open spec fn half_extent_axis(vp: int, zn: int, zd: int) -> int {
        (vp / 2) * zd / zn
    }

    /// Where the bounded follow puts the camera on one axis: the target,
    /// clamped to the ordered range between the two centers that align the
    /// viewport edges with the map edges. When the map is smaller than the
    /// viewport the two candidates cross and the ordered range pins the
    /// axis between them.
    pub open spec fn bounded_axis(target: int, lo_edge: int, extent: int, half: int) -> int {
        let a = lo_edge + half;
        let b = lo_edge + extent - half;
        if a <= b {
            clamp_spec(target, a, b)
        } else {
            clamp_spec(target, b, a)
        }
    }

    /// Bounded follow: center on the target, but clamp each axis so the
    /// visible rectangle stays inside `bounds` where it can.
    pub fn update_bounded(&mut self, target_position: Vec2i, bounds: Recti)
        requires
            old(self).wf(),
            target_position.in_world(),
            bounds.in_world(),
        ensures
            final(self).wf(),
            final(self).position.x == Self::bounded_axis(
                target_position.x as int,
                bounds.x as int,
                bounds.w as int,
                Self::half_extent_axis(
                    old(self).viewport_size.x as int,
                    old(self).zoom_num as int,
                    old(self).zoom_den as int,
                ),
            ),
            final(self).position.y == Self::bounded_axis(
                target_position.y as int,
                bounds.y as int,
                bounds.h as int,
                Self::half_extent_axis(
                    old(self).viewport_size.y as int,
                    old(self).zoom_num as int,
                    old(self).zoom_den as int,
                ),
            ),
            final(self).viewport_size == old(self).viewport_size,
            final(self).zoom_num == old(self).zoom_num,
            final(self).zoom_den == old(self).zoom_den,
    {
        let half_x = self.half_extent_x();
        let half_y = self.half_extent_y();
        let x = Self::clamp_axis(target_position.x, bounds.x, bounds.w, half_x);
        let y = Self::clamp_axis(target_position.y, bounds.y, bounds.h, half_y);
        self.position = Vec2i { x, y };
    }

    /// The world-space half-width of the viewport.
    fn half_extent_x(&self) -> (r: i64)
        requires
            self.wf(),
        ensures
            r == Self::half_extent_axis(
                self.viewport_size.x as int,
                self.zoom_num as int,
                self.zoom_den as int,
            ),
            0 <= r <= WORLD_LIMIT * ZOOM_LIMIT,
    {
        proof {
            lemma_half_extent_bounds(
                self.viewport_size.x as int,
                self.zoom_num as int,
                self.zoom_den as int,
            );
        }
        self.viewport_size.x / 2 * self.zoom_den / self.zoom_num
    }

    /// The world-space half-height of the viewport.
    fn half_extent_y(&self) -> (r: i64)
        requires
            self.wf(),
        ensures
            r == Self::half_extent_axis(
                self.viewport_size.y as int,
                self.zoom_num as int,
                self.zoom_den as int,
            ),
            0 <= r <= WORLD_LIMIT * ZOOM_LIMIT,
    {
        proof {
            lemma_half_extent_bounds(
                self.viewport_size.y as int,
                self.zoom_num as int,
                self.zoom_den as int,
            );
        }
        self.viewport_size.y / 2 * self.zoom_den / self.zoom_num
    }

    /// Clamp a target coordinate to the ordered range between the two edge
    /// alignment candidates.
    fn clamp_axis(target: i64, lo_edge: i64, extent: i64, half: i64) -> (r: i64)
        requires
            -WORLD_LIMIT <= target <= WORLD_LIMIT,
            -WORLD_LIMIT <= lo_edge,
            lo_edge + extent <= WORLD_LIMIT,
            extent >= 0,
            0 <= half <= WORLD_LIMIT * ZOOM_LIMIT,
        ensures
            r == Self::bounded_axis(target as int, lo_edge as int, extent as int, half as int),
            -CAMERA_POS_LIMIT <= r <= CAMERA_POS_LIMIT,
    {
        let a = lo_edge + half;
        let b = lo_edge + extent - half;
        if a <= b {
            clamp_i64(target, a, b)
        } else {
            clamp_i64(target, b, a)
        }
    }

    /// Project a world position to screen coordinates.
    pub fn world_to_screen(&self, world_position: Vec2i) -> (r: Vec2i)
        requires
            self.wf(),
            world_position.in_world(),
        ensures
            r.x == world_to_screen_axis(
                world_position.x as int,
                self.position.x as int,
                self.viewport_size.x as int,
                self.zoom_num as int,
                self.zoom_den as int,
            ),
            r.y == world_to_screen_axis(
                world_position.y as int,
                self.position.y as int,
                self.viewport_size.y as int,
                self.zoom_num as int,
                self.zoom_den as int,
            ),
    {
        proof {
            lemma_mul_bound(
                world_position.x - self.position.x,
                WORLD_LIMIT + CAMERA_POS_LIMIT,
                self.zoom_num as int,
                ZOOM_LIMIT as int,
            );
            lemma_mul_bound(
                world_position.y - self.position.y,
                WORLD_LIMIT + CAMERA_POS_LIMIT,
                self.zoom_num as int,
                ZOOM_LIMIT as int,
            );
        }
        let x = div_floor((world_position.x - self.position.x) * self.zoom_num, self.zoom_den)
            + self.viewport_size.x / 2;
        let y = div_floor((world_position.y - self.position.y) * self.zoom_num, self.zoom_den)
            + self.viewport_size.y / 2;
        Vec2i { x, y }
    }

    /// Map a screen position (a pointer click) back to world coordinates.
    pub fn screen_to_world(&self, screen_position: Vec2i) -> (r: Vec2i)
        requires
            self.wf(),
            -SCREEN_LIMIT <= screen_position.x <= SCREEN_LIMIT,
            -SCREEN_LIMIT <= screen_position.y <= SCREEN_LIMIT,
        ensures
            r.x == screen_to_world_axis(
                screen_position.x as int,
                self.position.x as int,
                self.viewport_size.x as int,
                self.zoom_num as int,
                self.zoom_den as int,
            ),
            r.y == screen_to_world_axis(
                screen_position.y as int,
                self.position.y as int,
                self.viewport_size.y as int,
                self.zoom_num as int,
                self.zoom_den as int,
            ),
    {
        proof {
            lemma_mul_bound(
                screen_position.x - self.viewport_size.x as int / 2,
                SCREEN_LIMIT + WORLD_LIMIT,
                self.zoom_den as int,
                ZOOM_LIMIT as int,
            );
            lemma_mul_bound(
                screen_position.y - self.viewport_size.y as int / 2,
                SCREEN_LIMIT + WORLD_LIMIT,
                self.zoom_den as int,
                ZOOM_LIMIT as int,
            );
        }
        let x = div_floor(
            (screen_position.x - self.viewport_size.x / 2) * self.zoom_den,
            self.zoom_num,
        ) + self.position.x;
        let y = div_floor(
            (screen_position.y - self.viewport_size.y / 2) * self.zoom_den,
            self.zoom_num,
        ) + self.position.y;
        Vec2i { x, y }
    }
}

/// Law: whenever the map is at least as wide as the viewport's world
/// extent on an axis, the bounded follow keeps the whole visible range
/// inside the map on that axis; and the camera never leaves the ordered
/// range between the two edge-alignment candidates.
pub proof fn lemma_bounded_view_inside(target: int, lo_edge: int, extent: int, half: int)
    requires
        0 <= half,
        2 * half <= extent,
    ensures
        lo_edge <= GameCamera::bounded_axis(target, lo_edge, extent, half) - half,
        GameCamera::bounded_axis(target, lo_edge, extent, half) + half <= lo_edge + extent,
{
}

/// One axis of projecting a world coordinate to the screen and mapping it
/// straight back.
pub open spec fn round_trip_axis(p: int, pos: int, vp: int, zn: int, zd: int) -> int {
    screen_to_world_axis(world_to_screen_axis(p, pos, vp, zn, zd), pos, vp, zn, zd)
}

/// The remainder the zoom division leaves on one axis; the round trip is
/// exact exactly when it is zero.
pub open spec fn zoom_remainder(p: int, pos: int, zn: int, zd: int) -> int {
    ((p - pos) * zn) % zd
}

/// Law: `screen_to_world` inverts `world_to_screen`. For every positive
/// rational zoom `zn / zd` the round trip along one axis comes back to the
/// original coordinate minus the rounding the zoom division lost — exactly
/// `ceil(rem / zn)` where `rem` is the remainder of the zoomed offset by
/// `zd`. It is exact for whole-number zoom, and off by at most one
/// millipixel whenever the zoom is at least one.
pub proof fn lemma_round_trip_axis(p: int, pos: int, vp: int, zn: int, zd: int)
    requires
        1 <= zn,
        1 <= zd,
    ensures
        round_trip_axis(p, pos, vp, zn, zd) == p - (zoom_remainder(p, pos, zn, zd) + zn - 1) / zn,
        zoom_remainder(p, pos, zn, zd) == 0 ==> round_trip_axis(p, pos, vp, zn, zd) == p,
        zd == 1 ==> round_trip_axis(p, pos, vp, zn, zd) == p,
        zn >= zd ==> p - 1 <= round_trip_axis(p, pos, vp, zn, zd) <= p,
{
    let d = p - pos;
    let a = d * zn;
    let k = a / zd;
    let r = a % zd;
    lemma_fundamental_div_mod(a, zd);
    lemma_mod_bound(a, zd);
    let e = (r + zn - 1) / zn;
    let s = (r + zn - 1) % zn;
    lemma_fundamental_div_mod(r + zn - 1, zn);
    lemma_mod_bound(r + zn - 1, zn);
    let rr = zn - 1 - s;
    assert(k * zd == zd * k) by (nonlinear_arith);
    assert(zn * (d - e) == zn * d - zn * e) by (nonlinear_arith);
    assert(d * zn == zn * d) by (nonlinear_arith);
    assert(k * zd == zn * (d - e) + rr);
    lemma_fundamental_div_mod_converse(k * zd, zn, d - e, rr);
    assert((k * zd) / zn == d - e);
    assert(world_to_screen_axis(p, pos, vp, zn, zd) - vp / 2 == k);
    assert(round_trip_axis(p, pos, vp, zn, zd) == p - e);
    if r == 0 {
        lemma_fundamental_div_mod_converse(zn - 1, zn, 0, zn - 1);
        assert(e == 0);
    }
    if zd == 1 {
        assert(r == 0);
    }
    if zn >= zd {
        vstd::arithmetic::div_mod::lemma_div_pos_is_pos(r + zn - 1, zn);
        assert(e <= 1) by (nonlinear_arith)
            requires
                zn * e == r + zn - 1 - s,
                0 <= s,
                r < zn,
                1 <= zn,
        ;
    }
}

/// Law: the camera's screen-to-world transform inverts its world-to-screen
/// transform on both axes, up to the rounding of the zoom division: exact
/// for whole-number zoom, and within one millipixel for any zoom of at
/// least one. Holds for every positive rational zoom and every position.
pub proof fn lemma_screen_world_round_trip(cam: GameCamera, p: Vec2i)
    requires
        1 <= cam.zoom_num,
        1 <= cam.zoom_den,
    ensures
        cam.zoom_den == 1 ==> round_trip_axis(
            p.x as int,
            cam.position.x as int,
            cam.viewport_size.x as int,
            cam.zoom_num as int,
            cam.zoom_den as int,
        ) == p.x && round_trip_axis(
            p.y as int,
            cam.position.y as int,
            cam.viewport_size.y as int,
            cam.zoom_num as int,
            cam.zoom_den as int,
        ) == p.y,
        cam.zoom_num >= cam.zoom_den ==> p.x - 1 <= round_trip_axis(
            p.x as int,
            cam.position.x as int,
            cam.viewport_size.x as int,
            cam.zoom_num as int,
            cam.zoom_den as int,
        ) <= p.x && p.y - 1 <= round_trip_axis(
            p.y as int,
            cam.position.y as int,
            cam.viewport_size.y as int,
            cam.zoom_num as int,
            cam.zoom_den as int,
        ) <= p.y,
{
    lemma_round_trip_axis(
        p.x as int,
        cam.position.x as int,
        cam.viewport_size.x as int,
        cam.zoom_num as int,
        cam.zoom_den as int,
    );
    lemma_round_trip_axis(
        p.y as int,
        cam.position.y as int,
        cam.viewport_size.y as int,
        cam.zoom_num as int,
        cam.zoom_den as int,
    );
}

/// The half-extent is non-negative and at most `vp / 2 * zd`.
proof fn lemma_half_extent_bounds(vp: int, zn: int, zd: int)
    requires
        0 <= vp <= WORLD_LIMIT,
        1 <= zn <= ZOOM_LIMIT,
        1 <= zd <= ZOOM_LIMIT,
    ensures
        0 <= (vp / 2) * zd <= WORLD_LIMIT * ZOOM_LIMIT,
        0 <= GameCamera::half_extent_axis(vp, zn, zd) <= WORLD_LIMIT * ZOOM_LIMIT,
{
    let h = vp / 2;
    assert(0 <= h * zd <= WORLD_LIMIT * ZOOM_LIMIT) by (nonlinear_arith)
        requires
            0 <= h <= WORLD_LIMIT,
            1 <= zd <= ZOOM_LIMIT,
            WORLD_LIMIT == 100_000_000,
            ZOOM_LIMIT == 10_000,
    ;
    assert(0 <= h * zd / zn <= h * zd) by (nonlinear_arith)
        requires
            0 <= h * zd,
            1 <= zn,
    ;
}

} // verus!
