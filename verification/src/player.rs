//! The player: a moving actor driven each tick by three competing input
//! sources — directional keys, a pointer-set move-to-point target, or
//! nothing — resolved in that priority order. The intended displacement is
//! tried against the collision grid through the actor's collider rectangle
//! and either committed whole or discarded whole (no partial slide), the
//! committed position is clamped into the map bounds inset by half the
//! sprite, and a walk-cycle frame counter runs while the actor moves.

use vstd::prelude::*;

use crate::arith::{
    is_sqrt, isqrt_u64, lemma_mul_bound, lemma_scaled_le, lemma_sqrt_unique, sqrt_floor,
};
use crate::camera::{screen_to_world_axis, GameCamera, SCREEN_LIMIT};
use crate::geometry::{clamp_i64, clamp_spec, Recti, Vec2i, WORLD_LIMIT};
use crate::grid::TileCollisionGrid;

verus! {

/// The sprite's edge length in millipixels.
pub const SPRITE_SIZE: i64 = 48_000;

/// Half the sprite: the inset the map-bounds clamp keeps from each edge.
pub const HALF_SPRITE: i64 = 24_000;

/// Half the collider: the hitbox is a sprite-centered square deliberately
/// smaller than the sprite, to keep movement forgiving near tile edges.
pub const COLLIDER_HALF: i64 = 8_000;

/// The collider's edge length in millipixels.
pub const COLLIDER_SIZE: i64 = 16_000;

/// Milliseconds each walk-cycle frame is shown.
pub const ANIMATION_SPEED_MS: u32 = 100;

/// Length of the walk cycle in frames.
pub const WALK_FRAMES: usize = 4;

/// The default movement speed in pixels per second, used when the host
/// supplies no override.
pub const DEFAULT_SPEED: u32 = 200;

/// The squared distance (in millipixels) under which a move-to-point
/// target counts as reached: two pixels.
pub const TARGET_EPSILON_SQ: u64 = 4_000_000;

/// Numerator and denominator of the diagonal factor: 181 / 256
/// approximates one over the square root of two, so diagonal key movement
/// does not outrun axis movement.
pub const DIAG_NUM: i64 = 181;

/// See `DIAG_NUM`.
pub const DIAG_DEN: i64 = 256;

/// Milliseconds after which the click marker has fully faded.
pub const WAVE_FADE_MS: u32 = 1_000;

/// Largest speed override `update` accepts, in pixels per second.
pub const SPEED_LIMIT: u32 = 1_000_000;

/// Largest tick length `update` accepts, in milliseconds.
pub const DT_LIMIT: u32 = 60_000;

/// The collider can land this far out before the clamp pulls the actor
/// back: a world coordinate plus one maximal movement step.
pub const COLLIDER_LIMIT: i64 = 200_000_000_000;

/// Which way the sprite faces.
#[derive(Clone, Copy, Debug, PartialEq, Eq, Structural)]
pub enum Direction {
    Down,
    Up,
    Left,
    Right,
}

impl Direction {
    /// The sprite-sheet row for this facing.
    pub open spec fn row_spec(self) -> u8 {
        match self {
            Direction::Down => 0,
            Direction::Up => 1,
            Direction::Left => 2,
            Direction::Right => 3,
        }
    }

    /// The sprite-sheet row for this facing.
    pub fn row(self) -> (r: u8)
        ensures
            r == self.row_spec(),
    {
        match self {
            Direction::Down => 0,
            Direction::Up => 1,
            Direction::Left => 2,
            Direction::Right => 3,
        }
    }
}

/// The directional keys held down this tick.
#[derive(Clone, Copy, Debug, PartialEq, Eq, Structural)]
pub struct KeyInput {
    pub right: bool,
    pub left: bool,
    pub up: bool,
    pub down: bool,
}

impl KeyInput {
    /// No key held.
    pub fn none() -> (k: KeyInput)
        ensures
            !k.right && !k.left && !k.up && !k.down,
    {
        KeyInput { right: false, left: false, up: false, down: false }
    }

    /// Whether any directional key is held.
    pub open spec fn any(self) -> bool {
        self.right || self.left || self.up || self.down
    }

    /// The horizontal key direction: right minus left.
    pub open spec fn dx(self) -> int {
        (if self.right {
            1int
        } else {
            0int
        }) - (if self.left {
            1int
        } else {
            0int
        })
    }

    /// The vertical key direction: down minus up.
    pub open spec fn dy(self) -> int {
        (if self.down {
            1int
        } else {
            0int
        }) - (if self.up {
            1int
        } else {
            0int
        })
    }
}

/// The magnitude of an integer.
pub open spec fn abs_int(a: int) -> int {
    if a >= 0 {
        a
    } else {
        -a
    }
}

/// The player-controlled actor.
pub struct Player {
    pub position: Vec2i,
    pub animation_frame: usize,
    pub frame_timer: u32,
    pub facing: Direction,
    pub is_moving: bool,
    pub map_bounds: Recti,
    pub target_position: Option<Vec2i>,
    pub target_effect_timer: u32,
    pub wave_active: bool,
    pub collider_position: Vec2i,
}

impl Player {
    /// The actor's invariant: position, bounds and any target in-world, the
    /// collider within one step of the world, the walk frame and timers in
    /// range.
    pub open spec fn wf(self) -> bool {
        &&& self.position.in_world()
        &&& self.map_bounds.in_world()
        &&& (self.target_position matches Some(t) ==> t.in_world())
        &&& -COLLIDER_LIMIT <= self.collider_position.x <= COLLIDER_LIMIT
        &&& -COLLIDER_LIMIT <= self.collider_position.y <= COLLIDER_LIMIT
        &&& self.animation_frame < WALK_FRAMES
        &&& self.frame_timer < ANIMATION_SPEED_MS
        &&& (self.wave_active ==> self.target_effect_timer < WAVE_FADE_MS)
    }

    /// The invariant mid-tick, before the clamp: as `wf`, but the position
    /// may sit up to one displacement outside the world.
    pub open spec fn wf_loose(self) -> bool {
        &&& -COLLIDER_LIMIT <= self.position.x <= COLLIDER_LIMIT
        &&& -COLLIDER_LIMIT <= self.position.y <= COLLIDER_LIMIT
        &&& self.map_bounds.in_world()
        &&& (self.target_position matches Some(t) ==> t.in_world())
        &&& -COLLIDER_LIMIT <= self.collider_position.x <= COLLIDER_LIMIT
        &&& -COLLIDER_LIMIT <= self.collider_position.y <= COLLIDER_LIMIT
        &&& self.animation_frame < WALK_FRAMES
        &&& self.frame_timer < ANIMATION_SPEED_MS
        &&& (self.wave_active ==> self.target_effect_timer < WAVE_FADE_MS)
    }

    /// Whether the map bounds can hold the sprite, which the clamp needs.
    pub open spec fn bounds_ready(self) -> bool {
        self.map_bounds.w >= SPRITE_SIZE && self.map_bounds.h >= SPRITE_SIZE
    }

    /// A fresh actor at `position`: facing down, idle, no bounds, no
    /// target, collider in lockstep with the position.
    pub fn new(position: Vec2i) -> (p: Player)
        requires
            position.in_world(),
        ensures
            p.wf(),
            p.position == position,
            p.animation_frame == 0,
            p.frame_timer == 0,
            p.facing == Direction::Down,
            !p.is_moving,
            p.map_bounds == (Recti { x: 0, y: 0, w: 0, h: 0 }),
            p.target_position is None,
            p.target_effect_timer == 0,
            !p.wave_active,
            p.collider_position == position,
    {
        Player {
            position,
            animation_frame: 0,
            frame_timer: 0,
            facing: Direction::Down,
            is_moving: false,
            map_bounds: Recti { x: 0, y: 0, w: 0, h: 0 },
            target_position: None,
            target_effect_timer: 0,
            wave_active: false,
            collider_position: position,
        }
    }

    /// Set the rectangle the actor is confined to.
    pub fn set_map_bounds(&mut self, bounds: Recti)
        requires
            old(self).wf(),
            bounds.in_world(),
        ensures
            final(self).wf(),
            *final(self) == (Player { map_bounds: bounds, ..*old(self) }),
    {
        self.map_bounds = bounds;
    }

    /// The position clamped into the map bounds, inset by half the sprite
    /// on each axis so the sprite never visually crosses the map edge.
    pub open spec fn clamped_position(pos: Vec2i, bounds: Recti) -> Vec2i {
        Vec2i {
            x: clamp_spec(
                pos.x as int,
                bounds.x + HALF_SPRITE,
                bounds.x + bounds.w - HALF_SPRITE,
            ) as i64,
            y: clamp_spec(
                pos.y as int,
                bounds.y + HALF_SPRITE,
                bounds.y + bounds.h - HALF_SPRITE,
            ) as i64,
        }
    }

    /// Whether a position already sits within the inset bounds, where the
    /// clamp cannot move it.
    pub open spec fn inside_inset(pos: Vec2i, bounds: Recti) -> bool {
        &&& bounds.x + HALF_SPRITE <= pos.x <= bounds.x + bounds.w - HALF_SPRITE
        &&& bounds.y + HALF_SPRITE <= pos.y <= bounds.y + bounds.h - HALF_SPRITE
    }

    /// Clamp the position into the inset map bounds. The position may be
    /// anywhere (a large displacement can land far out); the clamp pulls it
    /// back in.
    pub fn clamp_position(&mut self)
        requires
            old(self).map_bounds.in_world(),
            old(self).bounds_ready(),
        ensures
            *final(self) == (Player {
                position: Player::clamped_position(old(self).position, old(self).map_bounds),
                ..*old(self)
            }),
            final(self).position.in_world(),
            Player::inside_inset(final(self).position, old(self).map_bounds),
    {
        let x = clamp_i64(
            self.position.x,
            self.map_bounds.x + HALF_SPRITE,
            self.map_bounds.x + self.map_bounds.w - HALF_SPRITE,
        );
        let y = clamp_i64(
            self.position.y,
            self.map_bounds.y + HALF_SPRITE,
            self.map_bounds.y + self.map_bounds.h - HALF_SPRITE,
        );
        self.position = Vec2i { x, y };
    }

    /// The collider rectangle for a sprite centered at `center`.
    pub open spec fn collider_rect(center: Vec2i) -> Recti {
        Recti {
            x: (center.x - COLLIDER_HALF) as i64,
            y: (center.y - COLLIDER_HALF) as i64,
            w: COLLIDER_SIZE,
            h: COLLIDER_SIZE,
        }
    }

    /// The effective speed in pixels per second: the host override when it
    /// is non-zero, the default otherwise.
    pub open spec fn effective_speed(speed_override: u32) -> u32 {
        if speed_override != 0 {
            speed_override
        } else {
            DEFAULT_SPEED
        }
    }

    /// Where a screen click lands in the world.
    pub open spec fn click_world_spec(cam: GameCamera, click: Vec2i) -> Vec2i {
        Vec2i {
            x: screen_to_world_axis(
                click.x as int,
                cam.position.x as int,
                cam.viewport_size.x as int,
                cam.zoom_num as int,
                cam.zoom_den as int,
            ) as i64,
            y: screen_to_world_axis(
                click.y as int,
                cam.position.y as int,
                cam.viewport_size.y as int,
                cam.zoom_num as int,
                cam.zoom_den as int,
            ) as i64,
        }
    }

    /// The click phase: a click inside the map bounds becomes the new
    /// move-to-point target and restarts the click marker; any other click
    /// changes nothing. A target near the map edge is accepted as-is even
    /// when the half-sprite clamp keeps the actor from ever coming within
    /// the epsilon distance of it: such a target simply stays active, the
    /// actor pressed against the edge, until a key press or a new click
    /// replaces it.
    pub open spec fn click_phase(p: Player, click_screen: Option<Vec2i>, cam: GameCamera) -> Player {
        match click_screen {
            Some(click) => {
                let world = Self::click_world_spec(cam, click);
                if p.map_bounds.contains_spec(world) {
                    Player {
                        target_position: Some(world),
                        target_effect_timer: 0,
                        wave_active: true,
                        ..p
                    }
                } else {
                    p
                }
            },
            None => p,
        }
    }

    /// The facing after the held keys are applied in order right, left,
    /// up, down — a later key wins.
    pub open spec fn facing_after_keys(f: Direction, keys: KeyInput) -> Direction {
        if keys.down {
            Direction::Down
        } else if keys.up {
            Direction::Up
        } else if keys.left {
            Direction::Left
        } else if keys.right {
            Direction::Right
        } else {
            f
        }
    }

    /// The key phase: any held key marks the actor moving, sets the facing,
    /// and cancels a pending move-to-point target.
    pub open spec fn key_phase(p: Player, keys: KeyInput) -> Player {
        if keys.any() {
            Player {
                facing: Self::facing_after_keys(p.facing, keys),
                is_moving: true,
                target_position: None,
                ..p
            }
        } else {
            p
        }
    }

    /// The facing toward a vector: the dominant axis decides, ties go to
    /// the vertical.
    pub open spec fn facing_toward(vx: int, vy: int, f: Direction) -> Direction {
        if abs_int(vx) > abs_int(vy) {
            if vx > 0 {
                Direction::Right
            } else {
                Direction::Left
            }
        } else if vy > 0 {
            Direction::Down
        } else {
            Direction::Up
        }
    }

    /// Whether the target is considered reached: strictly closer than the
    /// epsilon distance.
    pub open spec fn target_reached(p: Player, t: Vec2i) -> bool {
        let vx = t.x - p.position.x;
        let vy = t.y - p.position.y;
        vx * vx + vy * vy < TARGET_EPSILON_SQ
    }

    /// The target phase (only when no key is held, since keys cancel the
    /// target): a reached target is cleared; an unreached one marks the
    /// actor moving and turns it toward the target.
    pub open spec fn target_phase(p: Player) -> Player {
        match p.target_position {
            Some(t) => {
                if Self::target_reached(p, t) {
                    Player { target_position: None, ..p }
                } else {
                    Player {
                        is_moving: true,
                        facing: Self::facing_toward(
                            t.x - p.position.x,
                            t.y - p.position.y,
                            p.facing,
                        ),
                        ..p
                    }
                }
            },
            None => p,
        }
    }

    /// Whether some input source produces movement this tick: held keys,
    /// or an unreached target.
    pub open spec fn has_movement(p_after_keys: Player, keys: KeyInput) -> bool {
        keys.dx() != 0 || keys.dy() != 0 || (p_after_keys.target_position matches Some(t)
            && !Self::target_reached(p_after_keys, t))
    }

    /// One axis of the movement toward a target: the offset scaled by
    /// `step / length`, rounded toward zero.
    pub open spec fn scaled_toward(v: int, step: int, len: int) -> int {
        if v >= 0 {
            v * step / len
        } else {
            -((-v) * step / len)
        }
    }

    /// The intended displacement in millipixels. Keys give a unit vector
    /// scaled by the step (the diagonal scaled down by `181 / 256`); an
    /// unreached target gives its offset normalized to the step length.
    pub open spec fn displacement(p_after_keys: Player, keys: KeyInput, step: int) -> (int, int) {
        let kx = keys.dx();
        let ky = keys.dy();
        if kx != 0 || ky != 0 {
            if kx != 0 && ky != 0 {
                let diag = step * (DIAG_NUM as int) / (DIAG_DEN as int);
                (kx * diag, ky * diag)
            } else {
                (kx * step, ky * step)
            }
        } else {
            match p_after_keys.target_position {
                Some(t) => {
                    if Self::target_reached(p_after_keys, t) {
                        (0int, 0int)
                    } else {
                        let vx = t.x - p_after_keys.position.x;
                        let vy = t.y - p_after_keys.position.y;
                        let len = sqrt_floor(vx * vx + vy * vy);
                        (Self::scaled_toward(vx, step, len), Self::scaled_toward(vy, step, len))
                    }
                },
                None => (0int, 0int),
            }
        }
    }

    /// The move phase: the collider is tried at the displaced position;
    /// if the grid blocks it the whole displacement is discarded and the
    /// collider snaps back to the actor, otherwise both commit.
    pub open spec fn move_phase(
        p: Player,
        moving: bool,
        disp: (int, int),
        grid: TileCollisionGrid,
    ) -> Player {
        if moving {
            let desired = Vec2i {
                x: (p.position.x + disp.0) as i64,
                y: (p.position.y + disp.1) as i64,
            };
            if grid.blocked_spec(Self::collider_rect(desired)) {
                Player { collider_position: p.position, ..p }
            } else {
                Player { position: desired, collider_position: desired, ..p }
            }
        } else {
            p
        }
    }

    /// The animation phase: while moving, the timer accumulates and each
    /// full frame duration advances the walk frame modulo the cycle; while
    /// idle the frame pins to zero.
    pub open spec fn anim_phase(p: Player, dt: u32) -> Player {
        if p.is_moving {
            if p.frame_timer + dt >= ANIMATION_SPEED_MS {
                Player {
                    frame_timer: 0,
                    animation_frame: ((p.animation_frame + 1) % (WALK_FRAMES as int)) as usize,
                    ..p
                }
            } else {
                Player { frame_timer: (p.frame_timer + dt) as u32, ..p }
            }
        } else {
            Player { animation_frame: 0, ..p }
        }
    }

    /// How one tick transforms the actor: click, keys, target, movement
    /// with collision, animation, and the map-bounds clamp, in that order.
    pub open spec fn step_spec(
        p: Player,
        dt: u32,
        keys: KeyInput,
        click_screen: Option<Vec2i>,
        speed_override: u32,
        grid: TileCollisionGrid,
        cam: GameCamera,
    ) -> Player {
        let step = Self::effective_speed(speed_override) * dt;
        let p1 = Self::click_phase(Player { is_moving: false, ..p }, click_screen, cam);
        let p2 = Self::key_phase(p1, keys);
        let p3 = Self::target_phase(p2);
        let p4 = Self::move_phase(
            p3,
            Self::has_movement(p2, keys),
            Self::displacement(p2, keys, step as int),
            grid,
        );
        let p5 = Self::anim_phase(p4, dt);
        Player { position: Self::clamped_position(p5.position, p5.map_bounds), ..p5 }
    }

    /// Whether this tick's movement is blocked: some input produces a
    /// displacement whose destination collider rectangle overlaps a solid
    /// cell.
    pub open spec fn blocked_this_tick(
        p: Player,
        keys: KeyInput,
        click_screen: Option<Vec2i>,
        speed_override: u32,
        dt: u32,
        grid: TileCollisionGrid,
        cam: GameCamera,
    ) -> bool {
        let step = Self::effective_speed(speed_override) * dt;
        let p1 = Self::click_phase(Player { is_moving: false, ..p }, click_screen, cam);
        let p2 = Self::key_phase(p1, keys);
        let disp = Self::displacement(p2, keys, step as int);
        let desired = Vec2i {
            x: (p.position.x + disp.0) as i64,
            y: (p.position.y + disp.1) as i64,
        };
        Self::has_movement(p2, keys) && grid.blocked_spec(Self::collider_rect(desired))
    }

    /// The input phase of a tick: mark the actor idle, then apply pointer
    /// and keyboard input.
    fn phase_input(&mut self, keys: KeyInput, click_screen: Option<Vec2i>, camera: &GameCamera)
        requires
            old(self).wf(),
            camera.wf(),
            (click_screen matches Some(c) ==> -SCREEN_LIMIT <= c.x <= SCREEN_LIMIT && -SCREEN_LIMIT
                <= c.y <= SCREEN_LIMIT),
        ensures
            final(self).wf(),
            *final(self) == Player::key_phase(
                Player::click_phase(
                    Player { is_moving: false, ..*old(self) },
                    click_screen,
                    *camera,
                ),
                keys,
            ),
            (keys.dx() != 0 || keys.dy() != 0) ==> final(self).target_position is None,
    {
        self.is_moving = false;

        // Pointer input: a click inside the map bounds becomes the target.
        if let Some(click) = click_screen {
            let world_position = camera.screen_to_world(click);
            if self.map_bounds.contains(world_position) {
                self.target_position = Some(world_position);
                self.target_effect_timer = 0;
                self.wave_active = true;
            }
        }

        // Keyboard input: cancels any pending target.
        if keys.right {
            self.facing = Direction::Right;
            self.is_moving = true;
            self.target_position = None;
        }
        if keys.left {
            self.facing = Direction::Left;
            self.is_moving = true;
            self.target_position = None;
        }
        if keys.up {
            self.facing = Direction::Up;
            self.is_moving = true;
            self.target_position = None;
        }
        if keys.down {
            self.facing = Direction::Down;
            self.is_moving = true;
            self.target_position = None;
        }
    }

    /// The target-resolution phase of a tick: clear a reached target, turn
    /// toward an unreached one, and compute the displacement from whichever
    /// input source is active.
    #[verifier::rlimit(30)]
    fn phase_target_displacement(&mut self, keys: KeyInput, step: i64) -> (r: (bool, i64, i64))
        requires
            old(self).wf(),
            0 <= step <= 60_000_000_000,
            (keys.dx() != 0 || keys.dy() != 0) ==> old(self).target_position is None,
        ensures
            final(self).wf(),
            *final(self) == Player::target_phase(*old(self)),
            r.0 == Player::has_movement(*old(self), keys),
            (r.1 as int, r.2 as int) == Player::displacement(*old(self), keys, step as int),
            -step <= r.1 <= step,
            -step <= r.2 <= step,
    {
        let mut has_move: bool = false;
        let mut dx: i64 = 0;
        let mut dy: i64 = 0;
        let mut kx: i64 = 0;
        let mut ky: i64 = 0;
        if keys.right {
            kx = kx + 1;
        }
        if keys.left {
            kx = kx - 1;
        }
        if keys.up {
            ky = ky - 1;
        }
        if keys.down {
            ky = ky + 1;
        }
        proof {
            assert(kx == keys.dx() && ky == keys.dy());
        }
        if kx != 0 || ky != 0 {
            has_move = true;
            if kx != 0 && ky != 0 {
                let diag: i64 = step * DIAG_NUM / DIAG_DEN;
                dx = kx * diag;
                dy = ky * diag;
            } else {
                dx = kx * step;
                dy = ky * step;
            }
        } else {
            let target = self.target_position;
            if let Some(t) = target {
                let vx: i64 = t.x - self.position.x;
                let vy: i64 = t.y - self.position.y;
                let mx: u64 = if vx >= 0 {
                    vx as u64
                } else {
                    (-vx) as u64
                };
                let my: u64 = if vy >= 0 {
                    vy as u64
                } else {
                    (-vy) as u64
                };
                proof {
                    lemma_mul_bound(
                        mx as int,
                        2 * WORLD_LIMIT as int,
                        mx as int,
                        2 * WORLD_LIMIT as int,
                    );
                    lemma_mul_bound(
                        my as int,
                        2 * WORLD_LIMIT as int,
                        my as int,
                        2 * WORLD_LIMIT as int,
                    );
                }
                let dist2: u64 = mx * mx + my * my;
                proof {
                    assert(dist2 as int == (vx as int) * (vx as int) + (vy as int) * (vy as int))
                        by (nonlinear_arith)
                        requires
                            mx as int == abs_int(vx as int),
                            my as int == abs_int(vy as int),
                            dist2 as int == (mx as int) * (mx as int) + (my as int) * (my as int),
                    ;
                }
                if dist2 < TARGET_EPSILON_SQ {
                    self.target_position = None;
                } else {
                    has_move = true;
                    self.is_moving = true;
                    if mx > my {
                        self.facing = if vx > 0 {
                            Direction::Right
                        } else {
                            Direction::Left
                        };
                    } else if vy > 0 {
                        self.facing = Direction::Down;
                    } else {
                        self.facing = Direction::Up;
                    }
                    let len: u64 = isqrt_u64(dist2);
                    proof {
                        lemma_sqrt_unique(dist2 as int, len as int);
                        assert(len as int >= 1) by (nonlinear_arith)
                            requires
                                dist2 as int >= 4_000_000,
                                (dist2 as int) < ((len as int) + 1) * ((len as int) + 1),
                                len as int >= 0,
                        ;
                        lemma_abs_le_sqrt(mx as int, my as int, dist2 as int, len as int);
                        lemma_mul_bound(
                            mx as int,
                            2 * WORLD_LIMIT as int,
                            step as int,
                            60_000_000_000int,
                        );
                        lemma_mul_bound(
                            my as int,
                            2 * WORLD_LIMIT as int,
                            step as int,
                            60_000_000_000int,
                        );
                        lemma_scaled_le(mx as int, step as int, len as int);
                        lemma_scaled_le(my as int, step as int, len as int);
                    }
                    let sx: u64 = mx * (step as u64) / len;
                    let sy: u64 = my * (step as u64) / len;
                    dx = if vx >= 0 {
                        sx as i64
                    } else {
                        -(sx as i64)
                    };
                    dy = if vy >= 0 {
                        sy as i64
                    } else {
                        -(sy as i64)
                    };
                }
            }
        }
        (has_move, dx, dy)
    }

    /// The movement phase of a tick: try the collider at the displaced
    /// position; commit or discard the displacement whole.
    fn phase_move(&mut self, has_move: bool, dx: i64, dy: i64, grid: &TileCollisionGrid)
        requires
            old(self).wf(),
            grid.wf(),
            -60_000_000_000 <= dx <= 60_000_000_000,
            -60_000_000_000 <= dy <= 60_000_000_000,
        ensures
            *final(self) == Player::move_phase(
                *old(self),
                has_move,
                (dx as int, dy as int),
                *grid,
            ),
            final(self).wf_loose(),
    {
        if has_move {
            let desired = Vec2i { x: self.position.x + dx, y: self.position.y + dy };
            self.collider_position = desired;
            let rect = Recti::new(
                desired.x - COLLIDER_HALF,
                desired.y - COLLIDER_HALF,
                COLLIDER_SIZE,
                COLLIDER_SIZE,
            );
            if grid.is_blocked(rect) {
                self.collider_position = self.position;
            } else {
                self.position = desired;
            }
        }
    }

    /// The animation phase of a tick: run the walk cycle while moving, pin
    /// it to the first frame while idle.
    fn phase_animation(&mut self, dt: u32)
        requires
            old(self).wf_loose(),
            dt <= DT_LIMIT,
        ensures
            final(self).wf_loose(),
            *final(self) == Player::anim_phase(*old(self), dt),
    {
        if self.is_moving {
            if self.frame_timer + dt >= ANIMATION_SPEED_MS {
                self.frame_timer = 0;
                self.animation_frame = (self.animation_frame + 1) % WALK_FRAMES;
            } else {
                self.frame_timer = self.frame_timer + dt;
            }
        } else {
            self.animation_frame = 0;
        }
    }

    /// One simulation tick. The whole outcome is pinned by `step_spec`;
    /// in particular, whenever the destination collider rectangle overlaps
    /// any solid cell the displacement is discarded whole, so the committed
    /// position is exactly the pre-update position (run through the
    /// unchanged clamp) — no partial slide.
    #[verifier::rlimit(50)]
    pub fn update(
        &mut self,
        dt: u32,
        keys: KeyInput,
        click_screen: Option<Vec2i>,
        speed_override: u32,
        grid: &TileCollisionGrid,
        camera: &GameCamera,
    )
        requires
            old(self).wf(),
            old(self).bounds_ready(),
            grid.wf(),
            camera.wf(),
            dt <= DT_LIMIT,
            speed_override <= SPEED_LIMIT,
            (click_screen matches Some(c) ==> -SCREEN_LIMIT <= c.x <= SCREEN_LIMIT && -SCREEN_LIMIT
                <= c.y <= SCREEN_LIMIT),
        ensures
            final(self).wf(),
            *final(self) == Player::step_spec(
                *old(self),
                dt,
                keys,
                click_screen,
                speed_override,
                *grid,
                *camera,
            ),
            Player::blocked_this_tick(
                *old(self),
                keys,
                click_screen,
                speed_override,
                dt,
                *grid,
                *camera,
            ) ==> final(self).position == Player::clamped_position(
                old(self).position,
                old(self).map_bounds,
            ),
            Player::blocked_this_tick(
                *old(self),
                keys,
                click_screen,
                speed_override,
                dt,
                *grid,
                *camera,
            ) && Player::inside_inset(old(self).position, old(self).map_bounds) ==> final(self).position
                == old(self).position,
    {
        let ghost p_init = *self;
        let speed: u32 = if speed_override != 0 {
            speed_override
        } else {
            DEFAULT_SPEED
        };
        proof {
            lemma_mul_bound(speed as int, SPEED_LIMIT as int, dt as int, DT_LIMIT as int);
        }
        let step: i64 = (speed as i64) * (dt as i64);
        self.phase_input(keys, click_screen, camera);
        let (has_move, dx, dy) = self.phase_target_displacement(keys, step);
        self.phase_move(has_move, dx, dy, grid);
        self.phase_animation(dt);
        self.clamp_position();
        proof {
            if Player::blocked_this_tick(
                p_init,
                keys,
                click_screen,
                speed_override,
                dt,
                *grid,
                *camera,
            ) {
                lemma_no_partial_slide(
                    p_init,
                    dt,
                    keys,
                    click_screen,
                    speed_override,
                    *grid,
                    *camera,
                );
            }
        }
    }

    /// Advance the click marker: it grows and fades at double speed and
    /// deactivates once fully faded; purely cosmetic.
    pub fn advance_wave_effect(&mut self, dt: u32)
        requires
            old(self).wf(),
            dt <= DT_LIMIT,
        ensures
            final(self).wf(),
            *final(self) == (if old(self).target_position is Some && old(self).wave_active {
                let t = old(self).target_effect_timer + 2 * dt;
                if t >= WAVE_FADE_MS {
                    Player {
                        target_effect_timer: t as u32,
                        wave_active: false,
                        ..*old(self)
                    }
                } else {
                    Player { target_effect_timer: t as u32, ..*old(self) }
                }
            } else {
                *old(self)
            }),
    {
        if self.target_position.is_some() && self.wave_active {
            self.target_effect_timer = self.target_effect_timer + 2 * dt;
            if self.target_effect_timer >= WAVE_FADE_MS {
                self.wave_active = false;
            }
        }
    }
}

/// Law: no partial slide. Whenever some input produces a displacement this
/// tick and the destination collider rectangle overlaps any solid cell,
/// the whole displacement is discarded: the committed position is exactly
/// the pre-update position run through the (unchanged) map-bounds clamp —
/// and exactly the pre-update position itself whenever that position
/// already sits within the inset bounds.
pub proof fn lemma_no_partial_slide(
    p: Player,
    dt: u32,
    keys: KeyInput,
    click_screen: Option<Vec2i>,
    speed_override: u32,
    grid: TileCollisionGrid,
    cam: GameCamera,
)
    requires
        Player::blocked_this_tick(p, keys, click_screen, speed_override, dt, grid, cam),
    ensures
        Player::step_spec(p, dt, keys, click_screen, speed_override, grid, cam).position
            == Player::clamped_position(p.position, p.map_bounds),
        Player::inside_inset(p.position, p.map_bounds) ==> Player::step_spec(
            p,
            dt,
            keys,
            click_screen,
            speed_override,
            grid,
            cam,
        ).position == p.position,
{
    let step = Player::effective_speed(speed_override) * dt;
    let p1 = Player::click_phase(Player { is_moving: false, ..p }, click_screen, cam);
    let p2 = Player::key_phase(p1, keys);
    let p3 = Player::target_phase(p2);
    let disp = Player::displacement(p2, keys, step as int);
    let p4 = Player::move_phase(p3, Player::has_movement(p2, keys), disp, grid);
    assert(p3.position == p.position);
    assert(p4.position == p.position);
    let p5 = Player::anim_phase(p4, dt);
    assert(p5.position == p.position && p5.map_bounds == p.map_bounds);
}

/// Law: the collider never ends a tick overlapping a solid cell. If both
/// the actor's own collider rectangle and the one at the collider's current
/// position are clear of solid cells before a tick, then whatever the
/// inputs, the collider rectangle where the tick parks the collider is
/// still clear: a blocked displacement snaps it back to the actor, and a
/// committed one was checked against the grid. (The map-edge clamp moves
/// only the visual position, never the collider.)
pub proof fn lemma_collider_stays_clear(
    p: Player,
    dt: u32,
    keys: KeyInput,
    click_screen: Option<Vec2i>,
    speed_override: u32,
    grid: TileCollisionGrid,
    cam: GameCamera,
)
    requires
        !grid.blocked_spec(Player::collider_rect(p.position)),
        !grid.blocked_spec(Player::collider_rect(p.collider_position)),
    ensures
        !grid.blocked_spec(
            Player::collider_rect(
                Player::step_spec(
                    p,
                    dt,
                    keys,
                    click_screen,
                    speed_override,
                    grid,
                    cam,
                ).collider_position,
            ),
        ),
{
    let step = Player::effective_speed(speed_override) * dt;
    let p1 = Player::click_phase(Player { is_moving: false, ..p }, click_screen, cam);
    let p2 = Player::key_phase(p1, keys);
    let p3 = Player::target_phase(p2);
    let disp = Player::displacement(p2, keys, step as int);
    let p4 = Player::move_phase(p3, Player::has_movement(p2, keys), disp, grid);
    assert(p3.position == p.position && p3.collider_position == p.collider_position);
    if Player::has_movement(p2, keys) {
        let desired = Vec2i {
            x: (p3.position.x + disp.0) as i64,
            y: (p3.position.y + disp.1) as i64,
        };
        if grid.blocked_spec(Player::collider_rect(desired)) {
            assert(p4.collider_position == p.position);
        } else {
            assert(p4.collider_position == desired);
        }
    }
    assert(Player::anim_phase(p4, dt).collider_position == p4.collider_position);
}

/// Each component's magnitude is at most the integer square root of the
/// squared length.
proof fn lemma_abs_le_sqrt(mx: int, my: int, dist2: int, len: int)
    requires
        0 <= mx,
        0 <= my,
        dist2 == mx * mx + my * my,
        is_sqrt(dist2, len),
    ensures
        mx <= len,
        my <= len,
{
    assert(mx * mx <= dist2 && my * my <= dist2) by (nonlinear_arith)
        requires
            0 <= mx,
            0 <= my,
            dist2 == mx * mx + my * my,
    ;
    if mx > len {
        assert((len + 1) * (len + 1) <= mx * mx) by (nonlinear_arith)
            requires
                0 <= len,
                len + 1 <= mx,
        ;
    }
    if my > len {
        assert((len + 1) * (len + 1) <= my * my) by (nonlinear_arith)
            requires
                0 <= len,
                len + 1 <= my,
        ;
    }
}

} // verus!
