use autonomous_game::camera::GameCamera;
use autonomous_game::geometry::{Recti, Vec2i};
use autonomous_game::grid::TileCollisionGrid;
use autonomous_game::player::{Direction, KeyInput, Player};

fn v(x: i64, y: i64) -> Vec2i {
    Vec2i::new(x, y)
}

fn empty_grid() -> TileCollisionGrid {
    let entries: Vec<(usize, usize, bool)> = vec![];
    TileCollisionGrid::build(&entries, 4, 4, 16_000)
}

fn camera() -> GameCamera {
    GameCamera::new(v(800_000, 600_000))
}

fn ready_player() -> Player {
    let mut p = Player::new(v(32_000, 32_000));
    p.set_map_bounds(Recti::new(0, 0, 64_000, 64_000));
    p
}

fn keys_right() -> KeyInput {
    KeyInput { right: true, left: false, up: false, down: false }
}

#[test]
fn new_player_is_idle_facing_down() {
    let p = Player::new(v(720_000, 720_000));
    assert_eq!(p.position, v(720_000, 720_000));
    assert_eq!(p.collider_position, v(720_000, 720_000));
    assert!(!p.is_moving);
    assert_eq!(p.animation_frame, 0);
    assert!(p.target_position.is_none());
    assert_eq!(p.facing.row(), Direction::Down.row());
}

#[test]
fn key_movement_moves_by_speed_times_dt() {
    let grid = empty_grid();
    let cam = camera();
    let mut p = ready_player();
    // Default speed 200 px/s for 16 ms is 3200 millipixels.
    p.update(16, keys_right(), None, 0, &grid, &cam);
    assert_eq!(p.position, v(35_200, 32_000));
    assert_eq!(p.collider_position, v(35_200, 32_000));
    assert!(p.is_moving);
    assert_eq!(p.facing.row(), Direction::Right.row());
}

#[test]
fn speed_override_replaces_default() {
    let grid = empty_grid();
    let cam = camera();
    let mut p = ready_player();
    // 400 px/s for 16 ms is 6400 millipixels.
    p.update(16, keys_right(), None, 400, &grid, &cam);
    assert_eq!(p.position, v(38_400, 32_000));
}

#[test]
fn diagonal_movement_is_scaled_down() {
    let grid = empty_grid();
    let cam = camera();
    let mut p = ready_player();
    let keys = KeyInput { right: true, left: false, up: false, down: true };
    // Diagonal step: 3200 * 181 / 256 = 2262 millipixels per axis.
    p.update(16, keys, None, 0, &grid, &cam);
    assert_eq!(p.position, v(34_262, 34_262));
    // Down is applied after right, so it wins the facing.
    assert_eq!(p.facing.row(), Direction::Down.row());
}

#[test]
fn opposing_keys_animate_but_do_not_move() {
    let grid = empty_grid();
    let cam = camera();
    let mut p = ready_player();
    let keys = KeyInput { right: true, left: true, up: false, down: false };
    p.update(100, keys, None, 0, &grid, &cam);
    assert_eq!(p.position, v(32_000, 32_000));
    assert!(p.is_moving);
    assert_eq!(p.animation_frame, 1);
    // Left is checked after right and wins the facing.
    assert_eq!(p.facing.row(), Direction::Left.row());
}

#[test]
fn blocked_movement_commits_nothing() {
    // Cell (2, 1) spans 32000..48000 x 16000..32000.
    let entries: Vec<(usize, usize, bool)> = vec![(2, 1, true)];
    let grid = TileCollisionGrid::build(&entries, 4, 4, 16_000);
    let cam = camera();
    let mut p = ready_player();
    p.position = v(24_000, 24_000);
    p.collider_position = v(24_000, 24_000);
    // Desired position 27200: the collider 19200..35200 overlaps the solid
    // cell, so the whole displacement is discarded.
    p.update(16, keys_right(), None, 0, &grid, &cam);
    assert_eq!(p.position, v(24_000, 24_000));
    assert_eq!(p.collider_position, v(24_000, 24_000));
    // The actor still animates: it is trying to move.
    assert!(p.is_moving);
}

#[test]
fn click_inside_bounds_sets_target() {
    let grid = empty_grid();
    let cam = camera();
    let mut p = ready_player();
    // screen_to_world of (400000+75000, 300000+25000) with zoom 5/2 and
    // camera at the origin is (30000, 10000).
    p.update(16, KeyInput::none(), Some(v(475_000, 325_000)), 0, &grid, &cam);
    assert_eq!(p.target_position, Some(v(30_000, 10_000)));
    assert!(p.wave_active);
    assert_eq!(p.target_effect_timer, 0);
}

#[test]
fn click_outside_bounds_is_ignored() {
    let grid = empty_grid();
    let cam = camera();
    let mut p = ready_player();
    // screen_to_world gives (100000, 100000), outside the 64000-wide bounds.
    p.update(16, KeyInput::none(), Some(v(650_000, 550_000)), 0, &grid, &cam);
    assert!(p.target_position.is_none());
    assert!(!p.wave_active);
}

#[test]
fn key_input_cancels_target() {
    let grid = empty_grid();
    let cam = camera();
    let mut p = ready_player();
    p.target_position = Some(v(60_000, 32_000));
    p.update(16, keys_right(), None, 0, &grid, &cam);
    assert!(p.target_position.is_none());
    // Movement came from the key, not the target.
    assert_eq!(p.position, v(35_200, 32_000));
}

#[test]
fn target_movement_normalizes_toward_target() {
    let grid = empty_grid();
    let cam = camera();
    let mut p = ready_player();
    // Straight to the right: the full step lands on the axis.
    p.target_position = Some(v(48_000, 32_000));
    p.update(16, KeyInput::none(), None, 0, &grid, &cam);
    assert_eq!(p.position, v(35_200, 32_000));
    assert_eq!(p.facing.row(), Direction::Right.row());
    assert!(p.is_moving);
    assert!(p.target_position.is_some());
}

#[test]
fn target_diagonal_split_by_length() {
    let grid = empty_grid();
    let cam = camera();
    let mut p = ready_player();
    // Offset (12000, -16000) has length 20000; the 3200 step splits into
    // 12000*3200/20000 = 1920 and 16000*3200/20000 = 2560.
    p.target_position = Some(v(44_000, 16_000));
    p.update(16, KeyInput::none(), None, 0, &grid, &cam);
    assert_eq!(p.position, v(33_920, 29_440));
    // The vertical axis dominates and the offset points up.
    assert_eq!(p.facing.row(), Direction::Up.row());
}

#[test]
fn reached_target_is_cleared() {
    let grid = empty_grid();
    let cam = camera();
    let mut p = ready_player();
    // Less than two pixels away.
    p.target_position = Some(v(33_000, 32_000));
    p.update(16, KeyInput::none(), None, 0, &grid, &cam);
    assert!(p.target_position.is_none());
    assert_eq!(p.position, v(32_000, 32_000));
    assert!(!p.is_moving);
    assert_eq!(p.animation_frame, 0);
}

#[test]
fn position_is_clamped_to_inset_bounds() {
    let grid = empty_grid();
    let cam = camera();
    let mut p = ready_player();
    p.position = v(25_000, 32_000);
    p.collider_position = v(25_000, 32_000);
    let keys = KeyInput { right: false, left: true, up: false, down: false };
    // Moving left by 3200 would land at 21800, below the inset minimum
    // 0 + 24000: the clamp pins it there.
    p.update(16, keys, None, 0, &grid, &cam);
    assert_eq!(p.position, v(24_000, 32_000));
}

#[test]
fn idle_pins_animation_frame() {
    let grid = empty_grid();
    let cam = camera();
    let mut p = ready_player();
    p.update(100, keys_right(), None, 0, &grid, &cam);
    assert_eq!(p.animation_frame, 1);
    p.update(100, KeyInput::none(), None, 0, &grid, &cam);
    assert_eq!(p.animation_frame, 0);
    assert!(!p.is_moving);
}

#[test]
fn walk_cycle_wraps_modulo_four() {
    let grid = empty_grid();
    let cam = camera();
    let mut p = ready_player();
    let mut frames: Vec<usize> = Vec::new();
    for _ in 0..5 {
        p.update(100, keys_right(), None, 0, &grid, &cam);
        frames.push(p.animation_frame);
    }
    assert_eq!(frames, vec![1, 2, 3, 0, 1]);
}

#[test]
fn animation_timer_accumulates_small_ticks() {
    let grid = empty_grid();
    let cam = camera();
    let mut p = ready_player();
    p.update(60, keys_right(), None, 0, &grid, &cam);
    assert_eq!(p.animation_frame, 0);
    assert_eq!(p.frame_timer, 60);
    p.update(60, keys_right(), None, 0, &grid, &cam);
    assert_eq!(p.animation_frame, 1);
    assert_eq!(p.frame_timer, 0);
}

#[test]
fn wave_effect_grows_then_fades() {
    let grid = empty_grid();
    let cam = camera();
    let mut p = ready_player();
    p.update(16, KeyInput::none(), Some(v(475_000, 325_000)), 0, &grid, &cam);
    assert!(p.wave_active);
    p.advance_wave_effect(300);
    assert!(p.wave_active);
    assert_eq!(p.target_effect_timer, 600);
    p.advance_wave_effect(300);
    assert!(!p.wave_active);
}

#[test]
fn sprite_rows_match_sheet_order() {
    assert_eq!(Direction::Down.row(), 0);
    assert_eq!(Direction::Up.row(), 1);
    assert_eq!(Direction::Left.row(), 2);
    assert_eq!(Direction::Right.row(), 3);
}
