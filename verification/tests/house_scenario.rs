//! End-to-end collision scenario: a map with a 32-by-32-tile solid house
//! at world offset (16,16)-(528,528) in 16-pixel tiles. An actor approaches
//! the house center from outside at the default 200 px/s in fixed dt steps;
//! whatever the approach angle, no tick may end with the actor's collider
//! rectangle overlapping any solid tile.

use autonomous_game::camera::GameCamera;
use autonomous_game::geometry::{Recti, Vec2i};
use autonomous_game::grid::TileCollisionGrid;
use autonomous_game::player::{KeyInput, Player};

const TILE: i64 = 16_000;

fn house_grid() -> TileCollisionGrid {
    // Tiles 1..=32 on both axes: world millipixels 16000..528000.
    let mut entries: Vec<(usize, usize, bool)> = Vec::new();
    for row in 1..=32usize {
        for col in 1..=32usize {
            entries.push((col, row, true));
        }
    }
    TileCollisionGrid::build(&entries, 90, 90, TILE)
}

fn collider_of(p: &Player) -> Recti {
    Recti::new(p.position.x - 8_000, p.position.y - 8_000, 16_000, 16_000)
}

#[test]
fn approaches_never_end_inside_the_house() {
    let grid = house_grid();
    let cam = GameCamera::new(Vec2i::new(800_000, 600_000));
    // Bounds wider than the house on every side, so the edge clamp never
    // interferes with the approach.
    let bounds = Recti::new(-1_000_000, -1_000_000, 3_000_000, 3_000_000);
    let center = Vec2i::new(272_000, 272_000);
    let radius_px = 400.0_f64;

    let mut angle_deg = 0;
    while angle_deg < 360 {
        let rad = (angle_deg as f64).to_radians();
        let sx = 272_000.0 + radius_px * 1_000.0 * rad.cos();
        let sy = 272_000.0 + radius_px * 1_000.0 * rad.sin();
        let start = Vec2i::new(sx as i64, sy as i64);

        let mut p = Player::new(start);
        p.set_map_bounds(bounds);
        p.target_position = Some(center);
        assert!(
            !grid.is_blocked(collider_of(&p)),
            "angle {} starts clear of the house",
            angle_deg
        );
        for tick in 0..600 {
            p.update(16, KeyInput::none(), None, 0, &grid, &cam);
            assert!(
                !grid.is_blocked(collider_of(&p)),
                "angle {} tick {} ended overlapping the house",
                angle_deg,
                tick
            );
            if p.target_position.is_none() {
                break;
            }
        }
        angle_deg += 5;
    }
}
