use tilemap_physics::player::{spawn_player, spawn_pose, Pose};
use tilemap_physics::tiles::{spawn_tiles, tile_center, BodyKind, MAP_HEIGHT, MAP_WIDTH, TILE_SIZE};

#[test]
fn tiles_cover_every_cell_once() {
    let tiles = spawn_tiles();
    assert_eq!(tiles.len(), 32);
    for x in 0..MAP_WIDTH {
        for y in 0..MAP_HEIGHT {
            let at: Vec<_> = tiles.iter().filter(|t| t.x == x && t.y == y).collect();
            assert_eq!(at.len(), 1);
            let t = at[0];
            assert_eq!(t.center_x, 16 * x as i64);
            assert_eq!(t.center_y, 16 * y as i64);
            assert_eq!(t.body, BodyKind::Static);
            assert_eq!(t.collider_width, 16);
            assert_eq!(t.collider_height, 16);
            assert_eq!(t.texture_index, 0);
        }
    }
}

#[test]
fn tiles_are_laid_out_column_by_column() {
    let tiles = spawn_tiles();
    assert_eq!(tiles[0].x, 0);
    assert_eq!(tiles[0].center_x, 0);
    assert_eq!(tiles[5].x, 5);
    assert_eq!(tiles[5].center_x, 80);
    assert_eq!(tiles[31].x, 31);
    assert_eq!(tiles[31].center_x, 496);
    assert_eq!(tiles[31].center_y, 0);
}

#[test]
fn tile_center_of_cells() {
    assert_eq!(TILE_SIZE, 16);
    assert_eq!(tile_center(0, 0), (0, 0));
    assert_eq!(tile_center(3, 0), (48, 0));
    assert_eq!(tile_center(31, 0), (496, 0));
}

#[test]
fn player_is_one_dynamic_body_with_locked_rotation() {
    let p = spawn_player();
    assert_eq!(p.body, BodyKind::Dynamic);
    assert!(p.rotation_locked);
    assert_eq!(p.pose, Pose { x: 0, y: 100, z: 0, rotation_eighths: 1 });
    assert_eq!(p.shape_radius, 20);
    assert_eq!(p.shape_sides, 4);
    assert_eq!(p.collider.width, 30);
    assert_eq!(p.collider.height, 30);
    assert_eq!(p.collider.offset, Pose { x: 0, y: 0, z: 0, rotation_eighths: 1 });
}

#[test]
fn spawn_pose_is_above_the_floor_turned_an_eighth() {
    assert_eq!(spawn_pose(), Pose { x: 0, y: 100, z: 0, rotation_eighths: 1 });
}
