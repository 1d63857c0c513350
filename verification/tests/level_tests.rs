use platformer_core::config::{BLOCK_SIZE, HALF_BLOCK};
use platformer_core::level::Level;
use platformer_core::physics::{Vec2, Vec3};

fn empty_level() -> Level {
    Level::new(
        Vec3 { x: 0, y: 0, z: 0 },
        Vec2 { x: BLOCK_SIZE, y: BLOCK_SIZE },
        Vec2 { x: 0, y: 0 },
    )
}

#[test]
fn add_tile_places_solid_at_block_center() {
    let mut level = empty_level();
    level.add_tile((0, 0, String::from("tile_0069.png")));
    level.add_tile((2, -1, String::from("tile_0069.png")));
    assert_eq!(level.grid.len(), 2);
    assert_eq!(level.grid[0].pos_x, HALF_BLOCK);
    assert_eq!(level.grid[0].pos_y, HALF_BLOCK);
    assert_eq!(level.grid[1].pos_x, HALF_BLOCK + 2 * BLOCK_SIZE);
    assert_eq!(level.grid[1].pos_y, HALF_BLOCK - BLOCK_SIZE);
    assert_eq!(level.grid[0].bounds.half_size.x, HALF_BLOCK);
    assert_eq!(level.grid[0].texture_file, "tile_0069.png");
}

#[test]
fn contains_is_inclusive_on_all_edges() {
    let mut level = empty_level();
    level.add_tile((0, 0, String::from("tile_0069.png")));
    let solid = &level.grid[0];
    assert!(solid.contains(0, 0));
    assert!(solid.contains(BLOCK_SIZE, BLOCK_SIZE));
    assert!(solid.contains(0, BLOCK_SIZE));
    assert!(solid.contains(HALF_BLOCK, HALF_BLOCK));
    assert!(!solid.contains(BLOCK_SIZE + 1, HALF_BLOCK));
    assert!(!solid.contains(HALF_BLOCK, -1));
}

#[test]
fn query_point_finds_first_by_insertion_order() {
    let mut level = empty_level();
    level.add_tile((0, 0, String::from("tile_0069.png")));
    level.add_tile((0, 0, String::from("tile_0069.png")));
    level.add_tile((1, 0, String::from("tile_0069.png")));
    // Both of the first two solids contain the point; the first wins.
    assert_eq!(level.query_point(HALF_BLOCK, HALF_BLOCK), Some(0));
    // The shared edge belongs to the earliest solid that holds it.
    assert_eq!(level.query_point(BLOCK_SIZE, HALF_BLOCK), Some(0));
    assert_eq!(level.query_point(BLOCK_SIZE + HALF_BLOCK, HALF_BLOCK), Some(2));
}

#[test]
fn query_point_open_air_is_none() {
    let mut level = empty_level();
    assert_eq!(level.query_point(0, 0), None);
    level.add_tile((0, 0, String::from("tile_0069.png")));
    assert_eq!(level.query_point(0, 2 * BLOCK_SIZE), None);
    assert_eq!(level.query_point(-1, 0), None);
}
