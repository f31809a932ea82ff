use hex_cellar::fov::calculate;
use hex_cellar::geometry::{Point, CELLS};
use hex_cellar::grid::Grid;
use hex_cellar::level::Level;
use hex_cellar::monster::Monster;
use hex_cellar::tile::Tile;

fn open_level() -> Level {
    let mut tiles = Vec::new();
    let mut items = Vec::new();
    let mut known = Vec::new();
    for _ in 0..CELLS {
        tiles.push(Tile::Floor);
        items.push(None);
        known.push(false);
    }
    Level {
        tiles: Grid { grid: tiles },
        items: Grid { grid: items },
        known_tiles: Grid { grid: known },
        monsters: [Monster::null(); 5],
    }
}

fn cheby(a: Point, b: Point) -> i32 {
    (a.0 - b.0).abs().max((a.1 - b.1).abs())
}

#[test]
fn open_floor_shows_the_square_of_radius_four() {
    let level = open_level();
    let origin = Point(9, 6);
    let seen = calculate(&level, origin);
    for y in 0..13 {
        for x in 0..19 {
            let p = Point(x, y);
            assert_eq!(*seen.get(p), cheby(p, origin) <= 4, "{:?}", p);
        }
    }
}

#[test]
fn sight_is_clipped_at_the_board_edge() {
    let level = open_level();
    let origin = Point(0, 0);
    let seen = calculate(&level, origin);
    assert!(*seen.get(origin));
    assert!(*seen.get(Point(4, 4)));
    assert!(!*seen.get(Point(5, 0)));
    let count = seen.grid.iter().filter(|x| **x).count();
    assert_eq!(count, 25);
}

#[test]
fn origin_is_seen_even_inside_a_wall() {
    let mut level = open_level();
    level.tiles.set(Point(3, 3), Tile::Wall);
    let seen = calculate(&level, Point(3, 3));
    assert!(*seen.get(Point(3, 3)));
}

#[test]
fn wall_hides_the_cells_behind_it() {
    let mut level = open_level();
    let origin = Point(9, 6);
    assert!(*calculate(&level, origin).get(Point(12, 6)));
    level.tiles.set(Point(10, 6), Tile::Wall);
    let seen = calculate(&level, origin);
    assert!(*seen.get(Point(10, 6)));
    assert!(!*seen.get(Point(11, 6)));
    assert!(!*seen.get(Point(12, 6)));
    assert!(!*seen.get(Point(13, 6)));
    // Off the dominant axis the cells still show past the corner.
    assert!(*seen.get(Point(11, 7)));
}

#[test]
fn closed_doors_and_switches_block_sight() {
    let mut level = open_level();
    let origin = Point(9, 6);
    level.tiles.set(Point(9, 5), Tile::Door);
    level.tiles.set(Point(9, 7), Tile::Switch(hex_cellar::byte::BitNumber::Bit0));
    level.tiles.set(Point(8, 6), Tile::Doorway);
    let seen = calculate(&level, origin);
    assert!(!*seen.get(Point(9, 3)));
    assert!(!*seen.get(Point(9, 9)));
    assert!(*seen.get(Point(6, 6)));
}
