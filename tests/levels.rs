use hex_cellar::geometry::{Point, CELLS};
use hex_cellar::grid::Grid;
use hex_cellar::scheme::{build_map, flipped, parse_schemes, resolve_scheme, Choices, MapError, Scheme};
use hex_cellar::tile::{Stairs, Tile};
use hex_cellar::byte::BitNumber;
use rand::rngs::StdRng;
use rand::SeedableRng;

const PLAIN: [&str; 13] = [
    "###################",
    "#<................#",
    "#.......1.........#",
    "#....AAA...aaa....#",
    "#.................#",
    "#....+.....B......#",
    "#.........b.......#",
    "#.................#",
    "#......1..........#",
    "#.................#",
    "#....<....<.......#",
    "#.................#",
    "###################",
];

fn scheme_of(rows: &[&str]) -> Scheme {
    let mut grid = Vec::new();
    for row in rows {
        grid.extend(row.bytes());
    }
    assert_eq!(grid.len(), CELLS);
    Grid { grid }
}

fn count(g: &Grid<Tile>, t: Tile) -> usize {
    g.grid.iter().filter(|x| **x == t).count()
}

fn fixed_choices(mirror: bool, reverse: bool) -> Choices {
    let mut letters = vec![false; 26];
    letters[0] = true;
    Choices {
        upstairs: 1,
        downstairs: 2,
        switch1: 0,
        switch2: 1,
        bit1: BitNumber::Bit3,
        bit2: BitNumber::Bit5,
        letters,
        mirror,
        reverse,
    }
}

#[test]
fn build_gives_one_staircase_each() {
    let scheme = scheme_of(&PLAIN);
    for seed in 0..20u64 {
        let mut rng = StdRng::seed_from_u64(seed);
        let map = build_map(1, &scheme, &mut rng).ok().expect("legal scheme builds");
        assert_eq!(count(&map, Tile::Stairs(Stairs::Up)), 1);
        assert_eq!(count(&map, Tile::Stairs(Stairs::Down)), 1);
        let switches = map.grid.iter().filter(|t| matches!(t, Tile::Switch(_))).count();
        assert_eq!(switches, 2);
    }
}

#[test]
fn one_staircase_is_an_error() {
    let mut rows2: Vec<String> = PLAIN.iter().map(|r| r.to_string()).collect();
    rows2[10] = "#.................#".to_string();
    let refs: Vec<&str> = rows2.iter().map(|s| s.as_str()).collect();
    let scheme = scheme_of(&refs);
    let mut rng = StdRng::seed_from_u64(1);
    assert_eq!(build_map(7, &scheme, &mut rng).err(), Some(MapError::StairError(7)));
}

#[test]
fn one_switch_is_an_error() {
    let mut rows: Vec<String> = PLAIN.iter().map(|r| r.to_string()).collect();
    rows[8] = "#.................#".to_string();
    let refs: Vec<&str> = rows.iter().map(|s| s.as_str()).collect();
    let scheme = scheme_of(&refs);
    let mut rng = StdRng::seed_from_u64(1);
    assert_eq!(build_map(3, &scheme, &mut rng).err(), Some(MapError::SwitchError(3)));
}

#[test]
fn unknown_symbol_is_an_error() {
    let mut rows: Vec<String> = PLAIN.iter().map(|r| r.to_string()).collect();
    rows[4] = "#...?.......!.....#".to_string();
    let refs: Vec<&str> = rows.iter().map(|s| s.as_str()).collect();
    let scheme = scheme_of(&refs);
    let mut rng = StdRng::seed_from_u64(1);
    assert_eq!(build_map(2, &scheme, &mut rng).err(), Some(MapError::TileError(2, b'?')));
}

#[test]
fn stairs_are_checked_before_symbols() {
    let mut rows: Vec<String> = PLAIN.iter().map(|r| r.to_string()).collect();
    rows[4] = "#...?.............#".to_string();
    rows[1] = "#.................#".to_string();
    rows[10] = "#.................#".to_string();
    let refs: Vec<&str> = rows.iter().map(|s| s.as_str()).collect();
    let scheme = scheme_of(&refs);
    let mut rng = StdRng::seed_from_u64(1);
    assert_eq!(build_map(5, &scheme, &mut rng).err(), Some(MapError::StairError(5)));
}

#[test]
fn resolve_places_each_symbol() {
    let scheme = scheme_of(&PLAIN);
    let map = resolve_scheme(1, &scheme, &fixed_choices(false, false)).ok().unwrap();
    // The `<` of rank 0 is a plain floor; rank 1 up; rank 2 down.
    assert_eq!(*map.get(Point(1, 1)), Tile::Floor);
    assert_eq!(*map.get(Point(5, 10)), Tile::Stairs(Stairs::Up));
    assert_eq!(*map.get(Point(10, 10)), Tile::Stairs(Stairs::Down));
    assert_eq!(*map.get(Point(8, 2)), Tile::Switch(BitNumber::Bit3));
    assert_eq!(*map.get(Point(7, 8)), Tile::Switch(BitNumber::Bit5));
    assert_eq!(*map.get(Point(5, 5)), Tile::Door);
    assert_eq!(*map.get(Point(0, 0)), Tile::Wall);
    // Letter A is a wall, so `a` is a floor; B is a floor, so `b` is a wall.
    for x in 5..8 {
        assert_eq!(*map.get(Point(x, 3)), Tile::Wall);
    }
    for x in 11..14 {
        assert_eq!(*map.get(Point(x, 3)), Tile::Floor);
    }
    assert_eq!(*map.get(Point(11, 5)), Tile::Floor);
    assert_eq!(*map.get(Point(10, 6)), Tile::Wall);
}

#[test]
fn letters_are_symmetric_after_building() {
    let scheme = scheme_of(&PLAIN);
    for code in 0..16u32 {
        let mirror = code & 1 != 0;
        let reverse = code & 2 != 0;
        let mut choices = fixed_choices(mirror, reverse);
        choices.letters[0] = code & 4 != 0;
        choices.letters[1] = code & 8 != 0;
        let map = resolve_scheme(1, &scheme, &choices).ok().unwrap();
        for (upper, lower) in [(b'A', b'a'), (b'B', b'b')] {
            let mut upper_tiles = Vec::new();
            let mut lower_tiles = Vec::new();
            for y in 0..13i32 {
                for x in 0..19i32 {
                    let sx = if mirror != reverse { 18 - x } else { x };
                    let sy = if reverse { 12 - y } else { y };
                    let symbol = scheme.grid[(sy * 19 + sx) as usize];
                    let tile = *map.get(Point(x, y));
                    if symbol == upper {
                        upper_tiles.push(tile);
                    } else if symbol == lower {
                        lower_tiles.push(tile);
                    }
                }
            }
            assert!(!upper_tiles.is_empty() && !lower_tiles.is_empty());
            assert!(upper_tiles.iter().all(|t| *t == upper_tiles[0]));
            assert!(lower_tiles.iter().all(|t| *t == lower_tiles[0]));
            assert!(upper_tiles[0] == Tile::Wall || upper_tiles[0] == Tile::Floor);
            assert!(lower_tiles[0] == Tile::Wall || lower_tiles[0] == Tile::Floor);
            assert_ne!(upper_tiles[0], lower_tiles[0]);
        }
    }
}

#[test]
fn flipped_mirrors_and_reverses() {
    let mut cells = Vec::new();
    for i in 0..CELLS {
        cells.push(if i == 0 { Tile::Door } else { Tile::Floor });
    }
    let g = Grid { grid: cells };
    let m = flipped(&g, true, false);
    assert_eq!(*m.get(Point(18, 0)), Tile::Door);
    let r = flipped(&g, false, true);
    assert_eq!(*r.get(Point(18, 12)), Tile::Door);
    let both = flipped(&g, true, true);
    assert_eq!(*both.get(Point(0, 12)), Tile::Door);
    let none = flipped(&g, false, false);
    assert_eq!(*none.get(Point(0, 0)), Tile::Door);
}

#[test]
fn same_seed_same_level() {
    let scheme = scheme_of(&PLAIN);
    let mut a = StdRng::seed_from_u64(42);
    let mut b = StdRng::seed_from_u64(42);
    let first = build_map(1, &scheme, &mut a).ok().unwrap();
    let second = build_map(1, &scheme, &mut b).ok().unwrap();
    assert_eq!(first.grid, second.grid);
}

#[test]
fn scheme_file_is_parsed_block_by_block() {
    let mut lines: Vec<Vec<u8>> = Vec::new();
    for _ in 0..2 {
        lines.push(b"".to_vec());
        for row in PLAIN.iter() {
            lines.push(row.as_bytes().to_vec());
        }
    }
    let schemes = parse_schemes(&lines).ok().unwrap();
    assert_eq!(schemes.len(), 2);
    assert_eq!(schemes[1].grid, scheme_of(&PLAIN).grid);
    assert_eq!(parse_schemes(&Vec::new()).ok().unwrap().len(), 0);
}

#[test]
fn misshapen_scheme_reports_its_line() {
    let mut lines: Vec<Vec<u8>> = Vec::new();
    lines.push(b"".to_vec());
    for row in PLAIN.iter() {
        lines.push(row.as_bytes().to_vec());
    }
    lines.push(b"second".to_vec());
    lines.push(PLAIN[0].as_bytes().to_vec());
    lines.push(b"#...#".to_vec());
    assert_eq!(parse_schemes(&lines).err(), Some(MapError::ShapeError(17)));
    lines.truncate(16);
    assert_eq!(parse_schemes(&lines).err(), Some(MapError::ShapeError(17)));
}
