use hex_cellar::dungeon::{build, Dungeon, LEVEL_COUNT};
use hex_cellar::geometry::{Point, CELLS};
use hex_cellar::grid::Grid;
use hex_cellar::memory::{peek, player_name, poke, upcast_i4};
use hex_cellar::scheme::{MapError, Scheme};
use hex_cellar::tile::{Stairs, Tile};
use hex_cellar::world::World;
use rand::rngs::StdRng;
use rand::SeedableRng;

const ROOM: [&str; 13] = [
    "###################",
    "#<................#",
    "#.......1.........#",
    "#....AAA...aaa....#",
    "#.................#",
    "#....+............#",
    "#.................#",
    "#.................#",
    "#......1..........#",
    "#.................#",
    "#....<............#",
    "#.................#",
    "###################",
];

fn scheme_of(rows: &[&str]) -> Scheme {
    let mut grid = Vec::new();
    for row in rows {
        grid.extend(row.bytes());
    }
    Grid { grid }
}

fn dungeon(seed: u64) -> Dungeon {
    let mut rng = StdRng::seed_from_u64(seed);
    build(&vec![scheme_of(&ROOM)], &mut rng).ok().expect("the scheme builds")
}

fn world(seed: u64) -> World {
    let mut rng = StdRng::seed_from_u64(seed + 1000);
    World::new(dungeon(seed), &mut rng)
}

#[test]
fn dungeon_has_full_levels() {
    let d = dungeon(3);
    assert_eq!(d.len(), LEVEL_COUNT);
    for (i, level) in d.iter().enumerate() {
        let depth = (i + 1) as u8;
        let up: Vec<Point> = (0..CELLS as i32)
            .map(|k| Point(k % 19, k / 19))
            .filter(|p| *level.tiles.get(*p) == Tile::Stairs(Stairs::Up))
            .collect();
        assert_eq!(up.len(), 1);
        let items = level.items.grid.iter().filter(|x| x.is_some()).count();
        assert_eq!(items, 5);
        for (k, item) in level.items.grid.iter().enumerate() {
            if item.is_some() {
                assert_eq!(level.tiles.grid[k], Tile::Floor);
            }
        }
        let mut seen = Vec::new();
        for m in level.monsters.iter() {
            assert!(m.hp > 0);
            assert_eq!(m.hp, m.kind.info().max_hp);
            let (low, high) = m.kind.info().habitat;
            assert!(low <= depth && depth <= high);
            assert_eq!(*level.tiles.get(m.position), Tile::Floor);
            assert!(m.position.cheby_dist(up[0]) > 1);
            assert!(!seen.contains(&m.position));
            seen.push(m.position);
        }
        assert!(level.known_tiles.grid.iter().all(|k| !*k));
    }
}

#[test]
fn dungeon_reports_the_first_bad_scheme() {
    let mut bad: Vec<String> = ROOM.iter().map(|r| r.to_string()).collect();
    bad[2] = "#.................#".to_string();
    let refs: Vec<&str> = bad.iter().map(|s| s.as_str()).collect();
    let mut rng = StdRng::seed_from_u64(9);
    let r = build(&vec![scheme_of(&ROOM), scheme_of(&refs), scheme_of(&refs)], &mut rng);
    assert_eq!(r.err(), Some(MapError::SwitchError(2)));
}

#[test]
fn golden_seed_reproduces_the_dungeon() {
    let a = dungeon(77);
    let b = dungeon(77);
    for (x, y) in a.iter().zip(b.iter()) {
        assert_eq!(x.tiles.grid, y.tiles.grid);
        assert_eq!(x.items.grid, y.items.grid);
        assert_eq!(x.monsters, y.monsters);
    }
}

#[test]
fn new_world_starts_on_the_up_staircase() {
    let w = world(5);
    assert_eq!(w.player.depth, 1);
    assert_eq!(*w.dungeon[0].tiles.get(w.player.position), Tile::Stairs(Stairs::Up));
    assert!(*w.player.visible.get(w.player.position));
    assert!(*w.dungeon[0].known_tiles.get(w.player.position));
    assert_eq!(peek(&w, 0x00), 0xff);
    assert_eq!(peek(&w, 0x30), 0b11001010);
    assert_eq!(peek(&w, 0x31), 0b01100010);
    assert_eq!(peek(&w, 0x33), 1);
    assert_eq!(peek(&w, 0x34), 0xff);
    assert_eq!(player_name(&w), "abc");
    assert!(!w.log.messages.is_empty());
}

#[test]
fn memory_round_trip_on_byte_fields() {
    let mut w = world(6);
    for a in 0u8..0x40 {
        if (0x20..=0x23).contains(&a) || a == 0x32 || a == 0x36 || a == 0x37 {
            continue;
        }
        for v in 0u8..=255 {
            if a == 0x3d && v == 0 {
                // Depth 0 takes the player out of the dungeon; checked on its own.
                poke(&mut w, a, v);
                assert_eq!(peek(&w, a), v);
                poke(&mut w, a, 1);
                continue;
            }
            poke(&mut w, a, v);
            assert_eq!(peek(&w, a), v, "address {:#x} value {:#x}", a, v);
        }
        if a == 0x3d {
            poke(&mut w, a, 1);
        }
    }
}

#[test]
fn stub_addresses_read_zero() {
    let mut w = world(7);
    for a in [0x20u8, 0x21, 0x22, 0x23, 0x32, 0x36, 0x37] {
        poke(&mut w, a, 0xab);
        assert_eq!(peek(&w, a), 0);
    }
}

#[test]
fn nibbles_are_sign_extended() {
    let mut w = world(8);
    for d in -8i8..=7 {
        let low = (d as u8) & 0x0f;
        poke(&mut w, 0x3b, 0x30 | low);
        assert_eq!(w.player.def, d);
        assert_eq!(w.player.xl, 3);
        assert_eq!(peek(&w, 0x3b), 0x30 | low);
        poke(&mut w, 0x3e, ((d as u8) << 4) | 0x0f);
        assert_eq!(w.player.aptitude[0], d);
        assert_eq!(w.player.aptitude[1], -1);
        poke(&mut w, 0x3f, 0x70 | low);
        assert_eq!(w.player.aptitude[2], 7);
        assert_eq!(w.player.aptitude[3], d);
    }
    for v in 0u8..16 {
        let expected = if v >= 8 { v as i8 - 16 } else { v as i8 };
        assert_eq!(upcast_i4(v), expected);
        assert_eq!(upcast_i4(v | 0xf0), expected);
    }
}

#[test]
fn monster_records_read_their_fields() {
    let mut w = world(10);
    let m = w.dungeon[0].monsters[2];
    let flags = peek(&w, 0x10 + 6);
    assert_eq!(flags >> 4, m.kind.to_nibble());
    assert_eq!(flags & 0x0f, 0);
    assert_eq!(peek(&w, 0x10 + 7), m.position.as_byte());
    assert_eq!(peek(&w, 0x10 + 8), m.hp);
    poke(&mut w, 0x10 + 6, 0xf5);
    let m = w.dungeon[0].monsters[2];
    assert_eq!(m.kind.to_nibble(), 0xf);
    assert!(!m.charged && m.vulnerable && !m.venomous && m.corrupted);
    poke(&mut w, 0x10 + 7, 20);
    assert_eq!(w.dungeon[0].monsters[2].position, Point(1, 1));
}

#[test]
fn spell_memory_is_a_bit_mask() {
    let mut w = world(11);
    poke(&mut w, 0x1f, 0b1010_0101);
    assert_eq!(w.player.spell_memory, [true, false, true, false, false, true, false, true]);
    assert_eq!(peek(&w, 0x1f), 0b1010_0101);
}

#[test]
fn appearance_change_is_told() {
    let mut w = world(12);
    let before = w.log.messages.len();
    poke(&mut w, 0x00, 0xff);
    assert_eq!(w.log.messages.len(), before);
    // Same color class, another character: '!' + 2 is '#'.
    poke(&mut w, 0x00, 0b1110_0010);
    assert_eq!(w.log.messages[0].1, "You turn into a number sign!");
    // Same character, another color.
    poke(&mut w, 0x00, 0b1000_0010);
    assert_eq!(w.log.messages[0].1, "You turn red!");
    // Both change: '!' + 14 is '/', class 3 bright is aqua, named cyan.
    poke(&mut w, 0x00, 0b0110_1110);
    assert_eq!(w.log.messages[0].1, "You turn into a cyan slash!");
    // Only the character changes, to "one", which takes "a".
    poke(&mut w, 0x00, 0b0111_0000);
    assert_eq!(w.log.messages[0].1, "You turn into a one!");
}

#[test]
fn name_runs_into_following_memory_without_a_zero() {
    let mut w = world(13);
    for a in 1u8..16 {
        poke(&mut w, a, b'a' + a);
    }
    let name = player_name(&w);
    assert!(name.starts_with("bcdefghijklmnop"));
}

#[test]
fn stairs_move_the_depth_with_wrapping() {
    let mut w = world(14);
    assert_eq!(Stairs::Up.destination(&w.player), 0);
    assert_eq!(Stairs::Down.destination(&w.player), 2);
    w.player.depth = 255;
    assert_eq!(Stairs::Down.destination(&w.player), 0);
    w.player.depth = 3;
    w.player.stairs_delta = 2;
    assert_eq!(Stairs::Down.destination(&w.player), 5);
    assert_eq!(Stairs::Up.flip(), Stairs::Down);
}
